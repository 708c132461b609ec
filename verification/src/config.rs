use vstd::prelude::*;

use crate::charset::Encoding;

verus! {

/// What the Enter key sends.
#[derive(Clone, Debug, PartialEq, Eq)]
pub enum CrLfMode {
    Cr,
    Lf,
    CrLf,
}

impl Default for CrLfMode {
    fn default() -> (m: Self)
        ensures
            m == CrLfMode::Cr,
    {
        CrLfMode::Cr
    }
}

impl CrLfMode {
    /// The position of the mode in a chooser: Cr, Lf, CrLf.
    pub fn choice_index(&self) -> (i: u32)
        ensures
            i == crlf_index(*self),
    {
        match self {
            CrLfMode::Cr => 0,
            CrLfMode::Lf => 1,
            CrLfMode::CrLf => 2,
        }
    }

    /// The mode at a chooser position; `Cr` for no or an unknown position.
    pub fn from_choice(active: Option<u32>) -> (m: CrLfMode)
        ensures
            m == crlf_at(active),
    {
        match active {
            Some(1) => CrLfMode::Lf,
            Some(2) => CrLfMode::CrLf,
            _ => CrLfMode::Cr,
        }
    }
}

pub open spec fn crlf_index(m: CrLfMode) -> u32 {
    match m {
        CrLfMode::Cr => 0,
        CrLfMode::Lf => 1,
        CrLfMode::CrLf => 2,
    }
}

pub open spec fn crlf_at(active: Option<u32>) -> CrLfMode {
    match active {
        Some(i) => if i == 1 { CrLfMode::Lf } else if i == 2 { CrLfMode::CrLf } else { CrLfMode::Cr },
        None => CrLfMode::Cr,
    }
}

/// The kind of proxy a site is reached through.
#[derive(Clone, Debug, PartialEq, Eq)]
pub enum ProxyType {
    /// No proxy: the site is reached directly.
    NoProxy,
    Socks4,
    Socks5,
    Http,
}

impl Default for ProxyType {
    fn default() -> (p: Self)
        ensures
            p == ProxyType::NoProxy,
    {
        ProxyType::NoProxy
    }
}

impl ProxyType {
    /// The position of the type in a chooser: none, SOCKS4, SOCKS5, HTTP.
    pub fn choice_index(&self) -> (i: u32)
        ensures
            i == proxy_index(*self),
    {
        match self {
            ProxyType::NoProxy => 0,
            ProxyType::Socks4 => 1,
            ProxyType::Socks5 => 2,
            ProxyType::Http => 3,
        }
    }

    /// The type at a chooser position; no proxy for no or an unknown
    /// position.
    pub fn from_choice(active: Option<u32>) -> (p: ProxyType)
        ensures
            p == proxy_at(active),
    {
        match active {
            Some(1) => ProxyType::Socks4,
            Some(2) => ProxyType::Socks5,
            Some(3) => ProxyType::Http,
            _ => ProxyType::NoProxy,
        }
    }
}

pub open spec fn proxy_index(p: ProxyType) -> u32 {
    match p {
        ProxyType::NoProxy => 0,
        ProxyType::Socks4 => 1,
        ProxyType::Socks5 => 2,
        ProxyType::Http => 3,
    }
}

pub open spec fn proxy_at(active: Option<u32>) -> ProxyType {
    match active {
        Some(i) => if i == 1 {
            ProxyType::Socks4
        } else if i == 2 {
            ProxyType::Socks5
        } else if i == 3 {
            ProxyType::Http
        } else {
            ProxyType::NoProxy
        },
        None => ProxyType::NoProxy,
    }
}

/// The position of an encoding in a chooser: Big5, UAO 2.41, UAO 2.50,
/// UTF-8.
pub open spec fn encoding_index(e: Encoding) -> u32 {
    match e {
        Encoding::Big5 => 0,
        Encoding::Uao241 => 1,
        Encoding::Uao250 => 2,
        Encoding::Utf8 => 3,
    }
}

pub open spec fn encoding_at(active: Option<u32>) -> Encoding {
    match active {
        Some(i) => if i == 1 {
            Encoding::Uao241
        } else if i == 2 {
            Encoding::Uao250
        } else if i == 3 {
            Encoding::Utf8
        } else {
            Encoding::Big5
        },
        None => Encoding::Big5,
    }
}

/// The position of an encoding in a chooser (see [`encoding_index`]).
pub fn encoding_choice_index(e: Encoding) -> (i: u32)
    ensures
        i == encoding_index(e),
{
    match e {
        Encoding::Big5 => 0,
        Encoding::Uao241 => 1,
        Encoding::Uao250 => 2,
        Encoding::Utf8 => 3,
    }
}

/// The encoding at a chooser position; Big5 for no or an unknown position.
pub fn encoding_from_choice(active: Option<u32>) -> (e: Encoding)
    ensures
        e == encoding_at(active),
{
    match active {
        Some(1) => Encoding::Uao241,
        Some(2) => Encoding::Uao250,
        Some(3) => Encoding::Utf8,
        _ => Encoding::Big5,
    }
}

/// Choosing the entry a setting is shown at gives the setting back, for
/// the line ending, the proxy type and the encoding alike.
pub proof fn law_choice_round_trip(m: CrLfMode, p: ProxyType, e: Encoding)
    ensures
        crlf_at(Some(crlf_index(m))) == m,
        proxy_at(Some(proxy_index(p))) == p,
        encoding_at(Some(encoding_index(e))) == e,
{
}

/// The chooser order of each setting: line endings CR, LF, CR LF at 0, 1,
/// 2; proxies none, SOCKS4, SOCKS5, HTTP at 0 to 3; encodings Big5, UAO
/// 2.41, UAO 2.50, UTF-8 at 0 to 3. No selection, or a position past the
/// last entry, chooses the first entry.
pub proof fn law_chooser_order(i: u32)
    ensures
        crlf_index(CrLfMode::Cr) == 0 && crlf_index(CrLfMode::Lf) == 1 && crlf_index(CrLfMode::CrLf) == 2,
        proxy_index(ProxyType::NoProxy) == 0 && proxy_index(ProxyType::Socks4) == 1
            && proxy_index(ProxyType::Socks5) == 2 && proxy_index(ProxyType::Http) == 3,
        encoding_index(Encoding::Big5) == 0 && encoding_index(Encoding::Uao241) == 1
            && encoding_index(Encoding::Uao250) == 2 && encoding_index(Encoding::Utf8) == 3,
        crlf_at(None) == CrLfMode::Cr && proxy_at(None) == ProxyType::NoProxy && encoding_at(None) == Encoding::Big5,
        i > 2 ==> crlf_at(Some(i)) == CrLfMode::Cr,
        i > 3 ==> proxy_at(Some(i)) == ProxyType::NoProxy,
        i > 3 ==> encoding_at(Some(i)) == Encoding::Big5,
        i <= 2 ==> crlf_index(crlf_at(Some(i))) == i,
        i <= 3 ==> proxy_index(proxy_at(Some(i))) == i,
        i <= 3 ==> encoding_index(encoding_at(Some(i))) == i,
{
}

#[derive(Clone, Debug, PartialEq, Eq)]
pub struct ProxyConfig {
    pub proxy_type: ProxyType,
    pub addr: String,
    pub port: String,
    pub user: String,
    pub pass: String,
}

impl Default for ProxyConfig {
    fn default() -> (p: Self)
        ensures
            p.proxy_type == ProxyType::NoProxy,
            p.addr@.len() == 0,
            p.port@.len() == 0,
            p.user@.len() == 0,
            p.pass@.len() == 0,
    {
        ProxyConfig {
            proxy_type: ProxyType::NoProxy,
            addr: String::new(),
            port: String::new(),
            user: String::new(),
            pass: String::new(),
        }
    }
}

/// The proxy a site keeps: none when the type says no proxy.
pub fn site_proxy(proxy: ProxyConfig) -> (r: Option<ProxyConfig>)
    ensures
        r == (match proxy.proxy_type {
            ProxyType::NoProxy => None,
            _ => Some(proxy),
        }),
{
    match proxy.proxy_type {
        ProxyType::NoProxy => None,
        _ => Some(proxy),
    }
}

/// Prompts to wait for and answers to send when logging in.
#[derive(Clone, Debug, PartialEq, Eq)]
pub struct AutoLogin {
    pub pre_login: String,
    pub pre_login_prompt: String,
    pub login: String,
    pub login_prompt: String,
    pub passwd: String,
    pub passwd_prompt: String,
    pub post_login: String,
}

impl AutoLogin {
    /// Every field is empty.
    pub open spec fn is_empty(&self) -> bool {
        &&& self.pre_login@.len() == 0
        &&& self.pre_login_prompt@.len() == 0
        &&& self.login@.len() == 0
        &&& self.login_prompt@.len() == 0
        &&& self.passwd@.len() == 0
        &&& self.passwd_prompt@.len() == 0
        &&& self.post_login@.len() == 0
    }
}

impl Default for AutoLogin {
    fn default() -> (a: Self)
        ensures
            a.is_empty(),
    {
        AutoLogin {
            pre_login: String::new(),
            pre_login_prompt: String::new(),
            login: String::new(),
            login_prompt: String::new(),
            passwd: String::new(),
            passwd_prompt: String::new(),
            post_login: String::new(),
        }
    }
}

/// One BBS site and how to talk to it.
#[derive(Clone, Debug, PartialEq, Eq)]
pub struct SiteConfig {
    pub name: String,
    pub url: String,
    pub encoding: Encoding,
    pub auto_reconnect: u32,
    pub anti_idle: u32,
    pub anti_idle_str: String,
    pub detect_dbchar: bool,
    pub rows_per_page: u32,
    pub cols_per_page: u32,
    pub auto_wrap_on_paste: u32,
    pub term_type: String,
    pub crlf: CrLfMode,
    pub auto_login: AutoLogin,
    pub uao: u32,
    pub proxy: Option<ProxyConfig>,
}

impl SiteConfig {
    /// The settings a fresh configuration starts with.
    pub open spec fn is_default(&self) -> bool {
        &&& self.name@.len() == 0
        &&& self.url@.len() == 0
        &&& self.encoding == Encoding::Big5
        &&& self.auto_reconnect == 20
        &&& self.anti_idle == 180
        &&& self.anti_idle_str@ == "^[OB"@
        &&& self.detect_dbchar
        &&& self.rows_per_page == 24
        &&& self.cols_per_page == 80
        &&& self.auto_wrap_on_paste == 78
        &&& self.term_type@ == "vt100"@
        &&& self.crlf == CrLfMode::Cr
        &&& self.auto_login.is_empty()
        &&& self.uao == 2
        &&& self.proxy is None
    }
}

impl Default for SiteConfig {
    /// A site with no name or address: Big5, a 24 by 80 vt100 screen,
    /// reconnect after 20 s, anti-idle string `^[OB` every 180 s.
    fn default() -> (s: Self)
        ensures
            s.is_default(),
    {
        SiteConfig {
            name: String::new(),
            url: String::new(),
            encoding: Encoding::Big5,
            auto_reconnect: 20,
            anti_idle: 180,
            anti_idle_str: "^[OB".to_string(),
            detect_dbchar: true,
            rows_per_page: 24,
            cols_per_page: 80,
            auto_wrap_on_paste: 78,
            term_type: "vt100".to_string(),
            crlf: CrLfMode::Cr,
            auto_login: AutoLogin::default(),
            uao: 2,
            proxy: None,
        }
    }
}

/// Position and size of the main window.
#[derive(Clone, Debug, PartialEq, Eq)]
pub struct WindowConfig {
    pub x: i32,
    pub y: i32,
    pub w: i32,
    pub h: i32,
    pub state: i32,
    pub maximized: bool,
}

impl WindowConfig {
    /// The settings a fresh configuration starts with.
    pub open spec fn is_default(&self) -> bool {
        *self == (WindowConfig { x: 40, y: 40, w: 640, h: 480, state: 0, maximized: false })
    }
}

impl Default for WindowConfig {
    fn default() -> (w: Self)
        ensures
            w.is_default(),
    {
        WindowConfig { x: 40, y: 40, w: 640, h: 480, state: 0, maximized: false }
    }
}

#[derive(Clone, Debug, PartialEq)]
pub struct GeneralConfig {
    pub query_on_exit: bool,
    pub query_on_close_conn: bool,
    pub cancel_sel_after_copy: bool,
    pub copy_trim_tail: bool,
    pub opacity: i32,
    pub show_toolbar: bool,
    pub show_statusbar: bool,
    pub show_tabbar: bool,
    pub show_menubar: bool,
    pub popup_notifier: bool,
    pub popup_timeout: i32,
    pub mid_click_as_close: bool,
}

impl GeneralConfig {
    /// The settings a fresh configuration starts with.
    pub open spec fn is_default(&self) -> bool {
        *self == (GeneralConfig {
            query_on_exit: true,
            query_on_close_conn: true,
            cancel_sel_after_copy: true,
            copy_trim_tail: true,
            opacity: 100,
            show_toolbar: true,
            show_statusbar: true,
            show_tabbar: true,
            show_menubar: true,
            popup_notifier: true,
            popup_timeout: 6,
            mid_click_as_close: true,
        })
    }
}

impl Default for GeneralConfig {
    /// Every switch on, full opacity, popups shown for 6 s.
    fn default() -> (g: Self)
        ensures
            g.is_default(),
    {
        GeneralConfig {
            query_on_exit: true,
            query_on_close_conn: true,
            cancel_sel_after_copy: true,
            copy_trim_tail: true,
            opacity: 100,
            show_toolbar: true,
            show_statusbar: true,
            show_tabbar: true,
            show_menubar: true,
            popup_notifier: true,
            popup_timeout: 6,
            mid_click_as_close: true,
        }
    }
}

#[derive(Clone, Debug, PartialEq, Eq)]
pub struct TerminalConfig {
    pub rows_per_page: u32,
    pub cols_per_page: u32,
    pub beep_on_bell: bool,
}

impl TerminalConfig {
    /// The settings a fresh configuration starts with.
    pub open spec fn is_default(&self) -> bool {
        *self == (TerminalConfig { rows_per_page: 24, cols_per_page: 80, beep_on_bell: true })
    }
}

impl Default for TerminalConfig {
    fn default() -> (t: Self)
        ensures
            t.is_default(),
    {
        TerminalConfig { rows_per_page: 24, cols_per_page: 80, beep_on_bell: true }
    }
}

#[derive(Clone, Debug, PartialEq, Eq)]
pub struct DisplayConfig {
    pub anti_alias_font: bool,
    pub compact_layout: bool,
    pub char_padding_x: i32,
    pub char_padding_y: i32,
    pub font_size: i32,
    pub font_family: String,
    pub font_size_en: i32,
    pub font_family_en: String,
}

impl DisplayConfig {
    /// The settings a fresh configuration starts with.
    pub open spec fn is_default(&self) -> bool {
        &&& self.anti_alias_font
        &&& !self.compact_layout
        &&& self.char_padding_x == 0
        &&& self.char_padding_y == 0
        &&& self.font_size == 14
        &&& self.font_family@ == "WenQuanYi Micro Hei Mono"@
        &&& self.font_size_en == 14
        &&& self.font_family_en@ == "WenQuanYi Micro Hei Mono"@
    }
}

impl Default for DisplayConfig {
    fn default() -> (d: Self)
        ensures
            d.is_default(),
    {
        DisplayConfig {
            anti_alias_font: true,
            compact_layout: false,
            char_padding_x: 0,
            char_padding_y: 0,
            font_size: 14,
            font_family: "WenQuanYi Micro Hei Mono".to_string(),
            font_size_en: 14,
            font_family_en: "WenQuanYi Micro Hei Mono".to_string(),
        }
    }
}

#[derive(Clone, Debug, PartialEq, Eq)]
pub struct HotkeyConfig {
    pub key_site_list: String,
    pub key_new_conn0: String,
    pub key_new_conn1: String,
    pub key_reconn0: String,
    pub key_reconn1: String,
    pub key_close0: String,
    pub key_close1: String,
    pub key_next_page: String,
    pub key_prev_page: String,
    pub key_first_page: String,
    pub key_last_page: String,
    pub key_copy0: String,
    pub key_copy1: String,
    pub key_paste0: String,
    pub key_paste1: String,
    pub key_paste_clipboard: String,
    pub key_emotions: String,
    pub key_fullscreen: String,
    pub key_show_main_window: String,
}

impl HotkeyConfig {
    /// The settings a fresh configuration starts with.
    pub open spec fn is_default(&self) -> bool {
        &&& self.key_site_list@ == "<Alt>S"@
        &&& self.key_new_conn0@ == "<Alt>Q"@
        &&& self.key_new_conn1@ == "<Ctrl><Shift>T"@
        &&& self.key_reconn0@ == "<Alt>R"@
        &&& self.key_reconn1@ == "<Ctrl>Insert"@
        &&& self.key_close0@ == "<Alt>W"@
        &&& self.key_close1@ == "<Ctrl>Delete"@
        &&& self.key_next_page@ == "<Alt>X"@
        &&& self.key_prev_page@ == "<Alt>Z"@
        &&& self.key_first_page@ == "<Ctrl>Home"@
        &&& self.key_last_page@ == "<Ctrl>End"@
        &&& self.key_copy0@ == "<Alt>O"@
        &&& self.key_copy1@ == "<Ctrl><Shift>C"@
        &&& self.key_paste0@ == "<Alt>P"@
        &&& self.key_paste1@ == "<Ctrl><Shift>V"@
        &&& self.key_paste_clipboard@ == "<Shift>Insert"@
        &&& self.key_emotions@ == "<Ctrl>Return"@
        &&& self.key_fullscreen@ == "<ALT>Return"@
        &&& self.key_show_main_window@ == "<Alt>M"@
    }
}

impl Default for HotkeyConfig {
    fn default() -> (h: Self)
        ensures
            h.is_default(),
    {
        HotkeyConfig {
            key_site_list: "<Alt>S".to_string(),
            key_new_conn0: "<Alt>Q".to_string(),
            key_new_conn1: "<Ctrl><Shift>T".to_string(),
            key_reconn0: "<Alt>R".to_string(),
            key_reconn1: "<Ctrl>Insert".to_string(),
            key_close0: "<Alt>W".to_string(),
            key_close1: "<Ctrl>Delete".to_string(),
            key_next_page: "<Alt>X".to_string(),
            key_prev_page: "<Alt>Z".to_string(),
            key_first_page: "<Ctrl>Home".to_string(),
            key_last_page: "<Ctrl>End".to_string(),
            key_copy0: "<Alt>O".to_string(),
            key_copy1: "<Ctrl><Shift>C".to_string(),
            key_paste0: "<Alt>P".to_string(),
            key_paste1: "<Ctrl><Shift>V".to_string(),
            key_paste_clipboard: "<Shift>Insert".to_string(),
            key_emotions: "<Ctrl>Return".to_string(),
            key_fullscreen: "<ALT>Return".to_string(),
            key_show_main_window: "<Alt>M".to_string(),
        }
    }
}

/// What a fresh configuration holds: a site on Big5 with a 24 by 80 vt100
/// screen, reconnecting after 20 s, sending `^[OB` after 180 s idle,
/// wrapping pastes at 78 columns, Enter sending CR, UAO 2 and no proxy;
/// every general switch on, full opacity, popups for 6 s; a 640 by 480
/// window at 40, 40; a terminal of 24 by 80 that beeps; anti-aliased
/// 14-point "WenQuanYi Micro Hei Mono" without padding; and the stock
/// hotkeys.
pub proof fn law_fresh_settings(
    site: SiteConfig,
    window: WindowConfig,
    general: GeneralConfig,
    terminal: TerminalConfig,
    display: DisplayConfig,
    hotkeys: HotkeyConfig,
)
    requires
        site.is_default(),
        window.is_default(),
        general.is_default(),
        terminal.is_default(),
        display.is_default(),
        hotkeys.is_default(),
    ensures
        site.name@ == Seq::<char>::empty() && site.url@ == Seq::<char>::empty(),
        site.encoding == Encoding::Big5 && site.auto_reconnect == 20 && site.anti_idle == 180,
        site.anti_idle_str@ == seq!['^', '[', 'O', 'B'],
        site.detect_dbchar && site.rows_per_page == 24 && site.cols_per_page == 80,
        site.auto_wrap_on_paste == 78 && site.term_type@ == seq!['v', 't', '1', '0', '0'],
        site.crlf == CrLfMode::Cr && site.uao == 2 && site.proxy is None,
        site.auto_login.login@.len() == 0 && site.auto_login.passwd@.len() == 0,
        window.x == 40 && window.y == 40 && window.w == 640 && window.h == 480 && window.state == 0
            && !window.maximized,
        general.query_on_exit && general.query_on_close_conn && general.cancel_sel_after_copy
            && general.copy_trim_tail && general.show_toolbar && general.show_statusbar && general.show_tabbar
            && general.show_menubar && general.popup_notifier && general.mid_click_as_close,
        general.opacity == 100 && general.popup_timeout == 6,
        terminal.rows_per_page == 24 && terminal.cols_per_page == 80 && terminal.beep_on_bell,
        display.anti_alias_font && !display.compact_layout && display.char_padding_x == 0
            && display.char_padding_y == 0 && display.font_size == 14 && display.font_size_en == 14,
        display.font_family@.len() == 24 && display.font_family@ == display.font_family_en@,
        hotkeys.key_site_list@ == seq!['<', 'A', 'l', 't', '>', 'S'],
        hotkeys.key_show_main_window@ == seq!['<', 'A', 'l', 't', '>', 'M'],
        hotkeys.key_next_page@ == seq!['<', 'A', 'l', 't', '>', 'X'],
        hotkeys.key_prev_page@ == seq!['<', 'A', 'l', 't', '>', 'Z'],
        hotkeys.key_copy0@ == seq!['<', 'A', 'l', 't', '>', 'O'],
        hotkeys.key_paste0@ == seq!['<', 'A', 'l', 't', '>', 'P'],
        hotkeys.key_reconn0@ == seq!['<', 'A', 'l', 't', '>', 'R'],
        hotkeys.key_close0@ == seq!['<', 'A', 'l', 't', '>', 'W'],
        hotkeys.key_new_conn0@ == seq!['<', 'A', 'l', 't', '>', 'Q'],
{
    reveal_strlit("^[OB");
    reveal_strlit("vt100");
    reveal_strlit("WenQuanYi Micro Hei Mono");
    reveal_strlit("<Alt>S");
    reveal_strlit("<Alt>M");
    reveal_strlit("<Alt>X");
    reveal_strlit("<Alt>Z");
    reveal_strlit("<Alt>O");
    reveal_strlit("<Alt>P");
    reveal_strlit("<Alt>R");
    reveal_strlit("<Alt>W");
    reveal_strlit("<Alt>Q");
}

/// All settings of the program.
#[derive(Clone, Debug, PartialEq)]
pub struct AppConfig {
    pub sites: Vec<SiteConfig>,
    pub default_site: SiteConfig,
    pub window: WindowConfig,
    pub general: GeneralConfig,
    pub terminal: TerminalConfig,
    pub display: DisplayConfig,
    pub hotkeys: HotkeyConfig,
    pub web_browser: String,
    pub mail_client: String,
    pub socket_timeout: u32,
}

impl Default for AppConfig {
    /// No saved sites, every section at its default, `xdg-open` and
    /// `xdg-email` as helpers, a 30 s socket timeout.
    fn default() -> (c: Self)
        ensures
            c.sites@.len() == 0,
            c.default_site.is_default(),
            c.window.is_default(),
            c.general.is_default(),
            c.terminal.is_default(),
            c.display.is_default(),
            c.hotkeys.is_default(),
            c.web_browser@ == "xdg-open"@,
            c.mail_client@ == "xdg-email"@,
            c.socket_timeout == 30,
    {
        AppConfig {
            sites: Vec::new(),
            default_site: SiteConfig::default(),
            window: WindowConfig::default(),
            general: GeneralConfig::default(),
            terminal: TerminalConfig::default(),
            display: DisplayConfig::default(),
            hotkeys: HotkeyConfig::default(),
            web_browser: "xdg-open".to_string(),
            mail_client: "xdg-email".to_string(),
            socket_timeout: 30,
        }
    }
}

} // verus!
