use pcmanx_rs::charset::Encoding;
use pcmanx_rs::config::{
    AppConfig, AutoLogin, CrLfMode, DisplayConfig, GeneralConfig, HotkeyConfig, ProxyConfig, ProxyType, SiteConfig,
    TerminalConfig, WindowConfig,
};

#[test]
fn app_config_default_sites_empty() {
    let config = AppConfig::default();
    assert!(config.sites.is_empty());
}

#[test]
fn site_config_default_is_valid() {
    let site = SiteConfig::default();
    assert_eq!(site.rows_per_page, 24);
    assert_eq!(site.cols_per_page, 80);
    assert_eq!(site.encoding, Encoding::Big5);
}

#[test]
fn site_config_default_fields() {
    let site = SiteConfig::default();
    assert_eq!(site.name, "");
    assert_eq!(site.url, "");
    assert_eq!(site.auto_reconnect, 20);
    assert_eq!(site.anti_idle, 180);
    assert_eq!(site.anti_idle_str, "^[OB");
    assert!(site.detect_dbchar);
    assert_eq!(site.auto_wrap_on_paste, 78);
    assert_eq!(site.term_type, "vt100");
    assert_eq!(site.crlf, CrLfMode::Cr);
    assert_eq!(site.auto_login, AutoLogin::default());
    assert_eq!(site.uao, 2);
    assert!(site.proxy.is_none());
}

#[test]
fn section_defaults() {
    let w = WindowConfig::default();
    assert_eq!((w.x, w.y, w.w, w.h, w.state, w.maximized), (40, 40, 640, 480, 0, false));
    let g = GeneralConfig::default();
    assert_eq!(g.opacity, 100);
    assert_eq!(g.popup_timeout, 6);
    assert!(g.query_on_exit && g.show_toolbar && g.mid_click_as_close);
    let t = TerminalConfig::default();
    assert_eq!((t.rows_per_page, t.cols_per_page, t.beep_on_bell), (24, 80, true));
    let d = DisplayConfig::default();
    assert_eq!(d.font_size, 14);
    assert_eq!(d.font_family, "WenQuanYi Micro Hei Mono");
    let h = HotkeyConfig::default();
    assert_eq!(h.key_site_list, "<Alt>S");
    assert_eq!(h.key_fullscreen, "<ALT>Return");
    let p = ProxyConfig::default();
    assert_eq!(p.proxy_type, ProxyType::NoProxy);
    assert_eq!(CrLfMode::default(), CrLfMode::Cr);
}

#[test]
fn app_config_default_helpers() {
    let config = AppConfig::default();
    assert_eq!(config.web_browser, "xdg-open");
    assert_eq!(config.mail_client, "xdg-email");
    assert_eq!(config.socket_timeout, 30);
    assert_eq!(config.default_site, SiteConfig::default());
}
