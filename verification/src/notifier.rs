use vstd::prelude::*;

verus! {

/// Settings of desktop popup notifications: how long a popup stays, and
/// the icon it shows.
pub struct Notifier {
    timeout_secs: u32,
    icon_path: Option<String>,
}

impl Notifier {
    pub closed spec fn spec_timeout_secs(&self) -> u32 {
        self.timeout_secs
    }

    pub closed spec fn spec_icon_path(&self) -> Option<Seq<char>> {
        match &self.icon_path {
            Some(p) => Some(p@),
            None => None,
        }
    }

    pub fn new(timeout_secs: u32, icon_path: Option<String>) -> (n: Self)
        ensures
            n.spec_timeout_secs() == timeout_secs,
            n.spec_icon_path() == (match icon_path {
                Some(p) => Some(p@),
                None => None,
            }),
    {
        Notifier { timeout_secs, icon_path }
    }

    /// How long a popup stays, in seconds.
    pub fn timeout_secs(&self) -> (t: u32)
        ensures
            t == self.spec_timeout_secs(),
    {
        self.timeout_secs
    }

    /// How long a popup stays, in milliseconds.
    pub fn timeout_millis(&self) -> (ms: u32)
        requires
            self.spec_timeout_secs() * 1000 <= u32::MAX,
        ensures
            ms == self.spec_timeout_secs() * 1000,
    {
        self.timeout_secs * 1000
    }

    /// The icon shown in the popup, if any.
    pub fn icon_path(&self) -> (p: Option<&String>)
        ensures
            self.spec_icon_path() == (match p {
                Some(s) => Some(s@),
                None => None,
            }),
    {
        match &self.icon_path {
            Some(s) => Some(s),
            None => None,
        }
    }
}

} // verus!
