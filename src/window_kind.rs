//! What a window or a tab shows: a terminal or a web page.
use vstd::prelude::*;

verus! {

/// The content of a window.
#[derive(Clone, Debug, PartialEq, Eq)]
pub enum WindowKind {
    Terminal,
    Web { url: String },
}

impl Default for WindowKind {
    fn default() -> (r: Self)
        ensures
            r is Terminal,
    {
        WindowKind::Terminal
    }
}

impl WindowKind {
    pub fn is_web(&self) -> (r: bool)
        ensures
            r == (self is Web),
    {
        match self {
            WindowKind::Web { .. } => true,
            WindowKind::Terminal => false,
        }
    }
}

/// The content of a tab, as the tab panel lists it.
#[derive(Clone, Debug, PartialEq, Eq)]
pub enum TabKind {
    Terminal,
    Web { url: String },
}

impl TabKind {
    /// The tab kind of a window of the given kind.
    pub fn from_window_kind(kind: &WindowKind) -> (r: Self)
        ensures
            kind is Terminal ==> r is Terminal,
            kind is Web ==> r is Web && r->Web_url@ == kind->Web_url@,
    {
        match kind {
            WindowKind::Terminal => TabKind::Terminal,
            WindowKind::Web { url } => TabKind::Web { url: url.clone() },
        }
    }

    /// The one-letter marker of the kind: `T` for a terminal, `W` for a web page.
    pub fn indicator(&self) -> (r: &'static str)
        ensures
            r@ == (if self is Terminal {
                "T"@
            } else {
                "W"@
            }),
    {
        match self {
            TabKind::Terminal => "T",
            TabKind::Web { .. } => "W",
        }
    }
}

} // verus!
