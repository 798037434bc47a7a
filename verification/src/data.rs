//! Data model of the interactive front end.
//!
//! The front end is a thin presentation layer over the control plane: it
//! reads and writes credentials over HTTP and triggers actions.  Its
//! rendering and input plumbing live outside the library; the values it
//! passes around, and the token mapping of the carrier suffix, are here.

use vstd::prelude::*;
use crate::scan::str_eq;

verus! {

/// The front end's own failure type; carries the text of the underlying
/// I/O error.
#[derive(Clone, Debug)]
pub enum AppError {
    StdIo(String),
}

impl AppError {
    /// A human-readable description of the error.
    pub fn describe(&self) -> (r: String)
        ensures
            self matches AppError::StdIo(m) ==> r@ == "std io error: "@ + m@,
    {
        match self {
            AppError::StdIo(m) => String::from_str("std io error: ").concat(m.as_str()),
        }
    }
}

/// Carrier affiliation, as the front end edits and submits it.
#[derive(Clone, Copy, Debug, PartialEq, Eq, Structural)]
pub enum Suffix {
    ChinaMobile,
    ChinaUnicom,
    ChinaTelecom,
    Local,
}

/// The fixed token of each carrier suffix.
pub open spec fn spec_token(s: Suffix) -> Seq<char> {
    match s {
        Suffix::ChinaMobile => "@yd"@,
        Suffix::ChinaUnicom => "@lt"@,
        Suffix::ChinaTelecom => "@dx"@,
        Suffix::Local => "@hsd"@,
    }
}

/// The carrier a token names, if any: the inverse of the token mapping,
/// with unknown tokens rejected rather than defaulted.
pub open spec fn spec_parse_token(t: Seq<char>) -> Option<Suffix> {
    if t == "@yd"@ {
        Some(Suffix::ChinaMobile)
    } else if t == "@lt"@ {
        Some(Suffix::ChinaUnicom)
    } else if t == "@dx"@ {
        Some(Suffix::ChinaTelecom)
    } else if t == "@hsd"@ {
        Some(Suffix::Local)
    } else {
        None
    }
}

impl Suffix {
    /// The token the portal expects for this carrier.
    pub fn to_str(&self) -> (r: &str)
        ensures
            r@ == spec_token(*self),
    {
        match self {
            Suffix::ChinaMobile => "@yd",
            Suffix::ChinaUnicom => "@lt",
            Suffix::ChinaTelecom => "@dx",
            Suffix::Local => "@hsd",
        }
    }

    /// Read a stored token back; an unknown token is rejected.
    pub fn parse_token(t: &str) -> (r: Option<Suffix>)
        ensures
            r == spec_parse_token(t@),
    {
        if str_eq(t, "@yd") {
            Some(Suffix::ChinaMobile)
        } else if str_eq(t, "@lt") {
            Some(Suffix::ChinaUnicom)
        } else if str_eq(t, "@dx") {
            Some(Suffix::ChinaTelecom)
        } else if str_eq(t, "@hsd") {
            Some(Suffix::Local)
        } else {
            None
        }
    }
}

impl Default for Suffix {
    /// The form's initial choice.
    fn default() -> (r: Suffix)
        ensures
            r == Suffix::Local,
    {
        Suffix::Local
    }
}

/// Law: the token mapping is bidirectional.  Every carrier's token reads
/// back as exactly that carrier, so a round trip through the persisted
/// form loses nothing.
pub proof fn lemma_token_round_trip(s: Suffix)
    ensures
        spec_parse_token(spec_token(s)) == Some(s),
{
    reveal_strlit("@yd");
    reveal_strlit("@lt");
    reveal_strlit("@dx");
    reveal_strlit("@hsd");
    assert("@yd"@.len() == 3 && "@lt"@.len() == 3 && "@dx"@.len() == 3 && "@hsd"@.len() == 4);
    assert("@yd"@[1] == 'y' && "@lt"@[1] == 'l' && "@dx"@[1] == 'd' && "@hsd"@[1] == 'h');
}

/// Credentials as the front end's form holds them.
#[derive(Clone, Debug)]
pub struct UserInfo {
    pub id: String,
    pub password: String,
    pub suffix: Suffix,
}

impl Default for UserInfo {
    /// An empty form.
    fn default() -> (r: UserInfo)
        ensures
            r.id@ == Seq::<char>::empty(),
            r.password@ == Seq::<char>::empty(),
            r.suffix == Suffix::Local,
    {
        UserInfo { id: String::new(), password: String::new(), suffix: Suffix::Local }
    }
}

/// The front end's pages.
#[derive(Clone, Copy, Debug, PartialEq, Eq, Structural)]
pub enum AppPage {
    Menu,
    Form,
}

/// The control-plane calls the front end makes in the background.
#[derive(Clone, Copy, Debug, PartialEq, Eq, Structural)]
pub enum DaemonRequest {
    Logout,
    SetAccount,
}

/// What the front end's components ask the runtime to do.
pub enum Action {
    PingDaemon,
    Logout,
    JumpTo(AppPage),
    Draw,
    Quit,
    GetAccount,
    SelectInput(u16),
    SelectCheckbox(u16),
    SetAccount(UserInfo),
}

/// Severity of a pop-up notification.
#[derive(Clone, Copy, Debug, PartialEq, Eq, Structural)]
pub enum Level {
    Error,
    Info,
}

} // verus!
