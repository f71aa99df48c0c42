//! The closed vocabularies of the settings domain and their stored forms.

use vstd::prelude::*;
use vstd::string::*;
use crate::text::text_eq;

verus! {

/// The application a setting belongs to.
#[derive(Clone, Copy, Debug, PartialEq, Eq, Structural)]
pub enum AppKind {
    Client,
    Employee,
}

/// The stored form of an application kind.
pub open spec fn app_kind_text(k: AppKind) -> Seq<char> {
    match k {
        AppKind::Client => "client"@,
        AppKind::Employee => "employee"@,
    }
}

/// The application kind a stored form names, if any.
pub open spec fn app_kind_from_text(s: Seq<char>) -> Option<AppKind> {
    if s == "client"@ {
        Some(AppKind::Client)
    } else if s == "employee"@ {
        Some(AppKind::Employee)
    } else {
        None
    }
}

impl AppKind {
    /// The stored form of this application kind.
    pub fn as_db_str(self) -> (r: &'static str)
        ensures
            r@ == app_kind_text(self),
    {
        match self {
            AppKind::Client => "client",
            AppKind::Employee => "employee",
        }
    }

    /// The application kind a stored form names; anything else is refused
    /// with a message naming the value.
    pub fn parse_db_str(value: &str) -> (r: Result<AppKind, String>)
        ensures
            match r {
                Ok(k) => app_kind_from_text(value@) == Some(k),
                Err(m) => app_kind_from_text(value@) is None && m@ == "Unsupported app kind: "@
                    + value@,
            },
    {
        if text_eq(value, "client") {
            Ok(AppKind::Client)
        } else if text_eq(value, "employee") {
            Ok(AppKind::Employee)
        } else {
            let mut m = String::from_str("Unsupported app kind: ");
            m.append(value);
            Err(m)
        }
    }
}

impl std::str::FromStr for AppKind {
    type Err = String;

    fn from_str(value: &str) -> (r: Result<AppKind, String>)
        ensures
            match r {
                Ok(k) => app_kind_from_text(value@) == Some(k),
                Err(m) => app_kind_from_text(value@) is None && m@ == "Unsupported app kind: "@
                    + value@,
            },
    {
        AppKind::parse_db_str(value)
    }
}

/// Reading back the stored form of an application kind gives that kind, and
/// a stored form that reads as a kind is that kind's form.
pub proof fn lemma_app_kind_round_trip(k: AppKind, s: Seq<char>)
    ensures
        app_kind_from_text(app_kind_text(k)) == Some(k),
        app_kind_from_text(s) == Some(k) ==> app_kind_text(k) == s,
{
    reveal_strlit("client");
    reveal_strlit("employee");
    assert("client"@[0] != "employee"@[0]);
}

/// A colour theme.
#[derive(Clone, Copy, Debug, PartialEq, Eq, Structural)]
pub enum Theme {
    Light,
    Dark,
    System,
}

/// The stored form of a theme.
pub open spec fn theme_text(t: Theme) -> Seq<char> {
    match t {
        Theme::Light => "light"@,
        Theme::Dark => "dark"@,
        Theme::System => "system"@,
    }
}

/// The theme a stored form names, if any.
pub open spec fn theme_from_text(s: Seq<char>) -> Option<Theme> {
    if s == "light"@ {
        Some(Theme::Light)
    } else if s == "dark"@ {
        Some(Theme::Dark)
    } else if s == "system"@ {
        Some(Theme::System)
    } else {
        None
    }
}

impl Theme {
    /// The stored form of this theme.
    pub fn as_db_str(self) -> (r: &'static str)
        ensures
            r@ == theme_text(self),
    {
        match self {
            Theme::Light => "light",
            Theme::Dark => "dark",
            Theme::System => "system",
        }
    }

    /// The theme a stored form names; anything else is refused with a message
    /// naming the value.
    pub fn parse_db_str(value: &str) -> (r: Result<Theme, String>)
        ensures
            match r {
                Ok(t) => theme_from_text(value@) == Some(t),
                Err(m) => theme_from_text(value@) is None && m@ == "Unsupported theme: "@
                    + value@,
            },
    {
        if text_eq(value, "light") {
            Ok(Theme::Light)
        } else if text_eq(value, "dark") {
            Ok(Theme::Dark)
        } else if text_eq(value, "system") {
            Ok(Theme::System)
        } else {
            let mut m = String::from_str("Unsupported theme: ");
            m.append(value);
            Err(m)
        }
    }
}

impl std::str::FromStr for Theme {
    type Err = String;

    fn from_str(value: &str) -> (r: Result<Theme, String>)
        ensures
            match r {
                Ok(t) => theme_from_text(value@) == Some(t),
                Err(m) => theme_from_text(value@) is None && m@ == "Unsupported theme: "@
                    + value@,
            },
    {
        Theme::parse_db_str(value)
    }
}

/// Reading back the stored form of a theme gives that theme, and a stored
/// form that reads as a theme is that theme's form.
pub proof fn lemma_theme_round_trip(t: Theme, s: Seq<char>)
    ensures
        theme_from_text(theme_text(t)) == Some(t),
        theme_from_text(s) == Some(t) ==> theme_text(t) == s,
{
    reveal_strlit("light");
    reveal_strlit("dark");
    reveal_strlit("system");
    assert("light"@[0] != "dark"@[0]);
    assert("light"@[0] != "system"@[0]);
    assert("dark"@[0] != "system"@[0]);
}

/// A role a token grants.
#[derive(Clone, Copy, Debug, PartialEq, Eq, Structural)]
pub enum Role {
    Client,
    Employee,
}

/// The role a token claim names, if any.
pub open spec fn role_from_claim(s: Seq<char>) -> Option<Role> {
    if s == "CLIENT"@ {
        Some(Role::Client)
    } else if s == "EMPLOYEE"@ {
        Some(Role::Employee)
    } else {
        None
    }
}

impl Role {
    /// The role a token claim names; any other claim is unsupported.
    pub fn from_claim(value: &str) -> (r: Result<Role, &'static str>)
        ensures
            match r {
                Ok(role) => role_from_claim(value@) == Some(role),
                Err(m) => role_from_claim(value@) is None && m@ == "unsupported role"@,
            },
    {
        if text_eq(value, "CLIENT") {
            Ok(Role::Client)
        } else if text_eq(value, "EMPLOYEE") {
            Ok(Role::Employee)
        } else {
            Err("unsupported role")
        }
    }
}

} // verus!
