//! The identity under which a session registers.

use vstd::prelude::*;
use crate::text::opt_view;

verus! {

/// The identity fields of a session. Each may be left out; what that means
/// is said at each accessor.
#[derive(Clone, Debug, PartialEq, Eq)]
pub struct Config {
    /// The nickname. A session cannot identify without one.
    pub nickname: Option<String>,
    /// The username; where it is left out, the nickname serves.
    pub username: Option<String>,
    /// The real name; where it is left out, the nickname serves.
    pub realname: Option<String>,
    /// The password; left out or empty means that there is none.
    pub password: Option<String>,
}

/// Why a configuration cannot give what was asked of it.
#[derive(Clone, Copy, Debug, PartialEq, Eq)]
pub enum ConfigError {
    /// No nickname is configured.
    NicknameNotSpecified,
}

impl Config {
    /// The password, empty where there is none.
    pub open spec fn spec_password(self) -> Seq<char> {
        match self.password {
            Some(p) => p@,
            None => Seq::empty(),
        }
    }

    /// The username: the one configured, else the nickname, else `user`.
    pub open spec fn spec_username(self) -> Seq<char> {
        match self.username {
            Some(u) => u@,
            None => match self.nickname {
                Some(n) => n@,
                None => "user"@,
            },
        }
    }

    /// The real name: the one configured, else the nickname, else `irc`.
    pub open spec fn spec_real_name(self) -> Seq<char> {
        match self.realname {
            Some(r) => r@,
            None => match self.nickname {
                Some(n) => n@,
                None => "irc"@,
            },
        }
    }

    /// A configuration with nothing set.
    pub fn new() -> (r: Config)
        ensures
            r.nickname is None,
            r.username is None,
            r.realname is None,
            r.password is None,
    {
        Config { nickname: None, username: None, realname: None, password: None }
    }

    /// The nickname, or an error where none is configured.
    pub fn nickname(&self) -> (r: Result<&str, ConfigError>)
        ensures
            match r {
                Ok(n) => opt_view(self.nickname) == Some(n@),
                Err(e) => self.nickname is None && e == ConfigError::NicknameNotSpecified,
            },
    {
        match &self.nickname {
            Some(n) => Ok(n.as_str()),
            None => Err(ConfigError::NicknameNotSpecified),
        }
    }

    /// The password, empty where there is none.
    pub fn password(&self) -> (r: &str)
        ensures
            r@ == self.spec_password(),
    {
        match &self.password {
            Some(p) => p.as_str(),
            None => {
                proof {
                    reveal_strlit("");
                    assert(""@ =~= Seq::<char>::empty());
                }
                ""
            },
        }
    }

    /// The username: the one configured, else the nickname, else `user`.
    pub fn username(&self) -> (r: &str)
        ensures
            r@ == self.spec_username(),
    {
        match &self.username {
            Some(u) => u.as_str(),
            None => match &self.nickname {
                Some(n) => n.as_str(),
                None => "user",
            },
        }
    }

    /// The real name: the one configured, else the nickname, else `irc`.
    pub fn real_name(&self) -> (r: &str)
        ensures
            r@ == self.spec_real_name(),
    {
        match &self.realname {
            Some(r) => r.as_str(),
            None => match &self.nickname {
                Some(n) => n.as_str(),
                None => "irc",
            },
        }
    }
}

} // verus!
