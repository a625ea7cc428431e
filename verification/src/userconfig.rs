//! The user configuration: the declarative input to registration.

use vstd::prelude::*;
use vstd::string::StrSliceExecFns;
use vstd::string::StringExecFns;
use crate::trovo::Capability;
use crate::util::str_eq;

verus! {

/// Why a configuration could not be built.
#[derive(Clone, Copy, Debug, PartialEq, Eq, Structural)]
pub enum ConfigError {
    /// The nickname is missing or empty.
    MissingNick,
    /// The token is missing, or neither the anonymous sentinel nor an
    /// `oauth:` token.
    MissingToken,
    /// A capability was named that this library does not know.
    InvalidCapability,
}

/// A token the service accepts: the anonymous sentinel, or one carrying the
/// `oauth:` prefix.
pub open spec fn token_ok(t: Seq<char>) -> bool {
    t == "justinfan1234"@ || (t.len() > 6 && t.take(6) == "oauth:"@)
}

/// No capability is named twice.
pub open spec fn caps_unique(caps: Seq<Capability>) -> bool {
    forall|i: int, j: int| 0 <= i < j < caps.len() ==> caps[i] != caps[j]
}

/// Configuration used to complete the registration with the chat server.
#[derive(Clone, Debug, PartialEq, Eq)]
pub struct UserConfig {
    /// The OAuth token, or the anonymous sentinel.
    pub token: String,
    /// The username associated with the token.
    pub nick: String,
    /// Which capabilities to request.
    pub caps: Vec<Capability>,
}

impl UserConfig {
    /// The configuration is one `build` can produce: a non-empty nickname,
    /// an accepted token, and no capability requested twice.
    pub open spec fn wf(self) -> bool {
        self.nick@.len() > 0 && token_ok(self.token@) && caps_unique(
            self.caps@.map_values(|c: Capability| c),
        )
    }

    /// A builder with nothing set.
    pub fn builder() -> (r: UserConfigBuilder)
        ensures
            r.s_nick() is None,
            r.s_token() is None,
            r.s_caps().len() == 0,
    {
        UserConfigBuilder { nick: None, token: None, caps: Vec::new() }
    }
}

/// Builds a [`UserConfig`], validating it at `build` time.
#[derive(Clone, Debug)]
pub struct UserConfigBuilder {
    nick: Option<String>,
    token: Option<String>,
    caps: Vec<Capability>,
}

impl UserConfigBuilder {
    /// The nickname set so far.
    pub closed spec fn s_nick(self) -> Option<Seq<char>> {
        match self.nick {
            Some(n) => Some(n@),
            None => None,
        }
    }

    /// The token set so far.
    pub closed spec fn s_token(self) -> Option<Seq<char>> {
        match self.token {
            Some(t) => Some(t@),
            None => None,
        }
    }

    /// The capabilities requested so far.
    pub closed spec fn s_caps(self) -> Seq<Capability> {
        self.caps@
    }

    /// Set the username to register with.
    pub fn name(self, name: &str) -> (r: Self)
        ensures
            r.s_nick() == Some(name@),
            r.s_token() == self.s_token(),
            r.s_caps() == self.s_caps(),
    {
        UserConfigBuilder { nick: Some(name.to_owned()), token: self.token, caps: self.caps }
    }

    /// Set the OAuth token to register with.
    pub fn token(self, token: &str) -> (r: Self)
        ensures
            r.s_token() == Some(token@),
            r.s_nick() == self.s_nick(),
            r.s_caps() == self.s_caps(),
    {
        UserConfigBuilder { nick: self.nick, token: Some(token.to_owned()), caps: self.caps }
    }

    /// Use the anonymous read-only login for both name and token.
    pub fn anonymous(self) -> (r: Self)
        ensures
            r.s_nick() == Some("justinfan1234"@),
            r.s_token() == Some("justinfan1234"@),
            r.s_caps() == self.s_caps(),
    {
        UserConfigBuilder {
            nick: Some(String::from_str(crate::JUSTINFAN1234)),
            token: Some(String::from_str(crate::JUSTINFAN1234)),
            caps: self.caps,
        }
    }

    /// Request a capability; asking twice changes nothing.
    pub fn capability(self, cap: Capability) -> (r: Self)
        ensures
            r.s_nick() == self.s_nick(),
            r.s_token() == self.s_token(),
            self.s_caps().contains(cap) ==> r.s_caps() == self.s_caps(),
            !self.s_caps().contains(cap) ==> r.s_caps() == self.s_caps().push(cap),
            caps_unique(self.s_caps()) ==> caps_unique(r.s_caps()),
    {
        let mut this = self;
        let n = this.caps.len();
        let mut i: usize = 0;
        while i < n
            invariant
                this == self,
                0 <= i <= n,
                n == this.caps@.len(),
                forall|x: int| 0 <= x < i ==> this.caps@[x] != cap,
            decreases n - i,
        {
            if this.caps[i] == cap {
                return this;
            }
            i = i + 1;
        }
        proof {
            assert(!self.s_caps().contains(cap));
            if caps_unique(self.s_caps()) {
                let pushed = self.s_caps().push(cap);
                assert forall|a: int, b: int| 0 <= a < b < pushed.len() implies pushed[a]
                    != pushed[b] by {
                    if b < pushed.len() - 1 {
                        assert(pushed[a] == self.s_caps()[a] && pushed[b] == self.s_caps()[b]);
                    } else {
                        assert(pushed[a] == self.s_caps()[a] && pushed[b] == cap);
                    }
                }
            }
        }
        this.caps.push(cap);
        this
    }

    /// Request every capability.
    pub fn enable_all_capabilities(self) -> (r: Self)
        ensures
            r.s_nick() == self.s_nick(),
            r.s_token() == self.s_token(),
            caps_unique(self.s_caps()) ==> caps_unique(r.s_caps()),
    {
        self.capability(Capability::Membership).capability(Capability::Tags).capability(
            Capability::Commands,
        )
    }

    /// Build the configuration.
    ///
    /// The nickname must be non-empty and the token the anonymous sentinel
    /// or `oauth:`-prefixed; requested capabilities are de-duplicated on the
    /// way in.
    pub fn build(self) -> (r: Result<UserConfig, ConfigError>)
        requires
            caps_unique(self.s_caps()),
        ensures
            match r {
                Ok(c) => {
                    &&& self.s_nick() matches Some(n) && n.len() > 0 && c.nick@ == n
                    &&& self.s_token() matches Some(t) && token_ok(t) && c.token@ == t
                    &&& c.caps@ == self.s_caps()
                    &&& c.wf()
                },
                Err(ConfigError::MissingNick) => {
                    self.s_nick() is None || self.s_nick() == Some(Seq::<char>::empty())
                },
                Err(ConfigError::MissingToken) => {
                    &&& self.s_nick() matches Some(n) && n.len() > 0
                    &&& match self.s_token() {
                        Some(t) => !token_ok(t),
                        None => true,
                    }
                },
                Err(ConfigError::InvalidCapability) => false,
            },
    {
        let nick = match self.nick {
            Some(n) => n,
            None => {
                return Err(ConfigError::MissingNick);
            },
        };
        if nick.as_str().unicode_len() == 0 {
            return Err(ConfigError::MissingNick);
        }
        let token = match self.token {
            Some(t) => t,
            None => {
                return Err(ConfigError::MissingToken);
            },
        };
        let ts = token.as_str();
        let anon = str_eq(ts, "justinfan1234");
        let oauth = ts.unicode_len() > 6 && str_eq(ts.substring_char(0, 6), "oauth:");
        if !anon && !oauth {
            proof {
                if ts@.len() > 6 && ts@.take(6) == "oauth:"@ {
                    assert(ts@.subrange(0, 6) =~= ts@.take(6));
                }
            }
            return Err(ConfigError::MissingToken);
        }
        proof {
            if oauth {
                assert(ts@.subrange(0, 6) =~= ts@.take(6));
            }
            assert(self.s_caps() == self.caps@.map_values(|c: Capability| c)) by {
                assert(self.caps@.map_values(|c: Capability| c) =~= self.caps@);
            }
        }
        Ok(UserConfig { token, nick, caps: self.caps })
    }
}

/// The configuration for a plain name/token pair, every capability
/// requested.
pub fn simple_user_config(name: &str, token: &str) -> (r: Result<UserConfig, ConfigError>)
    ensures
        match r {
            Ok(c) => {
                &&& name@.len() > 0 && c.nick@ == name@
                &&& token_ok(token@) && c.token@ == token@
                &&& c.wf()
            },
            Err(ConfigError::MissingNick) => name@.len() == 0,
            Err(ConfigError::MissingToken) => name@.len() > 0 && !token_ok(token@),
            Err(ConfigError::InvalidCapability) => false,
        },
{
    UserConfig::builder().name(name).token(token).enable_all_capabilities().build()
}

} // verus!
