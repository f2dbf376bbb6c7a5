use vstd::prelude::*;
use crate::text::push_char;
use twitchchat::twitch::{UserConfig, UserConfigError};

verus! {

#[verifier::external_type_specification]
#[verifier::external_body]
pub struct ExUserConfig(UserConfig);

#[verifier::external_type_specification]
pub struct ExUserConfigError(UserConfigError);

/// The user name twitchchat reserves for anonymous logins, which must then
/// also be the token.
pub open spec fn anonymous_login() -> Seq<char> {
    "justinfan1234"@
}

/// Whether every character of `s` is ASCII.
pub open spec fn all_ascii(s: Seq<char>) -> bool {
    forall|i: int| 0 <= i < s.len() ==> (s[i] as u32) < 128
}

/// Whether the first `k` characters of `s` (all of them, if fewer) are ASCII.
pub open spec fn ascii_prefix(s: Seq<char>, k: int) -> bool {
    forall|i: int| 0 <= i < s.len() && i < k ==> (s[i] as u32) < 128
}

/// An ASCII OAuth token of the shape twitchchat accepts: `oauth:` and thirty more characters.
pub open spec fn oauth_shaped(t: Seq<char>) -> bool {
    &&& t.len() == 36
    &&& all_ascii(t)
    &&& t.take(6) == "oauth:"@
}

/// Relies on twitchchat's `UserConfigBuilder` (`name`, `token`,
/// `enable_all_capabilities`, `build`): an empty name is rejected first, then
/// an empty or badly shaped token, then an anonymous name or token without
/// the other; a well-shaped token with a non-anonymous name is accepted. It
/// slices the token's first six bytes, hence the `requires`.
#[verifier::external_body]
fn build_user_config(name: String, token: String) -> (r: Result<UserConfig, UserConfigError>)
    requires
        ascii_prefix(token@, 6),
    ensures
        name@.len() == 0 ==> r matches Err(UserConfigError::InvalidName),
        name@.len() > 0 && token@.len() == 0 ==> r matches Err(UserConfigError::InvalidToken),
        name@.len() > 0 && token@ == anonymous_login() ==> (if name@ == anonymous_login() {
            r is Ok
        } else {
            r matches Err(UserConfigError::PartialAnonymous)
        }),
        name@.len() > 0 && oauth_shaped(token@) && name@ != anonymous_login() ==> r is Ok,
        r is Ok ==> name@.len() > 0 && token@.len() > 0,
{
    UserConfig::builder().name(name).token(token).enable_all_capabilities().build()
}

/// Why the bot's configuration could not be had.
#[derive(Debug, PartialEq, Eq)]
pub enum ConfigError {
    /// A required setting is not set; its name.
    Missing(String),
    /// The user name is empty.
    InvalidName,
    /// The token is not `oauth:` followed by thirty more characters.
    InvalidToken,
    /// The anonymous login was given as only one of name and token.
    PartialAnonymous,
}

/// The setting that holds the account name.
pub open spec fn name_key() -> Seq<char> {
    "TWITCH_NAME"@
}

/// The setting that holds the OAuth token.
pub open spec fn token_key() -> Seq<char> {
    "TWITCH_TOKEN"@
}

/// The setting that holds the comma-separated channel list.
pub open spec fn channel_key() -> Seq<char> {
    "TWITCH_CHANNEL"@
}

pub open spec fn error_text(e: ConfigError) -> Seq<char> {
    match e {
        ConfigError::Missing(k) => "please set `"@ + k@ + "`"@,
        ConfigError::InvalidName => "invalid name"@,
        ConfigError::InvalidToken => "invalid token. token must start with oauth: and be 36 characters"@,
        ConfigError::PartialAnonymous => "user provided name or token provided when an anonymous login was requested"@,
    }
}

impl ConfigError {
    /// The error as a sentence for the user.
    pub fn message(&self) -> (r: String)
        ensures
            r@ == error_text(*self),
    {
        match self {
            ConfigError::Missing(k) => {
                let mut out = String::from_str("please set `");
                out.append(k.as_str());
                out.append("`");
                out
            },
            ConfigError::InvalidName => String::from_str("invalid name"),
            ConfigError::InvalidToken => String::from_str(
                "invalid token. token must start with oauth: and be 36 characters",
            ),
            ConfigError::PartialAnonymous => String::from_str(
                "user provided name or token provided when an anonymous login was requested",
            ),
        }
    }
}

/// The library's error for each of twitchchat's.
pub open spec fn from_user_config_error(e: UserConfigError) -> ConfigError {
    match e {
        UserConfigError::InvalidName => ConfigError::InvalidName,
        UserConfigError::InvalidToken => ConfigError::InvalidToken,
        _ => ConfigError::PartialAnonymous,
    }
}

/// Takes twitchchat's outcome of building a user configuration over, with its
/// error turned into the library's.
pub fn config_from_build(built: Result<UserConfig, UserConfigError>) -> (r: Result<UserConfig, ConfigError>)
    ensures
        built is Ok <==> r is Ok,
        built is Err ==> r == Err::<UserConfig, ConfigError>(from_user_config_error(built->Err_0)),
{
    match built {
        Ok(c) => Ok(c),
        Err(UserConfigError::InvalidName) => Err(ConfigError::InvalidName),
        Err(UserConfigError::InvalidToken) => Err(ConfigError::InvalidToken),
        Err(_) => Err(ConfigError::PartialAnonymous),
    }
}

/// Whether the first six characters of `s` (or all, if fewer) are ASCII.
fn ascii_head(s: &str) -> (r: bool)
    ensures
        r == ascii_prefix(s@, 6),
{
    let n = s.unicode_len();
    let mut i: usize = 0;
    while i < n && i < 6
        invariant
            n == s@.len(),
            i <= 6,
            forall|j: int| 0 <= j < i ==> (s@[j] as u32) < 128,
        decreases n - i,
    {
        if (s.get_char(i) as u32) >= 128 {
            return false;
        }
        i = i + 1;
    }
    true
}

/// The user configuration from the account name and token settings, with all
/// capabilities requested.
pub fn get_user_config(name: Option<String>, token: Option<String>) -> (r: Result<UserConfig, ConfigError>)
    ensures
        name is None ==> (r matches Err(ConfigError::Missing(k)) && k@ == name_key()),
        name is Some && token is None ==> (r matches Err(ConfigError::Missing(k)) && k@ == token_key()),
        name is Some && token is Some ==> {
            let n = name->Some_0;
            let t = token->Some_0@;
            &&& n@.len() == 0 ==> r == Err::<UserConfig, ConfigError>(ConfigError::InvalidName)
            &&& n@.len() > 0 && !ascii_prefix(t, 6) ==> r == Err::<UserConfig, ConfigError>(ConfigError::InvalidToken)
            &&& n@.len() > 0 && t.len() == 0 ==> r == Err::<UserConfig, ConfigError>(ConfigError::InvalidToken)
            &&& n@.len() > 0 && t == anonymous_login() ==> (if n@ == anonymous_login() {
                r is Ok
            } else {
                r == Err::<UserConfig, ConfigError>(ConfigError::PartialAnonymous)
            })
            &&& n@.len() > 0 && oauth_shaped(t) && n@ != anonymous_login() ==> r is Ok
            &&& r is Ok ==> n@.len() > 0 && t.len() > 0
        },
{
    let name = match name {
        Some(n) => n,
        None => return Err(ConfigError::Missing(String::from_str("TWITCH_NAME"))),
    };
    let token = match token {
        Some(t) => t,
        None => return Err(ConfigError::Missing(String::from_str("TWITCH_TOKEN"))),
    };
    if name.unicode_len() == 0 {
        return Err(ConfigError::InvalidName);
    }
    if !ascii_head(token.as_str()) {
        proof {
            reveal_strlit("justinfan1234");
            assert(token@ != anonymous_login());
        }
        return Err(ConfigError::InvalidToken);
    }
    config_from_build(build_user_config(name, token))
}

/// The pieces of `s` between commas, in order; a string without commas is one piece.
pub open spec fn split_commas(s: Seq<char>) -> Seq<Seq<char>>
    decreases s.len(),
{
    if s.len() == 0 {
        seq![Seq::<char>::empty()]
    } else {
        let p = split_commas(s.drop_last());
        if s.last() == ',' {
            p.push(Seq::<char>::empty())
        } else {
            p.update(p.len() - 1, p.last().push(s.last()))
        }
    }
}

/// The channels to join, from the comma-separated channel setting.
pub fn channels_to_join(value: Option<String>) -> (r: Result<Vec<String>, ConfigError>)
    ensures
        value is None ==> (r matches Err(ConfigError::Missing(k)) && k@ == channel_key()),
        value matches Some(v) ==> r is Ok && r->Ok_0@.map_values(|c: String| c@) == split_commas(v@),
{
    let value = match value {
        Some(v) => v,
        None => return Err(ConfigError::Missing(String::from_str("TWITCH_CHANNEL"))),
    };
    let s = value.as_str();
    let n = s.unicode_len();
    let mut parts: Vec<String> = Vec::new();
    let mut current = String::new();
    let mut i: usize = 0;
    assert(s@.take(0) == Seq::<char>::empty());
    while i < n
        invariant
            n == s@.len(),
            i <= n,
            split_commas(s@.take(i as int)) == parts@.map_values(|c: String| c@).push(current@),
        decreases n - i,
    {
        let c = s.get_char(i);
        let ghost before = s@.take(i as int);
        let ghost old_map = parts@.map_values(|c: String| c@);
        let ghost old_current = current@;
        assert(s@.take(i + 1).drop_last() == before);
        assert(s@.take(i + 1).last() == c);
        if c == ',' {
            parts.push(current);
            current = String::new();
            assert(parts@.map_values(|c: String| c@) =~= old_map.push(old_current));
        } else {
            push_char(&mut current, c);
            assert(old_map.push(old_current).update(old_map.len() as int, old_current.push(c))
                =~= old_map.push(current@));
        }
        i = i + 1;
    }
    assert(s@.take(n as int) == s@);
    parts.push(current);
    assert(parts@.map_values(|c: String| c@) == split_commas(s@));
    Ok(parts)
}

} // verus!
