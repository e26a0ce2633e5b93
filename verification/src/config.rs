//! Application configuration: API credentials, user token and preferred quality.
use vstd::prelude::*;
use crate::cache::{join_path, joined};
use crate::text::opt_view;

verus! {

/// The format_id used when none is configured (FLAC 24-bit / 192 kHz).
pub const DEFAULT_FORMAT_ID: u32 = 27;

/// Persistent application configuration (credentials, audio quality).
#[derive(Debug)]
pub struct Config {
    pub app_id: String,
    pub app_secret: String,
    pub user_auth_token: Option<String>,
    pub email: Option<String>,
    pub format_id: Option<u32>,
}

impl Clone for Config {
    fn clone(&self) -> (res: Self)
        ensures
            res == *self,
    {
        Config {
            app_id: self.app_id.clone(),
            app_secret: self.app_secret.clone(),
            user_auth_token: self.user_auth_token.clone(),
            email: self.email.clone(),
            format_id: self.format_id,
        }
    }
}

impl Default for Config {
    fn default() -> (res: Self)
        ensures
            res.app_id@ == Seq::<char>::empty(),
            res.app_secret@ == Seq::<char>::empty(),
            res.user_auth_token is None,
            res.email is None,
            res.format_id is None,
    {
        Config {
            app_id: String::new(),
            app_secret: String::new(),
            user_auth_token: None,
            email: None,
            format_id: None,
        }
    }
}

/// The preferred format_id of a configuration.
pub open spec fn spec_preferred_format(c: Config) -> u32 {
    match c.format_id {
        Some(f) => f,
        None => DEFAULT_FORMAT_ID,
    }
}

/// Both API credentials are set.
pub open spec fn spec_has_app_credentials(c: Config) -> bool {
    c.app_id@.len() > 0 && c.app_secret@.len() > 0
}

/// The configuration holds a user token and both API credentials.
pub open spec fn spec_is_logged_in(c: Config) -> bool {
    c.user_auth_token is Some && spec_has_app_credentials(c)
}

impl Config {
    /// Preferred audio format_id (default: 27 = Hi-Res 24-bit/192kHz).
    pub fn format_id(&self) -> (f: u32)
        ensures
            f == spec_preferred_format(*self),
    {
        match self.format_id {
            Some(f) => f,
            None => DEFAULT_FORMAT_ID,
        }
    }

    /// Whether both `app_id` and `app_secret` are set.
    pub fn has_app_credentials(&self) -> (b: bool)
        ensures
            b == spec_has_app_credentials(*self),
    {
        !self.app_id.as_str().is_empty() && !self.app_secret.as_str().is_empty()
    }

    /// Whether the user has valid credentials and an auth token.
    pub fn is_logged_in(&self) -> (b: bool)
        ensures
            b == spec_is_logged_in(*self),
    {
        self.user_auth_token.is_some() && self.has_app_credentials()
    }
}

/// `dirs::config_dir`: the user's configuration directory, as text (lossy
/// for a path that is not valid Unicode). It depends on the platform and the
/// environment, so nothing is claimed of it.
#[verifier::external_body]
fn user_config_dir() -> Option<String> {
    dirs::config_dir().map(|p| p.to_string_lossy().into_owned())
}

/// `dirs::cache_dir`: the user's cache directory, as text (lossy for a path
/// that is not valid Unicode). Nothing is claimed of it.
#[verifier::external_body]
fn user_cache_dir() -> Option<String> {
    dirs::cache_dir().map(|p| p.to_string_lossy().into_owned())
}

/// The application's directory under a base directory of the user, or
/// under the current directory when the platform has none.
pub open spec fn spec_app_dir(base: Option<Seq<char>>) -> Seq<char> {
    joined(
        match base {
            Some(b) => b,
            None => "."@,
        },
        "qobuz-tui"@,
    )
}

/// The application's directory under `base`.
pub fn app_dir_in(base: Option<String>) -> (d: String)
    ensures
        d@ == spec_app_dir(opt_view(base)),
{
    let b = match base {
        Some(b) => b,
        None => ".".to_owned(),
    };
    join_path(&b, "qobuz-tui")
}

/// Path to the config file (`~/.config/qobuz-tui/config.toml`).
pub fn config_path() -> (p: String)
    ensures
        exists|base: Option<Seq<char>>| p@ == joined(spec_app_dir(base), "config.toml"@),
{
    let dir = app_dir_in(user_config_dir());
    join_path(&dir, "config.toml")
}

/// Path to the saved session (`~/.config/qobuz-tui/session.json`).
pub fn session_path() -> (p: String)
    ensures
        exists|base: Option<Seq<char>>| p@ == joined(spec_app_dir(base), "session.json"@),
{
    let dir = app_dir_in(user_config_dir());
    join_path(&dir, "session.json")
}

/// The directory of the audio cache (`~/.cache/qobuz-tui`).
pub fn cache_dir() -> (p: String)
    ensures
        exists|base: Option<Seq<char>>| p@ == spec_app_dir(base),
{
    app_dir_in(user_cache_dir())
}

} // verus!
