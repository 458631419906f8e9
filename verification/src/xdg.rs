//! Resolving the XDG base directories from plain values.
//!
//! Each directory is the environment override when it is set to an
//! absolute path, else a default under the home directory; the
//! application's name is appended when one is given.  Reading the
//! environment is the caller's part; the selection and joining are
//! verified here.

use vstd::prelude::*;
use vstd::string::StrSliceExecFns;
use vstd::string::StringExecFns;

verus! {

/// Resolves directories for one named application.
pub struct Xdg {
    pub app_name: Option<String>,
}

impl Default for Xdg {
    /// Resolves the bare base directories, with no application name.
    fn default() -> (r: Xdg)
        ensures
            r.app_name is None,
    {
        Xdg { app_name: None }
    }
}

impl Xdg {
    /// Resolves directories for the application named `app_name`.
    pub fn new(app_name: String) -> (r: Xdg)
        ensures
            r.app_name == Some(app_name),
    {
        Xdg { app_name: Some(app_name) }
    }
}

/// Whether a path is absolute: it starts with `/`.
pub open spec fn is_absolute_path(p: Seq<char>) -> bool {
    p.len() > 0 && p[0] == '/'
}

/// The view of an optional string.
pub open spec fn opt_chars(o: Option<String>) -> Option<Seq<char>> {
    match o {
        Some(s) => Some(s@),
        None => None,
    }
}

/// The base directory an environment override and a home fallback resolve
/// to: the override when it is absolute, else `<home>/<default_sub>`.
pub open spec fn resolved_base(
    env_value: Option<Seq<char>>,
    home: Seq<char>,
    default_sub: Seq<char>,
) -> Seq<char> {
    match env_value {
        Some(p) => if is_absolute_path(p) {
            p
        } else {
            home + "/"@ + default_sub
        },
        None => home + "/"@ + default_sub,
    }
}

/// A base directory with the application name appended, when one is given.
pub open spec fn with_app_name(base: Seq<char>, app_name: Option<Seq<char>>) -> Seq<char> {
    match app_name {
        Some(n) => base + "/"@ + n,
        None => base,
    }
}

/// Whether `p` starts with `/`.
fn is_absolute(p: &String) -> (b: bool)
    ensures
        b == is_absolute_path(p@),
{
    let len = p.as_str().unicode_len();
    len > 0 && p.as_str().get_char(0) == '/'
}

/// The environment override when absolute, else the default under `home`,
/// then the application name if any.
pub fn env_var_or_default_home(
    env_value: Option<String>,
    home: String,
    default_sub: &str,
    app_name: Option<String>,
) -> (r: String)
    ensures
        r@ == with_app_name(
            resolved_base(opt_chars(env_value), home@, default_sub@),
            opt_chars(app_name),
        ),
{
    let absolute = match &env_value {
        Some(p) => is_absolute(p),
        None => false,
    };
    let mut base: String = if absolute {
        match env_value {
            Some(p) => p,
            None => String::new(),
        }
    } else {
        let mut b = home;
        b.append("/");
        b.append(default_sub);
        b
    };
    match app_name {
        Some(n) => {
            base.append("/");
            base.append(n.as_str());
        },
        None => {},
    }
    base
}

/// The configuration directory: `$XDG_CONFIG_HOME`, else `<home>/.config`.
pub fn config_dir(env_value: Option<String>, home: String, app_name: Option<String>) -> (r: String)
    ensures
        r@ == with_app_name(
            resolved_base(opt_chars(env_value), home@, ".config"@),
            opt_chars(app_name),
        ),
{
    env_var_or_default_home(env_value, home, ".config", app_name)
}

/// The data directory: `$XDG_DATA_HOME`, else `<home>/.local/share`.
pub fn data_dir(env_value: Option<String>, home: String, app_name: Option<String>) -> (r: String)
    ensures
        r@ == with_app_name(
            resolved_base(opt_chars(env_value), home@, ".local/share"@),
            opt_chars(app_name),
        ),
{
    env_var_or_default_home(env_value, home, ".local/share", app_name)
}

/// The cache directory: `$XDG_CACHE_HOME`, else `<home>/.cache`.
pub fn cache_dir(env_value: Option<String>, home: String, app_name: Option<String>) -> (r: String)
    ensures
        r@ == with_app_name(
            resolved_base(opt_chars(env_value), home@, ".cache"@),
            opt_chars(app_name),
        ),
{
    env_var_or_default_home(env_value, home, ".cache", app_name)
}

/// The state directory: `$XDG_STATE_HOME`, else `<home>/.local/state`.
pub fn state_dir(env_value: Option<String>, home: String, app_name: Option<String>) -> (r: String)
    ensures
        r@ == with_app_name(
            resolved_base(opt_chars(env_value), home@, ".local/state"@),
            opt_chars(app_name),
        ),
{
    env_var_or_default_home(env_value, home, ".local/state", app_name)
}

} // verus!
