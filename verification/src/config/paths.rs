//! Where the configuration is stored.
use vstd::prelude::*;

use crate::cache::paths::path_result;
use crate::error::{AppError, AppErrorView};
use crate::utils::path::{app_dir, app_dir_spec, path_join, path_join_spec, under_spec};

verus! {

/// Calls `dirs::config_dir`: the user's config directory, when the environment names one, as text
/// (`None` too when it is not valid UTF-8). Nothing is promised of the value,
/// which depends on the environment.
#[verifier::external_body]
fn user_config_dir() -> (r: Option<String>) {
    match dirs::config_dir() {
        Some(p) => p.into_os_string().into_string().ok(),
        None => None,
    }
}

/// The config directory of this application under a user directory `base`.
pub open spec fn config_dir_spec(base: Option<Seq<char>>) -> Result<Seq<char>, AppErrorView> {
    app_dir_spec(base, "config directory not found"@)
}

/// The config directory of this application.
pub fn config_dir() -> (r: Result<String, AppError>)
    ensures
        exists|base: Option<Seq<char>>| #[trigger] config_dir_spec(base) == path_result(r),
{
    let base = user_config_dir();
    let ghost b = crate::models::opt_view(base);
    let r = app_dir(base, "config directory not found");
    assert(config_dir_spec(b) == path_result(r));
    r
}

/// The configuration file.
pub fn config_path() -> (r: Result<String, AppError>)
    ensures
        exists|base: Option<Seq<char>>| #[trigger] under_spec(config_dir_spec(base), "config.toml"@)
            == path_result(r),
{
    let dir = config_dir();
    let ghost b = choose|base: Option<Seq<char>>| #[trigger] config_dir_spec(base) == path_result(dir);
    match dir {
        Ok(d) => {
            let r = path_join(d.as_str(), "config.toml");
            assert(under_spec(config_dir_spec(b), "config.toml"@) == path_result(Ok::<String, AppError>(r)));
            Ok(r)
        },
        Err(e) => Err(e),
    }
}

} // verus!
