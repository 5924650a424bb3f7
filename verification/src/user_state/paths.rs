//! Where the user state is stored.
use vstd::prelude::*;

use crate::cache::paths::path_result;
use crate::error::{AppError, AppErrorView};
use crate::utils::path::{app_dir, app_dir_spec, path_join, path_join_spec, under_spec};

verus! {

/// Calls `dirs::data_local_dir`: the user's local data directory, when the environment names one, as text
/// (`None` too when it is not valid UTF-8). Nothing is promised of the value,
/// which depends on the environment.
#[verifier::external_body]
fn user_data_dir() -> (r: Option<String>) {
    match dirs::data_local_dir() {
        Some(p) => p.into_os_string().into_string().ok(),
        None => None,
    }
}

/// The data directory of this application under a user directory `base`.
pub open spec fn data_dir_spec(base: Option<Seq<char>>) -> Result<Seq<char>, AppErrorView> {
    app_dir_spec(base, "local data directory not found"@)
}

/// The data directory of this application.
pub fn data_dir() -> (r: Result<String, AppError>)
    ensures
        exists|base: Option<Seq<char>>| #[trigger] data_dir_spec(base) == path_result(r),
{
    let base = user_data_dir();
    let ghost b = crate::models::opt_view(base);
    let r = app_dir(base, "local data directory not found");
    assert(data_dir_spec(b) == path_result(r));
    r
}

/// The file of favorites.
pub fn favorites_path() -> (r: Result<String, AppError>)
    ensures
        exists|base: Option<Seq<char>>| #[trigger] under_spec(data_dir_spec(base), "favorites.json"@)
            == path_result(r),
{
    let dir = data_dir();
    let ghost b = choose|base: Option<Seq<char>>| #[trigger] data_dir_spec(base) == path_result(dir);
    match dir {
        Ok(d) => {
            let r = path_join(d.as_str(), "favorites.json");
            assert(under_spec(data_dir_spec(b), "favorites.json"@) == path_result(Ok::<String, AppError>(r)));
            Ok(r)
        },
        Err(e) => Err(e),
    }
}

/// The file of recently run tools.
pub fn recent_path() -> (r: Result<String, AppError>)
    ensures
        exists|base: Option<Seq<char>>| #[trigger] under_spec(data_dir_spec(base), "recent.json"@)
            == path_result(r),
{
    let dir = data_dir();
    let ghost b = choose|base: Option<Seq<char>>| #[trigger] data_dir_spec(base) == path_result(dir);
    match dir {
        Ok(d) => {
            let r = path_join(d.as_str(), "recent.json");
            assert(under_spec(data_dir_spec(b), "recent.json"@) == path_result(Ok::<String, AppError>(r)));
            Ok(r)
        },
        Err(e) => Err(e),
    }
}

} // verus!
