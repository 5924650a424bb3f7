//! Where the package caches are stored.
use vstd::prelude::*;

use crate::error::{AppError, AppErrorView};
use crate::utils::path::{app_dir, app_dir_spec, path_join, path_join_spec, under_spec};
use crate::utils::text::{concat2, owned};
use crate::utils::validate::{valid_package_name, validate_package_name};

verus! {

/// Calls `dirs::cache_dir`: the user's cache directory, when the environment
/// names one, as text (`None` too when it is not valid UTF-8). Nothing is
/// promised of the value, which depends on the environment.
#[verifier::external_body]
fn user_cache_dir() -> (r: Option<String>) {
    match dirs::cache_dir() {
        Some(p) => p.into_os_string().into_string().ok(),
        None => None,
    }
}

/// The cache directory of this application under a user cache directory `base`.
pub open spec fn cache_dir_spec(base: Option<Seq<char>>) -> Result<Seq<char>, AppErrorView> {
    app_dir_spec(base, "cache directory not found"@)
}

/// The cache directory of this application.
pub fn cache_dir() -> (r: Result<String, AppError>)
    ensures
        exists|base: Option<Seq<char>>| #[trigger] cache_dir_spec(base) == match r {
            Ok(p) => Ok::<Seq<char>, AppErrorView>(p@),
            Err(e) => Err::<Seq<char>, AppErrorView>(e@),
        },
{
    let base = user_cache_dir();
    let ghost b = crate::models::opt_view(base);
    let r = app_dir(base, "cache directory not found");
    assert(cache_dir_spec(b) == match r {
        Ok(p) => Ok::<Seq<char>, AppErrorView>(p@),
        Err(e) => Err::<Seq<char>, AppErrorView>(e@),
    });
    r
}

/// The view of a path result.
pub open spec fn path_result(r: Result<String, AppError>) -> Result<Seq<char>, AppErrorView> {
    match r {
        Ok(p) => Ok(p@),
        Err(e) => Err(e@),
    }
}

/// The file `name` in the cache directory.
fn cache_file(name: &str) -> (r: Result<String, AppError>)
    ensures
        exists|base: Option<Seq<char>>| #[trigger] under_spec(cache_dir_spec(base), name@)
            == path_result(r),
{
    let dir = cache_dir();
    let ghost b = choose|base: Option<Seq<char>>| #[trigger] cache_dir_spec(base) == path_result(
        dir,
    );
    match dir {
        Ok(d) => {
            let r = path_join(d.as_str(), name);
            assert(under_spec(cache_dir_spec(b), name@) == path_result(Ok::<String, AppError>(r)));
            Ok(r)
        },
        Err(e) => Err(e),
    }
}

/// The cached list of tools.
pub fn tools_cache_path() -> (r: Result<String, AppError>)
    ensures
        exists|base: Option<Seq<char>>| #[trigger] under_spec(cache_dir_spec(base), "tools.json"@)
            == path_result(r),
{
    cache_file("tools.json")
}

/// The cached list of categories.
pub fn categories_cache_path() -> (r: Result<String, AppError>)
    ensures
        exists|base: Option<Seq<char>>| #[trigger] under_spec(
            cache_dir_spec(base),
            "categories.json"@,
        ) == path_result(r),
{
    cache_file("categories.json")
}

/// The cache metadata.
pub fn metadata_cache_path() -> (r: Result<String, AppError>)
    ensures
        exists|base: Option<Seq<char>>| #[trigger] under_spec(
            cache_dir_spec(base),
            "metadata.json"@,
        ) == path_result(r),
{
    cache_file("metadata.json")
}

/// The directory of cached package details.
pub fn packages_cache_dir() -> (r: Result<String, AppError>)
    ensures
        exists|base: Option<Seq<char>>| #[trigger] under_spec(cache_dir_spec(base), "packages"@)
            == path_result(r),
{
    cache_file("packages")
}

/// The cached details of `package_name`: `<package_name>.json` in the package directory.
pub fn package_detail_cache_path(package_name: &str) -> (r: Result<String, AppError>)
    ensures
        exists|base: Option<Seq<char>>| #[trigger] under_spec(
            under_spec(cache_dir_spec(base), "packages"@),
            package_name@ + ".json"@,
        ) == path_result(r),
{
    let dir = packages_cache_dir();
    let ghost b = choose|base: Option<Seq<char>>| #[trigger] under_spec(
        cache_dir_spec(base),
        "packages"@,
    ) == path_result(dir);
    let file = concat2(package_name, ".json");
    match dir {
        Ok(d) => {
            let r = path_join(d.as_str(), file.as_str());
            assert(under_spec(under_spec(cache_dir_spec(b), "packages"@), package_name@ + ".json"@)
                == path_result(Ok::<String, AppError>(r)));
            Ok(r)
        },
        Err(e) => Err(e),
    }
}

/// Where the details of `package_name` are written: refused unless the name
/// is a valid package name, else the file of
/// [`package_detail_cache_path`].
pub fn package_detail_cache_target(package_name: &str) -> (r: Result<String, AppError>)
    ensures
        !valid_package_name(package_name@) ==> (r matches Err(e) && e@
            == AppErrorView::InvalidPackageName(package_name@)),
        valid_package_name(package_name@) ==> exists|base: Option<Seq<char>>| #[trigger] under_spec(
            under_spec(cache_dir_spec(base), "packages"@),
            package_name@ + ".json"@,
        ) == path_result(r),
{
    if !validate_package_name(package_name) {
        return Err(AppError::InvalidPackageName(owned(package_name)));
    }
    package_detail_cache_path(package_name)
}

} // verus!
