//! File system paths as text, joined the way `Path::join` joins them.
use vstd::prelude::*;
use vstd::string::*;

use crate::error::{AppError, AppErrorView};
use crate::utils::text::{chars_of, owned};

verus! {

/// `base` joined with `name` as `Path::join` does on Unix: an absolute `name`
/// replaces `base`; otherwise a `/` separates them unless `base` is empty or ends with one.
pub open spec fn path_join_spec(base: Seq<char>, name: Seq<char>) -> Seq<char> {
    if name.len() > 0 && name[0] == '/' {
        name
    } else if base.len() == 0 || base.last() == '/' {
        base + name
    } else {
        base + seq!['/'] + name
    }
}

/// `base` joined with `name`.
pub fn path_join(base: &str, name: &str) -> (r: String)
    ensures
        r@ == path_join_spec(base@, name@),
{
    let b = chars_of(base);
    let n = chars_of(name);
    if n.len() > 0 && n[0] == '/' {
        return owned(name);
    }
    let mut r = owned(base);
    if !(b.len() == 0 || b[b.len() - 1] == '/') {
        r.append("/");
        proof {
            reveal_strlit("/");
        }
    }
    r.append(name);
    r
}

/// The directory of this application under `base`, a user directory when one is known;
/// without one, the error names what is missing.
pub open spec fn app_dir_spec(base: Option<Seq<char>>, missing: Seq<char>) -> Result<
    Seq<char>,
    AppErrorView,
> {
    match base {
        Some(b) => Ok(path_join_spec(b, "blackarch-hypr-tui"@)),
        None => Err(AppErrorView::Config(missing)),
    }
}

/// The directory of this application under `base`; an error naming `missing` without a base.
pub fn app_dir(base: Option<String>, missing: &str) -> (r: Result<String, AppError>)
    ensures
        match r {
            Ok(p) => app_dir_spec(crate::models::opt_view(base), missing@) == Ok::<
                Seq<char>,
                AppErrorView,
            >(p@),
            Err(e) => app_dir_spec(crate::models::opt_view(base), missing@) == Err::<
                Seq<char>,
                AppErrorView,
            >(e@),
        },
{
    match base {
        Some(b) => Ok(path_join(b.as_str(), "blackarch-hypr-tui")),
        None => Err(AppError::Config(owned(missing))),
    }
}

/// A path under a directory that may be missing: the error passes through.
pub open spec fn under_spec(dir: Result<Seq<char>, AppErrorView>, name: Seq<char>) -> Result<
    Seq<char>,
    AppErrorView,
> {
    match dir {
        Ok(d) => Ok(path_join_spec(d, name)),
        Err(e) => Err(e),
    }
}

} // verus!
