//! Which clipboard program copies a command, and with which arguments.
use vstd::prelude::*;

use crate::error::{AppError, AppErrorView};
use crate::utils::order::string_views;
use crate::utils::text::owned;
use crate::utils::validate::{valid_package_name, validate_package_name};

verus! {

/// The program and arguments that copy `text`, given which clipboard programs
/// exist: `wl-copy` is preferred over `xclip -selection clipboard`; only a
/// valid package or executable name may be copied.
pub open spec fn clipboard_command_spec(text: Seq<char>, wl_copy: bool, xclip: bool) -> Result<
    (Seq<char>, Seq<Seq<char>>),
    AppErrorView,
> {
    if !valid_package_name(text) {
        Err(AppErrorView::InvalidPackageName(text))
    } else if wl_copy {
        Ok(("wl-copy"@, seq![]))
    } else if xclip {
        Ok(("xclip"@, seq!["-selection"@, "clipboard"@]))
    } else {
        Err(AppErrorView::Config("No clipboard tool found. Install wl-clipboard."@))
    }
}

/// The program and arguments that copy `text` to the clipboard.
pub fn clipboard_command(text: &str, wl_copy_available: bool, xclip_available: bool) -> (r:
    Result<(String, Vec<String>), AppError>)
    ensures
        match r {
            Ok((program, args)) => clipboard_command_spec(text@, wl_copy_available, xclip_available)
                == Ok::<(Seq<char>, Seq<Seq<char>>), AppErrorView>((program@, string_views(args@))),
            Err(e) => clipboard_command_spec(text@, wl_copy_available, xclip_available) == Err::<
                (Seq<char>, Seq<Seq<char>>),
                AppErrorView,
            >(e@),
        },
{
    if !validate_package_name(text) {
        return Err(AppError::InvalidPackageName(owned(text)));
    }
    if wl_copy_available {
        let args: Vec<String> = Vec::new();
        assert(string_views(args@) =~= Seq::<Seq<char>>::empty());
        return Ok((owned("wl-copy"), args));
    }
    if xclip_available {
        let args = vec![owned("-selection"), owned("clipboard")];
        assert(string_views(args@) =~= seq!["-selection"@, "clipboard"@]);
        return Ok((owned("xclip"), args));
    }
    Err(AppError::Config(owned("No clipboard tool found. Install wl-clipboard.")))
}

} // verus!
