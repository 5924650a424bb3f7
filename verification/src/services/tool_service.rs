//! Tools as the interface shows them: built from package details, completed
//! from what is already known, and cached.
use vstd::prelude::*;

use crate::error::{AppError, AppErrorView};
use crate::models::{opt_view, BlackArchTool, CacheMetadata, ToolStatus, ToolView};
use crate::pacman::command::text_result;
use crate::pacman::query::{
    categories_result, get_package_info, list_blackarch_categories, membership_views,
    package_info_result, strings_result, tool_from_info, tool_of_info, tool_result,
    PackageOutputs,
};
use crate::utils::clock::{decimal, now_timestamp};
use crate::utils::order::string_views;
use crate::utils::scan::{has_prefix, starts_with};
use crate::utils::text::{chars_of, copy_string, owned};
use crate::utils::validate::blackarch_prefix;

verus! {

/// The groups of `groups` that are BlackArch categories, in order.
pub open spec fn blackarch_groups(groups: Seq<Seq<char>>) -> Seq<Seq<char>>
    decreases groups.len(),
{
    if groups.len() == 0 {
        seq![]
    } else {
        let prev = blackarch_groups(groups.drop_last());
        if starts_with(groups.last(), blackarch_prefix()) {
            prev.push(groups.last())
        } else {
            prev
        }
    }
}

/// The first element of a sequence, if any.
pub open spec fn first_of(s: Seq<Seq<char>>) -> Option<Seq<char>> {
    if s.len() > 0 {
        Some(s[0])
    } else {
        None
    }
}

/// The detailed tool `name`, given the outputs of its three queries: its
/// BlackArch groups are its categories, the first one its category.
pub open spec fn detail_result(name: Seq<char>, outputs: PackageOutputs) -> Result<
    ToolView,
    AppErrorView,
> {
    match package_info_result(name, outputs) {
        Err(e) => Err(e),
        Ok(info) => {
            let categories = blackarch_groups(info.groups);
            Ok(tool_from_info(info, first_of(categories), categories))
        },
    }
}

/// The BlackArch groups among `groups`.
fn blackarch_groups_of(groups: &Vec<String>) -> (r: Vec<String>)
    ensures
        string_views(r@) == blackarch_groups(string_views(groups@)),
{
    let ghost gs = string_views(groups@);
    let prefix = chars_of("blackarch-");
    let mut r: Vec<String> = Vec::new();
    let mut i: usize = 0;
    assert(gs.take(0) =~= seq![]);
    while i < groups.len()
        invariant
            i <= groups@.len(),
            gs == string_views(groups@),
            prefix@ == blackarch_prefix(),
            string_views(r@) == blackarch_groups(gs.take(i as int)),
        decreases groups@.len() - i,
    {
        assert(gs.take(i + 1).drop_last() =~= gs.take(i as int));
        assert(gs.take(i + 1).last() == groups@[i as int]@);
        if has_prefix(&chars_of(groups[i].as_str()), &prefix) {
            let ghost before = string_views(r@);
            r.push(copy_string(&groups[i]));
            assert(string_views(r@) =~= before.push(groups@[i as int]@));
        }
        i += 1;
    }
    assert(gs.take(groups@.len() as int) =~= gs);
    r
}

/// The details of `package_name` as a tool, given the outputs of its three queries.
pub fn get_tool_detail(package_name: &str, outputs: PackageOutputs) -> (r: Result<
    BlackArchTool,
    AppError,
>)
    ensures
        tool_result(r) == detail_result(package_name@, outputs),
{
    let info = get_package_info(package_name, outputs)?;
    let categories = blackarch_groups_of(&info.groups);
    let category = if categories.len() > 0 {
        Some(copy_string(&categories[0]))
    } else {
        None
    };
    Ok(tool_of_info(info, category, categories))
}

/// A tool of which nothing but its name and groups is known.
pub open spec fn minimal_tool(name: Seq<char>, categories: Seq<Seq<char>>) -> ToolView {
    ToolView {
        name,
        package_name: name,
        category: first_of(categories),
        categories,
        version: None,
        description: None,
        executable: None,
        executables: seq![],
        status: ToolStatus::NotInstalled,
        favorite: false,
    }
}

/// A tool of which nothing but its name and groups is known.
pub fn minimal_available_tool(package_name: String, categories: Vec<String>) -> (r: BlackArchTool)
    ensures
        r@ == minimal_tool(package_name@, string_views(categories@)),
{
    let category = if categories.len() > 0 {
        Some(copy_string(&categories[0]))
    } else {
        None
    };
    let r = BlackArchTool {
        name: copy_string(&package_name),
        package_name,
        category,
        categories,
        version: None,
        description: None,
        executable: None,
        executables: Vec::new(),
        status: ToolStatus::NotInstalled,
        favorite: false,
    };
    assert(r@.executables =~= seq![]);
    r
}

/// The description given to a tool whose details could not be read.
pub open spec fn unavailable_description() -> Seq<char> {
    "Package info unavailable"@
}

/// The view of an optional tool.
pub open spec fn opt_tool_view(t: Option<&BlackArchTool>) -> Option<ToolView> {
    match t {
        Some(t) => Some(t@),
        None => None,
    }
}

/// The tool `name`: its details when they can be read, completed from
/// `fallback` (its favorite flag, and its groups where the details name none);
/// else `fallback`, or a bare tool, marked as lacking details.
pub open spec fn detail_or_partial(
    name: Seq<char>,
    detail: Result<ToolView, AppErrorView>,
    fallback: Option<ToolView>,
) -> ToolView {
    match detail {
        Ok(d) => match fallback {
            Some(f) => ToolView {
                favorite: f.favorite,
                category: if d.category is None {
                    f.category
                } else {
                    d.category
                },
                categories: if d.categories.len() == 0 {
                    f.categories
                } else {
                    d.categories
                },
                ..d
            },
            None => d,
        },
        Err(_) => {
            let base = match fallback {
                Some(f) => f,
                None => minimal_tool(name, seq![]),
            };
            ToolView { description: Some(unavailable_description()), ..base }
        },
    }
}

/// The tool `package_name`, given the outputs of its three queries and what was
/// known of it before; never fails.
pub fn get_tool_detail_or_partial(
    package_name: &str,
    outputs: PackageOutputs,
    fallback: Option<&BlackArchTool>,
) -> (r: BlackArchTool)
    ensures
        r@ == detail_or_partial(
            package_name@,
            detail_result(package_name@, outputs),
            opt_tool_view(fallback),
        ),
{
    match get_tool_detail(package_name, outputs) {
        Ok(mut detail) => {
            if let Some(fallback) = fallback {
                detail.favorite = fallback.favorite;
                if detail.category.is_none() {
                    detail.category = crate::models::copy_opt(&fallback.category);
                }
                if detail.categories.len() == 0 {
                    detail.categories = crate::models::copy_strings(&fallback.categories);
                }
            }
            detail
        },
        Err(_) => {
            let mut tool = match fallback {
                Some(f) => f.duplicate(),
                None => {
                    let none: Vec<String> = Vec::new();
                    assert(string_views(none@) =~= seq![]);
                    minimal_available_tool(owned(package_name), none)
                },
            };
            tool.description = Some(owned("Package info unavailable"));
            tool
        },
    }
}

/// The views of a list of tools.
pub open spec fn tools_view(v: Vec<BlackArchTool>) -> Seq<ToolView> {
    crate::models::tool_views(v@)
}

/// Which tools to show at start: those of the cache when it is preferred and
/// holds some, else none yet (the cache must be rebuilt); an error when the
/// preferred cache could not be read.
pub fn load_tools(prefer_cache: bool, cached: Result<Option<Vec<BlackArchTool>>, AppError>) -> (r:
    Result<Option<Vec<BlackArchTool>>, AppError>)
    ensures
        !prefer_cache ==> r matches Ok(None),
        prefer_cache ==> match cached {
            Err(e) => r matches Err(x) && x@ == e@,
            Ok(None) => r matches Ok(None),
            Ok(Some(tools)) => r matches Ok(Some(t)) && tools_view(t) == tools_view(tools),
        },
{
    if prefer_cache {
        if let Some(tools) = cached? {
            return Ok(Some(tools));
        }
    }
    Ok(None)
}

/// Which categories to show at start: those of the cache when it is preferred
/// and holds some, else none yet (the cache must be rebuilt); an error when
/// the preferred cache could not be read.
pub fn load_categories(prefer_cache: bool, cached: Result<Option<Vec<String>>, AppError>) -> (r:
    Result<Option<Vec<String>>, AppError>)
    ensures
        !prefer_cache ==> r matches Ok(None),
        prefer_cache ==> match cached {
            Err(e) => r matches Err(x) && x@ == e@,
            Ok(None) => r matches Ok(None),
            Ok(Some(c)) => r matches Ok(Some(x)) && string_views(x@) == string_views(c@),
        },
{
    if prefer_cache {
        if let Some(categories) = cached? {
            return Ok(Some(categories));
        }
    }
    Ok(None)
}

/// The categories to cache, given `output`, the result of `pacman -Sg`.
pub fn refresh_categories_cache(output: Result<String, AppError>) -> (r: Result<
    Vec<String>,
    AppError,
>)
    ensures
        strings_result(r) == categories_result(text_result(output)),
{
    list_blackarch_categories(output)
}

/// The tool built for a cache entry: the details, with the entry's groups,
/// when they could be read; else a bare tool with the entry's groups.
pub open spec fn cached_tool(
    entry: (Seq<char>, Seq<Seq<char>>),
    detail: Result<ToolView, AppErrorView>,
) -> ToolView {
    match detail {
        Ok(t) => ToolView { categories: entry.1, ..t },
        Err(_) => minimal_tool(entry.0, entry.1),
    }
}

/// The views of the detail results.
pub open spec fn detail_views(v: Seq<Result<BlackArchTool, AppError>>) -> Seq<
    Result<ToolView, AppErrorView>,
> {
    v.map_values(|r: Result<BlackArchTool, AppError>| tool_result(r))
}

/// The tools of a rebuilt cache, and its metadata, given each tool with its
/// groups and the result of reading its details.
pub fn refresh_tools_cache(
    memberships: Vec<(String, Vec<String>)>,
    details: Vec<Result<BlackArchTool, AppError>>,
) -> (r: (Vec<BlackArchTool>, CacheMetadata))
    requires
        memberships@.len() == details@.len(),
    ensures
        tools_view(r.0).len() == memberships@.len(),
        forall|i: int|
            0 <= i < memberships@.len() ==> #[trigger] tools_view(r.0)[i] == cached_tool(
                membership_views(memberships@)[i],
                detail_views(details@)[i],
            ),
        r.1.tool_count == r.0@.len(),
        exists|secs: nat| r.1.generated_at@ == #[trigger] decimal(secs),
{
    let ghost mv = membership_views(memberships@);
    let ghost dv = detail_views(details@);
    let mut tools: Vec<BlackArchTool> = Vec::new();
    let mut i: usize = 0;
    while i < details.len()
        invariant
            i <= details@.len(),
            memberships@.len() == details@.len(),
            mv == membership_views(memberships@),
            dv == detail_views(details@),
            tools@.len() == i,
            forall|k: int| 0 <= k < i ==> #[trigger] tools@[k]@ == cached_tool(mv[k], dv[k]),
        decreases details@.len() - i,
    {
        let categories = crate::models::copy_strings(&memberships[i].1);
        let tool = match &details[i] {
            Ok(tool) => {
                let mut t = tool.duplicate();
                t.categories = categories;
                t
            },
            Err(_) => minimal_available_tool(copy_string(&memberships[i].0), categories),
        };
        tools.push(tool);
        i += 1;
    }
    let metadata = CacheMetadata { generated_at: now_timestamp(), tool_count: tools.len() };
    (tools, metadata)
}

} // verus!
