//! Queries about BlackArch groups and packages. Each query receives the output
//! of the `pacman` runs it needs, and computes its answer from them.
use vstd::prelude::*;

use crate::error::{AppError, AppErrorView};
use crate::models::{BlackArchTool, PackageInfo, PackageInfoView, ToolStatus, ToolView};
use crate::pacman::command::text_result;
use crate::pacman::parser::{
    categories_spec, executables_spec, group_members_spec, package_info_spec,
    parse_blackarch_categories, parse_executables, parse_package_info, parse_tools_from_group,
};
use crate::utils::order::string_views;
use crate::utils::scan::{contains_seq, has_infix};
use crate::utils::text::{chars_of, owned};
use crate::utils::unique::{first_index_of, lemma_first_index_of};
use crate::utils::validate::{
    valid_category_name, valid_package_name, validate_category_name, validate_package_name,
};

verus! {

/// The view of a result that carries a list of strings.
pub open spec fn strings_result(r: Result<Vec<String>, AppError>) -> Result<
    Seq<Seq<char>>,
    AppErrorView,
> {
    match r {
        Ok(v) => Ok(string_views(v@)),
        Err(e) => Err(e@),
    }
}

/// The view of a result that carries a flag.
pub open spec fn bool_result(r: Result<bool, AppError>) -> Result<bool, AppErrorView> {
    match r {
        Ok(b) => Ok(b),
        Err(e) => Err(e@),
    }
}

/// The BlackArch groups, given the output of `pacman -Sg`: an error when the
/// run failed or when no BlackArch group is listed.
pub open spec fn categories_result(output: Result<Seq<char>, AppErrorView>) -> Result<
    Seq<Seq<char>>,
    AppErrorView,
> {
    match output {
        Err(e) => Err(e),
        Ok(o) => if categories_spec(o).len() == 0 {
            Err(AppErrorView::BlackArchRepoNotFound)
        } else {
            Ok(categories_spec(o))
        },
    }
}

/// The BlackArch groups listed in `output`, the result of `pacman -Sg`.
pub fn list_blackarch_categories(output: Result<String, AppError>) -> (r: Result<
    Vec<String>,
    AppError,
>)
    ensures
        strings_result(r) == categories_result(text_result(output)),
{
    let output = output?;
    let categories = parse_blackarch_categories(output.as_str());
    if categories.len() == 0 {
        return Err(AppError::BlackArchRepoNotFound);
    }
    Ok(categories)
}

/// The members of group `category`, given the output of `pacman -Sg <category>`:
/// an error for an invalid category name or a failed run.
pub open spec fn category_tools_result(
    category: Seq<char>,
    output: Result<Seq<char>, AppErrorView>,
) -> Result<Seq<Seq<char>>, AppErrorView> {
    if !valid_category_name(category) {
        Err(AppErrorView::InvalidCategoryName(category))
    } else {
        match output {
            Err(e) => Err(e),
            Ok(o) => Ok(group_members_spec(o, category)),
        }
    }
}

/// The packages of group `category`, given `output`, the result of `pacman -Sg <category>`.
pub fn list_tools_by_category(category: &str, output: Result<String, AppError>) -> (r: Result<
    Vec<String>,
    AppError,
>)
    ensures
        strings_result(r) == category_tools_result(category@, text_result(output)),
{
    if !validate_category_name(category) {
        return Err(AppError::InvalidCategoryName(owned(category)));
    }
    let output = output?;
    Ok(parse_tools_from_group(output.as_str(), category))
}

/// Whether a failed `pacman` run reports a package that it does not know.
pub open spec fn missing_package(e: AppErrorView) -> bool {
    e matches AppErrorView::CommandFailed { stderr, .. } && contains_seq(stderr, "not found"@)
}

/// Whether `error` is a failed `pacman` run whose error output says "not found"
/// (which covers "was not found").
fn is_missing_package(error: &AppError) -> (r: bool)
    ensures
        r == missing_package(error@),
{
    match error {
        AppError::CommandFailed { stderr, .. } => has_infix(
            &chars_of(stderr.as_str()),
            &chars_of("not found"),
        ),
        _ => false,
    }
}

/// Whether `name` is installed, given `output`, the result of `pacman -Q <name>`.
pub open spec fn installed_spec(name: Seq<char>, output: Result<Seq<char>, AppErrorView>) -> Result<
    bool,
    AppErrorView,
> {
    if !valid_package_name(name) {
        Err(AppErrorView::InvalidPackageName(name))
    } else {
        match output {
            Ok(_) => Ok(true),
            Err(e) => if missing_package(e) {
                Ok(false)
            } else {
                Err(e)
            },
        }
    }
}

/// Whether `package_name` is installed, given `output`, the result of `pacman -Q <package_name>`:
/// a successful run means installed, a run that reports the package unknown means not installed.
pub fn is_installed(package_name: &str, output: Result<String, AppError>) -> (r: Result<
    bool,
    AppError,
>)
    ensures
        bool_result(r) == installed_spec(package_name@, text_result(output)),
{
    if !validate_package_name(package_name) {
        return Err(AppError::InvalidPackageName(owned(package_name)));
    }
    match output {
        Ok(_) => Ok(true),
        Err(error) => if is_missing_package(&error) {
            Ok(false)
        } else {
            Err(error)
        },
    }
}

/// The executables of `name`, given `output`, the result of `pacman -Ql <name>`.
pub open spec fn executables_result_spec(
    name: Seq<char>,
    output: Result<Seq<char>, AppErrorView>,
) -> Result<Seq<Seq<char>>, AppErrorView> {
    if !valid_package_name(name) {
        Err(AppErrorView::InvalidPackageName(name))
    } else {
        match output {
            Ok(o) => Ok(executables_spec(o)),
            Err(e) => if missing_package(e) {
                Ok(seq![])
            } else {
                Err(e)
            },
        }
    }
}

/// The executables that `package_name` installs, given `output`, the result of
/// `pacman -Ql <package_name>`; none when the package is not installed.
pub fn get_executables(package_name: &str, output: Result<String, AppError>) -> (r: Result<
    Vec<String>,
    AppError,
>)
    ensures
        strings_result(r) == executables_result_spec(package_name@, text_result(output)),
{
    if !validate_package_name(package_name) {
        return Err(AppError::InvalidPackageName(owned(package_name)));
    }
    match output {
        Ok(output) => Ok(parse_executables(output.as_str())),
        Err(error) => if is_missing_package(&error) {
            let none: Vec<String> = Vec::new();
            assert(string_views(none@) =~= seq![]);
            Ok(none)
        } else {
            Err(error)
        },
    }
}

/// The results of the three `pacman` runs that describe a package:
/// `pacman -Si`, `pacman -Q` and `pacman -Ql`.
#[derive(Debug)]
pub struct PackageOutputs {
    pub info: Result<String, AppError>,
    pub installed: Result<String, AppError>,
    pub files: Result<String, AppError>,
}

/// The view of a result that carries package details.
pub open spec fn info_result(r: Result<PackageInfo, AppError>) -> Result<
    PackageInfoView,
    AppErrorView,
> {
    match r {
        Ok(i) => Ok(i@),
        Err(e) => Err(e@),
    }
}

/// The details of package `name`, given the outputs of its three queries.
pub open spec fn package_info_result(name: Seq<char>, outputs: PackageOutputs) -> Result<
    PackageInfoView,
    AppErrorView,
> {
    if !valid_package_name(name) {
        Err(AppErrorView::InvalidPackageName(name))
    } else {
        match text_result(outputs.info) {
            Err(e) => Err(e),
            Ok(o) => match installed_spec(name, text_result(outputs.installed)) {
                Err(e) => Err(e),
                Ok(installed) => match executables_result_spec(name, text_result(outputs.files)) {
                    Err(e) => Err(e),
                    Ok(executables) => Ok(
                        PackageInfoView { installed, executables, ..package_info_spec(o) },
                    ),
                },
            },
        }
    }
}

/// The details of `package_name`, given the outputs of its three queries.
pub fn get_package_info(package_name: &str, outputs: PackageOutputs) -> (r: Result<
    PackageInfo,
    AppError,
>)
    ensures
        info_result(r) == package_info_result(package_name@, outputs),
{
    if !validate_package_name(package_name) {
        return Err(AppError::InvalidPackageName(owned(package_name)));
    }
    let PackageOutputs { info, installed, files } = outputs;
    let output = info?;
    let mut info = parse_package_info(output.as_str());
    info.installed = is_installed(package_name, installed)?;
    info.executables = get_executables(package_name, files)?;
    Ok(info)
}

/// The tool that package details describe, in `category` and `categories`.
pub open spec fn tool_from_info(
    info: PackageInfoView,
    category: Option<Seq<char>>,
    categories: Seq<Seq<char>>,
) -> ToolView {
    ToolView {
        name: info.name,
        package_name: info.name,
        category,
        categories,
        version: info.version,
        description: info.description,
        executable: if info.executables.len() > 0 {
            Some(info.executables[0])
        } else {
            None
        },
        executables: info.executables,
        status: if info.installed {
            ToolStatus::Installed
        } else {
            ToolStatus::NotInstalled
        },
        favorite: false,
    }
}

/// The view of a result that carries a tool.
pub open spec fn tool_result(r: Result<BlackArchTool, AppError>) -> Result<ToolView, AppErrorView> {
    match r {
        Ok(t) => Ok(t@),
        Err(e) => Err(e@),
    }
}

/// The tool `name` of group `category`, given the outputs of its three queries.
pub open spec fn build_tool_result(name: Seq<char>, category: Seq<char>, outputs: PackageOutputs) -> Result<
    ToolView,
    AppErrorView,
> {
    if !valid_category_name(category) {
        Err(AppErrorView::InvalidCategoryName(category))
    } else {
        match package_info_result(name, outputs) {
            Err(e) => Err(e),
            Ok(info) => Ok(tool_from_info(info, Some(category), seq![category])),
        }
    }
}

/// A tool made of the details of `info`, in `category` and `categories`.
pub fn tool_of_info(info: PackageInfo, category: Option<String>, categories: Vec<String>) -> (r:
    BlackArchTool)
    ensures
        r@ == tool_from_info(info@, crate::models::opt_view(category), string_views(categories@)),
{
    let executable = if info.executables.len() > 0 {
        Some(info.executables[0].clone())
    } else {
        None
    };
    let status = if info.installed {
        ToolStatus::Installed
    } else {
        ToolStatus::NotInstalled
    };
    BlackArchTool {
        name: info.name.clone(),
        package_name: info.name,
        category,
        categories,
        version: info.version,
        description: info.description,
        executable,
        executables: info.executables,
        status,
        favorite: false,
    }
}

/// The tool `package_name` of group `category`, given the outputs of its three queries.
pub fn build_tool(package_name: &str, category: &str, outputs: PackageOutputs) -> (r: Result<
    BlackArchTool,
    AppError,
>)
    ensures
        tool_result(r) == build_tool_result(package_name@, category@, outputs),
{
    if !validate_category_name(category) {
        return Err(AppError::InvalidCategoryName(owned(category)));
    }
    let info = get_package_info(package_name, outputs)?;
    let categories = vec![owned(category)];
    assert(string_views(categories@) =~= seq![category@]);
    Ok(tool_of_info(info, Some(owned(category)), categories))
}

// ---------------------------------------------------------------------------
// All tools
// ---------------------------------------------------------------------------

/// The views of a list of (tool, category) pairs.
pub open spec fn pair_views(v: Seq<(String, String)>) -> Seq<(Seq<char>, Seq<char>)> {
    v.map_values(|p: (String, String)| (p.0@, p.1@))
}

/// The tool names of a list of (tool, category) pairs.
pub open spec fn pair_names(v: Seq<(Seq<char>, Seq<char>)>) -> Seq<Seq<char>> {
    v.map_values(|p: (Seq<char>, Seq<char>)| p.0)
}

/// `acc` extended by the members `tools` of `category` that it does not name yet, in order.
pub open spec fn add_tools(
    acc: Seq<(Seq<char>, Seq<char>)>,
    tools: Seq<Seq<char>>,
    category: Seq<char>,
) -> Seq<(Seq<char>, Seq<char>)>
    decreases tools.len(),
{
    if tools.len() == 0 {
        acc
    } else {
        let a = add_tools(acc, tools.drop_last(), category);
        if pair_names(a).contains(tools.last()) {
            a
        } else {
            a.push((tools.last(), category))
        }
    }
}

/// Every tool of the first `n` groups, each with the first group that lists it,
/// in order; or the first failed group listing.
pub open spec fn all_tools_spec(
    categories: Seq<Seq<char>>,
    listed: Seq<Result<Seq<Seq<char>>, AppErrorView>>,
    n: nat,
) -> Result<Seq<(Seq<char>, Seq<char>)>, AppErrorView>
    decreases n,
{
    if n == 0 {
        Ok(seq![])
    } else {
        match all_tools_spec(categories, listed, (n - 1) as nat) {
            Err(e) => Err(e),
            Ok(acc) => match listed[n - 1] {
                Err(e) => Err(e),
                Ok(tools) => Ok(add_tools(acc, tools, categories[n - 1])),
            },
        }
    }
}

/// Once a group listing fails, the failure is the outcome for every longer prefix.
proof fn lemma_all_tools_err(
    categories: Seq<Seq<char>>,
    listed: Seq<Result<Seq<Seq<char>>, AppErrorView>>,
    k: nat,
    m: nat,
)
    requires
        k <= m,
        all_tools_spec(categories, listed, k) is Err,
    ensures
        all_tools_spec(categories, listed, m) == all_tools_spec(categories, listed, k),
    decreases m,
{
    if m > k {
        lemma_all_tools_err(categories, listed, k, (m - 1) as nat);
    }
}

/// The views of the group listings.
pub open spec fn listed_views(listed: Seq<Result<Vec<String>, AppError>>) -> Seq<
    Result<Seq<Seq<char>>, AppErrorView>,
> {
    listed.map_values(|r: Result<Vec<String>, AppError>| strings_result(r))
}

/// The view of a result that carries (tool, category) pairs.
pub open spec fn pairs_result(r: Result<Vec<(String, String)>, AppError>) -> Result<
    Seq<(Seq<char>, Seq<char>)>,
    AppErrorView,
> {
    match r {
        Ok(v) => Ok(pair_views(v@)),
        Err(e) => Err(e@),
    }
}

/// Every BlackArch tool, each with the first group that lists it, given the
/// groups and, for each, the result of listing its members.
pub fn list_all_blackarch_tools(
    categories: &Vec<String>,
    listed: Vec<Result<Vec<String>, AppError>>,
) -> (r: Result<Vec<(String, String)>, AppError>)
    requires
        categories@.len() == listed@.len(),
    ensures
        pairs_result(r) == all_tools_spec(
            string_views(categories@),
            listed_views(listed@),
            listed@.len() as nat,
        ),
{
    let ghost cats = string_views(categories@);
    let ghost lv = listed_views(listed@);
    let mut tools: Vec<(String, String)> = Vec::new();
    let mut seen: Vec<String> = Vec::new();
    let mut i: usize = 0;
    assert(pair_views(tools@) =~= seq![]);
    while i < listed.len()
        invariant
            i <= listed@.len(),
            categories@.len() == listed@.len(),
            cats == string_views(categories@),
            lv == listed_views(listed@),
            all_tools_spec(cats, lv, i as nat) == Ok::<
                Seq<(Seq<char>, Seq<char>)>,
                AppErrorView,
            >(pair_views(tools@)),
            string_views(seen@) == pair_names(pair_views(tools@)),
        decreases listed@.len() - i,
    {
        match &listed[i] {
            Err(e) => {
                assert(lv[i as int] == Err::<Seq<Seq<char>>, AppErrorView>(e@));
                proof {
                    lemma_all_tools_err(cats, lv, (i + 1) as nat, listed@.len() as nat);
                }
                return Err(e.duplicate());
            },
            Ok(members) => {
                let ghost acc = pair_views(tools@);
                let ghost ms = string_views(members@);
                assert(lv[i as int] == Ok::<Seq<Seq<char>>, AppErrorView>(ms));
                let mut j: usize = 0;
                assert(ms.take(0) =~= seq![]);
                while j < members.len()
                    invariant
                        j <= members@.len(),
                        i < categories@.len(),
                        ms == string_views(members@),
                        cats == string_views(categories@),
                        pair_views(tools@) == add_tools(acc, ms.take(j as int), cats[i as int]),
                        string_views(seen@) == pair_names(pair_views(tools@)),
                    decreases members@.len() - j,
                {
                    assert(ms.take(j + 1).drop_last() =~= ms.take(j as int));
                    assert(ms.take(j + 1).last() == members@[j as int]@);
                    let name = chars_of(members[j].as_str());
                    if !crate::utils::unique::strings_contain(&seen, &name) {
                        let ghost before = pair_views(tools@);
                        seen.push(members[j].clone());
                        tools.push((members[j].clone(), categories[i].clone()));
                        assert(pair_views(tools@) =~= before.push((ms[j as int], cats[i as int])));
                        assert(pair_names(pair_views(tools@)) =~= pair_names(before).push(
                            ms[j as int],
                        ));
                    }
                    j += 1;
                }
                assert(ms.take(members@.len() as int) =~= ms);
            },
        }
        i += 1;
    }
    Ok(tools)
}

// ---------------------------------------------------------------------------
// Groups of each tool
// ---------------------------------------------------------------------------

/// The views of a list of (tool, groups) entries.
pub open spec fn membership_views(v: Seq<(String, Vec<String>)>) -> Seq<
    (Seq<char>, Seq<Seq<char>>),
> {
    v.map_values(|p: (String, Vec<String>)| (p.0@, string_views(p.1@)))
}

/// The tool names of a list of (tool, groups) entries.
pub open spec fn entry_names(v: Seq<(Seq<char>, Seq<Seq<char>>)>) -> Seq<Seq<char>> {
    v.map_values(|p: (Seq<char>, Seq<Seq<char>>)| p.0)
}

/// `acc` after recording that `category` lists `tools`: a tool already
/// recorded gains the group, a new one is appended with it.
pub open spec fn add_memberships(
    acc: Seq<(Seq<char>, Seq<Seq<char>>)>,
    tools: Seq<Seq<char>>,
    category: Seq<char>,
) -> Seq<(Seq<char>, Seq<Seq<char>>)>
    decreases tools.len(),
{
    if tools.len() == 0 {
        acc
    } else {
        let a = add_memberships(acc, tools.drop_last(), category);
        let t = tools.last();
        let k = first_index_of(entry_names(a), t);
        if k < a.len() {
            a.update(k, (t, a[k].1.push(category)))
        } else {
            a.push((t, seq![category]))
        }
    }
}

/// Every tool of the first `n` groups with the groups that list it, tools in
/// order of first appearance; or the first failed group listing.
pub open spec fn memberships_spec(
    categories: Seq<Seq<char>>,
    listed: Seq<Result<Seq<Seq<char>>, AppErrorView>>,
    n: nat,
) -> Result<Seq<(Seq<char>, Seq<Seq<char>>)>, AppErrorView>
    decreases n,
{
    if n == 0 {
        Ok(seq![])
    } else {
        match memberships_spec(categories, listed, (n - 1) as nat) {
            Err(e) => Err(e),
            Ok(acc) => match listed[n - 1] {
                Err(e) => Err(e),
                Ok(tools) => Ok(add_memberships(acc, tools, categories[n - 1])),
            },
        }
    }
}

/// Once a group listing fails, the failure is the outcome for every longer prefix.
proof fn lemma_memberships_err(
    categories: Seq<Seq<char>>,
    listed: Seq<Result<Seq<Seq<char>>, AppErrorView>>,
    k: nat,
    m: nat,
)
    requires
        k <= m,
        memberships_spec(categories, listed, k) is Err,
    ensures
        memberships_spec(categories, listed, m) == memberships_spec(categories, listed, k),
    decreases m,
{
    if m > k {
        lemma_memberships_err(categories, listed, k, (m - 1) as nat);
    }
}

/// The view of a result that carries (tool, groups) entries.
pub open spec fn memberships_result(r: Result<Vec<(String, Vec<String>)>, AppError>) -> Result<
    Seq<(Seq<char>, Seq<Seq<char>>)>,
    AppErrorView,
> {
    match r {
        Ok(v) => Ok(membership_views(v@)),
        Err(e) => Err(e@),
    }
}

/// The position of the entry for `name`, or the number of entries.
fn entry_position(entries: &Vec<(String, Vec<String>)>, name: &str) -> (r: usize)
    ensures
        r as int == first_index_of(entry_names(membership_views(entries@)), name@),
{
    let ghost names = entry_names(membership_views(entries@));
    let mut k: usize = 0;
    while k < entries.len()
        invariant
            k <= entries@.len(),
            names == entry_names(membership_views(entries@)),
            forall|j: int| 0 <= j < k ==> names[j] != name@,
        decreases entries@.len() - k,
    {
        if crate::utils::text::str_eq(entries[k].0.as_str(), name) {
            proof {
                lemma_first_index_of(names, name@, k as int);
            }
            return k;
        }
        k += 1;
    }
    proof {
        lemma_first_index_of(names, name@, k as int);
    }
    k
}

/// Every BlackArch tool with the groups that list it, given the groups and,
/// for each, the result of listing its members.
pub fn package_categories(categories: &Vec<String>, listed: Vec<Result<Vec<String>, AppError>>) -> (r:
    Result<Vec<(String, Vec<String>)>, AppError>)
    requires
        categories@.len() == listed@.len(),
    ensures
        memberships_result(r) == memberships_spec(
            string_views(categories@),
            listed_views(listed@),
            listed@.len() as nat,
        ),
{
    let ghost cats = string_views(categories@);
    let ghost lv = listed_views(listed@);
    let mut entries: Vec<(String, Vec<String>)> = Vec::new();
    let mut i: usize = 0;
    assert(membership_views(entries@) =~= seq![]);
    while i < listed.len()
        invariant
            i <= listed@.len(),
            categories@.len() == listed@.len(),
            cats == string_views(categories@),
            lv == listed_views(listed@),
            memberships_spec(cats, lv, i as nat) == Ok::<
                Seq<(Seq<char>, Seq<Seq<char>>)>,
                AppErrorView,
            >(membership_views(entries@)),
        decreases listed@.len() - i,
    {
        match &listed[i] {
            Err(e) => {
                assert(lv[i as int] == Err::<Seq<Seq<char>>, AppErrorView>(e@));
                proof {
                    lemma_memberships_err(cats, lv, (i + 1) as nat, listed@.len() as nat);
                }
                return Err(e.duplicate());
            },
            Ok(members) => {
                let ghost acc = membership_views(entries@);
                let ghost ms = string_views(members@);
                assert(lv[i as int] == Ok::<Seq<Seq<char>>, AppErrorView>(ms));
                let mut j: usize = 0;
                assert(ms.take(0) =~= seq![]);
                while j < members.len()
                    invariant
                        j <= members@.len(),
                        i < categories@.len(),
                        ms == string_views(members@),
                        cats == string_views(categories@),
                        membership_views(entries@) == add_memberships(
                            acc,
                            ms.take(j as int),
                            cats[i as int],
                        ),
                    decreases members@.len() - j,
                {
                    assert(ms.take(j + 1).drop_last() =~= ms.take(j as int));
                    assert(ms.take(j + 1).last() == members@[j as int]@);
                    let ghost before = membership_views(entries@);
                    let k = entry_position(&entries, members[j].as_str());
                    proof {
                        crate::utils::unique::lemma_first_index_of_bounds(
                            entry_names(before),
                            ms[j as int],
                        );
                    }
                    if k < entries.len() {
                        assert(entry_names(before)[k as int] == ms[j as int]);
                        let mut groups = crate::models::copy_strings(&entries[k].1);
                        let ghost gv = string_views(groups@);
                        groups.push(categories[i].clone());
                        assert(string_views(groups@) =~= gv.push(cats[i as int]));
                        let name = entries[k].0.clone();
                        assert(name@ == before[k as int].0);
                        let ghost pre = entries@;
                        let ghost item = (name, groups);
                        entries.set(k, (name, groups));
                        assert(entries@ == pre.update(k as int, item));
                        assert(membership_views(entries@) =~= before.update(
                            k as int,
                            (ms[j as int], before[k as int].1.push(cats[i as int])),
                        ));
                    } else {
                        let first = vec![categories[i].clone()];
                        assert(string_views(first@) =~= seq![cats[i as int]]);
                        entries.push((members[j].clone(), first));
                        assert(membership_views(entries@) =~= before.push(
                            (ms[j as int], seq![cats[i as int]]),
                        ));
                    }
                    j += 1;
                }
                assert(ms.take(members@.len() as int) =~= ms);
            },
        }
        i += 1;
    }
    Ok(entries)
}

} // verus!
