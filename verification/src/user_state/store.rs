//! Favorites and recently run tools. The files that hold them are read and
//! written around this module: its functions take what a file holds and give
//! what it must hold next.
use vstd::prelude::*;

use crate::error::{AppError, AppErrorView};
use crate::models::{opt_view, recent_views, RecentTool, RecentView, UserState};
use crate::utils::order::{
    dedup_adjacent, dedup_strings, sort_strings, string_views, text_order,
};
use crate::utils::clock::decimal;
use crate::utils::text::{copy_string, owned, str_eq};
use crate::utils::unique::{first_index_of, lemma_first_index_of};
use crate::utils::validate::{valid_package_name, validate_executable_name, validate_package_name};

verus! {

/// The most recent entries kept.
pub const RECENT_LIMIT: usize = 50;

/// Accepts a valid package name; names an invalid one.
pub fn validate_user_package_name(package_name: &str) -> (r: Result<(), AppError>)
    ensures
        r is Ok <==> valid_package_name(package_name@),
        r matches Err(e) ==> e@ == AppErrorView::InvalidPackageName(package_name@),
{
    if validate_package_name(package_name) {
        Ok(())
    } else {
        Err(AppError::InvalidPackageName(owned(package_name)))
    }
}

/// Accepts a valid executable name; names an invalid one.
pub fn validate_user_executable_name(executable: &str) -> (r: Result<(), AppError>)
    ensures
        r is Ok <==> valid_package_name(executable@),
        r matches Err(e) ==> e@ == AppErrorView::InvalidPackageName(executable@),
{
    if validate_executable_name(executable) {
        Ok(())
    } else {
        Err(AppError::InvalidPackageName(owned(executable)))
    }
}

/// `values` sorted, with equal neighbours merged.
pub open spec fn dedup_spec(values: Seq<Seq<char>>) -> Seq<Seq<char>> {
    dedup_adjacent(values.sort_by(text_order()))
}

/// The values sorted, each once.
pub fn dedup(values: Vec<String>) -> (r: Vec<String>)
    ensures
        string_views(r@) == dedup_spec(string_views(values@)),
{
    let mut values = values;
    sort_strings(&mut values);
    dedup_strings(values)
}

/// The index of the first name of `names` that is not a valid package name, or its length.
pub open spec fn first_invalid_name(names: Seq<Seq<char>>) -> int {
    crate::actions::package_installer::first_invalid(names)
}

/// What loading a favorites file gives: an error naming the first invalid
/// entry, else the entries sorted, each once.
pub open spec fn load_favorites_spec(file: Seq<Seq<char>>) -> Result<Seq<Seq<char>>, AppErrorView> {
    if first_invalid_name(file) < file.len() {
        Err(AppErrorView::InvalidPackageName(file[first_invalid_name(file)]))
    } else {
        Ok(dedup_spec(file))
    }
}

/// Checks that every name is a valid package name; the first invalid one is named.
fn validate_all_names(names: &Vec<String>) -> (r: Result<(), AppError>)
    ensures
        r is Ok <==> first_invalid_name(string_views(names@)) == names@.len(),
        r matches Err(e) ==> first_invalid_name(string_views(names@)) < names@.len() && e@
            == AppErrorView::InvalidPackageName(
            string_views(names@)[first_invalid_name(string_views(names@))],
        ),
{
    let ghost views = string_views(names@);
    let mut i: usize = 0;
    while i < names.len()
        invariant
            i <= names@.len(),
            views == string_views(names@),
            forall|j: int| 0 <= j < i ==> valid_package_name(#[trigger] views[j]),
        decreases names@.len() - i,
    {
        if !validate_package_name(names[i].as_str()) {
            proof {
                crate::actions::package_installer::lemma_first_invalid(views, i as int);
            }
            return Err(AppError::InvalidPackageName(copy_string(&names[i])));
        }
        i += 1;
    }
    proof {
        crate::actions::package_installer::lemma_first_invalid(views, i as int);
    }
    Ok(())
}

/// The favorites that a favorites file holds, checked and sorted, each once.
pub fn load_favorites(file: Vec<String>) -> (r: Result<Vec<String>, AppError>)
    ensures
        match r {
            Ok(v) => load_favorites_spec(string_views(file@)) == Ok::<
                Seq<Seq<char>>,
                AppErrorView,
            >(string_views(v@)),
            Err(e) => load_favorites_spec(string_views(file@)) == Err::<
                Seq<Seq<char>>,
                AppErrorView,
            >(e@),
        },
{
    validate_all_names(&file)?;
    Ok(dedup(file))
}

/// What a favorites file must hold to store `favorites`: an error naming the
/// first invalid entry, else the entries sorted, each once.
pub fn save_favorites(favorites: &Vec<String>) -> (r: Result<Vec<String>, AppError>)
    ensures
        match r {
            Ok(v) => load_favorites_spec(string_views(favorites@)) == Ok::<
                Seq<Seq<char>>,
                AppErrorView,
            >(string_views(v@)),
            Err(e) => load_favorites_spec(string_views(favorites@)) == Err::<
                Seq<Seq<char>>,
                AppErrorView,
            >(e@),
        },
{
    validate_all_names(favorites)?;
    Ok(dedup(crate::models::copy_strings(favorites)))
}

/// The position of the first entry of `v` equal to `name`, if any.
fn position_of(v: &Vec<String>, name: &str) -> (r: Option<usize>)
    ensures
        match r {
            Some(i) => i < v@.len() && string_views(v@)[i as int] == name@ && forall|j: int|
                0 <= j < i ==> string_views(v@)[j] != name@,
            None => !string_views(v@).contains(name@),
        },
{
    let mut i: usize = 0;
    while i < v.len()
        invariant
            i <= v@.len(),
            forall|j: int| 0 <= j < i ==> string_views(v@)[j] != name@,
        decreases v@.len() - i,
    {
        if str_eq(v[i].as_str(), name) {
            return Some(i);
        }
        i += 1;
    }
    None
}

/// Removes `package_name` from `favorites` when it is there (returning false),
/// else adds it and sorts the list (returning true).
pub fn toggle_favorite_in_vec(favorites: &mut Vec<String>, package_name: &str) -> (r: bool)
    ensures
        r == !string_views(old(favorites)@).contains(package_name@),
        !r ==> exists|i: int|
            0 <= i < old(favorites)@.len() && string_views(old(favorites)@)[i] == package_name@
                && (forall|j: int|
                0 <= j < i ==> string_views(old(favorites)@)[j] != package_name@) && string_views(
                final(favorites)@,
            ) == string_views(old(favorites)@).remove(i),
        r ==> string_views(final(favorites)@) == string_views(old(favorites)@).push(
            package_name@,
        ).sort_by(text_order()),
{
    match position_of(favorites, package_name) {
        Some(index) => {
            let ghost before = string_views(favorites@);
            favorites.remove(index);
            assert(string_views(favorites@) =~= before.remove(index as int));
            assert(before.contains(package_name@)) by {
                assert(before[index as int] == package_name@);
            }
            false
        },
        None => {
            let ghost before = string_views(favorites@);
            favorites.push(owned(package_name));
            assert(string_views(favorites@) =~= before.push(package_name@));
            sort_strings(favorites);
            true
        },
    }
}

/// Whether `package_name` is a favorite, given what the favorites file holds.
pub fn is_favorite(file: &Vec<String>, package_name: &str) -> (r: Result<bool, AppError>)
    ensures
        !valid_package_name(package_name@) ==> (r matches Err(e) && e@
            == AppErrorView::InvalidPackageName(package_name@)),
        valid_package_name(package_name@) ==> match load_favorites_spec(string_views(file@)) {
            Ok(favs) => r == Ok::<bool, AppError>(favs.contains(package_name@)),
            Err(ev) => r matches Err(e) && e@ == ev,
        },
{
    validate_user_package_name(package_name)?;
    let favorites = load_favorites(crate::models::copy_strings(file))?;
    match position_of(&favorites, package_name) {
        Some(i) => {
            assert(string_views(favorites@)[i as int] == package_name@);
            Ok(true)
        },
        None => Ok(false),
    }
}

/// The favorites after toggling `name`: without it when they hold it, else with it, sorted.
pub open spec fn toggled_favorites(favs: Seq<Seq<char>>, name: Seq<char>) -> Seq<Seq<char>> {
    if favs.contains(name) {
        favs.remove(first_index_of(favs, name))
    } else {
        favs.push(name).sort_by(text_order())
    }
}

/// What toggling `name` in a favorites file gives: an error for an invalid
/// name or an invalid file, else whether the name was added and what the file
/// holds afterwards (sorted, each once).
pub open spec fn toggle_favorite_spec(file: Seq<Seq<char>>, name: Seq<char>) -> Result<
    (bool, Seq<Seq<char>>),
    AppErrorView,
> {
    if !valid_package_name(name) {
        Err(AppErrorView::InvalidPackageName(name))
    } else {
        match load_favorites_spec(file) {
            Err(e) => Err(e),
            Ok(favs) => Ok((!favs.contains(name), dedup_spec(toggled_favorites(favs, name)))),
        }
    }
}

/// Toggles `package_name` in the favorites that `file` holds, and rewrites
/// `file` with the result; returns whether the package was added.
pub fn toggle_favorite(file: &mut Vec<String>, package_name: &str) -> (r: Result<bool, AppError>)
    ensures
        match toggle_favorite_spec(string_views(old(file)@), package_name@) {
            Err(ev) => r matches Err(e) && e@ == ev && final(file)@ == old(file)@,
            Ok((added, favs)) => r == Ok::<bool, AppError>(added) && string_views(final(file)@)
                == favs,
        },
{
    validate_user_package_name(package_name)?;
    let mut favorites = load_favorites(crate::models::copy_strings(file))?;
    let ghost loaded = string_views(favorites@);
    let added = toggle_favorite_in_vec(&mut favorites, package_name);
    proof {
        // every entry of the toggled list is a valid package name
        let favs = string_views(old(file)@);
        crate::actions::package_installer::lemma_first_invalid_bounds(favs);
        crate::laws::lemma_dedup_spec_elements(favs);
        lemma_toggled_valid(favs, package_name@, string_views(favorites@), added);
        if !added {
            let i = choose|i: int|
                0 <= i < loaded.len() && loaded[i] == package_name@ && (forall|j: int|
                    0 <= j < i ==> loaded[j] != package_name@) && string_views(favorites@)
                    == loaded.remove(i);
            lemma_first_index_of(loaded, package_name@, i);
        }
        assert(string_views(favorites@) == toggled_favorites(loaded, package_name@));
    }
    let content = save_favorites(&favorites)?;
    *file = content;
    Ok(added)
}

proof fn lemma_toggled_valid(
    file: Seq<Seq<char>>,
    name: Seq<char>,
    toggled: Seq<Seq<char>>,
    added: bool,
)
    requires
        valid_package_name(name),
        first_invalid_name(file) == file.len(),
        forall|x: Seq<char>| dedup_spec(file).contains(x) ==> file.contains(x),
        added ==> toggled == dedup_spec(file).push(name).sort_by(text_order()),
        !added ==> exists|i: int|
            0 <= i < dedup_spec(file).len() && toggled == dedup_spec(file).remove(i),
    ensures
        first_invalid_name(toggled) == toggled.len(),
{
    crate::laws::lemma_all_valid_first_invalid(file);
    let d = dedup_spec(file);
    assert forall|k: int| 0 <= k < d.len() implies valid_package_name(#[trigger] d[k]) by {
        assert(d.contains(d[k]));
        assert(file.contains(d[k]));
        let j = choose|j: int| 0 <= j < file.len() && file[j] == d[k];
        assert(valid_package_name(file[j]));
    }
    if added {
        let p = d.push(name);
        assert forall|k: int| 0 <= k < p.len() implies valid_package_name(#[trigger] p[k]) by {
            if k < d.len() {
                assert(p[k] == d[k]);
            }
        }
        crate::utils::order::lemma_text_order_total();
        p.lemma_sort_by_ensures(text_order());
        assert forall|k: int| 0 <= k < toggled.len() implies valid_package_name(
            #[trigger] toggled[k],
        ) by {
            vstd::seq_lib::to_multiset_contains(toggled, toggled[k]);
            assert(toggled.contains(toggled[k]));
            vstd::seq_lib::to_multiset_contains(p, toggled[k]);
            let j = choose|j: int| 0 <= j < p.len() && p[j] == toggled[k];
        }
    } else {
        let i = choose|i: int| 0 <= i < d.len() && toggled == d.remove(i);
        assert forall|k: int| 0 <= k < toggled.len() implies valid_package_name(
            #[trigger] toggled[k],
        ) by {
            if k < i {
                assert(toggled[k] == d[k]);
            } else {
                assert(toggled[k] == d[k + 1]);
            }
        }
    }
    crate::actions::package_installer::lemma_first_invalid(toggled, toggled.len() as int);
}

/// `s` without the entries equal to `name`, in their order.
pub open spec fn without(s: Seq<Seq<char>>, name: Seq<char>) -> Seq<Seq<char>>
    decreases s.len(),
{
    if s.len() == 0 {
        s
    } else if s.last() == name {
        without(s.drop_last(), name)
    } else {
        without(s.drop_last(), name).push(s.last())
    }
}

/// What removing `name` from a favorites file gives: an error naming the first
/// invalid entry of the file, else what the file holds afterwards: its
/// favorites without `name`, stored as `save_favorites` stores them.
pub open spec fn remove_favorite_spec(file: Seq<Seq<char>>, name: Seq<char>) -> Result<
    Seq<Seq<char>>,
    AppErrorView,
> {
    match load_favorites_spec(file) {
        Err(e) => Err(e),
        Ok(favs) => load_favorites_spec(without(favs, name)),
    }
}

/// The entries of `v` not equal to `name`.
fn entries_without(v: &Vec<String>, name: &str) -> (r: Vec<String>)
    ensures
        string_views(r@) == without(string_views(v@), name@),
{
    let ghost views = string_views(v@);
    let mut out: Vec<String> = Vec::new();
    let mut i: usize = 0;
    while i < v.len()
        invariant
            i <= v@.len(),
            views == string_views(v@),
            string_views(out@) == without(views.take(i as int), name@),
        decreases v@.len() - i,
    {
        assert(views.take(i + 1).drop_last() =~= views.take(i as int));
        assert(views.take(i + 1).last() == v@[i as int]@);
        if !str_eq(v[i].as_str(), name) {
            let ghost before = string_views(out@);
            out.push(copy_string(&v[i]));
            assert(string_views(out@) =~= before.push(v@[i as int]@));
        }
        i += 1;
    }
    assert(views.take(v@.len() as int) =~= views);
    out
}

/// Removes every entry `package_name` from the favorites that `file` holds,
/// and rewrites `file` with the result. The name itself is not checked.
pub fn remove_favorite(file: &mut Vec<String>, package_name: &str) -> (r: Result<(), AppError>)
    ensures
        match remove_favorite_spec(string_views(old(file)@), package_name@) {
            Err(ev) => r matches Err(e) && e@ == ev && final(file)@ == old(file)@,
            Ok(favs) => r is Ok && string_views(final(file)@) == favs,
        },
{
    let favorites = load_favorites(crate::models::copy_strings(file))?;
    let kept = entries_without(&favorites, package_name);
    let content = save_favorites(&kept)?;
    *file = content;
    Ok(())
}

// ---------------------------------------------------------------------------
// Recent tools
// ---------------------------------------------------------------------------

/// Whether an entry of the recent list is valid: a valid package name and, when
/// present, a valid executable name.
pub open spec fn valid_recent(r: RecentView) -> bool {
    valid_package_name(r.package_name) && match r.executable {
        Some(e) => valid_package_name(e),
        None => true,
    }
}

/// The index of the first invalid entry of `recent`, or its length.
pub open spec fn first_invalid_recent(recent: Seq<RecentView>) -> int
    decreases recent.len(),
{
    if recent.len() == 0 {
        0
    } else if !valid_recent(recent[0]) {
        0
    } else {
        1 + first_invalid_recent(recent.drop_first())
    }
}

proof fn lemma_first_invalid_recent(recent: Seq<RecentView>, k: int)
    requires
        0 <= k <= recent.len(),
        k < recent.len() ==> !valid_recent(recent[k]),
        forall|j: int| 0 <= j < k ==> valid_recent(#[trigger] recent[j]),
    ensures
        first_invalid_recent(recent) == k,
    decreases k,
{
    if k > 0 {
        assert forall|j: int| 0 <= j < k - 1 implies valid_recent(
            #[trigger] recent.drop_first()[j],
        ) by {
            assert(recent.drop_first()[j] == recent[j + 1]);
        }
        lemma_first_invalid_recent(recent.drop_first(), k - 1);
    }
}

/// The error for an invalid recent entry: its package name when that is
/// invalid, else its executable.
pub open spec fn recent_error(r: RecentView) -> AppErrorView {
    if !valid_package_name(r.package_name) {
        AppErrorView::InvalidPackageName(r.package_name)
    } else {
        AppErrorView::InvalidPackageName(r.executable.unwrap())
    }
}

/// What loading or saving a recent list gives: an error for its first invalid
/// entry, else the list unchanged.
pub open spec fn check_recent_spec(recent: Seq<RecentView>) -> Result<Seq<RecentView>, AppErrorView> {
    if first_invalid_recent(recent) < recent.len() {
        Err(recent_error(recent[first_invalid_recent(recent)]))
    } else {
        Ok(recent)
    }
}

fn validate_recent_entries(recent: &Vec<RecentTool>) -> (r: Result<(), AppError>)
    ensures
        match check_recent_spec(recent_views(recent@)) {
            Ok(_) => r is Ok,
            Err(ev) => r matches Err(e) && e@ == ev,
        },
{
    let ghost views = recent_views(recent@);
    let mut i: usize = 0;
    while i < recent.len()
        invariant
            i <= recent@.len(),
            views == recent_views(recent@),
            forall|j: int| 0 <= j < i ==> valid_recent(#[trigger] views[j]),
        decreases recent@.len() - i,
    {
        assert(views[i as int] == recent@[i as int]@);
        if let Err(e) = validate_user_package_name(recent[i].package_name.as_str()) {
            proof {
                lemma_first_invalid_recent(views, i as int);
            }
            return Err(e);
        }
        match &recent[i].executable {
            Some(exe) => {
                if let Err(e) = validate_user_executable_name(exe.as_str()) {
                    proof {
                        lemma_first_invalid_recent(views, i as int);
                    }
                    return Err(e);
                }
            },
            None => {},
        }
        i += 1;
    }
    proof {
        lemma_first_invalid_recent(views, i as int);
    }
    Ok(())
}

/// The recent list that a recent file holds, checked.
pub fn load_recent(file: Vec<RecentTool>) -> (r: Result<Vec<RecentTool>, AppError>)
    ensures
        match check_recent_spec(recent_views(file@)) {
            Ok(v) => r matches Ok(l) && recent_views(l@) == v,
            Err(ev) => r matches Err(e) && e@ == ev,
        },
{
    validate_recent_entries(&file)?;
    Ok(file)
}

/// What a recent file must hold to store `recent`: the list, once checked.
pub fn save_recent(recent: &Vec<RecentTool>) -> (r: Result<Vec<RecentTool>, AppError>)
    ensures
        match check_recent_spec(recent_views(recent@)) {
            Ok(v) => r matches Ok(l) && recent_views(l@) == v,
            Err(ev) => r matches Err(e) && e@ == ev,
        },
{
    validate_recent_entries(recent)?;
    Ok(copy_recent(recent))
}

/// A copy of a recent list.
pub fn copy_recent(recent: &Vec<RecentTool>) -> (r: Vec<RecentTool>)
    ensures
        recent_views(r@) == recent_views(recent@),
{
    let mut r: Vec<RecentTool> = Vec::new();
    let mut i: usize = 0;
    while i < recent.len()
        invariant
            i <= recent@.len(),
            recent_views(r@) == recent_views(recent@).take(i as int),
        decreases recent@.len() - i,
    {
        let ghost before = recent_views(r@);
        r.push(recent[i].duplicate());
        assert(recent_views(r@) =~= before.push(recent@[i as int]@));
        assert(recent_views(recent@).take(i + 1) =~= recent_views(recent@).take(i as int).push(
            recent@[i as int]@,
        ));
        i += 1;
    }
    assert(recent_views(recent@).take(recent@.len() as int) =~= recent_views(recent@));
    r
}

/// The view of an optional string slice.
pub open spec fn opt_str_view(o: Option<&str>) -> Option<Seq<char>> {
    match o {
        Some(e) => Some(e@),
        None => None,
    }
}

/// The recent entry for `package_name` run as `executable` at `stamp`.
pub open spec fn recent_entry(
    package_name: Seq<char>,
    executable: Option<Seq<char>>,
    stamp: Seq<char>,
) -> RecentView {
    RecentView { package_name, executable, last_used: stamp }
}

/// The entries of `recent` for other packages than `package_name`, in order.
pub open spec fn other_entries(recent: Seq<RecentView>, package_name: Seq<char>) -> Seq<RecentView>
    decreases recent.len(),
{
    if recent.len() == 0 {
        seq![]
    } else if recent.last().package_name == package_name {
        other_entries(recent.drop_last(), package_name)
    } else {
        other_entries(recent.drop_last(), package_name).push(recent.last())
    }
}

/// `s` cut to at most `n` elements.
pub open spec fn at_most<A>(s: Seq<A>, n: int) -> Seq<A> {
    if s.len() > n {
        s.take(n)
    } else {
        s
    }
}

/// The recent list after running `entry`: the entry first, then the other
/// packages' entries in order, at most fifty in all.
pub open spec fn recent_after(recent: Seq<RecentView>, entry: RecentView) -> Seq<RecentView> {
    at_most(seq![entry] + other_entries(recent, entry.package_name), 50)
}

/// Puts a new entry for `package_name` first in `recent`, drops its older
/// entry, and keeps at most fifty entries.
pub fn add_recent_tool_to_vec(
    recent: &mut Vec<RecentTool>,
    package_name: &str,
    executable: Option<&str>,
    last_used: String,
)
    ensures
        recent_views(final(recent)@) == recent_after(
            recent_views(old(recent)@),
            recent_entry(package_name@, opt_str_view(executable), last_used@),
        ),
{
    let ghost old_views = recent_views(recent@);
    let entry = RecentTool {
        package_name: owned(package_name),
        executable: match executable {
            Some(e) => Some(owned(e)),
            None => None,
        },
        last_used,
    };
    let ghost ev = entry@;
    let mut out: Vec<RecentTool> = Vec::new();
    out.push(entry);
    let mut i: usize = 0;
    assert(recent_views(out@) =~= seq![ev] + other_entries(old_views.take(0), package_name@));
    while i < recent.len()
        invariant
            i <= recent@.len(),
            old_views == recent_views(recent@),
            ev.package_name == package_name@,
            recent_views(out@) == seq![ev] + other_entries(old_views.take(i as int), package_name@),
        decreases recent@.len() - i,
    {
        assert(old_views.take(i + 1).drop_last() =~= old_views.take(i as int));
        assert(old_views.take(i + 1).last() == recent@[i as int]@);
        if !str_eq(recent[i].package_name.as_str(), package_name) {
            let ghost before = recent_views(out@);
            out.push(recent[i].duplicate());
            assert(recent_views(out@) =~= before.push(recent@[i as int]@));
        }
        i += 1;
    }
    assert(old_views.take(recent@.len() as int) =~= old_views);
    if out.len() > RECENT_LIMIT {
        let ghost before = recent_views(out@);
        out.truncate(RECENT_LIMIT);
        assert(recent_views(out@) =~= before.take(50));
    }
    *recent = out;
}

/// Whether `executable`, when given, is a valid executable name.
pub open spec fn executable_ok(executable: Option<Seq<char>>) -> bool {
    match executable {
        Some(x) => valid_package_name(x),
        None => true,
    }
}

/// Adds `package_name` (run as `executable`) to the recent list that `file`
/// holds, stamped with the current time in seconds, and rewrites `file` with
/// the result. An invalid name, an invalid executable or an invalid file is
/// refused, in that order, and leaves `file` as it was.
pub fn add_recent_tool(
    file: &mut Vec<RecentTool>,
    package_name: &str,
    executable: Option<&str>,
) -> (r: Result<(), AppError>)
    ensures
        !valid_package_name(package_name@) ==> (r matches Err(e) && e@
            == AppErrorView::InvalidPackageName(package_name@)),
        valid_package_name(package_name@) && !executable_ok(opt_str_view(executable)) ==> (r matches Err(
            e,
        ) && e@ == AppErrorView::InvalidPackageName(executable.unwrap()@)),
        valid_package_name(package_name@) && executable_ok(opt_str_view(executable)) ==> match check_recent_spec(
            recent_views(old(file)@),
        ) {
            Err(ev) => r matches Err(e) && e@ == ev,
            Ok(_) => r is Ok && exists|secs: nat|
                recent_views(final(file)@) == recent_after(
                    recent_views(old(file)@),
                    #[trigger] recent_entry(package_name@, opt_str_view(executable), decimal(secs)),
                ),
        },
        r is Err ==> final(file)@ == old(file)@,
{
    validate_user_package_name(package_name)?;
    if let Some(executable) = executable {
        validate_user_executable_name(executable)?;
    }
    let mut recent = load_recent(copy_recent(file))?;
    let stamp = crate::utils::clock::now_timestamp();
    let ghost s = stamp@;
    let ghost secs = choose|secs: nat| stamp@ == decimal(secs);
    add_recent_tool_to_vec(&mut recent, package_name, executable, stamp);
    assert(recent_views(recent@) == recent_after(
        recent_views(old(file)@),
        recent_entry(package_name@, opt_str_view(executable), decimal(secs)),
    ));
    proof {
        lemma_recent_after_valid(
            recent_views(old(file)@),
            recent_entry(package_name@, opt_str_view(executable), s),
        );
    }
    let content = save_recent(&recent)?;
    *file = content;
    Ok(())
}

proof fn lemma_other_entries_valid(recent: Seq<RecentView>, name: Seq<char>)
    requires
        forall|j: int| 0 <= j < recent.len() ==> valid_recent(#[trigger] recent[j]),
    ensures
        forall|j: int|
            0 <= j < other_entries(recent, name).len() ==> valid_recent(
                #[trigger] other_entries(recent, name)[j],
            ),
    decreases recent.len(),
{
    if recent.len() > 0 {
        assert forall|j: int| 0 <= j < recent.drop_last().len() implies valid_recent(
            #[trigger] recent.drop_last()[j],
        ) by {
            assert(recent.drop_last()[j] == recent[j]);
        }
        lemma_other_entries_valid(recent.drop_last(), name);
        assert(valid_recent(recent[recent.len() - 1]));
        let p = other_entries(recent.drop_last(), name);
        if recent.last().package_name != name {
            let q = p.push(recent.last());
            assert forall|j: int| 0 <= j < q.len() implies valid_recent(#[trigger] q[j]) by {
                if j < p.len() {
                    assert(q[j] == p[j]);
                }
            }
        }
    }
}

proof fn lemma_recent_after_valid(recent: Seq<RecentView>, entry: RecentView)
    requires
        check_recent_spec(recent) is Ok,
        valid_recent(entry),
    ensures
        check_recent_spec(recent_after(recent, entry)) is Ok,
{
    assert forall|j: int| 0 <= j < recent.len() implies valid_recent(#[trigger] recent[j]) by {
        if !valid_recent(recent[j]) {
            lemma_first_invalid_before(recent, j);
        }
    }
    lemma_other_entries_valid(recent, entry.package_name);
    let all = seq![entry] + other_entries(recent, entry.package_name);
    let res = recent_after(recent, entry);
    assert forall|j: int| 0 <= j < res.len() implies valid_recent(#[trigger] res[j]) by {
        assert(res[j] == all[j]);
        if j > 0 {
            assert(all[j] == other_entries(recent, entry.package_name)[j - 1]);
        }
    }
    lemma_first_invalid_recent(res, res.len() as int);
}

proof fn lemma_first_invalid_before(recent: Seq<RecentView>, j: int)
    requires
        0 <= j < recent.len(),
        !valid_recent(recent[j]),
    ensures
        first_invalid_recent(recent) <= j,
    decreases j,
{
    if j > 0 && valid_recent(recent[0]) {
        assert(recent.drop_first()[j - 1] == recent[j]);
        lemma_first_invalid_before(recent.drop_first(), j - 1);
    }
}

// ---------------------------------------------------------------------------
// The whole user state
// ---------------------------------------------------------------------------

/// The user state that the favorites file and the recent file hold.
pub fn load_user_state(favorites_file: Vec<String>, recent_file: Vec<RecentTool>) -> (r: Result<
    UserState,
    AppError,
>)
    ensures
        match load_favorites_spec(string_views(favorites_file@)) {
            Err(ev) => r matches Err(e) && e@ == ev,
            Ok(favs) => match check_recent_spec(recent_views(recent_file@)) {
                Err(ev) => r matches Err(e) && e@ == ev,
                Ok(rec) => r matches Ok(s) && s@.favorites == favs && s@.recent == rec,
            },
        },
{
    let favorites = load_favorites(favorites_file)?;
    let recent = load_recent(recent_file)?;
    Ok(UserState { favorites, recent })
}

/// What the favorites file and the recent file must hold to store `state`.
pub fn save_user_state(state: &UserState) -> (r: Result<(Vec<String>, Vec<RecentTool>), AppError>)
    ensures
        match load_favorites_spec(state@.favorites) {
            Err(ev) => r matches Err(e) && e@ == ev,
            Ok(favs) => match check_recent_spec(state@.recent) {
                Err(ev) => r matches Err(e) && e@ == ev,
                Ok(rec) => r matches Ok((f, l)) && string_views(f@) == favs && recent_views(l@)
                    == rec,
            },
        },
{
    let favorites = save_favorites(&state.favorites)?;
    let recent = save_recent(&state.recent)?;
    Ok((favorites, recent))
}

} // verus!
