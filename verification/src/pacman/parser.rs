//! Parsers for the text that `pacman` prints.
use vstd::prelude::*;

use crate::models::{opt_view, PackageInfo, PackageInfoView};
use crate::utils::order::string_views;
use crate::utils::scan::{
    find_char, has_char, has_prefix, index_of_char, lemma_find_char_bounds, lines_spec, slice_to_vec,
    split_lines, split_words, starts_with, trim_chars, trim_spec, vviews, words_spec,
};
use crate::utils::text::{chars_eq, chars_of, string_from_chars};
use crate::utils::unique::{first_occurrences, lemma_first_occurrences_push, push_unique};
use crate::utils::validate::blackarch_prefix;

verus! {

// ---------------------------------------------------------------------------
// Groups (`pacman -Sg`)
// ---------------------------------------------------------------------------

/// The first word of each line whose first word starts with `blackarch-`, in order.
pub open spec fn category_words(ls: Seq<Seq<char>>) -> Seq<Seq<char>>
    decreases ls.len(),
{
    if ls.len() == 0 {
        seq![]
    } else {
        let prev = category_words(ls.drop_last());
        let w = words_spec(ls.last());
        if w.len() > 0 && starts_with(w[0], blackarch_prefix()) {
            prev.push(w[0])
        } else {
            prev
        }
    }
}

/// The BlackArch groups that `pacman -Sg` lists: each line's first word that
/// starts with `blackarch-`, each kept once, in order of first appearance.
pub open spec fn categories_spec(output: Seq<char>) -> Seq<Seq<char>> {
    first_occurrences(category_words(lines_spec(output)))
}

/// The BlackArch groups listed in `pacman -Sg` output, in order of first appearance.
pub fn parse_blackarch_categories(output: &str) -> (r: Vec<String>)
    ensures
        string_views(r@) == categories_spec(output@),
{
    let text = chars_of(output);
    let lines = split_lines(&text);
    let prefix = chars_of("blackarch-");
    let mut categories: Vec<String> = Vec::new();
    let mut i: usize = 0;
    while i < lines.len()
        invariant
            i <= lines@.len(),
            vviews(lines@) == lines_spec(output@),
            prefix@ == blackarch_prefix(),
            string_views(categories@) == first_occurrences(
                category_words(vviews(lines@).take(i as int)),
            ),
        decreases lines@.len() - i,
    {
        let ghost ls = vviews(lines@);
        assert(ls.take(i + 1).drop_last() =~= ls.take(i as int));
        assert(ls.take(i + 1).last() == lines@[i as int]@);
        let words = split_words(&lines[i]);
        if words.len() > 0 && has_prefix(&words[0], &prefix) {
            assert(vviews(words@)[0] == words@[0]@);
            proof {
                lemma_first_occurrences_push(category_words(ls.take(i as int)), words@[0]@);
            }
            push_unique(&mut categories, &words[0]);
        }
        i += 1;
    }
    assert(vviews(lines@).take(lines@.len() as int) =~= vviews(lines@));
    categories
}

// ---------------------------------------------------------------------------
// Members of a group (`pacman -Sg <group>`)
// ---------------------------------------------------------------------------

/// The second word of each line whose first word is `category`, in order.
pub open spec fn group_member_words(ls: Seq<Seq<char>>, category: Seq<char>) -> Seq<Seq<char>>
    decreases ls.len(),
{
    if ls.len() == 0 {
        seq![]
    } else {
        let prev = group_member_words(ls.drop_last(), category);
        let w = words_spec(ls.last());
        if w.len() >= 2 && w[0] == category {
            prev.push(w[1])
        } else {
            prev
        }
    }
}

/// The members of `category` that `pacman -Sg <category>` lists: the second word
/// of each line whose first word is the category, each kept once, in order.
pub open spec fn group_members_spec(output: Seq<char>, category: Seq<char>) -> Seq<Seq<char>> {
    first_occurrences(group_member_words(lines_spec(output), category))
}

/// The packages of `category` listed in `pacman -Sg` output, in order of first appearance.
pub fn parse_tools_from_group(output: &str, category: &str) -> (r: Vec<String>)
    ensures
        string_views(r@) == group_members_spec(output@, category@),
{
    let text = chars_of(output);
    let lines = split_lines(&text);
    let cat = chars_of(category);
    let mut tools: Vec<String> = Vec::new();
    let mut i: usize = 0;
    while i < lines.len()
        invariant
            i <= lines@.len(),
            vviews(lines@) == lines_spec(output@),
            cat@ == category@,
            string_views(tools@) == first_occurrences(
                group_member_words(vviews(lines@).take(i as int), category@),
            ),
        decreases lines@.len() - i,
    {
        let ghost ls = vviews(lines@);
        assert(ls.take(i + 1).drop_last() =~= ls.take(i as int));
        assert(ls.take(i + 1).last() == lines@[i as int]@);
        let words = split_words(&lines[i]);
        if words.len() >= 2 && chars_eq(&words[0], &cat) {
            assert(vviews(words@)[0] == words@[0]@);
            assert(vviews(words@)[1] == words@[1]@);
            proof {
                lemma_first_occurrences_push(
                    group_member_words(ls.take(i as int), category@),
                    words@[1]@,
                );
            }
            push_unique(&mut tools, &words[1]);
        } else {
            if words.len() >= 2 {
                assert(vviews(words@)[0] == words@[0]@);
            }
        }
        i += 1;
    }
    assert(vviews(lines@).take(lines@.len() as int) =~= vviews(lines@));
    tools
}

// ---------------------------------------------------------------------------
// Files of a package (`pacman -Ql <package>`)
// ---------------------------------------------------------------------------

/// The executable that a file-list line names: its second word with the
/// `/usr/bin/` prefix removed, when that leaves a plain non-empty file name.
pub open spec fn executable_of_line(line: Seq<char>) -> Option<Seq<char>> {
    let w = words_spec(line);
    if w.len() >= 2 && starts_with(w[1], "/usr/bin/"@) {
        let exe = w[1].skip("/usr/bin/"@.len() as int);
        if exe.len() > 0 && !exe.contains('/') {
            Some(exe)
        } else {
            None
        }
    } else {
        None
    }
}

/// The executables named by each line, in order.
pub open spec fn executable_words(ls: Seq<Seq<char>>) -> Seq<Seq<char>>
    decreases ls.len(),
{
    if ls.len() == 0 {
        seq![]
    } else {
        let prev = executable_words(ls.drop_last());
        match executable_of_line(ls.last()) {
            Some(e) => prev.push(e),
            None => prev,
        }
    }
}

/// The executables in `pacman -Ql` output: the plain file names under `/usr/bin/`,
/// each kept once, in order of first appearance.
pub open spec fn executables_spec(output: Seq<char>) -> Seq<Seq<char>> {
    first_occurrences(executable_words(lines_spec(output)))
}

/// The executable named by a file-list line, if any.
fn line_executable(line: &[char], bin: &[char]) -> (r: Option<Vec<char>>)
    requires
        bin@ == "/usr/bin/"@,
    ensures
        match r {
            Some(e) => executable_of_line(line@) == Some(e@),
            None => executable_of_line(line@).is_none(),
        },
{
    let words = split_words(line);
    if words.len() < 2 {
        return None;
    }
    assert(vviews(words@)[1] == words@[1]@);
    if !has_prefix(&words[1], bin) {
        return None;
    }
    let exe = slice_to_vec(&words[1], bin.len(), words[1].len());
    assert(exe@ =~= words@[1]@.skip(bin@.len() as int));
    if exe.len() == 0 || has_char(&exe, '/') {
        return None;
    }
    Some(exe)
}

/// The executables listed in `pacman -Ql` output, in order of first appearance.
pub fn parse_executables(output: &str) -> (r: Vec<String>)
    ensures
        string_views(r@) == executables_spec(output@),
{
    let text = chars_of(output);
    let lines = split_lines(&text);
    let bin = chars_of("/usr/bin/");
    let mut executables: Vec<String> = Vec::new();
    let mut i: usize = 0;
    while i < lines.len()
        invariant
            i <= lines@.len(),
            vviews(lines@) == lines_spec(output@),
            bin@ == "/usr/bin/"@,
            string_views(executables@) == first_occurrences(
                executable_words(vviews(lines@).take(i as int)),
            ),
        decreases lines@.len() - i,
    {
        let ghost ls = vviews(lines@);
        assert(ls.take(i + 1).drop_last() =~= ls.take(i as int));
        assert(ls.take(i + 1).last() == lines@[i as int]@);
        match line_executable(&lines[i], &bin) {
            Some(exe) => {
                proof {
                    lemma_first_occurrences_push(executable_words(ls.take(i as int)), exe@);
                }
                push_unique(&mut executables, &exe);
            },
            None => {},
        }
        i += 1;
    }
    assert(vviews(lines@).take(lines@.len() as int) =~= vviews(lines@));
    executables
}

// ---------------------------------------------------------------------------
// Package details (`pacman -Si <package>`)
// ---------------------------------------------------------------------------

/// `value`, unless it is empty or `None`.
pub open spec fn non_empty_spec(value: Seq<char>) -> Option<Seq<char>> {
    if value.len() > 0 && value != "None"@ {
        Some(value)
    } else {
        None
    }
}

/// The words of `ws` other than `None`, in order.
pub open spec fn without_none(ws: Seq<Seq<char>>) -> Seq<Seq<char>>
    decreases ws.len(),
{
    if ws.len() == 0 {
        seq![]
    } else if ws.last() == "None"@ {
        without_none(ws.drop_last())
    } else {
        without_none(ws.drop_last()).push(ws.last())
    }
}

/// What the package details hold before any line is read.
pub open spec fn empty_info() -> PackageInfoView {
    PackageInfoView {
        repository: None,
        name: Seq::empty(),
        version: None,
        description: None,
        url: None,
        groups: Seq::empty(),
        licenses: Seq::empty(),
        installed: false,
        executables: Seq::empty(),
    }
}

/// The package details after reading one `Key : value` line: the key and the
/// value are split at the first `:` and trimmed, and a known key sets its field.
pub open spec fn info_step(info: PackageInfoView, line: Seq<char>) -> PackageInfoView {
    let i = find_char(line, ':');
    if i < 0 || i >= line.len() {
        info
    } else {
        let key = trim_spec(line.take(i));
        let value = trim_spec(line.skip(i + 1));
        if key == "Repository"@ {
            PackageInfoView { repository: non_empty_spec(value), ..info }
        } else if key == "Name"@ {
            PackageInfoView { name: value, ..info }
        } else if key == "Version"@ {
            PackageInfoView { version: non_empty_spec(value), ..info }
        } else if key == "Description"@ {
            PackageInfoView { description: non_empty_spec(value), ..info }
        } else if key == "URL"@ {
            PackageInfoView { url: non_empty_spec(value), ..info }
        } else if key == "Groups"@ {
            PackageInfoView { groups: without_none(words_spec(value)), ..info }
        } else if key == "Licenses"@ {
            PackageInfoView { licenses: without_none(words_spec(value)), ..info }
        } else {
            info
        }
    }
}

/// The package details after reading the lines `ls` in order.
pub open spec fn info_of_lines(ls: Seq<Seq<char>>) -> PackageInfoView
    decreases ls.len(),
{
    if ls.len() == 0 {
        empty_info()
    } else {
        info_step(info_of_lines(ls.drop_last()), ls.last())
    }
}

/// The package details that `pacman -Si` output describes.
pub open spec fn package_info_spec(output: Seq<char>) -> PackageInfoView {
    info_of_lines(lines_spec(output))
}

fn non_empty(value: &[char], none: &[char]) -> (r: Option<String>)
    requires
        none@ == "None"@,
    ensures
        opt_view(r) == non_empty_spec(value@),
{
    if value.len() > 0 && !chars_eq(value, none) {
        Some(string_from_chars(value))
    } else {
        None
    }
}

fn words_without_none(value: &[char], none: &[char]) -> (r: Vec<String>)
    requires
        none@ == "None"@,
    ensures
        string_views(r@) == without_none(words_spec(value@)),
{
    let words = split_words(value);
    let mut out: Vec<String> = Vec::new();
    let mut i: usize = 0;
    while i < words.len()
        invariant
            i <= words@.len(),
            none@ == "None"@,
            vviews(words@) == words_spec(value@),
            string_views(out@) == without_none(vviews(words@).take(i as int)),
        decreases words@.len() - i,
    {
        let ghost ws = vviews(words@);
        assert(ws.take(i + 1).drop_last() =~= ws.take(i as int));
        assert(ws.take(i + 1).last() == words@[i as int]@);
        if !chars_eq(&words[i], none) {
            let ghost before = string_views(out@);
            out.push(string_from_chars(&words[i]));
            assert(string_views(out@) =~= before.push(words@[i as int]@));
        }
        i += 1;
    }
    assert(vviews(words@).take(words@.len() as int) =~= vviews(words@));
    out
}

/// Whether `v` spells the text `lit`.
fn is_text(v: &[char], lit: &str) -> (r: bool)
    ensures
        r == (v@ == lit@),
{
    let l = chars_of(lit);
    chars_eq(v, &l)
}

/// Reads one `Key : value` line into `info`.
fn apply_info_line(info: &mut PackageInfo, line: &[char], none: &[char])
    requires
        none@ == "None"@,
    ensures
        final(info)@ == info_step(old(info)@, line@),
{
    let i = index_of_char(line, ':');
    proof {
        lemma_find_char_bounds(line@, ':');
    }
    if i >= line.len() {
        return;
    }
    let key_raw = slice_to_vec(line, 0, i);
    assert(key_raw@ =~= line@.take(i as int));
    let value_raw = slice_to_vec(line, i + 1, line.len());
    assert(value_raw@ =~= line@.skip(i + 1));
    let key = trim_chars(&key_raw);
    let value = trim_chars(&value_raw);
    if is_text(&key, "Repository") {
        info.repository = non_empty(&value, none);
    } else if is_text(&key, "Name") {
        info.name = string_from_chars(&value);
    } else if is_text(&key, "Version") {
        info.version = non_empty(&value, none);
    } else if is_text(&key, "Description") {
        info.description = non_empty(&value, none);
    } else if is_text(&key, "URL") {
        info.url = non_empty(&value, none);
    } else if is_text(&key, "Groups") {
        info.groups = words_without_none(&value, none);
    } else if is_text(&key, "Licenses") {
        info.licenses = words_without_none(&value, none);
    }
}

/// The package details that `pacman -Si` output describes; the installed flag
/// and the executables are left for other queries.
pub fn parse_package_info(output: &str) -> (r: PackageInfo)
    ensures
        r@ == package_info_spec(output@),
{
    let text = chars_of(output);
    let lines = split_lines(&text);
    let none = chars_of("None");
    let mut info = PackageInfo {
        repository: None,
        name: String::new(),
        version: None,
        description: None,
        url: None,
        groups: Vec::new(),
        licenses: Vec::new(),
        installed: false,
        executables: Vec::new(),
    };
    assert(info@ =~= empty_info()) by {
        assert(info@.name =~= Seq::<char>::empty());
        assert(info@.groups =~= Seq::<Seq<char>>::empty());
        assert(info@.licenses =~= Seq::<Seq<char>>::empty());
        assert(info@.executables =~= Seq::<Seq<char>>::empty());
    }
    let mut i: usize = 0;
    while i < lines.len()
        invariant
            i <= lines@.len(),
            none@ == "None"@,
            vviews(lines@) == lines_spec(output@),
            info@ == info_of_lines(vviews(lines@).take(i as int)),
        decreases lines@.len() - i,
    {
        let ghost ls = vviews(lines@);
        assert(ls.take(i + 1).drop_last() =~= ls.take(i as int));
        assert(ls.take(i + 1).last() == lines@[i as int]@);
        apply_info_line(&mut info, &lines[i], &none);
        i += 1;
    }
    assert(vviews(lines@).take(lines@.len() as int) =~= vviews(lines@));
    info
}

} // verus!
