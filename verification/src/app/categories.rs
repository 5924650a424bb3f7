//! How category names are shown and how a chosen category is matched.
use vstd::prelude::*;

use crate::app::virtual_categories;
use crate::utils::order::string_views;
use crate::utils::scan::{has_prefix, parts_spec, slice_to_vec, split_parts, starts_with, Separator};
use crate::utils::text::{
    char_to_upper, chars_of, join, join_spec, lowercase, owned, str_eq, string_from_chars, to_lower,
    uppercase_char,
};
use crate::utils::validate::blackarch_prefix;

verus! {

/// `part` with its first character in uppercase.
pub open spec fn capitalized(part: Seq<char>) -> Seq<char> {
    if part.len() == 0 {
        seq![]
    } else {
        uppercase_char(part[0]) + part.skip(1)
    }
}

/// `part` with its first character replaced by `upper_first`, the uppercase
/// form of that character; empty text stays empty.
pub open spec fn capitalized_with(upper_first: Seq<char>, part: Seq<char>) -> Seq<char> {
    if part.len() == 0 {
        seq![]
    } else {
        upper_first + part.skip(1)
    }
}

/// `part` with its first character replaced by `upper_first`, the uppercase
/// form of that character that `char::to_uppercase` gives.
pub fn capitalize_with(upper_first: &str, part: &[char]) -> (r: String)
    ensures
        r@ == capitalized_with(upper_first@, part@),
{
    if part.len() == 0 {
        return String::new();
    }
    let mut w = owned(upper_first);
    let tail = string_from_chars(&slice_to_vec(part, 1, part.len()));
    w.append(tail.as_str());
    assert(part@.skip(1) =~= part@.subrange(1, part@.len() as int));
    w
}

/// `category` without its `blackarch-` prefix.
pub open spec fn without_prefix(category: Seq<char>) -> Seq<char> {
    if starts_with(category, blackarch_prefix()) {
        category.skip(blackarch_prefix().len() as int)
    } else {
        category
    }
}

/// How a category is shown: without its `blackarch-` prefix, its parts between
/// `-` and `_` capitalized and joined by spaces.
pub open spec fn display_name_spec(category: Seq<char>) -> Seq<char> {
    join_spec(
        parts_spec(without_prefix(category), Separator::DashOrUnderscore).map_values(
            |p: Seq<char>| capitalized(p),
        ),
        " "@,
    )
}

/// How a category is shown, such as `Web App` for `blackarch-web-app`.
pub fn display_category_name(category: &str) -> (r: String)
    ensures
        r@ == display_name_spec(category@),
{
    let c = chars_of(category);
    let prefix = chars_of("blackarch-");
    let rest = if has_prefix(&c, &prefix) {
        slice_to_vec(&c, prefix.len(), c.len())
    } else {
        slice_to_vec(&c, 0, c.len())
    };
    assert(rest@ =~= without_prefix(category@));
    let parts = split_parts(&rest, Separator::DashOrUnderscore);
    let ghost ps = crate::utils::scan::vviews(parts@);
    let ghost caps = ps.map_values(|p: Seq<char>| capitalized(p));
    let mut words: Vec<String> = Vec::new();
    let mut i: usize = 0;
    while i < parts.len()
        invariant
            i <= parts@.len(),
            ps == crate::utils::scan::vviews(parts@),
            caps == ps.map_values(|p: Seq<char>| capitalized(p)),
            string_views(words@) == caps.take(i as int),
        decreases parts@.len() - i,
    {
        let part = &parts[i];
        let word = if part.len() == 0 {
            String::new()
        } else {
            capitalize_with(char_to_upper(part[0]).as_str(), part.as_slice())
        };
        assert(word@ == capitalized(ps[i as int]));
        let ghost before = string_views(words@);
        words.push(word);
        assert(string_views(words@) =~= before.push(caps[i as int]));
        assert(caps.take(i + 1) =~= caps.take(i as int).push(caps[i as int]));
        i += 1;
    }
    assert(caps.take(parts@.len() as int) =~= caps);
    join(&words, " ")
}

/// `s` with each space replaced by `-`.
pub open spec fn spaces_to_dashes(s: Seq<char>) -> Seq<char> {
    s.map_values(|c: char| if c == ' ' { '-' } else { c })
}

/// The group a chosen category stands for: itself when it is a BlackArch group
/// or a virtual category, else `blackarch-` followed by its lowercase form with
/// dashes for spaces.
pub open spec fn normalize_spec(category: Seq<char>) -> Seq<char> {
    if starts_with(category, blackarch_prefix()) || virtual_categories().contains(category) {
        category
    } else {
        blackarch_prefix() + spaces_to_dashes(lowercase(category))
    }
}

/// The group for a chosen name given its lowercase form `lower`: `blackarch-`
/// followed by `lower` with dashes for spaces.
pub fn group_from_lowercase(lower: &[char]) -> (r: String)
    ensures
        r@ == blackarch_prefix() + spaces_to_dashes(lower@),
{
    let mut dashed: Vec<char> = Vec::new();
    let mut i: usize = 0;
    while i < lower.len()
        invariant
            i <= lower@.len(),
            dashed@ == spaces_to_dashes(lower@).take(i as int),
        decreases lower@.len() - i,
    {
        let c = lower[i];
        dashed.push(if c == ' ' { '-' } else { c });
        assert(spaces_to_dashes(lower@).take(i + 1) =~= spaces_to_dashes(lower@).take(
            i as int,
        ).push(if c == ' ' { '-' } else { c }));
        i += 1;
    }
    assert(spaces_to_dashes(lower@).take(lower@.len() as int) =~= spaces_to_dashes(lower@));
    let mut r = owned("blackarch-");
    let tail = string_from_chars(&dashed);
    r.append(tail.as_str());
    r
}

/// Whether `category` is one of the virtual categories.
pub fn is_virtual_category(category: &str) -> (r: bool)
    ensures
        r == virtual_categories().contains(category@),
{
    let r = str_eq(category, "All Tools") || str_eq(category, "Installed") || str_eq(
        category,
        "Favorites",
    ) || str_eq(category, "Recent");
    proof {
        let v = virtual_categories();
        if r {
            if category@ == "All Tools"@ {
                assert(v[0] == category@);
            } else if category@ == "Installed"@ {
                assert(v[1] == category@);
            } else if category@ == "Favorites"@ {
                assert(v[2] == category@);
            } else {
                assert(v[3] == category@);
            }
        } else {
            assert forall|i: int| 0 <= i < v.len() implies v[i] != category@ by {}
        }
    }
    r
}

/// The group a chosen category stands for, such as `blackarch-web-app` for `Web App`.
pub fn normalize_category_filter(category: &str) -> (r: String)
    ensures
        r@ == normalize_spec(category@),
{
    if has_prefix(&chars_of(category), &chars_of("blackarch-")) || is_virtual_category(category) {
        return owned(category);
    }
    let lower = chars_of(to_lower(category).as_str());
    group_from_lowercase(lower.as_slice())
}

} // verus!
