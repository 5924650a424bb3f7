//! Validation of names that end up as arguments of external programs.
use vstd::prelude::*;

use crate::utils::scan::{has_prefix, starts_with};
use crate::utils::text::chars_of;

verus! {

/// A character allowed in a package name: an ASCII letter or digit, or one of `-`, `_`, `.`, `+`.
pub open spec fn is_safe_package_char_spec(c: char) -> bool {
    ||| ('a' <= c && c <= 'z')
    ||| ('A' <= c && c <= 'Z')
    ||| ('0' <= c && c <= '9')
    ||| c == '-' || c == '_' || c == '.' || c == '+'
}

/// A character allowed in a terminal window class: an ASCII letter or digit, or one of `-`, `_`, `.`.
pub open spec fn is_class_char_spec(c: char) -> bool {
    ||| ('a' <= c && c <= 'z')
    ||| ('A' <= c && c <= 'Z')
    ||| ('0' <= c && c <= '9')
    ||| c == '-' || c == '_' || c == '.'
}

/// A valid package name: non-empty, made of safe characters only.
pub open spec fn valid_package_name(s: Seq<char>) -> bool {
    s.len() > 0 && forall|i: int| 0 <= i < s.len() ==> is_safe_package_char_spec(#[trigger] s[i])
}

/// The prefix that every BlackArch group name carries.
pub open spec fn blackarch_prefix() -> Seq<char> {
    "blackarch-"@
}

/// A valid category: `blackarch-` followed by a valid package name.
pub open spec fn valid_category_name(s: Seq<char>) -> bool {
    &&& starts_with(s, blackarch_prefix())
    &&& valid_package_name(s.skip(blackarch_prefix().len() as int))
}

/// The terminal programs that can launch tools.
pub open spec fn supported_terminal(s: Seq<char>) -> bool {
    ||| s == seq!['k', 'i', 't', 't', 'y']
    ||| s == seq!['f', 'o', 'o', 't']
    ||| s == seq!['a', 'l', 'a', 'c', 'r', 'i', 't', 't', 'y']
    ||| s == seq!['w', 'e', 'z', 't', 'e', 'r', 'm']
}

/// A valid terminal class: non-empty, made of class characters only.
pub open spec fn valid_terminal_class(s: Seq<char>) -> bool {
    s.len() > 0 && forall|i: int| 0 <= i < s.len() ==> is_class_char_spec(#[trigger] s[i])
}

/// Whether `c` may appear in a package name.
pub fn is_safe_package_char(c: char) -> (r: bool)
    ensures
        r == is_safe_package_char_spec(c),
{
    ('a' <= c && c <= 'z') || ('A' <= c && c <= 'Z') || ('0' <= c && c <= '9') || c == '-'
        || c == '_' || c == '.' || c == '+'
}

fn is_class_char(c: char) -> (r: bool)
    ensures
        r == is_class_char_spec(c),
{
    ('a' <= c && c <= 'z') || ('A' <= c && c <= 'Z') || ('0' <= c && c <= '9') || c == '-'
        || c == '_' || c == '.'
}

/// Whether every character of `v` from index `from` on is a safe package character.
fn all_safe_from(v: &[char], from: usize) -> (r: bool)
    requires
        from <= v@.len(),
    ensures
        r == forall|i: int| from <= i < v@.len() ==> is_safe_package_char_spec(#[trigger] v@[i]),
{
    let mut i = from;
    while i < v.len()
        invariant
            from <= i <= v@.len(),
            forall|j: int| from <= j < i ==> is_safe_package_char_spec(#[trigger] v@[j]),
        decreases v@.len() - i,
    {
        if !is_safe_package_char(v[i]) {
            return false;
        }
        i += 1;
    }
    true
}

/// Whether `name` is a safe package name.
pub fn validate_package_name(name: &str) -> (r: bool)
    ensures
        r == valid_package_name(name@),
{
    let v = chars_of(name);
    v.len() > 0 && all_safe_from(&v, 0)
}

/// Whether `name` is a BlackArch category: `blackarch-` followed by a safe package name.
pub fn validate_category_name(name: &str) -> (r: bool)
    ensures
        r == valid_category_name(name@),
{
    let v = chars_of(name);
    let p = chars_of("blackarch-");
    if !has_prefix(&v, &p) {
        return false;
    }
    let n = p.len();
    let rest_ok = v.len() > n && all_safe_from(&v, n);
    proof {
        let rest = v@.skip(n as int);
        if rest_ok {
            assert forall|k: int| 0 <= k < rest.len() implies is_safe_package_char_spec(
                #[trigger] rest[k],
            ) by {
                assert(rest[k] == v@[k + n]);
            }
        }
        if valid_package_name(rest) {
            assert forall|k: int| n <= k < v@.len() implies is_safe_package_char_spec(
                #[trigger] v@[k],
            ) by {
                assert(rest[k - n] == v@[k]);
            }
        }
    }
    rest_ok
}

/// Whether `name` is a safe executable name (the same rule as for packages).
pub fn validate_executable_name(name: &str) -> (r: bool)
    ensures
        r == valid_package_name(name@),
{
    validate_package_name(name)
}

/// Whether `program` is one of the supported terminals: `kitty`, `foot`, `alacritty`, `wezterm`.
pub fn validate_terminal_program(program: &str) -> (r: bool)
    ensures
        r == supported_terminal(program@),
{
    let v = chars_of(program);
    let kitty: [char; 5] = ['k', 'i', 't', 't', 'y'];
    let foot: [char; 4] = ['f', 'o', 'o', 't'];
    let alacritty: [char; 9] = ['a', 'l', 'a', 'c', 'r', 'i', 't', 't', 'y'];
    let wezterm: [char; 7] = ['w', 'e', 'z', 't', 'e', 'r', 'm'];
    proof {
        assert(kitty@ =~= seq!['k', 'i', 't', 't', 'y']);
        assert(foot@ =~= seq!['f', 'o', 'o', 't']);
        assert(alacritty@ =~= seq!['a', 'l', 'a', 'c', 'r', 'i', 't', 't', 'y']);
        assert(wezterm@ =~= seq!['w', 'e', 'z', 't', 'e', 'r', 'm']);
    }
    crate::utils::text::chars_eq(&v, &kitty) || crate::utils::text::chars_eq(&v, &foot)
        || crate::utils::text::chars_eq(&v, &alacritty) || crate::utils::text::chars_eq(
        &v,
        &wezterm,
    )
}

/// Whether `class_name` is a safe terminal class / app-id.
pub fn validate_terminal_class(class_name: &str) -> (r: bool)
    ensures
        r == valid_terminal_class(class_name@),
{
    let v = chars_of(class_name);
    if v.len() == 0 {
        return false;
    }
    let mut i: usize = 0;
    while i < v.len()
        invariant
            i <= v@.len(),
            v@ == class_name@,
            forall|j: int| 0 <= j < i ==> is_class_char_spec(#[trigger] v@[j]),
        decreases v@.len() - i,
    {
        if !is_class_char(v[i]) {
            assert(!is_class_char_spec(v@[i as int]));
            return false;
        }
        i += 1;
    }
    true
}

} // verus!
