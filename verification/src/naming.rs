//! The naming transform: from names in snake case to names in camel case.

use crate::text::{ascii_upper, chars_of, decapitalize, decapitalized, to_ascii_upper};
use vstd::prelude::*;
use vstd::string::*;

verus! {

/// The first `n` characters of `s` in Pascal case: underscores are dropped, and
/// the first character and each character after an underscore are put through
/// [`ascii_upper`].
pub open spec fn pascal_prefix(s: Seq<char>, n: nat) -> Seq<char>
    decreases n,
{
    if n == 0 || n > s.len() {
        Seq::empty()
    } else {
        let before = pascal_prefix(s, (n - 1) as nat);
        let c = s[n - 1];
        if c == '_' {
            before
        } else if n == 1 || s[n - 2] == '_' {
            before.push(ascii_upper(c))
        } else {
            before.push(c)
        }
    }
}

/// `s` in Pascal case.
pub open spec fn pascal_case(s: Seq<char>) -> Seq<char> {
    pascal_prefix(s, s.len())
}

/// The managed form of a native name: Pascal case, and for a parameter with
/// the first letter in lower case.
pub open spec fn managed_name(s: Seq<char>, is_parameter: bool) -> Seq<char> {
    if is_parameter {
        decapitalized(pascal_case(s))
    } else {
        pascal_case(s)
    }
}

/// No underscore is left among the first `n` characters in Pascal case.
pub proof fn lemma_pascal_prefix_has_no_underscore(s: Seq<char>, n: nat)
    ensures
        !pascal_prefix(s, n).contains('_'),
    decreases n,
{
    if !(n == 0 || n > s.len()) {
        lemma_pascal_prefix_has_no_underscore(s, (n - 1) as nat);
        let before = pascal_prefix(s, (n - 1) as nat);
        let c = s[n - 1];
        if c != '_' {
            let added = if n == 1 || s[n - 2] == '_' {
                ascii_upper(c)
            } else {
                c
            };
            assert(added != '_');
            assert(pascal_prefix(s, n) == before.push(added));
            assert forall|k: int| 0 <= k < before.push(added).len() implies before.push(added)[k]
                != '_' by {
                if k < before.len() {
                    assert(before.contains(before[k]));
                }
            }
        }
    }
}

/// The managed form of a name holds no underscore: every word boundary of
/// the native name is marked by the case of the letter after it.
pub proof fn law_managed_name_has_no_underscore(s: Seq<char>, is_parameter: bool)
    ensures
        !managed_name(s, is_parameter).contains('_'),
{
    lemma_pascal_prefix_has_no_underscore(s, s.len());
    let p = pascal_case(s);
    if is_parameter && p.len() > 0 {
        let d = decapitalized(p);
        assert forall|k: int| 0 <= k < d.len() implies d[k] != '_' by {
            if k > 0 {
                assert(p.contains(p[k]));
            } else {
                assert(p.contains(p[0]));
            }
        }
    }
}

/// Converts a native name in snake case to its managed form.
pub fn convert_naming(input: &str, is_parameter: bool) -> (r: String)
    ensures
        r@ == managed_name(input@, is_parameter),
{
    let chars = chars_of(input);
    let mut r = String::new();
    let mut i: usize = 0;
    let mut word_start = true;
    while i < chars.len()
        invariant
            i <= chars.len(),
            chars@ == input@,
            r@ == pascal_prefix(input@, i as nat),
            word_start == (i == 0 || chars@[i - 1] == '_'),
        decreases chars.len() - i,
    {
        let c = chars[i];
        if c == '_' {
            word_start = true;
        } else {
            if word_start {
                r.push(to_ascii_upper(c));
            } else {
                r.push(c);
            }
            word_start = false;
        }
        i = i + 1;
    }
    if is_parameter {
        decapitalize(r.as_str())
    } else {
        r
    }
}

} // verus!
