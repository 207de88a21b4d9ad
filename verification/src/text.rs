//! Verified text utilities.
//!
//! The library builds all of its human-readable strings by concatenation
//! and the helpers here: an ASCII-case-insensitive substring search for
//! the coherence keywords, a separator join for note lists, and a decimal
//! renderer for counters.

use vstd::prelude::*;
use vstd::string::StrSliceExecFns;
use vstd::string::StringExecFns;

verus! {

/// The Unicode code point of `c`, with ASCII upper-case letters folded
/// to their lower-case counterparts. Non-ASCII characters are unchanged.
pub open spec fn spec_lower_code(c: char) -> int {
    if 65 <= c as u32 <= 90 {
        c as u32 + 32
    } else {
        c as u32 as int
    }
}

/// `needle` occurs in `text` at position `i`, comparing characters
/// ASCII-case-insensitively.
pub open spec fn spec_matches_at(text: Seq<char>, needle: Seq<char>, i: int) -> bool {
    &&& 0 <= i
    &&& i + needle.len() <= text.len()
    &&& forall|j: int|
        0 <= j < needle.len() ==> spec_lower_code(text[i + j]) == spec_lower_code(needle[j])
}

/// `needle` occurs somewhere in `text`, ASCII-case-insensitively.
pub open spec fn spec_contains_ignore_case(text: Seq<char>, needle: Seq<char>) -> bool {
    exists|i: int| spec_matches_at(text, needle, i)
}

fn lower_code(c: char) -> (r: u32)
    ensures
        r == spec_lower_code(c),
{
    let u = c as u32;
    if 65 <= u && u <= 90 {
        u + 32
    } else {
        u
    }
}

/// Whether `needle` occurs in `text` when ASCII letters are compared
/// without regard to case.
pub fn contains_ignore_ascii_case(text: &str, needle: &str) -> (r: bool)
    ensures
        r == spec_contains_ignore_case(text@, needle@),
{
    let n = text.unicode_len();
    let m = needle.unicode_len();
    if m > n {
        return false;
    }
    let mut i: usize = 0;
    while i <= n - m
        invariant
            m <= n,
            n == text@.len(),
            m == needle@.len(),
            i <= n - m + 1,
            forall|k: int| 0 <= k < i ==> !spec_matches_at(text@, needle@, k),
        decreases n - m + 1 - i,
    {
        let mut j: usize = 0;
        let mut matches = true;
        while j < m
            invariant
                m <= n,
                n == text@.len(),
                m == needle@.len(),
                i + m <= n,
                j <= m,
                matches == forall|l: int|
                    0 <= l < j ==> spec_lower_code(text@[i + l]) == spec_lower_code(needle@[l]),
            decreases m - j,
        {
            if lower_code(text.get_char(i + j)) != lower_code(needle.get_char(j)) {
                matches = false;
                j = m;
            } else {
                j = j + 1;
            }
        }
        if matches {
            assert(spec_matches_at(text@, needle@, i as int));
            return true;
        }
        i = i + 1;
    }
    false
}

/// Clones a vector of strings, keeping every element's value.
pub fn clone_strings(v: &Vec<String>) -> (res: Vec<String>)
    ensures
        res@ == v@,
{
    let mut res: Vec<String> = Vec::new();
    let mut i: usize = 0;
    while i < v.len()
        invariant
            i <= v@.len(),
            res@ =~= v@.take(i as int),
        decreases v@.len() - i,
    {
        res.push(v[i].clone());
        i = i + 1;
    }
    proof {
        assert(v@.take(v@.len() as int) =~= v@);
    }
    res
}

/// Clones a vector of string pairs, keeping every element's value.
pub fn clone_string_pairs(v: &Vec<(String, String)>) -> (res: Vec<(String, String)>)
    ensures
        res@.len() == v@.len(),
        forall|k: int| 0 <= k < v@.len() ==> res@[k].0@ == v@[k].0@ && res@[k].1@ == v@[k].1@,
{
    let mut res: Vec<(String, String)> = Vec::new();
    let mut i: usize = 0;
    while i < v.len()
        invariant
            i <= v@.len(),
            res@.len() == i,
            forall|k: int| 0 <= k < i ==> res@[k].0@ == v@[k].0@ && res@[k].1@ == v@[k].1@,
        decreases v@.len() - i,
    {
        let pair = (v[i].0.clone(), v[i].1.clone());
        res.push(pair);
        i = i + 1;
    }
    res
}

/// Whether two string slices hold the same characters.
pub fn str_eq(a: &str, b: &str) -> (r: bool)
    ensures
        r == (a@ == b@),
{
    let n = a.unicode_len();
    let m = b.unicode_len();
    if n != m {
        return false;
    }
    let mut i: usize = 0;
    while i < n
        invariant
            n == a@.len(),
            n == b@.len(),
            i <= n,
            forall|k: int| 0 <= k < i ==> a@[k] == b@[k],
        decreases n - i,
    {
        if a.get_char(i) != b.get_char(i) {
            return false;
        }
        i = i + 1;
    }
    proof {
        assert(a@ =~= b@);
    }
    true
}

/// The elements of `items` laid end to end with `sep` between
/// consecutive elements.
pub open spec fn spec_join(items: Seq<Seq<char>>, sep: Seq<char>) -> Seq<char>
    decreases items.len(),
{
    if items.len() == 0 {
        Seq::empty()
    } else if items.len() == 1 {
        items[0]
    } else {
        items[0] + sep + spec_join(items.drop_first(), sep)
    }
}

proof fn lemma_join_push(items: Seq<Seq<char>>, sep: Seq<char>, x: Seq<char>)
    ensures
        items.len() == 0 ==> spec_join(items.push(x), sep) == x,
        items.len() > 0 ==> spec_join(items.push(x), sep) =~= spec_join(items, sep) + sep + x,
    decreases items.len(),
{
    if items.len() == 0 {
        assert(spec_join(items.push(x), sep) =~= x);
    } else if items.len() == 1 {
        assert(items.push(x).drop_first() =~= seq![x]);
        assert(spec_join(seq![x], sep) == x);
        assert(items.push(x)[0] == items[0]);
        assert(spec_join(items.push(x), sep) =~= items[0] + sep + x);
    } else {
        lemma_join_push(items.drop_first(), sep, x);
        assert(items.push(x).drop_first() =~= items.drop_first().push(x));
    }
}

/// Concatenates the strings in `items`, separating consecutive elements
/// with `sep`.
pub fn join(items: &Vec<String>, sep: &str) -> (r: String)
    ensures
        r@ == spec_join(items.deep_view(), sep@),
{
    let ghost model: Seq<Seq<char>> = items.deep_view();
    let mut r = String::new();
    let mut i: usize = 0;
    while i < items.len()
        invariant
            i <= items.len(),
            model == items.deep_view(),
            model.len() == items@.len(),
            forall|k: int| 0 <= k < model.len() ==> model[k] == items@[k]@,
            r@ =~= spec_join(model.take(i as int), sep@),
        decreases items.len() - i,
    {
        proof {
            lemma_join_push(model.take(i as int), sep@, model[i as int]);
            assert(model.take(i as int).push(model[i as int]) =~= model.take(i + 1));
        }
        if i > 0 {
            r.append(sep);
        }
        r.append(items[i].as_str());
        i = i + 1;
    }
    proof {
        assert(model.take(items@.len() as int) =~= model);
    }
    r
}

/// The decimal digit character for `d`, which must lie in `0 ..= 9`.
pub open spec fn spec_digit_char(d: int) -> char {
    if d == 0 {
        '0'
    } else if d == 1 {
        '1'
    } else if d == 2 {
        '2'
    } else if d == 3 {
        '3'
    } else if d == 4 {
        '4'
    } else if d == 5 {
        '5'
    } else if d == 6 {
        '6'
    } else if d == 7 {
        '7'
    } else if d == 8 {
        '8'
    } else {
        '9'
    }
}

/// The usual decimal rendering of the non-negative integer `n`, most
/// significant digit first and without leading zeros.
pub open spec fn spec_decimal(n: int) -> Seq<char>
    decreases n,
{
    if n < 0 {
        Seq::empty()
    } else if n < 10 {
        seq![spec_digit_char(n)]
    } else {
        spec_decimal(n / 10) + seq![spec_digit_char(n % 10)]
    }
}

fn digit_str(d: u64) -> (r: &'static str)
    requires
        d < 10,
    ensures
        r@ =~= seq![spec_digit_char(d as int)],
{
    proof {
        reveal_strlit("0");
        reveal_strlit("1");
        reveal_strlit("2");
        reveal_strlit("3");
        reveal_strlit("4");
        reveal_strlit("5");
        reveal_strlit("6");
        reveal_strlit("7");
        reveal_strlit("8");
        reveal_strlit("9");
    }
    if d == 0 {
        "0"
    } else if d == 1 {
        "1"
    } else if d == 2 {
        "2"
    } else if d == 3 {
        "3"
    } else if d == 4 {
        "4"
    } else if d == 5 {
        "5"
    } else if d == 6 {
        "6"
    } else if d == 7 {
        "7"
    } else if d == 8 {
        "8"
    } else {
        "9"
    }
}

/// Renders `n` in decimal.
pub fn decimal_string(n: u64) -> (r: String)
    ensures
        r@ == spec_decimal(n as int),
{
    let mut digits: Vec<u64> = Vec::new();
    let mut x = n;
    loop
        invariant
            forall|k: int| 0 <= k < digits@.len() ==> digits@[k] < 10,
            spec_decimal(n as int) =~= spec_decimal(x as int) + Seq::new(
                digits@.len(),
                |k: int| spec_digit_char(digits@[digits@.len() - 1 - k] as int),
            ),
        ensures
            x < 10,
            forall|k: int| 0 <= k < digits@.len() ==> digits@[k] < 10,
            spec_decimal(n as int) =~= spec_decimal(x as int) + Seq::new(
                digits@.len(),
                |k: int| spec_digit_char(digits@[digits@.len() - 1 - k] as int),
            ),
        decreases x,
    {
        if x < 10 {
            break ;
        }
        let ghost old_digits = digits@;
        digits.push(x % 10);
        proof {
            assert(spec_decimal(x as int) =~= spec_decimal(x as int / 10) + seq![
                spec_digit_char(x as int % 10),
            ]);
            assert(Seq::new(
                digits@.len(),
                |k: int| spec_digit_char(digits@[digits@.len() - 1 - k] as int),
            ) =~= seq![spec_digit_char(x as int % 10)] + Seq::new(
                old_digits.len(),
                |k: int| spec_digit_char(old_digits[old_digits.len() - 1 - k] as int),
            ));
        }
        x = x / 10;
    }
    let mut r = digit_str(x).to_owned();
    let mut i = digits.len();
    while i > 0
        invariant
            i <= digits@.len(),
            forall|k: int| 0 <= k < digits@.len() ==> digits@[k] < 10,
            r@ =~= spec_decimal(n as int).take(
                spec_decimal(n as int).len() - i,
            ),
            spec_decimal(n as int).len() == 1 + digits@.len(),
            spec_decimal(n as int) =~= spec_decimal(x as int) + Seq::new(
                digits@.len(),
                |k: int| spec_digit_char(digits@[digits@.len() - 1 - k] as int),
            ),
            x < 10,
        decreases i,
    {
        i = i - 1;
        r.append(digit_str(digits[i]));
        proof {
            let whole = spec_decimal(n as int);
            assert(whole[whole.len() - i - 1] == spec_digit_char(digits@[i as int] as int));
            assert(r@ =~= whole.take(whole.len() - i));
        }
    }
    proof {
        assert(spec_decimal(n as int).take(spec_decimal(n as int).len() as int) =~= spec_decimal(
            n as int,
        ));
    }
    r
}

} // verus!
