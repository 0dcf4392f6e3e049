//! Character-level scanning primitives.
//!
//! The build format is a line-oriented micro-language; every line grammar
//! in this crate is written in terms of a handful of character classes and
//! of maximal runs ("spans") of those classes, scanned left to right.

use vstd::prelude::*;

verus! {

// ---------------------------------------------------------------------
// Character classes
// ---------------------------------------------------------------------

/// Whitespace inside a line, as the format understands it.
pub open spec fn is_space_char(c: char) -> bool {
    c == ' ' || c == '\t' || c == '\n' || c == '\r' || c == '\u{b}' || c == '\u{c}'
}

pub open spec fn is_digit_char(c: char) -> bool {
    48 <= c as u32 && c as u32 <= 57
}

pub open spec fn is_upper_char(c: char) -> bool {
    65 <= c as u32 && c as u32 <= 90
}

pub open spec fn is_lower_char(c: char) -> bool {
    97 <= c as u32 && c as u32 <= 122
}

pub open spec fn is_alpha_char(c: char) -> bool {
    is_upper_char(c) || is_lower_char(c)
}

/// The class of a class-or-alignment name: letters and spaces.
pub open spec fn is_word_space_char(c: char) -> bool {
    is_alpha_char(c) || c == ' '
}

/// The class of a race name: letters, spaces and hyphens.
pub open spec fn is_word_dash_char(c: char) -> bool {
    is_alpha_char(c) || c == ' ' || c == '-'
}

/// The class of an enhancement-tree or enhancement name: letters, spaces,
/// apostrophes and hyphens.
pub open spec fn is_tree_char(c: char) -> bool {
    is_alpha_char(c) || c == ' ' || c == '\'' || c == '-'
}

pub fn is_space(c: char) -> (b: bool)
    ensures
        b == is_space_char(c),
{
    c == ' ' || c == '\t' || c == '\n' || c == '\r' || c == '\u{b}' || c == '\u{c}'
}

pub fn is_digit(c: char) -> (b: bool)
    ensures
        b == is_digit_char(c),
{
    let u = c as u32;
    48 <= u && u <= 57
}

pub fn is_upper(c: char) -> (b: bool)
    ensures
        b == is_upper_char(c),
{
    let u = c as u32;
    65 <= u && u <= 90
}

pub fn is_lower(c: char) -> (b: bool)
    ensures
        b == is_lower_char(c),
{
    let u = c as u32;
    97 <= u && u <= 122
}

pub fn is_alpha(c: char) -> (b: bool)
    ensures
        b == is_alpha_char(c),
{
    is_upper(c) || is_lower(c)
}

pub fn is_word_space(c: char) -> (b: bool)
    ensures
        b == is_word_space_char(c),
{
    is_alpha(c) || c == ' '
}

pub fn is_word_dash(c: char) -> (b: bool)
    ensures
        b == is_word_dash_char(c),
{
    is_alpha(c) || c == ' ' || c == '-'
}

pub fn is_tree(c: char) -> (b: bool)
    ensures
        b == is_tree_char(c),
{
    is_alpha(c) || c == ' ' || c == '\'' || c == '-'
}

// ---------------------------------------------------------------------
// Maximal runs of a class
// ---------------------------------------------------------------------

/// First position at or after `i` whose character is not whitespace
/// (or the end of `s`).
pub open spec fn span_space(s: Seq<char>, i: int) -> int
    decreases s.len() - i,
{
    if i < 0 || i >= s.len() {
        i
    } else if is_space_char(s[i]) {
        span_space(s, i + 1)
    } else {
        i
    }
}

/// First position at or after `i` whose character is not a digit.
pub open spec fn span_digit(s: Seq<char>, i: int) -> int
    decreases s.len() - i,
{
    if i < 0 || i >= s.len() {
        i
    } else if is_digit_char(s[i]) {
        span_digit(s, i + 1)
    } else {
        i
    }
}

/// First position at or after `i` whose character is not a letter.
pub open spec fn span_alpha(s: Seq<char>, i: int) -> int
    decreases s.len() - i,
{
    if i < 0 || i >= s.len() {
        i
    } else if is_alpha_char(s[i]) {
        span_alpha(s, i + 1)
    } else {
        i
    }
}

/// First position at or after `i` whose character is not a lower-case letter.
pub open spec fn span_lower(s: Seq<char>, i: int) -> int
    decreases s.len() - i,
{
    if i < 0 || i >= s.len() {
        i
    } else if is_lower_char(s[i]) {
        span_lower(s, i + 1)
    } else {
        i
    }
}

/// First position at or after `i` whose character is outside `[A-Za-z ]`.
pub open spec fn span_word_space(s: Seq<char>, i: int) -> int
    decreases s.len() - i,
{
    if i < 0 || i >= s.len() {
        i
    } else if is_word_space_char(s[i]) {
        span_word_space(s, i + 1)
    } else {
        i
    }
}

/// First position at or after `i` whose character is outside `[A-Za-z -]`.
pub open spec fn span_word_dash(s: Seq<char>, i: int) -> int
    decreases s.len() - i,
{
    if i < 0 || i >= s.len() {
        i
    } else if is_word_dash_char(s[i]) {
        span_word_dash(s, i + 1)
    } else {
        i
    }
}

/// First position at or after `i` whose character is outside `[A-Za-z '-]`.
pub open spec fn span_tree(s: Seq<char>, i: int) -> int
    decreases s.len() - i,
{
    if i < 0 || i >= s.len() {
        i
    } else if is_tree_char(s[i]) {
        span_tree(s, i + 1)
    } else {
        i
    }
}

pub fn scan_space(v: &Vec<char>, from: usize) -> (r: usize)
    requires
        from <= v@.len(),
    ensures
        r == span_space(v@, from as int),
        from <= r <= v@.len(),
        forall|k: int| from <= k < r ==> is_space_char(v@[k]),
        r < v@.len() ==> !is_space_char(v@[r as int]),
{
    let mut j = from;
    while j < v.len() && is_space(v[j])
        invariant
            from <= j <= v@.len(),
            span_space(v@, from as int) == span_space(v@, j as int),
            forall|k: int| from <= k < j ==> is_space_char(v@[k]),
        decreases v@.len() - j,
    {
        j = j + 1;
    }
    j
}

pub fn scan_digit(v: &Vec<char>, from: usize) -> (r: usize)
    requires
        from <= v@.len(),
    ensures
        r == span_digit(v@, from as int),
        from <= r <= v@.len(),
        forall|k: int| from <= k < r ==> is_digit_char(v@[k]),
        r < v@.len() ==> !is_digit_char(v@[r as int]),
{
    let mut j = from;
    while j < v.len() && is_digit(v[j])
        invariant
            from <= j <= v@.len(),
            span_digit(v@, from as int) == span_digit(v@, j as int),
            forall|k: int| from <= k < j ==> is_digit_char(v@[k]),
        decreases v@.len() - j,
    {
        j = j + 1;
    }
    j
}

pub fn scan_alpha(v: &Vec<char>, from: usize) -> (r: usize)
    requires
        from <= v@.len(),
    ensures
        r == span_alpha(v@, from as int),
        from <= r <= v@.len(),
{
    let mut j = from;
    while j < v.len() && is_alpha(v[j])
        invariant
            from <= j <= v@.len(),
            span_alpha(v@, from as int) == span_alpha(v@, j as int),
        decreases v@.len() - j,
    {
        j = j + 1;
    }
    j
}

pub fn scan_lower(v: &Vec<char>, from: usize) -> (r: usize)
    requires
        from <= v@.len(),
    ensures
        r == span_lower(v@, from as int),
        from <= r <= v@.len(),
{
    let mut j = from;
    while j < v.len() && is_lower(v[j])
        invariant
            from <= j <= v@.len(),
            span_lower(v@, from as int) == span_lower(v@, j as int),
        decreases v@.len() - j,
    {
        j = j + 1;
    }
    j
}

pub fn scan_word_space(v: &Vec<char>, from: usize) -> (r: usize)
    requires
        from <= v@.len(),
    ensures
        r == span_word_space(v@, from as int),
        from <= r <= v@.len(),
        forall|k: int| from <= k < r ==> is_word_space_char(v@[k]),
{
    let mut j = from;
    while j < v.len() && is_word_space(v[j])
        invariant
            from <= j <= v@.len(),
            span_word_space(v@, from as int) == span_word_space(v@, j as int),
            forall|k: int| from <= k < j ==> is_word_space_char(v@[k]),
        decreases v@.len() - j,
    {
        j = j + 1;
    }
    j
}

pub fn scan_word_dash(v: &Vec<char>, from: usize) -> (r: usize)
    requires
        from <= v@.len(),
    ensures
        r == span_word_dash(v@, from as int),
        from <= r <= v@.len(),
        forall|k: int| from <= k < r ==> is_word_dash_char(v@[k]),
{
    let mut j = from;
    while j < v.len() && is_word_dash(v[j])
        invariant
            from <= j <= v@.len(),
            span_word_dash(v@, from as int) == span_word_dash(v@, j as int),
            forall|k: int| from <= k < j ==> is_word_dash_char(v@[k]),
        decreases v@.len() - j,
    {
        j = j + 1;
    }
    j
}

pub fn scan_tree(v: &Vec<char>, from: usize) -> (r: usize)
    requires
        from <= v@.len(),
    ensures
        r == span_tree(v@, from as int),
        from <= r <= v@.len(),
        forall|k: int| from <= k < r ==> is_tree_char(v@[k]),
{
    let mut j = from;
    while j < v.len() && is_tree(v[j])
        invariant
            from <= j <= v@.len(),
            span_tree(v@, from as int) == span_tree(v@, j as int),
            forall|k: int| from <= k < j ==> is_tree_char(v@[k]),
        decreases v@.len() - j,
    {
        j = j + 1;
    }
    j
}

// ---------------------------------------------------------------------
// Prefixes and literal comparisons
// ---------------------------------------------------------------------

/// `p` occurs in `s` starting at position `i`.
pub open spec fn prefix_at(s: Seq<char>, i: int, p: Seq<char>) -> bool {
    0 <= i && i + p.len() <= s.len() && s.subrange(i, i + p.len()) == p
}

pub fn check_prefix(v: &Vec<char>, i: usize, p: &str) -> (b: bool)
    requires
        i <= v@.len(),
    ensures
        b == prefix_at(v@, i as int, p@),
{
    let n = p.unicode_len();
    let vlen = v.len();
    if vlen - i < n {
        return false;
    }
    let mut k: usize = 0;
    while k < n
        invariant
            0 <= k <= n,
            i + n <= vlen == v@.len(),
            n == p@.len(),
            forall|m: int| 0 <= m < k ==> v@[i + m] == p@[m],
        decreases n - k,
    {
        if v[i + k] != p.get_char(k) {
            proof {
                assert(v@.subrange(i as int, i + n) != p@) by {
                    assert(v@.subrange(i as int, i + n)[k as int] == v@[i + k]);
                }
            }
            return false;
        }
        k = k + 1;
    }
    proof {
        assert(v@.subrange(i as int, i + n) =~= p@);
    }
    true
}

/// Equality of two string slices by contents.
pub fn str_eq(a: &str, b: &str) -> (r: bool)
    ensures
        r == (a@ == b@),
{
    let n = a.unicode_len();
    if n != b.unicode_len() {
        return false;
    }
    let mut k: usize = 0;
    while k < n
        invariant
            0 <= k <= n,
            n == a@.len(),
            n == b@.len(),
            forall|m: int| 0 <= m < k ==> a@[m] == b@[m],
        decreases n - k,
    {
        if a.get_char(k) != b.get_char(k) {
            return false;
        }
        k = k + 1;
    }
    proof {
        assert(a@ =~= b@);
    }
    true
}

/// The characters of one line, in order.
pub fn chars_of(s: &str) -> (r: Vec<char>)
    ensures
        r@ == s@,
{
    let n = s.unicode_len();
    let mut v: Vec<char> = Vec::new();
    let mut k: usize = 0;
    while k < n
        invariant
            0 <= k <= n,
            n == s@.len(),
            v@ =~= s@.subrange(0, k as int),
        decreases n - k,
    {
        v.push(s.get_char(k));
        proof {
            assert(v@ =~= s@.subrange(0, k + 1));
        }
        k = k + 1;
    }
    proof {
        assert(v@ =~= s@);
    }
    v
}

// ---------------------------------------------------------------------
// Decimal fields
// ---------------------------------------------------------------------

/// Numeric value of the digit character `c`.
pub open spec fn digit_val(c: char) -> int {
    c as u32 - 48
}

/// Value of the decimal digit run `s[i..j]`.
pub open spec fn digits_val(s: Seq<char>, i: int, j: int) -> int
    decreases j - i,
{
    if i >= j {
        0
    } else {
        digits_val(s, i, j - 1) * 10 + digit_val(s[j - 1])
    }
}

fn digit_value(c: char) -> (r: u8)
    requires
        is_digit_char(c),
    ensures
        r as int == digit_val(c),
        r <= 9,
{
    (c as u32 - 48) as u8
}

/// Value of a digit run of one or two characters.
pub fn digits_value_2(v: &Vec<char>, i: usize, j: usize) -> (r: u8)
    requires
        i < j <= v@.len(),
        j - i <= 2,
        forall|k: int| i <= k < j ==> is_digit_char(v@[k]),
    ensures
        r as int == digits_val(v@, i as int, j as int),
        r <= 99,
{
    if j - i == 1 {
        let d = digit_value(v[i]);
        proof {
            assert(digits_val(v@, i as int, i as int) == 0);
            assert(digits_val(v@, i as int, j as int) == digit_val(v@[i as int]));
        }
        d
    } else {
        let d0 = digit_value(v[i]);
        let d1 = digit_value(v[i + 1]);
        proof {
            assert(digits_val(v@, i as int, i as int) == 0);
            assert(digits_val(v@, i as int, i + 1) == digit_val(v@[i as int]));
            assert(digits_val(v@, i as int, i + 2) == digits_val(v@, i as int, i + 1) * 10
                + digit_val(v@[i + 1]));
        }
        10 * d0 + d1
    }
}

} // verus!
