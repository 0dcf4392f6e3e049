//! The line grammars of the build format.
//!
//! Each recognized line shape has a spec function that says exactly which
//! character sequences it matches and what it captures, and an exec
//! matcher proved to agree with it.  The grammars mirror the format's
//! fixed-column, alias-laden micro-language: a keyword, a run of
//! whitespace, then fields drawn from small character classes.

use vstd::prelude::*;

use crate::model::{Ability, BuildType};
use crate::names::ability_of;
use crate::text::{
    check_prefix, digit_val, digits_val, digits_value_2, is_alpha, is_alpha_char, is_upper,
    is_upper_char, prefix_at, scan_alpha, scan_digit, scan_lower, scan_space, scan_tree,
    scan_word_dash, scan_word_space, span_alpha, span_digit, span_lower, span_space, span_tree,
    span_word_dash, span_word_space,
};

verus! {

// ---------------------------------------------------------------------
// Blank lines and section headers
// ---------------------------------------------------------------------

/// A line of only whitespace, optionally followed by a `;` comment.
pub open spec fn line_is_blank(s: Seq<char>) -> bool {
    span_space(s, 0) == s.len() || s[span_space(s, 0)] == ';'
}

pub fn match_blank(v: &Vec<char>) -> (b: bool)
    ensures
        b == line_is_blank(v@),
{
    let j = scan_space(v, 0);
    j == v.len() || v[j] == ';'
}

/// The name captured by a section-header line of the exact shape
/// `[Identifier]`, where the identifier is a capital letter followed by
/// letters.
pub open spec fn header_capture(s: Seq<char>) -> Option<Seq<char>> {
    if s.len() >= 3 && s[0] == '[' && s[s.len() - 1] == ']' && is_upper_char(s[1]) && span_alpha(
        s,
        2,
    ) == s.len() - 1 {
        Some(s.subrange(1, s.len() - 1))
    } else {
        None
    }
}

pub fn match_header(v: &Vec<char>, s: &str) -> (r: Option<String>)
    requires
        v@ == s@,
    ensures
        match r {
            Some(h) => header_capture(v@) == Some(h@),
            None => header_capture(v@) is None,
        },
{
    let n = v.len();
    if n >= 3 && v[0] == '[' && v[n - 1] == ']' && is_upper(v[1]) {
        let j = scan_alpha(v, 2);
        if j == n - 1 {
            Some(s.substring_char(1, n - 1).to_owned())
        } else {
            None
        }
    } else {
        None
    }
}

// ---------------------------------------------------------------------
// Keyword-prefixed lines
// ---------------------------------------------------------------------

/// Where the field of a `Key:`-prefixed line starts: after the key and a
/// nonempty run of whitespace, with at least one character following.
pub open spec fn key_rest(s: Seq<char>, k: Seq<char>) -> Option<int> {
    if prefix_at(s, 0, k) {
        let j = span_space(s, k.len() as int);
        if j > k.len() && j < s.len() {
            Some(j)
        } else {
            None
        }
    } else {
        None
    }
}

pub fn match_key(v: &Vec<char>, key: &str) -> (r: Option<usize>)
    ensures
        match r {
            Some(j) => key_rest(v@, key@) == Some(j as int) && key@.len() < j < v@.len(),
            None => key_rest(v@, key@) is None,
        },
{
    if check_prefix(v, 0, key) {
        let kn = key.unicode_len();
        let j = scan_space(v, kn);
        if j > kn && j < v.len() {
            Some(j)
        } else {
            None
        }
    } else {
        None
    }
}

/// The remainder of `s` from `j`, required to equal `p` exactly.
pub open spec fn rest_is(s: Seq<char>, j: int, p: Seq<char>) -> bool {
    prefix_at(s, j, p) && j + p.len() == s.len()
}

/// Free-text capture: `Key:`, whitespace, then any nonempty rest.
pub open spec fn keyed_text_capture(s: Seq<char>, k: Seq<char>) -> Option<Seq<char>> {
    match key_rest(s, k) {
        Some(j) => Some(s.subrange(j, s.len() as int)),
        None => None,
    }
}

pub fn match_keyed_text(v: &Vec<char>, s: &str, key: &str) -> (r: Option<String>)
    requires
        v@ == s@,
    ensures
        match r {
            Some(t) => keyed_text_capture(v@, key@) == Some(t@),
            None => keyed_text_capture(v@, key@) is None,
        },
{
    match match_key(v, key) {
        Some(j) => Some(s.substring_char(j, v.len()).to_owned()),
        None => None,
    }
}

/// `Key:`, whitespace, then a nonempty rest drawn from `[A-Za-z -]`.
pub open spec fn keyed_word_dash_capture(s: Seq<char>, k: Seq<char>) -> Option<Seq<char>> {
    match key_rest(s, k) {
        Some(j) => if span_word_dash(s, j) == s.len() {
            Some(s.subrange(j, s.len() as int))
        } else {
            None
        },
        None => None,
    }
}

pub fn match_keyed_word_dash(v: &Vec<char>, s: &str, key: &str) -> (r: Option<String>)
    requires
        v@ == s@,
    ensures
        match r {
            Some(t) => keyed_word_dash_capture(v@, key@) == Some(t@),
            None => keyed_word_dash_capture(v@, key@) is None,
        },
{
    match match_key(v, key) {
        Some(j) => {
            if scan_word_dash(v, j) == v.len() {
                Some(s.substring_char(j, v.len()).to_owned())
            } else {
                None
            }
        },
        None => None,
    }
}

/// `Key:`, whitespace, then a nonempty rest drawn from `[A-Za-z ]`.
pub open spec fn keyed_word_space_capture(s: Seq<char>, k: Seq<char>) -> Option<Seq<char>> {
    match key_rest(s, k) {
        Some(j) => if span_word_space(s, j) == s.len() {
            Some(s.subrange(j, s.len() as int))
        } else {
            None
        },
        None => None,
    }
}

pub fn match_keyed_word_space(v: &Vec<char>, s: &str, key: &str) -> (r: Option<String>)
    requires
        v@ == s@,
    ensures
        match r {
            Some(t) => keyed_word_space_capture(v@, key@) == Some(t@),
            None => keyed_word_space_capture(v@, key@) is None,
        },
{
    match match_key(v, key) {
        Some(j) => {
            if scan_word_space(v, j) == v.len() {
                Some(s.substring_char(j, v.len()).to_owned())
            } else {
                None
            }
        },
        None => None,
    }
}

/// `Key:`, whitespace, then a nonempty rest drawn from `[A-Za-z '-]`.
pub open spec fn keyed_tree_capture(s: Seq<char>, k: Seq<char>) -> Option<Seq<char>> {
    match key_rest(s, k) {
        Some(j) => if span_tree(s, j) == s.len() {
            Some(s.subrange(j, s.len() as int))
        } else {
            None
        },
        None => None,
    }
}

pub fn match_keyed_tree(v: &Vec<char>, s: &str, key: &str) -> (r: Option<String>)
    requires
        v@ == s@,
    ensures
        match r {
            Some(t) => keyed_tree_capture(v@, key@) == Some(t@),
            None => keyed_tree_capture(v@, key@) is None,
        },
{
    match match_key(v, key) {
        Some(j) => {
            if scan_tree(v, j) == v.len() {
                Some(s.substring_char(j, v.len()).to_owned())
            } else {
                None
            }
        },
        None => None,
    }
}

// ---------------------------------------------------------------------
// Overview lines with numeric fields
// ---------------------------------------------------------------------

/// `MaxLevels:`, whitespace, then exactly one or two digits.
pub open spec fn max_levels_capture(s: Seq<char>) -> Option<int> {
    match key_rest(s, "MaxLevels:"@) {
        Some(j) => {
            let d = span_digit(s, j);
            if d == s.len() && d - j <= 2 {
                Some(digits_val(s, j, d))
            } else {
                None
            }
        },
        None => None,
    }
}

pub fn match_max_levels(v: &Vec<char>) -> (r: Option<u8>)
    ensures
        match r {
            Some(n) => max_levels_capture(v@) == Some(n as int),
            None => max_levels_capture(v@) is None,
        },
{
    match match_key(v, "MaxLevels:") {
        Some(j) => {
            let d = scan_digit(v, j);
            if d == v.len() && d - j <= 2 {
                Some(digits_value_2(v, j, d))
            } else {
                None
            }
        },
        None => None,
    }
}

/// `Level:`, whitespace, one or two digits, whitespace, then a nonempty
/// class token drawn from `[A-Za-z ]`.
pub open spec fn level_capture(s: Seq<char>) -> Option<(int, Seq<char>)> {
    match key_rest(s, "Level:"@) {
        Some(j) => {
            let d = span_digit(s, j);
            if 1 <= d - j <= 2 {
                let w = span_space(s, d);
                if w > d && w < s.len() && span_word_space(s, w) == s.len() {
                    Some((digits_val(s, j, d), s.subrange(w, s.len() as int)))
                } else {
                    None
                }
            } else {
                None
            }
        },
        None => None,
    }
}

pub fn match_level(v: &Vec<char>, s: &str) -> (r: Option<(u8, String)>)
    requires
        v@ == s@,
    ensures
        match r {
            Some((n, t)) => level_capture(v@) == Some((n as int, t@)),
            None => level_capture(v@) is None,
        },
{
    match match_key(v, "Level:") {
        Some(j) => {
            let d = scan_digit(v, j);
            if 1 <= d - j && d - j <= 2 {
                let w = scan_space(v, d);
                if w > d && w < v.len() && scan_word_space(v, w) == v.len() {
                    let n = digits_value_2(v, j, d);
                    Some((n, s.substring_char(w, v.len()).to_owned()))
                } else {
                    None
                }
            } else {
                None
            }
        },
        None => None,
    }
}

// ---------------------------------------------------------------------
// Stats lines
// ---------------------------------------------------------------------

/// `Preferred:`, whitespace, then a capital letter and at least one more
/// letter.
pub open spec fn preferred_capture(s: Seq<char>) -> Option<Seq<char>> {
    match key_rest(s, "Preferred:"@) {
        Some(j) => if s.len() - j >= 2 && is_upper_char(s[j]) && span_alpha(s, j) == s.len() {
            Some(s.subrange(j, s.len() as int))
        } else {
            None
        },
        None => None,
    }
}

pub fn match_preferred(v: &Vec<char>, s: &str) -> (r: Option<String>)
    requires
        v@ == s@,
    ensures
        match r {
            Some(t) => preferred_capture(v@) == Some(t@),
            None => preferred_capture(v@) is None,
        },
{
    match match_key(v, "Preferred:") {
        Some(j) => {
            if v.len() - j >= 2 && is_upper(v[j]) && scan_alpha(v, j) == v.len() {
                Some(s.substring_char(j, v.len()).to_owned())
            } else {
                None
            }
        },
        None => None,
    }
}

/// A `<BuildType>: No` opt-out line.
pub open spec fn no_capture(s: Seq<char>) -> Option<BuildType> {
    if key_rest(s, "Adventurer:"@) matches Some(j) && rest_is(s, j, "No"@) {
        Some(BuildType::Adventurer)
    } else if key_rest(s, "Champion:"@) matches Some(j) && rest_is(s, j, "No"@) {
        Some(BuildType::Champion)
    } else if key_rest(s, "Hero:"@) matches Some(j) && rest_is(s, j, "No"@) {
        Some(BuildType::Hero)
    } else if key_rest(s, "Legend:"@) matches Some(j) && rest_is(s, j, "No"@) {
        Some(BuildType::Legend)
    } else {
        None
    }
}

fn match_no_one(v: &Vec<char>, key: &str) -> (r: bool)
    ensures
        r == (key_rest(v@, key@) matches Some(j) && rest_is(v@, j, "No"@)),
{
    match match_key(v, key) {
        Some(j) => {
            let n = v.len();
            if n - j == 2 && check_prefix(v, j, "No") {
                proof {
                    reveal_strlit("No");
                }
                true
            } else {
                proof {
                    reveal_strlit("No");
                }
                false
            }
        },
        None => false,
    }
}

pub fn match_no(v: &Vec<char>) -> (r: Option<BuildType>)
    ensures
        match r {
            Some(b) => no_capture(v@) == Some(b),
            None => no_capture(v@) is None,
        },
{
    if match_no_one(v, "Adventurer:") {
        Some(BuildType::Adventurer)
    } else if match_no_one(v, "Champion:") {
        Some(BuildType::Champion)
    } else if match_no_one(v, "Hero:") {
        Some(BuildType::Hero)
    } else if match_no_one(v, "Legend:") {
        Some(BuildType::Legend)
    } else {
        None
    }
}

/// A two-character right-aligned numeric field: blank (zero), a space and
/// a nonzero digit, or two digits with the first nonzero.
pub open spec fn two_col(s: Seq<char>, i: int) -> Option<int> {
    if s[i] == ' ' && s[i + 1] == ' ' {
        Some(0)
    } else if s[i] == ' ' && 49 <= s[i + 1] as u32 <= 57 {
        Some(digit_val(s[i + 1]))
    } else if 49 <= s[i] as u32 <= 57 && 48 <= s[i + 1] as u32 <= 57 {
        Some(digit_val(s[i]) * 10 + digit_val(s[i + 1]))
    } else {
        None
    }
}

fn match_two_col(v: &Vec<char>, i: usize) -> (r: Option<u8>)
    requires
        i + 2 <= v@.len(),
    ensures
        match r {
            Some(n) => two_col(v@, i as int) == Some(n as int) && n <= 99,
            None => two_col(v@, i as int) is None,
        },
{
    let n = v.len();
    let c0 = v[i];
    let c1 = v[i + 1];
    let u0 = c0 as u32;
    let u1 = c1 as u32;
    if c0 == ' ' && c1 == ' ' {
        Some(0)
    } else if c0 == ' ' && 49 <= u1 && u1 <= 57 {
        Some((u1 - 48) as u8)
    } else if 49 <= u0 && u0 <= 57 && 48 <= u1 && u1 <= 57 {
        Some((10 * (u0 - 48) + (u1 - 48)) as u8)
    } else {
        None
    }
}

/// A one-character numeric field: blank (zero) or a nonzero digit.
pub open spec fn one_col(s: Seq<char>, i: int) -> Option<int> {
    if s[i] == ' ' {
        Some(0)
    } else if 49 <= s[i] as u32 <= 57 {
        Some(digit_val(s[i]))
    } else {
        None
    }
}

fn match_one_col(v: &Vec<char>, i: usize) -> (r: Option<u8>)
    requires
        i < v@.len(),
    ensures
        match r {
            Some(n) => one_col(v@, i as int) == Some(n as int) && n <= 9,
            None => one_col(v@, i as int) is None,
        },
{
    let c = v[i];
    let u = c as u32;
    if c == ' ' {
        Some(0)
    } else if 49 <= u && u <= 57 {
        Some((u - 48) as u8)
    } else {
        None
    }
}

/// The fixed-column ability-score line: a three-letter ability code, a
/// colon, and five right-aligned numeric-or-blank fields (one per build
/// type, then the tome column) at fixed positions.
pub open spec fn ability_capture(s: Seq<char>) -> Option<(Ability, int, int, int, int, int)> {
    if s.len() == 32 {
        match ability_of(s.subrange(0, 3)) {
            Some(a) => {
                if s[3] == ':' && s[4] == ' ' && s[5] == ' ' && s[8] == ' ' && s[9] == ' '
                    && s[10] == ' ' && s[11] == ' ' && s[14] == ' ' && s[15] == ' ' && s[16] == ' '
                    && s[17] == ' ' && s[20] == ' ' && s[21] == ' ' && s[22] == ' ' && s[23] == ' '
                    && s[26] == ' ' && s[27] == ' ' && s[28] == ' ' && s[29] == ' ' && s[30]
                    == ' ' {
                    match (two_col(s, 6), two_col(s, 12), two_col(s, 18), two_col(s, 24), one_col(
                        s,
                        31,
                    )) {
                        (Some(n1), Some(n2), Some(n3), Some(n4), Some(t)) => Some(
                            (a, n1, n2, n3, n4, t),
                        ),
                        _ => None,
                    }
                } else {
                    None
                }
            },
            None => None,
        }
    } else {
        None
    }
}

pub fn match_ability_line(v: &Vec<char>, s: &str) -> (r: Option<(Ability, u8, u8, u8, u8, u8)>)
    requires
        v@ == s@,
    ensures
        match r {
            Some((a, n1, n2, n3, n4, t)) => ability_capture(v@) == Some(
                (a, n1 as int, n2 as int, n3 as int, n4 as int, t as int),
            ) && n1 <= 99 && n2 <= 99 && n3 <= 99 && n4 <= 99 && t <= 9,
            None => ability_capture(v@) is None,
        },
{
    if v.len() != 32 {
        return None;
    }
    let code = s.substring_char(0, 3);
    match Ability::from_str(code) {
        Some(a) => {
            if v[3] == ':' && v[4] == ' ' && v[5] == ' ' && v[8] == ' ' && v[9] == ' ' && v[10]
                == ' ' && v[11] == ' ' && v[14] == ' ' && v[15] == ' ' && v[16] == ' ' && v[17]
                == ' ' && v[20] == ' ' && v[21] == ' ' && v[22] == ' ' && v[23] == ' ' && v[26]
                == ' ' && v[27] == ' ' && v[28] == ' ' && v[29] == ' ' && v[30] == ' ' {
                let f1 = match_two_col(v, 6);
                let f2 = match_two_col(v, 12);
                let f3 = match_two_col(v, 18);
                let f4 = match_two_col(v, 24);
                let f5 = match_one_col(v, 31);
                match (f1, f2, f3, f4, f5) {
                    (Some(n1), Some(n2), Some(n3), Some(n4), Some(t)) => Some(
                        (a, n1, n2, n3, n4, t),
                    ),
                    _ => None,
                }
            } else {
                None
            }
        },
        None => None,
    }
}

/// `Levelup:`, whitespace, one or two digits, whitespace, then a capital
/// letter and at least one lower-case letter.
pub open spec fn levelup_capture(s: Seq<char>) -> Option<(int, Seq<char>)> {
    match key_rest(s, "Levelup:"@) {
        Some(j) => {
            let d = span_digit(s, j);
            if 1 <= d - j <= 2 {
                let w = span_space(s, d);
                if w > d && s.len() - w >= 2 && is_upper_char(s[w]) && span_lower(s, w + 1)
                    == s.len() {
                    Some((digits_val(s, j, d), s.subrange(w, s.len() as int)))
                } else {
                    None
                }
            } else {
                None
            }
        },
        None => None,
    }
}

pub fn match_levelup(v: &Vec<char>, s: &str) -> (r: Option<(u8, String)>)
    requires
        v@ == s@,
    ensures
        match r {
            Some((n, t)) => levelup_capture(v@) == Some((n as int, t@)) && n <= 99,
            None => levelup_capture(v@) is None,
        },
{
    match match_key(v, "Levelup:") {
        Some(j) => {
            let d = scan_digit(v, j);
            if 1 <= d - j && d - j <= 2 {
                let w = scan_space(v, d);
                if w > d && v.len() - w >= 2 && is_upper(v[w]) && scan_lower(v, w + 1) == v.len() {
                    let n = digits_value_2(v, j, d);
                    Some((n, s.substring_char(w, v.len()).to_owned()))
                } else {
                    None
                }
            } else {
                None
            }
        },
        None => None,
    }
}

// ---------------------------------------------------------------------
// Skills lines
// ---------------------------------------------------------------------

/// One 4-character point field of a skill line: blank, or a right-aligned
/// one- or two-digit value with the first digit nonzero.
pub open spec fn chunk_ok(s: Seq<char>, i: int) -> bool {
    ||| (s[i] == ' ' && s[i + 1] == ' ' && s[i + 2] == ' ' && s[i + 3] == ' ')
    ||| (s[i] == ' ' && s[i + 1] == ' ' && 49 <= s[i + 2] as u32 <= 57 && s[i + 3] == ' ')
    ||| (s[i] == ' ' && 49 <= s[i + 1] as u32 <= 57 && 48 <= s[i + 2] as u32 <= 57 && s[i + 3]
        == ' ')
}

/// The field of chunk index `c` (the `c`-th 4-character group after the
/// colon) is well formed.
pub open spec fn chunk_ok_at(s: Seq<char>, c: int) -> bool {
    chunk_ok(s, 8 + 4 * c)
}

/// The value of the point field of chunk index `c`, or `None` if blank.
pub open spec fn chunk_num_at(s: Seq<char>, c: int) -> Option<int> {
    chunk_num(s, 8 + 4 * c)
}

/// The numeric value of one point field, or `None` for a blank field.
pub open spec fn chunk_num(s: Seq<char>, i: int) -> Option<int> {
    if s[i] == ' ' && s[i + 1] == ' ' && 49 <= s[i + 2] as u32 <= 57 && s[i + 3] == ' ' {
        Some(digit_val(s[i + 2]))
    } else if s[i] == ' ' && 49 <= s[i + 1] as u32 <= 57 && 48 <= s[i + 2] as u32 <= 57 && s[i + 3]
        == ' ' {
        Some(digit_val(s[i + 1]) * 10 + digit_val(s[i + 2]))
    } else {
        None
    }
}

fn chunk_ok_exec(v: &Vec<char>, i: usize) -> (r: bool)
    requires
        i + 4 <= v@.len(),
    ensures
        r == chunk_ok(v@, i as int),
{
    let n = v.len();
    let c0 = v[i];
    let c1 = v[i + 1];
    let c2 = v[i + 2];
    let c3 = v[i + 3];
    let u1 = c1 as u32;
    let u2 = c2 as u32;
    (c0 == ' ' && c1 == ' ' && c2 == ' ' && c3 == ' ') || (c0 == ' ' && c1 == ' ' && 49 <= u2
        && u2 <= 57 && c3 == ' ') || (c0 == ' ' && 49 <= u1 && u1 <= 57 && 48 <= u2 && u2 <= 57
        && c3 == ' ')
}

/// The value of one point field; `None` for a blank field.
pub fn chunk_num_exec(v: &Vec<char>, i: usize) -> (r: Option<u8>)
    requires
        i + 4 <= v@.len(),
    ensures
        match r {
            Some(n) => chunk_num(v@, i as int) == Some(n as int) && n <= 99,
            None => chunk_num(v@, i as int) is None,
        },
{
    let n = v.len();
    let c0 = v[i];
    let c1 = v[i + 1];
    let c2 = v[i + 2];
    let c3 = v[i + 3];
    let u1 = c1 as u32;
    let u2 = c2 as u32;
    if c0 == ' ' && c1 == ' ' && 49 <= u2 && u2 <= 57 && c3 == ' ' {
        Some((u2 - 48) as u8)
    } else if c0 == ' ' && 49 <= u1 && u1 <= 57 && 48 <= u2 && u2 <= 57 && c3 == ' ' {
        Some((10 * (u1 - 48) + (u2 - 48)) as u8)
    } else {
        None
    }
}

/// A skill line: a 7-character `[A-Za-z ]` skill-code field, a colon, and
/// one or more aligned 4-character point fields.  The capture is the
/// skill-code field.
pub open spec fn skill_capture(s: Seq<char>) -> Option<Seq<char>> {
    if s.len() >= 12 && span_word_space(s, 0) >= 7 && s[7] == ':' && (s.len() - 8) % 4 == 0
        && (forall|c: int|
        0 <= c < (s.len() - 8) / 4 ==> #[trigger] chunk_ok_at(s, c)) {
        Some(s.subrange(0, 7))
    } else {
        None
    }
}

pub fn match_skill_line(v: &Vec<char>, s: &str) -> (r: Option<String>)
    requires
        v@ == s@,
    ensures
        match r {
            Some(code) => skill_capture(v@) == Some(code@),
            None => skill_capture(v@) is None,
        },
{
    let n = v.len();
    if n < 12 || v[7] != ':' || (n - 8) % 4 != 0 {
        return None;
    }
    if scan_word_space(v, 0) < 7 {
        return None;
    }
    let count = (n - 8) / 4;
    let mut c: usize = 0;
    while c < count
        invariant
            0 <= c <= count,
            n == v@.len(),
            n >= 12,
            count == (n - 8) / 4,
            (n - 8) % 4 == 0,
            forall|k: int| 0 <= k < c ==> #[trigger] chunk_ok_at(v@, k),
        decreases count - c,
    {
        if !chunk_ok_exec(v, 8 + 4 * c) {
            proof {
                assert(!chunk_ok_at(v@, c as int));
            }
            return None;
        }
        proof {
            assert(chunk_ok_at(v@, c as int));
        }
        c = c + 1;
    }
    Some(s.substring_char(0, 7).to_owned())
}

// ---------------------------------------------------------------------
// Feats lines
// ---------------------------------------------------------------------

/// The position of the last letter in `s[from..to]`, or `-1` if there is
/// none.
pub open spec fn last_alpha(s: Seq<char>, from: int, to: int) -> int
    decreases to - from,
{
    if to <= from {
        -1
    } else if is_alpha_char(s[to - 1]) {
        to - 1
    } else {
        last_alpha(s, from, to - 1)
    }
}

fn find_last_alpha(v: &Vec<char>, from: usize, to: usize) -> (r: Option<usize>)
    requires
        from <= to <= v@.len(),
    ensures
        match r {
            Some(e) => last_alpha(v@, from as int, to as int) == e as int && from <= e < to,
            None => last_alpha(v@, from as int, to as int) == -1,
        },
{
    let mut q = to;
    while q > from
        invariant
            from <= q <= to <= v@.len(),
            last_alpha(v@, from as int, to as int) == last_alpha(v@, from as int, q as int),
        decreases q,
    {
        if is_alpha(v[q - 1]) {
            return Some(q - 1);
        }
        q = q - 1;
    }
    None
}

/// A feat line: a base-category keyword (a capital and lower-case
/// letters), a colon, whitespace, a qualifier token from `[A-Za-z -]`
/// that starts with a capital and ends with a letter, whitespace, a one-
/// or two-digit level with nonzero first digit, whitespace, and a
/// nonempty free-text feat name.
pub open spec fn feat_capture(s: Seq<char>) -> Option<(Seq<char>, Seq<char>, int, Seq<char>)> {
    if s.len() >= 2 && is_upper_char(s[0]) {
        let k = span_lower(s, 1);
        if k >= 2 && k < s.len() && s[k] == ':' {
            let j = span_space(s, k + 1);
            if j > k + 1 && j < s.len() {
                let run = span_word_dash(s, j);
                let e = last_alpha(s, j, run);
                if e >= 0 && is_upper_char(s[j]) && e + 1 - j >= 2 {
                    let w = span_space(s, e + 1);
                    if w > e + 1 && w >= run {
                        let d = span_digit(s, w);
                        if 1 <= d - w <= 2 && 49 <= s[w] as u32 <= 57 {
                            let w2 = span_space(s, d);
                            if w2 > d && w2 < s.len() {
                                Some(
                                    (
                                        s.subrange(0, k),
                                        s.subrange(j, e + 1),
                                        digits_val(s, w, d),
                                        s.subrange(w2, s.len() as int),
                                    ),
                                )
                            } else {
                                None
                            }
                        } else {
                            None
                        }
                    } else {
                        None
                    }
                } else {
                    None
                }
            } else {
                None
            }
        } else {
            None
        }
    } else {
        None
    }
}

pub fn match_feat(v: &Vec<char>, s: &str) -> (r: Option<(String, String, u8, String)>)
    requires
        v@ == s@,
    ensures
        match r {
            Some((base, qual, lv, name)) => feat_capture(v@) == Some(
                (base@, qual@, lv as int, name@),
            ) && lv <= 99,
            None => feat_capture(v@) is None,
        },
{
    let n = v.len();
    if n < 2 || !is_upper(v[0]) {
        return None;
    }
    let k = scan_lower(v, 1);
    if !(k >= 2 && k < n && v[k] == ':') {
        return None;
    }
    let j = scan_space(v, k + 1);
    if !(j > k + 1 && j < n) {
        return None;
    }
    let run = scan_word_dash(v, j);
    let e = match find_last_alpha(v, j, run) {
        Some(e) => e,
        None => {
            return None;
        },
    };
    if !(is_upper(v[j]) && e + 1 - j >= 2) {
        return None;
    }
    let w = scan_space(v, e + 1);
    if !(w > e + 1 && w >= run) {
        return None;
    }
    let d = scan_digit(v, w);
    if !(1 <= d - w && d - w <= 2) {
        return None;
    }
    let uw = v[w] as u32;
    if !(49 <= uw && uw <= 57) {
        return None;
    }
    let w2 = scan_space(v, d);
    if !(w2 > d && w2 < n) {
        return None;
    }
    let lv = digits_value_2(v, w, d);
    Some(
        (
            s.substring_char(0, k).to_owned(),
            s.substring_char(j, e + 1).to_owned(),
            lv,
            s.substring_char(w2, n).to_owned(),
        ),
    )
}

// ---------------------------------------------------------------------
// Spells lines
// ---------------------------------------------------------------------

/// A spell line: `Spell:`, whitespace, a class token from `[A-Za-z ]`
/// starting with a capital and ending with a letter, whitespace, a single
/// nonzero digit (the spell level), whitespace, and a spell name that may
/// be empty (an unfilled slot).
pub open spec fn spell_capture(s: Seq<char>) -> Option<(Seq<char>, int, Seq<char>)> {
    match key_rest(s, "Spell:"@) {
        Some(j) => {
            let run = span_word_space(s, j);
            let e = last_alpha(s, j, run);
            if e >= 0 && is_upper_char(s[j]) && e + 1 - j >= 2 {
                let w = span_space(s, e + 1);
                if w > e + 1 && w < s.len() && 49 <= s[w] as u32 <= 57 {
                    let w2 = span_space(s, w + 1);
                    if w2 > w + 1 {
                        Some(
                            (s.subrange(j, e + 1), digit_val(s[w]), s.subrange(w2, s.len() as int)),
                        )
                    } else {
                        None
                    }
                } else {
                    None
                }
            } else {
                None
            }
        },
        None => None,
    }
}

pub fn match_spell(v: &Vec<char>, s: &str) -> (r: Option<(String, u8, String)>)
    requires
        v@ == s@,
    ensures
        match r {
            Some((cls, lv, name)) => spell_capture(v@) == Some((cls@, lv as int, name@)) && 1 <= lv
                <= 9,
            None => spell_capture(v@) is None,
        },
{
    let n = v.len();
    let j = match match_key(v, "Spell:") {
        Some(j) => j,
        None => {
            return None;
        },
    };
    let run = scan_word_space(v, j);
    let e = match find_last_alpha(v, j, run) {
        Some(e) => e,
        None => {
            return None;
        },
    };
    if !(is_upper(v[j]) && e + 1 - j >= 2) {
        return None;
    }
    let w = scan_space(v, e + 1);
    if !(w > e + 1 && w < n) {
        return None;
    }
    let uw = v[w] as u32;
    if !(49 <= uw && uw <= 57) {
        return None;
    }
    let w2 = scan_space(v, w + 1);
    if !(w2 > w + 1) {
        return None;
    }
    Some(
        (
            s.substring_char(j, e + 1).to_owned(),
            (uw - 48) as u8,
            s.substring_char(w2, n).to_owned(),
        ),
    )
}

// ---------------------------------------------------------------------
// Enhancements lines
// ---------------------------------------------------------------------

/// The category tag of a `Type:` consistency line.
#[derive(Clone, Copy, Debug, PartialEq, Eq, Structural)]
pub enum TreeKind {
    Race,
    Class,
    Global,
    RaceClass,
}

/// `Type:`, whitespace, then exactly one of the four category tags.
pub open spec fn type_capture(s: Seq<char>) -> Option<TreeKind> {
    match key_rest(s, "Type:"@) {
        Some(j) => if rest_is(s, j, "Race"@) {
            Some(TreeKind::Race)
        } else if rest_is(s, j, "Class"@) {
            Some(TreeKind::Class)
        } else if rest_is(s, j, "Global"@) {
            Some(TreeKind::Global)
        } else if rest_is(s, j, "RaceClass"@) {
            Some(TreeKind::RaceClass)
        } else {
            None
        },
        None => None,
    }
}

/// The remainder of the line from `j` equals `p` exactly.
fn rest_matches(v: &Vec<char>, j: usize, p: &str) -> (r: bool)
    requires
        j <= v@.len(),
    ensures
        r == rest_is(v@, j as int, p@),
{
    let pn = p.unicode_len();
    let n = v.len();
    pn == n - j && check_prefix(v, j, p)
}

pub fn match_type(v: &Vec<char>) -> (r: Option<TreeKind>)
    ensures
        match r {
            Some(t) => type_capture(v@) == Some(t),
            None => type_capture(v@) is None,
        },
{
    match match_key(v, "Type:") {
        Some(j) => {
            if rest_matches(v, j, "Race") {
                Some(TreeKind::Race)
            } else if rest_matches(v, j, "Class") {
                Some(TreeKind::Class)
            } else if rest_matches(v, j, "Global") {
                Some(TreeKind::Global)
            } else if rest_matches(v, j, "RaceClass") {
                Some(TreeKind::RaceClass)
            } else {
                None
            }
        },
        None => None,
    }
}

/// `ClassLevels:`, whitespace, then a one- or two-digit count; the line
/// is recognized and then discarded.
pub open spec fn classlevels_match(s: Seq<char>) -> bool {
    match key_rest(s, "ClassLevels:"@) {
        Some(j) => {
            let d = span_digit(s, j);
            d == s.len() && 1 <= d - j <= 2 && 49 <= s[j] as u32 <= 57
        },
        None => false,
    }
}

pub fn match_classlevels(v: &Vec<char>) -> (r: bool)
    ensures
        r == classlevels_match(v@),
{
    match match_key(v, "ClassLevels:") {
        Some(j) => {
            let d = scan_digit(v, j);
            let uj = v[j] as u32;
            d == v.len() && 1 <= d - j && d - j <= 2 && 49 <= uj && uj <= 57
        },
        None => false,
    }
}

/// A parenthesized rank suffix `(Rank r)` with `r` between 1 and 3,
/// closing the line.
pub open spec fn rank_at(s: Seq<char>, i: int) -> Option<int> {
    if i + 8 == s.len() && prefix_at(s, i, "(Rank "@) && 49 <= s[i + 6] as u32 <= 51 && s[i + 7]
        == ')' {
        Some(digit_val(s[i + 6]))
    } else {
        None
    }
}

fn match_rank_at(v: &Vec<char>, i: usize) -> (r: Option<u8>)
    requires
        i <= v@.len(),
    ensures
        match r {
            Some(rk) => rank_at(v@, i as int) == Some(rk as int) && 1 <= rk <= 3,
            None => rank_at(v@, i as int) is None,
        },
{
    proof {
        reveal_strlit("(Rank ");
    }
    let n = v.len();
    if n - i == 8 && check_prefix(v, i, "(Rank ") {
        let u = v[i + 6] as u32;
        if 49 <= u && u <= 51 && v[i + 7] == ')' {
            Some((u - 48) as u8)
        } else {
            None
        }
    } else {
        None
    }
}

/// An enhancement line: `Ability:`, whitespace, `Tier`, whitespace, a
/// tier digit 0 through 5 and a colon, whitespace, then a name from
/// `[A-Za-z '-]`, an optional `: subname` part, and an optional
/// ` (Rank r)` suffix.
pub open spec fn enh_capture(s: Seq<char>) -> Option<
    (int, Seq<char>, Option<Seq<char>>, Option<int>),
> {
    match key_rest(s, "Ability:"@) {
        Some(j) => {
            if prefix_at(s, j, "Tier"@) {
                let j2 = span_space(s, j + 4);
                if j2 > j + 4 && j2 + 1 < s.len() && 48 <= s[j2] as u32 <= 53 && s[j2 + 1] == ':' {
                    let j3 = span_space(s, j2 + 2);
                    if j3 > j2 + 2 && j3 < s.len() {
                        let q = span_tree(s, j3);
                        let tier = digit_val(s[j2]);
                        if q > j3 {
                            if q == s.len() {
                                Some((tier, s.subrange(j3, q), None, None))
                            } else if s[q] == ':' {
                                if q + 1 < s.len() && s[q + 1] == ' ' {
                                    let q2 = span_tree(s, q + 2);
                                    if q2 > q + 2 {
                                        if q2 == s.len() {
                                            Some(
                                                (
                                                    tier,
                                                    s.subrange(j3, q),
                                                    Some(s.subrange(q + 2, q2)),
                                                    None,
                                                ),
                                            )
                                        } else if s[q2] == '(' && s[q2 - 1] == ' ' && q2 - 1 > q
                                            + 2 {
                                            match rank_at(s, q2) {
                                                Some(rk) => Some(
                                                    (
                                                        tier,
                                                        s.subrange(j3, q),
                                                        Some(s.subrange(q + 2, q2 - 1)),
                                                        Some(rk),
                                                    ),
                                                ),
                                                None => None,
                                            }
                                        } else {
                                            None
                                        }
                                    } else {
                                        None
                                    }
                                } else {
                                    None
                                }
                            } else if s[q] == '(' && s[q - 1] == ' ' && q - 1 > j3 {
                                match rank_at(s, q) {
                                    Some(rk) => Some(
                                        (tier, s.subrange(j3, q - 1), None, Some(rk)),
                                    ),
                                    None => None,
                                }
                            } else {
                                None
                            }
                        } else {
                            None
                        }
                    } else {
                        None
                    }
                } else {
                    None
                }
            } else {
                None
            }
        },
        None => None,
    }
}

pub fn match_enh(v: &Vec<char>, s: &str) -> (r: Option<(u8, String, Option<String>, Option<u8>)>)
    requires
        v@ == s@,
    ensures
        match r {
            Some((tier, name, sub, rank)) => {
                &&& enh_capture(v@) matches Some((t2, n2, s2, r2))
                &&& t2 == tier as int
                &&& n2 == name@
                &&& s2 == sub.deep_view()
                &&& r2 == match rank {
                    Some(rk) => Some(rk as int),
                    None => None,
                }
                &&& tier <= 5
                &&& (rank matches Some(rk) ==> 1 <= rk <= 3)
            },
            None => enh_capture(v@) is None,
        },
{
    let n = v.len();
    let j = match match_key(v, "Ability:") {
        Some(j) => j,
        None => {
            return None;
        },
    };
    if !check_prefix(v, j, "Tier") {
        return None;
    }
    proof {
        reveal_strlit("Tier");
        assert("Tier"@.len() == 4);
        assert(j + 4 <= n);
    }
    let j2 = scan_space(v, j + 4);
    if !(j2 > j + 4 && n - j2 > 1) {
        return None;
    }
    let uj2 = v[j2] as u32;
    if !(48 <= uj2 && uj2 <= 53 && v[j2 + 1] == ':') {
        return None;
    }
    let tier = (uj2 - 48) as u8;
    let j3 = scan_space(v, j2 + 2);
    if !(j3 > j2 + 2 && j3 < n) {
        return None;
    }
    let q = scan_tree(v, j3);
    if !(q > j3) {
        return None;
    }
    if q == n {
        return Some((tier, s.substring_char(j3, q).to_owned(), None, None));
    }
    if v[q] == ':' {
        if !(n - q > 1 && v[q + 1] == ' ') {
            return None;
        }
        let q2 = scan_tree(v, q + 2);
        if !(q2 > q + 2) {
            return None;
        }
        if q2 == n {
            return Some(
                (
                    tier,
                    s.substring_char(j3, q).to_owned(),
                    Some(s.substring_char(q + 2, q2).to_owned()),
                    None,
                ),
            );
        }
        if v[q2] == '(' && v[q2 - 1] == ' ' && q2 - 1 > q + 2 {
            match match_rank_at(v, q2) {
                Some(rk) => {
                    return Some(
                        (
                            tier,
                            s.substring_char(j3, q).to_owned(),
                            Some(s.substring_char(q + 2, q2 - 1).to_owned()),
                            Some(rk),
                        ),
                    );
                },
                None => {
                    return None;
                },
            }
        }
        return None;
    }
    if v[q] == '(' && v[q - 1] == ' ' && q - 1 > j3 {
        match match_rank_at(v, q) {
            Some(rk) => {
                return Some((tier, s.substring_char(j3, q - 1).to_owned(), None, Some(rk)));
            },
            None => {
                return None;
            },
        }
    }
    None
}

} // verus!
