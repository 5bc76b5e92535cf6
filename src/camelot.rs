//! Camelot wheel codes ("8B", "11A") and the harmonic compatibility of two codes.
use vstd::prelude::*;
use crate::text::{all_digits, decimal_value, parse_i32_prefix, parse_i32_spec};

verus! {

/// The number of a code: what the text before its last character parses to,
/// 0 where that text is no integer.
pub open spec fn code_number(code: Seq<char>) -> int {
    if code.len() == 0 {
        0
    } else {
        match parse_i32_spec(code.drop_last()) {
            Some(v) => v,
            None => 0,
        }
    }
}

/// The letter of a code: its last character, `B` for empty text.
pub open spec fn code_letter(code: Seq<char>) -> char {
    if code.len() == 0 {
        'B'
    } else {
        code.last()
    }
}

/// The code that stands for a key that was not recognised.
pub open spec fn is_unknown_code(code: Seq<char>) -> bool {
    code.len() == 1 && code[0] == '?'
}

/// Number pairs that mix well whatever the letters, in both directions.
pub open spec fn neighbour_pair(a: int, b: int) -> bool {
    (a == 1 && b == 8) || (a == 2 && b == 9) || (a == 3 && b == 10) || (a == 4 && b == 11) || (a
        == 5 && b == 12) || (a == 6 && b == 7) || (a == 8 && b == 1) || (a == 9 && b == 2) || (a
        == 10 && b == 3) || (a == 11 && b == 4) || (a == 12 && b == 5) || (a == 7 && b == 6)
}

/// Number pairs that mix well from a minor code (`A`) into a major one (`B`);
/// this table is directional.
pub open spec fn minor_to_major_pair(a: int, b: int) -> bool {
    (a == 5 && b == 8) || (a == 12 && b == 3) || (a == 7 && b == 10) || (a == 2 && b == 11) || (a
        == 9 && b == 4) || (a == 4 && b == 1) || (a == 11 && b == 6)
}

/// Whether a mix from the key with code `from` into the key with code `to`
/// is harmonic.
pub open spec fn compatible(from: Seq<char>, to: Seq<char>) -> bool {
    let n1 = code_number(from);
    let n2 = code_number(to);
    let l1 = code_letter(from);
    let l2 = code_letter(to);
    !is_unknown_code(from) && !is_unknown_code(to) && ((l1 == l2 && (n1 == n2 || n1 - n2 == 12
        || n2 - n1 == 12)) || neighbour_pair(n1, n2) || (l1 == 'A' && l2 == 'B'
        && minor_to_major_pair(n1, n2)))
}

/// Harmonic compatibility is directional. Where it holds from one code to
/// another but not back, the first code is on the minor wheel (`A`), the
/// second on the major wheel (`B`), and their numbers form a minor-to-major
/// pair.
pub proof fn lemma_one_way_is_minor_to_major(from: Seq<char>, to: Seq<char>)
    requires
        compatible(from, to),
        !compatible(to, from),
    ensures
        code_letter(from) == 'A',
        code_letter(to) == 'B',
        minor_to_major_pair(code_number(from), code_number(to)),
{
}

/// Harmonic compatibility is not symmetric: some mix is harmonic one way and
/// not the other (from 5A into 8B, but not from 8B into 5A).
pub proof fn lemma_compatibility_not_symmetric()
    ensures
        exists|from: Seq<char>, to: Seq<char>| compatible(from, to) && !compatible(to, from),
{
    let a = seq!['5', 'A'];
    let b = seq!['8', 'B'];
    assert(a.drop_last() =~= seq!['5']);
    assert(b.drop_last() =~= seq!['8']);
    assert(seq!['5'].drop_last() =~= Seq::<char>::empty());
    assert(seq!['8'].drop_last() =~= Seq::<char>::empty());
    assert(seq!['5'].last() == '5');
    assert(seq!['8'].last() == '8');
    reveal_with_fuel(decimal_value, 2);
    assert(decimal_value(seq!['5']) == 5);
    assert(decimal_value(seq!['8']) == 8);
    assert(all_digits(seq!['5']));
    assert(all_digits(seq!['8']));
    assert(code_number(a) == 5);
    assert(code_number(b) == 8);
    assert(compatible(a, b) && !compatible(b, a));
}

fn is_neighbour_pair(a: i32, b: i32) -> (r: bool)
    ensures
        r == neighbour_pair(a as int, b as int),
{
    (a == 1 && b == 8) || (a == 2 && b == 9) || (a == 3 && b == 10) || (a == 4 && b == 11) || (a
        == 5 && b == 12) || (a == 6 && b == 7) || (a == 8 && b == 1) || (a == 9 && b == 2) || (a
        == 10 && b == 3) || (a == 11 && b == 4) || (a == 12 && b == 5) || (a == 7 && b == 6)
}

fn is_minor_to_major_pair(a: i32, b: i32) -> (r: bool)
    ensures
        r == minor_to_major_pair(a as int, b as int),
{
    (a == 5 && b == 8) || (a == 12 && b == 3) || (a == 7 && b == 10) || (a == 2 && b == 11) || (a
        == 9 && b == 4) || (a == 4 && b == 1) || (a == 11 && b == 6)
}

/// Splits a code into its number and its letter.
fn read_code(code: &str) -> (r: (i32, char))
    ensures
        r.0 as int == code_number(code@),
        r.1 == code_letter(code@),
{
    let n = code.unicode_len();
    if n == 0 {
        return (0, 'B');
    }
    let letter = code.get_char(n - 1);
    let number = match parse_i32_prefix(code, n - 1) {
        Some(v) => v,
        None => 0,
    };
    assert(code@.drop_last() =~= code@.subrange(0, n - 1));
    (number, letter)
}

fn is_unknown(code: &str) -> (r: bool)
    ensures
        r == is_unknown_code(code@),
{
    code.unicode_len() == 1 && code.get_char(0) == '?'
}

/// Whether mixing from the track whose Camelot code is `key1` into the track
/// whose code is `key2` is harmonic: same code (or numbers twelve apart on
/// one wheel), a neighbouring number pair, or a minor-to-major pair.
/// Unknown codes ("?") are never compatible.
pub fn harmonically_compatible(key1: &str, key2: &str) -> (r: bool)
    ensures
        r == compatible(key1@, key2@),
{
    if is_unknown(key1) || is_unknown(key2) {
        return false;
    }
    let (n1, l1) = read_code(key1);
    let (n2, l2) = read_code(key2);
    let d: i64 = n1 as i64 - n2 as i64;
    if l1 == l2 && (n1 == n2 || d == 12 || d == -12) {
        return true;
    }
    if is_neighbour_pair(n1, n2) {
        return true;
    }
    l1 == 'A' && l2 == 'B' && is_minor_to_major_pair(n1, n2)
}

} // verus!
