//! Musical keys: their names ("F# Minor") and their places on the Camelot wheel.
use vstd::prelude::*;
use crate::text::{
    contains_seq, contains_str, first_word, first_word_bounds, is_space, lemma_first_word_of_prefix,
    range_equals,
};

verus! {

#[derive(Clone, Copy, Debug, PartialEq, Eq, Structural)]
pub enum Mode {
    Major,
    Minor,
}

/// A key: a root pitch class (0 = C, 1 = C#, ..., 11 = B) and a mode.
#[derive(Clone, Copy, Debug, PartialEq, Eq, Structural)]
pub struct MusicalKey {
    pub root: u8,
    pub mode: Mode,
}

impl MusicalKey {
    pub open spec fn wf(self) -> bool {
        self.root < 12
    }
}

/// The name of a pitch class, with sharps.
pub open spec fn note_name(root: int) -> Seq<char> {
    if root == 0 {
        seq!['C']
    } else if root == 1 {
        seq!['C', '#']
    } else if root == 2 {
        seq!['D']
    } else if root == 3 {
        seq!['D', '#']
    } else if root == 4 {
        seq!['E']
    } else if root == 5 {
        seq!['F']
    } else if root == 6 {
        seq!['F', '#']
    } else if root == 7 {
        seq!['G']
    } else if root == 8 {
        seq!['G', '#']
    } else if root == 9 {
        seq!['A']
    } else if root == 10 {
        seq!['A', '#']
    } else {
        seq!['B']
    }
}

pub open spec fn minor_word() -> Seq<char> {
    seq!['M', 'i', 'n', 'o', 'r']
}

pub open spec fn mode_suffix(mode: Mode) -> Seq<char> {
    match mode {
        Mode::Major => seq![' ', 'M', 'a', 'j', 'o', 'r'],
        Mode::Minor => seq![' '] + minor_word(),
    }
}

/// The label of a key, such as "F# Minor".
pub open spec fn key_label_of(key: MusicalKey) -> Seq<char> {
    note_name(key.root as int) + mode_suffix(key.mode)
}

/// The number of a root on the Camelot wheel; minor keys take the number of
/// the major key on the same root.
pub open spec fn camelot_number(root: int) -> int {
    if root == 0 {
        8
    } else if root == 1 {
        3
    } else if root == 2 {
        10
    } else if root == 3 {
        5
    } else if root == 4 {
        12
    } else if root == 5 {
        7
    } else if root == 6 {
        2
    } else if root == 7 {
        9
    } else if root == 8 {
        4
    } else if root == 9 {
        11
    } else if root == 10 {
        6
    } else {
        1
    }
}

/// The decimal text of a wheel number from 1 to 12.
pub open spec fn number_text(n: int) -> Seq<char> {
    if n == 1 {
        seq!['1']
    } else if n == 2 {
        seq!['2']
    } else if n == 3 {
        seq!['3']
    } else if n == 4 {
        seq!['4']
    } else if n == 5 {
        seq!['5']
    } else if n == 6 {
        seq!['6']
    } else if n == 7 {
        seq!['7']
    } else if n == 8 {
        seq!['8']
    } else if n == 9 {
        seq!['9']
    } else if n == 10 {
        seq!['1', '0']
    } else if n == 11 {
        seq!['1', '1']
    } else {
        seq!['1', '2']
    }
}

/// `A` for the minor wheel, `B` for the major wheel.
pub open spec fn wheel_letter(mode: Mode) -> char {
    match mode {
        Mode::Major => 'B',
        Mode::Minor => 'A',
    }
}

/// The Camelot code of a key, such as "11A".
pub open spec fn camelot_text(key: MusicalKey) -> Seq<char> {
    number_text(camelot_number(key.root as int)) + seq![wheel_letter(key.mode)]
}

/// One of the 24 codes of the wheel: a number from 1 to 12, then `A` or `B`.
pub open spec fn is_wheel_code(code: Seq<char>) -> bool {
    code.len() > 0 && (code.last() == 'A' || code.last() == 'B') && exists|n: int|
        1 <= n <= 12 && code.drop_last() == #[trigger] number_text(n)
}

/// The root whose name is `word`, if any.
pub open spec fn root_named(word: Seq<char>) -> Option<int> {
    if exists|r: int| 0 <= r < 12 && note_name(r) == word {
        Some(choose|r: int| 0 <= r < 12 && note_name(r) == word)
    } else {
        None
    }
}

/// The Camelot code for a key label: the root is the label's first word,
/// the mode is minor where the label contains "Minor"; "?" where the first
/// word names no root.
pub open spec fn camelot_for_label(label: Seq<char>) -> Seq<char> {
    match root_named(first_word(label)) {
        Some(r) => camelot_text(
            MusicalKey {
                root: r as u8,
                mode: if contains_seq(label, minor_word()) {
                    Mode::Minor
                } else {
                    Mode::Major
                },
            },
        ),
        None => seq!['?'],
    }
}

/// The name of a root, for `root < 12`.
pub fn note_name_str(root: u8) -> (r: &'static str)
    requires
        root < 12,
    ensures
        r@ == note_name(root as int),
{
    match root {
        0 => {
            proof { reveal_strlit("C"); }
            "C"
        },
        1 => {
            proof { reveal_strlit("C#"); }
            "C#"
        },
        2 => {
            proof { reveal_strlit("D"); }
            "D"
        },
        3 => {
            proof { reveal_strlit("D#"); }
            "D#"
        },
        4 => {
            proof { reveal_strlit("E"); }
            "E"
        },
        5 => {
            proof { reveal_strlit("F"); }
            "F"
        },
        6 => {
            proof { reveal_strlit("F#"); }
            "F#"
        },
        7 => {
            proof { reveal_strlit("G"); }
            "G"
        },
        8 => {
            proof { reveal_strlit("G#"); }
            "G#"
        },
        9 => {
            proof { reveal_strlit("A"); }
            "A"
        },
        10 => {
            proof { reveal_strlit("A#"); }
            "A#"
        },
        _ => {
            proof { reveal_strlit("B"); }
            "B"
        },
    }
}

fn camelot_number_of(root: u8) -> (r: u8)
    requires
        root < 12,
    ensures
        r as int == camelot_number(root as int),
        1 <= r <= 12,
{
    match root {
        0 => 8,
        1 => 3,
        2 => 10,
        3 => 5,
        4 => 12,
        5 => 7,
        6 => 2,
        7 => 9,
        8 => 4,
        9 => 11,
        10 => 6,
        _ => 1,
    }
}

fn number_str(n: u8) -> (r: &'static str)
    requires
        1 <= n <= 12,
    ensures
        r@ == number_text(n as int),
{
    match n {
        1 => {
            proof { reveal_strlit("1"); }
            "1"
        },
        2 => {
            proof { reveal_strlit("2"); }
            "2"
        },
        3 => {
            proof { reveal_strlit("3"); }
            "3"
        },
        4 => {
            proof { reveal_strlit("4"); }
            "4"
        },
        5 => {
            proof { reveal_strlit("5"); }
            "5"
        },
        6 => {
            proof { reveal_strlit("6"); }
            "6"
        },
        7 => {
            proof { reveal_strlit("7"); }
            "7"
        },
        8 => {
            proof { reveal_strlit("8"); }
            "8"
        },
        9 => {
            proof { reveal_strlit("9"); }
            "9"
        },
        10 => {
            proof { reveal_strlit("10"); }
            "10"
        },
        11 => {
            proof { reveal_strlit("11"); }
            "11"
        },
        _ => {
            proof { reveal_strlit("12"); }
            "12"
        },
    }
}

impl MusicalKey {
    /// The key's label, such as "F# Minor".
    pub fn label(&self) -> (r: String)
        requires
            self.wf(),
        ensures
            r@ == key_label_of(*self),
    {
        let mut s = String::from_str(note_name_str(self.root));
        match self.mode {
            Mode::Major => {
                proof { reveal_strlit(" Major"); }
                s.append(" Major");
            },
            Mode::Minor => {
                proof { reveal_strlit(" Minor"); }
                s.append(" Minor");
            },
        }
        assert(mode_suffix(self.mode) =~= match self.mode {
            Mode::Major => seq![' ', 'M', 'a', 'j', 'o', 'r'],
            Mode::Minor => seq![' ', 'M', 'i', 'n', 'o', 'r'],
        });
        s
    }

    /// The key's Camelot code, such as "11A".
    pub fn camelot_code(&self) -> (r: String)
        requires
            self.wf(),
        ensures
            r@ == camelot_text(*self),
    {
        let mut s = String::from_str(number_str(camelot_number_of(self.root)));
        match self.mode {
            Mode::Major => {
                proof { reveal_strlit("B"); }
                s.append("B");
            },
            Mode::Minor => {
                proof { reveal_strlit("A"); }
                s.append("A");
            },
        }
        s
    }
}

/// No two roots share a name.
proof fn lemma_note_names_distinct()
    ensures
        forall|a: int, b: int|
            0 <= a < 12 && 0 <= b < 12 && #[trigger] note_name(a) == #[trigger] note_name(b)
                ==> a == b,
{
    assert forall|a: int, b: int|
        0 <= a < 12 && 0 <= b < 12 && #[trigger] note_name(a) == #[trigger] note_name(b) implies a
        == b by {
        let x = note_name(a);
        let y = note_name(b);
        assert(x.len() == y.len());
        assert(x[0] == y[0]);
        if x.len() == 2 {
            assert(x[1] == y[1]);
        }
    }
}

proof fn lemma_root_named(r: int)
    requires
        0 <= r < 12,
    ensures
        root_named(note_name(r)) == Some(r),
{
    lemma_note_names_distinct();
}

/// The Camelot code for a key label such as "F# Minor": "?" where the
/// label's first word is not a note name.
pub fn to_camelot_key(key: &str) -> (r: String)
    ensures
        r@ == camelot_for_label(key@),
{
    let (a, b) = first_word_bounds(key);
    let ghost word = key@.subrange(a as int, b as int);
    let mut root: u8 = 0;
    while root < 12
        invariant
            root <= 12,
            word == first_word(key@),
            word == key@.subrange(a as int, b as int),
            a <= b <= key@.len(),
            forall|q: int| 0 <= q < root ==> note_name(q) != word,
        decreases 12 - root,
    {
        if range_equals(key, a, b, note_name_str(root)) {
            proof {
                reveal_strlit("Minor");
                lemma_root_named(root as int);
            }
            let minor = contains_str(key, "Minor");
            assert("Minor"@ =~= minor_word());
            let k = MusicalKey { root, mode: if minor { Mode::Minor } else { Mode::Major } };
            return k.camelot_code();
        }
        root = root + 1;
    }
    assert(!(exists|q: int| 0 <= q < 12 && note_name(q) == word));
    proof {
        reveal_strlit("?");
    }
    String::from_str("?")
}

/// A key's label leads back to the key's own Camelot code.
pub proof fn lemma_label_round_trip(key: MusicalKey)
    requires
        key.wf(),
    ensures
        camelot_for_label(key_label_of(key)) == camelot_text(key),
{
    let name = note_name(key.root as int);
    let suffix = mode_suffix(key.mode);
    let label = key_label_of(key);
    assert(name.len() == 1 || name.len() == 2);
    assert forall|i: int| 0 <= i < name.len() implies !is_space(#[trigger] name[i]) by {}
    assert(suffix[0] == ' ');
    lemma_first_word_of_prefix(name, suffix);
    lemma_root_named(key.root as int);
    match key.mode {
        Mode::Minor => {
            let at: int = name.len() as int + 1;
            assert(label.subrange(at, at + minor_word().len() as int) =~= minor_word());
            assert(contains_seq(label, minor_word()));
        },
        Mode::Major => {
            assert forall|i: int|
                0 <= i && i + minor_word().len() <= label.len() implies #[trigger] label.subrange(
                i,
                i + minor_word().len(),
            ) != minor_word() by {
                let piece = label.subrange(i, i + minor_word().len());
                if piece == minor_word() {
                    assert(piece[0] == label[i]);
                    assert(piece[1] == label[i + 1]);
                    if i < name.len() {
                        assert(label[i] == name[i]);
                    } else {
                        assert(label[i] == suffix[i - name.len()]);
                        assert(label[i + 1] == suffix[i + 1 - name.len()]);
                    }
                }
            }
            assert(!contains_seq(label, minor_word()));
        },
    }
}

/// Whatever the label, the code given for it is one of the 24 codes of the
/// wheel, or "?".
pub proof fn lemma_camelot_for_label_valid(label: Seq<char>)
    ensures
        camelot_for_label(label) == seq!['?'] || is_wheel_code(camelot_for_label(label)),
{
    match root_named(first_word(label)) {
        Some(r) => {
            let code = camelot_for_label(label);
            let n = camelot_number(r);
            assert(0 <= r < 12);
            assert(code.drop_last() =~= number_text(n));
            assert(1 <= n <= 12);
        },
        None => {},
    }
}

} // verus!
