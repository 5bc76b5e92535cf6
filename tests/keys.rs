use jellyfin_audio::camelot::harmonically_compatible;
use jellyfin_audio::key::{note_name_str, to_camelot_key, Mode, MusicalKey};

const WHEEL: [&str; 24] = [
    "1A", "2A", "3A", "4A", "5A", "6A", "7A", "8A", "9A", "10A", "11A", "12A", "1B", "2B", "3B",
    "4B", "5B", "6B", "7B", "8B", "9B", "10B", "11B", "12B",
];

#[test]
fn labels_name_root_and_mode() {
    let k = MusicalKey { root: 6, mode: Mode::Minor };
    assert_eq!(k.label(), "F# Minor");
    let k = MusicalKey { root: 0, mode: Mode::Major };
    assert_eq!(k.label(), "C Major");
    assert_eq!(note_name_str(10), "A#");
}

#[test]
fn major_keys_map_to_the_b_wheel() {
    let expected = ["8B", "3B", "10B", "5B", "12B", "7B", "2B", "9B", "4B", "11B", "6B", "1B"];
    for root in 0..12u8 {
        let k = MusicalKey { root, mode: Mode::Major };
        assert_eq!(k.camelot_code(), expected[root as usize]);
    }
}

#[test]
fn minor_keys_map_to_the_a_wheel_in_the_same_order() {
    let expected = ["8A", "3A", "10A", "5A", "12A", "7A", "2A", "9A", "4A", "11A", "6A", "1A"];
    for root in 0..12u8 {
        let k = MusicalKey { root, mode: Mode::Minor };
        assert_eq!(k.camelot_code(), expected[root as usize]);
    }
}

#[test]
fn every_detected_key_round_trips_to_a_wheel_code() {
    for root in 0..12u8 {
        for mode in [Mode::Major, Mode::Minor] {
            let k = MusicalKey { root, mode };
            let code = to_camelot_key(&k.label());
            assert_eq!(code, k.camelot_code());
            assert!(WHEEL.contains(&code.as_str()));
        }
    }
}

#[test]
fn label_text_to_camelot() {
    assert_eq!(to_camelot_key("A Minor"), "11A");
    assert_eq!(to_camelot_key("F# Major"), "2B");
    assert_eq!(to_camelot_key("  C\tMinor "), "8A");
    assert_eq!(to_camelot_key("D#"), "5B");
}

#[test]
fn unknown_labels_give_question_mark() {
    assert_eq!(to_camelot_key("H Major"), "?");
    assert_eq!(to_camelot_key(""), "?");
    assert_eq!(to_camelot_key("   "), "?");
    assert_eq!(to_camelot_key("C#m Minor"), "?");
}

#[test]
fn same_code_is_compatible() {
    assert!(harmonically_compatible("8B", "8B"));
    assert!(harmonically_compatible("11A", "11A"));
}

#[test]
fn unknown_codes_are_never_compatible() {
    assert!(!harmonically_compatible("?", "8B"));
    assert!(!harmonically_compatible("8B", "?"));
    assert!(!harmonically_compatible("?", "?"));
}

#[test]
fn neighbour_numbers_are_compatible_in_both_directions() {
    assert!(harmonically_compatible("1B", "8B"));
    assert!(harmonically_compatible("8B", "1B"));
    assert!(harmonically_compatible("6A", "7B"));
    assert!(harmonically_compatible("7B", "6A"));
}

#[test]
fn compatibility_is_not_symmetric() {
    assert!(harmonically_compatible("5A", "8B"));
    assert!(!harmonically_compatible("8B", "5A"));
    assert!(harmonically_compatible("4A", "1B"));
    assert!(!harmonically_compatible("4B", "1A"));
}

#[test]
fn same_number_other_letter_is_not_compatible() {
    assert!(!harmonically_compatible("8A", "8B"));
    assert!(!harmonically_compatible("3B", "4B"));
}

#[test]
fn numbers_twelve_apart_on_one_wheel_are_compatible() {
    assert!(harmonically_compatible("13B", "1B"));
    assert!(!harmonically_compatible("13B", "1A"));
}

#[test]
fn unreadable_numbers_count_as_zero() {
    assert!(harmonically_compatible("xB", "12B"));
    assert!(harmonically_compatible("+5A", "8B"));
    assert!(!harmonically_compatible("", "5B"));
}
