//! Our cell width must equal the `wcwidth()` the application on the other end called.
//!
//! The expected widths below are what the platform's `wcwidth` reports for each
//! codepoint, summed: spacing and non-spacing marks occupy no cell, wide characters two.

use bab::{char_cells, cluster_cells};

/// Each sample with the sum of the platform `wcwidth` over its codepoints.
const SAMPLES: &[(&str, usize)] = &[
    ("প্রধানমন্ত্রী", 8),
    ("বাংলা", 2),
    ("ব্ল", 2),
    ("ক্ষ", 2),
    ("কি", 1),
    ("র্ক", 2),
    ("স্ত্র", 3),
    ("hello", 5),
    ("héllo", 5),
    ("世界", 4),
    ("e\u{301}", 1),
];

#[test]
fn our_width_agrees_with_the_system_wcwidth() {
    for (text, system_width) in SAMPLES {
        assert_eq!(
            cluster_cells(text),
            *system_width,
            "width mismatch for {text:?}: bab={} wcwidth={}",
            cluster_cells(text),
            system_width,
        );
    }
}

/// The specific disagreement that corrupted the screen. `unicode-width` calls this
/// character one cell wide; every application calls it zero.
#[test]
fn a_bengali_spacing_vowel_sign_occupies_no_cell() {
    assert_eq!(
        char_cells('\u{09C0}'),
        0,
        "BENGALI VOWEL SIGN II must be zero width"
    );
    assert_eq!(
        char_cells('\u{09BE}'),
        0,
        "BENGALI VOWEL SIGN AA must be zero width"
    );
    assert_eq!(
        char_cells('\u{09CD}'),
        0,
        "BENGALI SIGN VIRAMA must be zero width"
    );
}

#[test]
fn zero_width_joiners_occupy_no_cell() {
    assert_eq!(char_cells('\u{200D}'), 0);
    assert_eq!(char_cells('\u{200C}'), 0);
}

/// The word that exposed the bug: eight cells, not nine.
#[test]
fn the_word_that_broke_it_is_eight_cells() {
    assert_eq!(cluster_cells("প্রধানমন্ত্রী"), 8);
}

#[test]
fn wide_characters_still_take_two_cells() {
    assert_eq!(char_cells('世'), 2);
    assert_eq!(cluster_cells("世界"), 4);
}
