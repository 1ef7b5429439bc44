//! Parsing colors: every common spelling, and nothing else.

use bab::config::Color;

#[test]
fn colors_parse_in_every_common_spelling() {
    assert_eq!(
        Color::parse("#7aa2f7").unwrap(),
        Color::new(0x7a, 0xa2, 0xf7)
    );
    assert_eq!(
        Color::parse("7aa2f7").unwrap(),
        Color::new(0x7a, 0xa2, 0xf7)
    );
    assert_eq!(Color::parse("#ABC").unwrap(), Color::new(0xaa, 0xbb, 0xcc));
    assert_eq!(
        Color::parse("  #7AA2F7  ").unwrap(),
        Color::new(0x7a, 0xa2, 0xf7)
    );
}

#[test]
fn nonsense_is_not_a_color() {
    assert!(Color::parse("").is_err());
    assert!(Color::parse("#12345").is_err());
    assert!(Color::parse("#gggggg").is_err());
    assert!(Color::parse("rebeccapurple").is_err());
}
