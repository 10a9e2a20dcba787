use glowing_waffle::renderer::ColorMode;
use glowing_waffle::text::same_text;
use glowing_waffle::waffle::Size;

#[test]
fn sizes_are_named_small_and_large() {
    assert_eq!(Size::from_name("small"), Size::Small);
    assert_eq!(Size::from_name("large"), Size::Large);
}

#[test]
fn every_other_size_name_means_medium() {
    assert_eq!(Size::from_name("medium"), Size::Medium);
    assert_eq!(Size::from_name(""), Size::Medium);
    assert_eq!(Size::from_name("Small"), Size::Medium);
    assert_eq!(Size::from_name("small "), Size::Medium);
    assert_eq!(Size::from_name("smal"), Size::Medium);
    assert_eq!(Size::from_name("largest"), Size::Medium);
    assert_eq!(Size::from_name("gro\u{df}"), Size::Medium);
}

#[test]
fn colour_modes_are_named_rainbow_and_fire() {
    assert_eq!(ColorMode::from_name("rainbow"), ColorMode::Rainbow);
    assert_eq!(ColorMode::from_name("fire"), ColorMode::Fire);
}

#[test]
fn every_other_colour_name_means_normal() {
    assert_eq!(ColorMode::from_name("normal"), ColorMode::Normal);
    assert_eq!(ColorMode::from_name(""), ColorMode::Normal);
    assert_eq!(ColorMode::from_name("Fire"), ColorMode::Normal);
    assert_eq!(ColorMode::from_name("fir"), ColorMode::Normal);
    assert_eq!(ColorMode::from_name("rainbows"), ColorMode::Normal);
}

#[test]
fn texts_are_the_same_character_by_character() {
    assert!(same_text("", ""));
    assert!(same_text("waffle", "waffle"));
    assert!(same_text("caf\u{e9} \u{1f9c7}", "caf\u{e9} \u{1f9c7}"));
    assert!(!same_text("waffle", "waffl"));
    assert!(!same_text("waffle", "waffla"));
    assert!(!same_text("", " "));
    assert!(!same_text("\u{e9}", "e"));
    // the same number of characters, though not of bytes
    assert!(!same_text("\u{e9}a", "ea"));
    assert!(!same_text("ab", "\u{e9}"));
}
