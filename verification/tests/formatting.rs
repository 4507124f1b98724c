use novus_writer::formatting::{Alignment, Color, FontFamily, TextFormat};
use novus_writer::alpha::alpha_fraction;

#[test]
fn text_format_flags_add_remove_toggle() {
    let mut f = TextFormat::none();
    assert!(!f.has(TextFormat::bold()));
    f.add(TextFormat::bold());
    f.add(TextFormat::italic());
    assert!(f.has(TextFormat::bold()));
    assert!(f.has(TextFormat::italic()));
    assert!(!f.has(TextFormat::underline()));
    assert_eq!(f.0, 3);
    f.remove(TextFormat::bold());
    assert!(!f.has(TextFormat::bold()));
    assert!(f.has(TextFormat::italic()));
    f.toggle(TextFormat::highlight());
    assert_eq!(f.0, 2 | 128);
    f.toggle(TextFormat::highlight());
    assert_eq!(f.0, 2);
    f.clear();
    assert_eq!(f.0, 0);
}

#[test]
fn text_format_flag_values() {
    assert_eq!(TextFormat::bold().0, 1);
    assert_eq!(TextFormat::italic().0, 2);
    assert_eq!(TextFormat::underline().0, 4);
    assert_eq!(TextFormat::strikethrough().0, 8);
    assert_eq!(TextFormat::superscript().0, 16);
    assert_eq!(TextFormat::subscript().0, 32);
    assert_eq!(TextFormat::small_caps().0, 64);
    assert_eq!(TextFormat::highlight().0, 128);
}

#[test]
fn alignment_defaults_to_left() {
    assert_eq!(Alignment::default(), Alignment::Left);
}

#[test]
fn font_family_keeps_name_and_stack() {
    let f = FontFamily::new("Georgia", "Georgia, serif");
    assert_eq!(f.name, "Georgia");
    assert_eq!(f.stack, "Georgia, serif");
}

#[test]
fn color_to_css_opaque_is_hex() {
    assert_eq!(Color::from_rgb(255, 0, 128).to_css(), "#ff0080");
    assert_eq!(Color::new(1, 2, 3, 255).to_css(), "#010203");
}

#[test]
fn color_to_css_translucent_is_rgba() {
    assert_eq!(Color::new(10, 20, 30, 0).to_css(), "rgba(10, 20, 30, 0)");
    assert_eq!(Color::new(255, 255, 255, 128).to_css(), "rgba(255, 255, 255, 0.5019608)");
}

#[test]
fn alpha_fraction_matches_float_formatting() {
    for a in 0u8..=255 {
        let expected = format!("{}", a as f32 / 255.0);
        assert_eq!(alpha_fraction(a), expected, "alpha {}", a);
    }
}

#[test]
fn color_from_hex_forms() {
    assert_eq!(Color::from_hex("#ff0080"), Some(Color::new(255, 0, 128, 255)));
    assert_eq!(Color::from_hex("ff008040"), Some(Color::new(255, 0, 128, 64)));
    assert_eq!(Color::from_hex("##ABCDEF"), Some(Color::new(171, 205, 239, 255)));
    assert_eq!(Color::from_hex("#fff"), None);
    assert_eq!(Color::from_hex("#gg0000"), None);
    assert_eq!(Color::from_hex("+f0000"), Some(Color::new(15, 0, 0, 255)));
}

#[test]
fn color_hex_round_trip() {
    for &(r, g, b) in &[(0u8, 0u8, 0u8), (255, 255, 255), (18, 52, 86), (171, 205, 239)] {
        let c = Color::from_rgb(r, g, b);
        assert_eq!(Color::from_hex(&c.to_css()), Some(c));
    }
}

#[test]
fn predefined_fonts_and_colors() {
    assert_eq!(FontFamily::calibri().stack, "Calibri, Candara, Segoe, sans-serif");
    assert_eq!(FontFamily::times_new_roman().stack, "\"Times New Roman\", Times, serif");
    assert_eq!(FontFamily::consolas().name, "Consolas");
    assert_eq!(FontFamily::comic_sans().stack, "\"Comic Sans MS\", cursive, sans-serif");
    assert_eq!(Color::transparent(), Color::new(0, 0, 0, 0));
    assert_eq!(Color::black().to_css(), "#000000");
    assert_eq!(Color::white().to_css(), "#ffffff");
    assert_eq!(Color::red(), Color::from_rgb(255, 0, 0));
    assert_eq!(Color::green(), Color::from_rgb(0, 255, 0));
    assert_eq!(Color::blue(), Color::from_rgb(0, 0, 255));
    assert_eq!(Color::yellow(), Color::from_rgb(255, 255, 0));
}

#[test]
fn try_from_hex_refuses_pairs_that_split_characters() {
    assert_eq!(Color::try_from_hex("#ff0080"), Some(Some(Color::new(255, 0, 128, 255))));
    assert_eq!(Color::try_from_hex("#fff"), Some(None));
    // "é" takes two bytes, so "aé" + "bcd" is six bytes whose second pair splits "é".
    assert_eq!(Color::try_from_hex("aébcd"), None);
    assert_eq!(Color::try_from_hex("ééé"), Some(None));
}
