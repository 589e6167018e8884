use wingui::colors::{Color, NamedColor};

#[test]
fn from_int_splits_the_word_into_channels() {
    assert_eq!(Color::from_int(0x0102_0304), Color(1, 2, 3, 4));
    assert_eq!(Color::from_int(0), Color(0, 0, 0, 0));
    assert_eq!(Color::from_int(0xffff_ffff), Color(255, 255, 255, 255));
    assert_eq!(Color::from_int(0xff00_0000), Color(255, 0, 0, 0));
    assert_eq!(Color::from_int(0x0000_00ff), Color(0, 0, 0, 255));
}

#[test]
fn to_int_packs_alpha_high_and_blue_low() {
    assert_eq!(Color(1, 2, 3, 4).to_int(), 0x0102_0304);
    assert_eq!(Color(0, 255, 0, 0).to_int(), 0x00ff_0000);
    assert_eq!(Color(0, 0, 255, 0).to_int(), 0x0000_ff00);
    assert_eq!(Color(0, 0, 0, 255).to_int(), 0x0000_00ff);
    assert_eq!(Color(255, 0, 0, 0).to_int(), 0xff00_0000);
}

#[test]
fn color_round_trips_through_its_word() {
    let samples = [
        Color(0, 0, 0, 0),
        Color(255, 255, 255, 255),
        Color(1, 2, 3, 4),
        Color(0, 50, 50, 50),
        Color(128, 0, 255, 1),
        Color(255, 0, 0, 0),
    ];
    for c in samples.iter() {
        assert_eq!(Color::from_int(c.to_int()), *c);
    }
}

#[test]
fn word_round_trips_through_its_color() {
    let mut i: u32 = 0;
    for _ in 0..1000 {
        assert_eq!(Color::from_int(i).to_int(), i);
        i = i.wrapping_mul(1_664_525).wrapping_add(1_013_904_223);
    }
    assert_eq!(Color::from_int(u32::MAX).to_int(), u32::MAX);
}

#[test]
fn from_rbg_has_no_alpha() {
    assert_eq!(Color::from_rbg(10, 20, 30), Color(0, 10, 20, 30));
    assert_eq!(Color::from_rbg(10, 20, 30).to_int(), 0x000a_141e);
}

#[test]
fn named_colors_have_their_channels() {
    assert_eq!(NamedColor::White.color(), Color(0, 255, 255, 255));
    assert_eq!(NamedColor::Black.color(), Color(0, 0, 0, 0));
    assert_eq!(NamedColor::Red.color(), Color(0, 255, 0, 0));
    assert_eq!(NamedColor::Green.color(), Color(0, 0, 255, 0));
    assert_eq!(NamedColor::Blue.color(), Color(0, 0, 0, 255));
    assert_eq!(NamedColor::DarkGray.color(), Color(0, 50, 50, 50));
    assert_eq!(NamedColor::Gray.color(), Color(0, 100, 100, 100));
    assert_eq!(NamedColor::LightGray.color(), Color(0, 200, 200, 200));
    assert_eq!(NamedColor::White.color().to_int(), 0x00ff_ffff);
}
