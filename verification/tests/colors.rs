use trovochat::color::{trovo_colors, Trovo, RGB};

#[test]
fn from_hex_parses_both_spellings() {
    assert_eq!(RGB::from_hex("#0000FF"), RGB(0x00, 0x00, 0xFF));
    assert_eq!(RGB::from_hex("0000FF"), RGB(0x00, 0x00, 0xFF));
    assert_eq!(RGB::from_hex("  #ab01ef  "), RGB(0xAB, 0x01, 0xEF));
}

#[test]
fn from_hex_defaults_to_white() {
    assert_eq!(RGB::from_hex(""), RGB(255, 255, 255));
    assert_eq!(RGB::from_hex("#12345"), RGB(255, 255, 255));
    assert_eq!(RGB::from_hex("nothex"), RGB(255, 255, 255));
    assert_eq!(RGB::from_hex("#GG0000"), RGB(255, 255, 255));
    assert_eq!(RGB::default(), RGB(255, 255, 255));
}

#[test]
fn components() {
    let c = RGB(1, 2, 3);
    assert_eq!(c.red(), 1);
    assert_eq!(c.green(), 2);
    assert_eq!(c.blue(), 3);
}

#[test]
fn hex_string_round_trips() {
    let c = RGB(0xAD, 0xFF, 0x2F);
    assert_eq!(c.hex_string(), "#ADFF2F");
    assert_eq!(RGB::from_hex(&c.hex_string()), c);
}

#[test]
fn palette_has_fifteen_named_colors() {
    let palette = trovo_colors();
    assert_eq!(palette.len(), 15);
    assert_eq!(palette[0], (Trovo::Blue, RGB(0x00, 0x00, 0xFF)));
    for (name, rgb) in palette {
        assert_eq!(name.into_rgb(), rgb);
        assert_eq!(Trovo::from_rgb(rgb), name);
    }
}

#[test]
fn unknown_triplets_become_turbo() {
    let odd = RGB(1, 2, 3);
    assert_eq!(Trovo::from_rgb(odd), Trovo::Turbo(odd));
    assert_eq!(Trovo::Turbo(odd).into_rgb(), odd);
}

#[test]
fn from_name_accepts_the_spellings() {
    assert_eq!(Trovo::from_name("Blue"), Trovo::Blue);
    assert_eq!(Trovo::from_name("blue_violet"), Trovo::BlueViolet);
    assert_eq!(Trovo::from_name("cadet blue"), Trovo::CadetBlue);
    assert_eq!(Trovo::from_name("yellowgreen"), Trovo::YellowGreen);
    assert_eq!(
        Trovo::from_name("#FF4500"),
        Trovo::Turbo(RGB(0xFF, 0x45, 0x00))
    );
    assert_eq!(
        Trovo::from_name("no such color"),
        Trovo::Turbo(RGB(255, 255, 255))
    );
}

#[test]
fn color_names() {
    assert_eq!(Trovo::Blue.name(), "Blue");
    assert_eq!(Trovo::GoldenRod.name(), "GoldenRod");
    assert_eq!(Trovo::Turbo(RGB(0, 0, 0)).name(), "#000000");
}
