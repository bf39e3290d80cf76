use dgews::common::{Astring, Point, Size, Theme, Wstring};
use dgews::windowbuilder::WindowBuilder;

#[test]
fn wstring_length_counts_code_units_without_terminator() {
    let w = Wstring::from("Rust Lang");
    assert_eq!(w.len(), 9);
    assert_eq!(Wstring::new().len(), 0);
}

#[test]
fn wstring_set_and_push_rebuild_the_content() {
    let mut w = Wstring::new();
    w.set("Hello");
    assert_eq!(w.len(), 5);

    let mut title = Wstring::from("DGE");
    assert_eq!(title.len(), 3);
    title.set("DGEWS");
    assert_eq!(title.len(), 5);

    let mut p = Wstring::new();
    p.push("Hi");
    assert_eq!(p.len(), 2);
    p.push(" there");
    assert_eq!(p.len(), 8);
    assert_eq!(p, Wstring::from("Hi there"));
}

#[test]
fn wstring_encodes_utf16_with_surrogate_pairs() {
    let w = Wstring::from("a");
    assert_eq!(w.units(), vec![0x61, 0]);

    // U+1D11E (musical G clef) encodes as a surrogate pair.
    let clef = "\u{1D11E}";
    let w = Wstring::from(clef);
    assert_eq!(w.len(), 2);
    assert_eq!(w.units(), vec![0xD834, 0xDD1E, 0]);

    // U+00E9 stays a single unit.
    let w = Wstring::from("\u{00E9}");
    assert_eq!(w.units(), vec![0x00E9, 0]);
}

#[test]
fn wstring_units_appends_exactly_one_terminator() {
    let w = Wstring::from("ab");
    let units = w.units();
    assert_eq!(units.len(), 3);
    assert_eq!(units[2], 0);
    assert_eq!(units[0], 0x61);
    assert_eq!(units[1], 0x62);
}

#[test]
fn astring_length_counts_bytes_without_terminator() {
    let a = Astring::from("Rust Lang");
    assert_eq!(a.len(), 9);
    assert_eq!(Astring::new().len(), 0);
}

#[test]
fn astring_set_push_and_units() {
    let mut a = Astring::new();
    a.set("Hello");
    assert_eq!(a.len(), 5);
    a.push("!");
    assert_eq!(a.len(), 6);
    let units = a.units();
    assert_eq!(units, vec![72, 101, 108, 108, 111, 33, 0]);

    // Bytes above 0x7F come out as negative signed bytes.
    let high = Astring::from("\u{00FF}");
    assert_eq!(high.units(), vec![-61, -65, 0]);
}

#[test]
fn builder_defaults_match_the_documented_window() {
    let b = WindowBuilder::new();
    assert_eq!(&b.get_title(), "Direct Game Engine Window");
    assert_eq!(&b.get_icon(), "");
    assert_eq!(b.get_size(), Size::new(800, 640));
    assert_eq!(b.get_pos(), Point::new(0, 0));
    assert_eq!(b.get_x(), 0);
    assert_eq!(b.get_y(), 0);
    assert_eq!(b.get_width(), 800);
    assert_eq!(b.get_height(), 640);
    assert_eq!(b.get_theme(), Theme::Light);
    assert!(!b.is_resizable());
}

#[test]
fn builder_with_methods_replace_one_field_each() {
    let b = WindowBuilder::default()
        .with_title("My Window")
        .with_icon("assets/icon.ico")
        .with_pos(60, 50)
        .with_dimensions(1024, 768)
        .with_resizable(true)
        .with_theme(Theme::Dark);
    assert_eq!(&b.get_title(), "My Window");
    assert_eq!(&b.get_icon(), "assets/icon.ico");
    assert_eq!(b.get_pos(), Point::new(60, 50));
    assert_eq!(b.get_size(), Size::new(1024, 768));
    assert!(b.is_resizable());
    assert_eq!(b.get_theme(), Theme::Dark);
}

#[test]
fn builder_title_buffer_is_nul_terminated_utf16() {
    let b = WindowBuilder::new().with_title("Hi");
    assert_eq!(b.title(), vec![0x48, 0x69, 0]);
    let b = b.with_icon("i");
    assert_eq!(b.icon(), vec![0x69, 0]);
}

#[test]
fn value_type_defaults() {
    assert_eq!(Size::default(), Size::new(0, 0));
    assert_eq!(Point::default(), Point::new(0, 0));
    assert_eq!(Theme::default(), Theme::Light);
    let p = Point::new(56, 78);
    assert_eq!(p.x, 56);
    assert_eq!(p.y, 78);
    let s = Size::new(1366, 768);
    assert_eq!(s.width, 1366);
    assert_eq!(s.height, 768);
}
