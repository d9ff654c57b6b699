use noodle::color::NamedColor;

#[test]
fn color_match() {
    assert_eq!(NamedColor::Aqua, NamedColor::Cyan);
    assert_eq!(NamedColor::Fuchsia, NamedColor::Magenta);
}

#[test]
fn rgb_values() {
    assert_eq!(NamedColor::Black.rgb(), 0x00_00_00);
    assert_eq!(NamedColor::White.rgb(), 0xFF_FF_FF);
    assert_eq!(NamedColor::CornflowerBlue.rgb(), 0x64_95_ED);
    assert_eq!(NamedColor::LightGray.rgb(), 0xD3_D3_D3);
    assert_ne!(NamedColor::DimGray, NamedColor::DarkGray);
}

#[test]
fn rgb_channels() {
    let c = NamedColor::CornflowerBlue;
    assert_eq!(c.red(), 0x64);
    assert_eq!(c.green(), 0x95);
    assert_eq!(c.blue(), 0xED);
}
