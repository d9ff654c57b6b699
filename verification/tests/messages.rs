use noodle::dcomp::Insert;
use noodle::dwrite::{FontStretch, FontStyle, FontWeight, ParagraphAlignment, TextAlignment};
use noodle::winuser::{MessageKind, WM_DESTROY, WM_PAINT, WM_SIZE};

#[test]
fn decode_known_messages() {
    assert_eq!(MessageKind::from_raw(WM_DESTROY, 0, 0), MessageKind::Destroy);
    assert_eq!(MessageKind::from_raw(WM_PAINT, 0, 0), MessageKind::Paint);
    let packed = (7isize << 16) | 9;
    assert_eq!(
        MessageKind::from_raw(WM_SIZE, 0, packed),
        MessageKind::Size { width: 9, height: 7 }
    );
    assert_eq!(
        MessageKind::from_raw(0x0010, 3, 4),
        MessageKind::Other { msg: 0x0010, wparam: 3, lparam: 4 }
    );
}

#[test]
fn encode_matches_decode() {
    let kinds = [
        MessageKind::Destroy,
        MessageKind::Paint,
        MessageKind::Size { width: 800, height: 600 },
        MessageKind::Other { msg: 0x0400, wparam: 1, lparam: -5 },
    ];
    for k in kinds {
        let (msg, wparam, lparam) = k.to_raw();
        assert_eq!(MessageKind::from_raw(msg, wparam, lparam), k);
    }
}

#[test]
fn font_codes() {
    assert_eq!(FontWeight::Bold.value(), 700);
    assert_eq!(FontWeight::Thin.value(), 100);
    assert_eq!(FontStretch::Normal.value(), 5);
    assert_eq!(FontStyle::Italic.value(), 2);
    assert_eq!(TextAlignment::Center.value(), 2);
    assert_eq!(ParagraphAlignment::Far.value(), 1);
    assert_eq!(Insert::Above.value(), 1);
    assert_eq!(Insert::Below.value(), 0);
}
