use lofi_radio::keys::{intent_for_key, Intent, Key};

#[test]
fn volume_keys() {
    assert_eq!(intent_for_key(Key::F(11), false), Some(Intent::VolumeUp));
    assert_eq!(intent_for_key(Key::Up, false), Some(Intent::VolumeUp));
    assert_eq!(intent_for_key(Key::F(10), false), Some(Intent::VolumeDown));
    assert_eq!(intent_for_key(Key::Down, false), Some(Intent::VolumeDown));
}

#[test]
fn station_keys() {
    assert_eq!(intent_for_key(Key::F(7), false), Some(Intent::PrevStation));
    assert_eq!(intent_for_key(Key::Left, false), Some(Intent::PrevStation));
    assert_eq!(intent_for_key(Key::F(9), false), Some(Intent::NextStation));
    assert_eq!(intent_for_key(Key::Right, false), Some(Intent::NextStation));
}

#[test]
fn mute_keys() {
    assert_eq!(intent_for_key(Key::F(8), false), Some(Intent::ToggleMute));
    assert_eq!(intent_for_key(Key::F(12), false), Some(Intent::ToggleMute));
    assert_eq!(intent_for_key(Key::Char('m'), false), Some(Intent::ToggleMute));
    assert_eq!(intent_for_key(Key::Char('M'), false), Some(Intent::ToggleMute));
    assert_eq!(intent_for_key(Key::Char('m'), true), Some(Intent::ToggleMute));
}

#[test]
fn quit_keys() {
    assert_eq!(intent_for_key(Key::Char('q'), false), Some(Intent::Quit));
    assert_eq!(intent_for_key(Key::Char('Q'), false), Some(Intent::Quit));
    assert_eq!(intent_for_key(Key::Char('q'), true), Some(Intent::Quit));
    assert_eq!(intent_for_key(Key::Char('c'), true), Some(Intent::Quit));
    assert_eq!(intent_for_key(Key::Char('c'), false), None);
    assert_eq!(intent_for_key(Key::Char('C'), true), None);
}

#[test]
fn unbound_keys() {
    for n in [0u8, 1, 2, 3, 4, 5, 6, 13, 24, 255] {
        assert_eq!(intent_for_key(Key::F(n), false), None);
        assert_eq!(intent_for_key(Key::F(n), true), None);
    }
    for c in ['a', 'x', ' ', '\n', '+', '-', '\u{e9}'] {
        assert_eq!(intent_for_key(Key::Char(c), false), None);
    }
    assert_eq!(intent_for_key(Key::Other, false), None);
    assert_eq!(intent_for_key(Key::Other, true), None);
}
