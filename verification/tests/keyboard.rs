use status_console::keyboard::{delivered, Binding, Key, KeyTable};

#[test]
fn key_table_maps_every_known_code() {
    assert_eq!(Key::from_u32(183), Some(Key::LCD1));
    assert_eq!(Key::from_u32(184), Some(Key::LCD2));
    assert_eq!(Key::from_u32(185), Some(Key::LCD3));
    assert_eq!(Key::from_u32(186), Some(Key::LCD4));
    assert_eq!(Key::from_u32(187), Some(Key::Abort));
    assert_eq!(Key::from_u32(188), Some(Key::Execute));
    assert_eq!(Key::from_u32(70), Some(Key::Danger));
    assert_eq!(Key::from_u32(194), Some(Key::Slider(0)));
    assert_eq!(Key::from_u32(193), Some(Key::Slider(1)));
    assert_eq!(Key::from_u32(192), Some(Key::Slider(2)));
    assert_eq!(Key::from_u32(191), Some(Key::Slider(3)));
    assert_eq!(Key::from_u32(190), Some(Key::Slider(4)));
    assert_eq!(Key::from_u32(189), Some(Key::Slider(5)));
}

#[test]
fn unknown_codes_are_dropped() {
    assert_eq!(Key::from_u32(0), None);
    assert_eq!(Key::from_u32(69), None);
    assert_eq!(Key::from_u32(71), None);
    assert_eq!(Key::from_u32(182), None);
    assert_eq!(Key::from_u32(195), None);
    assert_eq!(Key::from_u32(u32::MAX), None);
}

#[test]
fn only_key_down_delivers() {
    assert_eq!(delivered(187, true), Some(Key::Abort));
    assert_eq!(delivered(187, false), None);
    assert_eq!(delivered(189, true), Some(Key::Slider(5)));
    assert_eq!(delivered(189, false), None);
    assert_eq!(delivered(1, true), None);
}

#[test]
fn the_standard_table_agrees_with_the_key_codes() {
    let table = KeyTable::standard();
    assert_eq!(table.bindings.len(), 13);
    for code in 0..400u32 {
        assert_eq!(table.key(code), Key::from_u32(code));
        assert_eq!(table.delivered(code, true), delivered(code, true));
        assert_eq!(table.delivered(code, false), None);
    }
}

#[test]
fn another_panel_brings_its_own_table() {
    let table = KeyTable {
        bindings: vec![
            Binding { code: 30, key: Key::Execute },
            Binding { code: 31, key: Key::Slider(3) },
            Binding { code: 30, key: Key::Abort },
        ],
    };
    assert_eq!(table.key(30), Some(Key::Execute));
    assert_eq!(table.key(31), Some(Key::Slider(3)));
    assert_eq!(table.key(183), None);
    assert_eq!(table.delivered(31, false), None);
    assert_eq!(KeyTable { bindings: Vec::new() }.key(30), None);
}
