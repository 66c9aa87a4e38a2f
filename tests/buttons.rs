use handheld_emu::button::{gb_button, gba_key, ButtonType, GbButton, GbaKey, Platform};

const ALL: [ButtonType; 10] = [
    ButtonType::A,
    ButtonType::B,
    ButtonType::Up,
    ButtonType::Down,
    ButtonType::Left,
    ButtonType::Right,
    ButtonType::Select,
    ButtonType::Start,
    ButtonType::L,
    ButtonType::R,
];

#[test]
fn gb_maps_eight_buttons() {
    assert_eq!(gb_button(ButtonType::A), Some(GbButton::A));
    assert_eq!(gb_button(ButtonType::B), Some(GbButton::B));
    assert_eq!(gb_button(ButtonType::Up), Some(GbButton::Up));
    assert_eq!(gb_button(ButtonType::Down), Some(GbButton::Down));
    assert_eq!(gb_button(ButtonType::Left), Some(GbButton::Left));
    assert_eq!(gb_button(ButtonType::Right), Some(GbButton::Right));
    assert_eq!(gb_button(ButtonType::Select), Some(GbButton::Select));
    assert_eq!(gb_button(ButtonType::Start), Some(GbButton::Start));
}

#[test]
fn gb_drops_shoulder_buttons() {
    assert_eq!(gb_button(ButtonType::L), None);
    assert_eq!(gb_button(ButtonType::R), None);
    assert!(!Platform::Handheld8.supports(ButtonType::L));
    assert!(!Platform::Handheld8.supports(ButtonType::R));
}

#[test]
fn gba_maps_all_ten_to_distinct_keys() {
    let keys: Vec<GbaKey> = ALL.iter().map(|&b| gba_key(b)).collect();
    for i in 0..keys.len() {
        for j in 0..keys.len() {
            assert_eq!(keys[i] == keys[j], i == j);
        }
    }
    assert_eq!(gba_key(ButtonType::L), GbaKey::L);
    assert_eq!(gba_key(ButtonType::R), GbaKey::R);
    assert_eq!(gba_key(ButtonType::Start), GbaKey::Start);
}

#[test]
fn supported_sets() {
    let gb = ALL.iter().filter(|&&b| Platform::Handheld8.supports(b)).count();
    let gba = ALL.iter().filter(|&&b| Platform::Handheld32.supports(b)).count();
    assert_eq!(gb, 8);
    assert_eq!(gba, 10);
    for b in ALL {
        assert_eq!(gb_button(b).is_some(), Platform::Handheld8.supports(b));
    }
}

#[test]
fn mapping_is_stable_under_repeated_calls() {
    for b in ALL {
        assert_eq!(gb_button(b), gb_button(b));
        assert_eq!(gba_key(b), gba_key(b));
    }
}
