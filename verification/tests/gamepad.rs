use chip8::gamepad::Gamepad;

#[test]
fn it_sets_key() {
    let mut gamepad = Gamepad::new();

    gamepad.set_key_down("a");
    assert!(gamepad.is_key_pressed("a"));
    assert!(gamepad.is_key_idx_pressed(8));
}

#[test]
fn it_unsets_key() {
    let mut gamepad = Gamepad::new();

    gamepad.set_key_down("a");
    gamepad.set_key_up("a");
    assert!(!gamepad.is_key_pressed("a"));
    assert!(!gamepad.is_key_idx_pressed(8));
}

#[test]
fn default_key_state_is_off() {
    let gamepad = Gamepad::new();

    assert!(!gamepad.is_key_pressed("a"));
}

#[test]
fn it_returns_first_pressed_idx() {
    let mut gamepad = Gamepad::new();

    gamepad.set_key_down("2");
    gamepad.set_key_down("f");

    assert_eq!(gamepad.get_first_pressed_key_idx(), Some(1));
}

#[test]
fn it_returns_none_if_no_key_pressed() {
    let gamepad = Gamepad::new();

    assert_eq!(gamepad.get_first_pressed_key_idx(), None);
}

#[test]
fn key_names_are_case_insensitive() {
    let mut gamepad = Gamepad::new();

    gamepad.set_key_down("A");
    assert!(gamepad.is_key_idx_pressed(8));
    assert!(gamepad.is_key_pressed("a"));
    gamepad.set_key_up("a");
    assert!(!gamepad.is_key_idx_pressed(8));
}

#[test]
fn unmapped_key_is_ignored() {
    let mut gamepad = Gamepad::new();

    gamepad.set_key_down("p");
    assert!(!gamepad.is_key_pressed("p"));
    assert_eq!(gamepad.get_first_pressed_key_idx(), None);
    for idx in 0..16 {
        assert!(!gamepad.is_key_idx_pressed(idx));
    }
    gamepad.set_key_up("p");
    assert_eq!(gamepad.get_first_pressed_key_idx(), None);
}

#[test]
fn every_key_of_the_layout_maps_in_order() {
    let names = [
        "1", "2", "3", "4", "q", "w", "e", "r", "a", "s", "d", "f", "z", "x", "c", "v",
    ];
    for (idx, name) in names.iter().enumerate() {
        let mut gamepad = Gamepad::new();
        gamepad.set_key_down(name);
        assert!(gamepad.is_key_idx_pressed(idx));
        assert_eq!(gamepad.get_first_pressed_key_idx(), Some(idx));
    }
}

#[test]
fn multi_character_name_is_ignored() {
    let mut gamepad = Gamepad::new();

    gamepad.set_key_down("aa");
    assert_eq!(gamepad.get_first_pressed_key_idx(), None);
}
