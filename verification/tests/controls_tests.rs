use pong::controls::{
    listen_for_keys, ControlMap, ControlRemapping, GameAction, KEY_ARROW_DOWN, KEY_ARROW_UP,
    KEY_ESCAPE, KEY_S, KEY_W,
};

#[test]
fn default_map_has_the_stock_bindings() {
    let m = ControlMap::default_input_map();
    assert_eq!(m.get(GameAction::Player1Up), Some(KEY_ARROW_UP));
    assert_eq!(m.get(GameAction::Player1Down), Some(KEY_ARROW_DOWN));
    assert_eq!(m.get(GameAction::Player2Up), Some(KEY_W));
    assert_eq!(m.get(GameAction::Player2Down), Some(KEY_S));
    assert_eq!(m.get(GameAction::Menu), Some(KEY_ESCAPE));
}

#[test]
fn insert_overwrites_and_clear_removes() {
    let mut m = ControlMap::default_input_map();
    m.insert(GameAction::Menu, 123);
    assert_eq!(m.get(GameAction::Menu), Some(123));
    assert_eq!(m.get(GameAction::Player1Up), Some(KEY_ARROW_UP));
    m.clear_action(GameAction::Menu);
    assert_eq!(m.get(GameAction::Menu), None);
}

#[test]
fn one_key_press_rebinds_and_stops_listening() {
    // Start a remap, press one key: exactly that action is bound to exactly
    // that key, any prior binding overwritten, and the listener goes
    // inactive.
    let mut map = ControlMap::default_input_map();
    let mut remap = ControlRemapping::start_remapping(GameAction::Player1Up);
    listen_for_keys(&mut remap, &mut map, &vec![42]);
    assert_eq!(map.get(GameAction::Player1Up), Some(42));
    assert_eq!(map.get(GameAction::Player1Down), Some(KEY_ARROW_DOWN));
    assert_eq!(map.get(GameAction::Player2Up), Some(KEY_W));
    assert_eq!(map.get(GameAction::Player2Down), Some(KEY_S));
    assert_eq!(map.get(GameAction::Menu), Some(KEY_ESCAPE));

    // A second key press with the listener inactive has no effect at all.
    listen_for_keys(&mut remap, &mut map, &vec![77]);
    assert_eq!(map.get(GameAction::Player1Up), Some(42));
    assert_eq!(map.get(GameAction::Player1Down), Some(KEY_ARROW_DOWN));
    assert_eq!(map.get(GameAction::Menu), Some(KEY_ESCAPE));
}

#[test]
fn listener_waits_while_no_key_is_pressed() {
    let mut map = ControlMap::default_input_map();
    let mut remap = ControlRemapping::start_remapping(GameAction::Player2Down);
    listen_for_keys(&mut remap, &mut map, &vec![]);
    assert_eq!(map.get(GameAction::Player2Down), Some(KEY_S));
    // Still listening: the next press lands.
    listen_for_keys(&mut remap, &mut map, &vec![9]);
    assert_eq!(map.get(GameAction::Player2Down), Some(9));
}

#[test]
fn several_keys_in_one_frame_leave_the_last_binding() {
    let mut map = ControlMap::default_input_map();
    let mut remap = ControlRemapping::start_remapping(GameAction::Menu);
    listen_for_keys(&mut remap, &mut map, &vec![5, 6, 7]);
    assert_eq!(map.get(GameAction::Menu), Some(7));
}

#[test]
fn stop_remapping_forgets_the_chosen_action() {
    let mut remap = ControlRemapping::start_remapping(GameAction::Menu);
    remap.stop_remapping();
    let mut map = ControlMap::default_input_map();
    listen_for_keys(&mut remap, &mut map, &vec![50]);
    assert_eq!(map.get(GameAction::Menu), Some(KEY_ESCAPE));
}
