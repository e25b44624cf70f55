use noter::{Player, FULL_VOLUME, KEY_DOWN, KEY_UP};

fn three_tracks() -> Player {
    let mut p = Player::new();
    assert_eq!(p.add_track("/m/one.mp3"), 0);
    assert_eq!(p.add_track("/m/two.wav"), 1);
    assert_eq!(p.add_track("three.ogg"), 2);
    p
}

#[test]
fn new_player_is_empty_paused_and_loud() {
    let p = Player::new();
    assert_eq!(p.track_count(), 0);
    assert_eq!(p.selected(), 0);
    assert!(!p.is_playing());
    assert_eq!(p.volume(), FULL_VOLUME);
    assert!(!p.is_muted());
}

#[test]
fn added_tracks_are_listed_by_file_name() {
    let p = three_tracks();
    assert_eq!(p.track_count(), 3);
    assert_eq!(p.label(0), "one.mp3");
    assert_eq!(p.label(1), "two.wav");
    assert_eq!(p.label(2), "three.ogg");
    assert_eq!(p.selected(), 0);
}

#[test]
fn arrows_move_selection_within_list() {
    let mut p = three_tracks();
    p.press_key(KEY_UP);
    assert_eq!(p.selected(), 0);
    p.press_key(KEY_DOWN);
    assert_eq!(p.selected(), 1);
    p.press_key(KEY_DOWN);
    assert_eq!(p.selected(), 2);
    p.press_key(KEY_DOWN);
    assert_eq!(p.selected(), 2);
    p.press_key(KEY_UP);
    assert_eq!(p.selected(), 1);
}

#[test]
fn other_keys_change_nothing() {
    let mut p = three_tracks();
    p.press_key(KEY_DOWN);
    p.press_key(32);
    p.press_key(263);
    assert_eq!(p.selected(), 1);
}

#[test]
fn arrows_on_empty_player_change_nothing() {
    let mut p = Player::new();
    p.press_key(KEY_DOWN);
    assert_eq!(p.selected(), 0);
    p.press_key(KEY_UP);
    assert_eq!(p.selected(), 0);
}

#[test]
fn list_choice_selects_existing_rows_only() {
    let mut p = three_tracks();
    p.choose_from_list(2);
    assert_eq!(p.selected(), 2);
    p.choose_from_list(-1);
    assert_eq!(p.selected(), 2);
    p.choose_from_list(3);
    assert_eq!(p.selected(), 2);
    p.choose_from_list(0);
    assert_eq!(p.selected(), 0);
}

#[test]
fn play_button_toggles_playback() {
    let mut p = three_tracks();
    p.toggle_play();
    assert!(p.is_playing());
    p.toggle_play();
    assert!(!p.is_playing());
}

#[test]
fn mute_button_mutes_and_restores_full_volume() {
    let mut p = three_tracks();
    p.set_volume(400);
    assert_eq!(p.volume(), 400);
    p.toggle_mute();
    assert_eq!(p.volume(), 0);
    assert!(p.is_muted());
    p.toggle_mute();
    assert_eq!(p.volume(), FULL_VOLUME);
}

#[test]
fn volume_above_full_is_full() {
    let mut p = Player::new();
    p.set_volume(5000);
    assert_eq!(p.volume(), 1000);
    p.set_volume(0);
    assert!(p.is_muted());
}
