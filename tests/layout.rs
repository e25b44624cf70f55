use noter::{
    empty_message_rect, list_rect, play_button_rect, progress_rect, volume_button_rect,
    volume_slider_rect, Rect,
};

#[test]
fn empty_message_is_centred() {
    assert_eq!(empty_message_rect(800, 600, 251), Rect { x: 275, y: 0, width: 800, height: 600 });
}

#[test]
fn list_fills_window_above_bottom_bar() {
    assert_eq!(list_rect(800, 600), Rect { x: 20, y: 20, width: 760, height: 545 });
}

#[test]
fn progress_bar_takes_middle_half() {
    assert_eq!(progress_rect(800, 600), Rect { x: 200, y: 575, width: 400, height: 15 });
}

#[test]
fn play_button_left_of_progress_bar() {
    assert_eq!(play_button_rect(800, 600, 24, 24), Rect { x: 171, y: 571, width: 24, height: 24 });
}

#[test]
fn volume_controls_in_last_quarter() {
    assert_eq!(volume_slider_rect(800, 600), Rect { x: 650, y: 575, width: 100, height: 15 });
    assert_eq!(volume_button_rect(800, 600, 24, 24), Rect { x: 620, y: 571, width: 24, height: 24 });
}

#[test]
fn odd_sizes_round_down() {
    assert_eq!(progress_rect(803, 601), Rect { x: 200, y: 576, width: 401, height: 15 });
    assert_eq!(volume_slider_rect(803, 601).x, 650);
}
