//! Playback logic of a small drag-and-drop music player: which track is
//! selected, whether playback runs, the volume, what to do with each audio
//! stream on a frame, and where the widgets sit on the window.

mod label;
mod player;
mod stream;
mod layout;
mod frame;

pub use label::{after_last_slash, slash_cut, track_label, SLASH};
pub use player::{Player, PlayerView, FULL_VOLUME, KEY_DOWN, KEY_UP};
pub use stream::{at_most_one, lemma_plan_keeps_one_audible, lemma_plan_plays_chosen, runs_after, stream_action, StreamAction};
pub use layout::{
    empty_message_rect, list_rect, play_button_rect, progress_rect, volume_button_rect,
    volume_slider_rect, Rect,
};
pub use frame::closes_after_frame;
