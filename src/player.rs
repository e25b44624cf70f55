use vstd::prelude::*;
use vstd::string::*;
use vstd::utf8::encode_utf8;
use crate::label::{after_last_slash, track_label};

verus! {

/// Key code of the down arrow: selects the next track.
pub const KEY_DOWN: u32 = 264;

/// Key code of the up arrow: selects the previous track.
pub const KEY_UP: u32 = 265;

/// Full volume, in thousandths.
pub const FULL_VOLUME: u32 = 1000;

/// What the player knows of its tracks and of playback.
pub struct Player {
    labels: Vec<String>,
    selected: usize,
    is_playing: bool,
    volume: u32,
}

/// The abstract state of a [`Player`].
pub ghost struct PlayerView {
    /// The listed name of each track, in the order they were added.
    pub labels: Seq<Seq<char>>,
    /// Index of the selected track.
    pub selected: nat,
    /// Whether playback runs.
    pub playing: bool,
    /// The volume, in thousandths of full volume.
    pub volume: nat,
}

impl View for Player {
    type V = PlayerView;

    closed spec fn view(&self) -> PlayerView {
        PlayerView {
            labels: self.labels@.map_values(|s: String| s@),
            selected: self.selected as nat,
            playing: self.is_playing,
            volume: self.volume as nat,
        }
    }
}

impl PlayerView {
    /// The selection lies on a track, or on the first place of an empty
    /// list, and the volume is at most full.
    pub open spec fn wf(self) -> bool {
        &&& (self.labels.len() == 0 ==> self.selected == 0)
        &&& (self.labels.len() > 0 ==> self.selected < self.labels.len())
        &&& self.volume <= FULL_VOLUME
    }

    /// The state after a key press.
    pub open spec fn after_key(self, key: u32) -> PlayerView {
        if key == KEY_DOWN && self.selected + 1 < self.labels.len() {
            PlayerView { selected: self.selected + 1, ..self }
        } else if key == KEY_UP && self.selected > 0 {
            PlayerView { selected: (self.selected - 1) as nat, ..self }
        } else {
            self
        }
    }

    /// The state after the track list reported `index` as its active row:
    /// a row that holds a track becomes the selection, any other is ignored.
    pub open spec fn after_list_choice(self, index: i32) -> PlayerView {
        if 0 <= index < self.labels.len() {
            PlayerView { selected: index as nat, ..self }
        } else {
            self
        }
    }
}

impl Player {
    /// A player with no tracks, paused, at full volume.
    pub fn new() -> (r: Player)
        ensures
            r@.labels == Seq::<Seq<char>>::empty(),
            r@.selected == 0,
            !r@.playing,
            r@.volume == FULL_VOLUME,
            r@.wf(),
    {
        Player { labels: Vec::new(), selected: 0, is_playing: false, volume: FULL_VOLUME }
    }

    /// Number of tracks.
    pub fn track_count(&self) -> (r: usize)
        ensures
            r == self@.labels.len(),
    {
        self.labels.len()
    }

    /// Index of the selected track.
    pub fn selected(&self) -> (r: usize)
        ensures
            r == self@.selected,
    {
        self.selected
    }

    /// Whether playback runs.
    pub fn is_playing(&self) -> (r: bool)
        ensures
            r == self@.playing,
    {
        self.is_playing
    }

    /// The volume, in thousandths of full volume.
    pub fn volume(&self) -> (r: u32)
        ensures
            r == self@.volume,
    {
        self.volume
    }

    /// Whether the volume is down to nothing.
    pub fn is_muted(&self) -> (r: bool)
        ensures
            r == (self@.volume == 0),
    {
        self.volume == 0
    }

    /// The listed name of track `i`.
    pub fn label(&self, i: usize) -> (r: &str)
        requires
            i < self@.labels.len(),
        ensures
            r@ == self@.labels[i as int],
    {
        self.labels[i].as_str()
    }

    /// Adds the file at `path` as the last track, listed under the part of
    /// its path after the last `/`; returns its index.
    pub fn add_track(&mut self, path: &str) -> (r: usize)
        requires
            old(self)@.wf(),
        ensures
            r == old(self)@.labels.len(),
            final(self)@.labels.len() == old(self)@.labels.len() + 1,
            final(self)@.labels.drop_last() == old(self)@.labels,
            encode_utf8(final(self)@.labels.last()) == after_last_slash(path.spec_bytes()),
            final(self)@.selected == old(self)@.selected,
            final(self)@.playing == old(self)@.playing,
            final(self)@.volume == old(self)@.volume,
            final(self)@.wf(),
    {
        let r = self.labels.len();
        let name = track_label(path).to_owned();
        self.labels.push(name);
        assert(self@.labels.drop_last() =~= old(self)@.labels);
        r
    }

    /// Moves the selection one down on the down arrow and one up on the up
    /// arrow, staying within the list; other keys change nothing.
    pub fn press_key(&mut self, key: u32)
        requires
            old(self)@.wf(),
        ensures
            final(self)@ == old(self)@.after_key(key),
            final(self)@.wf(),
    {
        if key == KEY_DOWN {
            if self.selected < self.labels.len() && self.labels.len() - self.selected > 1 {
                self.selected = self.selected + 1;
            }
        } else if key == KEY_UP {
            if self.selected > 0 {
                self.selected = self.selected - 1;
            }
        }
    }

    /// Takes the row that the track list reports as active.
    pub fn choose_from_list(&mut self, index: i32)
        requires
            old(self)@.wf(),
        ensures
            final(self)@ == old(self)@.after_list_choice(index),
            final(self)@.wf(),
    {
        if index >= 0 && (index as usize) < self.labels.len() {
            self.selected = index as usize;
        }
    }

    /// Starts playback when paused and pauses it when running.
    pub fn toggle_play(&mut self)
        requires
            old(self)@.wf(),
        ensures
            final(self)@ == (PlayerView { playing: !old(self)@.playing, ..old(self)@ }),
            final(self)@.wf(),
    {
        self.is_playing = !self.is_playing;
    }

    /// Sets the volume, in thousandths; more than full volume is taken as
    /// full volume.
    pub fn set_volume(&mut self, volume: u32)
        requires
            old(self)@.wf(),
        ensures
            final(self)@ == (PlayerView {
                volume: if volume <= FULL_VOLUME { volume as nat } else { FULL_VOLUME as nat },
                ..old(self)@
            }),
            final(self)@.wf(),
    {
        if volume <= FULL_VOLUME {
            self.volume = volume;
        } else {
            self.volume = FULL_VOLUME;
        }
    }

    /// Mutes a sounding player, and brings a muted one back to full volume.
    pub fn toggle_mute(&mut self)
        requires
            old(self)@.wf(),
        ensures
            final(self)@ == (PlayerView {
                volume: if old(self)@.volume == 0 { FULL_VOLUME as nat } else { 0 },
                ..old(self)@
            }),
            final(self)@.wf(),
    {
        if self.volume == 0 {
            self.volume = FULL_VOLUME;
        } else {
            self.volume = 0;
        }
    }
}

} // verus!
