use vstd::prelude::*;
use crate::player::{Player, PlayerView};

verus! {

/// What to do with one audio stream on a frame.
#[derive(PartialEq, Eq, Structural, Clone, Copy, Debug)]
pub enum StreamAction {
    /// Leave the stream alone.
    Idle,
    /// Stop the stream.
    Stop,
    /// Start the stream from the beginning, then feed it.
    Start,
    /// Feed the running stream its next samples.
    Feed,
}

/// The action for stream `i` when playback runs as `playing`, track
/// `selected` is chosen, and `active[j]` tells whether stream `j` is running.
///
/// While paused nothing is touched. When the chosen stream is not running it
/// is started and every other running stream is stopped; otherwise every
/// running stream is fed.
pub open spec fn stream_action(playing: bool, selected: int, active: Seq<bool>, i: int) -> StreamAction {
    if !playing {
        StreamAction::Idle
    } else if !active[selected] {
        if i == selected {
            StreamAction::Start
        } else if active[i] {
            StreamAction::Stop
        } else {
            StreamAction::Idle
        }
    } else if active[i] {
        StreamAction::Feed
    } else {
        StreamAction::Idle
    }
}

/// Whether a stream runs after `action` was applied to it, given whether it
/// ran before.
pub open spec fn runs_after(action: StreamAction, was_running: bool) -> bool {
    match action {
        StreamAction::Idle => was_running,
        StreamAction::Stop => false,
        StreamAction::Start => true,
        StreamAction::Feed => true,
    }
}

/// At most one of the streams runs.
pub open spec fn at_most_one(running: Seq<bool>) -> bool {
    forall|i: int, j: int| 0 <= i < running.len() && 0 <= j < running.len() && running[i] && running[j] ==> i == j
}

impl Player {
    /// The action for each stream on this frame; `active[i]` tells whether the
    /// stream of track `i` is running. With no tracks there is nothing to do.
    pub fn plan_streams(&self, active: &Vec<bool>) -> (r: Vec<StreamAction>)
        requires
            self@.wf(),
            active@.len() == self@.labels.len(),
        ensures
            r@.len() == active@.len(),
            forall|i: int| 0 <= i < r@.len() ==> r@[i] == stream_action(self@.playing, self@.selected as int, active@, i),
    {
        let n = active.len();
        let mut r: Vec<StreamAction> = Vec::new();
        if n == 0 {
            return r;
        }
        let sel = self.selected();
        let playing = self.is_playing();
        let chosen_runs = active[sel];
        let mut i: usize = 0;
        while i < n
            invariant
                n == active@.len(),
                sel < n,
                sel == self@.selected,
                playing == self@.playing,
                chosen_runs == active@[sel as int],
                i <= n,
                r@.len() == i,
                forall|k: int| 0 <= k < i ==> r@[k] == stream_action(playing, sel as int, active@, k),
            decreases n - i,
        {
            let a = if !playing {
                StreamAction::Idle
            } else if !chosen_runs {
                if i == sel {
                    StreamAction::Start
                } else if active[i] {
                    StreamAction::Stop
                } else {
                    StreamAction::Idle
                }
            } else if active[i] {
                StreamAction::Feed
            } else {
                StreamAction::Idle
            };
            r.push(a);
            i = i + 1;
        }
        r
    }
}

/// Applying a frame's plan never leaves two tracks audible: when at most one
/// stream ran before, at most one runs after.
pub proof fn lemma_plan_keeps_one_audible(state: PlayerView, active: Seq<bool>)
    requires
        state.wf(),
        active.len() == state.labels.len(),
        at_most_one(active),
    ensures
        at_most_one(Seq::new(active.len(), |i: int|
            runs_after(stream_action(state.playing, state.selected as int, active, i), active[i]))),
{
}

/// Once playback runs and the plan is applied, the chosen track's stream is
/// the only one that runs.
pub proof fn lemma_plan_plays_chosen(state: PlayerView, active: Seq<bool>, i: int)
    requires
        state.wf(),
        active.len() == state.labels.len(),
        at_most_one(active),
        state.playing,
        0 <= i < active.len(),
    ensures
        runs_after(stream_action(state.playing, state.selected as int, active, i), active[i])
            <==> i == state.selected,
{
}

} // verus!
