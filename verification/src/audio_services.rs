//! The pause-aware playback session.
//!
//! The session is the sole source of truth for elapsed playback time and
//! end-of-track detection. The audio resource itself (decoder, output
//! device) lives outside this crate; the session models what it controls of
//! that resource — whether it is held paused — and takes the one signal only
//! the resource knows, whether its queue ran empty, as an argument. Clock
//! readings come in as milliseconds; the volume is a gain in thousandths,
//! clamped so it can never be negative.

use vstd::prelude::*;

verus! {

/// The logical transport state of a session.
#[derive(Debug, Clone, Copy, PartialEq, Eq, Structural)]
pub enum State {
    Playing,
    Paused,
    Stopped,
}

/// Descriptive tags of an audio file, as the tag reader outside this crate
/// hands them over; the duration in whole milliseconds.
#[derive(Debug)]
pub struct Metadata {
    pub title: Option<String>,
    pub artist: Option<String>,
    pub album: Option<String>,
    pub duration_ms: Option<u64>,
}

/// A playback session: the stored transport state, the mirror of the
/// resource's paused flag, the start of the current playing interval (if one
/// is running), the play time accumulated before that interval, and the
/// output gain in thousandths.
pub struct PlaybackSession {
    pub state: State,
    pub resource_paused: bool,
    pub start_ms: Option<u64>,
    pub accumulated_ms: u64,
    pub volume_milli: u64,
}

/// A clock reading `now_ms` is usable on `s`: it does not precede the
/// running interval's start, and folding the interval in cannot overflow.
pub open spec fn can_advance_to(s: PlaybackSession, now_ms: u64) -> bool {
    s.start_ms matches Some(st) ==> st <= now_ms && s.accumulated_ms + (now_ms - st) <= u64::MAX
}

/// What `play` does: only a session whose resource is held paused reacts; it
/// becomes `Playing`, releases the resource, and records `now_ms` as the
/// interval start unless an interval is already recorded.
pub open spec fn spec_play(s: PlaybackSession, now_ms: u64) -> PlaybackSession {
    if s.resource_paused {
        PlaybackSession {
            state: State::Playing,
            resource_paused: false,
            start_ms: if s.start_ms is None {
                Some(now_ms)
            } else {
                s.start_ms
            },
            ..s
        }
    } else {
        s
    }
}

/// What `pause` does: only a session whose resource is running reacts; it
/// becomes `Paused`, holds the resource, folds the running interval into the
/// accumulated play time and clears the interval start.
pub open spec fn spec_pause(s: PlaybackSession, now_ms: u64) -> PlaybackSession {
    if !s.resource_paused {
        PlaybackSession {
            state: State::Paused,
            resource_paused: true,
            start_ms: None,
            accumulated_ms: match s.start_ms {
                Some(st) => (s.accumulated_ms + (now_ms - st)) as u64,
                None => s.accumulated_ms,
            },
            ..s
        }
    } else {
        s
    }
}

/// The elapsed play time at `now_ms`: the accumulated intervals, plus the
/// running one while actually playing.
pub open spec fn spec_elapsed(s: PlaybackSession, now_ms: u64) -> int {
    match s.start_ms {
        Some(st) => if s.state is Playing {
            s.accumulated_ms + (now_ms - st)
        } else {
            s.accumulated_ms as int
        },
        None => s.accumulated_ms as int,
    }
}

/// The observable state reconciles three signals: a held resource reports
/// `Paused`, an exhausted queue reports `Stopped`, otherwise the stored
/// state stands.
pub open spec fn spec_current_state(s: PlaybackSession, queue_empty: bool) -> State {
    if s.resource_paused {
        State::Paused
    } else if queue_empty {
        State::Stopped
    } else {
        s.state
    }
}

/// The track is over when the queue ran empty and the session is not
/// deliberately held paused.
pub open spec fn spec_is_end(s: PlaybackSession, queue_empty: bool) -> bool {
    queue_empty && !(s.state is Paused)
}

/// A negative requested gain is clamped to zero; any other gain stands.
pub open spec fn spec_clamped_volume(level: i64) -> u64 {
    if level < 0 {
        0
    } else {
        level as u64
    }
}

impl PlaybackSession {
    /// The state of a session the moment its resource is loaded: held
    /// paused, nothing accumulated, no interval running, unity gain.
    pub open spec fn spec_new() -> PlaybackSession {
        PlaybackSession {
            state: State::Paused,
            resource_paused: true,
            start_ms: None,
            accumulated_ms: 0,
            volume_milli: 1000,
        }
    }

    /// A fresh session: paused with zero elapsed time.
    pub fn new() -> (s: Self)
        ensures
            s == Self::spec_new(),
    {
        PlaybackSession {
            state: State::Paused,
            resource_paused: true,
            start_ms: None,
            accumulated_ms: 0,
            volume_milli: 1000,
        }
    }

    /// Starts playback; a no-op when already playing.
    pub fn play(&mut self, now_ms: u64)
        ensures
            *final(self) == spec_play(*old(self), now_ms),
    {
        if self.resource_paused {
            self.state = State::Playing;
            self.resource_paused = false;
            if self.start_ms.is_none() {
                self.start_ms = Some(now_ms);
            }
        }
    }

    /// Halts playback and banks the running interval; a no-op when already
    /// paused.
    pub fn pause(&mut self, now_ms: u64)
        requires
            can_advance_to(*old(self), now_ms),
        ensures
            *final(self) == spec_pause(*old(self), now_ms),
    {
        if !self.resource_paused {
            self.resource_paused = true;
            self.state = State::Paused;
            if let Some(st) = self.start_ms {
                self.accumulated_ms = self.accumulated_ms + (now_ms - st);
                self.start_ms = None;
            }
        }
    }

    /// Sets the output gain, clamping negative requests to zero. Valid in
    /// any state.
    pub fn set_volume(&mut self, level: i64)
        ensures
            *final(self) == (PlaybackSession {
                volume_milli: spec_clamped_volume(level),
                ..*old(self)
            }),
    {
        if level < 0 {
            self.volume_milli = 0;
        } else {
            self.volume_milli = level as u64;
        }
    }

    /// The current output gain in thousandths.
    pub fn get_volume(&self) -> (v: u64)
        ensures
            v == self.volume_milli,
    {
        self.volume_milli
    }

    /// The elapsed play time at `now_ms`, pause gaps excluded. Pure: no
    /// state changes.
    pub fn get_elapsed_time(&self, now_ms: u64) -> (e: u64)
        requires
            can_advance_to(*self, now_ms),
        ensures
            e == spec_elapsed(*self, now_ms),
    {
        match self.start_ms {
            Some(st) => {
                if self.state == State::Playing {
                    self.accumulated_ms + (now_ms - st)
                } else {
                    self.accumulated_ms
                }
            },
            None => self.accumulated_ms,
        }
    }

    /// The observable state, derived from the resource-paused mirror, the
    /// queue signal and the stored state.
    pub fn get_current_state(&self, queue_empty: bool) -> (st: State)
        ensures
            st == spec_current_state(*self, queue_empty),
    {
        if self.resource_paused {
            State::Paused
        } else if queue_empty {
            State::Stopped
        } else {
            self.state
        }
    }

    /// Whether the track ran out, as opposed to being held at a pause.
    pub fn is_end(&self, queue_empty: bool) -> (b: bool)
        ensures
            b == spec_is_end(*self, queue_empty),
    {
        queue_empty && self.state != State::Paused
    }
}

/// A fresh session is paused with zero elapsed time, whatever the clock
/// says.
pub proof fn lemma_fresh_session(now_ms: u64)
    ensures
        PlaybackSession::spec_new().state == State::Paused,
        spec_elapsed(PlaybackSession::spec_new(), now_ms) == 0,
{
}

/// One play/pause cycle on a fresh session banks exactly the played
/// interval.
pub proof fn lemma_play_pause_elapsed(t0: u64, t1: u64)
    requires
        t0 <= t1,
    ensures
        spec_elapsed(spec_pause(spec_play(PlaybackSession::spec_new(), t0), t1), t1) == t1 - t0,
{
}

/// Elapsed time counts play intervals only: playing over [t0, t1] and
/// [t2, t3] with a pause in between accumulates (t1 - t0) + (t3 - t2); the
/// gap [t1, t2] spent paused does not count.
pub proof fn lemma_pause_intervals(t0: u64, t1: u64, t2: u64, t3: u64)
    requires
        t0 <= t1 <= t2 <= t3,
        (t1 - t0) + (t3 - t2) <= u64::MAX,
    ensures
        ({
            let played = spec_pause(spec_play(PlaybackSession::spec_new(), t0), t1);
            let replayed = spec_pause(spec_play(played, t2), t3);
            spec_elapsed(replayed, t3) == (t1 - t0) + (t3 - t2)
        }),
{
}

/// A fresh session never reports end-of-track (it is paused), and a session
/// that is not paused reports it exactly when the queue ran empty.
pub proof fn lemma_end_detection(s: PlaybackSession, queue_empty: bool)
    ensures
        !spec_is_end(PlaybackSession::spec_new(), queue_empty),
        !(s.state is Paused) ==> (spec_is_end(s, queue_empty) == queue_empty),
{
}

/// The effective volume is never negative, and a negative request lands
/// exactly on zero.
pub proof fn lemma_volume_clamped(level: i64)
    ensures
        spec_clamped_volume(level) >= 0,
        level < 0 ==> spec_clamped_volume(level) == 0,
        level >= 0 ==> spec_clamped_volume(level) == level,
{
}

} // verus!
