//! Timekeeping around the audio engine and the library watcher: the
//! playback position clock that pauses, resumes and seeks with the sink, and
//! the debouncer that turns a burst of file-system changes into one rescan.
//! Times are milliseconds on a monotonic clock.

use vstd::prelude::*;

verus! {

pub open spec fn elapsed_since(now: u64, start: u64) -> u64 {
    if now >= start { (now - start) as u64 } else { 0 }
}

pub open spec fn sat_add_u64(a: u64, b: u64) -> u64 {
    if a + b > u64::MAX { u64::MAX } else { (a + b) as u64 }
}

/// What the playback loop reports on a position tick.
#[derive(Debug, Clone, Copy, PartialEq, Eq, Structural)]
pub enum TickReport {
    /// The sink ran dry while playing: the track is over.
    Finished,
    /// The position, never past the duration.
    Position { position_ms: u64, duration_ms: u64 },
}

/// Where playback of the current track is: time played before the last
/// resume, when the current stretch started (none while paused), and the
/// track's length.
#[derive(Debug, Clone, Copy, PartialEq, Eq, Structural)]
pub struct PlaybackClock {
    pub paused: bool,
    pub accumulated_ms: u64,
    pub play_start: Option<u64>,
    pub duration_ms: u64,
}

impl PlaybackClock {
    /// The position at `now`: the accumulated time, plus the current
    /// stretch while playing.
    pub open spec fn position_at(self, now: u64) -> u64 {
        if self.paused {
            self.accumulated_ms
        } else {
            match self.play_start {
                Some(s) => sat_add_u64(self.accumulated_ms, elapsed_since(now, s)),
                None => self.accumulated_ms,
            }
        }
    }

    /// A track that starts playing at `now`.
    pub fn start(now: u64, duration_ms: u64) -> (c: PlaybackClock)
        ensures
            c == (PlaybackClock { paused: false, accumulated_ms: 0, play_start: Some(now), duration_ms }),
    {
        PlaybackClock { paused: false, accumulated_ms: 0, play_start: Some(now), duration_ms }
    }

    /// Pause: the stretch played so far is banked. True when this paused a
    /// playing track (the sink is paused and "paused" reported).
    pub fn pause(&mut self, now: u64) -> (changed: bool)
        ensures
            changed == !old(self).paused,
            changed ==> *final(self) == (PlaybackClock {
                paused: true,
                accumulated_ms: match old(self).play_start {
                    Some(s) => sat_add_u64(old(self).accumulated_ms, elapsed_since(now, s)),
                    None => old(self).accumulated_ms,
                },
                play_start: None,
                duration_ms: old(self).duration_ms,
            }),
            !changed ==> *final(self) == *old(self),
            changed ==> final(self).position_at(now) == old(self).position_at(now),
    {
        if self.paused {
            return false;
        }
        if let Some(start) = self.play_start {
            let e = if now >= start { now - start } else { 0 };
            self.accumulated_ms = self.accumulated_ms.saturating_add(e);
            self.play_start = None;
        }
        self.paused = true;
        true
    }

    /// Resume: a new stretch starts now. True when this resumed a paused
    /// track (the sink plays again and "playing" is reported).
    pub fn resume(&mut self, now: u64) -> (changed: bool)
        ensures
            changed == old(self).paused,
            changed ==> *final(self) == (PlaybackClock { paused: false, play_start: Some(now), ..*old(self) }),
            !changed ==> *final(self) == *old(self),
            changed ==> final(self).position_at(now) == old(self).position_at(now),
    {
        if !self.paused {
            return false;
        }
        self.play_start = Some(now);
        self.paused = false;
        true
    }

    /// The sink accepted a seek to `to_ms`: that is the position now.
    pub fn seeked(&mut self, to_ms: u64, now: u64)
        ensures
            *final(self) == (PlaybackClock {
                accumulated_ms: to_ms,
                play_start: if old(self).paused { old(self).play_start } else { Some(now) },
                ..*old(self)
            }),
            final(self).position_at(now) == to_ms,
    {
        self.accumulated_ms = to_ms;
        if !self.paused {
            self.play_start = Some(now);
        }
    }

    /// A position tick: the track is over when the sink is empty while
    /// playing; otherwise the position is reported, capped at the duration.
    pub fn tick(&self, now: u64, sink_empty: bool) -> (r: TickReport)
        ensures
            r == (if sink_empty && !self.paused {
                TickReport::Finished
            } else {
                TickReport::Position {
                    position_ms: if self.position_at(now) < self.duration_ms { self.position_at(now) } else { self.duration_ms },
                    duration_ms: self.duration_ms,
                }
            }),
    {
        if sink_empty && !self.paused {
            return TickReport::Finished;
        }
        let pos = if self.paused {
            self.accumulated_ms
        } else {
            match self.play_start {
                Some(s) => {
                    let e = if now >= s { now - s } else { 0 };
                    self.accumulated_ms.saturating_add(e)
                },
                None => self.accumulated_ms,
            }
        };
        TickReport::Position { position_ms: if pos < self.duration_ms { pos } else { self.duration_ms }, duration_ms: self.duration_ms }
    }
}

/// How long the music directory must stay quiet before a rescan.
pub const DEBOUNCE_MS: u64 = 2000;

/// The kinds of file-system change the watcher hears about.
#[derive(Debug, Clone, Copy, PartialEq, Eq, Structural)]
pub enum FsChange {
    Create,
    Remove,
    Modify,
    Access,
    Other,
}

/// Only creations, removals and modifications can change the library.
pub fn counts_as_change(k: FsChange) -> (r: bool)
    ensures
        r == (k == FsChange::Create || k == FsChange::Remove || k == FsChange::Modify),
{
    match k {
        FsChange::Create | FsChange::Remove | FsChange::Modify => true,
        _ => false,
    }
}

/// Collapses a burst of changes into one rescan. Nothing is pending until a
/// real change arrives, so startup alone never triggers a rescan.
#[derive(Debug, Clone, Copy, PartialEq, Eq, Structural)]
pub struct Debouncer {
    /// When the last change arrived, if one is waiting.
    pub pending: Option<u64>,
}

impl Debouncer {
    pub fn new() -> (d: Debouncer)
        ensures
            d.pending is None,
    {
        Debouncer { pending: None }
    }

    /// A change arrived at `now`.
    pub fn on_change(&mut self, now: u64)
        ensures
            final(self).pending == Some(now),
    {
        self.pending = Some(now);
    }

    /// A change is waiting and the directory has been quiet long enough.
    pub fn due(&self, now: u64) -> (r: bool)
        ensures
            r == (match self.pending {
                Some(t) => elapsed_since(now, t) >= DEBOUNCE_MS,
                None => false,
            }),
    {
        match self.pending {
            Some(t) => (if now >= t { now - t } else { 0 }) >= DEBOUNCE_MS,
            None => false,
        }
    }

    /// Once due, the changes that landed meanwhile have been drained: if
    /// there were any, the burst is still going and the wait restarts now;
    /// otherwise the library is rescanned (true) and nothing is pending.
    pub fn settle(&mut self, now: u64, had_more: bool) -> (rescan: bool)
        ensures
            rescan == !had_more,
            final(self).pending == (if had_more { Some(now) } else { None }),
    {
        if had_more {
            self.pending = Some(now);
            false
        } else {
            self.pending = None;
            true
        }
    }
}

} // verus!
