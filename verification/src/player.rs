//! The playback transport: elapsed-time accounting for one audio file.
//!
//! The transport never reads a clock itself; every operation takes the
//! current wall-clock time in milliseconds.  It owns no audio device either:
//! operations return a [`SinkCommand`] that tells the caller what to do with
//! the real sink.  Elapsed playback time is committed only for running
//! intervals — time spent paused is never counted (see
//! [`lemma_toggle_commits_only_running_time`]).

use vstd::arithmetic::div_mod::{lemma_div_is_ordered, lemma_div_multiples_vanish};
use vstd::prelude::*;
use vstd::string::StrSliceExecFns;
use vstd::string::StringExecFns;

use crate::key::Key;
use crate::names;

verus! {

/// What the caller must do with the real audio sink after a transport step.
///
/// `Restart` means: replace the sink by a fresh one playing the same file
/// from its start.
#[derive(Clone, Copy, PartialEq, Eq, Structural, Debug)]
pub enum SinkCommand {
    Pause,
    Resume,
    Restart,
    Stop,
}

/// Transport state for the file currently loaded.
///
/// All times are wall-clock milliseconds as sampled by the caller.
pub struct MusicPlayer {
    /// Horizontal offset of the album art inside its pane.
    pub image_offset_x: u16,
    /// Vertical offset of the album art inside its pane.
    pub image_offset_y: u16,
    /// Rotating-disc angle, in milliradians; wraps around on overflow.
    pub vinyl_angle_milli: u64,
    /// Disc angle advance per tick, in milliradians.
    pub vinyl_speed_milli: u64,
    pub is_paused: bool,
    /// Whether an audio sink is attached; false once cleaned up.
    pub sink_active: bool,
    /// Path of the file being played.
    pub audio_file: String,
    /// Total duration from probing, absent when it could not be determined.
    pub total_duration_ms: Option<u64>,
    /// When the current running segment began; absent while paused/stopped.
    pub start_time_ms: Option<u64>,
    /// Committed elapsed playback time: running segments already finished.
    pub elapsed_before_pause_ms: u64,
    /// When the current pause began; absent unless paused.
    pub pause_start_ms: Option<u64>,
    pub repeat: bool,
    pub next_track: bool,
}

impl MusicPlayer {
    /// A sink is attached and running.
    pub open spec fn playing(self) -> bool {
        self.sink_active && !self.is_paused
    }

    /// A sink is attached and held paused.
    pub open spec fn paused(self) -> bool {
        self.sink_active && self.is_paused
    }

    /// No sink: the terminal state reached by `cleanup`.
    pub open spec fn stopped(self) -> bool {
        !self.sink_active
    }

    /// Exactly one of the two stamps is live, depending on the state.
    pub open spec fn wf(self) -> bool {
        &&& self.playing() ==> self.start_time_ms is Some && self.pause_start_ms is None
        &&& self.paused() ==> self.start_time_ms is None && self.pause_start_ms is Some
        &&& self.stopped() ==> !self.is_paused && self.start_time_ms is None
            && self.pause_start_ms is None && self.total_duration_ms is None
    }

    /// The clock sample is no older than the running segment's start, and the
    /// running segment does not push the committed total past `u64::MAX`.
    pub open spec fn time_wf(self, now: int) -> bool {
        self.start_time_ms matches Some(t) ==> t <= now && self.elapsed_before_pause_ms + now - t
            <= u64::MAX
    }

    /// Committed time plus the live running segment, unclamped.
    pub open spec fn spec_raw_elapsed_ms(self, now: int) -> int {
        self.elapsed_before_pause_ms + (match self.start_time_ms {
            Some(t) => now - t,
            None => 0,
        })
    }

    /// True elapsed playback time, clamped to the total duration when known.
    pub open spec fn spec_current_elapsed_ms(self, now: int) -> int {
        match self.total_duration_ms {
            Some(d) => if self.spec_raw_elapsed_ms(now) > d {
                d as int
            } else {
                self.spec_raw_elapsed_ms(now)
            },
            None => self.spec_raw_elapsed_ms(now),
        }
    }

    /// Playback position in thousandths of the total duration, in
    /// `[0, 1000]`; `0` when the total duration is unknown.
    pub open spec fn spec_progress_permille(self, now: int) -> int {
        match self.total_duration_ms {
            Some(d) => if d == 0 {
                1000
            } else {
                self.spec_current_elapsed_ms(now) * 1000 / (d as int)
            },
            None => 0,
        }
    }

    /// The state a freshly activated transport is in.
    pub open spec fn spec_new(audio_file: String, total_duration_ms: Option<u64>, now_ms: u64) -> MusicPlayer {
        MusicPlayer {
            image_offset_x: 10u16,
            image_offset_y: 3u16,
            vinyl_angle_milli: 0u64,
            vinyl_speed_milli: 100u64,
            is_paused: false,
            sink_active: true,
            audio_file,
            total_duration_ms,
            start_time_ms: Some(now_ms),
            elapsed_before_pause_ms: 0u64,
            pause_start_ms: None,
            repeat: false,
            next_track: false,
        }
    }

    /// Pause transition: commit the live running segment, stamp the pause.
    pub open spec fn spec_pause(self, now_ms: u64) -> MusicPlayer {
        MusicPlayer {
            is_paused: true,
            start_time_ms: None,
            pause_start_ms: Some(now_ms),
            elapsed_before_pause_ms: (self.elapsed_before_pause_ms + now_ms
                - self.start_time_ms->0) as u64,
            ..self
        }
    }

    /// Resume transition: drop the pause stamp and open a new running
    /// segment.  The committed elapsed time is untouched: the paused
    /// interval does not count as playback time.
    pub open spec fn spec_resume(self, now_ms: u64) -> MusicPlayer {
        MusicPlayer {
            is_paused: false,
            start_time_ms: Some(now_ms),
            pause_start_ms: None,
            ..self
        }
    }

    /// Reload transition: fresh sink on the same file, all accounting reset.
    pub open spec fn spec_reload(self, now_ms: u64) -> MusicPlayer {
        MusicPlayer {
            sink_active: true,
            is_paused: false,
            start_time_ms: Some(now_ms),
            elapsed_before_pause_ms: 0u64,
            pause_start_ms: None,
            ..self
        }
    }

    /// Cleanup transition: sink gone, all timing fields cleared.
    pub open spec fn spec_cleanup(self) -> MusicPlayer {
        MusicPlayer {
            sink_active: false,
            is_paused: false,
            start_time_ms: None,
            total_duration_ms: None,
            elapsed_before_pause_ms: 0u64,
            pause_start_ms: None,
            ..self
        }
    }

    /// Disc-angle advance for one tick while playing.
    pub open spec fn spec_spin(self) -> MusicPlayer {
        MusicPlayer { vinyl_angle_milli: self.vinyl_angle_milli.wrapping_add(self.vinyl_speed_milli), ..self }
    }

    /// Whether a tick at `now_ms` restarts the file in repeat mode.
    pub open spec fn spec_tick_reloads(self, now_ms: u64) -> bool {
        self.repeat && (self.total_duration_ms matches Some(d)
            && self.spec_current_elapsed_ms(now_ms as int) >= d)
    }

    /// One tick: spin while playing, and restart when repeat mode has
    /// reached the end of the file.
    pub open spec fn spec_tick(self, now_ms: u64) -> MusicPlayer {
        let spun = if self.playing() {
            self.spec_spin()
        } else {
            self
        };
        if self.spec_tick_reloads(now_ms) {
            spun.spec_reload(now_ms)
        } else {
            spun
        }
    }

    /// Activates the transport for `audio_file` at time `now_ms`: playback
    /// starts at once, at zero committed elapsed time.  The caller probes
    /// `total_duration_ms`; `None` means the probe could not determine it
    /// and progress reporting degrades to zero.
    pub fn new(audio_file: String, total_duration_ms: Option<u64>, now_ms: u64) -> (p: MusicPlayer)
        ensures
            p == MusicPlayer::spec_new(audio_file, total_duration_ms, now_ms),
            p.wf(),
            p.playing(),
    {
        MusicPlayer {
            image_offset_x: 10,
            image_offset_y: 3,
            vinyl_angle_milli: 0,
            vinyl_speed_milli: 100,
            is_paused: false,
            sink_active: true,
            audio_file,
            total_duration_ms,
            start_time_ms: Some(now_ms),
            elapsed_before_pause_ms: 0,
            pause_start_ms: None,
            repeat: false,
            next_track: false,
        }
    }

    /// True elapsed playback time at `now_ms`, clamped to the total duration
    /// when that is known.  Read-only.
    pub fn current_elapsed_ms(&self, now_ms: u64) -> (e: u64)
        requires
            self.time_wf(now_ms as int),
        ensures
            e == self.spec_current_elapsed_ms(now_ms as int),
    {
        let raw = match self.start_time_ms {
            Some(t) => self.elapsed_before_pause_ms + (now_ms - t),
            None => self.elapsed_before_pause_ms,
        };
        match self.total_duration_ms {
            Some(d) => if raw > d {
                d
            } else {
                raw
            },
            None => raw,
        }
    }

    /// Playback position in thousandths of the total duration.  Read-only;
    /// `0` when the total duration is unknown.
    pub fn progress_permille(&self, now_ms: u64) -> (p: u64)
        requires
            self.time_wf(now_ms as int),
        ensures
            p == self.spec_progress_permille(now_ms as int),
            p <= 1000,
    {
        match self.total_duration_ms {
            None => 0,
            Some(d) => {
                if d == 0 {
                    1000
                } else {
                    let e = self.current_elapsed_ms(now_ms);
                    let q = ((e as u128) * 1000) / (d as u128);
                    proof {
                        lemma_div_is_ordered(e * 1000, d * 1000, d as int);
                        lemma_div_multiples_vanish(1000, d as int);
                    }
                    q as u64
                }
            },
        }
    }

    /// Pauses when playing, resumes when paused, does nothing when stopped.
    /// Committed elapsed time grows only on the pause edge, and only by the
    /// running interval that just ended.
    pub fn toggle_pause(&mut self, now_ms: u64) -> (cmd: Option<SinkCommand>)
        requires
            old(self).wf(),
            old(self).time_wf(now_ms as int),
        ensures
            old(self).stopped() ==> *final(self) == *old(self) && cmd is None,
            old(self).playing() ==> *final(self) == old(self).spec_pause(now_ms) && cmd
                == Some(SinkCommand::Pause),
            old(self).paused() ==> *final(self) == old(self).spec_resume(now_ms) && cmd
                == Some(SinkCommand::Resume),
            final(self).wf(),
    {
        if !self.sink_active {
            return None;
        }
        if self.is_paused {
            self.pause_start_ms = None;
            self.start_time_ms = Some(now_ms);
            self.is_paused = false;
            Some(SinkCommand::Resume)
        } else {
            let t = self.start_time_ms.unwrap();
            self.elapsed_before_pause_ms = self.elapsed_before_pause_ms + (now_ms - t);
            self.start_time_ms = None;
            self.pause_start_ms = Some(now_ms);
            self.is_paused = true;
            Some(SinkCommand::Pause)
        }
    }

    /// Restarts playback of the same file from the beginning: committed
    /// elapsed time returns to zero, pause markers are cleared, and the
    /// transport is playing afterwards even when it was paused before.
    pub fn reload(&mut self, now_ms: u64) -> (cmd: SinkCommand)
        ensures
            *final(self) == old(self).spec_reload(now_ms),
            cmd == SinkCommand::Restart,
            final(self).playing(),
            final(self).elapsed_before_pause_ms == 0,
            final(self).pause_start_ms is None,
            !final(self).is_paused,
            final(self).wf(),
    {
        self.sink_active = true;
        self.is_paused = false;
        self.start_time_ms = Some(now_ms);
        self.elapsed_before_pause_ms = 0;
        self.pause_start_ms = None;
        SinkCommand::Restart
    }

    /// One tick of the control loop: advances the disc angle while playing,
    /// and in repeat mode restarts the file once the elapsed time reaches
    /// the total duration — the only self-triggering transition.
    pub fn update(&mut self, now_ms: u64) -> (cmd: Option<SinkCommand>)
        requires
            old(self).wf(),
            old(self).time_wf(now_ms as int),
        ensures
            *final(self) == old(self).spec_tick(now_ms),
            cmd == if old(self).spec_tick_reloads(now_ms) {
                Some(SinkCommand::Restart)
            } else {
                None::<SinkCommand>
            },
            final(self).wf(),
    {
        if self.sink_active && !self.is_paused {
            self.vinyl_angle_milli = self.vinyl_angle_milli.wrapping_add(self.vinyl_speed_milli);
        }
        let mut reload_needed = false;
        if self.repeat {
            if let Some(d) = self.total_duration_ms {
                let e = self.current_elapsed_ms(now_ms);
                if e >= d {
                    reload_needed = true;
                }
            }
        }
        if reload_needed {
            let c = self.reload(now_ms);
            Some(c)
        } else {
            None
        }
    }

    /// Stops and detaches the sink and clears every timing field.
    /// Idempotent: on an already stopped transport it changes nothing and
    /// asks nothing of the caller.
    pub fn cleanup(&mut self) -> (cmd: Option<SinkCommand>)
        ensures
            *final(self) == old(self).spec_cleanup(),
            cmd == if old(self).sink_active {
                Some(SinkCommand::Stop)
            } else {
                None::<SinkCommand>
            },
            final(self).stopped(),
            final(self).wf(),
    {
        let cmd = if self.sink_active {
            Some(SinkCommand::Stop)
        } else {
            None
        };
        self.sink_active = false;
        self.is_paused = false;
        self.start_time_ms = None;
        self.total_duration_ms = None;
        self.elapsed_before_pause_ms = 0;
        self.pause_start_ms = None;
        cmd
    }

    /// Display title of the loaded file: its bare name without the last
    /// extension, or a fixed fallback when that is empty.
    pub fn get_name(&self) -> (r: String)
        ensures
            r@ == spec_display_name(self.audio_file@),
    {
        let name = names::file_name(self.audio_file.as_str());
        let stem = names::file_stem(name.as_str());
        if stem.as_str().is_empty() {
            String::from_str("not found")
        } else {
            stem
        }
    }

    /// State after one key stroke: art offsets, pause toggle, reload,
    /// repeat and next-track flags, disc speed.  Unknown keys change
    /// nothing.
    pub open spec fn spec_handle_key(self, key: Key, now_ms: u64) -> MusicPlayer {
        match key {
            Key::Char(c) => if c == 'h' {
                MusicPlayer {
                    image_offset_x: if self.image_offset_x > 0 {
                        (self.image_offset_x - 1) as u16
                    } else {
                        0u16
                    },
                    ..self
                }
            } else if c == 'l' {
                MusicPlayer {
                    image_offset_x: if self.image_offset_x < u16::MAX {
                        (self.image_offset_x + 1) as u16
                    } else {
                        u16::MAX
                    },
                    ..self
                }
            } else if c == 'k' {
                MusicPlayer {
                    image_offset_y: if self.image_offset_y > 0 {
                        (self.image_offset_y - 1) as u16
                    } else {
                        0u16
                    },
                    ..self
                }
            } else if c == 'j' {
                MusicPlayer {
                    image_offset_y: if self.image_offset_y < u16::MAX {
                        (self.image_offset_y + 1) as u16
                    } else {
                        u16::MAX
                    },
                    ..self
                }
            } else if c == ' ' {
                if !self.sink_active {
                    self
                } else if self.is_paused {
                    self.spec_resume(now_ms)
                } else {
                    self.spec_pause(now_ms)
                }
            } else if c == 'r' {
                self.spec_reload(now_ms)
            } else if c == 't' {
                MusicPlayer { repeat: !self.repeat, ..self }
            } else if c == 'n' {
                MusicPlayer { next_track: !self.next_track, ..self }
            } else if c == '+' {
                MusicPlayer {
                    vinyl_speed_milli: self.vinyl_speed_milli.saturating_add(50),
                    ..self
                }
            } else if c == '-' {
                MusicPlayer {
                    vinyl_speed_milli: if self.vinyl_speed_milli > 50 {
                        (self.vinyl_speed_milli - 50) as u64
                    } else {
                        self.vinyl_speed_milli
                    },
                    ..self
                }
            } else {
                self
            },
            _ => self,
        }
    }

    /// Sink command one key stroke asks for: the pause toggle and the
    /// reload drive the sink, nothing else does.
    pub open spec fn spec_handle_key_cmd(self, key: Key, now_ms: u64) -> Option<SinkCommand> {
        match key {
            Key::Char(c) => if c == ' ' {
                if !self.sink_active {
                    None
                } else if self.is_paused {
                    Some(SinkCommand::Resume)
                } else {
                    Some(SinkCommand::Pause)
                }
            } else if c == 'r' {
                Some(SinkCommand::Restart)
            } else {
                None
            },
            _ => None,
        }
    }

    /// Applies one key stroke: art offsets, pause toggle, reload, repeat and
    /// next-track flags, disc speed.  Unknown keys change nothing.
    pub fn handle_key(&mut self, key: Key, now_ms: u64) -> (cmd: Option<SinkCommand>)
        requires
            old(self).wf(),
            old(self).time_wf(now_ms as int),
        ensures
            *final(self) == old(self).spec_handle_key(key, now_ms),
            cmd == old(self).spec_handle_key_cmd(key, now_ms),
            final(self).wf(),
    {
        match key {
            Key::Char(c) => {
                if c == 'h' {
                    if self.image_offset_x > 0 {
                        self.image_offset_x = self.image_offset_x - 1;
                    }
                    None
                } else if c == 'l' {
                    if self.image_offset_x < u16::MAX {
                        self.image_offset_x = self.image_offset_x + 1;
                    }
                    None
                } else if c == 'k' {
                    if self.image_offset_y > 0 {
                        self.image_offset_y = self.image_offset_y - 1;
                    }
                    None
                } else if c == 'j' {
                    if self.image_offset_y < u16::MAX {
                        self.image_offset_y = self.image_offset_y + 1;
                    }
                    None
                } else if c == ' ' {
                    self.toggle_pause(now_ms)
                } else if c == 'r' {
                    let cmd = self.reload(now_ms);
                    Some(cmd)
                } else if c == 't' {
                    self.repeat = !self.repeat;
                    None
                } else if c == 'n' {
                    self.next_track = !self.next_track;
                    None
                } else if c == '+' {
                    self.vinyl_speed_milli = self.vinyl_speed_milli.saturating_add(50);
                    None
                } else if c == '-' {
                    if self.vinyl_speed_milli > 50 {
                        self.vinyl_speed_milli = self.vinyl_speed_milli - 50;
                    }
                    None
                } else {
                    None
                }
            },
            _ => None,
        }
    }
}

/// Total duration a probe's frame count and sample rate determine, in
/// milliseconds, rounded down; absent when either is unknown, the rate is
/// zero, or the value does not fit — the recoverable degraded mode in which
/// playback continues without progress reporting.
pub open spec fn spec_duration_ms(n_frames: Option<u64>, sample_rate: Option<u32>) -> Option<
    u64,
> {
    match (n_frames, sample_rate) {
        (Some(n), Some(sr)) => if sr == 0 {
            None
        } else if n * 1000 / (sr as int) <= u64::MAX {
            Some((n * 1000 / (sr as int)) as u64)
        } else {
            None
        },
        _ => None,
    }
}

/// Computes the total duration the probe determined, if it did.
pub fn duration_ms_from_probe(n_frames: Option<u64>, sample_rate: Option<u32>) -> (r: Option<
    u64,
>)
    ensures
        r == spec_duration_ms(n_frames, sample_rate),
{
    match (n_frames, sample_rate) {
        (Some(n), Some(sr)) => {
            if sr == 0 {
                None
            } else {
                let ms = (n as u128) * 1000 / (sr as u128);
                if ms <= u64::MAX as u128 {
                    Some(ms as u64)
                } else {
                    None
                }
            }
        },
        _ => None,
    }
}

/// Display title of a path: its bare file name without the last extension,
/// or the fixed fallback text when that is empty.
pub open spec fn spec_display_name(path: Seq<char>) -> Seq<char> {
    let stem = names::spec_file_stem(names::spec_file_name(path));
    if stem.len() == 0 {
        "not found"@
    } else {
        stem
    }
}

/// Law: a pause at `t1` followed by a resume at `t2` grows the committed
/// elapsed time by exactly the running interval before the pause
/// (`t1` minus the segment start) and by none of the paused interval
/// (`t2 - t1`), and leaves the transport playing.
pub proof fn lemma_toggle_commits_only_running_time(s: MusicPlayer, t1: u64, t2: u64)
    requires
        s.wf(),
        s.playing(),
        s.time_wf(t1 as int),
        t1 <= t2,
    ensures
        s.spec_pause(t1).spec_resume(t2).elapsed_before_pause_ms == s.elapsed_before_pause_ms + (
        t1 - s.start_time_ms->0),
        s.spec_pause(t1).elapsed_before_pause_ms == s.elapsed_before_pause_ms + (t1
            - s.start_time_ms->0),
        s.spec_pause(t1).spec_resume(t2).playing(),
        s.spec_pause(t1).spec_resume(t2).wf(),
{
}

/// Law: with a fixed total duration, reported elapsed time and progress
/// never decrease with time, and both are constant while paused.
pub proof fn lemma_progress_monotonic(s: MusicPlayer, n1: int, n2: int)
    requires
        s.wf(),
        n1 <= n2,
    ensures
        s.spec_current_elapsed_ms(n1) <= s.spec_current_elapsed_ms(n2),
        s.playing() ==> s.spec_progress_permille(n1) <= s.spec_progress_permille(n2),
        s.paused() ==> s.spec_progress_permille(n1) == s.spec_progress_permille(n2),
{
    match s.total_duration_ms {
        Some(d) => {
            if d > 0 {
                lemma_div_is_ordered(
                    s.spec_current_elapsed_ms(n1) * 1000,
                    s.spec_current_elapsed_ms(n2) * 1000,
                    d as int,
                );
            }
        },
        None => {},
    }
}

/// Law: cleaning up an already cleaned-up transport changes nothing.
pub proof fn lemma_cleanup_idempotent(s: MusicPlayer)
    ensures
        s.spec_cleanup().spec_cleanup() == s.spec_cleanup(),
{
}

} // verus!
