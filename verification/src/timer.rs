//! Break timer state machine.
//!
//! A `Timer` counts down a work interval (`Running`), then a break
//! (`Break`), then starts the next work interval, once per `tick`
//! (one tick stands for one second).

use vstd::prelude::*;

use crate::text::{clock, timer_clock};

verus! {

#[derive(Debug, Clone, Copy, PartialEq, Eq, Structural)]
pub enum Phase {
    Idle,
    Running,
    Break,
    Paused,
}

#[derive(Debug, Clone, Copy, PartialEq, Eq, Structural)]
pub enum Transition {
    EnteredBreak,
    EnteredRunning,
}

pub struct Timer {
    pub phase: Phase,
    pub remaining_ms: i64,
    pub interval_minutes: u32,
    pub duration_seconds: u32,
}

/// Milliseconds in a work interval of `minutes` minutes.
pub open spec fn work_ms(minutes: u32) -> int {
    minutes * 60000
}

/// Milliseconds in a break of `seconds` seconds.
pub open spec fn break_ms(seconds: u32) -> int {
    seconds * 1000
}

/// The phases in which a tick counts down.
pub open spec fn counts_down(p: Phase) -> bool {
    p == Phase::Running || p == Phase::Break
}

/// `t` at the start of a fresh work interval.
pub open spec fn started(t: Timer) -> Timer {
    Timer { phase: Phase::Running, remaining_ms: work_ms(t.interval_minutes) as i64, ..t }
}

/// `t` at the start of a break.
pub open spec fn in_break(t: Timer) -> Timer {
    Timer { phase: Phase::Break, remaining_ms: break_ms(t.duration_seconds) as i64, ..t }
}

/// `t` after a pause request: only a running timer pauses.
pub open spec fn paused(t: Timer) -> Timer {
    if t.phase == Phase::Running {
        Timer { phase: Phase::Paused, ..t }
    } else {
        t
    }
}

/// `t` after a resume request: only a paused timer resumes.
pub open spec fn resumed(t: Timer) -> Timer {
    if t.phase == Phase::Paused {
        Timer { phase: Phase::Running, ..t }
    } else {
        t
    }
}

/// `t` after the pause/resume toggle of the tray menu and of the settings
/// window: running pauses, paused resumes, idle starts, a break goes on.
pub open spec fn toggled(t: Timer) -> Timer {
    match t.phase {
        Phase::Running => paused(t),
        Phase::Paused => resumed(t),
        Phase::Idle => started(t),
        Phase::Break => t,
    }
}

/// One tick: the new timer and the phase change it reports, if any.
pub open spec fn tick_step(t: Timer) -> (Timer, Option<Transition>) {
    if !counts_down(t.phase) {
        (t, None)
    } else if t.remaining_ms - 1000 > 0 {
        (Timer { remaining_ms: (t.remaining_ms - 1000) as i64, ..t }, None)
    } else if t.phase == Phase::Running {
        (in_break(t), Some(Transition::EnteredBreak))
    } else {
        (started(t), Some(Transition::EnteredRunning))
    }
}

/// `n` ticks in a row: the final timer and what each tick reported.
pub open spec fn run(t: Timer, n: nat) -> (Timer, Seq<Option<Transition>>)
    decreases n,
{
    if n == 0 {
        (t, Seq::empty())
    } else {
        let (before, reports) = run(t, (n - 1) as nat);
        let (after, report) = tick_step(before);
        (after, reports.push(report))
    }
}

/// The remaining time, negative values counted as zero.
pub open spec fn clamped_ms(t: Timer) -> int {
    if t.remaining_ms > 0 {
        t.remaining_ms as int
    } else {
        0
    }
}

/// Whole minutes of the remaining time.
pub open spec fn remaining_minutes(t: Timer) -> int {
    clamped_ms(t) / 60000
}

/// Whole seconds past the whole minutes of the remaining time.
pub open spec fn remaining_seconds(t: Timer) -> int {
    (clamped_ms(t) % 60000) / 1000
}

/// How many ticks a countdown of `ms` milliseconds lasts: at least one,
/// else one per started second.
pub open spec fn ticks_to_switch(ms: int) -> nat {
    if ms <= 1000 {
        1
    } else {
        ((ms + 999) / 1000) as nat
    }
}

/// Ticks of a work interval of `minutes` minutes.
pub open spec fn work_ticks(minutes: u32) -> nat {
    ticks_to_switch(work_ms(minutes))
}

/// Ticks of a break of `seconds` seconds.
pub open spec fn break_ticks(seconds: u32) -> nat {
    ticks_to_switch(break_ms(seconds))
}

/// `n` ticks that report nothing.
pub open spec fn quiet(n: nat) -> Seq<Option<Transition>> {
    Seq::new(n, |i: int| None::<Transition>)
}

/// Pausing a running timer and then resuming it gives back the same timer.
pub proof fn pause_then_resume(t: Timer)
    requires
        t.phase == Phase::Running,
    ensures
        resumed(paused(t)) == t,
{
}

/// Resuming a paused timer and then pausing it gives back the same timer.
pub proof fn resume_then_pause(t: Timer)
    requires
        t.phase == Phase::Paused,
    ensures
        paused(resumed(t)) == t,
{
}

/// The toggle undoes itself on a running or a paused timer.
pub proof fn toggle_twice(t: Timer)
    requires
        t.phase == Phase::Running || t.phase == Phase::Paused,
    ensures
        toggled(toggled(t)) == t,
{
}

/// An idle or paused timer does not move: a tick leaves it as it is and
/// reports nothing, however many ticks come.
pub proof fn frozen_unless_counting(t: Timer, n: nat)
    requires
        !counts_down(t.phase),
    ensures
        tick_step(t) == (t, None::<Transition>),
        run(t, n).0 == t,
        run(t, n).1 =~= quiet(n),
    decreases n,
{
    if n > 0 {
        frozen_unless_counting(t, (n - 1) as nat);
    }
}

/// A tick never changes the interval or the break length, leaves a
/// counting timer counting with no negative time left, and leaves any other
/// timer in the phase it was in.
pub proof fn tick_keeps_settings(t: Timer)
    ensures
        tick_step(t).0.interval_minutes == t.interval_minutes,
        tick_step(t).0.duration_seconds == t.duration_seconds,
        counts_down(t.phase) ==> counts_down(tick_step(t).0.phase),
        counts_down(t.phase) ==> tick_step(t).0.remaining_ms >= 0,
        !counts_down(t.phase) ==> tick_step(t).0.phase == t.phase,
{
}

/// The minutes and seconds shown are the remaining time cut down to whole
/// seconds: `minutes * 60000 + seconds * 1000 <= ms < ... + 1000`, with
/// fewer than sixty seconds.
pub proof fn remaining_decomposes(t: Timer)
    ensures
        0 <= remaining_seconds(t) < 60,
        0 <= remaining_minutes(t),
        remaining_minutes(t) * 60000 + remaining_seconds(t) * 1000 <= clamped_ms(t),
        clamped_ms(t) < remaining_minutes(t) * 60000 + remaining_seconds(t) * 1000 + 1000,
{
}

/// Ticking `a` times and then `b` times is ticking `a + b` times.
pub proof fn run_split(t: Timer, a: nat, b: nat)
    ensures
        run(t, a + b).0 == run(run(t, a).0, b).0,
        run(t, a + b).1 =~= run(t, a).1 + run(run(t, a).0, b).1,
    decreases b,
{
    if b > 0 {
        run_split(t, a, (b - 1) as nat);
        assert(run(t, a + b).1 =~= run(t, (a + b - 1) as nat).1.push(
            tick_step(run(t, (a + b - 1) as nat).0).1,
        ));
    }
}

proof fn countdown(t: Timer, j: nat)
    requires
        counts_down(t.phase),
        j > 0 ==> t.remaining_ms - 1000 * j > 0,
    ensures
        run(t, j).0 == (Timer { remaining_ms: (t.remaining_ms - 1000 * j) as i64, ..t }),
        run(t, j).1 =~= quiet(j),
    decreases j,
{
    if j > 0 {
        countdown(t, (j - 1) as nat);
        assert(run(t, j).1 =~= quiet((j - 1) as nat).push(None));
    }
}

/// A countdown runs out after exactly `ticks_to_switch(remaining)` ticks:
/// every tick before the last reports nothing, the last one reports the
/// phase change, a work interval turns into a break and a break into a
/// fresh work interval.
pub proof fn countdown_ends(t: Timer)
    requires
        counts_down(t.phase),
    ensures
        ({
            let n = ticks_to_switch(t.remaining_ms as int);
            &&& run(t, n).0 == (if t.phase == Phase::Running {
                in_break(t)
            } else {
                started(t)
            })
            &&& run(t, n).1 =~= quiet((n - 1) as nat).push(
                Some(
                    if t.phase == Phase::Running {
                        Transition::EnteredBreak
                    } else {
                        Transition::EnteredRunning
                    },
                ),
            )
        }),
{
    let n = ticks_to_switch(t.remaining_ms as int);
    let r = t.remaining_ms as int;
    if r > 1000 {
        assert(r - 1000 * (n - 1) > 0 && r - 1000 * n <= 0);
    }
    countdown(t, (n - 1) as nat);
}

/// The schedule of a started timer: a work interval of
/// `work_ticks(interval)` ticks ends in a break, the break ends after
/// `break_ticks(duration)` more ticks in the same started timer, and only
/// those two ticks report a phase change.
pub proof fn work_break_cycle(x: Timer)
    ensures
        ({
            let s = started(x);
            let w = work_ticks(x.interval_minutes);
            let b = break_ticks(x.duration_seconds);
            &&& run(s, w).0 == in_break(x)
            &&& run(s, w).1 =~= quiet((w - 1) as nat).push(Some(Transition::EnteredBreak))
            &&& run(s, w + b).0 == s
            &&& run(s, w + b).1 =~= quiet((w - 1) as nat).push(Some(Transition::EnteredBreak))
                + quiet((b - 1) as nat).push(Some(Transition::EnteredRunning))
        }),
{
    let s = started(x);
    let w = work_ticks(x.interval_minutes);
    let b = break_ticks(x.duration_seconds);
    countdown_ends(s);
    countdown_ends(in_break(s));
    run_split(s, w, b);
    assert(in_break(s) == in_break(x));
    assert(started(in_break(s)) == s);
}

/// A resume request acts on a paused timer only: a paused timer goes on
/// running with the time it had left, and a timer in any other phase is
/// left exactly as it is. The countdown and the settings never change.
pub proof fn resume_acts_on_paused_only(t: Timer)
    ensures
        resumed(t).remaining_ms == t.remaining_ms,
        resumed(t).interval_minutes == t.interval_minutes,
        resumed(t).duration_seconds == t.duration_seconds,
        t.phase == Phase::Paused ==> resumed(t).phase == Phase::Running,
        t.phase != Phase::Paused ==> resumed(t) == t,
{
}

/// A pause request acts on a running timer only: it stops the countdown
/// where it is, and leaves a timer in any other phase exactly as it is.
pub proof fn pause_acts_on_running_only(t: Timer)
    ensures
        paused(t).remaining_ms == t.remaining_ms,
        paused(t).interval_minutes == t.interval_minutes,
        paused(t).duration_seconds == t.duration_seconds,
        t.phase == Phase::Running ==> paused(t).phase == Phase::Paused,
        t.phase != Phase::Running ==> paused(t) == t,
{
}

/// The toggle leaves a break alone, keeps the time left of every timer that
/// is not idle (pausing and resuming only switch the phase), starts a full
/// work interval only from idle, and never changes the settings.
pub proof fn toggle_keeps_countdown(t: Timer)
    ensures
        t.phase == Phase::Break ==> toggled(t) == t,
        t.phase != Phase::Idle ==> toggled(t).remaining_ms == t.remaining_ms,
        t.phase == Phase::Idle ==> toggled(t).phase == Phase::Running && toggled(t).remaining_ms
            == t.interval_minutes * 60000,
        t.phase == Phase::Running ==> toggled(t).phase == Phase::Paused,
        t.phase == Phase::Paused ==> toggled(t).phase == Phase::Running,
        toggled(t).interval_minutes == t.interval_minutes,
        toggled(t).duration_seconds == t.duration_seconds,
{
}

/// Pausing a running timer, letting any number of ticks pass, and resuming
/// it gives back the timer as it was: time spent paused does not count
/// down, and no tick while paused reports anything.
pub proof fn pause_ticks_resume(t: Timer, n: nat)
    requires
        t.phase == Phase::Running,
    ensures
        run(paused(t), n).1 =~= quiet(n),
        resumed(run(paused(t), n).0) == t,
{
    frozen_unless_counting(paused(t), n);
}

/// Before a countdown runs out, every tick keeps the phase, counts down one
/// second and reports nothing: after `j` ticks, `j` below
/// `ticks_to_switch(remaining)`, the timer is in its phase with
/// `remaining - 1000 * j` left.
pub proof fn countdown_before_switch(t: Timer, j: nat)
    requires
        counts_down(t.phase),
        j < ticks_to_switch(t.remaining_ms as int),
    ensures
        run(t, j).0.phase == t.phase,
        run(t, j).0.remaining_ms == t.remaining_ms - 1000 * j,
        run(t, j).1 =~= quiet(j),
{
    let r = t.remaining_ms as int;
    if j > 0 && r > 1000 {
        assert(r - 1000 * j > 0);
    }
    countdown(t, j);
}

/// For a countdown that has not gone below zero, the number of ticks it
/// lasts is `max(1, (remaining + 999) / 1000)`.
pub proof fn ticks_to_switch_formula(r: int)
    requires
        r >= 0,
    ensures
        ticks_to_switch(r) == (if (r + 999) / 1000 >= 1 {
            (r + 999) / 1000
        } else {
            1
        }),
{
}

impl Timer {
    pub fn new(interval_minutes: u32, duration_seconds: u32) -> (t: Self)
        ensures
            t.phase == Phase::Idle,
            t.remaining_ms == 0,
            t.interval_minutes == interval_minutes,
            t.duration_seconds == duration_seconds,
    {
        Self { phase: Phase::Idle, remaining_ms: 0, interval_minutes, duration_seconds }
    }

    /// Begins a fresh work interval.
    pub fn start(&mut self)
        ensures
            *final(self) == started(*old(self)),
    {
        self.remaining_ms = self.interval_minutes as i64 * 60 * 1000;
        self.phase = Phase::Running;
    }

    pub fn pause(&mut self)
        ensures
            *final(self) == paused(*old(self)),
            final(self).phase == (if old(self).phase == Phase::Running {
                Phase::Paused
            } else {
                old(self).phase
            }),
            final(self).remaining_ms == old(self).remaining_ms,
            final(self).interval_minutes == old(self).interval_minutes,
            final(self).duration_seconds == old(self).duration_seconds,
    {
        if self.phase == Phase::Running {
            self.phase = Phase::Paused;
        }
    }

    pub fn resume(&mut self)
        ensures
            *final(self) == resumed(*old(self)),
            final(self).phase == (if old(self).phase == Phase::Paused {
                Phase::Running
            } else {
                old(self).phase
            }),
            final(self).remaining_ms == old(self).remaining_ms,
            final(self).interval_minutes == old(self).interval_minutes,
            final(self).duration_seconds == old(self).duration_seconds,
    {
        if self.phase == Phase::Paused {
            self.phase = Phase::Running;
        }
    }

    /// Begins a break at once, whatever the phase.
    pub fn trigger_break(&mut self)
        ensures
            *final(self) == in_break(*old(self)),
    {
        self.phase = Phase::Break;
        self.remaining_ms = self.duration_seconds as i64 * 1000;
    }

    /// The pause/resume toggle: pauses a running timer, resumes a paused
    /// one, starts an idle one and leaves a break alone.
    pub fn toggle(&mut self)
        ensures
            *final(self) == toggled(*old(self)),
            final(self).phase == match old(self).phase {
                Phase::Running => Phase::Paused,
                Phase::Paused => Phase::Running,
                Phase::Idle => Phase::Running,
                Phase::Break => Phase::Break,
            },
            old(self).phase != Phase::Idle ==> final(self).remaining_ms == old(self).remaining_ms,
            old(self).phase == Phase::Idle ==> final(self).remaining_ms == work_ms(old(self).interval_minutes),
            final(self).interval_minutes == old(self).interval_minutes,
            final(self).duration_seconds == old(self).duration_seconds,
    {
        match self.phase {
            Phase::Running => self.pause(),
            Phase::Paused => self.resume(),
            Phase::Idle => self.start(),
            Phase::Break => {},
        }
    }

    /// Counts one second down; reports the phase change when the countdown
    /// runs out.
    pub fn tick(&mut self) -> (r: Option<Transition>)
        requires
            counts_down(old(self).phase) ==> old(self).remaining_ms >= i64::MIN + 1000,
        ensures
            (*final(self), r) == tick_step(*old(self)),
    {
        if self.phase != Phase::Running && self.phase != Phase::Break {
            return None;
        }
        self.remaining_ms = self.remaining_ms - 1000;
        if self.remaining_ms <= 0 {
            match self.phase {
                Phase::Running => {
                    self.trigger_break();
                    Some(Transition::EnteredBreak)
                },
                Phase::Break => {
                    self.start();
                    Some(Transition::EnteredRunning)
                },
                _ => None,
            }
        } else {
            None
        }
    }

    /// Whole minutes and the seconds past them of the remaining time.
    pub fn remaining(&self) -> (r: (i64, i64))
        ensures
            r.0 == remaining_minutes(*self),
            r.1 == remaining_seconds(*self),
    {
        let total: i64 = if self.remaining_ms > 0 {
            self.remaining_ms
        } else {
            0
        };
        (total / 60000, (total % 60000) / 1000)
    }

    /// The remaining time as `mm:ss`, each part padded to two digits.
    pub fn formatted(&self) -> (s: String)
        ensures
            s@ == timer_clock(*self),
    {
        let (m, s) = self.remaining();
        clock(m as u64, s as u64)
    }

    /// Sets the work interval; a running timer starts it afresh.
    pub fn update_interval(&mut self, minutes: u32)
        ensures
            *final(self) == (if old(self).phase == Phase::Running {
                started(Timer { interval_minutes: minutes, ..*old(self) })
            } else {
                Timer { interval_minutes: minutes, ..*old(self) }
            }),
    {
        self.interval_minutes = minutes;
        if self.phase == Phase::Running {
            self.start();
        }
    }

    /// Sets the break length; the current countdown goes on unchanged.
    pub fn update_duration(&mut self, seconds: u32)
        ensures
            *final(self) == (Timer { duration_seconds: seconds, ..*old(self) }),
    {
        self.duration_seconds = seconds;
    }
}

} // verus!
