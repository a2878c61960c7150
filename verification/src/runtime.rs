//! The decisions of the application's main loop.
//!
//! The loop wakes every 16 ms. On every 13th wake-up it looks whether the
//! sprite frames have finished loading (until they have) and polls the tray
//! menu; on every 63rd it ticks the timer. On every wake-up it moves the
//! overlay windows one step on: it opens them when a break is on and the
//! frames are there, animates them while the break lasts, and tears them
//! down once the break is over. A failure to open or to update the windows
//! is retried one second later. The windows themselves, the clock and the
//! tray are the caller's; this module decides what to do with them.

use vstd::prelude::*;

use crate::timer::{Phase, Timer, in_break, toggled};

verus! {

/// Wake-ups between two looks at the sprite loader and at the tray menu.
pub const POLL_EVERY: u64 = 13;

/// Wake-ups between two timer ticks.
pub const TICK_EVERY: u64 = 63;

/// Milliseconds to wait before the overlay windows are tried again.
pub const RETRY_DELAY_MS: u64 = 1000;

/// What one wake-up of the loop has to do besides the overlay step.
#[derive(Debug, Clone, Copy, PartialEq, Eq, Structural)]
pub struct Chores {
    pub check_frames: bool,
    pub tick_timer: bool,
    pub poll_tray: bool,
}

/// The overlay step of one wake-up.
#[derive(Debug, Clone, Copy, PartialEq, Eq, Structural)]
pub enum OverlayStep {
    /// A break is on and the windows are not shown: seed the cockroaches
    /// first if `prepare`, then (re)open the windows if `retry_ready`.
    Open { prepare: bool, retry_ready: bool },
    /// The break is over: empty the shown windows if `clear_views`, and
    /// drop the cockroaches.
    Teardown { clear_views: bool },
    /// The break goes on and the windows are shown: animate them.
    Animate,
    /// Nothing to do.
    Wait,
}

/// A command from the tray menu.
#[derive(Debug, Clone, Copy, PartialEq, Eq, Structural)]
pub enum TrayCommand {
    ToggleTimer,
    TriggerBreak,
    OpenSettings,
    Quit,
}

/// The state that the main loop carries from one wake-up to the next.
pub struct LoopState {
    tick: u64,
    frames_loaded: bool,
    overlays_active: bool,
    break_initialized: bool,
    retry_at_ms: Option<u64>,
}

/// The abstract state of the loop.
pub struct LoopView {
    pub tick: nat,
    pub frames_loaded: bool,
    pub overlays_active: bool,
    pub break_initialized: bool,
    pub retry_at_ms: Option<nat>,
}

/// Whether a failed attempt that asked to wait until `retry_at` allows a
/// new attempt at `now`.
pub open spec fn retry_ready_at(retry_at: Option<nat>, now: nat) -> bool {
    match retry_at {
        None => true,
        Some(at) => now >= at,
    }
}

/// The overlay step for the loop state `s`, the timer phase and whether
/// the frames are loaded, and the state after it.
pub open spec fn overlay_step_spec(s: LoopView, phase: Phase, frames_ok: bool, now: nat) -> (
    OverlayStep,
    LoopView,
) {
    if phase == Phase::Break && !s.overlays_active && frames_ok {
        (
            OverlayStep::Open {
                prepare: !s.break_initialized,
                retry_ready: retry_ready_at(s.retry_at_ms, now),
            },
            LoopView { break_initialized: true, ..s },
        )
    } else if phase != Phase::Break && s.break_initialized {
        (
            OverlayStep::Teardown { clear_views: s.overlays_active },
            LoopView { overlays_active: false, break_initialized: false, retry_at_ms: None, ..s },
        )
    } else if phase == Phase::Break && s.overlays_active {
        (OverlayStep::Animate, s)
    } else {
        (OverlayStep::Wait, s)
    }
}

/// The timer after a tray command.
pub open spec fn command_effect(t: Timer, cmd: TrayCommand) -> Timer {
    match cmd {
        TrayCommand::ToggleTimer => toggled(t),
        TrayCommand::TriggerBreak => in_break(t),
        _ => t,
    }
}

impl View for LoopState {
    type V = LoopView;

    closed spec fn view(&self) -> LoopView {
        LoopView {
            tick: self.tick as nat,
            frames_loaded: self.frames_loaded,
            overlays_active: self.overlays_active,
            break_initialized: self.break_initialized,
            retry_at_ms: match self.retry_at_ms {
                Some(at) => Some(at as nat),
                None => None,
            },
        }
    }
}

impl LoopView {
    /// Windows are only ever shown for a break that was prepared.
    pub open spec fn wf(self) -> bool {
        self.overlays_active ==> self.break_initialized
    }
}

impl LoopState {
    /// The state before the first wake-up.
    pub fn new() -> (s: Self)
        ensures
            s@ == (LoopView {
                tick: 0,
                frames_loaded: false,
                overlays_active: false,
                break_initialized: false,
                retry_at_ms: None,
            }),
            s@.wf(),
    {
        LoopState {
            tick: 0,
            frames_loaded: false,
            overlays_active: false,
            break_initialized: false,
            retry_at_ms: None,
        }
    }

    /// Counts a wake-up and says which chores fall on it.
    pub fn begin_iteration(&mut self) -> (c: Chores)
        requires
            old(self)@.tick < u64::MAX,
        ensures
            final(self)@ == (LoopView { tick: old(self)@.tick + 1, ..old(self)@ }),
            c.check_frames == (!old(self)@.frames_loaded && (old(self)@.tick + 1) % 13 == 0),
            c.tick_timer == ((old(self)@.tick + 1) % 63 == 0),
            c.poll_tray == ((old(self)@.tick + 1) % 13 == 0),
    {
        self.tick = self.tick + 1;
        Chores {
            check_frames: !self.frames_loaded && self.tick % POLL_EVERY == 0,
            tick_timer: self.tick % TICK_EVERY == 0,
            poll_tray: self.tick % POLL_EVERY == 0,
        }
    }

    /// Records that the sprite frames have been loaded.
    pub fn frames_arrived(&mut self)
        ensures
            final(self)@ == (LoopView { frames_loaded: true, ..old(self)@ }),
    {
        self.frames_loaded = true;
    }

    /// Decides the overlay step of this wake-up.
    pub fn overlay_step(&mut self, phase: Phase, frames_ok: bool, now_ms: u64) -> (step:
        OverlayStep)
        requires
            old(self)@.wf(),
        ensures
            (step, final(self)@) == overlay_step_spec(old(self)@, phase, frames_ok, now_ms as nat),
            final(self)@.wf(),
    {
        if phase == Phase::Break && !self.overlays_active && frames_ok {
            let prepare = !self.break_initialized;
            self.break_initialized = true;
            let retry_ready = match self.retry_at_ms {
                None => true,
                Some(at) => now_ms >= at,
            };
            OverlayStep::Open { prepare, retry_ready }
        } else if phase != Phase::Break && self.break_initialized {
            let clear_views = self.overlays_active;
            self.overlays_active = false;
            self.break_initialized = false;
            self.retry_at_ms = None;
            OverlayStep::Teardown { clear_views }
        } else if phase == Phase::Break && self.overlays_active {
            OverlayStep::Animate
        } else {
            OverlayStep::Wait
        }
    }

    /// Records how an attempt to show the overlays went: `opened` windows
    /// for `wanted` displays, and whether pushing the cockroaches to them
    /// failed. The windows count as shown only when every display got one
    /// and every update went through; otherwise the next attempt waits a
    /// second. Returns whether they are shown.
    pub fn overlays_opened(&mut self, opened: usize, wanted: usize, update_failed: bool, now_ms: u64) -> (shown: bool)
        requires
            old(self)@.wf(),
            old(self)@.break_initialized,
            now_ms <= u64::MAX - 1000,
        ensures
            shown == (opened == wanted && !update_failed),
            shown ==> final(self)@ == (LoopView {
                overlays_active: true,
                retry_at_ms: None,
                ..old(self)@
            }),
            !shown ==> final(self)@ == (LoopView {
                retry_at_ms: Some((now_ms + 1000) as nat),
                ..old(self)@
            }),
            final(self)@.wf(),
    {
        if opened == wanted && !update_failed {
            self.overlays_active = true;
            self.retry_at_ms = None;
            true
        } else {
            self.retry_at_ms = Some(now_ms + RETRY_DELAY_MS);
            false
        }
    }

    /// Records a failed update of the shown windows: they are dropped and
    /// opened again one second later.
    pub fn animation_failed(&mut self, now_ms: u64)
        requires
            old(self)@.wf(),
            now_ms <= u64::MAX - 1000,
        ensures
            final(self)@ == (LoopView {
                overlays_active: false,
                retry_at_ms: Some((now_ms + 1000) as nat),
                ..old(self)@
            }),
            final(self)@.wf(),
    {
        self.overlays_active = false;
        self.retry_at_ms = Some(now_ms + RETRY_DELAY_MS);
    }

    /// How many wake-ups have been counted.
    pub fn iterations(&self) -> (n: u64)
        ensures
            n == self@.tick,
    {
        self.tick
    }

    /// Whether the overlay windows are shown.
    pub fn overlays_active(&self) -> (b: bool)
        ensures
            b == self@.overlays_active,
    {
        self.overlays_active
    }
}

/// Applies a tray command to the timer: the toggle pauses, resumes or
/// starts it, the break command begins a break at once, and opening the
/// settings or quitting leave it alone.
pub fn apply_command(timer: &mut Timer, cmd: TrayCommand)
    ensures
        *final(timer) == command_effect(*old(timer), cmd),
        cmd == TrayCommand::ToggleTimer ==> final(timer).phase == match old(timer).phase {
            Phase::Running => Phase::Paused,
            Phase::Paused => Phase::Running,
            Phase::Idle => Phase::Running,
            Phase::Break => Phase::Break,
        },
        cmd == TrayCommand::ToggleTimer && old(timer).phase != Phase::Idle
            ==> final(timer).remaining_ms == old(timer).remaining_ms,
        cmd == TrayCommand::TriggerBreak ==> final(timer).phase == Phase::Break
            && final(timer).remaining_ms == old(timer).duration_seconds * 1000,
        (cmd == TrayCommand::OpenSettings || cmd == TrayCommand::Quit) ==> *final(timer) == *old(timer),
        final(timer).interval_minutes == old(timer).interval_minutes,
        final(timer).duration_seconds == old(timer).duration_seconds,
{
    match cmd {
        TrayCommand::ToggleTimer => timer.toggle(),
        TrayCommand::TriggerBreak => timer.trigger_break(),
        TrayCommand::OpenSettings => {},
        TrayCommand::Quit => {},
    }
}

/// Once the break is over, the next overlay step tears the windows down
/// if a break had been prepared, and leaves the loop with no windows, no
/// prepared break and no pending retry; if none had been, it does nothing.
pub proof fn break_end_tears_down(s: LoopView, phase: Phase, frames_ok: bool, now: nat)
    requires
        s.wf(),
        phase != Phase::Break,
    ensures
        s.break_initialized ==> overlay_step_spec(s, phase, frames_ok, now) == (
            OverlayStep::Teardown { clear_views: s.overlays_active },
            LoopView { overlays_active: false, break_initialized: false, retry_at_ms: None, ..s },
        ),
        !s.break_initialized ==> overlay_step_spec(s, phase, frames_ok, now) == (
            OverlayStep::Wait,
            s,
        ),
{
}

/// During a break the cockroaches are seeded once: after the first open
/// step, later open steps of the same break do not prepare again.
pub proof fn prepare_once_per_break(s: LoopView, frames_ok: bool, now1: nat, now2: nat)
    requires
        s.wf(),
        frames_ok,
        !s.overlays_active,
    ensures
        ({
            let (step1, s1) = overlay_step_spec(s, Phase::Break, frames_ok, now1);
            let (step2, s2) = overlay_step_spec(s1, Phase::Break, frames_ok, now2);
            &&& step1 matches OverlayStep::Open { prepare, .. } && prepare == !s.break_initialized
            &&& step2 matches OverlayStep::Open { prepare, .. } && !prepare
        }),
{
}

/// A failed attempt at `now` holds new attempts back for exactly one
/// second: an open step at `later` is ready iff `later >= now + 1000`.
pub proof fn retry_waits_one_second(s: LoopView, now: nat, later: nat)
    requires
        s.wf(),
        s.break_initialized,
        !s.overlays_active,
    ensures
        ({
            let failed = LoopView { retry_at_ms: Some(now + 1000), ..s };
            overlay_step_spec(failed, Phase::Break, true, later).0 == (OverlayStep::Open {
                prepare: false,
                retry_ready: later >= now + 1000,
            })
        }),
{
}

/// Where and how large each display's overlay is: the bits of x and y, and
/// the bits of width and height.
pub type DisplaySignature = (u64, u64, u32, u32);

/// Whether the open overlay windows can be reused: there are some, and the
/// displays they were opened for (`old_sig`) are the displays now
/// (`new_sig`), in the same order. Otherwise open windows are disposed of
/// and opened afresh.
pub fn keep_windows(open: usize, old_sig: &Vec<DisplaySignature>, new_sig: &Vec<DisplaySignature>) -> (keep: bool)
    ensures
        keep == (open > 0 && old_sig@ == new_sig@),
{
    if open == 0 {
        return false;
    }
    if old_sig.len() != new_sig.len() {
        return false;
    }
    let mut i: usize = 0;
    while i < old_sig.len()
        invariant
            0 <= i <= old_sig@.len(),
            old_sig@.len() == new_sig@.len(),
            forall|k: int| 0 <= k < i ==> old_sig@[k] == new_sig@[k],
        decreases old_sig@.len() - i,
    {
        let a = old_sig[i];
        let b = new_sig[i];
        if a.0 != b.0 || a.1 != b.1 || a.2 != b.2 || a.3 != b.3 {
            assert(old_sig@[i as int] != new_sig@[i as int]);
            return false;
        }
        i = i + 1;
    }
    assert(old_sig@ =~= new_sig@);
    true
}

/// The tray's toggle resumes a paused timer where it stopped: it runs again
/// with the same time left. More generally, the toggle keeps the time left
/// of every timer that is not idle, and no command changes the settings.
pub proof fn tray_toggle_keeps_countdown(t: Timer)
    ensures
        t.phase == Phase::Paused ==> command_effect(t, TrayCommand::ToggleTimer) == (Timer {
            phase: Phase::Running,
            ..t
        }),
        t.phase != Phase::Idle ==> command_effect(t, TrayCommand::ToggleTimer).remaining_ms
            == t.remaining_ms,
        t.phase == Phase::Break ==> command_effect(t, TrayCommand::ToggleTimer) == t,
        command_effect(t, TrayCommand::TriggerBreak).phase == Phase::Break,
        command_effect(t, TrayCommand::TriggerBreak).remaining_ms == t.duration_seconds * 1000,
        command_effect(t, TrayCommand::OpenSettings) == t,
        command_effect(t, TrayCommand::Quit) == t,
{
}

} // verus!
