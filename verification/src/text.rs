//! Text shown for the timer: the `mm:ss` clock, the tray menu labels and
//! the status card of the settings window.

use vstd::prelude::*;

use crate::timer::{remaining_minutes, remaining_seconds, toggled, Phase, Timer};

verus! {

/// The decimal digit `d` (`d < 10`).
pub open spec fn digit_char(d: nat) -> char {
    if d == 0 {
        '0'
    } else if d == 1 {
        '1'
    } else if d == 2 {
        '2'
    } else if d == 3 {
        '3'
    } else if d == 4 {
        '4'
    } else if d == 5 {
        '5'
    } else if d == 6 {
        '6'
    } else if d == 7 {
        '7'
    } else if d == 8 {
        '8'
    } else {
        '9'
    }
}

/// `n` written in decimal, without leading zeros.
pub open spec fn decimal(n: nat) -> Seq<char>
    decreases n,
{
    if n < 10 {
        seq![digit_char(n)]
    } else {
        decimal(n / 10).push(digit_char(n % 10))
    }
}

/// `n` in decimal, padded with a zero to at least two digits (`{:02}`).
pub open spec fn zero_padded(n: nat) -> Seq<char> {
    if n < 10 {
        seq!['0', digit_char(n)]
    } else {
        decimal(n)
    }
}

/// The clock `mm:ss` (`{:02}:{:02}`).
pub open spec fn clock_text(minutes: nat, seconds: nat) -> Seq<char> {
    zero_padded(minutes) + seq![':'] + zero_padded(seconds)
}

/// The clock of the time that `t` has left.
pub open spec fn timer_clock(t: Timer) -> Seq<char> {
    clock_text(remaining_minutes(t) as nat, remaining_seconds(t) as nat)
}

/// First tray menu line: what the timer is doing.
pub open spec fn tray_status(phase: Phase, clock: Seq<char>) -> Seq<char> {
    match phase {
        Phase::Running => "⏱ 下次休息还有 "@ + clock,
        Phase::Break => "🪳 休息中！还剩 "@ + clock,
        Phase::Paused => "⏸ 已暂停 — 剩余 "@ + clock,
        Phase::Idle => "⏹ 计时器已停止"@,
    }
}

/// Tooltip of the tray icon.
pub open spec fn tray_tooltip(phase: Phase, clock: Seq<char>) -> Seq<char> {
    match phase {
        Phase::Running => "🪳 下次休息还有 "@ + clock,
        Phase::Break => "🪳 休息时间！还剩 "@ + clock,
        Phase::Paused => "🪳 已暂停 — 剩余 "@ + clock,
        Phase::Idle => "🪳 蟑螂提醒 (已停止)"@,
    }
}

/// Label of the tray menu's pause/resume entry.
pub open spec fn tray_toggle_label(phase: Phase) -> Seq<char> {
    if phase == Phase::Running {
        "⏸  暂停计时"@
    } else {
        "▶  恢复计时"@
    }
}

/// Whether the tray menu's pause/resume entry can be clicked.
pub open spec fn tray_toggle_enabled(phase: Phase) -> bool {
    phase == Phase::Running || phase == Phase::Paused
}

/// Badge of the status card.
pub open spec fn status_badge(phase: Phase) -> Seq<char> {
    match phase {
        Phase::Running => "计时中"@,
        Phase::Break => "休息中"@,
        Phase::Paused => "已暂停"@,
        Phase::Idle => "未开始"@,
    }
}

/// Line of the status card.
pub open spec fn status_line(phase: Phase, clock: Seq<char>) -> Seq<char> {
    match phase {
        Phase::Running => "下次休息还有 "@ + clock,
        Phase::Break => "休息时间，还剩 "@ + clock,
        Phase::Paused => "计时已暂停，剩余 "@ + clock,
        Phase::Idle => "计时器尚未开始"@,
    }
}

/// Label of the settings window's pause/resume button.
pub open spec fn toggle_button_label(phase: Phase) -> Seq<char> {
    if phase == Phase::Running {
        "暂停计时"@
    } else {
        "继续计时"@
    }
}

/// The tray's pause/resume entry is enabled exactly when clicking it
/// pauses or resumes the timer, that is, changes its phase without
/// starting a new countdown.
pub proof fn enabled_toggle_changes_phase(t: Timer)
    ensures
        tray_toggle_enabled(t.phase) ==> toggled(t).phase != t.phase && toggled(t).remaining_ms
            == t.remaining_ms,
        !tray_toggle_enabled(t.phase) ==> t.phase == Phase::Idle || t.phase == Phase::Break,
{
}

/// The seconds part of the clock always has exactly two digits, and the
/// minutes part at least two.
pub proof fn clock_fields(t: Timer)
    ensures
        zero_padded(remaining_seconds(t) as nat).len() == 2,
        zero_padded(remaining_minutes(t) as nat).len() >= 2,
{
    crate::timer::remaining_decomposes(t);
    let s = remaining_seconds(t) as nat;
    if s >= 10 {
        assert(decimal(s / 10) =~= seq![digit_char(s / 10)]);
    }
    decimal_len(remaining_minutes(t) as nat);
}

proof fn decimal_len(n: nat)
    ensures
        decimal(n).len() >= 1,
        n >= 10 ==> decimal(n).len() >= 2,
    decreases n,
{
    if n >= 10 {
        decimal_len(n / 10);
    }
}

fn append_digit(out: &mut String, d: u64)
    requires
        d < 10,
    ensures
        final(out)@ == old(out)@.push(digit_char(d as nat)),
{
    if d == 0 {
        proof {
            reveal_strlit("0");
        }
        out.append("0");
    } else if d == 1 {
        proof {
            reveal_strlit("1");
        }
        out.append("1");
    } else if d == 2 {
        proof {
            reveal_strlit("2");
        }
        out.append("2");
    } else if d == 3 {
        proof {
            reveal_strlit("3");
        }
        out.append("3");
    } else if d == 4 {
        proof {
            reveal_strlit("4");
        }
        out.append("4");
    } else if d == 5 {
        proof {
            reveal_strlit("5");
        }
        out.append("5");
    } else if d == 6 {
        proof {
            reveal_strlit("6");
        }
        out.append("6");
    } else if d == 7 {
        proof {
            reveal_strlit("7");
        }
        out.append("7");
    } else if d == 8 {
        proof {
            reveal_strlit("8");
        }
        out.append("8");
    } else {
        proof {
            reveal_strlit("9");
        }
        out.append("9");
    }
}

fn append_decimal(out: &mut String, n: u64)
    ensures
        final(out)@ == old(out)@ + decimal(n as nat),
    decreases n,
{
    if n >= 10 {
        append_decimal(out, n / 10);
    }
    append_digit(out, n % 10);
    assert(final(out)@ =~= old(out)@ + decimal(n as nat));
}

fn append_zero_padded(out: &mut String, n: u64)
    ensures
        final(out)@ == old(out)@ + zero_padded(n as nat),
{
    if n < 10 {
        proof {
            reveal_strlit("0");
        }
        out.append("0");
    }
    append_decimal(out, n);
    assert(final(out)@ =~= old(out)@ + zero_padded(n as nat));
}

/// The clock `mm:ss`, each part padded with a zero to two digits.
pub fn clock(minutes: u64, seconds: u64) -> (s: String)
    ensures
        s@ == clock_text(minutes as nat, seconds as nat),
{
    let mut s = String::new();
    append_zero_padded(&mut s, minutes);
    proof {
        reveal_strlit(":");
    }
    s.append(":");
    append_zero_padded(&mut s, seconds);
    assert(s@ =~= clock_text(minutes as nat, seconds as nat));
    s
}

fn prefixed(prefix: &str, clock: &String) -> (s: String)
    ensures
        s@ == prefix@ + clock@,
{
    let mut s = String::from_str(prefix);
    s.append(clock.as_str());
    s
}

/// The tray menu labels for `timer`: the status line, the label of the
/// pause/resume entry, whether that entry is enabled, and the tooltip.
pub fn tray_labels(timer: &Timer) -> (r: (String, String, bool, String))
    ensures
        r.0@ == tray_status(timer.phase, timer_clock(*timer)),
        r.1@ == tray_toggle_label(timer.phase),
        r.2 == tray_toggle_enabled(timer.phase),
        r.3@ == tray_tooltip(timer.phase, timer_clock(*timer)),
{
    let f = timer.formatted();
    let (status, tooltip) = match timer.phase {
        Phase::Running => (prefixed("⏱ 下次休息还有 ", &f), prefixed("🪳 下次休息还有 ", &f)),
        Phase::Break => (prefixed("🪳 休息中！还剩 ", &f), prefixed("🪳 休息时间！还剩 ", &f)),
        Phase::Paused => (prefixed("⏸ 已暂停 — 剩余 ", &f), prefixed("🪳 已暂停 — 剩余 ", &f)),
        Phase::Idle => (String::from_str("⏹ 计时器已停止"), String::from_str("🪳 蟑螂提醒 (已停止)")),
    };
    let is_running = timer.phase == Phase::Running;
    let is_paused = timer.phase == Phase::Paused;
    let toggle_label = if is_running {
        "⏸  暂停计时"
    } else {
        "▶  恢复计时"
    };
    let toggle_enabled = is_running || is_paused;
    (status, String::from_str(toggle_label), toggle_enabled, tooltip)
}

/// The status card of the settings window: its badge and its line.
pub fn status_card_text(phase: Phase, formatted: &String) -> (r: (&'static str, String))
    ensures
        r.0@ == status_badge(phase),
        r.1@ == status_line(phase, formatted@),
{
    match phase {
        Phase::Running => ("计时中", prefixed("下次休息还有 ", formatted)),
        Phase::Break => ("休息中", prefixed("休息时间，还剩 ", formatted)),
        Phase::Paused => ("已暂停", prefixed("计时已暂停，剩余 ", formatted)),
        Phase::Idle => ("未开始", String::from_str("计时器尚未开始")),
    }
}

/// The label of the settings window's pause/resume button.
pub fn toggle_button_text(phase: Phase) -> (r: &'static str)
    ensures
        r@ == toggle_button_label(phase),
{
    if phase == Phase::Running {
        "暂停计时"
    } else {
        "继续计时"
    }
}

/// `value` in decimal followed by `unit`.
pub open spec fn value_text(value: nat, unit: Seq<char>) -> Seq<char> {
    decimal(value) + unit
}

fn number_with_unit(value: u32, unit: &str) -> (s: String)
    ensures
        s@ == value_text(value as nat, unit@),
{
    let mut s = String::new();
    append_decimal(&mut s, value as u64);
    s.append(unit);
    assert(s@ =~= value_text(value as nat, unit@));
    s
}

/// The value shown beside the interval slider, as `{} 分钟`.
pub fn interval_text(minutes: u32) -> (s: String)
    ensures
        s@ == value_text(minutes as nat, " 分钟"@),
{
    number_with_unit(minutes, " 分钟")
}

/// The value shown beside the break length slider, as `{} 秒`.
pub fn duration_text(seconds: u32) -> (s: String)
    ensures
        s@ == value_text(seconds as nat, " 秒"@),
{
    number_with_unit(seconds, " 秒")
}

/// The value shown beside the cockroach count slider, as `{} 只`.
pub fn count_text(count: u32) -> (s: String)
    ensures
        s@ == value_text(count as nat, " 只"@),
{
    number_with_unit(count, " 只")
}

/// A whole percentage, as `{}%`.
pub fn percent_text(percent: u32) -> (s: String)
    ensures
        s@ == value_text(percent as nat, "%"@),
{
    number_with_unit(percent, "%")
}

} // verus!
