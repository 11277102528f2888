//! The idle-animation decision function.
//!
//! Each frame, for every transform-bearing entity, the host asks what the
//! idle routine does to the entity's rotation at the current elapsed time
//! (in milliseconds).  The answer is a pair of commands, one per axis.  A
//! command either keeps the axis untouched or names the exact formula the
//! host must evaluate, together with the integer phase that feeds it; the
//! phase arithmetic — the modular cycles and window tests — is all decided
//! and verified here.

use vstd::prelude::*;
use vstd::arithmetic::div_mod::lemma_mod_bound;

verus! {

/// Length in milliseconds of the short pulse cycle on the Y axis.
pub const Y_PULSE_CYCLE_MS: u64 = 1000;

/// Length in milliseconds of the long sweep cycle on the Y axis.
pub const Y_SWEEP_CYCLE_MS: u64 = 8000;

/// Length in milliseconds of the pulse cycle on the X axis.
pub const X_CYCLE_MS: u64 = 4000;

/// What the idle routine does to the Y rotation component this frame.
///
/// The scalar written for each variant, in the host's floating-point
/// arithmetic, is:
/// - `Sweep { offset_ms }`: `offset_ms * 0.001` — a slow linear sweep late in
///   every 8-second cycle, centred on the 7750 ms mark;
/// - `PulseStart { phase_ms }`: `sin(phase_ms * 0.0157) * 0.02` — a brief nod
///   at the start of every 1-second cycle;
/// - `PulseMid { phase_ms }`: `sin(phase_ms * 0.0157) * -0.02` — the mirrored
///   nod at mid-cycle;
/// - `Keep`: the component stays at whatever value it had.
#[derive(Clone, Copy, Debug, PartialEq, Eq, Structural)]
pub enum YCommand {
    Sweep { offset_ms: i64 },
    PulseStart { phase_ms: u64 },
    PulseMid { phase_ms: u64 },
    Keep,
}

/// What the idle routine does to the X rotation component this frame.
///
/// Both pulse formulas sit on a fixed head-tilt baseline of `-0.16`:
/// - `PulseMid { phase_ms }`: `-0.16 + sin(phase_ms * 0.0157) * 0.02`,
///   shortly after the middle of every 4-second cycle;
/// - `PulseStart { phase_ms }`: `-0.16 + sin(phase_ms * 0.0157) * -0.02`,
///   at the start of every 4-second cycle;
/// - `Keep`: the component stays at whatever value it had.
#[derive(Clone, Copy, Debug, PartialEq, Eq, Structural)]
pub enum XCommand {
    PulseMid { phase_ms: u64 },
    PulseStart { phase_ms: u64 },
    Keep,
}

/// The Y-axis command as a mathematical function of elapsed time.
///
/// With `fun = elapsed mod 8000` and `pulse = elapsed mod 1000`, the windows
/// are tried in order: the sweep when `fun > 7500`, the start pulse when
/// `pulse < 100`, the mid pulse when `500 <= pulse <= 600`, and otherwise the
/// axis is kept.  The order matters: a sweep window overlaps some mid-pulse
/// windows, and the sweep wins there.
pub open spec fn y_command_of(elapsed_ms: u64) -> YCommand {
    let fun = elapsed_ms as int % (Y_SWEEP_CYCLE_MS as int);
    let pulse = elapsed_ms as int % (Y_PULSE_CYCLE_MS as int);
    if fun > 7500 {
        YCommand::Sweep { offset_ms: (fun - 7750) as i64 }
    } else if pulse < 100 {
        YCommand::PulseStart { phase_ms: pulse as u64 }
    } else if 500 <= pulse && pulse <= 600 {
        YCommand::PulseMid { phase_ms: (pulse - 500) as u64 }
    } else {
        YCommand::Keep
    }
}

/// The X-axis command as a mathematical function of elapsed time.
///
/// With `m = elapsed mod 4000`: the mid pulse when `2000 < m < 2100`, the
/// start pulse when `m < 100`, and otherwise the axis is kept.
pub open spec fn x_command_of(elapsed_ms: u64) -> XCommand {
    let m = elapsed_ms as int % (X_CYCLE_MS as int);
    if 2000 < m && m < 2100 {
        XCommand::PulseMid { phase_ms: (m - 2000) as u64 }
    } else if m < 100 {
        XCommand::PulseStart { phase_ms: m as u64 }
    } else {
        XCommand::Keep
    }
}

/// Decide the Y-axis command for the given elapsed time.
pub fn y_command(elapsed_ms: u64) -> (r: YCommand)
    ensures
        r == y_command_of(elapsed_ms),
{
    let fun: u64 = elapsed_ms % Y_SWEEP_CYCLE_MS;
    let pulse: u64 = elapsed_ms % Y_PULSE_CYCLE_MS;
    if fun > 7500 {
        YCommand::Sweep { offset_ms: fun as i64 - 7750 }
    } else if pulse < 100 {
        YCommand::PulseStart { phase_ms: pulse }
    } else if 500 <= pulse && pulse <= 600 {
        YCommand::PulseMid { phase_ms: pulse - 500 }
    } else {
        YCommand::Keep
    }
}

/// Decide the X-axis command for the given elapsed time.
pub fn x_command(elapsed_ms: u64) -> (r: XCommand)
    ensures
        r == x_command_of(elapsed_ms),
{
    let m: u64 = elapsed_ms % X_CYCLE_MS;
    if 2000 < m && m < 2100 {
        XCommand::PulseMid { phase_ms: m - 2000 }
    } else if m < 100 {
        XCommand::PulseStart { phase_ms: m }
    } else {
        XCommand::Keep
    }
}

/// Law: the idle routine is a pure function of elapsed time.  Two frames
/// that observe the same elapsed time issue identical commands, for every
/// entity, with no dependence on earlier frames or any hidden state.
pub proof fn lemma_idle_deterministic(first_ms: u64, second_ms: u64)
    requires
        first_ms == second_ms,
    ensures
        y_command_of(first_ms) == y_command_of(second_ms),
        x_command_of(first_ms) == x_command_of(second_ms),
{
}

/// Law: every Y command stays inside its window.  A sweep offset lies within
/// 249 ms of the cycle's centre and a pulse phase lies inside its 100 ms
/// window, so the scalars the host evaluates from them are bounded.
pub proof fn lemma_y_command_in_window(elapsed_ms: u64)
    ensures
        (match y_command_of(elapsed_ms) {
            YCommand::Sweep { offset_ms } => -249 <= offset_ms && offset_ms <= 249,
            YCommand::PulseStart { phase_ms } => phase_ms < 100,
            YCommand::PulseMid { phase_ms } => phase_ms <= 100,
            YCommand::Keep => true,
        }),
{
    lemma_mod_bound(elapsed_ms as int, Y_SWEEP_CYCLE_MS as int);
    lemma_mod_bound(elapsed_ms as int, Y_PULSE_CYCLE_MS as int);
}

/// Law: every X command stays inside its window: each pulse phase lies
/// inside its 100 ms window.
pub proof fn lemma_x_command_in_window(elapsed_ms: u64)
    ensures
        (match x_command_of(elapsed_ms) {
            XCommand::PulseMid { phase_ms } => 0 < phase_ms && phase_ms < 100,
            XCommand::PulseStart { phase_ms } => phase_ms < 100,
            XCommand::Keep => true,
        }),
{
    lemma_mod_bound(elapsed_ms as int, X_CYCLE_MS as int);
}

/// Decide both axis commands for one frame at the given elapsed time.
pub fn idle_commands(elapsed_ms: u64) -> (r: (YCommand, XCommand))
    ensures
        r.0 == y_command_of(elapsed_ms),
        r.1 == x_command_of(elapsed_ms),
{
    (y_command(elapsed_ms), x_command(elapsed_ms))
}

} // verus!
