//! Priority of the local mouse: for a while after a person moved it, remote input gives
//! way. Times are milliseconds since the Unix epoch.

use crate::text::{decimal, decimal_text, joined};
use vstd::prelude::*;
use vstd::string::*;

verus! {

/// How many local movements are written down for diagnosis.
pub const DIAGNOSTIC_SAMPLES: u64 = 40;

/// What is known of the local mouse.
#[derive(Debug, Clone, Copy, PartialEq, Eq, Structural)]
pub struct LocalInputGuard {
    pub monitor_started: bool,
    /// When the mouse was last moved here; zero where it never was.
    pub last_local_mouse_ms: u64,
    pub priority_window_ms: u64,
    pub sample_count: u64,
}

/// The values of the system that a mouse event is told by.
#[derive(Debug, Clone, Copy, PartialEq, Eq, Structural)]
pub struct HookTerms {
    /// The code of an event that is to be looked at.
    pub action_code: i32,
    /// The message of a movement.
    pub move_message: u32,
    /// What marks input that came from a remote side.
    pub injected_marker: usize,
}

/// A mouse event.
#[derive(Debug, Clone, Copy, PartialEq, Eq, Structural)]
pub struct MouseEvent {
    pub code: i32,
    pub message: u32,
    pub extra_info: usize,
}

/// What an event calls for.
#[derive(Debug, Clone, Copy, PartialEq, Eq, Structural)]
pub enum HookOutcome {
    /// Nothing: it was no movement, or not one of this place.
    Pass,
    /// Tell the priority worker, and write the event down where `sampled`.
    Local { sampled: bool },
}

/// The event is a movement of the mouse that did not come from a remote side.
pub open spec fn is_local_move(terms: HookTerms, event: MouseEvent) -> bool {
    &&& event.code == terms.action_code
    &&& event.message == terms.move_message
    &&& event.extra_info != terms.injected_marker
}

impl LocalInputGuard {
    /// Nothing has moved, and the window is a quarter of a second.
    pub fn new() -> (r: Self)
        ensures
            r == (LocalInputGuard {
                monitor_started: false,
                last_local_mouse_ms: 0,
                priority_window_ms: 250,
                sample_count: 0,
            }),
    {
        LocalInputGuard {
            monitor_started: false,
            last_local_mouse_ms: 0,
            priority_window_ms: 250,
            sample_count: 0,
        }
    }

    /// Notes whether the hook that sees mouse events is in place.
    pub fn set_monitor_started(&mut self, started: bool)
        ensures
            *final(self) == (LocalInputGuard { monitor_started: started, ..*old(self) }),
    {
        self.monitor_started = started;
    }

    /// Takes a mouse event: a local movement is noted with its time, and the first few are
    /// sampled. The count goes round at its end.
    pub fn mouse_hook(&mut self, terms: HookTerms, event: MouseEvent, now_ms: u64) -> (r:
        HookOutcome)
        ensures
            !is_local_move(terms, event) ==> r == HookOutcome::Pass && *final(self) == *old(self),
            is_local_move(terms, event) ==> r == (HookOutcome::Local {
                sampled: old(self).sample_count < DIAGNOSTIC_SAMPLES,
            }) && *final(self) == (LocalInputGuard {
                last_local_mouse_ms: now_ms,
                sample_count: if old(self).sample_count == u64::MAX {
                    0
                } else {
                    (old(self).sample_count + 1) as u64
                },
                ..*old(self)
            }),
    {
        if event.code == terms.action_code && event.message == terms.move_message
            && event.extra_info != terms.injected_marker {
            let sampled = self.sample_count < DIAGNOSTIC_SAMPLES;
            self.sample_count = if self.sample_count == u64::MAX {
                0
            } else {
                self.sample_count + 1
            };
            self.last_local_mouse_ms = now_ms;
            return HookOutcome::Local { sampled };
        }
        HookOutcome::Pass
    }

    /// The mouse was moved here less than `window_ms` ago. A clock that went back since
    /// then counts as no time.
    pub open spec fn has_priority(self, window_ms: u64, now_ms: u64) -> bool {
        self.last_local_mouse_ms != 0 && now_ms - self.last_local_mouse_ms < window_ms
            && window_ms > 0
    }

    /// Until when a movement has priority, as far as that can be counted.
    pub open spec fn priority_end(self, window_ms: u64) -> u64 {
        if self.last_local_mouse_ms + window_ms <= u64::MAX {
            (self.last_local_mouse_ms + window_ms) as u64
        } else {
            u64::MAX
        }
    }

    /// Whether the mouse was moved here less than `window_ms` ago.
    pub fn local_mouse_has_priority_now(&self, window_ms: u64, now_ms: u64) -> (r: bool)
        ensures
            r == self.has_priority(window_ms, now_ms),
    {
        self.last_local_mouse_ms != 0 && now_ms.saturating_sub(self.last_local_mouse_ms)
            < window_ms
    }

    /// Until when the last movement has priority.
    pub fn local_mouse_priority_until_ms(&self, window_ms: u64) -> (r: u64)
        ensures
            r == self.priority_end(window_ms),
    {
        self.last_local_mouse_ms.saturating_add(window_ms)
    }

    /// The window that the priority worker goes by, at least a millisecond.
    pub open spec fn worker_window(self) -> u64 {
        if self.priority_window_ms < 1 {
            1
        } else {
            self.priority_window_ms
        }
    }

    /// What the priority worker applies after a movement: priority until the end of the
    /// window, where that is still to come.
    pub fn priority_to_apply(&self, now_ms: u64) -> (r: Option<u64>)
        ensures
            r == (if now_ms < self.priority_end(self.worker_window()) {
                Some(self.priority_end(self.worker_window()))
            } else {
                None
            }),
    {
        let window_ms: u64 = if self.priority_window_ms < 1 {
            1
        } else {
            self.priority_window_ms
        };
        let until_ms: u64 = self.local_mouse_priority_until_ms(window_ms);
        if now_ms < until_ms {
            Some(until_ms)
        } else {
            None
        }
    }
}

/// Whether the local mouse has priority over remote input, for a window of `window_ms`,
/// which the priority worker goes by from now on. It has none while nothing watches it.
pub fn local_mouse_has_priority(guard: &mut LocalInputGuard, window_ms: u64, now_ms: u64) -> (r:
    bool)
    ensures
        r == (old(guard).monitor_started && old(guard).has_priority(window_ms, now_ms)),
        *final(guard) == (LocalInputGuard {
            priority_window_ms: if window_ms < 1 {
                1
            } else {
                window_ms
            },
            ..*old(guard)
        }),
{
    guard.priority_window_ms = if window_ms < 1 {
        1
    } else {
        window_ms
    };
    if !guard.monitor_started {
        return false;
    }
    guard.local_mouse_has_priority_now(window_ms, now_ms)
}

/// What is written down of a sampled movement.
pub fn sample_text(extra_info: usize, injected_marker: usize, process_id: u32) -> (r: String)
    ensures
        r@ == "mouse_hook: counted as LOCAL, dwExtraInfo="@ + decimal(extra_info as nat)
            + " expected_enigo_value="@ + decimal(injected_marker as nat) + " pid="@ + decimal(
            process_id as nat,
        ),
{
    joined(
        "mouse_hook: counted as LOCAL, dwExtraInfo=",
        decimal_text(extra_info as u128).as_str(),
    ).concat(" expected_enigo_value=").concat(
        decimal_text(injected_marker as u128).as_str(),
    ).concat(" pid=").concat(decimal_text(process_id as u128).as_str())
}

/// What is asked and what is applied agree: after a movement the mouse has priority exactly
/// until the end that the worker applies.
pub proof fn law_asked_and_applied_priority_agree(
    guard: LocalInputGuard,
    window_ms: u64,
    now_ms: u64,
)
    requires
        guard.last_local_mouse_ms != 0,
        window_ms > 0,
        guard.last_local_mouse_ms + window_ms <= u64::MAX,
    ensures
        guard.has_priority(window_ms, now_ms) <==> now_ms < guard.priority_end(window_ms),
{
}

/// Input that came from a remote side never gives the local mouse priority.
pub proof fn law_injected_input_is_not_local(terms: HookTerms, event: MouseEvent)
    requires
        event.extra_info == terms.injected_marker,
    ensures
        !is_local_move(terms, event),
{
}

/// A movement counts as local exactly where it is a movement, is to be looked at and is not
/// marked as remote. It is noted with its time, and the first forty are sampled; anything else
/// changes nothing.
pub proof fn law_local_movements_are_noted(
    guard: &mut LocalInputGuard,
    terms: HookTerms,
    event: MouseEvent,
    now_ms: u64,
    r: HookOutcome,
)
    requires
        call_ensures(LocalInputGuard::mouse_hook, (guard, terms, event, now_ms), r),
    ensures
        ({
            let local = event.code == terms.action_code && event.message == terms.move_message
                && event.extra_info != terms.injected_marker;
            &&& !local ==> r == HookOutcome::Pass && *final(guard) == *old(guard)
            &&& local ==> {
                &&& r == HookOutcome::Local { sampled: old(guard).sample_count < 40 }
                &&& final(guard).last_local_mouse_ms == now_ms
                &&& final(guard).monitor_started == old(guard).monitor_started
                &&& final(guard).priority_window_ms == old(guard).priority_window_ms
                &&& old(guard).sample_count < u64::MAX ==> final(guard).sample_count
                    == old(guard).sample_count + 1
                &&& old(guard).sample_count == u64::MAX ==> final(guard).sample_count == 0
            }
        }),
{
}

/// The local mouse has priority exactly while it is watched and was moved less than the window
/// ago. Asking sets the window that the worker goes by, to at least a millisecond, and nothing
/// else.
pub proof fn law_priority_lasts_for_the_window(
    guard: &mut LocalInputGuard,
    window_ms: u64,
    now_ms: u64,
    r: bool,
)
    requires
        call_ensures(local_mouse_has_priority, (guard, window_ms, now_ms), r),
    ensures
        r <==> {
            &&& old(guard).monitor_started
            &&& old(guard).last_local_mouse_ms > 0
            &&& window_ms > 0
            &&& now_ms < old(guard).last_local_mouse_ms + window_ms
        },
        window_ms > 0 ==> final(guard).priority_window_ms == window_ms,
        window_ms == 0 ==> final(guard).priority_window_ms == 1,
        final(guard).monitor_started == old(guard).monitor_started,
        final(guard).last_local_mouse_ms == old(guard).last_local_mouse_ms,
        final(guard).sample_count == old(guard).sample_count,
{
}

/// The worker applies priority until the end of the window after the last movement, as far as
/// that can be counted, where that is still to come.
pub proof fn law_worker_applies_the_window(
    guard: LocalInputGuard,
    now_ms: u64,
    window_ms: u64,
    until: u64,
    r: Option<u64>,
)
    requires
        call_ensures(LocalInputGuard::priority_to_apply, (&guard, now_ms), r),
        call_ensures(LocalInputGuard::local_mouse_priority_until_ms, (&guard, window_ms), until),
    ensures
        guard.last_local_mouse_ms + window_ms <= u64::MAX ==> until == guard.last_local_mouse_ms
            + window_ms,
        guard.last_local_mouse_ms + window_ms > u64::MAX ==> until == u64::MAX,
        guard.priority_window_ms == window_ms && window_ms > 0 ==> {
            &&& now_ms < until ==> r == Some(until)
            &&& now_ms >= until ==> r is None
        },
        guard.priority_window_ms == 0 && window_ms == 1 ==> {
            &&& now_ms < until ==> r == Some(until)
            &&& now_ms >= until ==> r is None
        },
{
}

/// A new guard knows of no movement, is not watched and has a window of a quarter of a second;
/// noting whether it is watched changes nothing else.
pub proof fn law_new_guard_knows_nothing(
    fresh: LocalInputGuard,
    guard: &mut LocalInputGuard,
    started: bool,
)
    requires
        call_ensures(LocalInputGuard::new, (), fresh),
        call_ensures(LocalInputGuard::set_monitor_started, (guard, started), ()),
    ensures
        !fresh.monitor_started,
        fresh.last_local_mouse_ms == 0,
        fresh.priority_window_ms == 250,
        fresh.sample_count == 0,
        final(guard).monitor_started == started,
        final(guard).last_local_mouse_ms == old(guard).last_local_mouse_ms,
        final(guard).priority_window_ms == old(guard).priority_window_ms,
        final(guard).sample_count == old(guard).sample_count,
{
}

/// What is written down of a sampled movement names its own mark, the expected one and the
/// process.
pub proof fn law_sample_names_what_was_sampled(
    extra_info: usize,
    injected_marker: usize,
    process_id: u32,
    r: String,
)
    requires
        call_ensures(sample_text, (extra_info, injected_marker, process_id), r),
    ensures
        r@ == "mouse_hook: counted as LOCAL, dwExtraInfo="@ + decimal(extra_info as nat)
            + " expected_enigo_value="@ + decimal(injected_marker as nat) + " pid="@ + decimal(
            process_id as nat,
        ),
{
}

/// The guard tells whether the mouse was moved here within the window.
pub proof fn law_guard_tells_priority(
    guard: LocalInputGuard,
    window_ms: u64,
    now_ms: u64,
    r: bool,
)
    requires
        call_ensures(LocalInputGuard::local_mouse_has_priority_now, (&guard, window_ms, now_ms), r),
    ensures
        guard.last_local_mouse_ms == 0 ==> !r,
        guard.last_local_mouse_ms != 0 && now_ms >= guard.last_local_mouse_ms ==> (r <==> now_ms
            - guard.last_local_mouse_ms < window_ms),
        guard.last_local_mouse_ms > now_ms ==> (r <==> window_ms > 0),
{
}

} // verus!
