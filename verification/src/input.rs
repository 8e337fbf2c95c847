//! Lock-key shadow state and mouse-button codes for input injection.
//!
//! The RDP client periodically sends `Synchronize` events carrying its
//! view of the Caps/Num/Scroll lock indicators.  The injector tracks a
//! shadow state from the key presses it has already injected and, on a
//! `Synchronize`, toggles exactly the mismatched locks.

use vstd::prelude::*;

verus! {

/// Evdev keycode of the Caps Lock key.
pub const KEY_CAPSLOCK: u16 = 66;

/// Evdev keycode of the Num Lock key.
pub const KEY_NUMLOCK: u16 = 77;

/// Evdev keycode of the Scroll Lock key.
pub const KEY_SCROLLLOCK: u16 = 78;

/// Linux evdev code of the left mouse button.
pub const BTN_LEFT: u32 = 0x110;

/// Linux evdev code of the right mouse button.
pub const BTN_RIGHT: u32 = 0x111;

/// Linux evdev code of the middle mouse button.
pub const BTN_MIDDLE: u32 = 0x112;

/// Linux evdev code of the "forward" side mouse button.
pub const BTN_FORWARD: u32 = 0x115;

/// Linux evdev code of the "back" side mouse button.
pub const BTN_BACK: u32 = 0x116;

/// Shadow state for the lock-key indicators (Caps, Num, Scroll).
#[derive(Debug, Clone, Copy, PartialEq, Eq, Structural)]
pub struct LockState {
    /// Whether Caps Lock is believed to be on.
    pub caps_lock: bool,
    /// Whether Num Lock is believed to be on.
    pub num_lock: bool,
    /// Whether Scroll Lock is believed to be on.
    pub scroll_lock: bool,
}

/// The exact sequence of evdev keycodes that must be toggled to move
/// the shadow state `s` to the target state `t`: Caps Lock first, then
/// Num Lock, then Scroll Lock, each present exactly when the two states
/// disagree on it.
pub open spec fn spec_locks_to_toggle(s: LockState, t: LockState) -> Seq<u16> {
    let caps: Seq<u16> = if s.caps_lock != t.caps_lock {
        seq![KEY_CAPSLOCK]
    } else {
        seq![]
    };
    let num: Seq<u16> = if s.num_lock != t.num_lock {
        seq![KEY_NUMLOCK]
    } else {
        seq![]
    };
    let scroll: Seq<u16> = if s.scroll_lock != t.scroll_lock {
        seq![KEY_SCROLLLOCK]
    } else {
        seq![]
    };
    caps + num + scroll
}

impl Default for LockState {
    /// All lock indicators start off.
    fn default() -> (r: Self)
        ensures
            !r.caps_lock,
            !r.num_lock,
            !r.scroll_lock,
    {
        LockState { caps_lock: false, num_lock: false, scroll_lock: false }
    }
}

impl LockState {
    /// Return which lock keys need toggling to reach the `target` state.
    pub fn locks_to_toggle(&self, target: &Self) -> (r: Vec<u16>)
        ensures
            r@ == spec_locks_to_toggle(*self, *target),
    {
        let mut keys: Vec<u16> = Vec::new();
        if self.caps_lock != target.caps_lock {
            keys.push(KEY_CAPSLOCK);
        }
        if self.num_lock != target.num_lock {
            keys.push(KEY_NUMLOCK);
        }
        if self.scroll_lock != target.scroll_lock {
            keys.push(KEY_SCROLLLOCK);
        }
        proof {
            assert(keys@ =~= spec_locks_to_toggle(*self, *target));
        }
        keys
    }

    /// Toggle the shadow state for a lock key that was just pressed.
    ///
    /// Any keycode other than the three lock keys leaves the state
    /// unchanged.
    pub fn toggle_on_press(&mut self, evdev: u16)
        ensures
            evdev == KEY_CAPSLOCK ==> *final(self) == (LockState {
                caps_lock: !old(self).caps_lock,
                ..*old(self)
            }),
            evdev == KEY_NUMLOCK ==> *final(self) == (LockState {
                num_lock: !old(self).num_lock,
                ..*old(self)
            }),
            evdev == KEY_SCROLLLOCK ==> *final(self) == (LockState {
                scroll_lock: !old(self).scroll_lock,
                ..*old(self)
            }),
            evdev != KEY_CAPSLOCK && evdev != KEY_NUMLOCK && evdev != KEY_SCROLLLOCK
                ==> *final(self) == *old(self),
    {
        if evdev == KEY_CAPSLOCK {
            self.caps_lock = !self.caps_lock;
        } else if evdev == KEY_NUMLOCK {
            self.num_lock = !self.num_lock;
        } else if evdev == KEY_SCROLLLOCK {
            self.scroll_lock = !self.scroll_lock;
        }
    }
}

/// Lock synchronisation is exact: when shadow and target agree nothing
/// is toggled, and otherwise exactly the mismatched locks appear, once
/// each, in the toggle sequence.
pub proof fn lemma_lock_sync_exact(s: LockState, t: LockState)
    ensures
        s == t ==> spec_locks_to_toggle(s, t).len() == 0,
        spec_locks_to_toggle(s, t).contains(KEY_CAPSLOCK) <==> s.caps_lock != t.caps_lock,
        spec_locks_to_toggle(s, t).contains(KEY_NUMLOCK) <==> s.num_lock != t.num_lock,
        spec_locks_to_toggle(s, t).contains(KEY_SCROLLLOCK) <==> s.scroll_lock != t.scroll_lock,
        spec_locks_to_toggle(s, t).no_duplicates(),
        spec_locks_to_toggle(s, t).len() == (if s.caps_lock != t.caps_lock { 1int } else { 0 })
            + (if s.num_lock != t.num_lock { 1int } else { 0 })
            + (if s.scroll_lock != t.scroll_lock { 1int } else { 0 }),
{
    let r = spec_locks_to_toggle(s, t);
    assert(r.contains(KEY_CAPSLOCK) <==> s.caps_lock != t.caps_lock) by {
        if s.caps_lock != t.caps_lock {
            assert(r[0] == KEY_CAPSLOCK);
        } else {
            assert(forall|i: int| 0 <= i < r.len() ==> r[i] != KEY_CAPSLOCK);
        }
    }
    assert(r.contains(KEY_NUMLOCK) <==> s.num_lock != t.num_lock) by {
        if s.num_lock != t.num_lock {
            let i = if s.caps_lock != t.caps_lock { 1int } else { 0int };
            assert(r[i] == KEY_NUMLOCK);
        } else {
            assert(forall|i: int| 0 <= i < r.len() ==> r[i] != KEY_NUMLOCK);
        }
    }
    assert(r.contains(KEY_SCROLLLOCK) <==> s.scroll_lock != t.scroll_lock) by {
        if s.scroll_lock != t.scroll_lock {
            assert(r[r.len() - 1] == KEY_SCROLLLOCK);
        } else {
            assert(forall|i: int| 0 <= i < r.len() ==> r[i] != KEY_SCROLLLOCK);
        }
    }
}

/// The bitwise OR of a sequence of capability masks.
pub open spec fn spec_mask_fold(masks: Seq<u64>) -> u64
    decreases masks.len(),
{
    if masks.len() == 0 {
        0u64
    } else {
        spec_mask_fold(masks.drop_last()) | masks.last()
    }
}

/// Combine the capability masks a seat advertises into the single mask
/// to bind: the bitwise OR of all of them.
pub fn fold_capability_masks(masks: &Vec<u64>) -> (r: u64)
    ensures
        r == spec_mask_fold(masks@),
{
    let mut acc: u64 = 0;
    let n = masks.len();
    let mut i: usize = 0;
    while i < n
        invariant
            0 <= i <= n,
            n == masks@.len(),
            acc == spec_mask_fold(masks@.take(i as int)),
        decreases n - i,
    {
        acc = acc | masks[i];
        proof {
            assert(masks@.take(i + 1).drop_last() =~= masks@.take(i as int));
            assert(masks@.take(i + 1).last() == masks@[i as int]);
        }
        i += 1;
    }
    proof {
        assert(masks@.take(n as int) =~= masks@);
    }
    acc
}

/// The keycode sent over the emulated-input wire: evdev keycodes are
/// shifted down by the XKB offset of 8.
pub fn evdev_to_ei_keycode(evdev: u16) -> (r: u32)
    requires
        evdev >= 8,
    ensures
        r == evdev - 8,
{
    (evdev as u32) - 8
}

/// The emulation state of an input injector: every batch of injected
/// events begins with one `start_emulating` carrying a fresh sequence
/// number, and emulation is stopped at teardown only if it was
/// started.
#[derive(Debug, Clone, Copy, PartialEq, Eq, Structural)]
pub struct EmulationState {
    /// Whether `start_emulating` has been sent for the current batch.
    pub emulating: bool,
    /// Sequence number of the next `start_emulating`.
    pub sequence: u32,
}

impl EmulationState {
    /// Not emulating, first sequence number zero.
    pub fn new() -> (r: Self)
        ensures
            !r.emulating,
            r.sequence == 0,
    {
        EmulationState { emulating: false, sequence: 0 }
    }

    /// Account for one event about to be injected: returns the
    /// sequence number to send with `start_emulating`, or `None` when
    /// emulation is already active.  Each activation uses a fresh
    /// sequence number, wrapping at the 32-bit boundary.
    pub fn ensure_emulating(&mut self) -> (r: Option<u32>)
        ensures
            final(self).emulating,
            old(self).emulating ==> r is None && *final(self) == *old(self),
            !old(self).emulating ==> r == Some(old(self).sequence) && final(self).sequence as int
                == (old(self).sequence + 1) % 0x1_0000_0000,
    {
        if self.emulating {
            None
        } else {
            let seq = self.sequence;
            self.emulating = true;
            if self.sequence == u32::MAX {
                self.sequence = 0;
            } else {
                self.sequence = self.sequence + 1;
            }
            Some(seq)
        }
    }

    /// Whether teardown must send `stop_emulating`: exactly when a
    /// batch was started.
    pub fn needs_stop_emulating(&self) -> (r: bool)
        ensures
            r == self.emulating,
    {
        self.emulating
    }
}

/// Mouse button identifiers matching the RDP protocol.
#[derive(Debug, Clone, Copy)]
pub enum MouseButton {
    /// Left button.
    Left,
    /// Right button.
    Right,
    /// Middle (wheel) button.
    Middle,
    /// Side button toward the user ("back").
    Back,
    /// Side button away from the user ("forward").
    Forward,
}

impl MouseButton {
    /// Convert to the Linux evdev button code.
    pub fn to_linux_code(self) -> (r: u32)
        ensures
            self is Left ==> r == BTN_LEFT,
            self is Right ==> r == BTN_RIGHT,
            self is Middle ==> r == BTN_MIDDLE,
            self is Back ==> r == BTN_BACK,
            self is Forward ==> r == BTN_FORWARD,
    {
        match self {
            MouseButton::Left => BTN_LEFT,
            MouseButton::Right => BTN_RIGHT,
            MouseButton::Middle => BTN_MIDDLE,
            MouseButton::Back => BTN_BACK,
            MouseButton::Forward => BTN_FORWARD,
        }
    }
}

/// Errors from the input injection backend.
#[derive(Debug)]
pub enum InputError {
    /// The libei/portal backend could not be initialised; the payload
    /// describes the failing step.
    Init(String),
}

} // verus!
