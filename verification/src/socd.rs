//! Simultaneous Opposite Cardinal Direction (SOCD) handling.
//!
//! When both directions of an opposing pair (left+right, up+down) are
//! pressed at once, a [`SocdHandler`] resolves the conflict according to a
//! configurable policy, and guarantees that its output never reports both
//! directions of a pair as pressed.

use vstd::prelude::*;
use crate::text::str_eq;

verus! {

/// SOCD resolution policies.
#[derive(Clone, Copy, PartialEq, Eq, Structural, Debug)]
pub enum SocdMethod {
    /// Both directions are turned off.
    Neutral,
    /// The input pressed most recently takes priority.
    LastWin,
    /// The input pressed first takes priority.
    FirstWin,
    /// Up takes priority over down (up/down pair only; acts as Neutral on
    /// left/right).
    UpPriority,
    /// A newly pressed direction overrides one already held; two fresh
    /// presses cancel out.
    SecondInputPriority,
}

/// The policy named by a configuration string; unrecognised names fall
/// back to the safe neutral policy.
pub open spec fn spec_method_of_name(s: Seq<char>) -> SocdMethod {
    if s == "neutral"@ {
        SocdMethod::Neutral
    } else if s == "last-win"@ {
        SocdMethod::LastWin
    } else if s == "first-win"@ {
        SocdMethod::FirstWin
    } else if s == "up-priority"@ {
        SocdMethod::UpPriority
    } else if s == "second-input-priority"@ {
        SocdMethod::SecondInputPriority
    } else {
        SocdMethod::Neutral
    }
}

impl vstd::std_specs::convert::FromSpecImpl<&'static str> for SocdMethod {
    open spec fn obeys_from_spec() -> bool {
        true
    }

    open spec fn from_spec(s: &'static str) -> Self {
        spec_method_of_name(s@)
    }
}

impl From<&'static str> for SocdMethod {
    /// The policy named by a configuration string.
    fn from(s: &'static str) -> (r: Self) {
        if str_eq(s, "neutral") {
            SocdMethod::Neutral
        } else if str_eq(s, "last-win") {
            SocdMethod::LastWin
        } else if str_eq(s, "first-win") {
            SocdMethod::FirstWin
        } else if str_eq(s, "up-priority") {
            SocdMethod::UpPriority
        } else if str_eq(s, "second-input-priority") {
            SocdMethod::SecondInputPriority
        } else {
            SocdMethod::Neutral
        }
    }
}

/// Resolution of a left+right conflict, decided from the previous tick's
/// states (`last_left`, `last_right`) and from which side was pressed first
/// (`first_left`).  Returns the resolved (left, right) pair.
pub open spec fn spec_resolve_lr(
    method: SocdMethod,
    last_left: bool,
    last_right: bool,
    first_left: bool,
) -> (bool, bool) {
    match method {
        SocdMethod::Neutral => (false, false),
        SocdMethod::LastWin => {
            if last_left && !last_right {
                (false, true)
            } else if !last_left && last_right {
                (true, false)
            } else {
                // Both pressed on the same tick, or neither held before:
                // break the tie toward the second direction of the pair.
                (false, true)
            }
        },
        SocdMethod::FirstWin => if first_left {
            (true, false)
        } else {
            (false, true)
        },
        SocdMethod::SecondInputPriority => {
            if last_left && !last_right {
                (false, true)
            } else if !last_left && last_right {
                (true, false)
            } else {
                (false, false)
            }
        },
        // Up-priority has no meaning for left/right; fall back to neutral.
        SocdMethod::UpPriority => (false, false),
    }
}

/// Resolution of an up+down conflict; the tie in `LastWin` breaks toward
/// down, and `UpPriority` always picks up.  Returns the resolved
/// (up, down) pair.
pub open spec fn spec_resolve_ud(
    method: SocdMethod,
    last_up: bool,
    last_down: bool,
    first_up: bool,
) -> (bool, bool) {
    match method {
        SocdMethod::Neutral => (false, false),
        SocdMethod::UpPriority => (true, false),
        SocdMethod::LastWin => {
            if last_up && !last_down {
                (false, true)
            } else if !last_up && last_down {
                (true, false)
            } else {
                (false, true)
            }
        },
        SocdMethod::FirstWin => if first_up {
            (true, false)
        } else {
            (false, true)
        },
        SocdMethod::SecondInputPriority => {
            if last_up && !last_down {
                (false, true)
            } else if !last_up && last_down {
                (true, false)
            } else {
                (false, false)
            }
        },
    }
}

/// How the pressed-first marker for a pair evolves on a tick without a
/// conflict: it flips to the direction that has just transitioned to
/// pressed while the other one is released, and keeps its value otherwise.
pub open spec fn spec_next_first(
    a: bool,
    b: bool,
    last_a: bool,
    last_b: bool,
    first_a: bool,
) -> bool {
    if a && !b && !last_a {
        true
    } else if !a && b && !last_b {
        false
    } else {
        first_a
    }
}

/// The standard HAT encoding of a resolved direction tuple: 0 = north up
/// through 7 = north-west, clockwise, and 8 = released.  Every combination
/// outside the eight single and diagonal patterns maps to released.
pub open spec fn spec_hat_value(up: bool, right: bool, down: bool, left: bool) -> u8 {
    if up && !right && !down && !left {
        0
    } else if up && right && !down && !left {
        1
    } else if !up && right && !down && !left {
        2
    } else if !up && right && down && !left {
        3
    } else if !up && !right && down && !left {
        4
    } else if !up && !right && down && left {
        5
    } else if !up && !right && !down && left {
        6
    } else if up && !right && !down && left {
        7
    } else {
        8
    }
}

/// The resolver's output for one tick, given its state before the call: a
/// pair is altered only while both of its directions are pressed.
pub open spec fn spec_resolve_outputs(
    h: SocdHandler,
    left: bool,
    right: bool,
    up: bool,
    down: bool,
) -> (bool, bool, bool, bool) {
    let last = h.spec_last_states();
    let first = h.spec_first_order();
    let lr = if left && right {
        spec_resolve_lr(h.spec_left_right_method(), last[0], last[1], first[0])
    } else {
        (left, right)
    };
    let ud = if up && down {
        spec_resolve_ud(h.spec_up_down_method(), last[2], last[3], first[1])
    } else {
        (up, down)
    };
    (lr.0, lr.1, ud.0, ud.1)
}

/// How one call of the resolver evolves its stored history: the previous
/// tick's states become the raw inputs, the pressed-first markers advance
/// on conflict-free ticks, and the policies never change.
pub open spec fn spec_socd_step(
    pre: SocdHandler,
    post: SocdHandler,
    left: bool,
    right: bool,
    up: bool,
    down: bool,
) -> bool {
    let last = pre.spec_last_states();
    let first = pre.spec_first_order();
    &&& post.spec_last_states() =~= seq![left, right, up, down]
    &&& post.spec_first_order().len() == 2
    &&& post.spec_first_order()[0] == if left && right {
        first[0]
    } else {
        spec_next_first(left, right, last[0], last[1], first[0])
    }
    &&& post.spec_first_order()[1] == if up && down {
        first[1]
    } else {
        spec_next_first(up, down, last[2], last[3], first[1])
    }
    &&& post.spec_left_right_method() == pre.spec_left_right_method()
    &&& post.spec_up_down_method() == pre.spec_up_down_method()
}

/// SOCD resolver for the two D-pad axis pairs.
///
/// It tracks the previous tick's raw inputs and which direction of each
/// pair was pressed first, so the history-sensitive policies stay
/// consistent with the true input history even on ticks without a conflict.
pub struct SocdHandler {
    /// Resolution policy for left+right.
    left_right_method: SocdMethod,
    /// Resolution policy for up+down.
    up_down_method: SocdMethod,
    /// Raw inputs of the previous tick: [left, right, up, down].
    last_states: [bool; 4],
    /// Pressed-first markers: [left-before-right, up-before-down].
    first_input_order: [bool; 2],
}

impl SocdHandler {
    /// Policy applied to the left/right pair.
    pub closed spec fn spec_left_right_method(&self) -> SocdMethod {
        self.left_right_method
    }

    /// Policy applied to the up/down pair.
    pub closed spec fn spec_up_down_method(&self) -> SocdMethod {
        self.up_down_method
    }

    /// Previous tick's raw inputs as [left, right, up, down].
    pub closed spec fn spec_last_states(&self) -> Seq<bool> {
        self.last_states@
    }

    /// Pressed-first markers as [left-before-right, up-before-down].
    pub closed spec fn spec_first_order(&self) -> Seq<bool> {
        self.first_input_order@
    }

    /// A resolver with the common fighting-game defaults: neutral on
    /// left/right and up-priority on up/down.
    pub fn new() -> (r: SocdHandler)
        ensures
            r.spec_left_right_method() == SocdMethod::Neutral,
            r.spec_up_down_method() == SocdMethod::UpPriority,
            r.spec_last_states() =~= seq![false, false, false, false],
            r.spec_first_order() =~= seq![true, true],
    {
        SocdHandler {
            left_right_method: SocdMethod::Neutral,
            up_down_method: SocdMethod::UpPriority,
            last_states: [false; 4],
            first_input_order: [true; 2],
        }
    }

    /// A resolver with the given policies for each pair.
    pub fn with_methods(left_right: SocdMethod, up_down: SocdMethod) -> (r: SocdHandler)
        ensures
            r.spec_left_right_method() == left_right,
            r.spec_up_down_method() == up_down,
            r.spec_last_states() =~= seq![false, false, false, false],
            r.spec_first_order() =~= seq![true, true],
    {
        SocdHandler {
            left_right_method: left_right,
            up_down_method: up_down,
            last_states: [false; 4],
            first_input_order: [true; 2],
        }
    }

    /// A resolver whose policies are named by configuration strings;
    /// unrecognised names fall back to neutral.
    pub fn from_strings(left_right: &'static str, up_down: &'static str) -> (r: SocdHandler)
        ensures
            r.spec_left_right_method() == spec_method_of_name(left_right@),
            r.spec_up_down_method() == spec_method_of_name(up_down@),
            r.spec_last_states() =~= seq![false, false, false, false],
            r.spec_first_order() =~= seq![true, true],
    {
        SocdHandler::with_methods(SocdMethod::from(left_right), SocdMethod::from(up_down))
    }

    /// Resolve one tick of directional input.
    ///
    /// Returns the resolved (left, right, up, down) states.  A pair is
    /// altered only while both of its directions are pressed; the stored
    /// history is updated every call, so it always mirrors the raw inputs.
    /// The output never has both directions of a pair pressed.
    pub fn resolve(&mut self, left: bool, right: bool, up: bool, down: bool) -> (r: (
        bool,
        bool,
        bool,
        bool,
    ))
        ensures
            (r.0, r.1, r.2, r.3) == spec_resolve_outputs(*old(self), left, right, up, down),
            spec_socd_step(*old(self), *final(self), left, right, up, down),
            !(r.0 && r.1),
            !(r.2 && r.3),
    {
        let resolved_lr: (bool, bool) = if left && right {
            self.resolve_left_right()
        } else {
            if left && !right && !self.last_states[0] {
                self.first_input_order[0] = true;
            } else if !left && right && !self.last_states[1] {
                self.first_input_order[0] = false;
            }
            (left, right)
        };

        let resolved_ud: (bool, bool) = if up && down {
            self.resolve_up_down()
        } else {
            if up && !down && !self.last_states[2] {
                self.first_input_order[1] = true;
            } else if !up && down && !self.last_states[3] {
                self.first_input_order[1] = false;
            }
            (up, down)
        };

        self.last_states = [left, right, up, down];

        (resolved_lr.0, resolved_lr.1, resolved_ud.0, resolved_ud.1)
    }

    /// Resolve a left+right conflict from the stored history.
    fn resolve_left_right(&self) -> (r: (bool, bool))
        ensures
            r == spec_resolve_lr(
                self.spec_left_right_method(),
                self.spec_last_states()[0],
                self.spec_last_states()[1],
                self.spec_first_order()[0],
            ),
    {
        match self.left_right_method {
            SocdMethod::Neutral => (false, false),
            SocdMethod::LastWin => {
                if self.last_states[0] && !self.last_states[1] {
                    (false, true)
                } else if !self.last_states[0] && self.last_states[1] {
                    (true, false)
                } else {
                    (false, true)
                }
            },
            SocdMethod::FirstWin => {
                if self.first_input_order[0] {
                    (true, false)
                } else {
                    (false, true)
                }
            },
            SocdMethod::SecondInputPriority => {
                if self.last_states[0] && !self.last_states[1] {
                    (false, true)
                } else if !self.last_states[0] && self.last_states[1] {
                    (true, false)
                } else {
                    (false, false)
                }
            },
            SocdMethod::UpPriority => (false, false),
        }
    }

    /// Resolve an up+down conflict from the stored history.
    fn resolve_up_down(&self) -> (r: (bool, bool))
        ensures
            r == spec_resolve_ud(
                self.spec_up_down_method(),
                self.spec_last_states()[2],
                self.spec_last_states()[3],
                self.spec_first_order()[1],
            ),
    {
        match self.up_down_method {
            SocdMethod::Neutral => (false, false),
            SocdMethod::UpPriority => (true, false),
            SocdMethod::LastWin => {
                if self.last_states[2] && !self.last_states[3] {
                    (false, true)
                } else if !self.last_states[2] && self.last_states[3] {
                    (true, false)
                } else {
                    (false, true)
                }
            },
            SocdMethod::FirstWin => {
                if self.first_input_order[1] {
                    (true, false)
                } else {
                    (false, true)
                }
            },
            SocdMethod::SecondInputPriority => {
                if self.last_states[2] && !self.last_states[3] {
                    (false, true)
                } else if !self.last_states[2] && self.last_states[3] {
                    (true, false)
                } else {
                    (false, false)
                }
            },
        }
    }

    /// Encode a resolved direction tuple as the standard HAT value:
    /// 0 = north through 7 = north-west, clockwise, 8 = released; any
    /// residual conflicting combination falls back to released.
    pub fn to_hat_value(&self, up: bool, right: bool, down: bool, left: bool) -> (r: u8)
        ensures
            r == spec_hat_value(up, right, down, left),
            r <= 8,
    {
        hat_value(up, right, down, left)
    }
}

/// Encode a direction tuple as the standard HAT value: 0 = north through
/// 7 = north-west, clockwise, 8 = released or conflicting.
pub fn hat_value(up: bool, right: bool, down: bool, left: bool) -> (r: u8)
    ensures
        r == spec_hat_value(up, right, down, left),
        r <= 8,
{
    if up && !right && !down && !left {
        0
    } else if up && right && !down && !left {
        1
    } else if !up && right && !down && !left {
        2
    } else if !up && right && down && !left {
        3
    } else if !up && !right && down && !left {
        4
    } else if !up && !right && down && left {
        5
    } else if !up && !right && !down && left {
        6
    } else if up && !right && !down && left {
        7
    } else {
        8
    }
}

/// No policy ever resolves a conflict by reporting both directions of the
/// pair as pressed; combined with the pass-through case of
/// [`SocdHandler::resolve`] (which only forwards non-conflicting inputs),
/// the resolver's output never contains an opposing pair, whatever the
/// input history.
pub proof fn lemma_socd_never_conflicts(
    method: SocdMethod,
    last_a: bool,
    last_b: bool,
    first_a: bool,
)
    ensures
        !(spec_resolve_lr(method, last_a, last_b, first_a).0 && spec_resolve_lr(
            method,
            last_a,
            last_b,
            first_a,
        ).1),
        !(spec_resolve_ud(method, last_a, last_b, first_a).0 && spec_resolve_ud(
            method,
            last_a,
            last_b,
            first_a,
        ).1),
{
}

/// The no-conflict invariant, end to end: whatever the resolver's stored
/// history and policies — that is, for every input history — and whatever
/// this tick's inputs, the resolved output never has both directions of an
/// opposing pair pressed.
pub proof fn lemma_resolve_never_conflicts(
    h: SocdHandler,
    left: bool,
    right: bool,
    up: bool,
    down: bool,
)
    ensures
        !(spec_resolve_outputs(h, left, right, up, down).0 && spec_resolve_outputs(
            h,
            left,
            right,
            up,
            down,
        ).1),
        !(spec_resolve_outputs(h, left, right, up, down).2 && spec_resolve_outputs(
            h,
            left,
            right,
            up,
            down,
        ).3),
{
    lemma_socd_never_conflicts(
        h.spec_left_right_method(),
        h.spec_last_states()[0],
        h.spec_last_states()[1],
        h.spec_first_order()[0],
    );
    lemma_socd_never_conflicts(
        h.spec_up_down_method(),
        h.spec_last_states()[2],
        h.spec_last_states()[3],
        h.spec_first_order()[1],
    );
}

/// Up-priority is deterministic: an up+down conflict under `UpPriority`
/// always resolves to up pressed and down released, whatever the history.
pub proof fn lemma_up_priority_deterministic(last_up: bool, last_down: bool, first_up: bool)
    ensures
        spec_resolve_ud(SocdMethod::UpPriority, last_up, last_down, first_up) == (true, false),
{
}

/// Neutral is deterministic: a conflict under `Neutral` always resolves to
/// both directions released, on either pair, whatever the history.
pub proof fn lemma_neutral_deterministic(last_a: bool, last_b: bool, first_a: bool)
    ensures
        spec_resolve_lr(SocdMethod::Neutral, last_a, last_b, first_a) == (false, false),
        spec_resolve_ud(SocdMethod::Neutral, last_a, last_b, first_a) == (false, false),
{
}

} // verus!
