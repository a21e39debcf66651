//! Lock-pin guarding of menu buttons.
//!
//! A [`LockHandler`] suppresses a small configurable set of menu-class
//! buttons (Home, Plus, Minus, Capture) while a guard pin engages the lock,
//! so stray presses cannot pause or exit a game.

use vstd::prelude::*;

verus! {

/// Buttons that the lock may suppress.
#[derive(Clone, Copy, PartialEq, Eq, Structural, Debug)]
pub enum LockableButton {
    /// The Home button.
    Home,
    /// The Plus button (Start).
    Plus,
    /// The Minus button (Select).
    Minus,
    /// The Capture button.
    Capture,
}

impl LockableButton {
    /// Position of the button in the 14-entry report array.
    pub open spec fn spec_index(&self) -> usize {
        match self {
            LockableButton::Home => 12,
            LockableButton::Plus => 9,
            LockableButton::Minus => 8,
            LockableButton::Capture => 13,
        }
    }

    /// Position of the button in the 14-entry report array.
    pub fn to_index(&self) -> (r: usize)
        ensures
            r == self.spec_index(),
            r < 14,
    {
        match self {
            LockableButton::Home => 12,
            LockableButton::Plus => 9,
            LockableButton::Minus => 8,
            LockableButton::Capture => 13,
        }
    }

    /// Every lockable button, in declaration order.
    pub fn all() -> (r: [LockableButton; 4])
        ensures
            r@ =~= seq![
                LockableButton::Home,
                LockableButton::Plus,
                LockableButton::Minus,
                LockableButton::Capture,
            ],
    {
        [LockableButton::Home, LockableButton::Plus, LockableButton::Minus, LockableButton::Capture]
    }
}

/// Capacity of the locked-button set.
pub const MAX_LOCKABLE_BUTTONS: usize = 4;

/// Guard that forces a configured set of menu buttons to released while the
/// lock is engaged.
pub struct LockHandler {
    /// Whether the lock currently suppresses its buttons.
    lock_active: bool,
    /// Pin number of the guard switch (read by the embedding layer).
    lock_pin: u8,
    /// Polarity: `true` engages the lock on a high pin level.
    active_high: bool,
    /// The guarded buttons, filled from the front.
    locked_buttons: [Option<LockableButton>; MAX_LOCKABLE_BUTTONS],
    /// Number of occupied entries in `locked_buttons`.
    button_count: usize,
}

impl LockHandler {
    /// Whether the lock currently suppresses its buttons.
    pub closed spec fn spec_lock_active(&self) -> bool {
        self.lock_active
    }

    /// Pin number of the guard switch.
    pub closed spec fn spec_lock_pin(&self) -> u8 {
        self.lock_pin
    }

    /// Polarity of the guard pin.
    pub closed spec fn spec_active_high(&self) -> bool {
        self.active_high
    }

    /// The guarded buttons, as stored.
    pub closed spec fn spec_locked(&self) -> Seq<Option<LockableButton>> {
        self.locked_buttons@
    }

    /// Number of occupied entries of the locked set.
    pub closed spec fn spec_count(&self) -> usize {
        self.button_count
    }

    /// The locked set is filled from the front without holes.
    pub open spec fn wf(&self) -> bool {
        &&& self.spec_count() <= MAX_LOCKABLE_BUTTONS
        &&& forall|i: int| 0 <= i < self.spec_count() ==> self.spec_locked()[i] is Some
        &&& forall|i: int|
            self.spec_count() <= i < MAX_LOCKABLE_BUTTONS ==> self.spec_locked()[i] is None
    }

    /// Whether one of the first `n` locked entries guards report index `j`.
    pub open spec fn spec_locks_index_upto(&self, j: int, n: int) -> bool {
        exists|i: int|
            0 <= i < n && ((#[trigger] self.spec_locked()[i]) matches Some(b) && b.spec_index()
                == j)
    }

    /// Whether the configured locked set guards report index `j`.
    pub open spec fn spec_locks_index(&self, j: int) -> bool {
        self.spec_locks_index_upto(j, self.spec_count() as int)
    }

    /// The lock's effect on a 14-entry button array: a guarded index is
    /// forced to released while the lock is engaged, every other entry
    /// passes through unchanged.
    pub open spec fn spec_process(&self, input: Seq<bool>) -> Seq<bool> {
        Seq::new(input.len(), |j: int| input[j] && !(self.spec_lock_active()
            && self.spec_locks_index(j)))
    }

    /// A handler with the default configuration: inactive, guard pin 33,
    /// active-high, guarding Home, Plus and Minus.
    pub fn new() -> (r: LockHandler)
        ensures
            r.spec_lock_active() == false,
            r.spec_lock_pin() == 33,
            r.spec_active_high() == true,
            r.spec_locked() =~= seq![
                Some(LockableButton::Home),
                Some(LockableButton::Plus),
                Some(LockableButton::Minus),
                None,
            ],
            r.spec_count() == 3,
            r.wf(),
    {
        LockHandler {
            lock_active: false,
            lock_pin: 33,
            active_high: true,
            locked_buttons: [
                Some(LockableButton::Home),
                Some(LockableButton::Plus),
                Some(LockableButton::Minus),
                None,
            ],
            button_count: 3,
        }
    }

    /// A handler with the given guard pin, polarity and buttons; at most
    /// the first [`MAX_LOCKABLE_BUTTONS`] buttons are kept.
    pub fn with_config(lock_pin: u8, active_high: bool, buttons: &[LockableButton]) -> (r:
        LockHandler)
        ensures
            r.spec_lock_active() == false,
            r.spec_lock_pin() == lock_pin,
            r.spec_active_high() == active_high,
            r.spec_count() == if buttons@.len() < MAX_LOCKABLE_BUTTONS {
                buttons@.len() as usize
            } else {
                MAX_LOCKABLE_BUTTONS
            },
            forall|i: int| 0 <= i < r.spec_count() ==> r.spec_locked()[i] == Some(buttons@[i]),
            r.wf(),
    {
        let mut handler = LockHandler {
            lock_active: false,
            lock_pin,
            active_high,
            locked_buttons: [None; MAX_LOCKABLE_BUTTONS],
            button_count: 0,
        };
        let n = if buttons.len() < MAX_LOCKABLE_BUTTONS {
            buttons.len()
        } else {
            MAX_LOCKABLE_BUTTONS
        };
        let mut i: usize = 0;
        while i < n
            invariant
                n <= buttons@.len(),
                n <= MAX_LOCKABLE_BUTTONS,
                i <= n,
                handler.button_count == i,
                handler.lock_active == false,
                handler.lock_pin == lock_pin,
                handler.active_high == active_high,
                forall|k: int| 0 <= k < i ==> handler.locked_buttons@[k] == Some(buttons@[k]),
                forall|k: int| i <= k < MAX_LOCKABLE_BUTTONS ==> handler.locked_buttons@[k] is None,
            decreases n - i,
        {
            handler.locked_buttons[i] = Some(buttons[i]);
            handler.button_count = i + 1;
            i = i + 1;
        }
        handler
    }

    /// Add one button to the locked set; reports failure once the set is
    /// full instead of growing past its capacity.
    pub fn add_button(&mut self, button: LockableButton) -> (r: bool)
        requires
            old(self).wf(),
        ensures
            r == (old(self).spec_count() < MAX_LOCKABLE_BUTTONS),
            r ==> final(self).spec_locked() =~= old(self).spec_locked().update(
                old(self).spec_count() as int,
                Some(button),
            ) && final(self).spec_count() == old(self).spec_count() + 1,
            !r ==> final(self).spec_locked() =~= old(self).spec_locked()
                && final(self).spec_count() == old(self).spec_count(),
            final(self).spec_lock_active() == old(self).spec_lock_active(),
            final(self).spec_lock_pin() == old(self).spec_lock_pin(),
            final(self).spec_active_high() == old(self).spec_active_high(),
            final(self).wf(),
    {
        if self.button_count < MAX_LOCKABLE_BUTTONS {
            self.locked_buttons[self.button_count] = Some(button);
            self.button_count = self.button_count + 1;
            true
        } else {
            false
        }
    }

    /// Empty the locked set.
    pub fn clear_buttons(&mut self)
        ensures
            final(self).spec_count() == 0,
            forall|i: int|
                0 <= i < MAX_LOCKABLE_BUTTONS ==> final(self).spec_locked()[i] is None,
            final(self).spec_lock_active() == old(self).spec_lock_active(),
            final(self).spec_lock_pin() == old(self).spec_lock_pin(),
            final(self).spec_active_high() == old(self).spec_active_high(),
            final(self).wf(),
    {
        self.locked_buttons = [None; MAX_LOCKABLE_BUTTONS];
        self.button_count = 0;
    }

    /// Level of the guard pin as far as the handler can know it; the real
    /// read is performed by the embedding layer, so this reports the
    /// disengaged default.
    pub fn read_lock_pin(&self) -> (r: bool)
        ensures
            r == false,
    {
        false
    }

    /// Translate a raw guard-pin level into the lock state, honouring the
    /// configured polarity.
    pub fn update_lock_state(&mut self, pin_state: bool)
        ensures
            final(self).spec_lock_active() == (pin_state == old(self).spec_active_high()),
            final(self).spec_lock_pin() == old(self).spec_lock_pin(),
            final(self).spec_active_high() == old(self).spec_active_high(),
            final(self).spec_locked() =~= old(self).spec_locked(),
            final(self).spec_count() == old(self).spec_count(),
    {
        self.lock_active = if self.active_high {
            pin_state
        } else {
            !pin_state
        };
    }

    /// Whether the lock currently suppresses its buttons.
    pub fn is_locked(&self) -> (r: bool)
        ensures
            r == self.spec_lock_active(),
    {
        self.lock_active
    }

    /// Apply the lock to one tick's button array: while the lock is
    /// engaged every guarded index is forced to released; everything else
    /// passes through unchanged.
    pub fn process(&self, button_states: &[bool; 14]) -> (r: [bool; 14])
        requires
            self.wf(),
        ensures
            r@ =~= self.spec_process(button_states@),
    {
        let mut result: [bool; 14] = *button_states;
        if self.lock_active {
            let mut i: usize = 0;
            while i < self.button_count
                invariant
                    self.wf(),
                    self.spec_lock_active(),
                    i <= self.spec_count(),
                    forall|j: int|
                        0 <= j < 14 ==> result@[j] == (button_states@[j]
                            && !self.spec_locks_index_upto(j, i as int)),
                decreases self.button_count - i,
            {
                let ghost prev = result@;
                if let Some(button) = self.locked_buttons[i] {
                    let index = button.to_index();
                    result[index] = false;
                }
                proof {
                    assert forall|j: int|
                        0 <= j < 14 implies result@[j] == (button_states@[j]
                        && !self.spec_locks_index_upto(j, i + 1)) by {
                        let b = self.spec_locked()[i as int]->Some_0;
                        if j == b.spec_index() {
                            assert(self.spec_locks_index_upto(j, i + 1));
                        } else {
                            assert(self.spec_locks_index_upto(j, i + 1)
                                == self.spec_locks_index_upto(j, i as int));
                        }
                    }
                }
                i = i + 1;
            }
        } else {
            assert forall|j: int| 0 <= j < 14 implies result@[j] == (button_states@[j]
                && !(self.spec_lock_active() && self.spec_locks_index(j))) by {}
        }
        result
    }
}

/// Lock masking: while the lock is engaged with the default locked set
/// (Home, Plus, Minus), report indices 12, 9 and 8 are forced to released,
/// and every other index passes through unchanged.
pub proof fn lemma_lock_masks_menu_buttons(h: LockHandler, input: Seq<bool>)
    requires
        h.wf(),
        h.spec_lock_active(),
        h.spec_count() == 3,
        h.spec_locked()[0] == Some(LockableButton::Home),
        h.spec_locked()[1] == Some(LockableButton::Plus),
        h.spec_locked()[2] == Some(LockableButton::Minus),
        input.len() == 14,
    ensures
        h.spec_process(input)[12] == false,
        h.spec_process(input)[9] == false,
        h.spec_process(input)[8] == false,
        forall|j: int|
            0 <= j < 14 && j != 12 && j != 9 && j != 8 ==> h.spec_process(input)[j] == input[j],
{
    assert(h.spec_locked()[0] matches Some(b) && b.spec_index() == 12);
    assert(h.spec_locks_index(12));
    assert(h.spec_locked()[1] matches Some(b) && b.spec_index() == 9);
    assert(h.spec_locks_index(9));
    assert(h.spec_locked()[2] matches Some(b) && b.spec_index() == 8);
    assert(h.spec_locks_index(8));
    assert forall|j: int|
        0 <= j < 14 && j != 12 && j != 9 && j != 8 implies h.spec_process(input)[j] == input[j] by {
        assert(!h.spec_locks_index(j));
    }
}

} // verus!
