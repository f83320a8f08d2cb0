//! Raw device samples: what the mouse and keyboard report at one instant.

use vstd::prelude::*;
use crate::geometry::Position;

verus! {

/// The state of the input devices at one poll.
///
/// `buttons` holds one level per mouse button, indexed by the button's
/// number: `buttons[b]` is `true` while button `b` is held. `keys` holds
/// the name of every key that is held, in the order the device reports
/// them. Both describe what is held now, not what changed.
#[derive(Clone, Debug, PartialEq, Eq)]
pub struct RawInputSample {
    pub position: Position,
    pub buttons: Vec<bool>,
    pub keys: Vec<String>,
}

/// The mathematical content of a [`RawInputSample`].
pub struct RawInputSampleView {
    pub position: Position,
    pub buttons: Seq<bool>,
    pub keys: Seq<Seq<char>>,
}

/// The names held by a list of keys, as sequences of characters.
pub open spec fn key_names(keys: Seq<String>) -> Seq<Seq<char>> {
    keys.map_values(|k: String| k@)
}

/// Whether the levels report button number `button` as held.
pub open spec fn is_pressed(levels: Seq<bool>, button: int) -> bool {
    0 <= button < levels.len() && levels[button]
}

/// The set of button numbers that the levels report as held.
pub open spec fn pressed_buttons(levels: Seq<bool>) -> Set<int> {
    Set::new(|button: int| is_pressed(levels, button))
}

impl View for RawInputSample {
    type V = RawInputSampleView;

    open spec fn view(&self) -> RawInputSampleView {
        RawInputSampleView {
            position: self.position,
            buttons: self.buttons@,
            keys: key_names(self.keys@),
        }
    }
}

impl RawInputSampleView {
    /// The set of button numbers held in this sample.
    pub open spec fn pressed(self) -> Set<int> {
        pressed_buttons(self.buttons)
    }
}

impl RawInputSample {
    /// The sample that stands for a failed device read: the cursor stays
    /// at `position` and nothing is held.
    pub fn no_input(position: Position) -> (sample: RawInputSample)
        ensures
            sample@.position == position,
            sample@.buttons == Seq::<bool>::empty(),
            sample@.keys == Seq::<Seq<char>>::empty(),
    {
        let sample = RawInputSample { position, buttons: Vec::new(), keys: Vec::new() };
        assert(sample@.keys =~= Seq::<Seq<char>>::empty());
        sample
    }

    /// Whether at least one mouse button is held.
    pub fn any_button_pressed(&self) -> (any: bool)
        ensures
            any == !(self@.pressed() =~= Set::<int>::empty()),
    {
        let mut i: usize = 0;
        while i < self.buttons.len()
            invariant
                i <= self.buttons.len(),
                forall|b: int| 0 <= b < i ==> !self.buttons@[b],
            decreases self.buttons.len() - i,
        {
            if self.buttons[i] {
                assert(self@.pressed().contains(i as int));
                return true;
            }
            i += 1;
        }
        false
    }

    /// Whether `self` and `other` hold exactly the same mouse buttons.
    ///
    /// Levels past the end of either list count as released, so two
    /// samples that differ only in trailing released buttons agree.
    pub fn same_buttons(&self, other: &RawInputSample) -> (same: bool)
        ensures
            same == (self@.pressed() =~= other@.pressed()),
    {
        let n: usize = if self.buttons.len() >= other.buttons.len() {
            self.buttons.len()
        } else {
            other.buttons.len()
        };
        let mut i: usize = 0;
        while i < n
            invariant
                i <= n,
                n >= self.buttons.len(),
                n >= other.buttons.len(),
                forall|b: int|
                    0 <= b < i ==> is_pressed(self.buttons@, b) == is_pressed(other.buttons@, b),
            decreases n - i,
        {
            let mine = i < self.buttons.len() && self.buttons[i];
            let theirs = i < other.buttons.len() && other.buttons[i];
            if mine != theirs {
                assert(self@.pressed().contains(i as int) != other@.pressed().contains(i as int));
                return false;
            }
            i += 1;
        }
        true
    }

    /// Whether a key named `name` is held.
    pub fn holds_key(&self, name: &String) -> (held: bool)
        ensures
            held == self@.keys.contains(name@),
    {
        let mut i: usize = 0;
        while i < self.keys.len()
            invariant
                i <= self.keys.len(),
                forall|k: int| 0 <= k < i ==> self@.keys[k] != name@,
            decreases self.keys.len() - i,
        {
            if self.keys[i] == *name {
                assert(self@.keys[i as int] == name@);
                return true;
            }
            i += 1;
        }
        false
    }
}

} // verus!
