use vstd::prelude::*;
use std::collections::HashSet;
use crate::codes::{
    is_keyboard_key, keyboard_key_codes, keyboard_keys, KEY_DOWN, KEY_LEFT, KEY_M, KEY_RIGHT, KEY_UP,
};
use crate::event::{key_report, key_value, synced_report_bytes, EV_KEY};

verus! {

broadcast use vstd::std_specs::hash::group_hash_axioms;

/// Why the keyboard refused a key.
#[derive(Clone, Copy, Debug, PartialEq, Eq, Structural)]
pub enum KeyError {
    /// The virtual keyboard was not created with this key.
    NotEnabled,
}

/// Which keys of the virtual keyboard are held down. A key is reported to
/// the kernel only when it changes, and only keys the keyboard was created
/// with can be held.
pub struct PressedKeys {
    pressed: HashSet<u16>,
}

/// What pressing (`pressed`) or releasing `key` does: the keys held
/// afterwards, and whether the change is reported, which it is exactly when
/// the key was not already in that state.
pub open spec fn key_change(held: Set<u16>, key: u16, pressed: bool) -> (Set<u16>, bool) {
    (
        if pressed {
            held.insert(key)
        } else {
            held.remove(key)
        },
        held.contains(key) != pressed,
    )
}

/// Setting a key to the state it was just set to changes nothing and
/// reports nothing.
pub proof fn lemma_repeat_reports_nothing(held: Set<u16>, key: u16, pressed: bool)
    ensures
        key_change(key_change(held, key, pressed).0, key, pressed) == (key_change(
            held,
            key,
            pressed,
        ).0, false),
{
    let h1 = key_change(held, key, pressed).0;
    assert(key_change(h1, key, pressed).0 =~= h1);
}

/// Pressing a key that is not held and releasing it again reports both
/// changes and leaves the same keys held as before.
pub proof fn lemma_press_release_restores(held: Set<u16>, key: u16)
    requires
        !held.contains(key),
    ensures
        key_change(held, key, true).1,
        key_change(key_change(held, key, true).0, key, false) == (held, true),
{
    assert(key_change(key_change(held, key, true).0, key, false).0 =~= held);
}

/// The keys held after a call of `set_key`: unchanged for a key the
/// keyboard does not have.
pub open spec fn after_set_key(held: Set<u16>, key: u16, pressed: bool) -> Set<u16> {
    if keyboard_keys().contains(key) {
        key_change(held, key, pressed).0
    } else {
        held
    }
}

/// Whether a call of `set_key` writes a report.
pub open spec fn set_key_reports(held: Set<u16>, key: u16, pressed: bool) -> bool {
    keyboard_keys().contains(key) && key_change(held, key, pressed).1
}

/// The keys held after a run of `set_key` calls, each a key and whether it
/// is pressed.
pub open spec fn held_after(held: Set<u16>, calls: Seq<(u16, bool)>) -> Set<u16>
    decreases calls.len(),
{
    if calls.len() == 0 {
        held
    } else {
        let last = calls.last();
        after_set_key(held_after(held, calls.drop_last()), last.0, last.1)
    }
}

/// The reports written by a run of `set_key` calls, each a key and whether
/// it was pressed.
pub open spec fn reports_after(held: Set<u16>, calls: Seq<(u16, bool)>) -> Seq<(u16, bool)>
    decreases calls.len(),
{
    if calls.len() == 0 {
        seq![]
    } else {
        let last = calls.last();
        let before = held_after(held, calls.drop_last());
        let earlier = reports_after(held, calls.drop_last());
        if set_key_reports(before, last.0, last.1) {
            earlier.push(last)
        } else {
            earlier
        }
    }
}

/// The state of `key` in the last of `events` about it, if any.
pub open spec fn last_state(events: Seq<(u16, bool)>, key: u16) -> Option<bool>
    decreases events.len(),
{
    if events.len() == 0 {
        None
    } else if events.last().0 == key {
        Some(events.last().1)
    } else {
        last_state(events.drop_last(), key)
    }
}

/// Starting with no key held, after any run of `set_key` calls the keys
/// held are exactly the keys whose last report was a press, and only keys
/// of the keyboard are held.
pub proof fn lemma_held_keys_follow_last_report(calls: Seq<(u16, bool)>, key: u16)
    ensures
        held_after(Set::empty(), calls).contains(key) <==> last_state(
            reports_after(Set::empty(), calls),
            key,
        ) == Some(true),
        held_after(Set::empty(), calls).contains(key) ==> keyboard_keys().contains(key),
    decreases calls.len(),
{
    if calls.len() > 0 {
        let rest = calls.drop_last();
        lemma_held_keys_follow_last_report(rest, key);
        let before = held_after(Set::empty(), rest);
        let last = calls.last();
        let earlier = reports_after(Set::empty(), rest);
        if set_key_reports(before, last.0, last.1) {
            assert(earlier.push(last).drop_last() =~= earlier);
        } else if keyboard_keys().contains(last.0) {
            assert(key_change(before, last.0, last.1).0 =~= before);
        }
    }
}

/// The keys of `held` in the order the keyboard enables them.
pub open spec fn release_order(held: Set<u16>) -> Seq<u16> {
    keyboard_keys().filter(|k: u16| held.contains(k))
}

impl View for PressedKeys {
    type V = Set<u16>;

    closed spec fn view(&self) -> Set<u16> {
        self.pressed@
    }
}

impl PressedKeys {
    /// Only keys of the virtual keyboard are ever held.
    #[verifier::type_invariant]
    closed spec fn only_keyboard_keys(self) -> bool {
        forall|k: u16| #[trigger] self.pressed@.contains(k) ==> keyboard_keys().contains(k)
    }

    /// No key held.
    pub fn new() -> (s: PressedKeys)
        ensures
            s@ == Set::<u16>::empty(),
    {
        PressedKeys { pressed: HashSet::new() }
    }

    /// Whether `key_code` is held.
    pub fn is_pressed(&self, key_code: u16) -> (r: bool)
        ensures
            r == self@.contains(key_code),
    {
        self.pressed.contains(&key_code)
    }

    /// Presses (`pressed`) or releases a key. Refuses a key the keyboard
    /// does not have, and changes nothing then. Otherwise records the key's
    /// new state and returns the report to write, or `None` when the key
    /// was already in that state.
    pub fn set_key(&mut self, key_code: u16, pressed: bool) -> (r: Result<
        Option<Vec<u8>>,
        KeyError,
    >)
        ensures
            !keyboard_keys().contains(key_code) ==> r == Err::<Option<Vec<u8>>, KeyError>(
                KeyError::NotEnabled,
            ) && final(self)@ == old(self)@,
            keyboard_keys().contains(key_code) ==> {
                &&& final(self)@ == key_change(old(self)@, key_code, pressed).0
                &&& r matches Ok(out) && (out is Some <==> key_change(old(self)@, key_code, pressed).1)
                    && (out matches Some(bytes) ==> bytes@ == synced_report_bytes(
                    EV_KEY,
                    key_code,
                    key_value(pressed),
                ))
            },
            final(self)@ == after_set_key(old(self)@, key_code, pressed),
            (r matches Ok(Some(_))) <==> set_key_reports(old(self)@, key_code, pressed),
            forall|k: u16| #[trigger] final(self)@.contains(k) ==> keyboard_keys().contains(k),
    {
        proof {
            use_type_invariant(&*self);
        }
        if !is_keyboard_key(key_code) {
            return Err(KeyError::NotEnabled);
        }
        let mut held = HashSet::new();
        std::mem::swap(&mut held, &mut self.pressed);
        let changed = if pressed {
            held.insert(key_code)
        } else {
            held.remove(&key_code)
        };
        self.pressed = held;
        if !changed {
            return Ok(None);
        }
        Ok(Some(key_report(key_code, pressed)))
    }

    /// Releases every held key. Returns the keys that were held, each once,
    /// in the order the keyboard enables them; nothing is held afterwards.
    pub fn release_all(&mut self) -> (released: Vec<u16>)
        ensures
            released@ == release_order(old(self)@),
            forall|k: u16| #[trigger] released@.contains(k) <==> old(self)@.contains(k),
            released@.no_duplicates(),
            final(self)@ == Set::<u16>::empty(),
    {
        proof {
            use_type_invariant(&*self);
        }
        let keys = keyboard_key_codes();
        let ghost held = self@;
        let ghost pred = |k: u16| held.contains(k);
        let mut released: Vec<u16> = Vec::new();
        proof {
            lemma_keyboard_keys_distinct();
        }
        let mut i: usize = 0;
        while i < keys.len()
            invariant
                i <= keys@.len(),
                keys@ == keyboard_keys(),
                held == self@,
                pred == (|k: u16| held.contains(k)),
                released@ == keys@.take(i as int).filter(pred),
                released@.no_duplicates(),
                forall|x: u16| #[trigger] released@.contains(x) ==> keys@.take(i as int).contains(x),
                keys@.no_duplicates(),
            decreases keys@.len() - i,
        {
            let k = keys[i];
            proof {
                assert(keys@.take(i + 1) =~= keys@.take(i as int).push(k));
                keys@.take(i as int).lemma_filter_push(k, pred);
            }
            let ghost prev = released@;
            if self.pressed.contains(&k) {
                proof {
                    if released@.contains(k) {
                        let j = choose|j: int| 0 <= j < i && keys@.take(i as int)[j] == k;
                        assert(keys@[j] == keys@[i as int]);
                    }
                }
                released.push(k);
            }
            proof {
                assert forall|x: u16| #[trigger] released@.contains(x) implies keys@.take(
                    i + 1,
                ).contains(x) by {
                    if x != k {
                        let m = choose|m: int| 0 <= m < released@.len() && released@[m] == x;
                        assert(prev[m] == x);
                        assert(prev.contains(x));
                        assert(keys@.take(i as int).contains(x));
                        let j = choose|j: int| 0 <= j < i && keys@.take(i as int)[j] == x;
                        assert(keys@.take(i + 1)[j] == x);
                    } else {
                        assert(keys@.take(i + 1)[i as int] == x);
                    }
                }
            }
            i = i + 1;
        }
        proof {
            assert(keys@.take(keys@.len() as int) =~= keys@);
            broadcast use vstd::seq_lib::group_filter_ensures;

            assert forall|k: u16| #[trigger] released@.contains(k) <==> held.contains(k) by {
                if held.contains(k) {
                    let j = choose|j: int| 0 <= j < keys@.len() && keys@[j] == k;
                    keys@.lemma_filter_contains(pred, j);
                }
                if released@.contains(k) {
                    let j = choose|j: int| 0 <= j < released@.len() && released@[j] == k;
                    keys@.lemma_filter_pred(pred, j);
                }
            }
        }
        self.pressed = HashSet::new();
        released
    }
}

/// The keyboard has the M key and the four arrow keys, each once, and
/// nothing else.
pub proof fn lemma_keyboard_keys_are_m_and_arrows(k: u16)
    ensures
        keyboard_keys().contains(k) <==> (k == KEY_M || k == KEY_UP || k == KEY_DOWN || k == KEY_LEFT
            || k == KEY_RIGHT),
        keyboard_keys().len() == 5,
        keyboard_keys().no_duplicates(),
{
    let keys = keyboard_keys();
    if k == KEY_M {
        assert(keys[0] == k);
    } else if k == KEY_UP {
        assert(keys[1] == k);
    } else if k == KEY_LEFT {
        assert(keys[2] == k);
    } else if k == KEY_RIGHT {
        assert(keys[3] == k);
    } else if k == KEY_DOWN {
        assert(keys[4] == k);
    }
}

/// No key of the keyboard is listed twice.
proof fn lemma_keyboard_keys_distinct()
    ensures
        keyboard_keys().no_duplicates(),
{
}

} // verus!
