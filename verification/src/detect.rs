//! Whether a named key or mouse button is held, and whether it was just pressed.
//!
//! The polled state is the list of keys that are down and one boolean per
//! mouse button. A keyboard name is active when its detection code is among
//! the keys that are down; `Mouse3`, `Mouse4` and `Mouse5` are active when the
//! button list reaches their index and holds `true` there. A press is the
//! step from an inactive sample to an active one.

use vstd::prelude::*;
use vstd::hash_map::StringHashMap;
use crate::keys::DetectionCode;
use crate::text::same_text;

verus! {

/// The place in the polled button list of the button named `id`.
pub open spec fn mouse_button_index(id: Seq<char>) -> Option<int> {
    if id == "Mouse3"@ {
        Some(3int)
    } else if id == "Mouse4"@ {
        Some(4int)
    } else if id == "Mouse5"@ {
        Some(5int)
    } else {
        None
    }
}

/// The button named `id` is reported as held.
pub open spec fn button_active(id: Seq<char>, buttons: Seq<bool>) -> bool {
    match mouse_button_index(id) {
        Some(i) => i < buttons.len() && buttons[i],
        None => false,
    }
}

/// The key or button named `id` is held: `table` resolves it to a code that
/// is among `keys`, or it names a mouse button that `buttons` reports.
pub open spec fn key_active(
    id: Seq<char>,
    keys: Seq<DetectionCode>,
    buttons: Seq<bool>,
    table: Map<Seq<char>, DetectionCode>,
) -> bool {
    ||| table.contains_key(id) && keys.contains(table[id])
    ||| button_active(id, buttons)
}

/// A press: inactive at the previous sample, active now.
pub open spec fn is_rising(prev: bool, now: bool) -> bool {
    !prev && now
}

/// How many presses the samples hold, `prev` being the sample before them.
pub open spec fn press_count(prev: bool, samples: Seq<bool>) -> nat
    decreases samples.len(),
{
    if samples.len() == 0 {
        0
    } else {
        let rest = press_count(samples[0], samples.drop_first());
        if is_rising(prev, samples[0]) {
            rest + 1
        } else {
            rest
        }
    }
}

/// Whether `code` is among `keys`.
pub fn holds_code(keys: &[DetectionCode], code: DetectionCode) -> (found: bool)
    ensures
        found == keys@.contains(code),
{
    let mut i: usize = 0;
    while i < keys.len()
        invariant
            i <= keys.len(),
            forall|k: int| 0 <= k < i ==> keys@[k] != code,
        decreases keys.len() - i,
    {
        if keys[i] == code {
            return true;
        }
        i += 1;
    }
    false
}

/// Whether the button list reports `true` at `index`; `false` where the list
/// does not reach that far.
pub fn button_down(mouse_buttons: &[bool], index: usize) -> (down: bool)
    ensures
        down == (index < mouse_buttons@.len() && mouse_buttons@[index as int]),
{
    mouse_buttons.len() > index && mouse_buttons[index]
}

/// Whether the key or button named `key_str` is held in the polled state.
pub fn is_key_active(
    key_str: &str,
    keys: &[DetectionCode],
    mouse_buttons: &[bool],
    key_map: &StringHashMap<DetectionCode>,
) -> (active: bool)
    ensures
        active == key_active(key_str@, keys@, mouse_buttons@, key_map@),
{
    if let Some(code) = key_map.get(key_str) {
        if holds_code(keys, *code) {
            return true;
        }
    }
    if same_text(key_str, "Mouse3") {
        button_down(mouse_buttons, 3)
    } else if same_text(key_str, "Mouse4") {
        button_down(mouse_buttons, 4)
    } else if same_text(key_str, "Mouse5") {
        button_down(mouse_buttons, 5)
    } else {
        false
    }
}

/// Whether the step from `prev` to `now` is a press.
pub fn rising_edge(prev: bool, now: bool) -> (pressed: bool)
    ensures
        pressed == is_rising(prev, now),
        pressed <==> (prev == false && now == true),
{
    now && !prev
}

/// Two samples in a row are never both a press: the second one follows an
/// active sample.
pub proof fn lemma_no_press_twice_in_a_row(prev: bool, first: bool, second: bool)
    ensures
        !(is_rising(prev, first) && is_rising(first, second)),
{
}

/// A key that is held throughout the samples is pressed at most once in
/// them: once if it was up before, not at all if it was down already.
pub proof fn lemma_held_key_fires_at_most_once(prev: bool, samples: Seq<bool>)
    requires
        forall|i: int| 0 <= i < samples.len() ==> samples[i],
    ensures
        press_count(prev, samples) <= 1,
        press_count(prev, samples) == (if !prev && samples.len() > 0 {
            1nat
        } else {
            0nat
        }),
    decreases samples.len(),
{
    if samples.len() > 0 {
        let rest = samples.drop_first();
        assert forall|i: int| 0 <= i < rest.len() implies rest[i] by {
            assert(rest[i] == samples[i + 1]);
        }
        lemma_held_key_fires_at_most_once(samples[0], rest);
    }
}

/// A key that stays up throughout the samples is never pressed in them.
pub proof fn lemma_idle_key_never_fires(prev: bool, samples: Seq<bool>)
    requires
        forall|i: int| 0 <= i < samples.len() ==> !samples[i],
    ensures
        press_count(prev, samples) == 0,
    decreases samples.len(),
{
    if samples.len() > 0 {
        let rest = samples.drop_first();
        assert forall|i: int| 0 <= i < rest.len() implies !rest[i] by {
            assert(rest[i] == samples[i + 1]);
        }
        lemma_idle_key_never_fires(samples[0], rest);
    }
}

} // verus!
