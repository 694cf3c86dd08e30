use vstd::prelude::*;

verus! {

/// Number of entries of the choice list that the first window cycles through.
pub const CHOICE_COUNT: usize = 2;

/// The choice that follows `value` when the button is pressed: the next
/// entry, wrapping from the last entry back to the first.
pub open spec fn next_choice(value: int) -> int {
    (value + 1) % (CHOICE_COUNT as int)
}

/// Advances the selected choice after a press of the choice button.
///
/// The button's label is `choices[value]`, so `value` is a valid index into the
/// two-entry choice list whenever the button can be pressed.
pub fn cycle_choice(value: usize) -> (next: usize)
    requires
        value < CHOICE_COUNT,
    ensures
        next == next_choice(value as int),
        next < CHOICE_COUNT,
{
    let mut v: usize = value;
    v += 1;
    v %= CHOICE_COUNT;
    v
}

/// The selected choice stays a valid index into the choice list: starting from
/// a valid index, any number of presses leaves a valid index behind.
pub proof fn lemma_choice_stays_in_range(value: int)
    requires
        0 <= value < CHOICE_COUNT,
    ensures
        0 <= next_choice(value) < CHOICE_COUNT,
{
}

/// Pressing the choice button twice brings back the choice shown before.
pub proof fn lemma_choice_twice_is_identity(value: int)
    requires
        0 <= value < CHOICE_COUNT,
    ensures
        next_choice(next_choice(value)) == value,
{
}

} // verus!
