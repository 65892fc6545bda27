//! The settings form: the four values as the user is editing them, read from
//! the store when the form opens and written back when it is saved.

use vstd::prelude::*;
use crate::reminder::ReminderType;
use crate::shared_state::{BlinkSettings, SettingsEdit, SettingsStore, StoreState};

verus! {

/// Whether `c` is one of the ten decimal digits.
pub open spec fn is_digit(c: char) -> bool {
    '0' <= c <= '9'
}

/// The number that a run of decimal digits writes, most significant first.
pub open spec fn digits_value(digits: Seq<char>) -> nat
    decreases digits.len(),
{
    if digits.len() == 0 {
        0
    } else {
        (digits_value(digits.drop_last()) * 10 + (digits.last() as u32 - '0' as u32)) as nat
    }
}

/// `text` without the one `+` that may stand in front of the digits.
pub open spec fn unsigned_part(text: Seq<char>) -> Seq<char> {
    if text.len() > 0 && text[0] == '+' {
        text.skip(1)
    } else {
        text
    }
}

/// The number of seconds that `text` writes, if it writes one: an optional
/// `+`, then one or more decimal digits and nothing else, with a value that
/// fits 64 bits.
pub open spec fn seconds_written(text: Seq<char>) -> Option<u64> {
    let digits = unsigned_part(text);
    if digits.len() > 0 && (forall|i: int| 0 <= i < digits.len() ==> is_digit(#[trigger] digits[i]))
        && digits_value(digits) <= u64::MAX {
        Some(digits_value(digits) as u64)
    } else {
        None
    }
}

proof fn lemma_prefix_value_is_no_larger(digits: Seq<char>, k: int)
    requires
        0 <= k <= digits.len(),
        forall|i: int| 0 <= i < digits.len() ==> is_digit(#[trigger] digits[i]),
    ensures
        digits_value(digits.take(k)) <= digits_value(digits),
    decreases digits.len(),
{
    if k == digits.len() {
        assert(digits.take(k) =~= digits);
    } else {
        let front = digits.drop_last();
        lemma_prefix_value_is_no_larger(front, k);
        assert(front.take(k) =~= digits.take(k));
        assert(is_digit(digits[digits.len() - 1]));
    }
}

/// Reads a number of seconds as the user typed it. Gives `None` for text
/// that is empty, holds anything but an optional `+` and decimal digits, or
/// writes a number that does not fit 64 bits.
pub fn parse_seconds(text: &str) -> (seconds: Option<u64>)
    ensures
        seconds == seconds_written(text@),
{
    let len = text.unicode_len();
    let start: usize = if len > 0 && text.get_char(0) == '+' {
        1
    } else {
        0
    };
    let ghost digits = unsigned_part(text@);
    if start == len {
        return None;
    }
    let mut value: u64 = 0;
    let mut i: usize = start;
    while i < len
        invariant
            start <= i <= len,
            len == text@.len(),
            digits == unsigned_part(text@),
            digits == text@.skip(start as int),
            forall|j: int| 0 <= j < i - start ==> is_digit(#[trigger] digits[j]),
            value == digits_value(digits.take(i - start)),
        decreases len - i,
    {
        let c = text.get_char(i);
        assert(c == digits[i - start]);
        if c < '0' || c > '9' {
            assert(!is_digit(digits[i - start]));
            return None;
        }
        let digit: u64 = (c as u32 - '0' as u32) as u64;
        let ghost next = digits.take(i - start + 1);
        assert(next.drop_last() =~= digits.take(i - start));
        assert(next.last() == c);
        if value > (u64::MAX - digit) / 10 {
            proof {
                assert(digits_value(next) > u64::MAX);
                if forall|j: int| 0 <= j < digits.len() ==> is_digit(#[trigger] digits[j]) {
                    lemma_prefix_value_is_no_larger(digits, i - start + 1);
                }
            }
            return None;
        }
        value = value * 10 + digit;
        i = i + 1;
    }
    assert(digits.take(i - start) =~= digits);
    Some(value)
}

/// One of the two fields that the settings hold for a reminder kind.
#[derive(Clone, Copy, Debug, PartialEq, Eq, Structural)]
pub enum SettingsField {
    Interval,
    Duration,
}

impl SettingsField {
    /// The edit that gives this field of `kind` the value `value`.
    pub open spec fn edit(self, kind: ReminderType, value: u64) -> SettingsEdit {
        match self {
            SettingsField::Interval => SettingsEdit::Interval(kind, value),
            SettingsField::Duration => SettingsEdit::Duration(kind, value),
        }
    }

    /// Makes the edit that gives this field of `kind` the value `value`.
    pub fn to_edit(self, kind: ReminderType, value: u64) -> (edit: SettingsEdit)
        ensures
            edit == self.edit(kind, value),
    {
        match self {
            SettingsField::Interval => SettingsEdit::Interval(kind, value),
            SettingsField::Duration => SettingsEdit::Duration(kind, value),
        }
    }
}

/// The four edits that saving `values` makes, in the order in which they are
/// made.
pub open spec fn saving(values: BlinkSettings) -> Seq<SettingsEdit> {
    seq![
        SettingsEdit::Interval(ReminderType::Blink, values.blink_interval),
        SettingsEdit::Duration(ReminderType::Blink, values.blink_duration),
        SettingsEdit::Interval(ReminderType::Posture, values.posture_interval),
        SettingsEdit::Duration(ReminderType::Posture, values.posture_duration),
    ]
}

/// The settings form. It holds the values shown in its four inputs, which
/// reach the store only when the form is saved.
#[derive(Clone, Copy, Debug, PartialEq, Eq, Structural)]
pub struct SettingsForm {
    pub values: BlinkSettings,
}

impl SettingsForm {
    /// This form after the user typed `text` into the input of one field:
    /// text that writes a number of seconds replaces the value of that field,
    /// any other text leaves the form as it was.
    pub open spec fn typed(self, kind: ReminderType, field: SettingsField, text: Seq<char>) -> SettingsForm {
        match seconds_written(text) {
            Some(value) => SettingsForm { values: self.values.edited(field.edit(kind, value)) },
            None => self,
        }
    }

    /// Opens the form on the store's settings of this moment.
    pub fn open(store: &SettingsStore) -> (form: SettingsForm)
        ensures
            form.values == store@.settings,
    {
        SettingsForm { values: store.snapshot() }
    }

    /// Takes what the user typed into the input of one field, and tells
    /// whether it was a number of seconds.
    pub fn type_in(&mut self, kind: ReminderType, field: SettingsField, text: &str) -> (accepted: bool)
        ensures
            *final(self) == old(self).typed(kind, field, text@),
            accepted == seconds_written(text@) is Some,
    {
        match parse_seconds(text) {
            Some(value) => {
                self.values.apply(field.to_edit(kind, value));
                true
            },
            None => false,
        }
    }

    /// Saves the form: sets each of the four fields of the store to the
    /// form's value, the two of blink first, the interval before the
    /// duration. The store then holds the form's values and has published
    /// four snapshots more, one per field.
    pub fn save(&self, store: &mut SettingsStore)
        ensures
            final(store)@ == old(store)@.edited_all(saving(self.values)),
            final(store)@.settings == self.values,
            final(store)@.published.len() == old(store)@.published.len() + 4,
    {
        let ghost before: StoreState = store@;
        let ghost edits = saving(self.values);
        store.set_interval(ReminderType::Blink, self.values.blink_interval);
        store.set_duration(ReminderType::Blink, self.values.blink_duration);
        store.set_interval(ReminderType::Posture, self.values.posture_interval);
        store.set_duration(ReminderType::Posture, self.values.posture_duration);
        proof {
            assert(edits.take(0) =~= Seq::<SettingsEdit>::empty());
            assert(edits.take(1).drop_last() =~= edits.take(0));
            assert(edits.take(2).drop_last() =~= edits.take(1));
            assert(edits.take(3).drop_last() =~= edits.take(2));
            assert(edits.drop_last() =~= edits.take(3));
            assert(before.edited_all(edits.take(0)) == before);
            assert(before.edited_all(edits.take(1)) == before.edited(edits[0]));
            assert(before.edited_all(edits.take(2)) == before.edited(edits[0]).edited(edits[1]));
            assert(before.edited_all(edits.take(3)) == before.edited(edits[0]).edited(
                edits[1],
            ).edited(edits[2]));
        }
    }
}

} // verus!
