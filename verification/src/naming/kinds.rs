//! Which labels name the places that the models of mutexes and of condition
//! variables guard, and why no other label is taken for one of them.
//!
//! The place `unlocked` and the place `locked` of a mutex and the place
//! `signal_output` of a condition variable are told by the end of their
//! labels. No place of the control flow and no other place of a condition
//! variable has a label with such an end.
//!
//! Labels that are numbered by a counter differ if the counters differ: the
//! decimal representation of a number tells the number.

use crate::naming::basic_block::block_place_label_spec;
use crate::naming::program::{PROGRAM_END, PROGRAM_PANIC, PROGRAM_START};
use crate::naming::thread::{end_place_label_spec, start_place_label_spec};
use crate::naming::{decimal_spec, digit_char_spec};
use vstd::prelude::*;

verus! {

/// Whether a label ends with the given characters.
pub open spec fn ends_with(label: Seq<char>, suffix: Seq<char>) -> bool {
    label.len() >= suffix.len() && label.subrange(label.len() - suffix.len(), label.len() as int)
        == suffix
}

/// Whether a label is that of a place of a mutex or of the place
/// `signal_output` of a condition variable.
pub open spec fn is_guarded_place(label: Seq<char>) -> bool {
    ||| ends_with(label, "_UNLOCKED"@)
    ||| ends_with(label, "_LOCKED"@)
    ||| ends_with(label, "_SIGNAL_OUTPUT"@)
}

/// Whether a character is a decimal digit.
pub open spec fn is_digit(c: char) -> bool {
    '0' <= c && c <= '9'
}

/// A label that is made by appending characters ends with them.
pub proof fn lemma_appended_is_suffix(start: Seq<char>, suffix: Seq<char>)
    ensures
        ends_with(start + suffix, suffix),
{
    let label = start + suffix;
    assert(label.subrange(label.len() - suffix.len(), label.len() as int) =~= suffix);
}

/// The characters at the end of a label are those of its suffix.
pub proof fn lemma_suffix_characters(label: Seq<char>, suffix: Seq<char>, k: int)
    requires
        ends_with(label, suffix),
        1 <= k <= suffix.len(),
    ensures
        label[label.len() - k] == suffix[suffix.len() - k],
{
    let tail = label.subrange(label.len() - suffix.len(), label.len() as int);
    assert(tail[suffix.len() - k] == label[label.len() - suffix.len() + (suffix.len() - k)]);
}

/// A label does not end with two suffixes that differ at the same
/// distance from the end.
pub proof fn lemma_suffixes_clash(label: Seq<char>, first: Seq<char>, second: Seq<char>, k: int)
    requires
        ends_with(label, first),
        1 <= k <= first.len(),
        k <= second.len(),
        first[first.len() - k] != second[second.len() - k],
    ensures
        !ends_with(label, second),
{
    if ends_with(label, second) {
        lemma_suffix_characters(label, first, k);
        lemma_suffix_characters(label, second, k);
    }
}

/// A number in decimal has at least one character, and all are digits.
pub proof fn lemma_decimal_is_digits(n: nat)
    ensures
        decimal_spec(n).len() >= 1,
        forall|i: int| 0 <= i < decimal_spec(n).len() ==> is_digit(#[trigger] decimal_spec(n)[i]),
    decreases n,
{
    if n >= 10 {
        lemma_decimal_is_digits(n / 10);
    }
}

/// No label that ends with a digit is that of a guarded place.
pub proof fn lemma_digit_end_is_not_guarded(label: Seq<char>)
    requires
        label.len() >= 1,
        is_digit(label.last()),
    ensures
        !is_guarded_place(label),
{
    reveal_strlit("_UNLOCKED");
    reveal_strlit("_LOCKED");
    reveal_strlit("_SIGNAL_OUTPUT");
    if ends_with(label, "_UNLOCKED"@) {
        lemma_suffix_characters(label, "_UNLOCKED"@, 1);
    }
    if ends_with(label, "_LOCKED"@) {
        lemma_suffix_characters(label, "_LOCKED"@, 1);
    }
    if ends_with(label, "_SIGNAL_OUTPUT"@) {
        lemma_suffix_characters(label, "_SIGNAL_OUTPUT"@, 1);
    }
}

/// No label with the given end is that of a guarded place, if the end
/// differs from the ends of the guarded places: from `KED` in one of its
/// last three characters and from `TPUT` in one of its last four.
pub proof fn lemma_other_end_is_not_guarded(label: Seq<char>, suffix: Seq<char>, k: int, m: int)
    requires
        ends_with(label, suffix),
        1 <= k <= 3,
        k <= suffix.len(),
        suffix[suffix.len() - k] != seq!['K', 'E', 'D'][3 - k],
        1 <= m <= 4,
        m <= suffix.len(),
        suffix[suffix.len() - m] != seq!['T', 'P', 'U', 'T'][4 - m],
    ensures
        !is_guarded_place(label),
{
    reveal_strlit("_UNLOCKED");
    reveal_strlit("_LOCKED");
    reveal_strlit("_SIGNAL_OUTPUT");
    lemma_suffixes_clash(label, suffix, "_UNLOCKED"@, k);
    lemma_suffixes_clash(label, suffix, "_LOCKED"@, k);
    lemma_suffixes_clash(label, suffix, "_SIGNAL_OUTPUT"@, m);
}

/// The place of a basic block is no guarded place.
pub proof fn lemma_block_place_is_not_guarded(function_name: Seq<char>, block: nat)
    ensures
        !is_guarded_place(block_place_label_spec(function_name, block)),
{
    lemma_decimal_is_digits(block);
    let label = block_place_label_spec(function_name, block);
    assert(label.last() == decimal_spec(block).last());
    lemma_digit_end_is_not_guarded(label);
}

/// The places of the program are no guarded places.
pub proof fn lemma_program_places_are_not_guarded()
    ensures
        !is_guarded_place(PROGRAM_START@),
        !is_guarded_place(PROGRAM_END@),
        !is_guarded_place(PROGRAM_PANIC@),
{
    reveal_strlit("PROGRAM_START");
    reveal_strlit("PROGRAM_END");
    reveal_strlit("PROGRAM_PANIC");
    assert(ends_with(PROGRAM_START@, PROGRAM_START@)) by {
        assert(PROGRAM_START@.subrange(0, PROGRAM_START@.len() as int) =~= PROGRAM_START@);
    }
    assert(ends_with(PROGRAM_END@, PROGRAM_END@)) by {
        assert(PROGRAM_END@.subrange(0, PROGRAM_END@.len() as int) =~= PROGRAM_END@);
    }
    assert(ends_with(PROGRAM_PANIC@, PROGRAM_PANIC@)) by {
        assert(PROGRAM_PANIC@.subrange(0, PROGRAM_PANIC@.len() as int) =~= PROGRAM_PANIC@);
    }
    lemma_other_end_is_not_guarded(PROGRAM_START@, PROGRAM_START@, 2, 2);
    lemma_other_end_is_not_guarded(PROGRAM_END@, PROGRAM_END@, 2, 1);
    lemma_other_end_is_not_guarded(PROGRAM_PANIC@, PROGRAM_PANIC@, 1, 1);
}

/// The places of a thread are no guarded places.
pub proof fn lemma_thread_places_are_not_guarded(index: nat)
    ensures
        !is_guarded_place(start_place_label_spec(index)),
        !is_guarded_place(end_place_label_spec(index)),
{
    reveal_strlit("_START");
    reveal_strlit("_END");
    lemma_appended_is_suffix("THREAD_"@ + decimal_spec(index), "_START"@);
    lemma_appended_is_suffix("THREAD_"@ + decimal_spec(index), "_END"@);
    lemma_other_end_is_not_guarded(start_place_label_spec(index), "_START"@, 2, 2);
    lemma_other_end_is_not_guarded(end_place_label_spec(index), "_END"@, 2, 1);
}

/// Of the places of a condition variable only `signal_output` is a guarded place.
pub proof fn lemma_condvar_places(index: nat)
    ensures
        !is_guarded_place(crate::naming::condvar::place_labels_spec(index).0),
        !is_guarded_place(crate::naming::condvar::place_labels_spec(index).1),
        !is_guarded_place(crate::naming::condvar::place_labels_spec(index).2),
        ends_with(crate::naming::condvar::place_labels_spec(index).3, "_SIGNAL_OUTPUT"@),
        !ends_with(crate::naming::condvar::place_labels_spec(index).3, "_UNLOCKED"@),
        !ends_with(crate::naming::condvar::place_labels_spec(index).3, "_LOCKED"@),
{
    reveal_strlit("_LOST_SIGNAL_POSSIBLE");
    reveal_strlit("_SIGNAL_INPUT");
    reveal_strlit("_WAIT_INPUT");
    reveal_strlit("_SIGNAL_OUTPUT");
    reveal_strlit("_UNLOCKED");
    reveal_strlit("_LOCKED");
    let start = "CONDVAR_"@ + decimal_spec(index);
    let labels = crate::naming::condvar::place_labels_spec(index);
    lemma_appended_is_suffix(start, "_LOST_SIGNAL_POSSIBLE"@);
    lemma_appended_is_suffix(start, "_SIGNAL_INPUT"@);
    lemma_appended_is_suffix(start, "_WAIT_INPUT"@);
    lemma_appended_is_suffix(start, "_SIGNAL_OUTPUT"@);
    lemma_other_end_is_not_guarded(labels.0, "_LOST_SIGNAL_POSSIBLE"@, 1, 1);
    lemma_other_end_is_not_guarded(labels.1, "_SIGNAL_INPUT"@, 1, 4);
    lemma_other_end_is_not_guarded(labels.2, "_WAIT_INPUT"@, 1, 4);
    lemma_suffixes_clash(labels.3, "_SIGNAL_OUTPUT"@, "_UNLOCKED"@, 1);
    lemma_suffixes_clash(labels.3, "_SIGNAL_OUTPUT"@, "_LOCKED"@, 1);
}

/// The places of a mutex are guarded places, and none is the place
/// `signal_output` of a condition variable.
pub proof fn lemma_mutex_places(index: nat)
    ensures
        ends_with(crate::naming::mutex::place_labels_spec(index).0, "_UNLOCKED"@),
        ends_with(crate::naming::mutex::place_labels_spec(index).1, "_LOCKED"@),
        !ends_with(crate::naming::mutex::place_labels_spec(index).0, "_SIGNAL_OUTPUT"@),
        !ends_with(crate::naming::mutex::place_labels_spec(index).1, "_SIGNAL_OUTPUT"@),
{
    reveal_strlit("_SIGNAL_OUTPUT");
    reveal_strlit("_UNLOCKED");
    reveal_strlit("_LOCKED");
    let start = "MUTEX_"@ + decimal_spec(index);
    let labels = crate::naming::mutex::place_labels_spec(index);
    lemma_appended_is_suffix(start, "_UNLOCKED"@);
    lemma_appended_is_suffix(start, "_LOCKED"@);
    lemma_suffixes_clash(labels.0, "_UNLOCKED"@, "_SIGNAL_OUTPUT"@, 1);
    lemma_suffixes_clash(labels.1, "_LOCKED"@, "_SIGNAL_OUTPUT"@, 1);
}

/// Labels that are made of the same start and the same end differ only
/// in what stands between the two.
pub proof fn lemma_same_frame(
    start: Seq<char>,
    first: Seq<char>,
    second: Seq<char>,
    end: Seq<char>,
)
    requires
        start + first + end == start + second + end,
    ensures
        first == second,
{
    let a = start + first + end;
    let b = start + second + end;
    assert(a.len() == start.len() + first.len() + end.len());
    assert(b.len() == start.len() + second.len() + end.len());
    assert(first =~= a.subrange(start.len() as int, (start.len() + first.len()) as int));
    assert(second =~= b.subrange(start.len() as int, (start.len() + second.len()) as int));
}

/// Two mutexes have either the same two places or no place in common.
pub proof fn lemma_mutexes_apart(i: nat, j: nat)
    ensures
        ({
            let a = crate::naming::mutex::place_labels_spec(i);
            let b = crate::naming::mutex::place_labels_spec(j);
            &&& a.0 != a.1
            &&& a.0 != b.1
            &&& (a.0 == b.0) == (a.1 == b.1)
        }),
{
    reveal_strlit("_UNLOCKED");
    reveal_strlit("_LOCKED");
    reveal_strlit("MUTEX_");
    let a = crate::naming::mutex::place_labels_spec(i);
    let b = crate::naming::mutex::place_labels_spec(j);
    let start = "MUTEX_"@;
    lemma_decimal_is_digits(i);
    lemma_decimal_is_digits(j);
    if a.0 == b.0 {
        lemma_same_frame(start, decimal_spec(i), decimal_spec(j), "_UNLOCKED"@);
    }
    if a.1 == b.1 {
        lemma_same_frame(start, decimal_spec(i), decimal_spec(j), "_LOCKED"@);
    }
    assert(a.0.len() == 6 + decimal_spec(i).len() + 9);
    assert(a.1.len() == 6 + decimal_spec(i).len() + 7);
    if a.0 == b.1 {
        // The label of `unlocked` is two characters longer than that of
        // `locked`, so that a digit of the one would be the `_` of the other.
        let di = decimal_spec(i);
        let dj = decimal_spec(j);
        assert(a.0.len() == 6 + di.len() + 9);
        assert(b.1.len() == 6 + dj.len() + 7);
        assert(dj.len() == di.len() + 2);
        assert(a.0[(6 + di.len()) as int] == '_');
        assert(b.1[(6 + di.len()) as int] == dj[di.len() as int]);
        assert(is_digit(dj[di.len() as int]));
    }
}

/// Two condition variables with the same place `signal_output` have the
/// same transitions.
pub proof fn lemma_condvars_apart(i: nat, j: nat)
    requires
        crate::naming::condvar::place_labels_spec(i).3 == crate::naming::condvar::place_labels_spec(
            j,
        ).3,
    ensures
        crate::naming::condvar::transition_labels_spec(i)
            == crate::naming::condvar::transition_labels_spec(j),
{
    lemma_same_frame("CONDVAR_"@, decimal_spec(i), decimal_spec(j), "_SIGNAL_OUTPUT"@);
}

/// Two numbers with the same decimal representation are the same number.
pub proof fn lemma_decimal_is_injective(a: nat, b: nat)
    requires
        decimal_spec(a) == decimal_spec(b),
    ensures
        a == b,
    decreases a,
{
    lemma_decimal_is_digits(a / 10);
    lemma_decimal_is_digits(b / 10);
    if a < 10 {
        if b < 10 {
            assert(decimal_spec(a)[0] == digit_char_spec(a));
            assert(decimal_spec(b)[0] == digit_char_spec(b));
        } else {
            assert(decimal_spec(b).len() >= 2);
        }
    } else {
        if b < 10 {
            assert(decimal_spec(a).len() >= 2);
        } else {
            let x = decimal_spec(a / 10);
            let y = decimal_spec(b / 10);
            assert(decimal_spec(a).drop_last() =~= x);
            assert(decimal_spec(b).drop_last() =~= y);
            assert(decimal_spec(a).last() == digit_char_spec(a % 10));
            assert(decimal_spec(b).last() == digit_char_spec(b % 10));
            lemma_decimal_is_injective(a / 10, b / 10);
            assert(a % 10 == b % 10);
        }
    }
}

/// Labels that are made of the same start, a counter and the same end
/// differ if the counters differ.
pub proof fn lemma_counted_labels_differ(start: Seq<char>, end: Seq<char>, i: nat, j: nat)
    requires
        i != j,
    ensures
        start + decimal_spec(i) + end != start + decimal_spec(j) + end,
        start + decimal_spec(i) != start + decimal_spec(j),
{
    if start + decimal_spec(i) + end == start + decimal_spec(j) + end {
        lemma_same_frame(start, decimal_spec(i), decimal_spec(j), end);
        lemma_decimal_is_injective(i, j);
    }
    if start + decimal_spec(i) == start + decimal_spec(j) {
        assert(start + decimal_spec(i) + Seq::<char>::empty() =~= start + decimal_spec(i));
        assert(start + decimal_spec(j) + Seq::<char>::empty() =~= start + decimal_spec(j));
        lemma_same_frame(start, decimal_spec(i), decimal_spec(j), Seq::<char>::empty());
        lemma_decimal_is_injective(i, j);
    }
}

/// The labels of two calls of one kind differ, and so do the labels of
/// their unwind variants.
pub proof fn lemma_indexed_call_labels_differ(prefix: Seq<char>, i: nat, j: nat)
    requires
        i != j,
    ensures
        crate::naming::function::indexed_call_labels_spec(prefix, i).0
            != crate::naming::function::indexed_call_labels_spec(prefix, j).0,
        crate::naming::function::indexed_call_labels_spec(prefix, i).1
            != crate::naming::function::indexed_call_labels_spec(prefix, j).1,
{
    lemma_counted_labels_differ(prefix, "_UNWIND"@, i, j);
}

/// The places of two basic blocks of one function call differ.
pub proof fn lemma_block_places_differ(function_name: Seq<char>, i: nat, j: nat)
    requires
        i != j,
    ensures
        block_place_label_spec(function_name, i) != block_place_label_spec(function_name, j),
{
    lemma_counted_labels_differ(crate::naming::sanitize_spec(function_name) + "_BB"@, seq![], i, j);
}

/// The places of two threads differ.
pub proof fn lemma_thread_places_differ(i: nat, j: nat)
    requires
        i != j,
    ensures
        start_place_label_spec(i) != start_place_label_spec(j),
        end_place_label_spec(i) != end_place_label_spec(j),
{
    lemma_counted_labels_differ("THREAD_"@, "_START"@, i, j);
    lemma_counted_labels_differ("THREAD_"@, "_END"@, i, j);
}

/// The places of two mutexes differ.
pub proof fn lemma_mutex_places_differ(i: nat, j: nat)
    requires
        i != j,
    ensures
        crate::naming::mutex::place_labels_spec(i).0 != crate::naming::mutex::place_labels_spec(
            j,
        ).0,
        crate::naming::mutex::place_labels_spec(i).1 != crate::naming::mutex::place_labels_spec(
            j,
        ).1,
{
    lemma_counted_labels_differ("MUTEX_"@, "_UNLOCKED"@, i, j);
    lemma_counted_labels_differ("MUTEX_"@, "_LOCKED"@, i, j);
}

/// The places and the transitions of two condition variables differ.
pub proof fn lemma_condvar_labels_differ(i: nat, j: nat)
    requires
        i != j,
    ensures
        crate::naming::condvar::place_labels_spec(i).0
            != crate::naming::condvar::place_labels_spec(j).0,
        crate::naming::condvar::place_labels_spec(i).1
            != crate::naming::condvar::place_labels_spec(j).1,
        crate::naming::condvar::place_labels_spec(i).2
            != crate::naming::condvar::place_labels_spec(j).2,
        crate::naming::condvar::place_labels_spec(i).3
            != crate::naming::condvar::place_labels_spec(j).3,
        crate::naming::condvar::transition_labels_spec(i).0
            != crate::naming::condvar::transition_labels_spec(j).0,
        crate::naming::condvar::transition_labels_spec(i).1
            != crate::naming::condvar::transition_labels_spec(j).1,
{
    lemma_counted_labels_differ("CONDVAR_"@, "_LOST_SIGNAL_POSSIBLE"@, i, j);
    lemma_counted_labels_differ("CONDVAR_"@, "_SIGNAL_INPUT"@, i, j);
    lemma_counted_labels_differ("CONDVAR_"@, "_WAIT_INPUT"@, i, j);
    lemma_counted_labels_differ("CONDVAR_"@, "_SIGNAL_OUTPUT"@, i, j);
    lemma_counted_labels_differ("CONDVAR_"@, "_LOST_SIGNAL_TRANSITION"@, i, j);
    lemma_counted_labels_differ("CONDVAR_"@, "_SIGNAL_TRANSITION"@, i, j);
}

} // verus!
