//! Moving a selection through a list, with wrap-around at both ends.

use vstd::prelude::*;

verus! {

/// The index after `current` in a list of `len` items: the first item when
/// nothing is selected, when the list is empty, or when `current` is the last
/// item (or beyond it).
pub open spec fn advance(len: nat, current: Option<usize>) -> usize {
    match current {
        None => 0,
        Some(i) => if i + 1 < len { (i + 1) as usize } else { 0 },
    }
}

/// The index before `current` in a list of `len` items: the first item when
/// nothing is selected or when the list is empty, and the last item when
/// `current` is the first.
pub open spec fn retreat(len: nat, current: Option<usize>) -> usize {
    match current {
        None => 0,
        Some(i) => if len == 0 {
            0
        } else if i > 0 {
            (i - 1) as usize
        } else {
            #[verifier::truncate] ((len - 1) as usize)
        },
    }
}

/// Moves a selection one item down, wrapping from the last item to the
/// first. Total: an empty list or a missing selection gives 0.
pub fn on_down_press_handler<T>(selection_data: &[T], selection_index: Option<usize>) -> (next: usize)
    ensures
        next == advance(selection_data@.len(), selection_index),
{
    match selection_index {
        Some(index) => {
            let len: usize = selection_data.len();
            if len > 0 && index < len - 1 {
                index + 1
            } else {
                0
            }
        },
        None => 0,
    }
}

/// Moves a selection one item up, wrapping from the first item to the
/// last. Total: an empty list or a missing selection gives 0.
pub fn on_up_press_handler<T>(selection_data: &[T], selection_index: Option<usize>) -> (next: usize)
    ensures
        next == retreat(selection_data@.len(), selection_index),
{
    match selection_index {
        Some(index) => {
            let len: usize = selection_data.len();
            if len == 0 {
                0
            } else if index > 0 {
                index - 1
            } else {
                len - 1
            }
        },
        None => 0,
    }
}

/// A selection inside the list stays inside it, whichever way it moves; on an
/// empty list both moves give 0.
pub proof fn moves_stay_in_range(len: nat, current: Option<usize>)
    ensures
        len > 0 ==> advance(len, current) < len,
        (len > 0 && (current is Some ==> current->0 < len)) ==> retreat(len, current) < len,
        len == 0 ==> advance(len, current) == 0 && retreat(len, current) == 0,
{
}

/// Moving down and then up again returns to where the selection was, for
/// every selection inside the list: also from the last item, where the move
/// down wraps to the first and the move up wraps back.
pub proof fn advance_then_retreat(len: nat, current: usize)
    requires
        current < len <= usize::MAX,
    ensures
        retreat(len, Some(advance(len, Some(current)))) == current,
{
}

/// Moving up and then down again returns to where the selection was, for
/// every selection inside the list: also from the first item, where the move
/// up wraps to the last and the move down wraps back.
pub proof fn retreat_then_advance(len: nat, current: usize)
    requires
        current < len <= usize::MAX,
    ensures
        advance(len, Some(retreat(len, Some(current)))) == current,
{
}

} // verus!
