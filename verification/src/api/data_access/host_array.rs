//! An account of a host that keeps an array in a buffer.
//!
//! The layer never sees the arrays of the host: it hands out calls and reads
//! answers. What a write followed by a read comes to can therefore only be
//! said of a host whose way with the calls is known. This module writes down
//! the plain one, a host that keeps the elements of an array in a buffer,
//! and states the round trip against it.

use vstd::prelude::*;

use super::data_ref::array::element_of;
use super::error::DataAccessError;
use super::DataCall;

verus! {

/// The call writes `count` elements of the caller's buffer into an array,
/// from `offset` on.
pub open spec fn writes(call: DataCall, offset: i32, count: i32) -> bool {
    ||| call matches DataCall::SetDatavi { offset: o, count: c, .. } && o == offset && c == count
    ||| call matches DataCall::SetDatavf { offset: o, count: c, .. } && o == offset && c == count
    ||| call matches DataCall::SetDatab { offset: o, count: c, .. } && o == offset && c == count
}

/// The call reads an array into the caller's buffer, from `offset` on and up
/// to the end index `max`.
pub open spec fn reads(call: DataCall, offset: i32, max: i32) -> bool {
    ||| call matches DataCall::GetDatavi { offset: o, max: m, .. } && o == offset && m == max
    ||| call matches DataCall::GetDatavf { offset: o, max: m, .. } && o == offset && m == max
    ||| call matches DataCall::GetDatab { offset: o, max: m, .. } && o == offset && m == max
}

/// The array after the host has taken `values` from `offset` on: the
/// elements that fall inside the array are replaced, and what falls outside
/// is dropped.
pub open spec fn written<T>(array: Seq<T>, offset: int, values: Seq<T>) -> Seq<T> {
    Seq::new(
        array.len(),
        |j: int|
            if offset <= j < offset + values.len() {
                values[j - offset]
            } else {
                array[j]
            },
    )
}

/// The number of elements that the host copies for a read from `offset` up
/// to the end index `max`, into a buffer with room for `room` elements: as
/// many as lie before the end index, before the end of the array and inside
/// the room.
pub open spec fn copied(len: int, offset: int, max: int, room: int) -> int {
    let end = if max < len {
        max
    } else {
        len
    };
    if offset < 0 || end <= offset || room <= 0 {
        0
    } else if end - offset < room {
        end - offset
    } else {
        room
    }
}

/// The caller's buffer after such a read: the elements that the host copied
/// stand at its start, and the rest is as it was.
pub open spec fn filled<T>(array: Seq<T>, offset: int, max: int, dest: Seq<T>) -> Seq<T> {
    Seq::new(
        dest.len(),
        |j: int|
            if j < copied(array.len() as int, offset, max, dest.len() as int) {
                array[offset + j]
            } else {
                dest[j]
            },
    )
}

/// The array after the host has taken a call, with `values` as the caller's
/// buffer: a write stores the first `count` elements of the buffer from its
/// offset on, and every other call leaves the array as it was.
pub open spec fn after<T>(array: Seq<T>, call: DataCall, values: Seq<T>) -> Seq<T> {
    match call {
        DataCall::SetDatavi { offset, count, .. } => written(
            array,
            offset as int,
            values.take(count as int),
        ),
        DataCall::SetDatavf { offset, count, .. } => written(
            array,
            offset as int,
            values.take(count as int),
        ),
        DataCall::SetDatab { offset, count, .. } => written(
            array,
            offset as int,
            values.take(count as int),
        ),
        _ => array,
    }
}

/// The number of elements with which the host answers a read into a buffer
/// with room for `room` elements.
pub open spec fn answer<T>(array: Seq<T>, call: DataCall, room: int) -> int {
    match call {
        DataCall::GetDatavi { offset, max, .. } => copied(
            array.len() as int,
            offset as int,
            max as int,
            room,
        ),
        DataCall::GetDatavf { offset, max, .. } => copied(
            array.len() as int,
            offset as int,
            max as int,
            room,
        ),
        DataCall::GetDatab { offset, max, .. } => copied(
            array.len() as int,
            offset as int,
            max as int,
            room,
        ),
        _ => 0,
    }
}

/// The caller's buffer after the host has answered a read into it.
pub open spec fn buffer_after<T>(array: Seq<T>, call: DataCall, dest: Seq<T>) -> Seq<T> {
    match call {
        DataCall::GetDatavi { offset, max, .. } => filled(array, offset as int, max as int, dest),
        DataCall::GetDatavf { offset, max, .. } => filled(array, offset as int, max as int, dest),
        DataCall::GetDatab { offset, max, .. } => filled(array, offset as int, max as int, dest),
        _ => dest,
    }
}

/// What is written at an offset of a window is what is read at that offset,
/// and the other elements of the window are read as they were. For a host
/// that keeps the array in a buffer of at least the window's size: after the
/// call that `write_at` gives for `offset` and `value`, the call that
/// `read_at` gives for the same window is answered with the whole window,
/// and the reading of that answer at `offset` gives `value`. The window's
/// size has to fit the host's integers.
pub proof fn lemma_write_at_then_read_at<T>(
    array: Seq<T>,
    size: usize,
    offset: usize,
    value: T,
    dest: Seq<T>,
    write: DataCall,
    read: DataCall,
)
    requires
        offset < size <= i32::MAX,
        size <= array.len(),
        dest.len() == size,
        writes(write, offset as i32, 1),
        reads(read, 0, size as i32),
    ensures
        ({
            let stored = after(array, write, seq![value]);
            let n = answer(stored, read, dest.len() as int);
            let window = buffer_after(stored, read, dest);
            &&& n == size
            &&& window[offset as int] == value
            &&& forall|j: int| 0 <= j < size && j != offset ==> window[j] == array[j]
            &&& element_of(window, n, size as int, offset as int) == Ok::<T, DataAccessError>(
                value,
            )
        }),
{
    assert(seq![value].take(1) == seq![value]);
}

} // verus!
