//! Seek requests and where they lead.
use vstd::prelude::*;

use crate::error::NtfsError;

verus! {

/// Where a seek is measured from, with a distance.
#[derive(Clone, Copy, Debug, PartialEq, Eq, Structural)]
pub enum SeekFrom {
    /// The given number of bytes from the start.
    Start(u64),
    /// The given (signed) number of bytes from the end.
    End(i64),
    /// The given (signed) number of bytes from the current position.
    Current(i64),
}

/// The position that `pos` names in a stream of `length` bytes whose current
/// position is `current`; it is a valid target only within `0..=u64::MAX`.
pub open spec fn seek_target(current: u64, length: u64, pos: SeekFrom) -> int {
    match pos {
        SeekFrom::Start(n) => n as int,
        SeekFrom::End(n) => length + n,
        SeekFrom::Current(n) => current + n,
    }
}

pub open spec fn is_valid_target(t: int) -> bool {
    0 <= t <= u64::MAX
}

/// Adds the signed `offset` to `base`, unless the sum is negative or does not fit in 64 bits.
pub fn checked_add_signed(base: u64, offset: i64) -> (r: Option<u64>)
    ensures
        match r {
            Some(v) => v == base + offset,
            None => !is_valid_target(base + offset),
        },
{
    if offset >= 0 {
        base.checked_add(offset as u64)
    } else {
        let magnitude: u64 = (-(offset + 1)) as u64 + 1;
        base.checked_sub(magnitude)
    }
}

/// Seeks within a contiguous range of `length` bytes whose position is
/// `stream_position`. A target before the start, or past `u64::MAX`, is an error and
/// leaves the position as it is; a target past `length` is allowed.
pub fn seek_contiguous(stream_position: &mut u64, length: u64, pos: SeekFrom) -> (r: Result<
    u64,
    NtfsError,
>)
    ensures
        is_valid_target(seek_target(*old(stream_position), length, pos)) ==> {
            &&& r == Ok::<u64, NtfsError>(seek_target(*old(stream_position), length, pos) as u64)
            &&& *final(stream_position) == seek_target(*old(stream_position), length, pos)
        },
        !is_valid_target(seek_target(*old(stream_position), length, pos)) ==> {
            &&& r == Err::<u64, NtfsError>(NtfsError::InvalidSeek)
            &&& *final(stream_position) == *old(stream_position)
        },
{
    let new_position = match pos {
        SeekFrom::Start(n) => Some(n),
        SeekFrom::End(n) => checked_add_signed(length, n),
        SeekFrom::Current(n) => checked_add_signed(*stream_position, n),
    };
    match new_position {
        Some(n) => {
            *stream_position = n;
            Ok(n)
        },
        None => Err(NtfsError::InvalidSeek),
    }
}

} // verus!
