use vstd::prelude::*;

verus! {

/// Errors of the non-resident value reader.
#[derive(Clone, Copy, Debug, PartialEq, Eq, Structural)]
pub enum NtfsError {
    /// A Data Run header announces a variable-length field of `expected` bytes,
    /// which is wider than the `actual` width of the integer it is read into.
    InvalidByteCountInDataRunHeader { position: u64, expected: u8, actual: u8 },
    /// The size of a Data Run (its cluster count times the cluster size) does not
    /// fit in 64 bits.
    InvalidClusterCount { cluster_count: u64 },
    /// Adding the VCN delta of a Data Run to the previous LCN over- or underflows.
    InvalidVcnInDataRunHeader { position: u64, vcn: i64, previous_lcn: u64 },
    /// The byte position of an LCN does not fit in 64 bits.
    LcnTooBig { lcn: u64 },
    /// The Data Run information ends in the middle of the Data Run at `position`.
    TruncatedDataRun { position: u64 },
    /// A seek to a negative or overflowing position.
    InvalidSeek,
    /// The byte source failed; the source itself keeps what went wrong.
    Io,
}

impl NtfsError {
    /// Returns `true` for the errors that come from decoding the Data Run information.
    pub open spec fn is_decode_error(self) -> bool {
        !(self is InvalidSeek) && !(self is Io)
    }
}

} // verus!
