//! Reader for a non-resident attribute value. Such a value is split up into one or
//! more Data Runs spread across the filesystem; the reader provides one contiguous
//! stream over all of them.
use vstd::prelude::*;

use crate::error::NtfsError;
use crate::ntfs::{lcn_position_spec, Ntfs};
use crate::seek::{checked_add_signed, is_valid_target, seek_contiguous, seek_target, SeekFrom};
use crate::source::FilesystemSource;
use crate::varint::{
    le_value, lemma_le_value_bound, lemma_pow256_8, lemma_pow256_mono, lemma_signed_le_value_range,
    pow256, signed_le_value,
};

verus! {

/// The widest variable-length integer of a Data Run header, in bytes.
pub const MAX_BYTE_COUNT: u8 = 8;

/// A single Data Run: a contiguous cluster range of a non-resident value.
///
/// Its size is a multiple of the cluster size. A Data Run does not know the size
/// that is actually used by data: reads and seeks on it may reach allocated but
/// unused bytes.
#[derive(Clone, Copy, Debug, PartialEq, Eq, Structural)]
pub struct NtfsDataRun {
    /// Absolute position of the Data Run within the filesystem, in bytes;
    /// zero for a "sparse" Data Run, which reads as zeros.
    position: u64,
    /// Total allocated size of the Data Run, in bytes.
    allocated_size: u64,
    /// Current position within the Data Run, in bytes.
    stream_position: u64,
}

/// How far the decoding of a Data Run list has come.
#[derive(Clone, Copy, Debug)]
pub struct DataRunsState {
    offset: usize,
    previous_lcn: u64,
}

/// The absolute position of the Data Run that starts at cluster `lcn`: zero for the
/// reserved LCN zero, which marks a sparse Data Run.
pub open spec fn run_position_spec(lcn: u64, cluster_size: u32) -> Option<u64> {
    if lcn == 0 {
        Some(0u64)
    } else {
        lcn_position_spec(lcn, cluster_size)
    }
}

/// What decoding the Data Run header at `offset` of a Data Run list gives.
pub enum DecodeStep {
    /// The list ends here: its bytes are used up, or the header byte is zero.
    End,
    /// The Data Run here is malformed.
    Failed(NtfsError),
    /// A Data Run at the absolute `position` (zero if sparse) of `allocated_size`
    /// bytes; decoding goes on at `next_offset` with `lcn` as the previous LCN.
    Run { position: u64, allocated_size: u64, next_offset: usize, lcn: u64 },
}

/// Decodes the Data Run header at `offset` of the Data Run list `data`, which lies
/// at the absolute position `base`, after a Data Run at `previous_lcn`.
pub open spec fn decode_step(
    data: Seq<u8>,
    base: u64,
    cluster_size: u32,
    offset: int,
    previous_lcn: u64,
) -> DecodeStep {
    if offset >= data.len() || data[offset] == 0 {
        DecodeStep::End
    } else {
        let header = data[offset];
        let position = (base + offset) as u64;
        let cc_bytes = header & 0x0f;
        let vcn_bytes = (header & 0xf0) >> 4;
        let vcn_start = offset + 1 + cc_bytes;
        let end = vcn_start + vcn_bytes;
        if cc_bytes > MAX_BYTE_COUNT {
            DecodeStep::Failed(
                NtfsError::InvalidByteCountInDataRunHeader {
                    position,
                    expected: cc_bytes,
                    actual: MAX_BYTE_COUNT,
                },
            )
        } else if vcn_start > data.len() {
            DecodeStep::Failed(NtfsError::TruncatedDataRun { position })
        } else if vcn_bytes > MAX_BYTE_COUNT {
            DecodeStep::Failed(
                NtfsError::InvalidByteCountInDataRunHeader {
                    position,
                    expected: vcn_bytes,
                    actual: MAX_BYTE_COUNT,
                },
            )
        } else if end > data.len() {
            DecodeStep::Failed(NtfsError::TruncatedDataRun { position })
        } else {
            let cluster_count = le_value(data.subrange(offset + 1, vcn_start));
            let vcn = signed_le_value(data.subrange(vcn_start, end));
            let lcn = previous_lcn + vcn;
            if lcn < 0 || lcn > u64::MAX {
                DecodeStep::Failed(
                    NtfsError::InvalidVcnInDataRunHeader {
                        position,
                        vcn: vcn as i64,
                        previous_lcn,
                    },
                )
            } else {
                match run_position_spec(lcn as u64, cluster_size) {
                    None => DecodeStep::Failed(NtfsError::LcnTooBig { lcn: lcn as u64 }),
                    Some(p) => if cluster_count * cluster_size > u64::MAX {
                        DecodeStep::Failed(
                            NtfsError::InvalidClusterCount { cluster_count: cluster_count as u64 },
                        )
                    } else {
                        DecodeStep::Run {
                            position: p,
                            allocated_size: (cluster_count * cluster_size) as u64,
                            next_offset: end as usize,
                            lcn: lcn as u64,
                        }
                    },
                }
            }
        }
    }
}

/// Whether every Data Run of `data` from `offset` on, after a Data Run at
/// `previous_lcn`, decodes without error.
pub open spec fn runs_decode_ok(
    data: Seq<u8>,
    base: u64,
    cluster_size: u32,
    offset: int,
    previous_lcn: u64,
) -> bool
    decreases data.len() - offset,
{
    match decode_step(data, base, cluster_size, offset, previous_lcn) {
        DecodeStep::End => true,
        DecodeStep::Failed(_) => false,
        DecodeStep::Run { next_offset, lcn, .. } => if offset < next_offset <= data.len() {
            runs_decode_ok(data, base, cluster_size, next_offset as int, lcn)
        } else {
            false
        },
    }
}

impl NtfsDataRun {
    /// Absolute position of the Data Run within the filesystem (zero if sparse).
    pub closed spec fn spec_position(&self) -> u64 {
        self.position
    }

    /// Total allocated size of the Data Run.
    pub closed spec fn spec_allocated_size(&self) -> u64 {
        self.allocated_size
    }

    /// Current position within the Data Run.
    pub closed spec fn spec_stream_position(&self) -> u64 {
        self.stream_position
    }

    /// The absolute position within the filesystem of the current position, if the
    /// Data Run is not sparse and the current position lies within it.
    pub open spec fn spec_data_position(&self) -> Option<u64> {
        if self.spec_position() > 0 && self.spec_stream_position() <= self.spec_allocated_size()
            && self.spec_position() + self.spec_stream_position() <= u64::MAX {
            Some((self.spec_position() + self.spec_stream_position()) as u64)
        } else {
            None
        }
    }

    /// The number of bytes between the current position and the end of the Data Run.
    pub open spec fn spec_remaining_len(&self) -> nat {
        if self.spec_stream_position() <= self.spec_allocated_size() {
            (self.spec_allocated_size() - self.spec_stream_position()) as nat
        } else {
            0
        }
    }

    /// Creates the Data Run of `cluster_count` clusters that starts at cluster `lcn`.
    pub fn new(ntfs: &Ntfs, lcn: u64, cluster_count: u64) -> (r: Result<Self, NtfsError>)
        ensures
            match run_position_spec(lcn, ntfs.spec_cluster_size()) {
                None => r == Err::<Self, NtfsError>(NtfsError::LcnTooBig { lcn }),
                Some(p) => if cluster_count * ntfs.spec_cluster_size() > u64::MAX {
                    r == Err::<Self, NtfsError>(NtfsError::InvalidClusterCount { cluster_count })
                } else {
                    &&& r is Ok
                    &&& r->Ok_0.spec_position() == p
                    &&& r->Ok_0.spec_allocated_size() == cluster_count * ntfs.spec_cluster_size()
                    &&& r->Ok_0.spec_stream_position() == 0
                },
            },
    {
        let position = if lcn == 0 {
            0
        } else {
            match ntfs.lcn_position(lcn) {
                Ok(p) => p,
                Err(e) => return Err(e),
            }
        };
        let allocated_size = match cluster_count.checked_mul(ntfs.cluster_size() as u64) {
            Some(a) => a,
            None => return Err(NtfsError::InvalidClusterCount { cluster_count }),
        };
        Ok(NtfsDataRun { position, allocated_size, stream_position: 0 })
    }

    /// Returns the allocated size of the Data Run, in bytes.
    pub fn allocated_size(&self) -> (r: u64)
        ensures
            r == self.spec_allocated_size(),
    {
        self.allocated_size
    }

    /// Returns the absolute current data position within the filesystem, in bytes,
    /// or `None` if the Data Run is sparse, the current position lies past its end,
    /// or the sum does not fit in 64 bits.
    pub fn data_position(&self) -> (r: Option<u64>)
        ensures
            r == self.spec_data_position(),
    {
        if self.position > 0 && self.stream_position <= self.allocated_size {
            self.position.checked_add(self.stream_position)
        } else {
            None
        }
    }

    /// Returns the number of bytes between the current position and the end of the Data Run.
    pub fn remaining_len(&self) -> (r: u64)
        ensures
            r == self.spec_remaining_len(),
    {
        self.allocated_size.saturating_sub(self.stream_position)
    }

    /// Returns the current position within the Data Run, in bytes.
    pub fn stream_position(&self) -> (r: u64)
        ensures
            r == self.spec_stream_position(),
    {
        self.stream_position
    }
}

impl NtfsDataRun {
    /// Reads from the current position of the Data Run into `buf[start..start + len]`,
    /// at most up to the end of the Data Run, and returns the number of bytes read.
    /// A sparse Data Run fills zeros and leaves `fs` alone; otherwise the bytes come
    /// from `fs` at the Data Run's position plus its current position, and a short
    /// read of `fs` is accepted as it is. No byte of `buf` past those read changes.
    pub fn read_into<T: FilesystemSource>(
        &mut self,
        fs: &mut T,
        buf: &mut [u8],
        start: usize,
        len: usize,
    ) -> (r: Result<usize, NtfsError>)
        requires
            start + len <= old(buf)@.len(),
        ensures
            final(buf)@.len() == old(buf)@.len(),
            final(fs).spec_content() == old(fs).spec_content(),
            old(self).spec_remaining_len() == 0 ==> r == Ok::<usize, NtfsError>(0) && *final(fs)
                == *old(fs) && *final(self) == *old(self),
            final(self).spec_position() == old(self).spec_position(),
            final(self).spec_allocated_size() == old(self).spec_allocated_size(),
            old(self).spec_position() == 0 ==> r is Ok,
            match r {
                Ok(n) => {
                    &&& n <= len
                    &&& n <= old(self).spec_remaining_len()
                    &&& final(self).spec_stream_position() == old(self).spec_stream_position() + n
                    &&& forall|i: int|
                        0 <= i < old(buf)@.len() && !(start <= i < start + n) ==> final(buf)@[i]
                            == old(buf)@[i]
                    &&& old(self).spec_position() == 0 ==> {
                        &&& n == vstd::math::min(len as int, old(self).spec_remaining_len() as int)
                        &&& forall|i: int| start <= i < start + n ==> final(buf)@[i] == 0
                        &&& *final(fs) == *old(fs)
                    }
                    &&& old(self).spec_position() != 0 ==> {
                        let p = old(self).spec_position() + old(self).spec_stream_position();
                        &&& forall|i: int|
                            start <= i < start + n ==> #[trigger] final(buf)@[i] == old(
                                fs,
                            ).spec_content()[p + (i - start)]
                        &&& len > 0 && old(self).spec_remaining_len() > 0 && p < old(
                            fs,
                        ).spec_content().len() && p <= u64::MAX ==> n > 0
                    }
                },
                Err(e) => {
                    &&& e == NtfsError::Io
                    &&& old(self).spec_position() != 0
                    &&& old(self).spec_remaining_len() > 0
                    &&& *final(self) == *old(self)
                    &&& forall|i: int|
                        0 <= i < old(buf)@.len() && !(start <= i < start + len) ==> final(buf)@[i]
                            == old(buf)@[i]
                },
            },
    {
        let remaining = self.remaining_len();
        if remaining == 0 {
            return Ok(0);
        }
        let bytes_to_read: usize = if (len as u64) < remaining {
            len
        } else {
            remaining as usize
        };
        let bytes_read = if self.position == 0 {
            // A sparse Data Run.
            let buf_len = buf.len();
            let mut i: usize = 0;
            while i < bytes_to_read
                invariant
                    i <= bytes_to_read <= len,
                    start + len <= buf_len,
                    buf_len == old(buf)@.len(),
                    buf@.len() == old(buf)@.len(),
                    forall|j: int| start <= j < start + i ==> buf@[j] == 0,
                    forall|j: int|
                        0 <= j < old(buf)@.len() && !(start <= j < start + i) ==> buf@[j]
                            == old(buf)@[j],
                decreases bytes_to_read - i,
            {
                buf[start + i] = 0;
                i += 1;
            }
            bytes_to_read
        } else {
            // A Data Run with real data, unless its position lies past the 64-bit range.
            match self.position.checked_add(self.stream_position) {
                Some(data_position) => match fs.read_at(data_position, buf, start, bytes_to_read) {
                    Ok(n) => n,
                    Err(e) => return Err(e),
                },
                None => 0,
            }
        };
        self.stream_position = self.stream_position + bytes_read as u64;
        Ok(bytes_read)
    }

    /// Reads from the current position of the Data Run into `buf`; see `read_into`.
    pub fn read<T: FilesystemSource>(&mut self, fs: &mut T, buf: &mut [u8]) -> (r: Result<
        usize,
        NtfsError,
    >)
        ensures
            final(buf)@.len() == old(buf)@.len(),
            final(fs).spec_content() == old(fs).spec_content(),
            old(self).spec_remaining_len() == 0 ==> r == Ok::<usize, NtfsError>(0) && *final(fs)
                == *old(fs) && *final(self) == *old(self),
            final(self).spec_position() == old(self).spec_position(),
            final(self).spec_allocated_size() == old(self).spec_allocated_size(),
            old(self).spec_position() == 0 ==> r is Ok,
            match r {
                Ok(n) => {
                    &&& n <= old(buf)@.len()
                    &&& n <= old(self).spec_remaining_len()
                    &&& final(self).spec_stream_position() == old(self).spec_stream_position() + n
                    &&& forall|i: int| n <= i < old(buf)@.len() ==> final(buf)@[i] == old(buf)@[i]
                    &&& old(self).spec_position() == 0 ==> {
                        &&& n == vstd::math::min(
                            old(buf)@.len() as int,
                            old(self).spec_remaining_len() as int,
                        )
                        &&& forall|i: int| 0 <= i < n ==> final(buf)@[i] == 0
                        &&& *final(fs) == *old(fs)
                    }
                    &&& old(self).spec_position() != 0 ==> {
                        let p = old(self).spec_position() + old(self).spec_stream_position();
                        &&& forall|i: int|
                            0 <= i < n ==> #[trigger] final(buf)@[i] == old(fs).spec_content()[p
                                + i]
                        &&& old(buf)@.len() > 0 && old(self).spec_remaining_len() > 0 && p < old(
                            fs,
                        ).spec_content().len() && p <= u64::MAX ==> n > 0
                    }
                },
                Err(e) => {
                    &&& e == NtfsError::Io
                    &&& old(self).spec_position() != 0
                    &&& old(self).spec_remaining_len() > 0
                    &&& *final(self) == *old(self)
                },
            },
    {
        let len = buf.len();
        self.read_into(fs, buf, 0, len)
    }

    /// Moves the position within the Data Run; no I/O happens. A target before the
    /// start, or past `u64::MAX`, is an error and keeps the position.
    pub fn seek<T: FilesystemSource>(&mut self, fs: &mut T, pos: SeekFrom) -> (r: Result<
        u64,
        NtfsError,
    >)
        ensures
            *final(fs) == *old(fs),
            final(self).spec_position() == old(self).spec_position(),
            final(self).spec_allocated_size() == old(self).spec_allocated_size(),
            ({
                let t = seek_target(old(self).spec_stream_position(), old(self).spec_allocated_size(), pos);
                if is_valid_target(t) {
                    r == Ok::<u64, NtfsError>(t as u64) && final(self).spec_stream_position() == t
                } else {
                    r == Err::<u64, NtfsError>(NtfsError::InvalidSeek) && *final(self) == *old(self)
                }
            }),
    {
        self.seek_within(pos)
    }

    /// Moves the position within the Data Run, as `seek` does.
    fn seek_within(&mut self, pos: SeekFrom) -> (r: Result<
        u64,
        NtfsError,
    >)
        ensures
            final(self).spec_position() == old(self).spec_position(),
            final(self).spec_allocated_size() == old(self).spec_allocated_size(),
            ({
                let t = seek_target(old(self).spec_stream_position(), old(self).spec_allocated_size(), pos);
                if is_valid_target(t) {
                    r == Ok::<u64, NtfsError>(t as u64) && final(self).spec_stream_position() == t
                } else {
                    r == Err::<u64, NtfsError>(NtfsError::InvalidSeek) && *final(self) == *old(self)
                }
            }),
    {
        let length = self.allocated_size();
        seek_contiguous(&mut self.stream_position, length, pos)
    }
}

/// Iterator over all Data Runs of a non-resident attribute, decoding one Data Run
/// at a time from the raw Data Run list.
#[derive(Clone, Copy, Debug)]
pub struct NtfsDataRuns<'n, 'f> {
    ntfs: &'n Ntfs,
    data: &'f [u8],
    position: u64,
    state: DataRunsState,
}

impl<'n, 'f> NtfsDataRuns<'n, 'f> {
    /// The raw Data Run list.
    pub closed spec fn spec_data(&self) -> Seq<u8> {
        self.data@
    }

    /// Absolute position of the Data Run list within the filesystem.
    pub closed spec fn spec_base(&self) -> u64 {
        self.position
    }

    /// The filesystem that the Data Runs belong to.
    pub closed spec fn spec_ntfs(&self) -> &'n Ntfs {
        self.ntfs
    }

    /// The iteration state.
    pub closed spec fn spec_state(&self) -> DataRunsState {
        self.state
    }

    /// Offset of the next Data Run header within the list.
    pub closed spec fn spec_offset(&self) -> nat {
        self.state.offset as nat
    }

    /// LCN of the Data Run decoded last (zero before the first one).
    pub closed spec fn spec_previous_lcn(&self) -> u64 {
        self.state.previous_lcn
    }

    /// What decoding the next Data Run header gives.
    pub open spec fn spec_step(&self) -> DecodeStep {
        decode_step(
            self.spec_data(),
            self.spec_base(),
            self.spec_ntfs().spec_cluster_size(),
            self.spec_offset() as int,
            self.spec_previous_lcn(),
        )
    }

    /// The decoding offset lies within the list, and the list within the 64-bit address space.
    pub closed spec fn wf(&self) -> bool {
        &&& self.state.offset <= self.data@.len() <= usize::MAX
        &&& self.position + self.data@.len() <= u64::MAX
    }

    /// Creates an iterator over the Data Run list `data`, found at the absolute position `position`.
    pub fn new(ntfs: &'n Ntfs, data: &'f [u8], position: u64) -> (r: Self)
        requires
            position + data@.len() <= u64::MAX,
        ensures
            r.wf(),
            r.spec_data() == data@,
            r.spec_base() == position,
            r.spec_ntfs() == ntfs,
            r.spec_offset() == 0,
            r.spec_previous_lcn() == 0,
    {
        proof {
            lemma_slice_len_bound(data);
        }
        let state = DataRunsState::initial_state();
        NtfsDataRuns { ntfs, data, position, state }
    }

    /// Rebuilds an iterator over `data` that continues from `state`.
    pub fn from_state(ntfs: &'n Ntfs, data: &'f [u8], position: u64, state: DataRunsState) -> (r: Self)
        requires
            position + data@.len() <= u64::MAX,
            state.spec_offset() <= data@.len(),
        ensures
            r.wf(),
            r.spec_data() == data@,
            r.spec_base() == position,
            r.spec_ntfs() == ntfs,
            r.spec_state() == state,
            r.spec_offset() == state.spec_offset(),
            r.spec_previous_lcn() == state.spec_previous_lcn(),
    {
        proof {
            lemma_slice_len_bound(data);
        }
        NtfsDataRuns { ntfs, data, position, state }
    }

    /// Returns the iteration state, from which `from_state` continues.
    pub fn into_state(self) -> (r: DataRunsState)
        ensures
            r == self.spec_state(),
            r.spec_offset() == self.spec_offset(),
            r.spec_previous_lcn() == self.spec_previous_lcn(),
            self.wf() ==> r.spec_offset() <= self.spec_data().len() && self.spec_base()
                + self.spec_data().len() <= u64::MAX,
    {
        self.state
    }

    /// Returns the absolute position of the current Data Run header within the filesystem, in bytes.
    pub fn position(&self) -> (r: u64)
        requires
            self.wf(),
        ensures
            r == self.spec_base() + self.spec_offset(),
    {
        self.position + self.state.offset as u64
    }

    /// Decodes the next Data Run, or returns `None` at the end of the list: at its
    /// last byte or at a header byte of zero. After an error the state is kept, so
    /// that a further call reports the same error again.
    pub fn next(&mut self) -> (r: Option<Result<NtfsDataRun, NtfsError>>)
        requires
            old(self).wf(),
        ensures
            final(self).wf(),
            final(self).spec_data() == old(self).spec_data(),
            final(self).spec_base() == old(self).spec_base(),
            final(self).spec_ntfs() == old(self).spec_ntfs(),
            match old(self).spec_step() {
                DecodeStep::End => {
                    &&& r is None
                    &&& final(self).spec_offset() == old(self).spec_data().len()
                    &&& final(self).spec_previous_lcn() == old(self).spec_previous_lcn()
                },
                DecodeStep::Failed(e) => {
                    &&& r == Some(Err::<NtfsDataRun, NtfsError>(e))
                    &&& final(self).spec_offset() == old(self).spec_offset()
                    &&& final(self).spec_previous_lcn() == old(self).spec_previous_lcn()
                },
                DecodeStep::Run { position, allocated_size, next_offset, lcn } => {
                    &&& r is Some && r->Some_0 is Ok
                    &&& r->Some_0->Ok_0.spec_position() == position
                    &&& r->Some_0->Ok_0.spec_allocated_size() == allocated_size
                    &&& r->Some_0->Ok_0.spec_stream_position() == 0
                    &&& final(self).spec_offset() == next_offset
                    &&& final(self).spec_previous_lcn() == lcn
                },
            },
    {
        let offset = self.state.offset;
        if offset >= self.data.len() {
            return None;
        }
        // Read the single header byte. A zero byte marks the end of the Data Runs.
        let header = self.data[offset];
        if header == 0 {
            self.state.offset = self.data.len();
            return None;
        }
        // The lower nibble is the length of the following cluster count.
        let cluster_count_byte_count = header & 0x0f;
        let cluster_count = match self.read_variable_length_unsigned_integer(
            offset + 1,
            cluster_count_byte_count,
        ) {
            Ok(c) => c,
            Err(e) => return Some(Err(e)),
        };
        proof {
            let cc_bytes = self.data@.subrange(offset + 1, offset + 1 + cluster_count_byte_count);
            lemma_le_value_bound(cc_bytes);
            lemma_pow256_8();
            lemma_pow256_mono(cc_bytes.len(), 8);
        }
        // The upper nibble is the length of the following VCN delta.
        let vcn_byte_count = (header & 0xf0) >> 4;
        let vcn_cursor = offset + 1 + cluster_count_byte_count as usize;
        let vcn = match self.read_variable_length_signed_integer(vcn_cursor, vcn_byte_count) {
            Ok(v) => v,
            Err(e) => return Some(Err(e)),
        };
        proof {
            lemma_signed_le_value_range(
                self.data@.subrange(vcn_cursor as int, vcn_cursor + vcn_byte_count),
            );
        }
        // Turn the VCN delta into an absolute LCN.
        let lcn = match checked_add_signed(self.state.previous_lcn, vcn) {
            Some(l) => l,
            None => {
                return Some(
                    Err(
                        NtfsError::InvalidVcnInDataRunHeader {
                            position: self.position(),
                            vcn,
                            previous_lcn: self.state.previous_lcn,
                        },
                    ),
                );
            },
        };
        let data_run = match NtfsDataRun::new(self.ntfs, lcn, cluster_count) {
            Ok(d) => d,
            Err(e) => return Some(Err(e)),
        };
        // Only advance after success: a later call after an error reports it again.
        self.state.previous_lcn = lcn;
        self.state.offset = vcn_cursor + vcn_byte_count as usize;
        Some(Ok(data_run))
    }

    /// Reads the `byte_count` bytes at `cursor` as a little-endian unsigned integer.
    fn read_variable_length_bytes(&self, cursor: usize, byte_count: u8) -> (r: Result<u64, NtfsError>)
        requires
            self.wf(),
            cursor <= self.data@.len(),
        ensures
            byte_count > MAX_BYTE_COUNT ==> r == Err::<u64, NtfsError>(
                NtfsError::InvalidByteCountInDataRunHeader {
                    position: (self.spec_base() + self.spec_offset()) as u64,
                    expected: byte_count,
                    actual: MAX_BYTE_COUNT,
                },
            ),
            byte_count <= MAX_BYTE_COUNT && cursor + byte_count > self.data@.len() ==> r == Err::<
                u64,
                NtfsError,
            >(NtfsError::TruncatedDataRun { position: (self.spec_base() + self.spec_offset()) as u64 }),
            byte_count <= MAX_BYTE_COUNT && cursor + byte_count <= self.data@.len() ==> r == Ok::<
                u64,
                NtfsError,
            >(le_value(self.data@.subrange(cursor as int, cursor + byte_count)) as u64),
    {
        if byte_count > MAX_BYTE_COUNT {
            return Err(
                NtfsError::InvalidByteCountInDataRunHeader {
                    position: self.position(),
                    expected: byte_count,
                    actual: MAX_BYTE_COUNT,
                },
            );
        }
        let n = byte_count as usize;
        if n > self.data.len() - cursor {
            return Err(NtfsError::TruncatedDataRun { position: self.position() });
        }
        let len = self.data.len();
        let mut value: u64 = 0;
        let mut i: usize = n;
        proof {
            assert(self.data@.subrange(cursor + n, cursor + n) =~= Seq::<u8>::empty());
            lemma_pow256_8();
            lemma_pow256_mono(n as nat, 8);
        }
        while i > 0
            invariant
                i <= n,
                n <= 8,
                cursor + n <= len,
                len == self.data@.len(),
                pow256(n as nat) <= 0x1_0000_0000_0000_0000,
                value as nat == le_value(self.data@.subrange(cursor + i, cursor + n)),
            decreases i,
        {
            i -= 1;
            let ghost s = self.data@.subrange(cursor + i, cursor + n);
            proof {
                assert(s.drop_first() =~= self.data@.subrange(cursor + i + 1, cursor + n));
                lemma_le_value_bound(s);
                lemma_pow256_mono(s.len(), n as nat);
                assert(le_value(s) == s[0] as nat + 256 * le_value(s.drop_first()));
            }
            value = value * 256 + self.data[cursor + i] as u64;
        }
        Ok(value)
    }

    fn read_variable_length_unsigned_integer(&self, cursor: usize, byte_count: u8) -> (r: Result<
        u64,
        NtfsError,
    >)
        requires
            self.wf(),
            cursor <= self.data@.len(),
        ensures
            match self.read_variable_length_spec(cursor, byte_count) {
                Ok(v) => r == Ok::<u64, NtfsError>(v as u64),
                Err(e) => r == Err::<u64, NtfsError>(e),
            },
    {
        self.read_variable_length_bytes(cursor, byte_count)
    }

    fn read_variable_length_signed_integer(&self, cursor: usize, byte_count: u8) -> (r: Result<
        i64,
        NtfsError,
    >)
        requires
            self.wf(),
            cursor <= self.data@.len(),
        ensures
            match self.read_variable_length_spec(cursor, byte_count) {
                Ok(v) => r == Ok::<i64, NtfsError>(
                    signed_le_value(self.data@.subrange(cursor as int, cursor + byte_count)) as i64,
                ),
                Err(e) => r == Err::<i64, NtfsError>(e),
            },
    {
        let pattern = match self.read_variable_length_bytes(cursor, byte_count) {
            Ok(v) => v,
            Err(e) => return Err(e),
        };
        proof {
            lemma_le_value_bound(self.data@.subrange(cursor as int, cursor + byte_count));
            lemma_pow256_8();
            lemma_pow256_mono(byte_count as nat, 8);
        }
        Ok(sign_extend(pattern, byte_count))
    }

    /// What reading `byte_count` bytes at `cursor` gives: their unsigned value, or an error.
    pub closed spec fn read_variable_length_spec(&self, cursor: usize, byte_count: u8) -> Result<
        nat,
        NtfsError,
    > {
        let position = (self.spec_base() + self.spec_offset()) as u64;
        if byte_count > MAX_BYTE_COUNT {
            Err(
                NtfsError::InvalidByteCountInDataRunHeader {
                    position,
                    expected: byte_count,
                    actual: MAX_BYTE_COUNT,
                },
            )
        } else if cursor + byte_count > self.data@.len() {
            Err(NtfsError::TruncatedDataRun { position })
        } else {
            Ok(le_value(self.data@.subrange(cursor as int, cursor + byte_count)))
        }
    }
}

impl DataRunsState {
    /// Offset of the next Data Run header within the list.
    pub closed spec fn spec_offset(&self) -> nat {
        self.offset as nat
    }

    /// LCN of the Data Run decoded last.
    pub closed spec fn spec_previous_lcn(&self) -> u64 {
        self.previous_lcn
    }

    fn initial_state() -> (r: DataRunsState)
        ensures
            r.spec_offset() == 0,
            r.spec_previous_lcn() == 0,
    {
        DataRunsState { offset: 0, previous_lcn: 0 }
    }
}

proof fn lemma_slice_len_bound(data: &[u8])
    ensures
        data@.len() <= usize::MAX,
{
    broadcast use vstd::slice::axiom_spec_len;

    assert(data.len() == data@.len());
}

/// Sign-extends the `byte_count` low bytes of `value`: the highest of their bits is the sign.
fn sign_extend(value: u64, byte_count: u8) -> (r: i64)
    requires
        byte_count <= MAX_BYTE_COUNT,
        value < pow256(byte_count as nat),
    ensures
        r == (if byte_count > 0 && value >= pow256(byte_count as nat) / 2 {
            value - pow256(byte_count as nat)
        } else {
            value as int
        }),
{
    if byte_count == 0 {
        return 0;
    }
    // `mask` is 256^k - 1 and `half_mask` is 256^k / 2 - 1.
    let mut mask: u64 = 255;
    let mut half_mask: u64 = 127;
    let mut k: u8 = 1;
    proof {
        lemma_pow256_8();
        lemma_pow256_mono(byte_count as nat, 8);
        reveal_with_fuel(pow256, 2);
    }
    while k < byte_count
        invariant
            1 <= k <= byte_count <= 8,
            mask + 1 == pow256(k as nat),
            mask == 2 * half_mask + 1,
        decreases byte_count - k,
    {
        proof {
            lemma_pow256_8();
            lemma_pow256_mono((k + 1) as nat, 8);
            assert(pow256((k + 1) as nat) == 256 * pow256(k as nat));
            assert(mask * 256 + 255 < 0x1_0000_0000_0000_0000);
        }
        mask = mask * 256 + 255;
        half_mask = half_mask * 256 + 255;
        k += 1;
    }
    if value > half_mask {
        -((mask - value) as i64) - 1
    } else {
        value as i64
    }
}

/// The form to which every seek is reduced: `Start(n)` for any `n`, or `Current(n)`
/// with `n >= 0`; the result of `simplify_seek` on the position `current` of a
/// value of `data_size` bytes.
pub open spec fn simplify_seek_spec(current: u64, pos: SeekFrom, data_size: u64) -> Result<
    SeekFrom,
    NtfsError,
> {
    match pos {
        SeekFrom::Start(n) => Ok(SeekFrom::Start(n)),
        SeekFrom::End(n) => if is_valid_target(data_size + n) {
            Ok(SeekFrom::Start((data_size + n) as u64))
        } else {
            Err(NtfsError::InvalidSeek)
        },
        SeekFrom::Current(n) => if n >= 0 {
            if is_valid_target(current + n) {
                Ok(SeekFrom::Current(n))
            } else {
                Err(NtfsError::InvalidSeek)
            }
        } else if is_valid_target(current + n) {
            Ok(SeekFrom::Start((current + n) as u64))
        } else {
            Err(NtfsError::InvalidSeek)
        },
    }
}

/// `simplify_seek_spec`, where a target at or after `current` becomes a seek
/// forward from `current`.
pub open spec fn optimize_seek_spec(current: u64, pos: SeekFrom, data_size: u64) -> Result<
    SeekFrom,
    NtfsError,
> {
    match simplify_seek_spec(current, pos, data_size) {
        Ok(SeekFrom::Start(n)) => if n >= current && n - current <= i64::MAX {
            Ok(SeekFrom::Current((n - current) as i64))
        } else {
            Ok(SeekFrom::Start(n))
        },
        other => other,
    }
}

/// The reading state of a non-resident value: the current Data Run, the position
/// within the whole value, and the size used by data.
#[derive(Clone, Copy, Debug)]
pub struct StreamState {
    /// Current Data Run we are reading from.
    stream_data_run: Option<NtfsDataRun>,
    /// Current position within the entire value, in bytes.
    stream_position: u64,
    /// Total (used) data size, in bytes.
    data_size: u64,
}

impl StreamState {
    /// The current Data Run, if any.
    pub closed spec fn spec_data_run(&self) -> Option<NtfsDataRun> {
        self.stream_data_run
    }

    pub closed spec fn spec_stream_position(&self) -> u64 {
        self.stream_position
    }

    /// Total (used) data size of the value.
    pub closed spec fn spec_data_size(&self) -> u64 {
        self.data_size
    }

    /// Creates the state before the first Data Run of a value of `data_size` used bytes.
    pub fn new(data_size: u64) -> (r: Self)
        ensures
            r.spec_data_run() is None,
            r.spec_stream_position() == 0,
            r.spec_data_size() == data_size,
    {
        StreamState { stream_data_run: None, stream_position: 0, data_size }
    }

    /// Returns the absolute data position within the filesystem of the current
    /// Data Run, or `None` if there is none, it is sparse, or its position lies past its end.
    pub fn data_position(&self) -> (r: Option<u64>)
        ensures
            r == match self.spec_data_run() {
                Some(d) => d.spec_data_position(),
                None => None,
            },
    {
        match &self.stream_data_run {
            Some(d) => d.data_position(),
            None => None,
        }
    }

    /// Returns the total (used) data size of the value, in bytes.
    pub fn data_size(&self) -> (r: u64)
        ensures
            r == self.spec_data_size(),
    {
        self.data_size
    }

    /// Returns the current position within the entire value, in bytes.
    pub fn stream_position(&self) -> (r: u64)
        ensures
            r == self.spec_stream_position(),
    {
        self.stream_position
    }

    /// Makes `stream_data_run` the current Data Run.
    pub fn set_stream_data_run(&mut self, stream_data_run: NtfsDataRun)
        ensures
            final(self).spec_data_run() == Some(stream_data_run),
            final(self).spec_stream_position() == old(self).spec_stream_position(),
            final(self).spec_data_size() == old(self).spec_data_size(),
    {
        self.stream_data_run = Some(stream_data_run);
    }

    /// Sets the position within the entire value.
    pub fn set_stream_position(&mut self, stream_position: u64)
        ensures
            final(self).spec_data_run() == old(self).spec_data_run(),
            final(self).spec_stream_position() == stream_position,
            final(self).spec_data_size() == old(self).spec_data_size(),
    {
        self.stream_position = stream_position;
    }

    /// Reduces any seek to `Start(n)` or to `Current(n)` with `n >= 0`: a Data Run
    /// knows where the next one starts, but not where the previous one did, so
    /// moving backwards means starting over from the first Data Run.
    fn simplify_seek(&self, pos: SeekFrom, data_size: u64) -> (r: Result<SeekFrom, NtfsError>)
        ensures
            r == simplify_seek_spec(self.spec_stream_position(), pos, data_size),
    {
        match pos {
            SeekFrom::Start(n) => Ok(SeekFrom::Start(n)),
            SeekFrom::End(n) => match checked_add_signed(data_size, n) {
                Some(t) => Ok(SeekFrom::Start(t)),
                None => Err(NtfsError::InvalidSeek),
            },
            SeekFrom::Current(n) => match checked_add_signed(self.stream_position, n) {
                Some(t) => if n >= 0 {
                    Ok(SeekFrom::Current(n))
                } else {
                    Ok(SeekFrom::Start(t))
                },
                None => Err(NtfsError::InvalidSeek),
            },
        }
    }

    /// Reduces a seek as `simplify_seek` does, and turns a target at or after the
    /// current position into a seek forward from it, which needs no start over.
    pub fn optimize_seek(&self, pos: SeekFrom, data_size: u64) -> (r: Result<SeekFrom, NtfsError>)
        ensures
            r == optimize_seek_spec(self.spec_stream_position(), pos, data_size),
            r matches Ok(SeekFrom::Start(n)) ==> n == seek_target(
                self.spec_stream_position(),
                data_size,
                pos,
            ),
            r matches Ok(SeekFrom::Current(n)) ==> n >= 0 && self.spec_stream_position() + n
                == seek_target(self.spec_stream_position(), data_size, pos),
            r is Ok ==> (r->Ok_0 is Start || (r->Ok_0 is Current && r->Ok_0->Current_0 >= 0)),
            r is Ok <==> is_valid_target(seek_target(self.spec_stream_position(), data_size, pos)),
            ({
                let t = seek_target(self.spec_stream_position(), data_size, pos);
                is_valid_target(t) && self.spec_stream_position() <= t && t
                    - self.spec_stream_position() <= i64::MAX ==> r == Ok::<SeekFrom, NtfsError>(
                    SeekFrom::Current((t - self.spec_stream_position()) as i64),
                )
            }),
            r is Err ==> r->Err_0 == NtfsError::InvalidSeek,
    {
        let pos = match self.simplify_seek(pos, data_size) {
            Ok(p) => p,
            Err(e) => return Err(e),
        };
        if let SeekFrom::Start(n) = pos {
            if let Some(n_from_current) = n.checked_sub(self.stream_position) {
                if n_from_current <= i64::MAX as u64 {
                    return Ok(SeekFrom::Current(n_from_current as i64));
                }
            }
        }
        Ok(pos)
    }

    /// Reads from the current Data Run into `buf[*bytes_read..]`, at most up to the
    /// used data size, and advances `*bytes_read` and the position by the bytes read.
    /// Returns `false` (and changes nothing) if there is no current Data Run, it is
    /// exhausted, or the position is at or past the used data size.
    pub fn read_data_run<T: FilesystemSource>(
        &mut self,
        fs: &mut T,
        buf: &mut [u8],
        bytes_read: &mut usize,
    ) -> (r: Result<bool, NtfsError>)
        requires
            *old(bytes_read) <= old(buf)@.len(),
        ensures
            final(self).spec_data_size() == old(self).spec_data_size(),
            final(self).spec_data_run() is Some <==> old(self).spec_data_run() is Some,
            final(fs).spec_content() == old(fs).spec_content(),
            final(buf)@.len() == old(buf)@.len(),
            *old(bytes_read) <= *final(bytes_read) <= old(buf)@.len(),
            final(self).spec_stream_position() == old(self).spec_stream_position() + (
            *final(bytes_read) - *old(bytes_read)),
            old(self).spec_stream_position() <= old(self).spec_data_size()
                ==> final(self).spec_stream_position() <= old(self).spec_data_size(),
            match r {
                Ok(false) => {
                    &&& *final(self) == *old(self)
                    &&& *final(bytes_read) == *old(bytes_read)
                    &&& final(buf)@ == old(buf)@
                    &&& *final(fs) == *old(fs)
                    &&& (old(self).spec_data_run() is None || old(self).spec_data_run()->Some_0.spec_remaining_len() == 0
                        || old(self).spec_stream_position() >= old(self).spec_data_size())
                },
                Ok(true) => {
                    let d = old(self).spec_data_run()->Some_0;
                    let start = *old(bytes_read) as int;
                    let k = *final(bytes_read) - start;
                    // The slice handed to the Data Run: up to the buffer's end and the used size.
                    let window = vstd::math::min(
                        old(buf)@.len() - start,
                        old(self).spec_data_size() - old(self).spec_stream_position(),
                    );
                    &&& old(self).spec_data_run() is Some
                    &&& d.spec_remaining_len() > 0
                    &&& old(self).spec_stream_position() < old(self).spec_data_size()
                    &&& k <= window
                    &&& k <= d.spec_remaining_len()
                    &&& final(self).spec_data_run()->Some_0.spec_position() == d.spec_position()
                    &&& final(self).spec_data_run()->Some_0.spec_allocated_size() == d.spec_allocated_size()
                    &&& final(self).spec_data_run()->Some_0.spec_stream_position() == d.spec_stream_position() + k
                    &&& forall|i: int|
                        0 <= i < old(buf)@.len() && !(start <= i < start + k) ==> final(buf)@[i]
                            == old(buf)@[i]
                    &&& d.spec_position() == 0 ==> {
                        &&& k == vstd::math::min(window, d.spec_remaining_len() as int)
                        &&& forall|i: int| start <= i < start + k ==> final(buf)@[i] == 0
                        &&& *final(fs) == *old(fs)
                    }
                    &&& d.spec_position() != 0 ==> {
                        let p = d.spec_position() + d.spec_stream_position();
                        &&& forall|i: int|
                            start <= i < start + k ==> #[trigger] final(buf)@[i] == old(
                                fs,
                            ).spec_content()[p + (i - start)]
                        &&& window > 0 && p < old(fs).spec_content().len() && p <= u64::MAX ==> k > 0
                    }
                },
                Err(e) => {
                    &&& e == NtfsError::Io
                    &&& old(self).spec_data_run() is Some
                    &&& old(self).spec_data_run()->Some_0.spec_position() != 0
                    &&& old(self).spec_data_run()->Some_0.spec_remaining_len() > 0
                    &&& old(self).spec_stream_position() < old(self).spec_data_size()
                    &&& *final(self) == *old(self)
                    &&& *final(bytes_read) == *old(bytes_read)
                    &&& forall|i: int| 0 <= i < *old(bytes_read) ==> final(buf)@[i] == old(buf)@[i]
                },
            },
    {
        // Is there a Data Run to read from?
        let mut data_run = match self.stream_data_run {
            Some(d) => d,
            None => return Ok(false),
        };
        // Have we already seeked past the size of the Data Run?
        if data_run.stream_position() >= data_run.allocated_size() {
            return Ok(false);
        }
        // We also must not read past the (used) data size of the entire value:
        // a Data Run only knows its allocated size, not the used size.
        let remaining_data_size = self.data_size.saturating_sub(self.stream_position);
        if remaining_data_size == 0 {
            return Ok(false);
        }
        // Read up to the buffer length or up to the used data size, whichever comes first.
        let start = *bytes_read;
        let remaining_buf_len = buf.len() - start;
        let len: usize = if (remaining_buf_len as u64) < remaining_data_size {
            remaining_buf_len
        } else {
            remaining_data_size as usize
        };
        let bytes_read_in_data_run = match data_run.read_into(fs, buf, start, len) {
            Ok(n) => n,
            Err(e) => return Err(e),
        };
        self.stream_data_run = Some(data_run);
        *bytes_read = start + bytes_read_in_data_run;
        self.stream_position = self.stream_position + bytes_read_in_data_run as u64;
        Ok(true)
    }

    /// Seeks `*bytes_left_to_seek` bytes forward within the current Data Run if the
    /// target lies inside it, and returns `true`. Otherwise subtracts what is left
    /// of the Data Run from `*bytes_left_to_seek` and returns `false`, so that the
    /// caller goes on with the next Data Run. `bytes_to_seek` says whether the
    /// seek counts from the start of the Data Run or from its current position.
    pub fn seek_data_run<T: FilesystemSource>(
        &mut self,
        fs: &mut T,
        bytes_to_seek: SeekFrom,
        bytes_left_to_seek: &mut u64,
    ) -> (r: Result<bool, NtfsError>)
        requires
            !(bytes_to_seek is End),
            bytes_to_seek is Current ==> *old(bytes_left_to_seek) <= i64::MAX,
        ensures
            *final(fs) == *old(fs),
            final(self).spec_stream_position() == old(self).spec_stream_position(),
            final(self).spec_data_size() == old(self).spec_data_size(),
            match old(self).spec_data_run() {
                None => {
                    &&& r == Ok::<bool, NtfsError>(false)
                    &&& *final(self) == *old(self)
                    &&& *final(bytes_left_to_seek) == *old(bytes_left_to_seek)
                },
                Some(d) => if *old(bytes_left_to_seek) < d.spec_remaining_len() {
                    &&& r == Ok::<bool, NtfsError>(true)
                    &&& *final(bytes_left_to_seek) == *old(bytes_left_to_seek)
                    &&& final(self).spec_data_run() is Some
                    &&& final(self).spec_data_run()->Some_0.spec_position() == d.spec_position()
                    &&& final(self).spec_data_run()->Some_0.spec_allocated_size() == d.spec_allocated_size()
                    &&& final(self).spec_data_run()->Some_0.spec_stream_position() == if bytes_to_seek is Start {
                        *old(bytes_left_to_seek) as int
                    } else {
                        d.spec_stream_position() + *old(bytes_left_to_seek)
                    }
                } else {
                    &&& r == Ok::<bool, NtfsError>(false)
                    &&& *final(self) == *old(self)
                    &&& *final(bytes_left_to_seek) == *old(bytes_left_to_seek) - d.spec_remaining_len()
                },
            },
    {
        // Is there a Data Run to seek in?
        let mut data_run = match self.stream_data_run {
            Some(d) => d,
            None => return Ok(false),
        };
        let remaining = data_run.remaining_len();
        if *bytes_left_to_seek < remaining {
            // The target lies in this Data Run. A seek from the very beginning of the
            // value also starts at the beginning of this Data Run; a seek from the
            // current position needs at most the positive half of `i64`.
            let pos = match bytes_to_seek {
                SeekFrom::Start(_) => SeekFrom::Start(*bytes_left_to_seek),
                _ => SeekFrom::Current(*bytes_left_to_seek as i64),
            };
            if let Err(e) = data_run.seek_within(pos) {
                return Err(e);
            }
            self.stream_data_run = Some(data_run);
            Ok(true)
        } else {
            // Skip the entire Data Run.
            *bytes_left_to_seek = *bytes_left_to_seek - remaining;
            Ok(false)
        }
    }
}

/// Whether every Data Run of `data` from `offset` on, after a Data Run at
/// `previous_lcn`, that decodes is sparse (its LCN is zero).
pub open spec fn runs_all_sparse(
    data: Seq<u8>,
    base: u64,
    cluster_size: u32,
    offset: int,
    previous_lcn: u64,
) -> bool
    decreases data.len() - offset,
{
    match decode_step(data, base, cluster_size, offset, previous_lcn) {
        DecodeStep::Run { position, next_offset, lcn, .. } => position == 0 && (offset
            < next_offset <= data.len() ==> runs_all_sparse(
            data,
            base,
            cluster_size,
            next_offset as int,
            lcn,
        )),
        _ => true,
    }
}

/// A header byte of zero ends the Data Run list, whatever bytes follow it: the
/// list decodes to its end there, and replacing the bytes after it changes nothing.
pub proof fn lemma_zero_header_ends_list(
    data: Seq<u8>,
    base: u64,
    cluster_size: u32,
    offset: int,
    previous_lcn: u64,
    rest: Seq<u8>,
)
    requires
        0 <= offset < data.len(),
        data[offset] == 0,
    ensures
        decode_step(data, base, cluster_size, offset, previous_lcn) is End,
        decode_step(data.subrange(0, offset + 1) + rest, base, cluster_size, offset, previous_lcn) is End,
        runs_decode_ok(data, base, cluster_size, offset, previous_lcn),
{
    assert((data.subrange(0, offset + 1) + rest)[offset] == data[offset]);
}

/// A decoding step moves forward on success, produces a Data Run that ends within
/// the 64-bit address space, and tells whether the rest of the list decodes.
proof fn lemma_decode_step(data: Seq<u8>, base: u64, cluster_size: u32, offset: int, previous_lcn: u64)
    requires
        0 <= offset <= data.len() <= usize::MAX,
    ensures
        runs_decode_ok(data, base, cluster_size, data.len() as int, previous_lcn),
        match decode_step(data, base, cluster_size, offset, previous_lcn) {
            DecodeStep::End => true,
            DecodeStep::Failed(e) => {
                &&& e.is_decode_error()
                &&& !runs_decode_ok(data, base, cluster_size, offset, previous_lcn)
            },
            DecodeStep::Run { position, allocated_size, next_offset, lcn } => {
                &&& offset < next_offset <= data.len()
                &&& runs_decode_ok(data, base, cluster_size, offset, previous_lcn) ==> runs_decode_ok(
                    data,
                    base,
                    cluster_size,
                    next_offset as int,
                    lcn,
                )
                &&& runs_all_sparse(data, base, cluster_size, offset, previous_lcn) ==> position == 0
                    && runs_all_sparse(data, base, cluster_size, next_offset as int, lcn)
            },
        },
{
    assert(decode_step(data, base, cluster_size, data.len() as int, previous_lcn) is End);
}

/// The total allocated size of the Data Runs decoded on the way from the state
/// (`offset`, `previous_lcn`) to the state (`to`, `to_lcn`), or `None` if
/// decoding does not lead there.
pub open spec fn allocated_between(
    data: Seq<u8>,
    base: u64,
    cluster_size: u32,
    offset: int,
    previous_lcn: u64,
    to: int,
    to_lcn: u64,
) -> Option<int>
    decreases data.len() - offset,
{
    if offset == to && previous_lcn == to_lcn {
        Some(0)
    } else if offset < 0 || offset >= data.len() {
        None
    } else {
        match decode_step(data, base, cluster_size, offset, previous_lcn) {
            DecodeStep::End => if to == data.len() && to_lcn == previous_lcn {
                Some(0)
            } else {
                None
            },
            DecodeStep::Run { allocated_size, next_offset, lcn, .. } => if offset < next_offset
                <= data.len() {
                match allocated_between(data, base, cluster_size, next_offset as int, lcn, to, to_lcn) {
                    Some(x) => Some(x + allocated_size),
                    None => None,
                }
            } else {
                None
            },
            DecodeStep::Failed(_) => None,
        }
    }
}

/// Decoding one more step from a state reached from (`offset`, `previous_lcn`)
/// adds that Data Run's allocated size, and an end step adds nothing.
proof fn lemma_allocated_between_step(
    data: Seq<u8>,
    base: u64,
    cluster_size: u32,
    offset: int,
    previous_lcn: u64,
    to: int,
    to_lcn: u64,
)
    requires
        allocated_between(data, base, cluster_size, offset, previous_lcn, to, to_lcn) is Some,
        0 <= to <= data.len() <= usize::MAX,
    ensures
        offset <= to,
        ({
            let x = allocated_between(data, base, cluster_size, offset, previous_lcn, to, to_lcn)->Some_0;
            match decode_step(data, base, cluster_size, to, to_lcn) {
                DecodeStep::Run { allocated_size, next_offset, lcn, .. } => to < next_offset
                    <= data.len() ==> allocated_between(
                    data,
                    base,
                    cluster_size,
                    offset,
                    previous_lcn,
                    next_offset as int,
                    lcn,
                ) == Some(x + allocated_size),
                DecodeStep::End => allocated_between(
                    data,
                    base,
                    cluster_size,
                    offset,
                    previous_lcn,
                    data.len() as int,
                    to_lcn,
                ) == Some(x),
                _ => true,
            }
        }),
    decreases data.len() - offset,
{
    if offset == to && previous_lcn == to_lcn {
        match decode_step(data, base, cluster_size, to, to_lcn) {
            DecodeStep::Run { next_offset, lcn, .. } => {
                if to < next_offset <= data.len() {
                    assert(allocated_between(data, base, cluster_size, next_offset as int, lcn, next_offset as int, lcn) == Some(0int));
                }
            },
            _ => {},
        }
    } else {
        match decode_step(data, base, cluster_size, offset, previous_lcn) {
            DecodeStep::Run { next_offset, lcn, .. } => {
                lemma_allocated_between_step(data, base, cluster_size, next_offset as int, lcn, to, to_lcn);
            },
            _ => {},
        }
    }
}

/// How many bytes a read into a buffer of `buf_len` bytes, at the position
/// `position` of a value of `data_size` used bytes, takes from the Data Run `d`
/// before anything else: up to the buffer's end, the run's end and the used size.
pub open spec fn run_chunk_len(d: NtfsDataRun, buf_len: int, position: u64, data_size: u64) -> int {
    vstd::math::min(
        vstd::math::min(buf_len, d.spec_remaining_len() as int),
        data_size - position,
    )
}

/// Byte `i` after the current position of the Data Run `d`, in the filesystem
/// image `image`: zero if the run is sparse.
pub open spec fn run_byte(d: NtfsDataRun, image: Seq<u8>, i: int) -> u8 {
    if d.spec_position() == 0 {
        0
    } else {
        image[d.spec_position() + d.spec_stream_position() + i]
    }
}

/// The image holds the first `m` bytes after the current position of the Data
/// Run `d`, within the 64-bit range (always so for a sparse run).
pub open spec fn run_chunk_in_image(d: NtfsDataRun, image: Seq<u8>, m: int) -> bool {
    d.spec_position() == 0 || (d.spec_position() + d.spec_stream_position() + m <= image.len()
        && d.spec_position() + d.spec_stream_position() + m <= u64::MAX)
}

/// Reader for a non-resident attribute value, whose data lies in cluster ranges
/// (Data Runs) outside the File Record; it reads all of them as one contiguous stream.
#[derive(Clone, Copy, Debug)]
pub struct NtfsNonResidentAttributeValue<'n, 'f> {
    /// The filesystem that the value belongs to.
    ntfs: &'n Ntfs,
    /// The Data Run list of the value.
    data: &'f [u8],
    /// Absolute position of the Data Run list within the filesystem, in bytes.
    position: u64,
    /// Iterator of Data Runs used for reading and seeking.
    stream_data_runs: NtfsDataRuns<'n, 'f>,
    /// Reading state within the current Data Run.
    stream_state: StreamState,
}

impl<'n, 'f> NtfsNonResidentAttributeValue<'n, 'f> {
    /// Total (used) length of the value.
    pub closed spec fn spec_len(&self) -> u64 {
        self.stream_state.data_size
    }

    /// Current position within the value.
    pub closed spec fn spec_stream_position(&self) -> u64 {
        self.stream_state.stream_position
    }

    /// The Data Run list of the value.
    pub closed spec fn spec_data(&self) -> Seq<u8> {
        self.data@
    }

    /// Absolute position of the Data Run list within the filesystem.
    pub closed spec fn spec_position(&self) -> u64 {
        self.position
    }

    /// The reading state within the current Data Run.
    pub closed spec fn spec_stream_state(&self) -> StreamState {
        self.stream_state
    }

    /// The filesystem that the value belongs to.
    pub closed spec fn spec_ntfs(&self) -> &'n Ntfs {
        self.ntfs
    }

    /// Whether every Data Run of the value's Data Run list decodes without error.
    pub open spec fn spec_runs_well_formed(&self) -> bool {
        runs_decode_ok(self.spec_data(), self.spec_position(), self.spec_ntfs().spec_cluster_size(), 0, 0)
    }

    /// No Data Run is left to read from: the list is decoded to its end, and the
    /// current Data Run, if any, is used up.
    pub closed spec fn spec_runs_exhausted(&self) -> bool {
        &&& self.stream_data_runs.state.offset == self.data@.len()
        &&& (self.stream_state.stream_data_run is None
            || self.stream_state.stream_data_run->Some_0.spec_remaining_len() == 0)
    }

    /// The current Data Run is not sparse, and its current absolute position lies
    /// at or past the end of a filesystem image of `image_len` bytes (or past `u64::MAX`).
    pub closed spec fn spec_at_image_end(&self, image_len: nat) -> bool {
        match self.stream_state.stream_data_run {
            Some(d) => d.position != 0 && (d.position + d.stream_position >= image_len
                || d.position + d.stream_position > u64::MAX),
            None => false,
        }
    }

    /// The current Data Run, if any, and every Data Run still to decode are sparse.
    pub closed spec fn spec_rest_sparse(&self) -> bool {
        &&& (self.stream_state.stream_data_run is None
            || self.stream_state.stream_data_run->Some_0.position == 0)
        &&& runs_all_sparse(
            self.data@,
            self.position,
            self.ntfs.spec_cluster_size(),
            self.stream_data_runs.state.offset as int,
            self.stream_data_runs.state.previous_lcn,
        )
    }

    /// Offset of the next Data Run header within the Data Run list.
    pub closed spec fn spec_decoder_offset(&self) -> nat {
        self.stream_data_runs.state.offset as nat
    }

    /// Whether the Data Runs not yet visited decode without error.
    pub closed spec fn spec_rest_well_formed(&self) -> bool {
        runs_decode_ok(
            self.data@,
            self.position,
            self.ntfs.spec_cluster_size(),
            self.stream_data_runs.state.offset as int,
            self.stream_data_runs.state.previous_lcn,
        )
    }

    /// Once the Data Runs are used up, the position within a value with a
    /// well-formed Data Run list is at or past the total allocated size of all its
    /// Data Runs, or at or past the used size.
    pub proof fn lemma_exhausted_at_end(&self)
        requires
            self.wf(),
            self.spec_runs_well_formed(),
            self.spec_runs_exhausted(),
        ensures
            self.spec_total() is Some,
            self.spec_decoder_offset() == self.spec_data().len(),
            self.spec_stream_position() >= self.spec_total()->Some_0 || self.spec_stream_position()
                >= self.spec_len(),
    {
    }

    /// The reader's invariant: its structure, and its position consistent with
    /// the Data Runs decoded so far.
    pub closed spec fn wf(&self) -> bool {
        &&& self.wf_structure()
        &&& self.spec_positions_consistent()
    }

    /// The total allocated size of the Data Runs decoded so far.
    pub closed spec fn spec_total(&self) -> Option<int> {
        allocated_between(
            self.data@,
            self.position,
            self.ntfs.spec_cluster_size(),
            0,
            0,
            self.stream_data_runs.state.offset as int,
            self.stream_data_runs.state.previous_lcn,
        )
    }

    /// Allocated size of the current Data Run (zero if there is none).
    pub closed spec fn spec_current_allocated(&self) -> int {
        match self.stream_state.stream_data_run {
            Some(d) => d.allocated_size as int,
            None => 0,
        }
    }

    /// Position within the current Data Run (zero if there is none).
    pub closed spec fn spec_current_position(&self) -> int {
        match self.stream_state.stream_data_run {
            Some(d) => d.stream_position as int,
            None => 0,
        }
    }

    /// For a well-formed Data Run list, the position within the value is the
    /// allocated size of the Data Runs before the current one plus the position
    /// within the current one, unless it lies at or past the used size, or past
    /// all Data Runs.
    pub closed spec fn spec_positions_consistent(&self) -> bool {
        let total = self.spec_total()->Some_0;
        let pos = self.stream_state.stream_position as int;
        self.spec_runs_well_formed() ==> {
            &&& self.spec_total() is Some
            &&& 0 <= self.spec_current_position() <= self.spec_current_allocated() <= total
            &&& (pos == total - self.spec_current_allocated() + self.spec_current_position() || pos
                >= self.stream_state.data_size || (self.stream_data_runs.state.offset
                == self.data@.len() && pos >= total))
        }
    }

    /// The iterator runs over this value's Data Run list, and if the whole list
    /// decodes without error, so do the Data Runs not yet visited.
    pub closed spec fn wf_structure(&self) -> bool {
        &&& self.stream_data_runs.wf()
        &&& self.stream_data_runs.data@ == self.data@
        &&& self.stream_data_runs.position == self.position
        &&& self.stream_data_runs.ntfs == self.ntfs
        &&& self.position + self.data@.len() <= u64::MAX
        &&& self.spec_runs_well_formed() ==> self.spec_rest_well_formed()
    }

    /// Creates the reader for the value whose Data Run list is `data`, found at the
    /// absolute position `position`, with `data_size` bytes used by data. The first
    /// Data Run is decoded at once, so that `data_position` is meaningful; an error
    /// in it is returned.
    pub fn new(ntfs: &'n Ntfs, data: &'f [u8], position: u64, data_size: u64) -> (r: Result<
        Self,
        NtfsError,
    >)
        requires
            position + data@.len() <= u64::MAX,
        ensures
            r is Ok ==> {
                let v = r->Ok_0;
                &&& v.wf()
                &&& v.spec_data() == data@
                &&& v.spec_position() == position
                &&& v.spec_ntfs() == ntfs
                &&& v.spec_len() == data_size
                &&& v.spec_stream_position() == 0
            },
            match decode_step(data@, position, ntfs.spec_cluster_size(), 0, 0) {
                DecodeStep::End => r is Ok && r->Ok_0.spec_stream_state().spec_data_run() is None,
                DecodeStep::Failed(e) => r == Err::<Self, NtfsError>(e),
                DecodeStep::Run { position: p, allocated_size, .. } => {
                    &&& r is Ok
                    &&& r->Ok_0.spec_stream_state().spec_data_run() is Some
                    &&& r->Ok_0.spec_stream_state().spec_data_run()->Some_0.spec_position() == p
                    &&& r->Ok_0.spec_stream_state().spec_data_run()->Some_0.spec_allocated_size()
                        == allocated_size
                    &&& r->Ok_0.spec_stream_state().spec_data_run()->Some_0.spec_stream_position()
                        == 0
                },
            },
    {
        let mut stream_data_runs = NtfsDataRuns::new(ntfs, data, position);
        let mut stream_state = StreamState::new(data_size);
        proof {
            lemma_slice_len_bound(data);
            lemma_decode_step(data@, position, ntfs.spec_cluster_size(), 0, 0);
            lemma_allocated_between_step(data@, position, ntfs.spec_cluster_size(), 0, 0, 0, 0);
        }
        // Get the first Data Run already here to let `data_position` return something meaningful.
        match stream_data_runs.next() {
            Some(Ok(stream_data_run)) => stream_state.set_stream_data_run(stream_data_run),
            Some(Err(e)) => return Err(e),
            None => {},
        }
        Ok(NtfsNonResidentAttributeValue { ntfs, data, position, stream_data_runs, stream_state })
    }

    /// Returns the absolute current data position within the filesystem, in bytes,
    /// or `None` if there is no current Data Run, it is sparse, or the position lies past its end.
    pub fn data_position(&self) -> (r: Option<u64>)
        ensures
            r == match self.spec_stream_state().spec_data_run() {
                Some(d) => d.spec_data_position(),
                None => None,
            },
    {
        self.stream_state.data_position()
    }

    /// Returns an iterator over all Data Runs of this value, from the first one.
    pub fn data_runs(&self) -> (r: NtfsDataRuns<'n, 'f>)
        requires
            self.wf(),
        ensures
            r.wf(),
            r.spec_data() == self.spec_data(),
            r.spec_base() == self.spec_position(),
            r.spec_ntfs() == self.spec_ntfs(),
            r.spec_offset() == 0,
            r.spec_previous_lcn() == 0,
    {
        NtfsDataRuns::new(self.ntfs, self.data, self.position)
    }

    /// Returns `true` if the value contains no data.
    pub fn is_empty(&self) -> (r: bool)
        ensures
            r == (self.spec_len() == 0),
    {
        self.len() == 0
    }

    /// Returns the total length of the value's data, in bytes.
    pub fn len(&self) -> (r: u64)
        ensures
            r == self.spec_len(),
    {
        self.stream_state.data_size()
    }

    /// Moves on to the next Data Run; returns whether there was one.
    fn next_data_run(&mut self) -> (r: Result<bool, NtfsError>)
        requires
            old(self).wf_structure(),
        ensures
            final(self).wf_structure(),
            old(self).spec_total() is Some ==> match old(self).stream_data_runs.spec_step() {
                DecodeStep::Run { allocated_size, .. } => final(self).spec_total() == Some(
                    old(self).spec_total()->Some_0 + allocated_size,
                ),
                _ => final(self).spec_total() == old(self).spec_total(),
            },
            final(self).data == old(self).data,
            final(self).ntfs == old(self).ntfs,
            final(self).position == old(self).position,
            final(self).stream_state.data_size == old(self).stream_state.data_size,
            final(self).stream_state.stream_position == old(self).stream_state.stream_position,
            final(self).stream_data_runs.state.offset >= old(self).stream_data_runs.state.offset,
            match r {
                Ok(true) => final(self).stream_data_runs.state.offset > old(
                    self,
                ).stream_data_runs.state.offset,
                Ok(false) => final(self).stream_state == old(self).stream_state,
                Err(e) => {
                    &&& e.is_decode_error()
                    &&& !old(self).spec_rest_well_formed()
                    &&& final(self).stream_state == old(self).stream_state
                    &&& final(self).stream_data_runs.state == old(self).stream_data_runs.state
                },
            },
            old(self).spec_rest_sparse() ==> final(self).spec_rest_sparse(),
            match old(self).stream_data_runs.spec_step() {
                DecodeStep::End => {
                    &&& r == Ok::<bool, NtfsError>(false)
                    &&& final(self).stream_data_runs.state.offset == final(self).data@.len()
                },
                DecodeStep::Failed(e) => r == Err::<bool, NtfsError>(e),
                DecodeStep::Run { position, allocated_size, .. } => {
                    &&& r == Ok::<bool, NtfsError>(true)
                    &&& final(self).stream_state.stream_data_run is Some
                    &&& final(self).stream_state.stream_data_run->Some_0.position == position
                    &&& final(self).stream_state.stream_data_run->Some_0.allocated_size == allocated_size
                    &&& final(self).stream_state.stream_data_run->Some_0.stream_position == 0
                },
            },
    {
        proof {
            lemma_decode_step(
                self.data@,
                self.position,
                self.ntfs.spec_cluster_size(),
                self.stream_data_runs.state.offset as int,
                self.stream_data_runs.state.previous_lcn,
            );
            if self.spec_total() is Some {
                lemma_allocated_between_step(
                    self.data@,
                    self.position,
                    self.ntfs.spec_cluster_size(),
                    0,
                    0,
                    self.stream_data_runs.state.offset as int,
                    self.stream_data_runs.state.previous_lcn,
                );
            }
        }
        let stream_data_run = match self.stream_data_runs.next() {
            Some(r) => r,
            None => return Ok(false),
        };
        let stream_data_run = match stream_data_run {
            Ok(d) => d,
            Err(e) => return Err(e),
        };
        self.stream_state.set_stream_data_run(stream_data_run);
        Ok(true)
    }

    /// Reads from the current position into `buf` until it is full or the value
    /// ends (at its used data size, or where the Data Runs end), and returns the
    /// number of bytes read. A short read of `fs` is accepted and reading goes on;
    /// only a read of `fs` that gives no bytes (the end of the image) ends the call
    /// early. Zero bytes read is the normal end of the value, never an error.
    pub fn read<T: FilesystemSource>(&mut self, fs: &mut T, buf: &mut [u8]) -> (r: Result<
        usize,
        NtfsError,
    >)
        requires
            old(self).wf(),
        ensures
            final(self).wf(),
            final(self).spec_data() == old(self).spec_data(),
            final(self).spec_position() == old(self).spec_position(),
            final(self).spec_ntfs() == old(self).spec_ntfs(),
            final(self).spec_len() == old(self).spec_len(),
            final(buf)@.len() == old(buf)@.len(),
            final(fs).spec_content() == old(fs).spec_content(),
            old(self).spec_stream_position() >= old(self).spec_len() ==> {
                &&& *final(fs) == *old(fs)
                &&& final(buf)@ == old(buf)@
            },
            old(self).spec_stream_position() <= final(self).spec_stream_position()
                <= old(self).spec_stream_position() + old(buf)@.len(),
            ({
                let d = old(self).spec_stream_state().spec_data_run()->Some_0;
                let m = run_chunk_len(
                    d,
                    old(buf)@.len() as int,
                    old(self).spec_stream_position(),
                    old(self).spec_len(),
                );
                old(self).spec_stream_state().spec_data_run() is Some && old(
                    self,
                ).spec_stream_position() < old(self).spec_len() && run_chunk_in_image(
                    d,
                    old(fs).spec_content(),
                    m,
                ) ==> (r matches Ok(n) ==> n >= m && forall|i: int|
                    0 <= i < m ==> #[trigger] final(buf)@[i] == run_byte(d, old(fs).spec_content(), i))
            }),
            old(self).spec_rest_sparse() ==> {
                &&& *final(fs) == *old(fs)
                &&& !final(self).spec_at_image_end(old(fs).spec_content().len())
                &&& r matches Ok(n) ==> forall|i: int| 0 <= i < n ==> final(buf)@[i] == 0
                &&& r matches Err(e) ==> e.is_decode_error()
            },
            match r {
                Ok(n) => {
                    &&& n <= old(buf)@.len()
                    &&& forall|i: int| n <= i < old(buf)@.len() ==> final(buf)@[i] == old(buf)@[i]
                    &&& n == old(buf)@.len() || final(self).spec_stream_position() >= final(self).spec_len()
                        || final(self).spec_runs_exhausted() || final(self).spec_at_image_end(
                        old(fs).spec_content().len(),
                    )
                    &&& final(self).spec_stream_position() == old(self).spec_stream_position() + n
                    &&& old(self).spec_stream_position() >= old(self).spec_len() ==> n == 0
                    &&& old(self).spec_stream_position() <= old(self).spec_len()
                        ==> final(self).spec_stream_position() <= old(self).spec_len()
                },
                Err(e) => e == NtfsError::Io || (e.is_decode_error()
                    && !old(self).spec_runs_well_formed()),
            },
            old(self).spec_stream_position() >= old(self).spec_len()
                && old(self).spec_runs_well_formed() ==> r == Ok::<usize, NtfsError>(0),
    {
        let buf_len = buf.len();
        let mut bytes_read: usize = 0;
        let ghost start_position = self.stream_state.stream_position;
        let ghost well_formed = self.spec_runs_well_formed();
        let ghost sparse = self.spec_rest_sparse();
        let ghost first_chunk = {
            let d = self.stream_state.stream_data_run->Some_0;
            self.stream_state.stream_data_run is Some && start_position < self.stream_state.data_size
                && run_chunk_in_image(
                d,
                fs.spec_content(),
                run_chunk_len(d, buf_len as int, start_position, self.stream_state.data_size),
            )
        };
        while bytes_read < buf_len
            invariant
                self.wf(),
                self.data == old(self).data,
                self.ntfs == old(self).ntfs,
                self.position == old(self).position,
                self.stream_state.data_size == old(self).stream_state.data_size,
                buf_len == buf@.len(),
                buf@.len() == old(buf)@.len(),
                bytes_read <= buf_len,
                start_position == old(self).stream_state.stream_position,
                well_formed == old(self).spec_runs_well_formed(),
                self.stream_state.stream_position == start_position + bytes_read,
                forall|i: int| bytes_read <= i < buf_len ==> buf@[i] == old(buf)@[i],
                start_position >= self.stream_state.data_size ==> *fs == *old(fs) && buf@ == old(
                    buf,
                )@,
                start_position >= self.stream_state.data_size ==> bytes_read == 0,
                sparse == old(self).spec_rest_sparse(),
                fs.spec_content() == old(fs).spec_content(),
                first_chunk == ({
                    let d = old(self).stream_state.stream_data_run->Some_0;
                    old(self).stream_state.stream_data_run is Some && start_position
                        < self.stream_state.data_size && run_chunk_in_image(
                        d,
                        old(fs).spec_content(),
                        run_chunk_len(d, buf_len as int, start_position, self.stream_state.data_size),
                    )
                }),
                first_chunk ==> {
                    let d = old(self).stream_state.stream_data_run->Some_0;
                    let m = run_chunk_len(d, buf_len as int, start_position, self.stream_state.data_size);
                    &&& bytes_read < m ==> {
                        &&& self.stream_state.stream_data_run is Some
                        &&& self.stream_state.stream_data_run->Some_0.position == d.position
                        &&& self.stream_state.stream_data_run->Some_0.allocated_size == d.allocated_size
                        &&& self.stream_state.stream_data_run->Some_0.stream_position == d.stream_position
                            + bytes_read
                    }
                    &&& forall|i: int|
                        0 <= i < bytes_read && i < m ==> #[trigger] buf@[i] == run_byte(
                            d,
                            old(fs).spec_content(),
                            i,
                        )
                },
                sparse ==> {
                    &&& self.spec_rest_sparse()
                    &&& *fs == *old(fs)
                    &&& forall|i: int| 0 <= i < bytes_read ==> buf@[i] == 0
                },
                start_position <= self.stream_state.data_size ==> self.stream_state.stream_position
                    <= self.stream_state.data_size,
            ensures
                bytes_read == buf_len || self.stream_state.stream_position >= self.stream_state.data_size
                    || self.spec_runs_exhausted() || self.spec_at_image_end(
                    old(fs).spec_content().len(),
                ),
                first_chunk ==> bytes_read >= run_chunk_len(
                    old(self).stream_state.stream_data_run->Some_0,
                    buf_len as int,
                    start_position,
                    self.stream_state.data_size,
                ),
            decreases buf_len - bytes_read, self.data@.len() - self.stream_data_runs.state.offset,
        {
            let before = bytes_read;
            // Read from the current Data Run if there is one.
            match self.stream_state.read_data_run(fs, buf, &mut bytes_read) {
                Ok(true) => {
                    if bytes_read == before {
                        // The filesystem gave nothing more.
                        break;
                    }
                    continue;
                },
                Ok(false) => {},
                Err(e) => return Err(e),
            }
            // Move to the next Data Run.
            match self.next_data_run() {
                Ok(true) => {},
                Ok(false) => break,
                Err(e) => return Err(e),
            }
        }
        Ok(bytes_read)
    }

    /// Moves the current position to the one that `pos` names and returns it. A
    /// target before the start, or past `u64::MAX`, is an error and keeps the
    /// reader as it was; a target past the end of the value is allowed.
    pub fn seek<T: FilesystemSource>(&mut self, fs: &mut T, pos: SeekFrom) -> (r: Result<
        u64,
        NtfsError,
    >)
        requires
            old(self).wf(),
        ensures
            final(self).wf(),
            final(self).spec_data() == old(self).spec_data(),
            final(self).spec_position() == old(self).spec_position(),
            final(self).spec_ntfs() == old(self).spec_ntfs(),
            final(self).spec_len() == old(self).spec_len(),
            *final(fs) == *old(fs),
            ({
                let t = seek_target(old(self).spec_stream_position(), old(self).spec_len(), pos);
                let d = old(self).spec_stream_state().spec_data_run()->Some_0;
                let n = t - old(self).spec_stream_position();
                old(self).spec_stream_state().spec_data_run() is Some && is_valid_target(t) && 0 <= n
                    < d.spec_remaining_len() && n <= i64::MAX ==> {
                    &&& r == Ok::<u64, NtfsError>(t as u64)
                    &&& final(self).spec_decoder_offset() == old(self).spec_decoder_offset()
                    &&& final(self).spec_stream_state().spec_data_run() is Some
                    &&& final(self).spec_stream_state().spec_data_run()->Some_0.spec_position()
                        == d.spec_position()
                    &&& final(self).spec_stream_state().spec_data_run()->Some_0.spec_allocated_size()
                        == d.spec_allocated_size()
                    &&& final(self).spec_stream_state().spec_data_run()->Some_0.spec_stream_position()
                        == d.spec_stream_position() + n
                }
            }),
            ({
                let t = seek_target(old(self).spec_stream_position(), old(self).spec_len(), pos);
                if is_valid_target(t) {
                    match r {
                        Ok(p) => p == t && final(self).spec_stream_position() == t,
                        Err(e) => e.is_decode_error() && !old(self).spec_runs_well_formed(),
                    }
                } else {
                    r == Err::<u64, NtfsError>(NtfsError::InvalidSeek) && *final(self) == *old(self)
                }
            }),
    {
        let ghost entry = *self;
        let ghost old_run = self.stream_state.stream_data_run;
        let len = self.len();
        let simple_pos = match self.stream_state.optimize_seek(pos, len) {
            Ok(p) => p,
            Err(e) => return Err(e),
        };
        let ghost well_formed = self.spec_runs_well_formed();
        let mut bytes_left_to_seek: u64 = match simple_pos {
            SeekFrom::Start(n) => {
                // Start over from the first Data Run.
                self.stream_data_runs = self.data_runs();
                self.stream_state = StreamState::new(len);
                n
            },
            SeekFrom::Current(n) => n as u64,
            // `optimize_seek` never returns a seek from the end.
            SeekFrom::End(_) => 0,
        };
        let ghost base_position = self.stream_state.stream_position;
        let ghost n0: int = bytes_left_to_seek as int;
        let ghost in_current_run = simple_pos is Current && old_run is Some && bytes_left_to_seek
            < old_run->Some_0.spec_remaining_len();
        let ghost ahead = {
            let t = seek_target(entry.spec_stream_position(), entry.spec_len(), pos);
            let n = t - entry.spec_stream_position();
            old_run is Some && is_valid_target(t) && 0 <= n < old_run->Some_0.spec_remaining_len()
                && n <= i64::MAX
        };
        assert(ahead ==> in_current_run);
        while bytes_left_to_seek > 0
            invariant_except_break
                in_current_run ==> {
                    &&& simple_pos is Current
                    &&& self.stream_state == entry.stream_state
                    &&& self.stream_data_runs.state == entry.stream_data_runs.state
                    &&& old_run == entry.stream_state.stream_data_run
                    &&& old_run is Some
                    &&& bytes_left_to_seek < old_run->Some_0.spec_remaining_len()
                    &&& bytes_left_to_seek == simple_pos->Current_0
                },
                simple_pos is Start ==> self.spec_current_position() == 0,
                well_formed ==> {
                    &&& self.spec_total() is Some
                    &&& 0 <= self.spec_current_position() <= self.spec_current_allocated()
                        <= self.spec_total()->Some_0
                    &&& (base_position + n0 - bytes_left_to_seek == self.spec_total()->Some_0
                        - self.spec_current_allocated() + self.spec_current_position()
                        || base_position >= len || (self.stream_data_runs.state.offset
                        == self.data@.len() && base_position >= self.spec_total()->Some_0))
                },
            invariant
                ahead ==> in_current_run,
                entry == *old(self),
                old_run == entry.stream_state.stream_data_run,
                ahead == ({
                    let t = seek_target(entry.spec_stream_position(), entry.spec_len(), pos);
                    let n = t - entry.spec_stream_position();
                    old_run is Some && is_valid_target(t) && 0 <= n
                        < old_run->Some_0.spec_remaining_len() && n <= i64::MAX
                }),
                self.wf_structure(),
                n0 == (match simple_pos {
                    SeekFrom::Start(n) => n as int,
                    SeekFrom::Current(n) => n as int,
                    SeekFrom::End(_) => 0,
                }),
                bytes_left_to_seek <= n0,
                simple_pos is Start ==> base_position == 0,
                self.data == old(self).data,
                self.ntfs == old(self).ntfs,
                self.position == old(self).position,
                self.stream_state.data_size == len,
                len == entry.spec_len(),
                *fs == *old(fs),
                self.stream_state.stream_position == base_position,
                well_formed == old(self).spec_runs_well_formed(),
                well_formed == self.spec_runs_well_formed(),
                !(simple_pos is End),
                is_valid_target(seek_target(entry.spec_stream_position(), len, pos)),
                simple_pos matches SeekFrom::Current(n) ==> bytes_left_to_seek <= n,
            ensures
                well_formed ==> {
                    &&& self.spec_total() is Some
                    &&& 0 <= self.spec_current_position() <= self.spec_current_allocated()
                        <= self.spec_total()->Some_0
                    &&& (base_position + n0 == self.spec_total()->Some_0
                        - self.spec_current_allocated() + self.spec_current_position()
                        || base_position >= len || (self.stream_data_runs.state.offset
                        == self.data@.len() && base_position + n0 >= self.spec_total()->Some_0))
                },
                in_current_run ==> {
                    &&& self.stream_data_runs.state == entry.stream_data_runs.state
                    &&& self.stream_state.stream_data_run is Some
                    &&& self.stream_state.stream_data_run->Some_0.position == old_run->Some_0.position
                    &&& self.stream_state.stream_data_run->Some_0.allocated_size
                        == old_run->Some_0.allocated_size
                    &&& self.stream_state.stream_data_run->Some_0.stream_position
                        == old_run->Some_0.stream_position + simple_pos->Current_0
                },
            decreases self.data@.len() - self.stream_data_runs.state.offset,
        {
            // Seek inside the current Data Run if there is one.
            match self.stream_state.seek_data_run(fs, simple_pos, &mut bytes_left_to_seek) {
                Ok(true) => break,
                Ok(false) => {},
                Err(e) => return Err(e),
            }
            // Move to the next Data Run.
            match self.next_data_run() {
                Ok(true) => {},
                Ok(false) => break,
                Err(e) => return Err(e),
            }
        }
        match simple_pos {
            SeekFrom::Start(n) => self.stream_state.set_stream_position(n),
            SeekFrom::Current(n) => {
                let p = self.stream_position() + n as u64;
                self.stream_state.set_stream_position(p);
            },
            SeekFrom::End(_) => {},
        }
        Ok(self.stream_position())
    }

    /// Returns the filesystem that this value belongs to.
    pub fn ntfs(&self) -> (r: &'n Ntfs)
        ensures
            r == self.spec_ntfs(),
    {
        self.ntfs
    }

    /// Returns the absolute position within the filesystem of the next Data Run
    /// header to decode: that of the Data Run list plus the decoder's offset in it.
    pub fn position(&self) -> (r: u64)
        requires
            self.wf(),
        ensures
            r == self.spec_position() + self.spec_decoder_offset(),
    {
        self.stream_data_runs.position()
    }

    /// Returns the current position within the value, in bytes.
    pub fn stream_position(&self) -> (r: u64)
        ensures
            r == self.spec_stream_position(),
    {
        self.stream_state.stream_position()
    }
}

} // verus!
