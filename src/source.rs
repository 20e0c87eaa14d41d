//! The filesystem that a non-resident value is read from.
use vstd::prelude::*;

use crate::error::NtfsError;

verus! {

/// A readable filesystem image, addressed by absolute byte position.
pub trait FilesystemSource {
    /// The bytes of the filesystem image, by absolute position. An implementation
    /// that Verus checks states them; for one it does not see, they are an image
    /// about which nothing further is known.
    closed spec fn spec_content(&self) -> Seq<u8> {
        vstd::pervasive::arbitrary()
    }

    /// Reads up to `len` bytes at the absolute position `position` into
    /// `buf[start..start + len]` and returns how many it read: the image's bytes from
    /// `position` on. Fewer than `len` is not an error, but a read that asks for at
    /// least one byte and starts within the image gets at least one (zero bytes
    /// means the end of the image). No byte outside the bytes read changes. A
    /// failure is reported as `NtfsError::Io` and changes no byte outside
    /// `buf[start..start + len]`. The image itself does not change.
    fn read_at(&mut self, position: u64, buf: &mut [u8], start: usize, len: usize) -> (r: Result<
        usize,
        NtfsError,
    >)
        requires
            start + len <= old(buf)@.len(),
        ensures
            final(buf)@.len() == old(buf)@.len(),
            final(self).spec_content() == old(self).spec_content(),
            match r {
                Ok(n) => {
                    &&& n <= len
                    &&& n > 0 ==> position + n <= old(self).spec_content().len()
                    &&& len > 0 && position < old(self).spec_content().len() ==> n > 0
                    &&& forall|i: int|
                        start <= i < start + n ==> #[trigger] final(buf)@[i] == old(
                            self,
                        ).spec_content()[position + (i - start)]
                    &&& forall|i: int|
                        0 <= i < old(buf)@.len() && !(start <= i < start + n) ==> final(buf)@[i]
                            == old(buf)@[i]
                },
                Err(e) => {
                    &&& e == NtfsError::Io
                    &&& forall|i: int|
                        0 <= i < old(buf)@.len() && !(start <= i < start + len) ==> final(buf)@[i]
                            == old(buf)@[i]
                },
            },
    ;
}

} // verus!
