//! Reader for non-resident NTFS attribute values: decodes the Data Run list of an
//! attribute and presents all of its runs as one contiguous, seekable byte stream.

pub mod error;
pub mod ntfs;
pub mod varint;
pub mod seek;
pub mod source;
pub mod non_resident;
