use vstd::prelude::*;

use crate::error::NtfsError;

verus! {

/// The parameters of a filesystem that the value reader needs.
#[derive(Clone, Copy, Debug)]
pub struct Ntfs {
    cluster_size: u32,
}

/// The absolute byte position of the cluster `lcn`, if it fits in 64 bits.
pub open spec fn lcn_position_spec(lcn: u64, cluster_size: u32) -> Option<u64> {
    if lcn * cluster_size <= u64::MAX {
        Some((lcn * cluster_size) as u64)
    } else {
        None
    }
}

impl Ntfs {
    /// The size of one cluster, in bytes.
    pub closed spec fn spec_cluster_size(&self) -> u32 {
        self.cluster_size
    }

    /// Describes a filesystem with clusters of `cluster_size` bytes.
    pub fn new(cluster_size: u32) -> (r: Ntfs)
        ensures
            r.spec_cluster_size() == cluster_size,
    {
        Ntfs { cluster_size }
    }

    /// Returns the size of one cluster, in bytes.
    pub fn cluster_size(&self) -> (r: u32)
        ensures
            r == self.spec_cluster_size(),
    {
        self.cluster_size
    }

    /// Returns the absolute byte position of the cluster `lcn` within the filesystem.
    pub fn lcn_position(&self, lcn: u64) -> (r: Result<u64, NtfsError>)
        ensures
            match lcn_position_spec(lcn, self.spec_cluster_size()) {
                Some(p) => r == Ok::<u64, NtfsError>(p),
                None => r == Err::<u64, NtfsError>(NtfsError::LcnTooBig { lcn }),
            },
    {
        match lcn.checked_mul(self.cluster_size as u64) {
            Some(p) => Ok(p),
            None => Err(NtfsError::LcnTooBig { lcn }),
        }
    }
}

} // verus!
