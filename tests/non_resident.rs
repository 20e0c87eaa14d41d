use ntfs::error::NtfsError;
use ntfs::non_resident::{NtfsDataRun, NtfsDataRuns, NtfsNonResidentAttributeValue};
use ntfs::ntfs::Ntfs;
use ntfs::seek::SeekFrom;
use ntfs::source::FilesystemSource;

/// An in-memory filesystem image that counts the reads made on it.
struct MemorySource {
    bytes: Vec<u8>,
    reads: usize,
}

impl MemorySource {
    fn new(bytes: Vec<u8>) -> Self {
        MemorySource { bytes, reads: 0 }
    }
}

impl FilesystemSource for MemorySource {
    fn read_at(
        &mut self,
        position: u64,
        buf: &mut [u8],
        start: usize,
        len: usize,
    ) -> Result<usize, NtfsError> {
        self.reads += 1;
        let position = position as usize;
        if position >= self.bytes.len() {
            return Ok(0);
        }
        let n = usize::min(len, self.bytes.len() - position);
        buf[start..start + n].copy_from_slice(&self.bytes[position..position + n]);
        Ok(n)
    }
}

/// A filesystem image that always fails.
struct FailingSource;

impl FilesystemSource for FailingSource {
    fn read_at(&mut self, _: u64, _: &mut [u8], _: usize, _: usize) -> Result<usize, NtfsError> {
        Err(NtfsError::Io)
    }
}

/// A filesystem image of `clusters` clusters of 512 bytes, byte `i` holding `i % 251`.
fn patterned_image(clusters: usize) -> Vec<u8> {
    (0..clusters * 512).map(|i| (i % 251) as u8).collect()
}

fn collect_runs(ntfs: &Ntfs, data: &[u8]) -> Vec<Result<NtfsDataRun, NtfsError>> {
    let mut runs = NtfsDataRuns::new(ntfs, data, 0);
    let mut items = Vec::new();
    while let Some(item) = runs.next() {
        let failed = item.is_err();
        items.push(item);
        if failed {
            break;
        }
    }
    items
}

#[test]
fn decodes_single_run_and_stops_at_zero_header() {
    let ntfs = Ntfs::new(512);
    let data = [0x21u8, 0x10, 0x05, 0x00];
    let mut runs = NtfsDataRuns::new(&ntfs, &data, 1000);
    let run = runs.next().unwrap().unwrap();
    assert_eq!(run.allocated_size(), 8192);
    assert_eq!(run.data_position(), Some(5 * 512));
    assert_eq!(runs.position(), 1004);
    assert!(runs.next().is_none());
    assert_eq!(runs.position(), 1004);
    assert!(runs.next().is_none());
}

#[test]
fn zero_header_ends_list_with_bytes_left() {
    let ntfs = Ntfs::new(512);
    let data = [0x00u8, 0x11, 0x01, 0x01];
    let mut runs = NtfsDataRuns::new(&ntfs, &data, 0);
    assert!(runs.next().is_none());
    assert_eq!(runs.position(), 4);
    assert!(runs.next().is_none());
}

#[test]
fn negative_vcn_delta_moves_backwards() {
    let ntfs = Ntfs::new(512);
    // LCN 5, then 5 + (-2) = 3; the list ends with the data.
    let data = [0x11u8, 0x01, 0x05, 0x11, 0x02, 0xFE];
    let runs = collect_runs(&ntfs, &data);
    assert_eq!(runs.len(), 2);
    let first = runs[0].as_ref().unwrap();
    let second = runs[1].as_ref().unwrap();
    assert_eq!(first.data_position(), Some(5 * 512));
    assert_eq!(first.allocated_size(), 512);
    assert_eq!(second.data_position(), Some(3 * 512));
    assert_eq!(second.allocated_size(), 1024);
}

#[test]
fn multi_byte_fields_are_little_endian() {
    let ntfs = Ntfs::new(4096);
    // Cluster count 0x0102, VCN delta 0x030405.
    let data = [0x32u8, 0x02, 0x01, 0x05, 0x04, 0x03, 0x00];
    let mut runs = NtfsDataRuns::new(&ntfs, &data, 0);
    let run = runs.next().unwrap().unwrap();
    assert_eq!(run.allocated_size(), 0x0102 * 4096);
    assert_eq!(run.data_position(), Some(0x030405 * 4096));
}

#[test]
fn sparse_run_has_no_data_position() {
    let ntfs = Ntfs::new(512);
    let data = [0x01u8, 0x02, 0x00];
    let mut runs = NtfsDataRuns::new(&ntfs, &data, 0);
    let run = runs.next().unwrap().unwrap();
    assert_eq!(run.allocated_size(), 1024);
    assert_eq!(run.data_position(), None);
}

#[test]
fn oversized_byte_count_is_rejected_repeatedly() {
    let ntfs = Ntfs::new(512);
    let data = [0x09u8, 0, 0, 0, 0, 0, 0, 0, 0, 0, 0];
    let mut runs = NtfsDataRuns::new(&ntfs, &data, 40);
    let expected = NtfsError::InvalidByteCountInDataRunHeader {
        position: 40,
        expected: 9,
        actual: 8,
    };
    assert_eq!(runs.next(), Some(Err(expected)));
    assert_eq!(runs.next(), Some(Err(expected)));
    assert_eq!(runs.position(), 40);
}

#[test]
fn oversized_vcn_byte_count_is_rejected() {
    let ntfs = Ntfs::new(512);
    let data = [0x91u8, 0x01, 0, 0, 0, 0, 0, 0, 0, 0, 0];
    let mut runs = NtfsDataRuns::new(&ntfs, &data, 0);
    assert_eq!(
        runs.next(),
        Some(Err(NtfsError::InvalidByteCountInDataRunHeader {
            position: 0,
            expected: 9,
            actual: 8,
        }))
    );
}

#[test]
fn truncated_run_is_rejected() {
    let ntfs = Ntfs::new(512);
    let data = [0x11u8, 0x01, 0x05, 0x21, 0x10];
    let mut runs = NtfsDataRuns::new(&ntfs, &data, 7);
    assert!(runs.next().unwrap().is_ok());
    assert_eq!(
        runs.next(),
        Some(Err(NtfsError::TruncatedDataRun { position: 10 }))
    );
}

#[test]
fn lcn_underflow_is_rejected() {
    let ntfs = Ntfs::new(512);
    let data = [0x11u8, 0x01, 0xFF];
    let mut runs = NtfsDataRuns::new(&ntfs, &data, 0);
    assert_eq!(
        runs.next(),
        Some(Err(NtfsError::InvalidVcnInDataRunHeader {
            position: 0,
            vcn: -1,
            previous_lcn: 0,
        }))
    );
}

#[test]
fn cluster_count_overflow_is_rejected() {
    let ntfs = Ntfs::new(512);
    let data = [0x08u8, 0xFF, 0xFF, 0xFF, 0xFF, 0xFF, 0xFF, 0xFF, 0xFF];
    let mut runs = NtfsDataRuns::new(&ntfs, &data, 0);
    assert_eq!(
        runs.next(),
        Some(Err(NtfsError::InvalidClusterCount {
            cluster_count: u64::MAX
        }))
    );
    assert_eq!(runs.position(), 0);
}

#[test]
fn lcn_position_overflow_is_rejected() {
    let ntfs = Ntfs::new(512);
    let data = [0x81u8, 0x01, 0xFF, 0xFF, 0xFF, 0xFF, 0xFF, 0xFF, 0xFF, 0x7F];
    let mut runs = NtfsDataRuns::new(&ntfs, &data, 0);
    assert_eq!(
        runs.next(),
        Some(Err(NtfsError::LcnTooBig {
            lcn: i64::MAX as u64
        }))
    );
}

#[test]
fn run_ending_past_address_space_decodes() {
    let ntfs = Ntfs::new(512);
    // LCN 0x7F_FFFF_FFFF_FFFF (position 2^63 - 512) and 3 * 2^53 clusters
    // (3 * 2^62 bytes): the size fits in 64 bits, the end of the run does not.
    let data = [
        0x78u8, 0, 0, 0, 0, 0, 0, 0x60, 0, 0xFF, 0xFF, 0xFF, 0xFF, 0xFF, 0xFF, 0x7F, 0x00,
    ];
    let mut runs = NtfsDataRuns::new(&ntfs, &data, 0);
    let run = runs.next().unwrap().unwrap();
    assert_eq!(run.allocated_size(), 3u64 << 62);
    assert_eq!(run.data_position(), Some(0x7F_FFFF_FFFF_FFFFu64 * 512));
}

#[test]
fn state_round_trip_resumes_decoding() {
    let ntfs = Ntfs::new(512);
    let data = [0x11u8, 0x01, 0x05, 0x11, 0x02, 0x03, 0x00];
    let mut runs = NtfsDataRuns::new(&ntfs, &data, 0);
    runs.next().unwrap().unwrap();
    let state = runs.into_state();
    let mut resumed = NtfsDataRuns::from_state(&ntfs, &data, 0, state);
    let run = resumed.next().unwrap().unwrap();
    assert_eq!(run.data_position(), Some(8 * 512));
    assert!(resumed.next().is_none());
}

#[test]
fn used_size_caps_reads() {
    let ntfs = Ntfs::new(512);
    let data = [0x11u8, 0x01, 0x01, 0x00];
    let mut fs = MemorySource::new(patterned_image(4));
    let mut value = NtfsNonResidentAttributeValue::new(&ntfs, &data, 0, 100).unwrap();
    let mut buf = vec![0xAAu8; 1000];
    assert_eq!(value.read(&mut fs, &mut buf).unwrap(), 100);
    assert_eq!(&buf[..100], &patterned_image(4)[512..612]);
    assert!(buf[100..].iter().all(|&b| b == 0xAA));
    assert_eq!(value.stream_position(), 100);
    assert_eq!(value.read(&mut fs, &mut buf).unwrap(), 0);
}

#[test]
fn successive_reads_sum_to_len() {
    let ntfs = Ntfs::new(512);
    // A real run of one cluster, a sparse run of two, a real run of one.
    let data = [0x11u8, 0x01, 0x02, 0x11, 0x02, 0xFE, 0x11, 0x01, 0x03, 0x00];
    let mut fs = MemorySource::new(patterned_image(8));
    let mut value = NtfsNonResidentAttributeValue::new(&ntfs, &data, 0, 1900).unwrap();
    let mut buf = [0u8; 300];
    let mut total = 0u64;
    loop {
        let n = value.read(&mut fs, &mut buf).unwrap();
        if n == 0 {
            break;
        }
        total += n as u64;
    }
    assert_eq!(total, value.len());
}

#[test]
fn sparse_run_reads_zeros_without_source() {
    let ntfs = Ntfs::new(512);
    let data = [0x01u8, 0x02, 0x00];
    let mut fs = MemorySource::new(patterned_image(4));
    let mut value = NtfsNonResidentAttributeValue::new(&ntfs, &data, 0, 1024).unwrap();
    let mut buf = vec![0xAAu8; 2000];
    assert_eq!(value.read(&mut fs, &mut buf).unwrap(), 1024);
    assert!(buf[..1024].iter().all(|&b| b == 0));
    assert!(buf[1024..].iter().all(|&b| b == 0xAA));
    assert_eq!(fs.reads, 0);
}

#[test]
fn sparse_data_run_read_fills_zeros() {
    let ntfs = Ntfs::new(512);
    let data = [0x01u8, 0x01, 0x00];
    let mut runs = NtfsDataRuns::new(&ntfs, &data, 0);
    let mut run = runs.next().unwrap().unwrap();
    let mut fs = FailingSource;
    let mut buf = vec![0x55u8; 600];
    assert_eq!(run.read(&mut fs, &mut buf).unwrap(), 512);
    assert!(buf[..512].iter().all(|&b| b == 0));
    assert_eq!(buf[512], 0x55);
    assert_eq!(run.read(&mut fs, &mut buf).unwrap(), 0);
}

#[test]
fn sequential_read_matches_per_run_reads() {
    let ntfs = Ntfs::new(512);
    // Runs: clusters 2..4 (1024 bytes), sparse at LCN 0 (512 bytes), cluster 6 (512 bytes).
    let data = [0x11u8, 0x02, 0x02, 0x11, 0x01, 0xFE, 0x11, 0x01, 0x06, 0x00];
    let image = patterned_image(8);
    let mut fs = MemorySource::new(image.clone());
    let mut value = NtfsNonResidentAttributeValue::new(&ntfs, &data, 0, 2048).unwrap();
    let mut whole = vec![0u8; 2048];
    assert_eq!(value.read(&mut fs, &mut whole).unwrap(), 2048);

    let mut pieces = Vec::new();
    for (start, len) in [(0u64, 1024usize), (1024, 512), (1536, 512)] {
        assert_eq!(value.seek(&mut fs, SeekFrom::Start(start)).unwrap(), start);
        let mut part = vec![0u8; len];
        assert_eq!(value.read(&mut fs, &mut part).unwrap(), len);
        pieces.extend_from_slice(&part);
    }
    assert_eq!(pieces, whole);
    assert_eq!(&whole[..1024], &image[1024..2048]);
    assert!(whole[1024..1536].iter().all(|&b| b == 0));
    assert_eq!(&whole[1536..], &image[3072..3584]);
}

#[test]
fn seek_past_end_reads_nothing() {
    let ntfs = Ntfs::new(512);
    let data = [0x11u8, 0x01, 0x01, 0x00];
    let mut fs = MemorySource::new(patterned_image(4));
    let mut value = NtfsNonResidentAttributeValue::new(&ntfs, &data, 0, 300).unwrap();
    let mut buf = [0u8; 16];
    assert_eq!(value.seek(&mut fs, SeekFrom::End(0)).unwrap(), 300);
    assert_eq!(value.read(&mut fs, &mut buf).unwrap(), 0);
    assert_eq!(value.seek(&mut fs, SeekFrom::Start(5000)).unwrap(), 5000);
    assert_eq!(value.read(&mut fs, &mut buf).unwrap(), 0);
    assert_eq!(value.stream_position(), 5000);
}

#[test]
fn negative_seek_fails_and_keeps_position() {
    let ntfs = Ntfs::new(512);
    let data = [0x11u8, 0x01, 0x01, 0x00];
    let mut fs = MemorySource::new(patterned_image(4));
    let mut value = NtfsNonResidentAttributeValue::new(&ntfs, &data, 0, 300).unwrap();
    assert_eq!(value.seek(&mut fs, SeekFrom::Start(10)).unwrap(), 10);
    assert_eq!(
        value.seek(&mut fs, SeekFrom::Current(-11)),
        Err(NtfsError::InvalidSeek)
    );
    assert_eq!(value.stream_position(), 10);
    assert_eq!(
        value.seek(&mut fs, SeekFrom::End(-301)),
        Err(NtfsError::InvalidSeek)
    );
    assert_eq!(value.stream_position(), 10);
    let mut buf = [0u8; 4];
    assert_eq!(value.read(&mut fs, &mut buf).unwrap(), 4);
    assert_eq!(&buf, &patterned_image(4)[522..526]);
}

#[test]
fn seeks_from_current_and_end() {
    let ntfs = Ntfs::new(512);
    let data = [0x11u8, 0x02, 0x01, 0x00];
    let image = patterned_image(4);
    let mut fs = MemorySource::new(image.clone());
    let mut value = NtfsNonResidentAttributeValue::new(&ntfs, &data, 0, 1000).unwrap();
    assert_eq!(value.seek(&mut fs, SeekFrom::Current(600)).unwrap(), 600);
    assert_eq!(value.seek(&mut fs, SeekFrom::Current(-100)).unwrap(), 500);
    assert_eq!(value.seek(&mut fs, SeekFrom::End(-10)).unwrap(), 990);
    let mut buf = [0u8; 20];
    assert_eq!(value.read(&mut fs, &mut buf).unwrap(), 10);
    assert_eq!(&buf[..10], &image[512 + 990..512 + 1000]);
    assert_eq!(
        value.seek(&mut fs, SeekFrom::Current(i64::MAX)).unwrap(),
        1000 + i64::MAX as u64
    );
    assert_eq!(
        value.seek(&mut fs, SeekFrom::Current(i64::MAX)),
        Err(NtfsError::InvalidSeek)
    );
}

#[test]
fn source_failure_propagates() {
    let ntfs = Ntfs::new(512);
    let data = [0x11u8, 0x01, 0x01, 0x00];
    let mut value = NtfsNonResidentAttributeValue::new(&ntfs, &data, 0, 100).unwrap();
    let mut buf = [0u8; 8];
    assert_eq!(value.read(&mut FailingSource, &mut buf), Err(NtfsError::Io));
}

#[test]
fn decode_error_surfaces_on_construction_and_read() {
    let ntfs = Ntfs::new(512);
    let bad_first = [0x11u8, 0x01, 0xFF];
    assert_eq!(
        NtfsNonResidentAttributeValue::new(&ntfs, &bad_first, 0, 10).err(),
        Some(NtfsError::InvalidVcnInDataRunHeader {
            position: 0,
            vcn: -1,
            previous_lcn: 0
        })
    );
    let bad_second = [0x11u8, 0x01, 0x01, 0x09];
    let mut fs = MemorySource::new(patterned_image(4));
    let mut value = NtfsNonResidentAttributeValue::new(&ntfs, &bad_second, 0, 1024).unwrap();
    let mut buf = vec![0u8; 1024];
    assert_eq!(
        value.read(&mut fs, &mut buf),
        Err(NtfsError::InvalidByteCountInDataRunHeader {
            position: 3,
            expected: 9,
            actual: 8
        })
    );
}

#[test]
fn accessors_report_value_state() {
    let ntfs = Ntfs::new(512);
    let data = [0x11u8, 0x01, 0x02, 0x00];
    let mut fs = MemorySource::new(patterned_image(4));
    let mut value = NtfsNonResidentAttributeValue::new(&ntfs, &data, 77, 0).unwrap();
    assert!(value.is_empty());
    assert_eq!(value.len(), 0);
    // The run list lies at 77; the decoder has read the first Data Run's 3 bytes.
    assert_eq!(value.position(), 80);
    assert_eq!(value.ntfs().cluster_size(), 512);
    assert_eq!(value.data_position(), Some(1024));
    assert_eq!(value.seek(&mut fs, SeekFrom::Start(3)).unwrap(), 3);
    assert_eq!(value.data_position(), Some(1027));
    let mut runs = value.data_runs();
    assert_eq!(runs.position(), 77);
    assert_eq!(runs.next().unwrap().unwrap().allocated_size(), 512);
}
