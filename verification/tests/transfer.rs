use media_import::progress::ProgressEvent;
use media_import::transfer::{interval_for, ChunkMeter, CHUNK_SIZE};

const KIB: u64 = 1024;
const MIB: u64 = 1024 * 1024;

#[test]
fn report_interval_is_a_tenth_between_the_bounds() {
    assert_eq!(CHUNK_SIZE, 64 * 1024);
    assert_eq!(interval_for(0), 64 * KIB);
    assert_eq!(interval_for(10), 64 * KIB);
    assert_eq!(interval_for(640 * KIB), 64 * KIB);
    assert_eq!(interval_for(640 * KIB + 10), 64 * KIB + 1);
    assert_eq!(interval_for(5 * MIB), 512 * KIB);
    assert_eq!(interval_for(10 * MIB), MIB);
    assert_eq!(interval_for(10 * MIB - 1), MIB - 1);
    assert_eq!(interval_for(u64::MAX), MIB);
}

#[test]
fn small_file_reports_when_complete() {
    let mut meter = ChunkMeter::new(10, 0, 30);
    assert_eq!(meter.record(10), Some(ProgressEvent::ByteProgress { copied: 10, total: 30 }));
    assert_eq!(meter.done, 10);
    assert_eq!(meter.last_report, 10);
}

#[test]
fn large_file_reports_every_interval() {
    // 2 MiB: the interval is a tenth, 209715 bytes, so every fourth chunk
    let size = 2 * MIB;
    let mut meter = ChunkMeter::new(size, 100, 100 + size);
    let mut reports = Vec::new();
    for _ in 0..32 {
        assert!(meter.can_record(CHUNK_SIZE));
        if let Some(event) = meter.record(CHUNK_SIZE) {
            reports.push(event);
        }
    }
    let expected: Vec<ProgressEvent> = (1..=8)
        .map(|k| ProgressEvent::ByteProgress { copied: 100 + k * 256 * KIB, total: 100 + size })
        .collect();
    assert_eq!(reports, expected);
    assert_eq!(meter.done, size);
}

#[test]
fn no_report_between_intervals() {
    let mut meter = ChunkMeter::new(640 * KIB, 0, MIB);
    assert_eq!(meter.record(65535), None);
    assert_eq!(meter.last_report, 0);
    assert_eq!(
        meter.record(1),
        Some(ProgressEvent::ByteProgress { copied: 65536, total: MIB })
    );
    assert_eq!(meter.record(100), None);
    assert_eq!(meter.done, 65636);
    assert_eq!(meter.last_report, 65536);
}

#[test]
fn a_tenth_of_one_mebibyte_is_the_interval() {
    let mut meter = ChunkMeter::new(MIB, 0, MIB);
    assert_eq!(meter.record(65536), None);
    assert_eq!(meter.record(39320), None);
    assert_eq!(
        meter.record(1),
        Some(ProgressEvent::ByteProgress { copied: 104857, total: MIB })
    );
}

#[test]
fn file_that_grew_is_counted_beyond_its_recorded_size() {
    let mut meter = ChunkMeter::new(5, 0, 5);
    assert_eq!(meter.record(3), None);
    assert_eq!(meter.record(3), None);
    assert_eq!(meter.done, 6);
}

#[test]
fn count_has_to_fit() {
    let meter = ChunkMeter::new(10, u64::MAX - 5, u64::MAX);
    assert!(meter.can_record(5));
    assert!(!meter.can_record(6));
}
