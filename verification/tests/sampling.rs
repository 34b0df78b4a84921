use icu_monitor::sampling::{
    disk_usage, disk_usage_of, latency_reading, memory_usage, DiskSpace, UNREACHABLE,
};

#[test]
fn memory_usage_is_a_percentage() {
    assert_eq!(memory_usage(0, 16), 0);
    assert_eq!(memory_usage(4, 16), 25_000_000);
    assert_eq!(memory_usage(16, 16), 100_000_000);
    assert_eq!(memory_usage(1, 3), 33_333_333);
    assert_eq!(memory_usage(17, 16), 100_000_000);
    assert_eq!(memory_usage(5, 0), 0);
    assert_eq!(memory_usage(u64::MAX - 1, u64::MAX), 99_999_999);
}

#[test]
fn disk_usage_of_one_disk() {
    assert_eq!(disk_usage_of(&DiskSpace { total: 200, available: 50 }), 75_000_000);
    assert_eq!(disk_usage_of(&DiskSpace { total: 200, available: 200 }), 0);
    assert_eq!(disk_usage_of(&DiskSpace { total: 200, available: 0 }), 100_000_000);
    assert_eq!(disk_usage_of(&DiskSpace { total: 0, available: 0 }), 0);
    assert_eq!(disk_usage_of(&DiskSpace { total: 10, available: 11 }), 0);
}

#[test]
fn disk_usage_is_the_mean_over_disks() {
    assert_eq!(disk_usage(&vec![]), 0);
    assert_eq!(disk_usage(&vec![DiskSpace { total: 100, available: 40 }]), 60_000_000);
    assert_eq!(
        disk_usage(&vec![
            DiskSpace { total: 100, available: 40 },
            DiskSpace { total: 1_000, available: 1_000 },
            DiskSpace { total: 0, available: 0 },
            DiskSpace { total: 8, available: 0 },
        ]),
        40_000_000
    );
    assert_eq!(
        disk_usage(&vec![
            DiskSpace { total: 3, available: 2 },
            DiskSpace { total: 3, available: 1 },
        ]),
        49_999_999
    );
}

#[test]
fn latency_of_a_probe() {
    assert_eq!(latency_reading(Some(0)), 0);
    assert_eq!(latency_reading(Some(1)), 1_000);
    assert_eq!(latency_reading(Some(123_456)), 123_456_000);
    assert_eq!(latency_reading(None), UNREACHABLE);
    assert_eq!(UNREACHABLE, u64::MAX);
    assert_eq!(latency_reading(Some(18_446_744_073_709_551)), 18_446_744_073_709_551_000);
    assert_eq!(latency_reading(Some(18_446_744_073_709_552)), u64::MAX - 1);
    assert_eq!(latency_reading(Some(u64::MAX)), u64::MAX - 1);
}
