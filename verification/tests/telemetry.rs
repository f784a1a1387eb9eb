use rust_core::CPU;
use rust_core::label::label_is_cpu;
use rust_core::metrics::cpu_usage_from;
use rust_core::metrics::disk_usage_from;
use rust_core::metrics::gpu_power_from;
use rust_core::metrics::gpu_temp_from;
use rust_core::metrics::gpu_usage_from;
use rust_core::metrics::memory_usage_from;
use rust_core::metrics::temperature_from;
use rust_core::metrics::DiskSpace;
use rust_core::metrics::SensorReading;

fn sensor(label: &str, temp_centi: i64) -> SensorReading {
    SensorReading { label: label.as_bytes().to_vec(), temp_centi }
}

#[test]
fn cpu_usage_is_mean_of_cores() {
    // 10.00%, 20.00%, 40.00% and 50.00% average to 30.00%.
    assert_eq!(cpu_usage_from(&vec![1000, 2000, 4000, 5000]), 3000);
    // A single core reads as itself.
    assert_eq!(cpu_usage_from(&vec![7777]), 7777);
    // The mean rounds toward zero: (10.00% + 10.01%) / 2.
    assert_eq!(cpu_usage_from(&vec![1000, 1001]), 1000);
}

#[test]
fn cpu_usage_zero_cores_reads_zero() {
    assert_eq!(cpu_usage_from(&vec![]), 0);
}

#[test]
fn memory_usage_is_used_over_total() {
    // 500 of 1000 bytes used: 50.00%.
    assert_eq!(memory_usage_from(500, 1000), 5000);
    assert_eq!(memory_usage_from(1000, 1000), 10000);
    assert_eq!(memory_usage_from(1, 3), 3333);
    assert_eq!(memory_usage_from(0, 1000), 0);
}

#[test]
fn memory_usage_zero_total_reads_zero() {
    assert_eq!(memory_usage_from(123, 0), 0);
}

#[test]
fn memory_usage_never_over_hundred_percent() {
    assert_eq!(memory_usage_from(2000, 1000), 10000);
    assert_eq!(memory_usage_from(u64::MAX, 1), 10000);
}

#[test]
fn temperature_placeholder_when_no_sensor_matches() {
    let sensors = vec![sensor("SSD1 Temp", 3100), sensor("WiFi Temp", 5200)];
    assert_eq!(temperature_from(&sensors), 4500);
}

#[test]
fn temperature_reports_first_matching_sensor() {
    let sensors = vec![sensor("CPU Package", 6125), sensor("Core 0", 5900)];
    assert_eq!(temperature_from(&sensors), 6125);
}

#[test]
fn temperature_matching_is_case_insensitive() {
    assert_eq!(temperature_from(&vec![sensor("cpu core", 3300)]), 3300);
    assert_eq!(temperature_from(&vec![sensor("k10temp Package", 2800)]), 2800);
    // The first match wins, wherever it stands in the list.
    let sensors = vec![sensor("nvme composite", 4100), sensor("Tctl cPu", -500)];
    assert_eq!(temperature_from(&sensors), -500);
}

#[test]
fn temperature_empty_sensor_list_reads_placeholder() {
    assert_eq!(temperature_from(&vec![]), 4500);
}

#[test]
fn label_predicate_matches_substrings() {
    assert!(label_is_cpu(&"CPU Package".as_bytes().to_vec()));
    assert!(label_is_cpu(&"package id 0".as_bytes().to_vec()));
    assert!(label_is_cpu(&"xxcpuxx".as_bytes().to_vec()));
    assert!(!label_is_cpu(&"SSD1 Temp".as_bytes().to_vec()));
    assert!(!label_is_cpu(&"CP U".as_bytes().to_vec()));
    assert!(!label_is_cpu(&"".as_bytes().to_vec()));
}

#[test]
fn disk_usage_first_disk() {
    // total=1000, available=250: 75.00% used.
    let disks = vec![DiskSpace { total: 1000, available: 250 }];
    assert_eq!(disk_usage_from(&disks), 7500);
    // Only the first enumerated disk counts.
    let disks = vec![
        DiskSpace { total: 1000, available: 1000 },
        DiskSpace { total: 10, available: 0 },
    ];
    assert_eq!(disk_usage_from(&disks), 0);
}

#[test]
fn disk_usage_empty_list_reads_zero() {
    assert_eq!(disk_usage_from(&vec![]), 0);
}

#[test]
fn disk_usage_zero_total_reads_zero() {
    assert_eq!(disk_usage_from(&vec![DiskSpace { total: 0, available: 0 }]), 0);
}

#[test]
fn disk_usage_never_negative() {
    let disks = vec![DiskSpace { total: 100, available: 150 }];
    assert_eq!(disk_usage_from(&disks), 0);
}

#[test]
fn gpu_readings_scale_to_hundredths() {
    assert_eq!(gpu_usage_from(Some(55)), 5500);
    assert_eq!(gpu_temp_from(Some(61)), 6100);
}

#[test]
fn gpu_power_milliwatts_to_watts() {
    // 150000 mW is exactly 150.00 W.
    assert_eq!(gpu_power_from(Some(150000)), 15000);
    assert_eq!(gpu_power_from(Some(999)), 99);
}

#[test]
fn gpu_absent_reads_zero() {
    assert_eq!(gpu_usage_from(None), 0);
    assert_eq!(gpu_temp_from(None), 0);
    assert_eq!(gpu_power_from(None), 0);
}

#[test]
fn collector_without_gpu_reads_zero_on_all_gpu_metrics() {
    let c = CPU::without_gpu();
    assert!(!c.has_gpu());
    assert_eq!(c.get_gpu_usage(), 0);
    assert_eq!(c.get_gpu_temp(), 0);
    assert_eq!(c.get_gpu_power(), 0);
}

#[test]
fn collector_construction_never_fails() {
    let mut c = CPU::new();
    // Whatever hardware is present, every percentage getter stays in range
    // and the GPU capability is fixed across refreshes.
    let had_gpu = c.has_gpu();
    c.refresh();
    assert_eq!(c.has_gpu(), had_gpu);
    assert!(c.get_memory_usage() <= 10000);
    assert!(c.get_disk_usage() <= 10000);
}

#[test]
fn collector_getters_read_cached_state() {
    let mut c = CPU::without_gpu();
    // Nothing cached yet: the fallbacks.
    assert_eq!(c.get_cpu_usage(), 0);
    assert_eq!(c.get_temperature(), 4500);
    c.set_cpu_readings(vec![2000, 4000]);
    c.set_sensor_readings(vec![sensor("CPU Package", 5150)]);
    assert_eq!(c.get_cpu_usage(), 3000);
    assert_eq!(c.get_temperature(), 5150);
}

#[test]
fn collector_reads_are_stable_on_unchanged_state() {
    let mut c = CPU::without_gpu();
    c.set_cpu_readings(vec![1234, 4321]);
    c.set_sensor_readings(vec![sensor("SSD1 Temp", 3000)]);
    assert_eq!(c.get_cpu_usage(), c.get_cpu_usage());
    assert_eq!(c.get_temperature(), c.get_temperature());
    assert_eq!(c.get_temperature(), 4500);
    assert_eq!(c.get_gpu_usage(), c.get_gpu_usage());
}
