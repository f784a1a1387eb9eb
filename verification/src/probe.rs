//! The trusted boundary to the operating-system and GPU driver probes.
//!
//! Every reading the collector works from enters through one of the wrappers
//! here. Each probe samples live machine state, so no wrapper promises
//! anything about the values it hands back: the verified metric functions in
//! [`crate::metrics`] say what the collector reports for every value a probe
//! could return.

use vstd::prelude::*;

use crate::metrics::DiskSpace;

verus! {

#[verifier::external_type_specification]
#[verifier::external_body]
pub struct ExSystem(sysinfo::System);

#[verifier::external_type_specification]
#[verifier::external_body]
pub struct ExDisks(sysinfo::Disks);

#[verifier::external_type_specification]
#[verifier::external_body]
pub struct ExDisk(sysinfo::Disk);

#[verifier::external_type_specification]
#[verifier::external_body]
pub struct ExNvml(nvml_wrapper::Nvml);

#[verifier::external_type_specification]
#[verifier::external_body]
pub struct ExDevice<'nvml>(nvml_wrapper::Device<'nvml>);

/// Relies on sysinfo::System::new_all: a handle on this machine's CPU and
/// memory state, with every subsystem sampled once.
#[verifier::external_body]
pub(crate) fn system_new_all() -> sysinfo::System {
    sysinfo::System::new_all()
}

/// Relies on sysinfo::System::refresh_all: re-samples every subsystem behind
/// the handle.
#[verifier::external_body]
pub(crate) fn system_refresh_all(system: &mut sysinfo::System) {
    system.refresh_all();
}

/// Relies on sysinfo::System::refresh_memory: re-samples RAM and swap.
#[verifier::external_body]
pub(crate) fn system_refresh_memory(system: &mut sysinfo::System) {
    system.refresh_memory();
}

/// Relies on sysinfo::System::total_memory: the RAM size in bytes.
#[verifier::external_body]
pub(crate) fn system_total_memory(system: &sysinfo::System) -> u64 {
    system.total_memory()
}

/// Relies on sysinfo::System::used_memory: the amount of used RAM in bytes.
#[verifier::external_body]
pub(crate) fn system_used_memory(system: &sysinfo::System) -> u64 {
    system.used_memory()
}

/// Relies on sysinfo::Disks::new_with_refreshed_list: the enumerated disks,
/// each sampled once.
#[verifier::external_body]
pub(crate) fn disks_new_refreshed() -> sysinfo::Disks {
    sysinfo::Disks::new_with_refreshed_list()
}

/// Relies on sysinfo::Disks::refresh: re-samples the enumerated disks.
#[verifier::external_body]
pub(crate) fn disks_refresh(disks: &mut sysinfo::Disks) {
    disks.refresh();
}

/// Relies on sysinfo::Disks::list, sysinfo::Disk::total_space and
/// sysinfo::Disk::available_space: each enumerated disk's total and
/// available space in bytes, in enumeration order.
#[verifier::external_body]
pub(crate) fn disk_spaces(disks: &sysinfo::Disks) -> Vec<DiskSpace> {
    disks.list().iter().map(
        |d: &sysinfo::Disk|
            DiskSpace { total: d.total_space(), available: d.available_space() },
    ).collect()
}

/// Relies on nvml_wrapper::Nvml::init: a handle to the vendor GPU driver, or
/// `None` when the driver is not running, not permitted or otherwise
/// unusable.
#[verifier::external_body]
pub(crate) fn nvml_init() -> Option<nvml_wrapper::Nvml> {
    nvml_wrapper::Nvml::init().ok()
}

/// Relies on nvml_wrapper::Nvml::device_by_index: the first enumerated GPU,
/// or `None` when there is none or it cannot be queried.
#[verifier::external_body]
pub(crate) fn nvml_first_device<'nvml>(nvml: &'nvml nvml_wrapper::Nvml) -> Option<
    nvml_wrapper::Device<'nvml>,
> {
    nvml.device_by_index(0).ok()
}

/// Relies on nvml_wrapper::Device::utilization_rates: the share of the past
/// sample period the device spent running kernels, in whole percent, or
/// `None` when the query fails.
#[verifier::external_body]
pub(crate) fn device_gpu_utilization(device: &nvml_wrapper::Device<'_>) -> Option<u32> {
    device.utilization_rates().ok().map(|u| u.gpu)
}

/// Relies on nvml_wrapper::Device::temperature: the device's GPU die sensor
/// reading in whole degrees Celsius, or `None` when the query fails.
#[verifier::external_body]
pub(crate) fn device_gpu_temperature(device: &nvml_wrapper::Device<'_>) -> Option<u32> {
    device.temperature(nvml_wrapper::enum_wrappers::device::TemperatureSensor::Gpu).ok()
}

/// Relies on nvml_wrapper::Device::power_usage: the device's power draw in
/// milliwatts, or `None` when the query fails.
#[verifier::external_body]
pub(crate) fn device_power_usage(device: &nvml_wrapper::Device<'_>) -> Option<u32> {
    device.power_usage().ok()
}

} // verus!
