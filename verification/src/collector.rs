//! The telemetry collector.
//!
//! One collector is built per session. Construction resolves the GPU
//! capability exactly once: the vendor driver handshake is attempted, and on
//! any failure the backend is recorded absent for the collector's lifetime.
//! Each getter reports one metric as a fixed-point integer in hundredths of
//! its unit and falls back to a defined default when the hardware behind it
//! is absent or unreadable.
//!
//! Per-core CPU usage and thermal sensor values are sampled by the host's
//! probe layer (the operating system reports them as floating-point) and
//! handed in as fixed-point readings through the two `set_` methods; the
//! zero-argument getters then read those caches.

use vstd::prelude::*;

use crate::metrics::SensorReading;
use crate::metrics::cpu_usage_from;
use crate::metrics::cpu_usage_spec;
use crate::metrics::disk_usage_from;
use crate::metrics::gpu_power_from;
use crate::metrics::gpu_power_spec;
use crate::metrics::gpu_temp_from;
use crate::metrics::gpu_temp_spec;
use crate::metrics::gpu_usage_from;
use crate::metrics::gpu_usage_spec;
use crate::metrics::memory_usage_from;
use crate::metrics::temperature_from;
use crate::metrics::temperature_spec;
use crate::probe::device_gpu_temperature;
use crate::probe::device_gpu_utilization;
use crate::probe::device_power_usage;
use crate::probe::disk_spaces;
use crate::probe::disks_new_refreshed;
use crate::probe::disks_refresh;
use crate::probe::nvml_first_device;
use crate::probe::nvml_init;
use crate::probe::system_new_all;
use crate::probe::system_refresh_all;
use crate::probe::system_refresh_memory;
use crate::probe::system_total_memory;
use crate::probe::system_used_memory;

verus! {

/// The collector: handles on the machine's CPU/memory state and disk list,
/// the one-shot GPU capability, and the host-fed caches of per-core usage
/// and thermal readings.
pub struct CPU {
    system: sysinfo::System,
    disks: sysinfo::Disks,
    nvml: Option<nvml_wrapper::Nvml>,
    cpu_readings: Vec<u32>,
    sensors: Vec<SensorReading>,
}

impl CPU {
    /// Whether the one-shot GPU capability probe succeeded at construction.
    pub closed spec fn gpu_present(&self) -> bool {
        self.nvml is Some
    }

    /// The cached per-core usage readings, in hundredths of a percent.
    pub closed spec fn cpu_readings_view(&self) -> Seq<u32> {
        self.cpu_readings@
    }

    /// The cached thermal sensor readings.
    pub closed spec fn sensors_view(&self) -> Seq<SensorReading> {
        self.sensors@
    }

    /// Builds a Ready collector: samples every operating-system subsystem
    /// once and makes the one-shot attempt to reach the GPU driver.
    /// Construction never fails; on a machine without a usable driver the
    /// collector simply records the backend absent.
    pub fn new() -> (c: CPU)
        ensures
            c.cpu_readings_view() =~= Seq::<u32>::empty(),
            c.sensors_view() =~= Seq::<SensorReading>::empty(),
    {
        let system = system_new_all();
        let disks = disks_new_refreshed();
        let nvml = nvml_init();
        CPU { system, disks, nvml, cpu_readings: Vec::new(), sensors: Vec::new() }
    }

    /// Builds a collector that skips the GPU handshake altogether: the
    /// backend is recorded absent for the collector's lifetime, exactly as
    /// on a machine without the vendor driver.
    pub fn without_gpu() -> (c: CPU)
        ensures
            !c.gpu_present(),
            c.cpu_readings_view() =~= Seq::<u32>::empty(),
            c.sensors_view() =~= Seq::<SensorReading>::empty(),
    {
        let system = system_new_all();
        let disks = disks_new_refreshed();
        CPU { system, disks, nvml: None, cpu_readings: Vec::new(), sensors: Vec::new() }
    }

    /// Whether a GPU backend is present. Fixed at construction: no getter
    /// re-attempts the driver handshake.
    pub fn has_gpu(&self) -> (r: bool)
        ensures
            r == self.gpu_present(),
    {
        self.nvml.is_some()
    }

    /// Re-samples the operating-system subsystems together. The GPU
    /// capability and the host-fed caches do not move: a backend recorded
    /// absent stays absent.
    pub fn refresh(&mut self)
        ensures
            final(self).gpu_present() == old(self).gpu_present(),
            final(self).cpu_readings_view() == old(self).cpu_readings_view(),
            final(self).sensors_view() == old(self).sensors_view(),
    {
        system_refresh_all(&mut self.system);
        disks_refresh(&mut self.disks);
    }

    /// Caches the per-core usage readings, in hundredths of a percent, that
    /// the host's probe layer just sampled. Nothing else about the collector
    /// moves.
    pub fn set_cpu_readings(&mut self, readings: Vec<u32>)
        ensures
            final(self).cpu_readings_view() == readings@,
            final(self).sensors_view() == old(self).sensors_view(),
            final(self).gpu_present() == old(self).gpu_present(),
    {
        self.cpu_readings = readings;
    }

    /// Caches the thermal sensor readings that the host's probe layer just
    /// sampled. Nothing else about the collector moves.
    pub fn set_sensor_readings(&mut self, sensors: Vec<SensorReading>)
        ensures
            final(self).sensors_view() == sensors@,
            final(self).cpu_readings_view() == old(self).cpu_readings_view(),
            final(self).gpu_present() == old(self).gpu_present(),
    {
        self.sensors = sensors;
    }

    /// CPU usage in hundredths of a percent: the arithmetic mean of the
    /// cached per-core readings, `0` when no core is cached.
    pub fn get_cpu_usage(&self) -> (r: u64)
        ensures
            r as int == cpu_usage_spec(self.cpu_readings_view()),
    {
        cpu_usage_from(&self.cpu_readings)
    }

    /// Memory usage in hundredths of a percent, from a fresh memory probe:
    /// used over total bytes, `0` when the reported total is zero. Whatever
    /// the probe reports, the result is a percentage, and neither the GPU
    /// capability nor the host-fed caches move.
    pub fn get_memory_usage(&mut self) -> (r: u64)
        ensures
            r <= 10000,
            final(self).gpu_present() == old(self).gpu_present(),
            final(self).cpu_readings_view() == old(self).cpu_readings_view(),
            final(self).sensors_view() == old(self).sensors_view(),
    {
        system_refresh_memory(&mut self.system);
        let total: u64 = system_total_memory(&self.system);
        let used: u64 = system_used_memory(&self.system);
        memory_usage_from(used, total)
    }

    /// Temperature in hundredths of a degree Celsius: the first cached
    /// sensor whose label names the processor, or the fixed placeholder when
    /// none does.
    pub fn get_temperature(&self) -> (r: i64)
        ensures
            r == temperature_spec(self.sensors_view()),
    {
        temperature_from(&self.sensors)
    }

    /// Disk usage in hundredths of a percent, from a fresh disk probe: the
    /// share of the first enumerated disk's space not available, `0` when no
    /// disk is enumerated or its total is zero. Whatever the probe reports,
    /// the result is a percentage, and neither the GPU capability nor the
    /// host-fed caches move.
    pub fn get_disk_usage(&mut self) -> (r: u64)
        ensures
            r <= 10000,
            final(self).gpu_present() == old(self).gpu_present(),
            final(self).cpu_readings_view() == old(self).cpu_readings_view(),
            final(self).sensors_view() == old(self).sensors_view(),
    {
        disks_refresh(&mut self.disks);
        let spaces = disk_spaces(&self.disks);
        disk_usage_from(&spaces)
    }

    /// GPU usage in hundredths of a percent, from one backend query of the
    /// first device: exactly `0` when the backend is absent, and the
    /// absent-backend default as well when the per-call query fails.
    pub fn get_gpu_usage(&self) -> (r: u64)
        ensures
            !self.gpu_present() ==> r == 0,
            exists|q: Option<u32>| r as int == gpu_usage_spec(q),
    {
        match &self.nvml {
            None => {
                proof {
                    assert(0int == gpu_usage_spec(Option::<u32>::None));
                }
                0
            },
            Some(nvml) => {
                let reading: Option<u32> = match nvml_first_device(nvml) {
                    None => None,
                    Some(device) => device_gpu_utilization(&device),
                };
                gpu_usage_from(reading)
            },
        }
    }

    /// GPU temperature in hundredths of a degree Celsius, from one backend
    /// query of the first device: exactly `0` when the backend is absent,
    /// and the absent-backend default as well when the per-call query fails.
    pub fn get_gpu_temp(&self) -> (r: i64)
        ensures
            !self.gpu_present() ==> r == 0,
            exists|q: Option<u32>| r as int == gpu_temp_spec(q),
    {
        match &self.nvml {
            None => {
                proof {
                    assert(0int == gpu_temp_spec(Option::<u32>::None));
                }
                0
            },
            Some(nvml) => {
                let reading: Option<u32> = match nvml_first_device(nvml) {
                    None => None,
                    Some(device) => device_gpu_temperature(&device),
                };
                gpu_temp_from(reading)
            },
        }
    }

    /// GPU power in hundredths of a watt, from one backend query of the
    /// first device (the backend reports milliwatts): exactly `0` when the
    /// backend is absent, and the absent-backend default as well when the
    /// per-call query fails.
    pub fn get_gpu_power(&self) -> (r: u64)
        ensures
            !self.gpu_present() ==> r == 0,
            exists|q: Option<u32>| r as int == gpu_power_spec(q),
    {
        match &self.nvml {
            None => {
                proof {
                    assert(0int == gpu_power_spec(Option::<u32>::None));
                }
                0
            },
            Some(nvml) => {
                let reading: Option<u32> = match nvml_first_device(nvml) {
                    None => None,
                    Some(device) => device_power_usage(&device),
                };
                gpu_power_from(reading)
            },
        }
    }
}

} // verus!
