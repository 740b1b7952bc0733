//! A mining device on an AMD or Intel GPU through OpenCL. OpenCL itself is
//! not wired in yet: context set-up and kernel compilation succeed without
//! doing anything; tuning requests are accepted for AMD devices only.

use vstd::prelude::*;
use vstd::std_specs::convert::FromSpecImpl;
use crate::types::{
    DeviceConfig, DeviceError, DeviceInfo, DeviceStats, DeviceStatus, MiningResult,
    MiningResultView, Work, WorkView, system_now,
};
use crate::device::{is_unsupported, results_view, work_view};
use crate::text::{contains_ignore_ascii_case, contains_seq, lower_seq};

verus! {

/// Description of an OpenCL device.
#[derive(Debug, Clone)]
pub struct OpenClDeviceInfo {
    pub device_id: u32,
    pub name: String,
    pub vendor: String,
    pub device_type: String,
    pub max_compute_units: u32,
    pub max_work_group_size: u64,
    pub global_memory_size: u64,
    pub local_memory_size: u64,
    pub opencl_version: String,
}

/// The vendor names an AMD device (case-insensitively "amd" or "advanced
/// micro devices").
pub open spec fn vendor_is_amd(vendor: Seq<char>) -> bool {
    contains_seq(lower_seq(vendor), "amd"@) || contains_seq(lower_seq(vendor), "advanced micro devices"@)
}

/// The vendor names an Intel device.
pub open spec fn vendor_is_intel(vendor: Seq<char>) -> bool {
    contains_seq(lower_seq(vendor), "intel"@)
}

/// The vendor names an NVIDIA device.
pub open spec fn vendor_is_nvidia(vendor: Seq<char>) -> bool {
    contains_seq(lower_seq(vendor), "nvidia"@)
}

/// An AMD/Intel OpenCL GPU mining device.
pub struct OpenClDevice {
    device_info: DeviceInfo,
    config: DeviceConfig,
    stats: DeviceStats,
    opencl_info: OpenClDeviceInfo,
    running: bool,
    current_work: Option<Work>,
    start_time: Option<std::time::SystemTime>,
    result_queue: Vec<MiningResult>,
}

/// What an OpenCL device holds.
pub struct OpenClDeviceView {
    pub info: DeviceInfo,
    pub config: DeviceConfig,
    pub stats: DeviceStats,
    pub opencl_info: OpenClDeviceInfo,
    pub running: bool,
    pub current_work: Option<WorkView>,
    pub queue: Seq<MiningResultView>,
}

impl View for OpenClDevice {
    type V = OpenClDeviceView;

    closed spec fn view(&self) -> OpenClDeviceView {
        OpenClDeviceView {
            info: self.device_info,
            config: self.config,
            stats: self.stats,
            opencl_info: self.opencl_info,
            running: self.running,
            current_work: work_view(self.current_work),
            queue: results_view(self.result_queue@),
        }
    }
}

impl OpenClDevice {
    /// A stopped device with no work and an empty queue. Always succeeds.
    pub fn new(device_info: DeviceInfo, config: DeviceConfig, opencl_info: OpenClDeviceInfo) -> (r:
        Result<OpenClDevice, DeviceError>)
        ensures
            r matches Ok(d) && d@.info == device_info && d@.config == config && d@.stats
                == DeviceStats::new_spec(device_info.id) && d@.opencl_info == opencl_info && !d@.running
                && d@.current_work is None && d@.queue == Seq::<MiningResultView>::empty(),
    {
        let stats = DeviceStats::new(device_info.id);
        let d = OpenClDevice {
            device_info,
            config,
            stats,
            opencl_info,
            running: false,
            current_work: None,
            start_time: None,
            result_queue: Vec::new(),
        };
        assert(d@.queue =~= Seq::<MiningResultView>::empty());
        Ok(d)
    }

    /// The OpenCL device description.
    pub fn get_opencl_info(&self) -> (r: &OpenClDeviceInfo)
        ensures
            *r == self@.opencl_info,
    {
        &self.opencl_info
    }

    /// The nonce batch size: the work-group size (as a `u32`) times the
    /// number of compute units, at most 32768.
    pub fn get_optimal_work_size(&self) -> (r: u32)
        requires
            (self@.opencl_info.max_work_group_size as u32) * self@.opencl_info.max_compute_units <= u32::MAX,
        ensures
            r == if (self@.opencl_info.max_work_group_size as u32) * self@.opencl_info.max_compute_units
                <= 32768 {
                (self@.opencl_info.max_work_group_size as u32) * self@.opencl_info.max_compute_units
            } else {
                32768
            },
    {
        let max_work_group_size = self.opencl_info.max_work_group_size as u32;
        let compute_units = self.opencl_info.max_compute_units;
        let size = max_work_group_size * compute_units;
        if size <= 32768 {
            size
        } else {
            32768
        }
    }

    /// Whether the vendor is AMD.
    pub fn is_amd_device(&self) -> (r: bool)
        ensures
            r == vendor_is_amd(self@.opencl_info.vendor@),
    {
        contains_ignore_ascii_case(self.opencl_info.vendor.as_str(), "amd")
            || contains_ignore_ascii_case(self.opencl_info.vendor.as_str(), "advanced micro devices")
    }

    /// Whether the vendor is Intel.
    pub fn is_intel_device(&self) -> (r: bool)
        ensures
            r == vendor_is_intel(self@.opencl_info.vendor@),
    {
        contains_ignore_ascii_case(self.opencl_info.vendor.as_str(), "intel")
    }

    /// Whether the vendor is NVIDIA.
    pub fn is_nvidia_device(&self) -> (r: bool)
        ensures
            r == vendor_is_nvidia(self@.opencl_info.vendor@),
    {
        contains_ignore_ascii_case(self.opencl_info.vendor.as_str(), "nvidia")
    }

    /// The device identifier.
    pub fn device_id(&self) -> (r: u32)
        ensures
            r == self@.info.id,
    {
        self.device_info.id
    }

    /// A copy of the device description. Always succeeds.
    pub fn get_info(&self) -> (r: Result<DeviceInfo, DeviceError>)
        ensures
            r matches Ok(i) && i == self@.info,
    {
        Ok(self.device_info.duplicate())
    }

    /// Stores the configuration and sets up OpenCL. Always succeeds.
    pub fn initialize(&mut self, config: DeviceConfig) -> (r: Result<(), DeviceError>)
        ensures
            r is Ok,
            final(self)@ == (OpenClDeviceView { config, ..old(self)@ }),
    {
        self.config = config;
        Ok(())
    }

    /// Starts mining; starting a running device does nothing. Always
    /// succeeds.
    pub fn start(&mut self) -> (r: Result<(), DeviceError>)
        ensures
            r is Ok,
            final(self)@ == (OpenClDeviceView { running: true, ..old(self)@ }),
    {
        if self.running {
            return Ok(());
        }
        self.running = true;
        self.start_time = Some(system_now());
        Ok(())
    }

    /// Stops mining. Always succeeds.
    pub fn stop(&mut self) -> (r: Result<(), DeviceError>)
        ensures
            r is Ok,
            final(self)@ == (OpenClDeviceView { running: false, ..old(self)@ }),
    {
        self.running = false;
        Ok(())
    }

    /// Stops, then starts. Always succeeds and leaves the device running.
    pub fn restart(&mut self) -> (r: Result<(), DeviceError>)
        ensures
            r is Ok,
            final(self)@ == (OpenClDeviceView { running: true, ..old(self)@ }),
    {
        self.stop()?;
        self.start()?;
        Ok(())
    }

    /// Makes `work` the current work. Always succeeds.
    pub fn submit_work(&mut self, work: Work) -> (r: Result<(), DeviceError>)
        ensures
            r is Ok,
            final(self)@ == (OpenClDeviceView { current_work: Some(work@), ..old(self)@ }),
    {
        self.current_work = Some(work);
        Ok(())
    }

    /// Takes the most recently found share, if any. Always succeeds.
    pub fn get_result(&mut self) -> (r: Result<Option<MiningResult>, DeviceError>)
        ensures
            old(self)@.queue.len() == 0 ==> (r matches Ok(None) && final(self)@ == old(self)@),
            old(self)@.queue.len() > 0 ==> (r matches Ok(Some(res)) && res@ == old(self)@.queue.last()
                && final(self)@ == (OpenClDeviceView { queue: old(self)@.queue.drop_last(), ..old(self)@ })),
    {
        let ghost q = self.result_queue@;
        let r = self.result_queue.pop();
        proof {
            if q.len() > 0 {
                assert(results_view(self.result_queue@) =~= results_view(q).drop_last());
            }
        }
        Ok(r)
    }

    /// Running or idle. Always succeeds.
    pub fn get_status(&self) -> (r: Result<DeviceStatus, DeviceError>)
        ensures
            r matches Ok(s) && s == if self@.running {
                DeviceStatus::Running
            } else {
                DeviceStatus::Idle
            },
    {
        if self.running {
            Ok(DeviceStatus::Running)
        } else {
            Ok(DeviceStatus::Idle)
        }
    }

    /// The counters. Always succeeds.
    pub fn get_stats(&self) -> (r: Result<DeviceStats, DeviceError>)
        ensures
            r matches Ok(s) && s == self@.stats,
    {
        Ok(self.stats)
    }

    /// Accepts a core frequency (in MHz) on an AMD device; other vendors' devices refuse
    /// it with "<vendor> OpenCL GPU 不支持频率设置".
    pub fn set_frequency(&mut self, frequency: u32) -> (r: Result<(), DeviceError>)
        ensures
            vendor_is_amd(old(self)@.opencl_info.vendor@) ==> r is Ok,
            !vendor_is_amd(old(self)@.opencl_info.vendor@) ==> (r matches Err(e) && is_unsupported(
                e,
                old(self)@.opencl_info.vendor@ + " OpenCL GPU 不支持频率设置"@,
            )),
            final(self)@ == old(self)@,
    {
        if self.is_amd_device() {
            Ok(())
        } else {
            let msg = self.opencl_info.vendor.clone().concat(" OpenCL GPU 不支持频率设置");
            Err(DeviceError::UnsupportedOperation(msg))
        }
    }

    /// Accepts a core voltage (in mV) on an AMD device; other vendors' devices refuse
    /// it with "<vendor> OpenCL GPU 不支持电压设置".
    pub fn set_voltage(&mut self, voltage: u32) -> (r: Result<(), DeviceError>)
        ensures
            vendor_is_amd(old(self)@.opencl_info.vendor@) ==> r is Ok,
            !vendor_is_amd(old(self)@.opencl_info.vendor@) ==> (r matches Err(e) && is_unsupported(
                e,
                old(self)@.opencl_info.vendor@ + " OpenCL GPU 不支持电压设置"@,
            )),
            final(self)@ == old(self)@,
    {
        if self.is_amd_device() {
            Ok(())
        } else {
            let msg = self.opencl_info.vendor.clone().concat(" OpenCL GPU 不支持电压设置");
            Err(DeviceError::UnsupportedOperation(msg))
        }
    }

    /// Accepts a fan speed (in percent) on an AMD device; other vendors' devices refuse
    /// it with "<vendor> OpenCL GPU 不支持风扇控制".
    pub fn set_fan_speed(&mut self, speed: u32) -> (r: Result<(), DeviceError>)
        ensures
            vendor_is_amd(old(self)@.opencl_info.vendor@) ==> r is Ok,
            !vendor_is_amd(old(self)@.opencl_info.vendor@) ==> (r matches Err(e) && is_unsupported(
                e,
                old(self)@.opencl_info.vendor@ + " OpenCL GPU 不支持风扇控制"@,
            )),
            final(self)@ == old(self)@,
    {
        if self.is_amd_device() {
            Ok(())
        } else {
            let msg = self.opencl_info.vendor.clone().concat(" OpenCL GPU 不支持风扇控制");
            Err(DeviceError::UnsupportedOperation(msg))
        }
    }

    /// Stops and initializes again with the stored configuration; the
    /// device stays stopped. Always succeeds.
    pub fn reset(&mut self) -> (r: Result<(), DeviceError>)
        ensures
            r is Ok,
            final(self)@ == (OpenClDeviceView { running: false, ..old(self)@ }),
    {
        self.stop()?;
        let config = self.config;
        self.initialize(config)?;
        Ok(())
    }

    /// Healthy when running. Always succeeds.
    pub fn health_check(&self) -> (r: Result<bool, DeviceError>)
        ensures
            r matches Ok(h) && h == self@.running,
    {
        Ok(self.running)
    }
}

/// Errors of the OpenCL backend.
#[derive(Debug, Clone)]
pub enum OpenClError {
    InitializationFailed(String),
    KernelCompilationFailed(String),
    ExecutionFailed(String),
    Unsupported(String),
}

impl From<OpenClError> for DeviceError {
    fn from(error: OpenClError) -> (r: DeviceError) {
        match error {
            OpenClError::InitializationFailed(msg) => DeviceError::InitializationFailed(msg),
            OpenClError::KernelCompilationFailed(msg) => DeviceError::Runtime(msg),
            OpenClError::ExecutionFailed(msg) => DeviceError::Runtime(msg),
            OpenClError::Unsupported(msg) => DeviceError::UnsupportedOperation(msg),
        }
    }
}

impl FromSpecImpl<OpenClError> for DeviceError {
    open spec fn obeys_from_spec() -> bool {
        true
    }

    open spec fn from_spec(error: OpenClError) -> DeviceError {
        match error {
            OpenClError::InitializationFailed(msg) => DeviceError::InitializationFailed(msg),
            OpenClError::KernelCompilationFailed(msg) => DeviceError::Runtime(msg),
            OpenClError::ExecutionFailed(msg) => DeviceError::Runtime(msg),
            OpenClError::Unsupported(msg) => DeviceError::UnsupportedOperation(msg),
        }
    }
}

} // verus!
