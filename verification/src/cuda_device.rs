//! A mining device on an NVIDIA GPU through CUDA. CUDA itself is not wired
//! in yet: context set-up and kernel compilation succeed without doing
//! anything, and tuning requests are accepted.

use vstd::prelude::*;
use vstd::std_specs::convert::FromSpecImpl;
use crate::types::{
    DeviceConfig, DeviceError, DeviceInfo, DeviceStats, DeviceStatus, MiningResult,
    MiningResultView, Work, WorkView, system_now,
};
use crate::device::{results_view, work_view};

verus! {

/// Description of a CUDA device.
#[derive(Debug)]
pub struct CudaDeviceInfo {
    pub device_id: u32,
    pub name: String,
    pub compute_capability: (u32, u32),
    pub total_memory: u64,
    pub multiprocessor_count: u32,
    pub max_threads_per_block: u32,
    pub max_blocks_per_multiprocessor: u32,
}

/// An NVIDIA CUDA GPU mining device.
pub struct CudaDevice {
    device_info: DeviceInfo,
    config: DeviceConfig,
    stats: DeviceStats,
    cuda_info: CudaDeviceInfo,
    running: bool,
    current_work: Option<Work>,
    start_time: Option<std::time::SystemTime>,
    result_queue: Vec<MiningResult>,
}

/// What a CUDA device holds.
pub struct CudaDeviceView {
    pub info: DeviceInfo,
    pub config: DeviceConfig,
    pub stats: DeviceStats,
    pub cuda_info: CudaDeviceInfo,
    pub running: bool,
    pub current_work: Option<WorkView>,
    pub queue: Seq<MiningResultView>,
}

impl View for CudaDevice {
    type V = CudaDeviceView;

    closed spec fn view(&self) -> CudaDeviceView {
        CudaDeviceView {
            info: self.device_info,
            config: self.config,
            stats: self.stats,
            cuda_info: self.cuda_info,
            running: self.running,
            current_work: work_view(self.current_work),
            queue: results_view(self.result_queue@),
        }
    }
}

impl CudaDevice {
    /// A stopped device with no work and an empty queue. Always succeeds.
    pub fn new(device_info: DeviceInfo, config: DeviceConfig, cuda_info: CudaDeviceInfo) -> (r:
        Result<CudaDevice, DeviceError>)
        ensures
            r matches Ok(d) && d@.info == device_info && d@.config == config && d@.stats
                == DeviceStats::new_spec(device_info.id) && d@.cuda_info == cuda_info && !d@.running
                && d@.current_work is None && d@.queue == Seq::<MiningResultView>::empty(),
    {
        let stats = DeviceStats::new(device_info.id);
        let d = CudaDevice {
            device_info,
            config,
            stats,
            cuda_info,
            running: false,
            current_work: None,
            start_time: None,
            result_queue: Vec::new(),
        };
        assert(d@.queue =~= Seq::<MiningResultView>::empty());
        Ok(d)
    }

    /// The CUDA device description.
    pub fn get_cuda_info(&self) -> (r: &CudaDeviceInfo)
        ensures
            *r == self@.cuda_info,
    {
        &self.cuda_info
    }

    /// The nonce batch size: four waves of full blocks on every
    /// multiprocessor.
    pub fn get_optimal_work_size(&self) -> (r: u32)
        requires
            self@.cuda_info.max_threads_per_block * self@.cuda_info.multiprocessor_count * 4
                <= u32::MAX,
        ensures
            r == self@.cuda_info.max_threads_per_block * self@.cuda_info.multiprocessor_count * 4,
    {
        let threads_per_block = self.cuda_info.max_threads_per_block;
        let multiprocessors = self.cuda_info.multiprocessor_count;
        proof {
            assert(threads_per_block * multiprocessors <= threads_per_block * multiprocessors * 4)
                by (nonlinear_arith);
        }
        threads_per_block * multiprocessors * 4
    }

    /// The device identifier.
    pub fn device_id(&self) -> (r: u32)
        ensures
            r == self@.info.id,
    {
        self.device_info.id
    }

    /// A copy of the device description. Always succeeds.
    pub fn get_info(&self) -> (r: Result<DeviceInfo, DeviceError>)
        ensures
            r matches Ok(i) && i == self@.info,
    {
        Ok(self.device_info.duplicate())
    }

    /// Stores the configuration and sets up CUDA. Always succeeds.
    pub fn initialize(&mut self, config: DeviceConfig) -> (r: Result<(), DeviceError>)
        ensures
            r is Ok,
            final(self)@ == (CudaDeviceView { config, ..old(self)@ }),
    {
        self.config = config;
        Ok(())
    }

    /// Starts mining; starting a running device does nothing. Always
    /// succeeds.
    pub fn start(&mut self) -> (r: Result<(), DeviceError>)
        ensures
            r is Ok,
            final(self)@ == (CudaDeviceView { running: true, ..old(self)@ }),
    {
        if self.running {
            return Ok(());
        }
        self.running = true;
        self.start_time = Some(system_now());
        Ok(())
    }

    /// Stops mining. Always succeeds.
    pub fn stop(&mut self) -> (r: Result<(), DeviceError>)
        ensures
            r is Ok,
            final(self)@ == (CudaDeviceView { running: false, ..old(self)@ }),
    {
        self.running = false;
        Ok(())
    }

    /// Stops, then starts. Always succeeds and leaves the device running.
    pub fn restart(&mut self) -> (r: Result<(), DeviceError>)
        ensures
            r is Ok,
            final(self)@ == (CudaDeviceView { running: true, ..old(self)@ }),
    {
        self.stop()?;
        self.start()?;
        Ok(())
    }

    /// Makes `work` the current work. Always succeeds.
    pub fn submit_work(&mut self, work: Work) -> (r: Result<(), DeviceError>)
        ensures
            r is Ok,
            final(self)@ == (CudaDeviceView { current_work: Some(work@), ..old(self)@ }),
    {
        self.current_work = Some(work);
        Ok(())
    }

    /// Takes the most recently found share, if any. Always succeeds.
    pub fn get_result(&mut self) -> (r: Result<Option<MiningResult>, DeviceError>)
        ensures
            old(self)@.queue.len() == 0 ==> (r matches Ok(None) && final(self)@ == old(self)@),
            old(self)@.queue.len() > 0 ==> (r matches Ok(Some(res)) && res@ == old(self)@.queue.last()
                && final(self)@ == (CudaDeviceView { queue: old(self)@.queue.drop_last(), ..old(self)@ })),
    {
        let ghost q = self.result_queue@;
        let r = self.result_queue.pop();
        proof {
            if q.len() > 0 {
                assert(results_view(self.result_queue@) =~= results_view(q).drop_last());
            }
        }
        Ok(r)
    }

    /// Running or idle. Always succeeds.
    pub fn get_status(&self) -> (r: Result<DeviceStatus, DeviceError>)
        ensures
            r matches Ok(s) && s == if self@.running {
                DeviceStatus::Running
            } else {
                DeviceStatus::Idle
            },
    {
        if self.running {
            Ok(DeviceStatus::Running)
        } else {
            Ok(DeviceStatus::Idle)
        }
    }

    /// The counters. Always succeeds.
    pub fn get_stats(&self) -> (r: Result<DeviceStats, DeviceError>)
        ensures
            r matches Ok(s) && s == self@.stats,
    {
        Ok(self.stats)
    }

    /// Accepts a core frequency (in MHz). Always succeeds.
    pub fn set_frequency(&mut self, frequency: u32) -> (r: Result<(), DeviceError>)
        ensures
            r is Ok,
            final(self)@ == old(self)@,
    {
        Ok(())
    }

    /// Accepts a core voltage (in mV). Always succeeds.
    pub fn set_voltage(&mut self, voltage: u32) -> (r: Result<(), DeviceError>)
        ensures
            r is Ok,
            final(self)@ == old(self)@,
    {
        Ok(())
    }

    /// Accepts a fan speed (in percent). Always succeeds.
    pub fn set_fan_speed(&mut self, speed: u32) -> (r: Result<(), DeviceError>)
        ensures
            r is Ok,
            final(self)@ == old(self)@,
    {
        Ok(())
    }

    /// Stops and initializes again with the stored configuration; the
    /// device stays stopped. Always succeeds.
    pub fn reset(&mut self) -> (r: Result<(), DeviceError>)
        ensures
            r is Ok,
            final(self)@ == (CudaDeviceView { running: false, ..old(self)@ }),
    {
        self.stop()?;
        let config = self.config;
        self.initialize(config)?;
        Ok(())
    }

    /// Healthy when running. Always succeeds.
    pub fn health_check(&self) -> (r: Result<bool, DeviceError>)
        ensures
            r matches Ok(h) && h == self@.running,
    {
        Ok(self.running)
    }
}

/// Errors of the CUDA backend.
#[derive(Debug, Clone)]
pub enum CudaError {
    InitializationFailed(String),
    KernelCompilationFailed(String),
    ExecutionFailed(String),
    Unsupported(String),
}

impl From<CudaError> for DeviceError {
    fn from(error: CudaError) -> (r: DeviceError) {
        match error {
            CudaError::InitializationFailed(msg) => DeviceError::InitializationFailed(msg),
            CudaError::KernelCompilationFailed(msg) => DeviceError::Runtime(msg),
            CudaError::ExecutionFailed(msg) => DeviceError::Runtime(msg),
            CudaError::Unsupported(msg) => DeviceError::UnsupportedOperation(msg),
        }
    }
}

impl FromSpecImpl<CudaError> for DeviceError {
    open spec fn obeys_from_spec() -> bool {
        true
    }

    open spec fn from_spec(error: CudaError) -> DeviceError {
        match error {
            CudaError::InitializationFailed(msg) => DeviceError::InitializationFailed(msg),
            CudaError::KernelCompilationFailed(msg) => DeviceError::Runtime(msg),
            CudaError::ExecutionFailed(msg) => DeviceError::Runtime(msg),
            CudaError::Unsupported(msg) => DeviceError::UnsupportedOperation(msg),
        }
    }
}

} // verus!
