//! A mining device on an Apple GPU, backed by the Metal backend. Without
//! Metal support the backend cannot be opened, so creating such a device
//! fails; the device's bookkeeping is verified all the same.

use vstd::prelude::*;
use crate::types::{
    DeviceConfig, DeviceError, DeviceInfo, DeviceStats, DeviceStatus, MiningResult,
    MiningResultView, Work, WorkView, system_now,
};
use crate::metal_backend::{MetalBackend, MetalDeviceInfo, is_metal_disabled};
use crate::device::{is_unsupported, results_view, work_view};

verus! {

/// Pause of the Metal mining loop before its next kernel run, in
/// microseconds: 100 ms when there was no work, one second after a failed
/// run, and otherwise what is left of a 50 ms period after a run that took
/// `elapsed_micros`.
pub fn mining_pause_micros(had_work: bool, run_failed: bool, elapsed_micros: u64) -> (r: u64)
    ensures
        !had_work ==> r == 100_000,
        had_work && run_failed ==> r == 1_000_000,
        had_work && !run_failed ==> r == if elapsed_micros < 50_000 {
            50_000 - elapsed_micros
        } else {
            0
        },
{
    if !had_work {
        100_000
    } else if run_failed {
        1_000_000
    } else if elapsed_micros < 50_000 {
        50_000 - elapsed_micros
    } else {
        0
    }
}

/// A Mac Metal GPU mining device.
pub struct MetalDevice {
    device_info: DeviceInfo,
    config: DeviceConfig,
    stats: DeviceStats,
    metal_backend: MetalBackend,
    running: bool,
    current_work: Option<Work>,
    start_time: Option<std::time::SystemTime>,
    result_queue: Vec<MiningResult>,
    work_counter: u64,
}

/// What a Metal device holds.
pub struct MetalDeviceView {
    pub info: DeviceInfo,
    pub config: DeviceConfig,
    pub stats: DeviceStats,
    pub backend_info: MetalDeviceInfo,
    pub backend_initialized: bool,
    pub running: bool,
    pub current_work: Option<WorkView>,
    pub queue: Seq<MiningResultView>,
    pub work_counter: u64,
}

impl View for MetalDevice {
    type V = MetalDeviceView;

    closed spec fn view(&self) -> MetalDeviceView {
        MetalDeviceView {
            info: self.device_info,
            config: self.config,
            stats: self.stats,
            backend_info: self.metal_backend.spec_device_info(),
            backend_initialized: self.metal_backend.spec_is_initialized(),
            running: self.running,
            current_work: work_view(self.current_work),
            queue: results_view(self.result_queue@),
            work_counter: self.work_counter,
        }
    }
}

impl MetalDevice {
    /// Opens the Metal backend and compiles its shader. Without Metal
    /// support this always fails.
    pub fn new(device_info: DeviceInfo, config: DeviceConfig) -> (r: Result<MetalDevice, DeviceError>)
        ensures
            r matches Err(e) && is_metal_disabled(e),
    {
        let mut metal_backend = MetalBackend::new()?;
        metal_backend.initialize()?;
        let stats = DeviceStats::new(device_info.id);
        Ok(MetalDevice {
            device_info,
            config,
            stats,
            metal_backend,
            running: false,
            current_work: None,
            start_time: None,
            result_queue: Vec::new(),
            work_counter: 0,
        })
    }

    /// One kernel run of the mining loop over the current work, if there is
    /// any: the Metal backend mines a batch of its optimal work size (see
    /// [`MetalBackend::get_optimal_work_size`]) from nonce 0. Without Metal
    /// support the run fails.
    pub fn mine_current_work(&self) -> (r: Option<Result<Vec<MiningResult>, DeviceError>>)
        requires
            self@.backend_info.max_threads_per_threadgroup * 32 <= u32::MAX,
        ensures
            self@.current_work is None ==> r is None,
            self@.current_work is Some ==> (r matches Some(Err(e)) && is_metal_disabled(e)),
    {
        match &self.current_work {
            Some(w) => {
                let size = self.metal_backend.get_optimal_work_size();
                Some(self.metal_backend.mine(w, 0, size))
            },
            None => None,
        }
    }

    /// Records one iteration of the mining loop: the shares a kernel run
    /// found are queued; a failed run queues nothing.
    pub fn record_mining_outcome(&mut self, outcome: Result<Vec<MiningResult>, DeviceError>)
        ensures
            outcome matches Ok(v) ==> final(self)@.queue == old(self)@.queue + results_view(v@),
            outcome is Err ==> final(self)@.queue == old(self)@.queue,
            final(self)@ == (MetalDeviceView { queue: final(self)@.queue, ..old(self)@ }),
    {
        match outcome {
            Ok(mut found) => {
                let ghost q = self.result_queue@;
                let ghost f = found@;
                self.result_queue.append(&mut found);
                assert(results_view(self.result_queue@) =~= results_view(q) + results_view(f));
            },
            Err(_) => {},
        }
    }

    /// A copy of the Metal device description. Always succeeds.
    pub fn get_metal_info(&self) -> (r: Result<MetalDeviceInfo, DeviceError>)
        ensures
            r matches Ok(i) && i == self@.backend_info,
    {
        Ok(self.metal_backend.get_device_info().duplicate())
    }

    /// The device identifier.
    pub fn device_id(&self) -> (r: u32)
        ensures
            r == self@.info.id,
    {
        self.device_info.id
    }

    /// A copy of the device description. Always succeeds.
    pub fn get_info(&self) -> (r: Result<DeviceInfo, DeviceError>)
        ensures
            r matches Ok(i) && i == self@.info,
    {
        Ok(self.device_info.duplicate())
    }

    /// Stores the configuration and makes sure the backend is initialized;
    /// fails as backend initialization does.
    pub fn initialize(&mut self, config: DeviceConfig) -> (r: Result<(), DeviceError>)
        ensures
            old(self)@.backend_initialized ==> r is Ok,
            !old(self)@.backend_initialized ==> (r matches Err(e) && is_metal_disabled(e)),
            final(self)@ == (MetalDeviceView { config, ..old(self)@ }),
    {
        self.config = config;
        if !self.metal_backend.is_initialized() {
            self.metal_backend.initialize()?;
        }
        Ok(())
    }

    /// Starts mining; starting a running device does nothing. Always
    /// succeeds.
    pub fn start(&mut self) -> (r: Result<(), DeviceError>)
        ensures
            r is Ok,
            final(self)@ == (MetalDeviceView { running: true, ..old(self)@ }),
    {
        if self.running {
            return Ok(());
        }
        self.running = true;
        self.start_time = Some(system_now());
        Ok(())
    }

    /// Stops mining; stopping a stopped device does nothing. Always succeeds.
    pub fn stop(&mut self) -> (r: Result<(), DeviceError>)
        ensures
            r is Ok,
            final(self)@ == (MetalDeviceView { running: false, ..old(self)@ }),
    {
        if !self.running {
            return Ok(());
        }
        self.running = false;
        Ok(())
    }

    /// Stops, then starts. Always succeeds and leaves the device running.
    pub fn restart(&mut self) -> (r: Result<(), DeviceError>)
        ensures
            r is Ok,
            final(self)@ == (MetalDeviceView { running: true, ..old(self)@ }),
    {
        self.stop()?;
        self.start()?;
        Ok(())
    }

    /// Makes `work` the current work and counts it. Always succeeds.
    pub fn submit_work(&mut self, work: Work) -> (r: Result<(), DeviceError>)
        requires
            old(self)@.work_counter < u64::MAX,
        ensures
            r is Ok,
            final(self)@ == (MetalDeviceView {
                current_work: Some(work@),
                work_counter: (old(self)@.work_counter + 1) as u64,
                ..old(self)@
            }),
    {
        self.current_work = Some(work);
        self.work_counter = self.work_counter + 1;
        Ok(())
    }

    /// Takes the most recently found share, if any, relabelled with this
    /// device's identifier. Always succeeds.
    pub fn get_result(&mut self) -> (r: Result<Option<MiningResult>, DeviceError>)
        ensures
            old(self)@.queue.len() == 0 ==> (r matches Ok(None) && final(self)@ == old(self)@),
            old(self)@.queue.len() > 0 ==> (r matches Ok(Some(res)) && res@ == (MiningResultView {
                device_id: old(self)@.info.id,
                ..old(self)@.queue.last()
            }) && final(self)@ == (MetalDeviceView {
                queue: old(self)@.queue.drop_last(),
                ..old(self)@
            })),
    {
        let ghost q = self.result_queue@;
        match self.result_queue.pop() {
            Some(mut result) => {
                proof {
                    assert(results_view(self.result_queue@) =~= results_view(q).drop_last());
                }
                result.device_id = self.device_info.id;
                Ok(Some(result))
            },
            None => Ok(None),
        }
    }

    /// Running or idle. Always succeeds.
    pub fn get_status(&self) -> (r: Result<DeviceStatus, DeviceError>)
        ensures
            r matches Ok(s) && s == if self@.running {
                DeviceStatus::Running
            } else {
                DeviceStatus::Idle
            },
    {
        if self.running {
            Ok(DeviceStatus::Running)
        } else {
            Ok(DeviceStatus::Idle)
        }
    }

    /// The counters. Always succeeds.
    pub fn get_stats(&self) -> (r: Result<DeviceStats, DeviceError>)
        ensures
            r matches Ok(s) && s == self@.stats,
    {
        Ok(self.stats)
    }

    /// Frequency control is not supported.
    pub fn set_frequency(&mut self, frequency: u32) -> (r: Result<(), DeviceError>)
        ensures
            r matches Err(e) && is_unsupported(e, "Mac Metal GPU 不支持频率设置"@),
            final(self)@ == old(self)@,
    {
        Err(DeviceError::UnsupportedOperation(String::from_str("Mac Metal GPU 不支持频率设置")))
    }

    /// Voltage control is not supported.
    pub fn set_voltage(&mut self, voltage: u32) -> (r: Result<(), DeviceError>)
        ensures
            r matches Err(e) && is_unsupported(e, "Mac Metal GPU 不支持电压设置"@),
            final(self)@ == old(self)@,
    {
        Err(DeviceError::UnsupportedOperation(String::from_str("Mac Metal GPU 不支持电压设置")))
    }

    /// Fan control is not supported.
    pub fn set_fan_speed(&mut self, speed: u32) -> (r: Result<(), DeviceError>)
        ensures
            r matches Err(e) && is_unsupported(e, "Mac Metal GPU 不支持风扇控制"@),
            final(self)@ == old(self)@,
    {
        Err(DeviceError::UnsupportedOperation(String::from_str("Mac Metal GPU 不支持风扇控制")))
    }

    /// Stops, drops the queued shares and the current work, and reopens the
    /// backend; reopening fails without Metal support, leaving the device
    /// stopped and emptied.
    pub fn reset(&mut self) -> (r: Result<(), DeviceError>)
        ensures
            r matches Err(e) && is_metal_disabled(e),
            final(self)@ == (MetalDeviceView {
                running: false,
                queue: Seq::<MiningResultView>::empty(),
                current_work: None,
                ..old(self)@
            }),
    {
        self.stop()?;
        self.result_queue.clear();
        self.current_work = None;
        assert(results_view(self.result_queue@) =~= Seq::<MiningResultView>::empty());
        let backend = MetalBackend::new()?;
        self.metal_backend = backend;
        self.metal_backend.initialize()?;
        Ok(())
    }

    /// Healthy when running with an initialized backend. Always succeeds.
    pub fn health_check(&self) -> (r: Result<bool, DeviceError>)
        ensures
            r matches Ok(h) && h == (self@.running && self@.backend_initialized),
    {
        if !self.running {
            return Ok(false);
        }
        if !self.metal_backend.is_initialized() {
            return Ok(false);
        }
        Ok(true)
    }
}

} // verus!
