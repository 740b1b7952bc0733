//! A GPU mining device: its run state, current work, queue of found shares
//! and counters. The mining loop itself (a background task that repeatedly
//! hashes a batch of nonces) is driven from outside: each iteration hands its
//! outcome to [`GpuDevice::record_batch`].

use vstd::prelude::*;
use crate::types::{
    DeviceConfig, DeviceError, DeviceInfo, DeviceStats, DeviceStatus, MiningResult,
    MiningResultView, Work, WorkView, system_now,
};
use crate::hashing::{found_result, hash_header_with_nonce, header_with_nonce, make_found_result, sha256d};
use crate::gpu_manager::{GpuManager, manager_healthy};

verus! {

/// Number of nonces hashed per iteration of the mining loop.
pub const GPU_BATCH_SIZE: u32 = 524288;

/// A GPU mining device.
pub struct GpuDevice {
    device_info: DeviceInfo,
    config: DeviceConfig,
    stats: DeviceStats,
    running: bool,
    current_work: Option<Work>,
    start_time: Option<std::time::SystemTime>,
    work_counter: u64,
    result_queue: Vec<MiningResult>,
}

/// What a device holds.
pub struct GpuDeviceView {
    pub info: DeviceInfo,
    pub config: DeviceConfig,
    pub stats: DeviceStats,
    pub running: bool,
    pub current_work: Option<WorkView>,
    pub work_counter: u64,
    pub queue: Seq<MiningResultView>,
}

pub open spec fn work_view(w: Option<Work>) -> Option<WorkView> {
    match w {
        Some(x) => Some(x@),
        None => None,
    }
}

pub open spec fn results_view(s: Seq<MiningResult>) -> Seq<MiningResultView> {
    s.map_values(|r: MiningResult| r@)
}

impl View for GpuDevice {
    type V = GpuDeviceView;

    closed spec fn view(&self) -> GpuDeviceView {
        GpuDeviceView {
            info: self.device_info,
            config: self.config,
            stats: self.stats,
            running: self.running,
            current_work: work_view(self.current_work),
            work_counter: self.work_counter,
            queue: results_view(self.result_queue@),
        }
    }
}

/// The message of an unsupported tuning operation.
pub open spec fn is_unsupported(e: DeviceError, msg: Seq<char>) -> bool {
    e matches DeviceError::UnsupportedOperation(m) && m@ == msg
}

/// The mining loop can hash a batch on `d` now: it is running with work,
/// and its hash counter can take a batch.
pub open spec fn can_mine_spec(d: GpuDeviceView) -> bool {
    &&& d.running
    &&& d.current_work is Some
    &&& d.stats.total_hashes + GPU_BATCH_SIZE <= u64::MAX
}

/// A share can be built for `d`'s current work: its header holds the
/// nonce field.
pub open spec fn work_hashable(d: GpuDeviceView) -> bool {
    d.current_work matches Some(w) && w.header.len() >= 80
}

/// `after` is `before` once a batch of [`GPU_BATCH_SIZE`] nonces of its
/// current work was hashed; when `found_nonce` is given, that nonce's share,
/// labelled with device 0, is queued last.
pub open spec fn batch_recorded(before: GpuDeviceView, after: GpuDeviceView, found_nonce: Option<u32>) -> bool {
    &&& after.stats == (DeviceStats {
        total_hashes: (before.stats.total_hashes + GPU_BATCH_SIZE) as u64,
        ..before.stats
    })
    &&& found_nonce is None ==> after.queue == before.queue
    &&& found_nonce matches Some(n) ==> after.queue.len() == before.queue.len() + 1
        && after.queue.drop_last() == before.queue && found_result(
        after.queue.last(),
        before.current_work->Some_0,
        n,
        0,
    )
    &&& after == (GpuDeviceView { queue: after.queue, stats: after.stats, ..before })
}

impl GpuDevice {
    /// A stopped device with no work, an empty queue and zero counters.
    /// Always succeeds.
    pub fn new(device_info: DeviceInfo, config: DeviceConfig) -> (r: Result<GpuDevice, DeviceError>)
        ensures
            r matches Ok(d) && d@.info == device_info && d@.config == config && d@.stats
                == DeviceStats::new_spec(device_info.id) && !d@.running && d@.current_work is None
                && d@.work_counter == 0 && d@.queue == Seq::<MiningResultView>::empty(),
    {
        let d = GpuDevice::stopped(device_info, config);
        Ok(d)
    }

    /// A stopped device with no work, an empty queue and zero counters.
    pub(crate) fn stopped(device_info: DeviceInfo, config: DeviceConfig) -> (d: GpuDevice)
        ensures
            d@.info == device_info && d@.config == config && d@.stats == DeviceStats::new_spec(
                device_info.id,
            ) && !d@.running && d@.current_work is None && d@.work_counter == 0 && d@.queue
                == Seq::<MiningResultView>::empty(),
    {
        let stats = DeviceStats::new(device_info.id);
        let d = GpuDevice {
            device_info,
            config,
            stats,
            running: false,
            current_work: None,
            start_time: None,
            work_counter: 0,
            result_queue: Vec::new(),
        };
        assert(d@.queue =~= Seq::<MiningResultView>::empty());
        d
    }

    /// The device identifier.
    pub fn device_id(&self) -> (r: u32)
        ensures
            r == self@.info.id,
    {
        self.device_info.id
    }

    /// A copy of the device description. Always succeeds.
    pub fn get_info(&self) -> (r: Result<DeviceInfo, DeviceError>)
        ensures
            r matches Ok(i) && i == self@.info,
    {
        Ok(self.device_info.duplicate())
    }

    /// Stores the configuration. Always succeeds.
    pub fn initialize(&mut self, config: DeviceConfig) -> (r: Result<(), DeviceError>)
        ensures
            r is Ok,
            final(self)@ == (GpuDeviceView { config, ..old(self)@ }),
    {
        self.config = config;
        Ok(())
    }

    /// Starts mining; starting a running device does nothing. Always
    /// succeeds.
    pub fn start(&mut self) -> (r: Result<(), DeviceError>)
        ensures
            r is Ok,
            final(self)@ == (GpuDeviceView { running: true, ..old(self)@ }),
    {
        if self.running {
            return Ok(());
        }
        self.start_time = Some(system_now());
        self.running = true;
        Ok(())
    }

    /// Stops mining; stopping a stopped device does nothing. Always succeeds.
    pub fn stop(&mut self) -> (r: Result<(), DeviceError>)
        ensures
            r is Ok,
            final(self)@ == (GpuDeviceView { running: false, ..old(self)@ }),
    {
        if !self.running {
            return Ok(());
        }
        self.running = false;
        Ok(())
    }

    /// Stops, then starts again. Always succeeds and leaves the device
    /// running.
    pub fn restart(&mut self) -> (r: Result<(), DeviceError>)
        ensures
            r is Ok,
            final(self)@ == (GpuDeviceView { running: true, ..old(self)@ }),
    {
        self.stop()?;
        self.start()?;
        Ok(())
    }

    /// Makes `work` the current work and counts it. Always succeeds.
    pub fn submit_work(&mut self, work: Work) -> (r: Result<(), DeviceError>)
        requires
            old(self)@.work_counter < u64::MAX,
        ensures
            r is Ok,
            final(self)@ == (GpuDeviceView {
                current_work: Some(work@),
                work_counter: (old(self)@.work_counter + 1) as u64,
                ..old(self)@
            }),
    {
        self.current_work = Some(work);
        self.work_counter = self.work_counter + 1;
        Ok(())
    }

    /// Takes the most recently found share, if any: it is relabelled with
    /// this device's identifier and counted as accepted when it meets the
    /// target, else as rejected. Always succeeds.
    pub fn get_result(&mut self) -> (r: Result<Option<MiningResult>, DeviceError>)
        requires
            old(self)@.stats.accepted_work < u64::MAX,
            old(self)@.stats.rejected_work < u64::MAX,
        ensures
            old(self)@.queue.len() == 0 ==> (r matches Ok(None) && final(self)@ == old(self)@),
            old(self)@.queue.len() > 0 ==> (r matches Ok(Some(res)) && ({
                let last = old(self)@.queue.last();
                &&& res@ == MiningResultView { device_id: old(self)@.info.id, ..last }
                &&& final(self)@.queue == old(self)@.queue.drop_last()
                &&& final(self)@.stats == if last.meets_target {
                    DeviceStats {
                        accepted_work: (old(self)@.stats.accepted_work + 1) as u64,
                        ..old(self)@.stats
                    }
                } else {
                    DeviceStats {
                        rejected_work: (old(self)@.stats.rejected_work + 1) as u64,
                        ..old(self)@.stats
                    }
                }
                &&& final(self)@ == GpuDeviceView {
                    queue: final(self)@.queue,
                    stats: final(self)@.stats,
                    ..old(self)@
                }
            })),
    {
        let ghost q = self.result_queue@;
        match self.result_queue.pop() {
            Some(mut result) => {
                proof {
                    assert(results_view(self.result_queue@) =~= results_view(q).drop_last());
                }
                result.device_id = self.device_info.id;
                if result.meets_target {
                    self.stats.accepted_work = self.stats.accepted_work + 1;
                } else {
                    self.stats.rejected_work = self.stats.rejected_work + 1;
                }
                Ok(Some(result))
            },
            None => Ok(None),
        }
    }

    /// Running or idle. Always succeeds.
    pub fn get_status(&self) -> (r: Result<DeviceStatus, DeviceError>)
        ensures
            r matches Ok(s) && s == if self@.running {
                DeviceStatus::Running
            } else {
                DeviceStatus::Idle
            },
    {
        if self.running {
            Ok(DeviceStatus::Running)
        } else {
            Ok(DeviceStatus::Idle)
        }
    }

    /// The counters. Always succeeds.
    pub fn get_stats(&self) -> (r: Result<DeviceStats, DeviceError>)
        ensures
            r matches Ok(s) && s == self@.stats,
    {
        Ok(self.stats)
    }

    /// Frequency control is not supported.
    pub fn set_frequency(&mut self, frequency: u32) -> (r: Result<(), DeviceError>)
        ensures
            r matches Err(e) && is_unsupported(e, "GPU设备不支持频率设置"@),
            final(self)@ == old(self)@,
    {
        Err(DeviceError::UnsupportedOperation(String::from_str("GPU设备不支持频率设置")))
    }

    /// Voltage control is not supported.
    pub fn set_voltage(&mut self, voltage: u32) -> (r: Result<(), DeviceError>)
        ensures
            r matches Err(e) && is_unsupported(e, "GPU设备不支持电压设置"@),
            final(self)@ == old(self)@,
    {
        Err(DeviceError::UnsupportedOperation(String::from_str("GPU设备不支持电压设置")))
    }

    /// Fan control is not supported.
    pub fn set_fan_speed(&mut self, speed: u32) -> (r: Result<(), DeviceError>)
        ensures
            r matches Err(e) && is_unsupported(e, "GPU设备不支持风扇控制"@),
            final(self)@ == old(self)@,
    {
        Err(DeviceError::UnsupportedOperation(String::from_str("GPU设备不支持风扇控制")))
    }

    /// Healthy when running and the GPU manager is healthy. (The simulated
    /// temperature probe reads 60..80 °C and never exceeds its 85 °C limit.)
    /// Always succeeds.
    pub fn health_check(&self, gpu_manager: &GpuManager) -> (r: Result<bool, DeviceError>)
        ensures
            r matches Ok(h) && h == (self@.running && manager_healthy(gpu_manager@)),
    {
        if !self.running {
            return Ok(false);
        }
        if !gpu_manager.is_healthy() {
            return Ok(false);
        }
        Ok(true)
    }

    /// Stops, clears the counters and starts again. Always succeeds.
    pub fn reset(&mut self) -> (r: Result<(), DeviceError>)
        ensures
            r is Ok,
            final(self)@ == (GpuDeviceView {
                running: true,
                stats: DeviceStats::new_spec(old(self)@.info.id),
                ..old(self)@
            }),
    {
        self.stop()?;
        self.stats = DeviceStats::new(self.device_info.id);
        self.start()?;
        Ok(())
    }

    /// Whether the device is running.
    pub fn is_running(&self) -> (r: bool)
        ensures
            r == self@.running,
    {
        self.running
    }

    /// A copy of the current work, if any.
    pub fn current_work(&self) -> (r: Option<Work>)
        ensures
            work_view(r) == self@.current_work,
    {
        match &self.current_work {
            Some(w) => Some(w.duplicate()),
            None => None,
        }
    }

    /// Number of work units submitted so far.
    pub fn work_count(&self) -> (r: u64)
        ensures
            r == self@.work_counter,
    {
        self.work_counter
    }

    /// Number of found shares waiting in the queue.
    pub fn pending_results(&self) -> (r: usize)
        ensures
            r == self@.queue.len(),
    {
        self.result_queue.len()
    }

    /// The hash of a header with `nonce` patched in (SHA256d).
    pub fn calculate_hash_for_work(work: &Work, nonce: u32) -> (h: Vec<u8>)
        requires
            work.header@.len() >= 80,
        ensures
            h@ == sha256d(header_with_nonce(work@.header, nonce)),
    {
        hash_header_with_nonce(&work.header, nonce)
    }

    /// Whether the mining loop can hash a batch now: the device is running
    /// with work, and its hash counter can take a batch.
    pub fn can_mine(&self) -> (r: bool)
        ensures
            r == can_mine_spec(self@),
    {
        self.running && self.current_work.is_some() && self.stats.total_hashes <= u64::MAX
            - GPU_BATCH_SIZE as u64
    }

    /// Whether a share can be built for the current work (its header holds
    /// the nonce field at bytes 76..80).
    pub fn work_hashable(&self) -> (r: bool)
        ensures
            r == work_hashable(self@),
    {
        match &self.current_work {
            Some(w) => w.header.len() >= 80,
            None => false,
        }
    }

    /// Records one iteration of the mining loop over the current work: a
    /// batch of [`GPU_BATCH_SIZE`] nonces was hashed and, when
    /// `found_nonce` is given, that nonce solved the work; its share is
    /// queued (labelled with device 0 until it is taken by
    /// [`GpuDevice::get_result`]).
    pub fn record_batch(&mut self, found_nonce: Option<u32>)
        requires
            old(self)@.current_work is Some,
            found_nonce is Some ==> work_hashable(old(self)@),
            old(self)@.stats.total_hashes + GPU_BATCH_SIZE <= u64::MAX,
        ensures
            batch_recorded(old(self)@, final(self)@, found_nonce),
    {
        let ghost q = self.result_queue@;
        match found_nonce {
            Some(n) => {
                let r = match &self.current_work {
                    Some(w) => make_found_result(w, n, 0),
                    None => {
                        assert(false);
                        return;
                    },
                };
                self.result_queue.push(r);
                proof {
                    assert(results_view(self.result_queue@).drop_last() =~= results_view(q));
                }
            },
            None => {},
        }
        self.stats.total_hashes = self.stats.total_hashes + GPU_BATCH_SIZE as u64;
    }
}

/// Law: a share queued by the mining loop for nonce `n` of work `w` is,
/// once taken by `get_result` on device `id`, a valid share of that work
/// for that nonce reported by that device.
pub proof fn lemma_taken_share_is_valid(
    queued: MiningResultView,
    taken: MiningResultView,
    w: WorkView,
    n: u32,
    id: u32,
)
    requires
        found_result(queued, w, n, 0),
        taken == (MiningResultView { device_id: id, ..queued }),
    ensures
        found_result(taken, w, n, id),
{
}

} // verus!
