//! The GPU mining core: owns the GPU manager and one mining device per GPU,
//! and fans work out to the devices and shares back in.

use vstd::prelude::*;
use crate::types::{
    CoreCapabilities, CoreError, CoreInfo, CoreStats, CoreType, DeviceConfig, DeviceInfo,
    DeviceStats, MiningResult, MiningResultView, Work, system_now,
};
use crate::config::{
    ConfigParams, ConfigValue, CoreConfig, JsonNumber, as_number, as_u64, is_nonpositive, lookup,
    number_nonpositive, value_as_u64, value_number, lemma_param_keys_distinct,
};
use crate::device::{GpuDevice, GpuDeviceView, batch_recorded, can_mine_spec, work_hashable};
use crate::gpu_manager::{GpuManager, GpuManagerView, is_mock_gpus, lemma_initialized_manager_healthy, manager_healthy};
use crate::text::{decimal, with_decimal_suffix};

verus! {

/// The GPU mining core.
pub struct GpuMiningCore {
    core_info: CoreInfo,
    capabilities: CoreCapabilities,
    config: Option<CoreConfig>,
    /// Device `k` has identifier `k`.
    devices: Vec<GpuDevice>,
    stats: CoreStats,
    running: bool,
    start_time: Option<std::time::SystemTime>,
    gpu_manager: Option<GpuManager>,
}

/// What a core holds.
pub struct GpuMiningCoreView {
    pub info: CoreInfo,
    pub capabilities: CoreCapabilities,
    pub config: Option<CoreConfig>,
    pub devices: Seq<GpuDeviceView>,
    pub stats: CoreStats,
    pub running: bool,
    pub manager: Option<GpuManagerView>,
}

pub open spec fn manager_view(m: Option<GpuManager>) -> Option<GpuManagerView> {
    match m {
        Some(x) => Some(x@),
        None => None,
    }
}

pub open spec fn devices_view(s: Seq<GpuDevice>) -> Seq<GpuDeviceView> {
    s.map_values(|d: GpuDevice| d@)
}

impl View for GpuMiningCore {
    type V = GpuMiningCoreView;

    closed spec fn view(&self) -> GpuMiningCoreView {
        GpuMiningCoreView {
            info: self.core_info,
            capabilities: self.capabilities,
            config: self.config,
            devices: devices_view(self.devices@),
            stats: self.stats,
            running: self.running,
            manager: manager_view(self.gpu_manager),
        }
    }
}

proof fn lemma_same_ids(a: Seq<GpuDevice>, b: Seq<GpuDevice>)
    requires
        a.len() == b.len(),
        forall|k: int| 0 <= k < a.len() ==> (#[trigger] a[k])@.info == b[k]@.info,
        forall|k: int| 0 <= k < a.len() ==> (#[trigger] devices_view(a)[k]).info.id == k,
    ensures
        forall|k: int| 0 <= k < b.len() ==> (#[trigger] devices_view(b)[k]).info.id == k,
{
    assert forall|k: int| 0 <= k < b.len() implies (#[trigger] devices_view(b)[k]).info.id == k by {
        assert(devices_view(a)[k] == a[k]@);
        assert(devices_view(b)[k] == b[k]@);
    }
}

proof fn lemma_devices_view(s: Seq<GpuDevice>)
    ensures
        devices_view(s).len() == s.len(),
        forall|k: int| 0 <= k < s.len() ==> #[trigger] devices_view(s)[k] == s[k]@,
{
}

/// Device `k` of the table has identifier `k`, and the GPU manager's GPUs
/// can be numbered by `u32`.
pub open spec fn core_wf(c: GpuMiningCoreView) -> bool {
    &&& forall|k: int| 0 <= k < c.devices.len() ==> (#[trigger] c.devices[k]).info.id == k
    &&& c.devices.len() <= u32::MAX
    &&& c.manager matches Some(m) ==> m.gpus.len() <= u32::MAX
}

/// `d` is device `k` as created and started by [`GpuMiningCore::start`]:
/// named `GPU-k`, of type `gpu`, running, with no work, an empty queue and
/// zero counters.
pub open spec fn fresh_started_device(d: GpuDeviceView, k: int) -> bool {
    &&& d.info.id == k
    &&& d.info.name@ == "GPU-"@ + decimal(k as nat)
    &&& d.info.device_type@ == "gpu"@
    &&& d.info.chain_id == 0
    &&& d.config == DeviceConfig::default_spec()
    &&& d.stats == DeviceStats::new_spec(k as u32)
    &&& d.running
    &&& d.current_work is None
    &&& d.work_counter == 0
    &&& d.queue == Seq::<MiningResultView>::empty()
}

/// The number of devices a core runs on `gpus` GPUs: the configuration's
/// "device_count" when it is a non-negative integer, at most one device per
/// GPU; otherwise one device per GPU.
pub open spec fn configured_device_count(config: Option<CoreConfig>, gpus: nat) -> nat {
    match config {
        Some(c) => match lookup(c.custom_params@, "device_count"@) {
            Some(v) => match value_as_u64(v) {
                Some(k) => if k < gpus { k as nat } else { gpus },
                None => gpus,
            },
            None => gpus,
        },
        None => gpus,
    }
}

/// `after` is the stopped core `before` once started with a GPU manager:
/// the configured number `n` of devices (see [`configured_device_count`])
/// are freshly created and running as devices `0..n`, devices numbered `n`
/// and above are kept, the core is running, and nothing else changes.
pub open spec fn core_started(before: GpuMiningCoreView, after: GpuMiningCoreView) -> bool {
    let n = configured_device_count(before.config, before.manager->Some_0.gpus.len());
    let old_len = before.devices.len();
    &&& after.devices.len() == if n > old_len { n } else { old_len }
    &&& forall|k: int| 0 <= k < n ==> fresh_started_device(#[trigger] after.devices[k], k)
    &&& forall|k: int| n <= k < old_len ==> #[trigger] after.devices[k] == before.devices[k]
    &&& after == GpuMiningCoreView { devices: after.devices, running: true, ..before }
}

/// The core once stopped: a running core stops every device and itself; a
/// stopped core is unchanged.
pub open spec fn stopped_core(c: GpuMiningCoreView) -> GpuMiningCoreView {
    if c.running {
        GpuMiningCoreView {
            running: false,
            devices: c.devices.map_values(|d: GpuDeviceView| GpuDeviceView { running: false, ..d }),
            ..c
        }
    } else {
        c
    }
}

/// The shares gathered from the devices, in device order: the most recent
/// share of each device that has one, labelled with that device.
pub open spec fn collected(devs: Seq<GpuDeviceView>) -> Seq<MiningResultView>
    decreases devs.len(),
{
    if devs.len() == 0 {
        Seq::empty()
    } else {
        let prev = collected(devs.drop_last());
        let d = devs.last();
        if d.queue.len() > 0 {
            prev.push(MiningResultView { device_id: d.info.id, ..d.queue.last() })
        } else {
            prev
        }
    }
}

/// `after` is `before` once its most recent share, if any, has been taken.
pub open spec fn share_taken(before: GpuDeviceView, after: GpuDeviceView) -> bool {
    if before.queue.len() == 0 {
        after == before
    } else {
        let last = before.queue.last();
        &&& after.queue == before.queue.drop_last()
        &&& after.stats == if last.meets_target {
            DeviceStats { accepted_work: (before.stats.accepted_work + 1) as u64, ..before.stats }
        } else {
            DeviceStats { rejected_work: (before.stats.rejected_work + 1) as u64, ..before.stats }
        }
        &&& after == GpuDeviceView { queue: after.queue, stats: after.stats, ..before }
    }
}

/// `r` is the most recent share of device `d`, numbered `k`, reported as
/// found by device `k`.
pub open spec fn share_from_device(r: MiningResultView, d: GpuDeviceView, k: int) -> bool {
    &&& d.queue.len() > 0
    &&& r.device_id == k
    &&& r == MiningResultView { device_id: r.device_id, ..d.queue.last() }
}

/// Law: when device `k` has identifier `k`, every gathered share is the most
/// recent share of some device `k`, reported as found by device `k`; every
/// device that has a share contributes one; and no more shares are gathered
/// than there are devices.
pub proof fn lemma_collected_shares(devs: Seq<GpuDeviceView>)
    requires
        forall|k: int| 0 <= k < devs.len() ==> (#[trigger] devs[k]).info.id == k,
    ensures
        collected(devs).len() <= devs.len(),
        forall|j: int|
            0 <= j < collected(devs).len() ==> exists|k: int|
                0 <= k < devs.len() && share_from_device(#[trigger] collected(devs)[j], devs[k], k),
        forall|k: int|
            0 <= k < devs.len() && (#[trigger] devs[k]).queue.len() > 0 ==> exists|j: int|
                0 <= j < collected(devs).len() && share_from_device(collected(devs)[j], devs[k], k),
    decreases devs.len(),
{
    if devs.len() > 0 {
        let pre = devs.drop_last();
        assert forall|k: int| 0 <= k < pre.len() implies (#[trigger] pre[k]).info.id == k by {
            assert(pre[k] == devs[k]);
        }
        lemma_collected_shares(pre);
        let prev = collected(pre);
        let c = collected(devs);
        let last = devs.len() - 1;
        assert forall|j: int| 0 <= j < c.len() implies exists|k: int|
            0 <= k < devs.len() && share_from_device(#[trigger] c[j], devs[k], k) by {
            if j < prev.len() {
                assert(c[j] == prev[j]);
                let k = choose|k: int| 0 <= k < pre.len() && share_from_device(prev[j], pre[k], k);
                assert(pre[k] == devs[k]);
            } else {
                assert(share_from_device(c[j], devs[last], last));
            }
        }
        assert forall|k: int| 0 <= k < devs.len() && (#[trigger] devs[k]).queue.len() > 0 implies exists|j: int|
            0 <= j < c.len() && share_from_device(c[j], devs[k], k) by {
            if k < last {
                assert(pre[k] == devs[k]);
                assert(pre[k].queue.len() > 0);
                let j = choose|j: int| 0 <= j < prev.len() && share_from_device(prev[j], pre[k], k);
                assert(c[j] == prev[j]);
            } else {
                assert(share_from_device(c[prev.len() as int], devs[k], k));
            }
        }
    }
}

/// Law: stopping a running core stops every one of its devices, so none of
/// them can mine until the core is started again; the devices are otherwise
/// unchanged and the core is no longer running.
pub proof fn lemma_stopped_core_stops_devices(c: GpuMiningCoreView)
    requires
        c.running,
    ensures
        !stopped_core(c).running,
        stopped_core(c).devices.len() == c.devices.len(),
        forall|k: int|
            0 <= k < c.devices.len() ==> !(#[trigger] stopped_core(c).devices[k]).running && !can_mine_spec(
                stopped_core(c).devices[k],
            ) && stopped_core(c).devices[k].info == c.devices[k].info
                && stopped_core(c).devices[k].queue == c.devices[k].queue
                && stopped_core(c).devices[k].stats == c.devices[k].stats,
{
}

/// Law: a core refuses, with "最大算力必须大于0", a configuration with a name
/// whose "max_hashrate" is a number of value at most zero: a non-positive
/// integer, or a float that is negative or has a zero mantissa.
pub proof fn lemma_core_refuses_nonpositive_hashrate(config: CoreConfig, n: JsonNumber)
    requires
        config.name@.len() > 0,
        lookup(config.custom_params@, "max_hashrate"@) == Some(ConfigValue::Number(n)),
        (n is NegInt && n->NegInt_0 <= 0) || n == JsonNumber::PosInt(0) || (n is Float && (n->negative
            || n->mantissa == 0)),
    ensures
        core_config_error(config) == Some("最大算力必须大于0"@),
{
}

/// Law: a core accepts a configuration with a name whose "max_hashrate" is a
/// positive number, an integer or a float, or is not a number at all.
pub proof fn lemma_core_accepts_positive_hashrate(config: CoreConfig, n: JsonNumber)
    requires
        config.name@.len() > 0,
        lookup(config.custom_params@, "max_hashrate"@) == Some(ConfigValue::Number(n)),
        (n is PosInt && n->PosInt_0 > 0) || (n is Float && !n->negative && n->mantissa > 0),
    ensures
        core_config_error(config) is None,
{
}

/// The configuration error the core reports, if any.
pub open spec fn core_config_error(config: CoreConfig) -> Option<Seq<char>> {
    if config.name@.len() == 0 {
        Some("核心名称不能为空"@)
    } else if lookup(config.custom_params@, "max_hashrate"@) matches Some(v) && value_number(v) matches Some(
        n,
    ) && number_nonpositive(n) {
        Some("最大算力必须大于0"@)
    } else {
        None
    }
}

/// The capabilities advertised by the core.
pub open spec fn gpu_capabilities(c: CoreCapabilities) -> bool {
    &&& c.supports_auto_tuning
    &&& c.supports_temperature_monitoring
    &&& c.supports_voltage_control
    &&& c.supports_frequency_control
    &&& c.supports_fan_control
    &&& !c.supports_multiple_chains
    &&& c.max_devices == Some(16u32)
    &&& c.supported_algorithms@.len() == 2
    &&& c.supported_algorithms@[0]@ == "SHA256"@
    &&& c.supported_algorithms@[1]@ == "SHA256d"@
}

/// The description of a core named `name`.
pub open spec fn gpu_core_info(i: CoreInfo, name: Seq<char>) -> bool {
    &&& i.name@ == name
    &&& i.core_type matches CoreType::Custom(t) && t@ == "gpu"@
    &&& i.version@ == crate::VERSION@
    &&& i.description@ == "GPU挖矿核心，使用OpenCL/CUDA进行高性能SHA256算法计算"@
    &&& i.author@ == "CGMiner Rust Team"@
    &&& i.supported_devices@.len() == 3
    &&& i.supported_devices@[0]@ == "gpu"@
    &&& i.supported_devices@[1]@ == "opencl"@
    &&& i.supported_devices@[2]@ == "cuda"@
}

/// The default configuration of the core: named "GPU Mining Core", with a
/// maximal hash rate of 1e12 H/s, 8 devices and a work size of 256, and no
/// other parameter.
pub open spec fn core_default_config(c: CoreConfig) -> bool {
    &&& c.name@ == "GPU Mining Core"@
    &&& lookup(c.custom_params@, "max_hashrate"@) matches Some(ConfigValue::Number(n))
        && n == (JsonNumber::Float { negative: false, mantissa: 1_000_000_000_000, exponent: 0 })
    &&& lookup(c.custom_params@, "device_count"@) matches Some(ConfigValue::Number(n)) && n
        == JsonNumber::PosInt(8)
    &&& lookup(c.custom_params@, "work_size"@) matches Some(ConfigValue::Number(n)) && n
        == JsonNumber::PosInt(256)
    &&& forall|k: Seq<char>| #[trigger] lookup(c.custom_params@, k) is Some ==> k == "max_hashrate"@
        || k == "device_count"@ || k == "work_size"@
}

/// There is a GPU manager and it is healthy.
pub open spec fn manager_present_and_healthy(m: Option<GpuManagerView>) -> bool {
    match m {
        Some(x) => manager_healthy(x),
        None => false,
    }
}

/// The GPU manager once shut down: an initialized one holds no GPUs any
/// more and is no longer initialized; otherwise it is unchanged.
pub open spec fn manager_after_shutdown(m: Option<GpuManagerView>) -> Option<GpuManagerView> {
    match m {
        Some(x) => if x.initialized {
            Some(GpuManagerView { gpus: Seq::empty(), initialized: false })
        } else {
            Some(x)
        },
        None => None,
    }
}

/// The core is running, its GPU manager is healthy and every device is
/// running (and so healthy, see [`GpuDevice::health_check`]).
pub open spec fn core_healthy(c: GpuMiningCoreView) -> bool {
    &&& c.running
    &&& manager_present_and_healthy(c.manager)
    &&& forall|k: int| 0 <= k < c.devices.len() ==> (#[trigger] c.devices[k]).running
}

/// `e` is a runtime error with message `msg`.
pub open spec fn is_core_runtime_error(e: CoreError, msg: Seq<char>) -> bool {
    e matches CoreError::Runtime(m) && m@ == msg
}

/// `e` is a configuration error with message `msg`.
pub open spec fn is_config_error(e: CoreError, msg: Seq<char>) -> bool {
    e matches CoreError::Config(m) && m@ == msg
}

fn manager_missing() -> (e: CoreError)
    ensures
        is_core_runtime_error(e, "GPU管理器未初始化"@),
{
    CoreError::Runtime(String::from_str("GPU管理器未初始化"))
}

fn string_list2(a: &str, b: &str) -> (v: Vec<String>)
    ensures
        v@.len() == 2,
        v@[0]@ == a@,
        v@[1]@ == b@,
{
    let mut v: Vec<String> = Vec::new();
    v.push(String::from_str(a));
    v.push(String::from_str(b));
    v
}

impl GpuMiningCore {
    #[verifier::type_invariant]
    closed spec fn inv(self) -> bool {
        core_wf(self@)
    }

    /// A stopped core named `name`, with no configuration, devices or GPU
    /// manager.
    pub fn new(name: String) -> (r: GpuMiningCore)
        ensures
            gpu_core_info(r@.info, name@),
            gpu_capabilities(r@.capabilities),
            r@.config is None,
            r@.devices == Seq::<GpuDeviceView>::empty(),
            r@.stats.core_name == name,
            !r@.running,
            r@.manager is None,
    {
        let mut devices_supported: Vec<String> = Vec::new();
        devices_supported.push(String::from_str("gpu"));
        devices_supported.push(String::from_str("opencl"));
        devices_supported.push(String::from_str("cuda"));
        let core_info = CoreInfo::new(
            name.clone(),
            CoreType::Custom(String::from_str("gpu")),
            String::from_str(crate::VERSION),
            String::from_str("GPU挖矿核心，使用OpenCL/CUDA进行高性能SHA256算法计算"),
            String::from_str("CGMiner Rust Team"),
            devices_supported,
        );
        let capabilities = CoreCapabilities {
            supports_auto_tuning: true,
            supports_temperature_monitoring: true,
            supports_voltage_control: true,
            supports_frequency_control: true,
            supports_fan_control: true,
            supports_multiple_chains: false,
            max_devices: Some(16),
            supported_algorithms: string_list2("SHA256", "SHA256d"),
        };
        let stats = CoreStats::new(name);
        let r = GpuMiningCore {
            core_info,
            capabilities,
            config: None,
            devices: Vec::new(),
            stats,
            running: false,
            start_time: None,
            gpu_manager: None,
        };
        assert(r@.devices =~= Seq::<GpuDeviceView>::empty());
        r
    }

    /// The GPU manager, once there is one.
    pub fn gpu_manager(&self) -> (r: Option<&GpuManager>)
        ensures
            r is None <==> self@.manager is None,
            r matches Some(m) ==> self@.manager == Some(m@),
    {
        match &self.gpu_manager {
            Some(m) => Some(m),
            None => None,
        }
    }

    /// Replaces the GPU manager.
    pub fn set_gpu_manager(&mut self, manager: GpuManager)
        requires
            manager@.gpus.len() <= u32::MAX,
        ensures
            final(self)@ == (GpuMiningCoreView { manager: Some(manager@), ..old(self)@ }),
    {
        proof { use_type_invariant(&*self); }
        self.gpu_manager = Some(manager);
    }

    /// The core description.
    pub fn get_info(&self) -> (r: &CoreInfo)
        ensures
            *r == self@.info,
    {
        &self.core_info
    }

    /// The core capabilities.
    pub fn get_capabilities(&self) -> (r: &CoreCapabilities)
        ensures
            *r == self@.capabilities,
    {
        &self.capabilities
    }

    /// Validates `config` (see [`GpuMiningCore::validate_config`]), then
    /// creates and initializes a GPU manager, which finds the four simulated
    /// GPUs, and keeps the configuration.
    pub fn initialize(&mut self, config: CoreConfig) -> (r: Result<(), CoreError>)
        ensures
            core_config_error(config) matches Some(msg) ==> (r matches Err(e) && is_config_error(
                e,
                msg,
            ) && final(self)@ == old(self)@),
            core_config_error(config) is None ==> (r is Ok && final(self)@ == GpuMiningCoreView {
                manager: final(self)@.manager,
                config: Some(config),
                ..old(self)@
            } && (final(self)@.manager matches Some(m) && m.initialized && is_mock_gpus(m.gpus))),
    {
        proof { use_type_invariant(&*self); }
        self.validate_config(&config)?;
        let mut manager = match GpuManager::new() {
            Ok(m) => m,
            Err(e) => {
                assert(false);
                return Err(e);
            },
        };
        let _ = manager.initialize();
        self.gpu_manager = Some(manager);
        self.config = Some(config);
        Ok(())
    }

    /// Starts the core: as many devices as the configuration asks for (see
    /// [`configured_device_count`]), numbered from 0, are created,
    /// initialized and started, replacing any device with the same number.
    /// Starting a running core does nothing. Fails when there is no GPU
    /// manager.
    pub fn start(&mut self) -> (r: Result<(), CoreError>)
        ensures
            old(self)@.running ==> (r is Ok && final(self)@ == old(self)@),
            !old(self)@.running && old(self)@.manager is None ==> (r matches Err(e)
                && is_core_runtime_error(e, "GPU管理器未初始化"@) && final(self)@ == old(self)@),
            (!old(self)@.running && old(self)@.manager is Some) ==> (r is Ok && core_started(
                old(self)@,
                final(self)@,
            )),
    {
        proof { use_type_invariant(&*self); }
        if self.running {
            return Ok(());
        }
        let infos = self.scan_devices()?;
        let count = self.device_count_wanted(infos.len());
        let ghost n = count as nat;
        let mut devices = Vec::new();
        std::mem::swap(&mut devices, &mut self.devices);
        let ghost old_devices = devices@;
        proof { lemma_devices_view(old_devices); }
        let mut i: usize = 0;
        while i < count
            invariant
                i <= n,
                n == count,
                n <= infos@.len(),
                !self.running,
                self.gpu_manager is Some,
                self.gpu_manager->Some_0@.gpus.len() == infos@.len(),
                n == configured_device_count(self.config, infos@.len()),
                self.core_info == old(self).core_info,
                self.capabilities == old(self).capabilities,
                self.config == old(self).config,
                self.stats == old(self).stats,
                self.gpu_manager == old(self).gpu_manager,
                self.devices@.len() == 0,
                n <= u32::MAX,
                infos@.len() <= u32::MAX,
                forall|k: int| 0 <= k < infos@.len() ==> (#[trigger] infos@[k]).id == k && infos@[k].name@ == "GPU-"@
                    + decimal(k as nat) && infos@[k].device_type@ == "gpu"@ && infos@[k].chain_id == 0,
                old_devices.len() <= u32::MAX,
                devices@.len() == if (i as int) > old_devices.len() {
                    i as int
                } else {
                    old_devices.len() as int
                },
                forall|k: int| 0 <= k < i ==> fresh_started_device((#[trigger] devices@[k])@, k),
                forall|k: int| i <= k < old_devices.len() ==> #[trigger] devices@[k] == old_devices[k],
            decreases n - i,
        {
            let info = infos[i].duplicate();
            match self.create_device(info) {
                Ok(mut device) => {
                    let _ = device.initialize(DeviceConfig::default_config());
                    let _ = device.start();
                    assert(fresh_started_device(device@, i as int));
                    if i < devices.len() {
                        devices.set(i, device);
                    } else {
                        devices.push(device);
                    }
                },
                Err(_) => {
                    assert(false);
                },
            }
            i = i + 1;
        }
        proof {
            lemma_devices_view(devices@);
            assert forall|k: int| 0 <= k < devices@.len() implies (#[trigger] devices_view(devices@)[k]).info.id == k by {
                if k >= n {
                    assert(devices@[k] == old_devices[k]);
                    assert(old(self)@.devices[k] == old_devices[k]@);
                }
            }
        }
        self.devices = devices;
        self.running = true;
        self.start_time = Some(system_now());
        proof {
            lemma_devices_view(self.devices@);
            assert forall|k: int| 0 <= k < n implies fresh_started_device(#[trigger] self@.devices[k], k) by {
                assert(self@.devices[k] == self.devices@[k]@);
            }
            assert forall|k: int| n <= k < old_devices.len() implies #[trigger] self@.devices[k]
                == old(self)@.devices[k] by {
                assert(self@.devices[k] == self.devices@[k]@);
                assert(old(self)@.devices[k] == old_devices[k]@);
            }
        }
        Ok(())
    }

    /// Stops every device and the core. Stopping a stopped core does
    /// nothing. Always succeeds.
    pub fn stop(&mut self) -> (r: Result<(), CoreError>)
        ensures
            r is Ok,
            final(self)@ == stopped_core(old(self)@),
            final(self)@.devices.len() == old(self)@.devices.len(),
            !final(self)@.running,
            old(self)@.running ==> forall|k: int|
                0 <= k < final(self)@.devices.len() ==> #[trigger] final(self)@.devices[k] == (
                GpuDeviceView { running: false, ..old(self)@.devices[k] }),
    {
        proof { use_type_invariant(&*self); }
        if !self.running {
            return Ok(());
        }
        let mut devices = Vec::new();
        std::mem::swap(&mut devices, &mut self.devices);
        let ghost before = devices@;
        proof { lemma_devices_view(before); }
        let mut i: usize = 0;
        while i < devices.len()
            invariant
                i <= devices@.len(),
                devices@.len() == before.len(),
                forall|k: int| 0 <= k < i ==> (#[trigger] devices@[k])@ == (GpuDeviceView {
                    running: false,
                    ..before[k]@
                }),
                forall|k: int| i <= k < devices@.len() ==> #[trigger] devices@[k] == before[k],
            decreases devices@.len() - i,
        {
            let mut d = self.take_placeholder(&mut devices, i);
            let _ = d.stop();
            devices.set(i, d);
            i = i + 1;
        }
        proof {
            lemma_devices_view(devices@);
            lemma_same_ids(before, devices@);
            assert(devices_view(devices@) =~= devices_view(before).map_values(
                |d: GpuDeviceView| GpuDeviceView { running: false, ..d },
            ));
        }
        self.devices = devices;
        self.running = false;
        Ok(())
    }

    /// The number of devices to run on `gpus` GPUs (see
    /// [`configured_device_count`]).
    fn device_count_wanted(&self, gpus: usize) -> (n: usize)
        ensures
            n == configured_device_count(self@.config, gpus as nat),
            n <= gpus,
    {
        match &self.config {
            Some(c) => {
                let key = String::from_str("device_count");
                match c.custom_params.get(&key) {
                    Some(v) => match as_u64(v) {
                        Some(k) => if k < gpus as u64 {
                            k as usize
                        } else {
                            gpus
                        },
                        None => gpus,
                    },
                    None => gpus,
                }
            },
            None => gpus,
        }
    }

    /// Replaces device `i` of `devices` by a placeholder and returns it.
    fn take_placeholder(&self, devices: &mut Vec<GpuDevice>, i: usize) -> (d: GpuDevice)
        requires
            i < old(devices)@.len(),
        ensures
            d == old(devices)@[i as int],
            final(devices)@.len() == old(devices)@.len(),
            forall|k: int| 0 <= k < final(devices)@.len() && k != i ==> #[trigger] final(devices)@[k] == old(devices)@[k],
    {
        let info = DeviceInfo::new(0, String::new(), String::new(), 0);
        let mut placeholder = GpuDevice::stopped(info, DeviceConfig::default_config());
        devices.set_and_swap(i, &mut placeholder);
        placeholder
    }

    /// Stops, then starts (see [`GpuMiningCore::stop`] and
    /// [`GpuMiningCore::start`]). Fails, after stopping, when there is no GPU
    /// manager.
    pub fn restart(&mut self) -> (r: Result<(), CoreError>)
        ensures
            old(self)@.manager is None ==> (r matches Err(e) && is_core_runtime_error(
                e,
                "GPU管理器未初始化"@,
            ) && final(self)@ == stopped_core(old(self)@)),
            old(self)@.manager is Some ==> (r is Ok && core_started(stopped_core(old(self)@), final(self)@)),
    {
        self.stop()?;
        self.start()?;
        Ok(())
    }

    /// One device description per GPU of the manager: device `k` is named
    /// `GPU-k`, of type `gpu`, on chain 0. Fails when there is no GPU
    /// manager.
    pub fn scan_devices(&self) -> (r: Result<Vec<DeviceInfo>, CoreError>)
        ensures
            self@.manager is None ==> (r matches Err(e) && is_core_runtime_error(
                e,
                "GPU管理器未初始化"@,
            )),
            self@.manager matches Some(m) ==> (r matches Ok(v) && v@.len() == m.gpus.len()
                && forall|k: int| 0 <= k < v@.len() ==> (#[trigger] v@[k]).id == k && v@[k].name@
                == "GPU-"@ + decimal(k as nat) && v@[k].device_type@ == "gpu"@ && v@[k].chain_id == 0),
    {
        proof { use_type_invariant(self); }
        let manager = match &self.gpu_manager {
            Some(m) => m,
            None => {
                return Err(manager_missing());
            },
        };
        let gpu_infos = manager.scan_gpus()?;
        let mut device_infos: Vec<DeviceInfo> = Vec::new();
        let mut index: usize = 0;
        while index < gpu_infos.len()
            invariant
                index <= gpu_infos@.len(),
                gpu_infos@.len() <= u32::MAX,
                device_infos@.len() == index,
                forall|k: int| 0 <= k < index ==> (#[trigger] device_infos@[k]).id == k
                    && device_infos@[k].name@ == "GPU-"@ + decimal(k as nat)
                    && device_infos@[k].device_type@ == "gpu"@ && device_infos@[k].chain_id == 0,
            decreases gpu_infos@.len() - index,
        {
            let id = index as u32;
            let info = DeviceInfo::new(
                id,
                with_decimal_suffix("GPU-", id),
                String::from_str("gpu"),
                0,
            );
            device_infos.push(info);
            index = index + 1;
        }
        Ok(device_infos)
    }

    /// A new stopped device for `device_info`. Fails when there is no GPU
    /// manager.
    pub fn create_device(&self, device_info: DeviceInfo) -> (r: Result<GpuDevice, CoreError>)
        ensures
            self@.manager is None ==> (r matches Err(e) && is_core_runtime_error(
                e,
                "GPU管理器未初始化"@,
            )),
            self@.manager is Some ==> (r matches Ok(d) && d@.info == device_info && d@.config
                == DeviceConfig::default_spec() && d@.stats == DeviceStats::new_spec(device_info.id)
                && !d@.running && d@.current_work is None && d@.work_counter == 0 && d@.queue
                == Seq::<MiningResultView>::empty()),
    {
        if self.gpu_manager.is_none() {
            return Err(manager_missing());
        }
        match GpuDevice::new(device_info, DeviceConfig::default_config()) {
            Ok(d) => Ok(d),
            Err(e) => Err(CoreError::Device(e)),
        }
    }

    /// Handing out the devices themselves is not supported.
    pub fn get_devices(&self) -> (r: Result<Vec<GpuDevice>, CoreError>)
        ensures
            r matches Err(e) && is_core_runtime_error(e, "获取设备列表功能需要重新设计接口"@),
    {
        Err(CoreError::Runtime(String::from_str("获取设备列表功能需要重新设计接口")))
    }

    /// Number of devices. Always succeeds.
    pub fn device_count(&self) -> (r: Result<u32, CoreError>)
        ensures
            r matches Ok(n) && n == self@.devices.len(),
    {
        proof { use_type_invariant(self); }
        Ok(self.devices.len() as u32)
    }

    /// Hands a copy of `work` to every device. Succeeds exactly when there is
    /// at least one device (every device accepts work); otherwise fails with
    /// "没有设备成功接收工作".
    pub fn submit_work(&mut self, work: Work) -> (r: Result<(), CoreError>)
        requires
            forall|k: int| 0 <= k < old(self)@.devices.len() ==> (#[trigger] old(self)@.devices[k]).work_counter < u64::MAX,
        ensures
            old(self)@.devices.len() == 0 ==> (r matches Err(e) && is_core_runtime_error(
                e,
                "没有设备成功接收工作"@,
            ) && final(self)@ == old(self)@),
            old(self)@.devices.len() > 0 ==> r is Ok,
            final(self)@.devices.len() == old(self)@.devices.len(),
            forall|k: int| 0 <= k < final(self)@.devices.len() ==> #[trigger] final(self)@.devices[k] == (
            GpuDeviceView {
                current_work: Some(work@),
                work_counter: (old(self)@.devices[k].work_counter + 1) as u64,
                ..old(self)@.devices[k]
            }),
            final(self)@ == (GpuMiningCoreView { devices: final(self)@.devices, ..old(self)@ }),
    {
        proof { use_type_invariant(&*self); }
        let mut devices = Vec::new();
        std::mem::swap(&mut devices, &mut self.devices);
        let ghost before = devices@;
        proof { lemma_devices_view(before); }
        proof {
            assert forall|k: int| 0 <= k < before.len() implies (#[trigger] before[k])@.work_counter < u64::MAX by {
                assert(old(self)@.devices[k] == before[k]@);
            }
        }
        let mut submitted: usize = 0;
        let mut i: usize = 0;
        while i < devices.len()
            invariant
                i <= devices@.len(),
                submitted == i,
                devices@.len() == before.len(),
                forall|k: int| 0 <= k < before.len() ==> (#[trigger] before[k])@.work_counter < u64::MAX,
                forall|k: int| 0 <= k < i ==> (#[trigger] devices@[k])@ == (GpuDeviceView {
                    current_work: Some(work@),
                    work_counter: (before[k]@.work_counter + 1) as u64,
                    ..before[k]@
                }),
                forall|k: int| i <= k < devices@.len() ==> #[trigger] devices@[k] == before[k],
            decreases devices@.len() - i,
        {
            let mut d = self.take_placeholder(&mut devices, i);
            assert(d@.work_counter < u64::MAX);
            if d.submit_work(work.duplicate()).is_ok() {
                submitted = submitted + 1;
            }
            devices.set(i, d);
            i = i + 1;
        }
        proof {
            if before.len() == 0 {
                assert(devices@ =~= before);
            }
        }
        proof {
            lemma_devices_view(devices@);
            lemma_same_ids(before, devices@);
        }
        self.devices = devices;
        if submitted > 0 {
            Ok(())
        } else {
            Err(CoreError::Runtime(String::from_str("没有设备成功接收工作")))
        }
    }

    /// Takes the most recent share of every device that has one (see
    /// [`GpuDevice::get_result`]), in device order. Always succeeds.
    pub fn collect_results(&mut self) -> (r: Result<Vec<MiningResult>, CoreError>)
        requires
            forall|k: int| 0 <= k < old(self)@.devices.len() ==> (#[trigger] old(self)@.devices[k]).stats.accepted_work < u64::MAX
                && old(self)@.devices[k].stats.rejected_work < u64::MAX,
        ensures
            r matches Ok(v) && v@.map_values(|x: MiningResult| x@) == collected(old(self)@.devices),
            r matches Ok(v) && forall|j: int|
                0 <= j < v@.len() ==> exists|k: int|
                    0 <= k < old(self)@.devices.len() && share_from_device(
                        #[trigger] v@[j]@,
                        old(self)@.devices[k],
                        k,
                    ),
            r matches Ok(v) && forall|k: int|
                0 <= k < old(self)@.devices.len() && (#[trigger] old(self)@.devices[k]).queue.len() > 0
                    ==> exists|j: int| 0 <= j < v@.len() && share_from_device(v@[j]@, old(self)@.devices[k], k),
            final(self)@.devices.len() == old(self)@.devices.len(),
            forall|k: int| 0 <= k < final(self)@.devices.len() ==> share_taken(
                old(self)@.devices[k],
                #[trigger] final(self)@.devices[k],
            ),
            final(self)@ == (GpuMiningCoreView { devices: final(self)@.devices, ..old(self)@ }),
    {
        proof { use_type_invariant(&*self); }
        let mut devices = Vec::new();
        std::mem::swap(&mut devices, &mut self.devices);
        let ghost before = devices@;
        proof { lemma_devices_view(before); }
        let ghost before_view = devices_view(devices@);
        proof {
            assert forall|k: int| 0 <= k < before.len() implies (#[trigger] before[k])@.stats.accepted_work < u64::MAX
                && before[k]@.stats.rejected_work < u64::MAX by {
                assert(old(self)@.devices[k] == before[k]@);
            }
        }
        let mut results: Vec<MiningResult> = Vec::new();
        let mut i: usize = 0;
        while i < devices.len()
            invariant
                i <= devices@.len(),
                devices@.len() == before.len(),
                before_view == devices_view(before),
                forall|k: int| 0 <= k < before.len() ==> (#[trigger] before[k])@.stats.accepted_work < u64::MAX
                    && before[k]@.stats.rejected_work < u64::MAX,
                results@.map_values(|x: MiningResult| x@) == collected(before_view.subrange(0, i as int)),
                forall|k: int| 0 <= k < i ==> share_taken(before[k]@, (#[trigger] devices@[k])@),
                forall|k: int| i <= k < devices@.len() ==> #[trigger] devices@[k] == before[k],
            decreases devices@.len() - i,
        {
            let ghost prefix = before_view.subrange(0, i as int);
            let ghost next = before_view.subrange(0, i + 1);
            assert(next.drop_last() =~= prefix);
            assert(next.last() == before[i as int]@);
            let mut d = self.take_placeholder(&mut devices, i);
            let ghost old_results = results@.map_values(|x: MiningResult| x@);
            match d.get_result() {
                Ok(Some(res)) => {
                    results.push(res);
                    assert(results@.map_values(|x: MiningResult| x@) =~= old_results.push(results@.last()@));
                },
                _ => {
                    assert(results@.map_values(|x: MiningResult| x@) =~= old_results);
                },
            }
            devices.set(i, d);
            i = i + 1;
        }
        assert(before_view.subrange(0, before.len() as int) =~= before_view);
        proof {
            lemma_devices_view(devices@);
            assert forall|k: int| 0 <= k < before.len() implies (#[trigger] before[k])@.info == devices@[k]@.info by {
                assert(share_taken(before[k]@, devices@[k]@));
            }
            lemma_same_ids(before, devices@);
        }
        self.devices = devices;
        proof {
            lemma_collected_shares(old(self)@.devices);
            let v = results@;
            let m = v.map_values(|x: MiningResult| x@);
            assert forall|j: int| 0 <= j < v.len() implies #[trigger] v[j]@ == collected(old(self)@.devices)[j] by {
                assert(m[j] == v[j]@);
            }
        }
        Ok(results)
    }

    /// One iteration of the mining loop of device `index` (see
    /// [`GpuDevice::record_batch`]). It takes place when that device exists
    /// and can mine (see [`GpuDevice::can_mine`]), and, when a nonce was
    /// found, a share can be built for its work; the result says whether it
    /// took place, and otherwise nothing changes.
    pub fn record_device_batch(&mut self, index: usize, found_nonce: Option<u32>) -> (r: bool)
        ensures
            r == (index < old(self)@.devices.len() && can_mine_spec(old(self)@.devices[index as int])
                && (found_nonce is Some ==> work_hashable(old(self)@.devices[index as int]))),
            !r ==> final(self)@ == old(self)@,
            r ==> final(self)@.devices.len() == old(self)@.devices.len() && batch_recorded(
                old(self)@.devices[index as int],
                final(self)@.devices[index as int],
                found_nonce,
            ) && (forall|k: int|
                0 <= k < final(self)@.devices.len() && k != index ==> #[trigger] final(self)@.devices[k]
                    == old(self)@.devices[k]),
            final(self)@ == (GpuMiningCoreView { devices: final(self)@.devices, ..old(self)@ }),
    {
        proof { use_type_invariant(&*self); }
        proof { lemma_devices_view(self.devices@); }
        if index >= self.devices.len() || !self.devices[index].can_mine() {
            return false;
        }
        if found_nonce.is_some() && !self.devices[index].work_hashable() {
            return false;
        }
        let mut devices = Vec::new();
        std::mem::swap(&mut devices, &mut self.devices);
        let ghost before = devices@;
        let mut d = self.take_placeholder(&mut devices, index);
        d.record_batch(found_nonce);
        devices.set(index, d);
        proof {
            lemma_devices_view(devices@);
            assert forall|k: int| 0 <= k < before.len() implies (#[trigger] before[k])@.info == devices@[k]@.info by {
                if k != index {
                    assert(devices@[k] == before[k]);
                }
            }
            lemma_same_ids(before, devices@);
        }
        self.devices = devices;
        true
    }

    /// The core statistics. Always succeeds.
    pub fn get_stats(&self) -> (r: Result<CoreStats, CoreError>)
        ensures
            r matches Ok(s) && s.core_name == self@.stats.core_name,
    {
        Ok(CoreStats::new(self.stats.core_name.clone()))
    }

    /// Healthy when running, with a healthy GPU manager and every device
    /// healthy (see [`GpuDevice::health_check`]). Always succeeds.
    pub fn health_check(&self) -> (r: Result<bool, CoreError>)
        ensures
            r matches Ok(h) && h == core_healthy(self@),
    {
        if !self.running {
            return Ok(false);
        }
        let manager = match &self.gpu_manager {
            Some(m) => m,
            None => {
                return Ok(false);
            },
        };
        if !manager.is_healthy() {
            return Ok(false);
        }
        let mut i: usize = 0;
        while i < self.devices.len()
            invariant
                i <= self.devices@.len(),
                self.gpu_manager == Some(*manager),
                manager_healthy(manager@),
                forall|k: int| 0 <= k < i ==> (#[trigger] devices_view(self.devices@)[k]).running,
            decreases self.devices@.len() - i,
        {
            match self.devices[i].health_check(manager) {
                Ok(true) => {},
                _ => {
                    assert(!devices_view(self.devices@)[i as int].running);
                    return Ok(false);
                },
            }
            i = i + 1;
        }
        Ok(true)
    }

    /// Checks a configuration: the name must not be empty, and a numeric
    /// "max_hashrate" must be positive.
    pub fn validate_config(&self, config: &CoreConfig) -> (r: Result<(), CoreError>)
        ensures
            core_config_error(*config) is None <==> r is Ok,
            core_config_error(*config) matches Some(msg) ==> (r matches Err(e) && is_config_error(e, msg)),
    {
        if config.name.as_str().is_empty() {
            return Err(CoreError::Config(String::from_str("核心名称不能为空")));
        }
        let key = String::from_str("max_hashrate");
        match config.custom_params.get(&key) {
            Some(v) => match as_number(v) {
                Some(n) => {
                    if is_nonpositive(&n) {
                        return Err(CoreError::Config(String::from_str("最大算力必须大于0")));
                    }
                },
                None => {},
            },
            None => {},
        }
        Ok(())
    }

    /// The default configuration (see [`core_default_config`]).
    pub fn default_config(&self) -> (r: CoreConfig)
        ensures
            core_default_config(r),
    {
        proof {
            lemma_param_keys_distinct();
        }
        let mut params = ConfigParams::new();
        params.insert(
            String::from_str("max_hashrate"),
            ConfigValue::Number(
                JsonNumber::Float { negative: false, mantissa: 1_000_000_000_000, exponent: 0 },
            ),
        );
        params.insert(String::from_str("device_count"), ConfigValue::Number(JsonNumber::PosInt(8)));
        params.insert(String::from_str("work_size"), ConfigValue::Number(JsonNumber::PosInt(256)));
        CoreConfig { name: String::from_str("GPU Mining Core"), custom_params: params }
    }

    /// Stops the core, drops its devices and shuts the GPU manager down
    /// (see [`GpuManager::shutdown`]). Always succeeds.
    pub fn shutdown(&mut self) -> (r: Result<(), CoreError>)
        ensures
            r is Ok,
            final(self)@ == (GpuMiningCoreView {
                running: false,
                devices: Seq::<GpuDeviceView>::empty(),
                manager: manager_after_shutdown(old(self)@.manager),
                ..old(self)@
            }),
    {
        proof { use_type_invariant(&*self); }
        self.stop()?;
        self.devices = Vec::new();
        let mut manager: Option<GpuManager> = None;
        std::mem::swap(&mut manager, &mut self.gpu_manager);
        match &mut manager {
            Some(m) => {
                let _ = m.shutdown();
            },
            None => {},
        }
        self.gpu_manager = manager;
        assert(devices_view(self.devices@) =~= Seq::<GpuDeviceView>::empty());
        Ok(())
    }
}

/// Law: a core started with the simulated GPUs, each of its devices as
/// `start` creates it, passes the health check (see
/// [`GpuMiningCore::health_check`]).
pub proof fn lemma_started_core_healthy(c: GpuMiningCoreView)
    requires
        c.running,
        c.manager matches Some(m) && m.initialized && is_mock_gpus(m.gpus),
        forall|k: int| 0 <= k < c.devices.len() ==> fresh_started_device(#[trigger] c.devices[k], k),
    ensures
        core_healthy(c),
{
    lemma_initialized_manager_healthy(c.manager->Some_0);
}

/// Law: a core that is not running, such as one that has been stopped or
/// shut down, fails the health check.
pub proof fn lemma_stopped_core_unhealthy(c: GpuMiningCoreView)
    requires
        !c.running,
    ensures
        !core_healthy(c),
{
}

} // verus!

