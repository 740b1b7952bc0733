//! Factory of GPU mining cores: describes the cores it makes, checks their
//! configuration and supplies a default one.

use vstd::prelude::*;
use crate::types::{CoreError, CoreInfo, CoreType};
use crate::config::{
    ConfigParams, ConfigValue, CoreConfig, JsonNumber, as_number, as_u64, exceeds,
    is_nonpositive, lemma_param_keys_distinct, lookup, number_exceeds, number_nonpositive,
    value_as_u64, value_number,
};
use crate::mining_core::{
    GpuMiningCore, core_config_error, core_default_config,
    gpu_capabilities, gpu_core_info, is_config_error,
};
use crate::device::GpuDeviceView;
use crate::gpu_manager::is_mock_gpus;

verus! {

/// Largest accepted hash rate: 100 TH/s.
pub const MAX_HASHRATE_LIMIT: u64 = 100_000_000_000_000;

/// Largest accepted number of devices.
pub const MAX_DEVICE_COUNT: u64 = 16;

/// Largest accepted work size.
pub const MAX_WORK_SIZE: u64 = 1024;

/// Why a "max_hashrate" value is refused, if it is.
pub open spec fn hashrate_error(v: ConfigValue) -> Option<Seq<char>> {
    match value_number(v) {
        Some(n) => if number_nonpositive(n) {
            Some("最大算力必须大于0"@)
        } else if number_exceeds(n, MAX_HASHRATE_LIMIT as nat) {
            Some("最大算力不能超过100 TH/s"@)
        } else {
            None
        },
        None => Some("最大算力必须是数字"@),
    }
}

/// Why a "device_count" value is refused, if it is.
pub open spec fn device_count_error(v: ConfigValue) -> Option<Seq<char>> {
    match value_as_u64(v) {
        Some(c) => if c == 0 {
            Some("设备数量必须大于0"@)
        } else if c > MAX_DEVICE_COUNT {
            Some("设备数量不能超过16"@)
        } else {
            None
        },
        None => Some("设备数量必须是整数"@),
    }
}

/// Why a "work_size" value is refused, if it is.
pub open spec fn work_size_error(v: ConfigValue) -> Option<Seq<char>> {
    match value_as_u64(v) {
        Some(c) => if c == 0 {
            Some("工作大小必须大于0"@)
        } else if c > MAX_WORK_SIZE {
            Some("工作大小不能超过1024"@)
        } else {
            None
        },
        None => Some("工作大小必须是整数"@),
    }
}

/// The first reason the factory refuses `config`, if any: an empty name,
/// then a bad "max_hashrate", "device_count" or "work_size", in that order.
pub open spec fn factory_config_error(config: CoreConfig) -> Option<Seq<char>> {
    let p = config.custom_params@;
    if config.name@.len() == 0 {
        Some("核心名称不能为空"@)
    } else if lookup(p, "max_hashrate"@) matches Some(v) && hashrate_error(v) is Some {
        hashrate_error(lookup(p, "max_hashrate"@)->Some_0)
    } else if lookup(p, "device_count"@) matches Some(v) && device_count_error(v) is Some {
        device_count_error(lookup(p, "device_count"@)->Some_0)
    } else if lookup(p, "work_size"@) matches Some(v) && work_size_error(v) is Some {
        work_size_error(lookup(p, "work_size"@)->Some_0)
    } else {
        None
    }
}

/// The factory's default configuration: named "GPU Mining Core", with a
/// maximal hash rate of 1e12 H/s, one device and a work size of 1024, and
/// no other parameter.
pub open spec fn factory_default_config(c: CoreConfig) -> bool {
    &&& c.name@ == "GPU Mining Core"@
    &&& lookup(c.custom_params@, "max_hashrate"@) matches Some(ConfigValue::Number(n))
        && n == (JsonNumber::Float { negative: false, mantissa: 1_000_000_000_000, exponent: 0 })
    &&& lookup(c.custom_params@, "device_count"@) matches Some(ConfigValue::Number(n)) && n
        == JsonNumber::PosInt(1)
    &&& lookup(c.custom_params@, "work_size"@) matches Some(ConfigValue::Number(n)) && n
        == JsonNumber::PosInt(1024)
    &&& forall|k: Seq<char>| #[trigger] lookup(c.custom_params@, k) is Some ==> k == "max_hashrate"@
        || k == "device_count"@ || k == "work_size"@
}

/// The description of the factory.
pub open spec fn factory_info(i: CoreInfo) -> bool {
    &&& i.name@ == "GPU Mining Core Factory"@
    &&& i.core_type matches CoreType::Custom(t) && t@ == "gpu"@
    &&& i.version@ == crate::VERSION@
    &&& i.description@ == "GPU挖矿核心工厂，支持Mac M4 Metal、OpenCL、CUDA等多种GPU平台"@
    &&& i.author@ == "CGMiner Rust Team"@
    &&& i.supported_devices@.len() == 1
    &&& i.supported_devices@[0]@ == "gpu"@
}

fn config_error(msg: &str) -> (e: CoreError)
    ensures
        is_config_error(e, msg@),
{
    CoreError::Config(String::from_str(msg))
}

fn check_hashrate(v: &ConfigValue) -> (r: Result<(), CoreError>)
    ensures
        hashrate_error(*v) is None <==> r is Ok,
        hashrate_error(*v) matches Some(msg) ==> (r matches Err(e) && is_config_error(e, msg)),
{
    match as_number(v) {
        Some(n) => {
            if is_nonpositive(&n) {
                Err(config_error("最大算力必须大于0"))
            } else if exceeds(&n, MAX_HASHRATE_LIMIT) {
                Err(config_error("最大算力不能超过100 TH/s"))
            } else {
                Ok(())
            }
        },
        None => Err(config_error("最大算力必须是数字")),
    }
}

fn check_device_count(v: &ConfigValue) -> (r: Result<(), CoreError>)
    ensures
        device_count_error(*v) is None <==> r is Ok,
        device_count_error(*v) matches Some(msg) ==> (r matches Err(e) && is_config_error(e, msg)),
{
    match as_u64(v) {
        Some(c) => {
            if c == 0 {
                Err(config_error("设备数量必须大于0"))
            } else if c > MAX_DEVICE_COUNT {
                Err(config_error("设备数量不能超过16"))
            } else {
                Ok(())
            }
        },
        None => Err(config_error("设备数量必须是整数")),
    }
}

fn check_work_size(v: &ConfigValue) -> (r: Result<(), CoreError>)
    ensures
        work_size_error(*v) is None <==> r is Ok,
        work_size_error(*v) matches Some(msg) ==> (r matches Err(e) && is_config_error(e, msg)),
{
    match as_u64(v) {
        Some(c) => {
            if c == 0 {
                Err(config_error("工作大小必须大于0"))
            } else if c > MAX_WORK_SIZE {
                Err(config_error("工作大小不能超过1024"))
            } else {
                Ok(())
            }
        },
        None => Err(config_error("工作大小必须是整数")),
    }
}

/// Factory of GPU mining cores.
pub struct GpuCoreFactory {
    info: CoreInfo,
}

impl GpuCoreFactory {
    /// A factory describing itself as "GPU Mining Core Factory".
    pub fn new() -> (r: GpuCoreFactory)
        ensures
            factory_info(r.spec_info()),
    {
        let mut supported_devices: Vec<String> = Vec::new();
        supported_devices.push(String::from_str("gpu"));
        let info = CoreInfo::new(
            String::from_str("GPU Mining Core Factory"),
            CoreType::Custom(String::from_str("gpu")),
            String::from_str(crate::VERSION),
            String::from_str("GPU挖矿核心工厂，支持Mac M4 Metal、OpenCL、CUDA等多种GPU平台"),
            String::from_str("CGMiner Rust Team"),
            supported_devices,
        );
        GpuCoreFactory { info }
    }

    /// A factory with the given description.
    pub(crate) fn with_info(info: CoreInfo) -> (r: GpuCoreFactory)
        ensures
            r.spec_info() == info,
    {
        GpuCoreFactory { info }
    }

    pub closed spec fn spec_info(&self) -> CoreInfo {
        self.info
    }

    /// The type of the cores made: `Custom("gpu")`.
    pub fn core_type(&self) -> (r: CoreType)
        ensures
            r matches CoreType::Custom(t) && t@ == "gpu"@,
    {
        CoreType::Custom(String::from_str("gpu"))
    }

    /// A copy of the factory description.
    pub fn core_info(&self) -> (r: CoreInfo)
        ensures
            r.name == self.spec_info().name,
            r.core_type == self.spec_info().core_type,
            r.version == self.spec_info().version,
            r.description == self.spec_info().description,
            r.author == self.spec_info().author,
            r.supported_devices@ == self.spec_info().supported_devices@,
    {
        let core_type = match &self.info.core_type {
            CoreType::Custom(t) => CoreType::Custom(t.clone()),
        };
        let mut devices: Vec<String> = Vec::new();
        let mut i: usize = 0;
        while i < self.info.supported_devices.len()
            invariant
                i <= self.info.supported_devices@.len(),
                devices@ == self.info.supported_devices@.subrange(0, i as int),
            decreases self.info.supported_devices@.len() - i,
        {
            devices.push(self.info.supported_devices[i].clone());
            i = i + 1;
            assert(devices@ =~= self.info.supported_devices@.subrange(0, i as int));
        }
        assert(self.info.supported_devices@.subrange(0, i as int) =~= self.info.supported_devices@);
        CoreInfo::new(
            self.info.name.clone(),
            core_type,
            self.info.version.clone(),
            self.info.description.clone(),
            self.info.author.clone(),
            devices,
        )
    }

    /// Makes a core named after the configuration and initializes it with
    /// it (see [`GpuMiningCore::initialize`]); fails as initialization does.
    pub fn create_core(&self, config: CoreConfig) -> (r: Result<GpuMiningCore, CoreError>)
        ensures
            core_config_error(config) matches Some(msg) ==> (r matches Err(e) && is_config_error(
                e,
                msg,
            )),
            core_config_error(config) is None ==> (r matches Ok(c) && ({
                let v = c@;
                &&& gpu_core_info(v.info, config.name@)
                &&& gpu_capabilities(v.capabilities)
                &&& v.config == Some(config)
                &&& v.devices == Seq::<GpuDeviceView>::empty()
                &&& !v.running
                &&& v.manager matches Some(m) && m.initialized && is_mock_gpus(m.gpus)
            })),
    {
        let mut core = GpuMiningCore::new(config.name.clone());
        core.initialize(config)?;
        Ok(core)
    }

    /// Checks a configuration (see [`factory_config_error`]).
    pub fn validate_config(&self, config: &CoreConfig) -> (r: Result<(), CoreError>)
        ensures
            factory_config_error(*config) is None <==> r is Ok,
            factory_config_error(*config) matches Some(msg) ==> (r matches Err(e) && is_config_error(
                e,
                msg,
            )),
    {
        if config.name.as_str().is_empty() {
            return Err(config_error("核心名称不能为空"));
        }
        let key = String::from_str("max_hashrate");
        match config.custom_params.get(&key) {
            Some(v) => {
                check_hashrate(v)?;
            },
            None => {},
        }
        let key = String::from_str("device_count");
        match config.custom_params.get(&key) {
            Some(v) => {
                check_device_count(v)?;
            },
            None => {},
        }
        let key = String::from_str("work_size");
        match config.custom_params.get(&key) {
            Some(v) => {
                check_work_size(v)?;
            },
            None => {},
        }
        Ok(())
    }

    /// The default configuration (see [`factory_default_config`]).
    pub fn default_config(&self) -> (r: CoreConfig)
        ensures
            factory_default_config(r),
    {
        proof {
            lemma_param_keys_distinct();
        }
        let mut params = ConfigParams::new();
        params.insert(
            String::from_str("max_hashrate"),
            ConfigValue::Number(
                JsonNumber::Float { negative: false, mantissa: 1_000_000_000_000, exponent: 0 },
            ),
        );
        params.insert(String::from_str("device_count"), ConfigValue::Number(JsonNumber::PosInt(1)));
        params.insert(String::from_str("work_size"), ConfigValue::Number(JsonNumber::PosInt(1024)));
        CoreConfig { name: String::from_str("GPU Mining Core"), custom_params: params }
    }
}

impl Default for GpuCoreFactory {
    fn default() -> (r: GpuCoreFactory)
        ensures
            factory_info(r.spec_info()),
    {
        GpuCoreFactory::new()
    }
}

/// Law: the factory accepts its own default configuration.
pub proof fn lemma_factory_default_config_valid(c: CoreConfig)
    requires
        factory_default_config(c),
    ensures
        factory_config_error(c) is None,
        core_config_error(c) is None,
{
    reveal_strlit("GPU Mining Core");
    assert(c.name@.len() > 0);
    assert(!number_exceeds(
        JsonNumber::Float { negative: false, mantissa: 1_000_000_000_000, exponent: 0 },
        MAX_HASHRATE_LIMIT as nat,
    )) by {
        reveal_with_fuel(crate::config::pow2n, 1);
    }
}

/// Law: the factory also accepts the default configuration of a core.
pub proof fn lemma_core_default_config_valid(c: CoreConfig)
    requires
        core_default_config(c),
    ensures
        factory_config_error(c) is None,
        core_config_error(c) is None,
{
    reveal_strlit("GPU Mining Core");
    assert(c.name@.len() > 0);
    assert(!number_exceeds(
        JsonNumber::Float { negative: false, mantissa: 1_000_000_000_000, exponent: 0 },
        MAX_HASHRATE_LIMIT as nat,
    )) by {
        reveal_with_fuel(crate::config::pow2n, 1);
    }
}

/// Law: a configuration the factory accepts is also accepted by the core
/// it makes, so `create_core` succeeds on it.
pub proof fn lemma_factory_valid_implies_core_valid(c: CoreConfig)
    requires
        factory_config_error(c) is None,
    ensures
        core_config_error(c) is None,
{
}

/// Law: the factory refuses, with "最大算力必须大于0", a configuration with a
/// name whose "max_hashrate" is a number of value at most zero: a
/// non-positive integer, or a float that is negative or has a zero mantissa.
pub proof fn lemma_factory_refuses_nonpositive_hashrate(config: CoreConfig, n: JsonNumber)
    requires
        config.name@.len() > 0,
        lookup(config.custom_params@, "max_hashrate"@) == Some(ConfigValue::Number(n)),
        (n is NegInt && n->NegInt_0 <= 0) || n == JsonNumber::PosInt(0) || (n is Float && (n->negative
            || n->mantissa == 0)),
    ensures
        factory_config_error(config) == Some("最大算力必须大于0"@),
{
}

/// Law: the factory refuses, with "最大算力不能超过100 TH/s", a configuration
/// with a name whose "max_hashrate" is an integer above 100 TH/s.
pub proof fn lemma_factory_refuses_excessive_hashrate(config: CoreConfig, v: u64)
    requires
        config.name@.len() > 0,
        lookup(config.custom_params@, "max_hashrate"@) == Some(ConfigValue::Number(JsonNumber::PosInt(v))),
        v > 100_000_000_000_000,
    ensures
        factory_config_error(config) == Some("最大算力不能超过100 TH/s"@),
{
}

} // verus!

