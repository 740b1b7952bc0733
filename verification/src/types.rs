//! Plain data types shared by the cores, devices and backends: work units,
//! mining results, device descriptions, configuration values and errors.

use vstd::prelude::*;

verus! {

/// Declares the standard library's wall-clock timestamp so that results can
/// carry the moment they were produced.
#[verifier::external_type_specification]
#[verifier::external_body]
pub struct ExSystemTime(std::time::SystemTime);

/// Calls `std::time::SystemTime::now`. The current time depends on the
/// machine's clock, so nothing is promised of the value.
#[verifier::external_body]
pub fn system_now() -> (t: std::time::SystemTime) {
    std::time::SystemTime::now()
}

/// Kind of mining core.
#[derive(Debug, Clone)]
pub enum CoreType {
    /// A core identified by a free-form tag such as `"gpu"`.
    Custom(String),
}

/// Descriptive information about a mining core or a core factory.
#[derive(Debug, Clone)]
pub struct CoreInfo {
    pub name: String,
    pub core_type: CoreType,
    pub version: String,
    pub description: String,
    pub author: String,
    pub supported_devices: Vec<String>,
}

impl CoreInfo {
    pub fn new(
        name: String,
        core_type: CoreType,
        version: String,
        description: String,
        author: String,
        supported_devices: Vec<String>,
    ) -> (r: CoreInfo)
        ensures
            r.name == name,
            r.core_type == core_type,
            r.version == version,
            r.description == description,
            r.author == author,
            r.supported_devices == supported_devices,
    {
        CoreInfo { name, core_type, version, description, author, supported_devices }
    }
}

/// What a mining core can do.
#[derive(Debug, Clone)]
pub struct CoreCapabilities {
    pub supports_auto_tuning: bool,
    pub supports_temperature_monitoring: bool,
    pub supports_voltage_control: bool,
    pub supports_frequency_control: bool,
    pub supports_fan_control: bool,
    pub supports_multiple_chains: bool,
    pub max_devices: Option<u32>,
    pub supported_algorithms: Vec<String>,
}

/// Identity of one mining device.
#[derive(Debug, Clone)]
pub struct DeviceInfo {
    pub id: u32,
    pub name: String,
    pub device_type: String,
    pub chain_id: u8,
}

impl DeviceInfo {
    pub fn new(id: u32, name: String, device_type: String, chain_id: u8) -> (r: DeviceInfo)
        ensures
            r.id == id,
            r.name == name,
            r.device_type == device_type,
            r.chain_id == chain_id,
    {
        DeviceInfo { id, name, device_type, chain_id }
    }

    /// A copy with the same fields.
    pub fn duplicate(&self) -> (r: DeviceInfo)
        ensures
            r == *self,
    {
        DeviceInfo {
            id: self.id,
            name: self.name.clone(),
            device_type: self.device_type.clone(),
            chain_id: self.chain_id,
        }
    }
}

/// Run state of a device.
#[derive(Debug, Clone, Copy, PartialEq, Eq, Structural)]
pub enum DeviceStatus {
    Idle,
    Running,
}

/// Counters kept per device.
#[derive(Debug, Clone, Copy, PartialEq, Eq, Structural)]
pub struct DeviceStats {
    pub device_id: u32,
    pub total_hashes: u64,
    pub accepted_work: u64,
    pub rejected_work: u64,
}

impl DeviceStats {
    /// Fresh counters for a device, all zero.
    pub open spec fn new_spec(device_id: u32) -> DeviceStats {
        DeviceStats { device_id, total_hashes: 0, accepted_work: 0, rejected_work: 0 }
    }

    /// Fresh counters, all zero.
    pub fn new(device_id: u32) -> (r: DeviceStats)
        ensures
            r == DeviceStats::new_spec(device_id),
    {
        DeviceStats { device_id, total_hashes: 0, accepted_work: 0, rejected_work: 0 }
    }
}

/// Statistics of a whole core.
#[derive(Debug, Clone)]
pub struct CoreStats {
    pub core_name: String,
}

impl CoreStats {
    pub fn new(core_name: String) -> (r: CoreStats)
        ensures
            r.core_name == core_name,
    {
        CoreStats { core_name }
    }
}

/// One unit of mining work: an 80-byte block header and a 32-byte target.
/// The share difficulty is a floating-point number that this library only
/// carries through; it is held as the bit pattern of that `f64`.
#[derive(Debug)]
pub struct Work {
    pub id: u128,
    pub work_id: u64,
    pub job_id: String,
    pub header: Vec<u8>,
    pub target: Vec<u8>,
    pub difficulty_bits: u64,
}

/// The mathematical content of a [`Work`].
pub struct WorkView {
    pub id: u128,
    pub work_id: u64,
    pub job_id: Seq<char>,
    pub header: Seq<u8>,
    pub target: Seq<u8>,
    pub difficulty_bits: u64,
}

impl View for Work {
    type V = WorkView;

    open spec fn view(&self) -> WorkView {
        WorkView {
            id: self.id,
            work_id: self.work_id,
            job_id: self.job_id@,
            header: self.header@,
            target: self.target@,
            difficulty_bits: self.difficulty_bits,
        }
    }
}

/// Length of a block header in bytes.
pub const HEADER_LEN: usize = 80;

/// Length of a share target in bytes.
pub const TARGET_LEN: usize = 32;

impl WorkView {
    /// The header and target have their fixed lengths.
    pub open spec fn well_formed(self) -> bool {
        self.header.len() == HEADER_LEN && self.target.len() == TARGET_LEN
    }
}

impl Work {
    /// A copy with the same content.
    pub fn duplicate(&self) -> (r: Work)
        ensures
            r@ == self@,
    {
        Work {
            id: self.id,
            work_id: self.work_id,
            job_id: self.job_id.clone(),
            header: self.header.clone(),
            target: self.target.clone(),
            difficulty_bits: self.difficulty_bits,
        }
    }
}

/// A share found for some work.
#[derive(Debug)]
pub struct MiningResult {
    pub work_id: u128,
    pub work_id_numeric: u64,
    pub nonce: u32,
    pub extranonce2: Vec<u8>,
    pub hash: Vec<u8>,
    pub share_difficulty_bits: u64,
    pub meets_target: bool,
    pub timestamp: std::time::SystemTime,
    pub device_id: u32,
}

/// The mathematical content of a [`MiningResult`].
pub struct MiningResultView {
    pub work_id: u128,
    pub work_id_numeric: u64,
    pub nonce: u32,
    pub extranonce2: Seq<u8>,
    pub hash: Seq<u8>,
    pub share_difficulty_bits: u64,
    pub meets_target: bool,
    pub timestamp: std::time::SystemTime,
    pub device_id: u32,
}

impl View for MiningResult {
    type V = MiningResultView;

    open spec fn view(&self) -> MiningResultView {
        MiningResultView {
            work_id: self.work_id,
            work_id_numeric: self.work_id_numeric,
            nonce: self.nonce,
            extranonce2: self.extranonce2@,
            hash: self.hash@,
            share_difficulty_bits: self.share_difficulty_bits,
            meets_target: self.meets_target,
            timestamp: self.timestamp,
            device_id: self.device_id,
        }
    }
}

impl MiningResult {
    /// A copy with the same content.
    pub fn duplicate(&self) -> (r: MiningResult)
        ensures
            r@ == self@,
    {
        MiningResult {
            work_id: self.work_id,
            work_id_numeric: self.work_id_numeric,
            nonce: self.nonce,
            extranonce2: self.extranonce2.clone(),
            hash: self.hash.clone(),
            share_difficulty_bits: self.share_difficulty_bits,
            meets_target: self.meets_target,
            timestamp: self.timestamp,
            device_id: self.device_id,
        }
    }
}

/// Errors raised by a device.
#[derive(Debug, Clone)]
pub enum DeviceError {
    HardwareError(String),
    UnsupportedOperation(String),
    InitializationFailed(String),
    Runtime(String),
}

/// Errors raised by a core or its factory.
#[derive(Debug, Clone)]
pub enum CoreError {
    Runtime(String),
    Config(String),
    Device(DeviceError),
}

/// Configuration of one device.
#[derive(Debug, Clone, Copy, PartialEq, Eq, Structural)]
pub struct DeviceConfig {
    pub frequency: u32,
    pub voltage: u32,
    pub fan_speed: Option<u32>,
    pub auto_tune: bool,
}

impl DeviceConfig {
    /// The configuration a device starts with.
    pub open spec fn default_spec() -> DeviceConfig {
        DeviceConfig { frequency: 0, voltage: 0, fan_speed: None, auto_tune: false }
    }

    /// The configuration a device starts with.
    pub fn default_config() -> (r: DeviceConfig)
        ensures
            r == DeviceConfig::default_spec(),
    {
        DeviceConfig { frequency: 0, voltage: 0, fan_speed: None, auto_tune: false }
    }
}

} // verus!
