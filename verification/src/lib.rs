//! GPU mining core: platform detection, simulated OpenCL backend, GPU
//! management, device and core state machines, and the SHA256d hashing of
//! block headers, each with a machine-checked contract.

pub mod types;
pub mod config;
pub mod text;
pub mod hashing;
pub mod metal_backend;
pub mod opencl_backend;
pub mod gpu_manager;
pub mod device;
pub mod mining_core;
pub mod factory;
pub mod metal_device;
pub mod cuda_device;
pub mod opencl_device;
pub mod platform_detector;

use vstd::prelude::*;
use crate::types::{CoreInfo, CoreType};
use crate::factory::GpuCoreFactory;

verus! {

/// Version of this library.
pub const VERSION: &'static str = "0.1.0";

/// The description of this mining core library.
pub open spec fn library_core_info(i: CoreInfo) -> bool {
    &&& i.name@ == "GPU Mining Core"@
    &&& i.core_type matches CoreType::Custom(t) && t@ == "gpu"@
    &&& i.version@ == VERSION@
    &&& i.description@ == "GPU挖矿核心，支持Mac M4 Metal、OpenCL、CUDA等多种GPU平台"@
    &&& i.author@ == "CGMiner Rust Team"@
    &&& i.supported_devices@.len() == 1
    &&& i.supported_devices@[0]@ == "gpu"@
}

/// Describes this mining core library: "GPU Mining Core", of type
/// `Custom("gpu")`, supporting "gpu" devices.
pub fn get_core_info() -> (r: CoreInfo)
    ensures
        library_core_info(r),
{
    let mut supported_devices: Vec<String> = Vec::new();
    supported_devices.push(String::from_str("gpu"));
    CoreInfo::new(
        String::from_str("GPU Mining Core"),
        CoreType::Custom(String::from_str("gpu")),
        String::from_str(VERSION),
        String::from_str("GPU挖矿核心，支持Mac M4 Metal、OpenCL、CUDA等多种GPU平台"),
        String::from_str("CGMiner Rust Team"),
        supported_devices,
    )
}

/// The factory this library hands to a host: a factory of GPU mining cores
/// that describes itself with [`get_core_info`].
pub fn create_factory() -> (r: GpuCoreFactory)
    ensures
        library_core_info(r.spec_info()),
{
    GpuCoreFactory::with_info(get_core_info())
}

} // verus!
