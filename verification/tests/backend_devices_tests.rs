use cgminer_gpu_btc_core::cuda_device::{CudaDevice, CudaDeviceInfo, CudaError};
use cgminer_gpu_btc_core::metal_backend::{threadgroup_layout, MetalBackend, MetalError};
use cgminer_gpu_btc_core::metal_device::{mining_pause_micros, MetalDevice};
use cgminer_gpu_btc_core::opencl_device::{OpenClDevice, OpenClDeviceInfo, OpenClError};
use cgminer_gpu_btc_core::text::contains_ignore_ascii_case;
use cgminer_gpu_btc_core::types::{DeviceConfig, DeviceError, DeviceInfo, Work};

fn info(id: u32) -> DeviceInfo {
    DeviceInfo::new(id, "dev".to_string(), "gpu".to_string(), 0)
}

fn opencl(vendor: &str) -> OpenClDevice {
    let i = OpenClDeviceInfo {
        device_id: 0,
        name: "card".to_string(),
        vendor: vendor.to_string(),
        device_type: "GPU".to_string(),
        max_compute_units: 60,
        max_work_group_size: 256,
        global_memory_size: 1,
        local_memory_size: 1,
        opencl_version: "3.0".to_string(),
    };
    OpenClDevice::new(info(0), DeviceConfig::default_config(), i).unwrap()
}

#[test]
fn metal_is_unsupported_here() {
    match MetalBackend::new() {
        Err(DeviceError::UnsupportedOperation(m)) => assert_eq!(m, "Metal 支持未启用"),
        _ => panic!(),
    }
    assert!(MetalDevice::new(info(0), DeviceConfig::default_config()).is_err());
    let mut b = MetalBackend::default();
    assert!(!b.is_initialized());
    assert_eq!(b.get_device_info().name, "Mock Metal Device");
    assert_eq!(b.get_optimal_work_size(), 32768);
    assert!(b.initialize().is_err());
    let w = Work { id: 1, work_id: 1, job_id: "m".to_string(), header: vec![0; 80], target: vec![0; 32], difficulty_bits: 0 };
    assert!(b.mine(&w, 0, 10).is_err());
}

#[test]
fn metal_output_buffer_to_results() {
    let b = MetalBackend::default();
    let w = Work { id: 1, work_id: 1, job_id: "m".to_string(), header: vec![0; 80], target: vec![0; 32], difficulty_bits: 0 };
    let out = vec![0u32, 3, 0, 0, 1];
    let r = b.process_results(&out, &w, 100);
    assert_eq!(r.iter().map(|x| x.nonce).collect::<Vec<_>>(), vec![101, 104]);
    assert_eq!(r[0].hash, b.calculate_hash(&w, 101).unwrap());
}

#[test]
fn metal_dispatch_layout() {
    assert_eq!(threadgroup_layout(1024, 65536), (1024, 64));
    assert_eq!(threadgroup_layout(1024, 1000), (1000, 1));
    assert_eq!(threadgroup_layout(256, 1000), (256, 4));
}

#[test]
fn error_conversions() {
    assert!(matches!(DeviceError::from(MetalError::ShaderCompilation("x".into())), DeviceError::HardwareError(ref m) if m == "x"));
    assert!(matches!(DeviceError::from(MetalError::DeviceInitialization("x".into())), DeviceError::InitializationFailed(_)));
    assert!(matches!(DeviceError::from(CudaError::ExecutionFailed("y".into())), DeviceError::Runtime(ref m) if m == "y"));
    assert!(matches!(DeviceError::from(CudaError::Unsupported("y".into())), DeviceError::UnsupportedOperation(_)));
    assert!(matches!(DeviceError::from(OpenClError::KernelCompilationFailed("z".into())), DeviceError::Runtime(_)));
    assert!(matches!(DeviceError::from(OpenClError::InitializationFailed("z".into())), DeviceError::InitializationFailed(_)));
}

#[test]
fn cuda_device_behaviour() {
    let ci = CudaDeviceInfo {
        device_id: 0,
        name: "RTX".to_string(),
        compute_capability: (8, 9),
        total_memory: 1,
        multiprocessor_count: 128,
        max_threads_per_block: 1024,
        max_blocks_per_multiprocessor: 16,
    };
    let mut d = CudaDevice::new(info(4), DeviceConfig::default_config(), ci).unwrap();
    assert_eq!(d.get_optimal_work_size(), 1024 * 128 * 4);
    assert_eq!(d.get_cuda_info().compute_capability, (8, 9));
    d.initialize(DeviceConfig::default_config()).unwrap();
    d.start().unwrap();
    assert!(d.health_check().unwrap());
    assert!(d.set_frequency(1500).is_ok());
    assert!(d.set_voltage(900).is_ok());
    assert!(d.set_fan_speed(80).is_ok());
    assert!(d.get_result().unwrap().is_none());
    d.reset().unwrap();
    assert!(!d.health_check().unwrap());
}

#[test]
fn opencl_vendor_detection() {
    assert!(opencl("Advanced Micro Devices, Inc.").is_amd_device());
    assert!(opencl("AMD").is_amd_device());
    assert!(!opencl("AMD").is_intel_device());
    assert!(opencl("Intel(R) Corporation").is_intel_device());
    assert!(opencl("NVIDIA Corporation").is_nvidia_device());
    assert!(!opencl("Apple").is_nvidia_device());
    assert!(contains_ignore_ascii_case("xxNvIdIa", "nvidia"));
    assert!(!contains_ignore_ascii_case("nvid", "nvidia"));
}

#[test]
fn opencl_tuning_only_on_amd() {
    let mut amd = opencl("AMD");
    assert!(amd.set_frequency(1).is_ok());
    let mut intel = opencl("Intel");
    match intel.set_voltage(1) {
        Err(DeviceError::UnsupportedOperation(m)) => assert_eq!(m, "Intel OpenCL GPU 不支持电压设置"),
        _ => panic!(),
    }
    match intel.set_fan_speed(1) {
        Err(DeviceError::UnsupportedOperation(m)) => assert_eq!(m, "Intel OpenCL GPU 不支持风扇控制"),
        _ => panic!(),
    }
    assert_eq!(amd.get_optimal_work_size(), 256 * 60);
}

#[test]
fn metal_loop_pacing() {
    assert_eq!(mining_pause_micros(false, false, 7), 100_000);
    assert_eq!(mining_pause_micros(true, true, 7), 1_000_000);
    assert_eq!(mining_pause_micros(true, false, 20_000), 30_000);
    assert_eq!(mining_pause_micros(true, false, 80_000), 0);
}
