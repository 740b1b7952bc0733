use cgminer_gpu_btc_core::opencl_backend::{simulation_trials, OpenCLBackend};
use cgminer_gpu_btc_core::types::{CoreError, Work};

fn work() -> Work {
    let mut header = vec![0u8; 80];
    header[0] = 1;
    Work { id: 42, work_id: 7, job_id: "job".to_string(), header, target: vec![0xff; 32], difficulty_bits: 1.0f64.to_bits() }
}

#[test]
fn test_opencl_backend_creation() {
    let backend = OpenCLBackend::new();
    assert!(!backend.is_initialized());
}

#[test]
fn test_opencl_backend_initialization() {
    let mut backend = OpenCLBackend::new();
    let result = backend.initialize();
    assert!(result.is_ok());
    assert!(backend.is_initialized());
}

#[test]
fn test_platform_scanning() {
    let mut backend = OpenCLBackend::new();
    backend.initialize().unwrap();

    let platforms = backend.get_platforms();
    assert!(!platforms.is_empty());
}

#[test]
fn test_device_scanning() {
    let mut backend = OpenCLBackend::new();
    backend.initialize().unwrap();

    let devices = backend.get_devices();
    assert!(!devices.is_empty());
}

#[test]
fn opencl_backend_test_health_check() {
    let mut backend = OpenCLBackend::new();
    backend.initialize().unwrap();

    let healthy = backend.is_healthy();
    assert!(healthy);
}

#[test]
fn mock_inventory() {
    let mut backend = OpenCLBackend::default();
    backend.initialize().unwrap();
    assert_eq!(backend.get_platforms().len(), 2);
    assert_eq!(backend.get_platforms()[1].vendor, "Advanced Micro Devices, Inc.");
    let d = backend.get_device(2).unwrap();
    assert_eq!(d.name, "AMD Radeon RX 7900 XTX");
    assert_eq!(d.compute_units, 96);
    assert_eq!(d.global_memory_size, 24 * 1024 * 1024 * 1024);
    assert!(backend.get_device(4).is_none());
}

#[test]
fn shutdown_clears_and_unhealthy() {
    let mut backend = OpenCLBackend::new();
    assert!(!backend.is_healthy());
    backend.initialize().unwrap();
    backend.shutdown().unwrap();
    assert!(!backend.is_initialized());
    assert!(backend.get_devices().is_empty());
    assert!(!backend.is_healthy());
    backend.shutdown().unwrap();
}

#[test]
fn compute_mining_errors() {
    let mut backend = OpenCLBackend::new();
    backend.initialize().unwrap();
    match backend.compute_mining(9, &work(), 0, 10, &vec![]) {
        Err(CoreError::Runtime(m)) => assert_eq!(m, "设备 9 不存在"),
        _ => panic!("expected missing device"),
    }
}

#[test]
fn compute_mining_reports_found_nonces() {
    let mut backend = OpenCLBackend::new();
    backend.initialize().unwrap();
    let w = work();
    let results = backend.compute_mining(1, &w, 0, 10, &vec![5, 77]).unwrap();
    assert_eq!(results.len(), 2);
    assert_eq!(results[0].nonce, 5);
    assert_eq!(results[1].nonce, 77);
    assert_eq!(results[1].device_id, 1);
    assert_eq!(results[0].work_id, 42);
    assert_eq!(results[0].work_id_numeric, 7);
    assert!(results[0].meets_target);
    assert_eq!(results[0].hash.len(), 32);
    assert_ne!(results[0].hash, results[1].hash);
    assert!(backend.compute_mining(0, &w, 0, 10, &vec![]).unwrap().is_empty());
}

#[test]
fn trial_counts() {
    assert_eq!(simulation_trials(0), 1);
    assert_eq!(simulation_trials(32), 1);
    assert_eq!(simulation_trials(33), 2);
    assert_eq!(simulation_trials(60), 2);
    assert_eq!(simulation_trials(128), 4);
    assert_eq!(simulation_trials(1000), 5);
}

#[test]
fn compute_mining_short_header_without_shares() {
    let mut backend = OpenCLBackend::new();
    backend.initialize().unwrap();
    let mut w = work();
    w.header = vec![0u8; 8];
    assert!(backend.compute_mining(0, &w, 0, 10, &vec![]).unwrap().is_empty());
}

#[test]
fn compute_mining_shares_bounded_by_trials() {
    let mut backend = OpenCLBackend::new();
    backend.initialize().unwrap();
    let w = work();
    let trials = simulation_trials(backend.get_device(0).unwrap().compute_units);
    assert_eq!(trials, 4);
    let found: Vec<u32> = (0..trials as u32).collect();
    assert_eq!(backend.compute_mining(0, &w, 0, 10, &found).unwrap().len(), trials);
}
