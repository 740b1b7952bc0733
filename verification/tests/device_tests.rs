use cgminer_gpu_btc_core::device::{GpuDevice, GPU_BATCH_SIZE};
use cgminer_gpu_btc_core::gpu_manager::GpuManager;
use cgminer_gpu_btc_core::hashing::hash_header_with_nonce;
use cgminer_gpu_btc_core::types::{DeviceConfig, DeviceError, DeviceInfo, DeviceStatus, Work};

fn device(id: u32) -> GpuDevice {
    GpuDevice::new(DeviceInfo::new(id, format!("GPU-{}", id), "gpu".to_string(), 0), DeviceConfig::default_config()).unwrap()
}

fn work() -> Work {
    Work { id: 5, work_id: 6, job_id: "w".to_string(), header: vec![1u8; 80], target: vec![0; 32], difficulty_bits: 2.0f64.to_bits() }
}

#[test]
fn start_stop_status() {
    let mut d = device(2);
    assert_eq!(d.get_status().unwrap(), DeviceStatus::Idle);
    d.start().unwrap();
    d.start().unwrap();
    assert_eq!(d.get_status().unwrap(), DeviceStatus::Running);
    d.stop().unwrap();
    assert!(!d.is_running());
    d.restart().unwrap();
    assert!(d.is_running());
    assert_eq!(d.device_id(), 2);
    assert_eq!(d.get_info().unwrap().name, "GPU-2");
}

#[test]
fn mining_batch_then_result() {
    let mut d = device(3);
    d.start().unwrap();
    d.submit_work(work()).unwrap();
    assert_eq!(d.work_count(), 1);
    d.record_batch(None);
    d.record_batch(Some(77));
    assert_eq!(d.pending_results(), 1);
    assert_eq!(d.get_stats().unwrap().total_hashes, 2 * GPU_BATCH_SIZE as u64);
    let r = d.get_result().unwrap().unwrap();
    assert_eq!(r.device_id, 3);
    assert_eq!(r.nonce, 77);
    assert_eq!(r.work_id, 5);
    assert_eq!(r.share_difficulty_bits, 2.0f64.to_bits());
    assert_eq!(r.hash, hash_header_with_nonce(&vec![1u8; 80], 77));
    assert_eq!(d.get_stats().unwrap().accepted_work, 1);
    assert_eq!(d.get_stats().unwrap().rejected_work, 0);
    assert!(d.get_result().unwrap().is_none());
}

#[test]
fn results_are_taken_newest_first() {
    let mut d = device(0);
    d.submit_work(work()).unwrap();
    d.record_batch(Some(1));
    d.record_batch(Some(2));
    assert_eq!(d.get_result().unwrap().unwrap().nonce, 2);
    assert_eq!(d.get_result().unwrap().unwrap().nonce, 1);
}

#[test]
fn tuning_is_unsupported() {
    let mut d = device(0);
    match d.set_frequency(100) {
        Err(DeviceError::UnsupportedOperation(m)) => assert_eq!(m, "GPU设备不支持频率设置"),
        _ => panic!(),
    }
    match d.set_voltage(100) {
        Err(DeviceError::UnsupportedOperation(m)) => assert_eq!(m, "GPU设备不支持电压设置"),
        _ => panic!(),
    }
    match d.set_fan_speed(100) {
        Err(DeviceError::UnsupportedOperation(m)) => assert_eq!(m, "GPU设备不支持风扇控制"),
        _ => panic!(),
    }
}

#[test]
fn health_follows_running_and_manager() {
    let mut d = device(0);
    let mut m = GpuManager::new().unwrap();
    m.initialize().unwrap();
    assert!(!d.health_check(&m).unwrap());
    d.start().unwrap();
    assert!(d.health_check(&m).unwrap());
    m.shutdown().unwrap();
    assert!(!d.health_check(&m).unwrap());
}

#[test]
fn reset_clears_counters_and_runs() {
    let mut d = device(1);
    d.submit_work(work()).unwrap();
    d.record_batch(Some(9));
    d.get_result().unwrap();
    d.reset().unwrap();
    let s = d.get_stats().unwrap();
    assert_eq!((s.total_hashes, s.accepted_work, s.rejected_work), (0, 0, 0));
    assert!(d.is_running());
}

#[test]
fn mining_loop_needs_running_device_with_work() {
    let mut d = device(4);
    assert!(!d.can_mine());
    d.submit_work(work()).unwrap();
    assert!(!d.can_mine());
    d.start().unwrap();
    assert!(d.can_mine());
    assert!(d.work_hashable());
    let mut short = work();
    short.header = vec![0u8; 40];
    d.submit_work(short).unwrap();
    assert!(d.can_mine());
    assert!(!d.work_hashable());
    d.record_batch(None);
    assert_eq!(d.get_stats().unwrap().total_hashes, GPU_BATCH_SIZE as u64);
    assert_eq!(d.pending_results(), 0);
}

#[test]
fn hash_for_work_with_longer_header() {
    let mut w = work();
    w.header = vec![3u8; 84];
    assert_eq!(GpuDevice::calculate_hash_for_work(&w, 9), hash_header_with_nonce(&vec![3u8; 84], 9));
}
