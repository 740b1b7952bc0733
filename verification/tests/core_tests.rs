use cgminer_gpu_btc_core::config::{ConfigParams, ConfigValue, CoreConfig, JsonNumber};
use cgminer_gpu_btc_core::gpu_manager::GpuManager;
use cgminer_gpu_btc_core::mining_core::GpuMiningCore;
use cgminer_gpu_btc_core::types::{CoreError, DeviceInfo, Work};

fn config(name: &str) -> CoreConfig {
    let mut custom_params = ConfigParams::new();
    custom_params.insert("max_hashrate".to_string(), ConfigValue::Number(JsonNumber::PosInt(1_000_000_000)));
    custom_params.insert("device_count".to_string(), ConfigValue::Number(JsonNumber::PosInt(1)));
    CoreConfig { name: name.to_string(), custom_params }
}

fn work() -> Work {
    Work { id: 9, work_id: 3, job_id: "test_job".to_string(), header: vec![0u8; 80], target: vec![0xff; 32], difficulty_bits: 0 }
}

fn started_core() -> GpuMiningCore {
    let mut core = GpuMiningCore::new("Test-GPU-Core".to_string());
    core.initialize(config("Test-GPU-Core")).unwrap();
    core.start().unwrap();
    core
}

#[test]
fn new_core_description() {
    let core = GpuMiningCore::new("c".to_string());
    assert_eq!(core.get_info().name, "c");
    assert_eq!(core.get_info().supported_devices, vec!["gpu", "opencl", "cuda"]);
    let caps = core.get_capabilities();
    assert_eq!(caps.max_devices, Some(16));
    assert!(!caps.supports_multiple_chains);
    assert_eq!(caps.supported_algorithms, vec!["SHA256", "SHA256d"]);
    assert!(core.gpu_manager().is_none());
    assert_eq!(core.get_stats().unwrap().core_name, "c");
}

#[test]
fn start_requires_manager() {
    let mut core = GpuMiningCore::new("c".to_string());
    match core.start() {
        Err(CoreError::Runtime(m)) => assert_eq!(m, "GPU管理器未初始化"),
        _ => panic!("expected missing manager"),
    }
    assert!(core.scan_devices().is_err());
    assert!(core.create_device(DeviceInfo::new(0, "d".to_string(), "gpu".to_string(), 0)).is_err());
    assert!(!core.health_check().unwrap());
}

#[test]
fn start_creates_configured_devices() {
    let mut core = started_core();
    assert_eq!(core.device_count().unwrap(), 1);
    assert!(core.health_check().unwrap());
    let infos = core.scan_devices().unwrap();
    assert_eq!(infos[3].name, "GPU-3");
    assert_eq!(infos[3].device_type, "gpu");
    core.start().unwrap();
    assert_eq!(core.device_count().unwrap(), 1);
}

fn core_with_params(params: Vec<(&str, ConfigValue)>) -> GpuMiningCore {
    let mut custom_params = ConfigParams::new();
    for (k, v) in params {
        custom_params.insert(k.to_string(), v);
    }
    let mut core = GpuMiningCore::new("c".to_string());
    core.initialize(CoreConfig { name: "c".to_string(), custom_params }).unwrap();
    core.start().unwrap();
    core
}

#[test]
fn device_count_follows_configuration() {
    let two = core_with_params(vec![("device_count", ConfigValue::Number(JsonNumber::PosInt(2)))]);
    assert_eq!(two.device_count().unwrap(), 2);
    let three = core_with_params(vec![("device_count", ConfigValue::Number(JsonNumber::PosInt(3)))]);
    assert_eq!(three.device_count().unwrap(), 3);
    let capped = core_with_params(vec![("device_count", ConfigValue::Number(JsonNumber::PosInt(16)))]);
    assert_eq!(capped.device_count().unwrap(), 4);
    let absent = core_with_params(vec![]);
    assert_eq!(absent.device_count().unwrap(), 4);
    let not_integer = core_with_params(vec![("device_count", ConfigValue::Bool(true))]);
    assert_eq!(not_integer.device_count().unwrap(), 4);
    let zero = core_with_params(vec![("device_count", ConfigValue::Number(JsonNumber::PosInt(0)))]);
    assert_eq!(zero.device_count().unwrap(), 0);
}

#[test]
fn stop_makes_core_unhealthy_and_restart_recovers() {
    let mut core = started_core();
    core.stop().unwrap();
    assert!(!core.health_check().unwrap());
    core.stop().unwrap();
    core.restart().unwrap();
    assert!(core.health_check().unwrap());
    assert_eq!(core.device_count().unwrap(), 1);
}

#[test]
fn submit_work_needs_devices() {
    let mut core = GpuMiningCore::new("c".to_string());
    match core.submit_work(work()) {
        Err(CoreError::Runtime(m)) => assert_eq!(m, "没有设备成功接收工作"),
        _ => panic!("expected no device"),
    }
    let mut core = started_core();
    assert!(core.submit_work(work()).is_ok());
    assert!(core.collect_results().unwrap().is_empty());
}

#[test]
fn initialize_rejects_bad_configuration() {
    let mut core = GpuMiningCore::new("c".to_string());
    match core.initialize(config("")) {
        Err(CoreError::Config(m)) => assert_eq!(m, "核心名称不能为空"),
        _ => panic!("expected config error"),
    }
    assert!(core.gpu_manager().is_none());
    let mut c = config("x");
    c.custom_params.insert("max_hashrate".to_string(), ConfigValue::Number(JsonNumber::NegInt(-1)));
    assert!(core.validate_config(&c).is_err());
    c.custom_params.insert("max_hashrate".to_string(), ConfigValue::Text("n/a".to_string()));
    assert!(core.validate_config(&c).is_ok());
}

#[test]
fn core_default_config_values() {
    let core = GpuMiningCore::new("c".to_string());
    let c = core.default_config();
    assert_eq!(c.name, "GPU Mining Core");
    assert!(core.validate_config(&c).is_ok());
    assert!(matches!(
        c.custom_params.get(&"device_count".to_string()),
        Some(ConfigValue::Number(JsonNumber::PosInt(8)))
    ));
}

#[test]
fn get_devices_is_unsupported() {
    let core = GpuMiningCore::new("c".to_string());
    assert!(core.get_devices().is_err());
}

#[test]
fn shutdown_releases_everything() {
    let mut core = started_core();
    core.shutdown().unwrap();
    assert_eq!(core.device_count().unwrap(), 0);
    assert!(!core.health_check().unwrap());
    assert!(!core.gpu_manager().unwrap().is_healthy());
}

#[test]
fn set_gpu_manager_enables_start() {
    let mut core = GpuMiningCore::new("c".to_string());
    let mut m = GpuManager::new().unwrap();
    m.initialize().unwrap();
    core.set_gpu_manager(m);
    core.start().unwrap();
    assert_eq!(core.device_count().unwrap(), 4);
}

#[test]
fn device_batches_are_recorded_per_device() {
    let mut core = started_core();
    let n = core.device_count().unwrap() as usize;
    assert!(n > 0);
    assert!(!core.record_device_batch(0, None));
    core.submit_work(work()).unwrap();
    assert!(core.record_device_batch(0, Some(42)));
    assert!(core.record_device_batch(0, None));
    assert!(!core.record_device_batch(n, None));
    let results = core.collect_results().unwrap();
    assert_eq!(results.len(), 1);
    assert_eq!(results[0].device_id, 0);
    assert_eq!(results[0].nonce, 42);
    assert_eq!(results[0].work_id, 9);
}

#[test]
fn device_batch_with_short_header_share_is_refused() {
    let mut core = started_core();
    let mut w = work();
    w.header = vec![0u8; 10];
    core.submit_work(w).unwrap();
    assert!(!core.record_device_batch(0, Some(1)));
    assert!(core.record_device_batch(0, None));
    assert!(core.collect_results().unwrap().is_empty());
}

#[test]
fn restart_rebuilds_running_devices() {
    let mut core = core_with_params(vec![("device_count", ConfigValue::Number(JsonNumber::PosInt(2)))]);
    core.submit_work(work()).unwrap();
    core.restart().unwrap();
    assert_eq!(core.device_count().unwrap(), 2);
    assert!(core.health_check().unwrap());
    assert!(!core.record_device_batch(0, None));
    let mut missing = GpuMiningCore::new("m".to_string());
    match missing.restart() {
        Err(CoreError::Runtime(m)) => assert_eq!(m, "GPU管理器未初始化"),
        _ => panic!("expected missing manager"),
    }
}
