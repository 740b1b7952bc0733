use cgminer_gpu_btc_core::config::{ConfigParams, ConfigValue, CoreConfig, JsonNumber};
use cgminer_gpu_btc_core::factory::GpuCoreFactory;
use cgminer_gpu_btc_core::types::Work;

fn create_test_config(device_count: u64) -> CoreConfig {
    let mut custom_params = ConfigParams::new();
    custom_params.insert("max_hashrate".to_string(), ConfigValue::Number(JsonNumber::PosInt(1_000_000_000)));
    custom_params.insert("device_count".to_string(), ConfigValue::Number(JsonNumber::PosInt(device_count)));
    CoreConfig { name: "Test-GPU-Core".to_string(), custom_params }
}

fn create_test_work() -> Work {
    let mut header = vec![0u8; 80];
    header[0..4].copy_from_slice(&1u32.to_le_bytes());
    header[68..72].copy_from_slice(&0x1d00ffffu32.to_le_bytes());
    header[72..76].copy_from_slice(&1_700_000_000u32.to_le_bytes());
    let mut target = vec![0xffu8; 32];
    target[31] = 0x0f;
    Work { id: 1, work_id: 1, job_id: "test_job".to_string(), header, target, difficulty_bits: 1.0f64.to_bits() }
}

#[test]
fn test_gpu_core_start_stop() {
    let factory = GpuCoreFactory::new();
    let mut core = factory.create_core(create_test_config(1)).expect("创建核心失败");
    let start_result = core.start();
    assert!(start_result.is_ok(), "GPU 核心启动失败: {:?}", start_result);
    let stop_result = core.stop();
    assert!(stop_result.is_ok(), "GPU 核心停止失败: {:?}", stop_result);
}

#[test]
fn test_work_submission_and_results() {
    let factory = GpuCoreFactory::new();
    let mut core = factory.create_core(create_test_config(1)).expect("创建核心失败");
    core.start().expect("启动失败");
    let submit_result = core.submit_work(create_test_work());
    assert!(submit_result.is_ok(), "提交工作失败: {:?}", submit_result);
    let results = core.collect_results().expect("收集结果失败");
    assert!(results.is_empty());
    core.stop().expect("停止失败");
}

#[test]
fn test_device_health_check() {
    let factory = GpuCoreFactory::new();
    let mut core = factory.create_core(create_test_config(1)).expect("创建核心失败");
    core.start().expect("启动失败");
    let health_result = core.health_check();
    assert!(health_result.is_ok(), "健康检查失败: {:?}", health_result);
    assert!(health_result.unwrap(), "设备健康检查未通过");
    core.stop().expect("停止失败");
}

#[test]
fn test_multi_device_concurrent_operations() {
    let factory = GpuCoreFactory::new();
    let mut core = factory.create_core(create_test_config(3)).expect("创建核心失败");
    core.start().expect("启动失败");
    let count = core.device_count().expect("获取设备数量失败");
    assert_eq!(count, 3);
    for device_id in 0..3u32 {
        assert!(device_id < count);
    }
    core.stop().expect("停止失败");
}

#[test]
fn test_device_creation_and_management() {
    let factory = GpuCoreFactory::new();
    let mut core = factory.create_core(create_test_config(2)).expect("创建核心失败");
    core.start().expect("启动失败");
    let device_count = core.device_count().expect("获取设备数量失败");
    assert_eq!(device_count, 2, "设备数量不正确");
    core.stop().expect("停止失败");
}
