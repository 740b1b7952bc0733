use cgminer_gpu_btc_core::gpu_manager::{GpuInfo, GpuManager};

#[test]
fn test_gpu_manager_creation() {
    let manager = GpuManager::new();
    assert!(manager.is_ok());
}

#[test]
fn test_gpu_manager_initialization() {
    let mut manager = GpuManager::new().unwrap();
    let result = manager.initialize();
    assert!(result.is_ok());
}

#[test]
fn test_gpu_scanning() {
    let mut manager = GpuManager::new().unwrap();
    manager.initialize().unwrap();

    let gpus = manager.scan_gpus();
    assert!(gpus.is_ok());

    let gpu_list = gpus.unwrap();
    assert!(!gpu_list.is_empty());
}

#[test]
fn gpu_manager_test_health_check() {
    let mut manager = GpuManager::new().unwrap();
    manager.initialize().unwrap();

    let healthy = manager.is_healthy();
    assert!(healthy);
}

#[test]
fn manager_lists_the_simulated_gpus() {
    let mut manager = GpuManager::default();
    assert!(!manager.is_healthy());
    manager.initialize().unwrap();
    let gpus = manager.scan_gpus().unwrap();
    let names: Vec<&str> = gpus.iter().map(|g| g.name.as_str()).collect();
    assert_eq!(
        names,
        vec!["NVIDIA GeForce RTX 4090", "NVIDIA GeForce RTX 4080", "AMD Radeon RX 7900 XTX", "AMD Radeon RX 7800 XT"]
    );
    assert_eq!(gpus[2].gpu_type, "AMD");
    assert_eq!(manager.gpu_count().unwrap(), 4);
    assert_eq!(manager.available_gpu_count().unwrap(), 4);
    let g = manager.get_gpu_info(3).unwrap().unwrap();
    assert_eq!(g.id, 3);
    assert_eq!(g.memory_size, 8192);
    assert_eq!(g.temperature, 6500);
    assert!(manager.get_gpu_info(9).unwrap().is_none());
}

#[test]
fn manager_initialize_twice_keeps_gpus() {
    let mut manager = GpuManager::new().unwrap();
    manager.initialize().unwrap();
    manager.initialize().unwrap();
    assert_eq!(manager.gpu_count().unwrap(), 4);
}

#[test]
fn manager_shutdown_clears_and_is_unhealthy() {
    let mut manager = GpuManager::new().unwrap();
    manager.initialize().unwrap();
    manager.shutdown().unwrap();
    assert!(!manager.is_healthy());
    assert_eq!(manager.gpu_count().unwrap(), 0);
    manager.shutdown().unwrap();
    assert_eq!(manager.gpu_count().unwrap(), 0);
}

#[test]
fn update_status_stays_in_range() {
    let mut manager = GpuManager::new().unwrap();
    manager.initialize().unwrap();
    for _ in 0..50 {
        manager.update_gpu_status().unwrap();
        for g in manager.scan_gpus().unwrap() {
            assert!((6000..8500).contains(&g.temperature));
            assert!((15000..25000).contains(&g.power_usage));
            if g.temperature > 7500 {
                assert!((70..100).contains(&g.fan_speed));
            } else {
                assert!((30..70).contains(&g.fan_speed));
            }
            assert!(g.available);
            assert_eq!(g.memory_size, 8192);
            assert_eq!(g.core_clock, 1500);
        }
        assert!(manager.is_healthy());
        assert_eq!(manager.available_gpu_count().unwrap(), 4);
    }
}

#[test]
fn apply_readings_decides_availability() {
    let mut g = GpuInfo::new(7, "X".to_string(), "NVIDIA".to_string());
    g.apply_readings(9000, 1000, 5);
    assert!(!g.available);
    assert_eq!(g.fan_speed, 75);
    g.apply_readings(7000, 29999, 39);
    assert!(g.available);
    assert_eq!(g.fan_speed, 69);
    g.apply_readings(7000, 30000, 0);
    assert!(!g.available);
}
