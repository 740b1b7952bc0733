use cgminer_gpu_btc_core::types::CoreType;
use cgminer_gpu_btc_core::{create_factory, get_core_info, VERSION};

#[test]
fn test_core_info() {
    let info = get_core_info();
    assert_eq!(info.name, "GPU Mining Core");
    assert!(matches!(info.core_type, CoreType::Custom(ref s) if s == "gpu"));
    assert!(info.supported_devices.contains(&"gpu".to_string()));
}

#[test]
fn lib_test_factory_creation() {
    let factory = create_factory();
    let info = factory.core_info();
    assert_eq!(info.name, "GPU Mining Core");
}

#[test]
fn core_info_fields() {
    let info = get_core_info();
    assert_eq!(info.version, VERSION);
    assert_eq!(info.author, "CGMiner Rust Team");
    assert_eq!(info.supported_devices, vec!["gpu".to_string()]);
    assert_eq!(info.description, "GPU挖矿核心，支持Mac M4 Metal、OpenCL、CUDA等多种GPU平台");
}
