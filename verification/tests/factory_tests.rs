use cgminer_gpu_btc_core::config::{ConfigParams, ConfigValue, CoreConfig, JsonNumber};
use cgminer_gpu_btc_core::factory::GpuCoreFactory;
use cgminer_gpu_btc_core::types::{CoreError, CoreType};

fn config_with(name: &str, params: Vec<(&str, ConfigValue)>) -> CoreConfig {
    let mut custom_params = ConfigParams::new();
    for (k, v) in params {
        custom_params.insert(k.to_string(), v);
    }
    CoreConfig { name: name.to_string(), custom_params }
}

fn config_message(r: Result<(), CoreError>) -> String {
    match r {
        Err(CoreError::Config(m)) => m,
        other => panic!("expected a configuration error, got {:?}", other),
    }
}

#[test]
fn factory_test_factory_creation() {
    let factory = GpuCoreFactory::new();
    let info = factory.core_info();
    assert_eq!(info.name, "GPU Mining Core Factory");
    assert!(matches!(info.core_type, CoreType::Custom(ref s) if s == "gpu"));
}

#[test]
fn test_core_creation() {
    let factory = GpuCoreFactory::new();
    let config = factory.default_config();
    let core = factory.create_core(config);
    assert!(core.is_ok());
}

#[test]
fn test_config_validation() {
    let factory = GpuCoreFactory::new();

    let valid_config = factory.default_config();
    assert!(factory.validate_config(&valid_config).is_ok());

    let mut invalid_config = factory.default_config();
    invalid_config.name = "".to_string();
    assert!(factory.validate_config(&invalid_config).is_err());
}

#[test]
fn factory_core_type_is_gpu() {
    let factory = GpuCoreFactory::default();
    assert!(matches!(factory.core_type(), CoreType::Custom(ref s) if s == "gpu"));
}

#[test]
fn factory_default_config_values() {
    let factory = GpuCoreFactory::new();
    let c = factory.default_config();
    assert_eq!(c.name, "GPU Mining Core");
    assert!(matches!(
        c.custom_params.get(&"device_count".to_string()),
        Some(ConfigValue::Number(JsonNumber::PosInt(1)))
    ));
    assert!(matches!(
        c.custom_params.get(&"work_size".to_string()),
        Some(ConfigValue::Number(JsonNumber::PosInt(1024)))
    ));
}

#[test]
fn factory_rejects_each_bad_parameter() {
    let f = GpuCoreFactory::new();
    let cases: Vec<(Vec<(&str, ConfigValue)>, &str)> = vec![
        (vec![("max_hashrate", ConfigValue::Number(JsonNumber::PosInt(0)))], "最大算力必须大于0"),
        (vec![("max_hashrate", ConfigValue::Number(JsonNumber::NegInt(-5)))], "最大算力必须大于0"),
        (
            vec![("max_hashrate", ConfigValue::Number(JsonNumber::Float { negative: true, mantissa: 3, exponent: 0 }))],
            "最大算力必须大于0",
        ),
        (
            vec![("max_hashrate", ConfigValue::Number(JsonNumber::PosInt(100_000_000_000_001)))],
            "最大算力不能超过100 TH/s",
        ),
        (
            vec![("max_hashrate", ConfigValue::Number(JsonNumber::Float { negative: false, mantissa: 1, exponent: 47 }))],
            "最大算力不能超过100 TH/s",
        ),
        (vec![("max_hashrate", ConfigValue::Text("fast".to_string()))], "最大算力必须是数字"),
        (vec![("device_count", ConfigValue::Number(JsonNumber::PosInt(0)))], "设备数量必须大于0"),
        (vec![("device_count", ConfigValue::Number(JsonNumber::PosInt(17)))], "设备数量不能超过16"),
        (vec![("device_count", ConfigValue::Bool(true))], "设备数量必须是整数"),
        (vec![("work_size", ConfigValue::Number(JsonNumber::PosInt(0)))], "工作大小必须大于0"),
        (vec![("work_size", ConfigValue::Number(JsonNumber::PosInt(65536)))], "工作大小不能超过1024"),
        (
            vec![("work_size", ConfigValue::Number(JsonNumber::Float { negative: false, mantissa: 1, exponent: 8 }))],
            "工作大小必须是整数",
        ),
    ];
    for (params, expected) in cases {
        let c = config_with("gpu", params);
        assert_eq!(config_message(f.validate_config(&c)), expected);
    }
    assert_eq!(config_message(f.validate_config(&config_with("", vec![]))), "核心名称不能为空");
}

#[test]
fn factory_accepts_limits() {
    let f = GpuCoreFactory::new();
    let c = config_with(
        "gpu",
        vec![
            ("max_hashrate", ConfigValue::Number(JsonNumber::PosInt(100_000_000_000_000))),
            ("device_count", ConfigValue::Number(JsonNumber::PosInt(16))),
            ("work_size", ConfigValue::Number(JsonNumber::PosInt(1024))),
        ],
    );
    assert!(f.validate_config(&c).is_ok());
    // 2^46 < 1e14 <= 2^47
    let c = config_with(
        "gpu",
        vec![("max_hashrate", ConfigValue::Number(JsonNumber::Float { negative: false, mantissa: 1, exponent: 46 }))],
    );
    assert!(f.validate_config(&c).is_ok());
    // 1e14 * 2 / 2 with a negative exponent: exactly the limit
    let c = config_with(
        "gpu",
        vec![("max_hashrate", ConfigValue::Number(JsonNumber::Float { negative: false, mantissa: 200_000_000_000_000, exponent: -1 }))],
    );
    assert!(f.validate_config(&c).is_ok());
    let c = config_with(
        "gpu",
        vec![("max_hashrate", ConfigValue::Number(JsonNumber::Float { negative: false, mantissa: 200_000_000_000_002, exponent: -1 }))],
    );
    assert!(f.validate_config(&c).is_err());
}

#[test]
fn factory_checks_parameters_in_order() {
    let f = GpuCoreFactory::new();
    let c = config_with(
        "gpu",
        vec![
            ("work_size", ConfigValue::Number(JsonNumber::PosInt(0))),
            ("device_count", ConfigValue::Number(JsonNumber::PosInt(0))),
        ],
    );
    assert_eq!(config_message(f.validate_config(&c)), "设备数量必须大于0");
}

#[test]
fn create_core_fails_on_nonpositive_hashrate() {
    let f = GpuCoreFactory::new();
    let c = config_with("gpu", vec![("max_hashrate", ConfigValue::Number(JsonNumber::PosInt(0)))]);
    match f.create_core(c) {
        Err(CoreError::Config(m)) => assert_eq!(m, "最大算力必须大于0"),
        _ => panic!("expected a configuration error"),
    }
}

#[test]
fn create_core_accepts_what_only_the_factory_refuses() {
    // The core checks the name and the sign of max_hashrate only.
    let f = GpuCoreFactory::new();
    let c = config_with("gpu", vec![("device_count", ConfigValue::Number(JsonNumber::PosInt(99)))]);
    assert!(f.validate_config(&c).is_err());
    let core = f.create_core(c).expect("core");
    assert_eq!(core.get_info().name, "gpu");
}
