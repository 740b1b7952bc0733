use cgminer_gpu_btc_core::platform_detector::{GpuPlatform, PlatformDetector};

const ALL: [GpuPlatform; 6] = [
    GpuPlatform::MacMetal,
    GpuPlatform::NvidiaCuda,
    GpuPlatform::AmdOpenCl,
    GpuPlatform::IntelOpenCl,
    GpuPlatform::GenericOpenCl,
    GpuPlatform::Unknown,
];

#[test]
fn platform_names_and_priorities() {
    let names: Vec<&str> = ALL.iter().map(|p| p.name()).collect();
    assert_eq!(names, vec!["Mac Metal", "NVIDIA CUDA", "AMD OpenCL", "Intel OpenCL", "Generic OpenCL", "Unknown"]);
    let prios: Vec<u32> = ALL.iter().map(|p| p.priority()).collect();
    assert_eq!(prios, vec![1, 2, 3, 4, 5, 999]);
}

#[test]
fn no_platform_available_in_this_build() {
    for p in ALL.iter() {
        assert!(!p.is_available());
    }
    let mut d = PlatformDetector::new();
    let found = d.detect_platforms().unwrap();
    assert!(found.is_empty());
    assert!(d.get_best_platform().is_none());
    assert!(d.get_detected_platforms().is_empty());
    assert!(!d.is_platform_available(&GpuPlatform::MacMetal));
}

#[test]
fn recorded_detection_is_in_priority_order() {
    let mut d = PlatformDetector::default();
    let found = d.record_detection(&vec![false, true, false, true, true]);
    assert_eq!(found, vec![GpuPlatform::NvidiaCuda, GpuPlatform::IntelOpenCl, GpuPlatform::GenericOpenCl]);
    assert_eq!(d.get_best_platform(), Some(&GpuPlatform::NvidiaCuda));
    assert!(d.is_platform_available(&GpuPlatform::IntelOpenCl));
    assert!(!d.is_platform_available(&GpuPlatform::AmdOpenCl));
    assert_eq!(d.get_platform_details(&GpuPlatform::NvidiaCuda).map(|s| s.as_str()), Some("NVIDIA CUDA GPU (预留)"));
    assert!(d.get_platform_details(&GpuPlatform::AmdOpenCl).is_none());
    // A later detection replaces the detected list but keeps earlier details.
    let found = d.record_detection(&vec![true, false, false, false, false]);
    assert_eq!(found, vec![GpuPlatform::MacMetal]);
    assert_eq!(d.get_detected_platforms(), &[GpuPlatform::MacMetal]);
    assert_eq!(d.get_platform_details(&GpuPlatform::MacMetal).map(|s| s.as_str()), Some("Mac Metal GPU"));
    assert_eq!(d.get_platform_details(&GpuPlatform::NvidiaCuda).map(|s| s.as_str()), Some("NVIDIA CUDA GPU (预留)"));
}

#[test]
fn device_info_for_platform() {
    let d = PlatformDetector::new();
    let i = d.create_device_info_for_platform(&GpuPlatform::AmdOpenCl, 12).unwrap();
    assert_eq!(i.id, 12);
    assert_eq!(i.name, "AMD OpenCL GPU 12");
    assert_eq!(i.device_type, "amd-opencl");
    assert_eq!(i.chain_id, 0);
    let i = d.create_device_info_for_platform(&GpuPlatform::MacMetal, 3).unwrap();
    assert_eq!(i.name, "Mac Metal GPU");
    assert_eq!(i.device_type, "mac-metal");
    let i = d.create_device_info_for_platform(&GpuPlatform::Unknown, 4294967295).unwrap();
    assert_eq!(i.name, "Unknown GPU 4294967295");
    let i = d.create_device_info_for_platform(&GpuPlatform::NvidiaCuda, 0).unwrap();
    assert_eq!(i.name, "NVIDIA CUDA GPU 0");
}

#[test]
fn recommended_device_counts() {
    let d = PlatformDetector::new();
    for p in ALL.iter() {
        let expected = if *p == GpuPlatform::Unknown { 0 } else { 1 };
        assert_eq!(d.get_recommended_device_count(p), expected);
    }
}

#[test]
fn unknown_is_never_detected() {
    let mut d = PlatformDetector::new();
    let found = d.record_detection(&vec![true, true, true, true, true]);
    assert_eq!(found.len(), 5);
    assert!(!d.is_platform_available(&GpuPlatform::Unknown));
    assert!(!d.get_detected_platforms().contains(&GpuPlatform::Unknown));
    assert_eq!(d.get_best_platform(), Some(&GpuPlatform::MacMetal));
}
