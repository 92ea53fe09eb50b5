use parking_lot::RwLock;
use rendering::gpu::{gpu_type_from_name, set_gpu_type_from_name, GpuType, HwDeviceType, Platform};

#[test]
fn vendors_are_told_from_the_name() {
    assert_eq!(gpu_type_from_name("NVIDIA GeForce RTX 3080"), Some(GpuType::NVIDIA));
    assert_eq!(gpu_type_from_name("AMD Radeon RX 6800"), Some(GpuType::AMD));
    assert_eq!(gpu_type_from_name("Advanced Micro Devices, Inc. Navi 21"), Some(GpuType::AMD));
    assert_eq!(gpu_type_from_name("Intel(R) UHD Graphics 630"), Some(GpuType::Intel));
    assert_eq!(gpu_type_from_name("Apple M1"), None);
    assert_eq!(gpu_type_from_name(""), None);
}

#[test]
fn intel_processor_is_no_gpu() {
    assert_eq!(gpu_type_from_name("Intel(R) Core(TM) i7-9700K CPU @ 3.60GHz"), None);
    assert_eq!(gpu_type_from_name("Intel Core graphics"), Some(GpuType::Intel));
}

#[test]
fn ascii_case_of_the_name_is_ignored() {
    assert_eq!(gpu_type_from_name("nViDiA"), Some(GpuType::NVIDIA));
    assert_eq!(gpu_type_from_name("amd"), Some(GpuType::AMD));
    assert_eq!(gpu_type_from_name("INTEL"), Some(GpuType::Intel));
}

#[test]
fn non_ascii_letters_are_left_alone() {
    // The Kelvin sign lower-cases to an ASCII letter in Unicode, but not in ASCII.
    assert_eq!(gpu_type_from_name("\u{212a} AMD \u{c4}"), Some(GpuType::AMD));
    assert_eq!(gpu_type_from_name("\u{130}NTEL"), None);
}

#[test]
fn nvidia_goes_before_other_vendors() {
    assert_eq!(gpu_type_from_name("AMD Ryzen with NVIDIA GPU"), Some(GpuType::NVIDIA));
    assert_eq!(gpu_type_from_name("Intel with AMD"), Some(GpuType::AMD));
}

#[test]
fn devices_follow_the_type() {
    let mut gpu_type = GpuType::default();
    assert_eq!(gpu_type, GpuType::Unknown);
    let devices = set_gpu_type_from_name(&mut gpu_type, "GeForce by NVIDIA", Platform::Windows);
    assert_eq!(gpu_type, GpuType::NVIDIA);
    assert_eq!(devices, vec![HwDeviceType::Cuda]);
    let devices = set_gpu_type_from_name(&mut gpu_type, "AMD", Platform::MacOs);
    assert_eq!(gpu_type, GpuType::AMD);
    assert_eq!(devices, vec![HwDeviceType::D3d11va, HwDeviceType::VideoToolbox]);
    let devices = set_gpu_type_from_name(&mut gpu_type, "Intel Iris", Platform::Ios);
    assert_eq!(gpu_type, GpuType::Intel);
    assert_eq!(devices, vec![HwDeviceType::VideoToolbox]);
    let devices = set_gpu_type_from_name(&mut gpu_type, "Intel Iris", Platform::Linux);
    assert_eq!(devices, vec![]);
}

#[test]
fn name_that_tells_nothing_keeps_the_type() {
    let mut gpu_type = GpuType::NVIDIA;
    let devices = set_gpu_type_from_name(&mut gpu_type, "llvmpipe", Platform::Linux);
    assert_eq!(gpu_type, GpuType::NVIDIA);
    assert_eq!(devices, vec![HwDeviceType::Cuda]);
}

#[test]
fn name_seen_again_changes_nothing() {
    let mut gpu_type = GpuType::Unknown;
    let first = set_gpu_type_from_name(&mut gpu_type, "AMD Radeon", Platform::Linux);
    let second = set_gpu_type_from_name(&mut gpu_type, "AMD Radeon", Platform::Linux);
    assert_eq!(gpu_type, GpuType::AMD);
    assert_eq!(first, second);
}

#[test]
fn type_can_stand_behind_a_lock() {
    let shared = RwLock::new(GpuType::Unknown);
    set_gpu_type_from_name(&mut shared.write(), "NVIDIA", Platform::Other);
    assert_eq!(*shared.read(), GpuType::NVIDIA);
}
