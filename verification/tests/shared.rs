use parking_lot::RwLock;
use rendering::gpu::{GpuType, HwDeviceType, Platform};
use rendering::shared::SharedGpu;

fn unknown_gpu() -> SharedGpu {
    SharedGpu { gpu_type: RwLock::new(GpuType::default()), gpu_decoding: RwLock::new(true) }
}

#[test]
fn told_type_is_stored_for_later() {
    let gpu = unknown_gpu();
    let update = gpu.set_gpu_type_from_name("NVIDIA A100", Platform::Linux);
    assert_eq!(update.told, Some(GpuType::NVIDIA));
    assert_eq!(update.gpu_type, GpuType::NVIDIA);
    assert_eq!(update.devices, vec![HwDeviceType::Cuda]);
    assert_eq!(*gpu.gpu_type.read(), GpuType::NVIDIA);
    assert_eq!(
        gpu.get_possible_encoders("x265", true, Platform::Linux)[0],
        ("hevc_nvenc", true)
    );
}

#[test]
fn untold_type_is_left_as_it_was() {
    let gpu = unknown_gpu();
    *gpu.gpu_type.write() = GpuType::AMD;
    let update = gpu.set_gpu_type_from_name("something else", Platform::MacOs);
    assert_eq!(update.told, None);
    assert_eq!(update.gpu_type, GpuType::AMD);
    assert_eq!(update.devices, vec![HwDeviceType::D3d11va, HwDeviceType::VideoToolbox]);
    assert_eq!(*gpu.gpu_type.read(), GpuType::AMD);
}

#[test]
fn encoders_follow_the_shared_type() {
    let gpu = unknown_gpu();
    assert_eq!(
        gpu.get_possible_encoders("x264", true, Platform::Windows),
        vec![("h264_mf", true), ("h264_qsv", true), ("libx264", false)]
    );
    *gpu.gpu_type.write() = GpuType::AMD;
    assert_eq!(
        gpu.get_possible_encoders("x264", true, Platform::Windows),
        vec![("h264_amf", true), ("h264_mf", true), ("h264_qsv", true), ("libx264", false)]
    );
    assert_eq!(
        gpu.get_possible_encoders("x264", false, Platform::Windows),
        vec![("libx264", false)]
    );
}

#[test]
fn decoder_follows_the_shared_switch() {
    let gpu = unknown_gpu();
    assert!(gpu.choose_decoder(1).use_gpu);
    assert_eq!(gpu.choose_decoder(1).index, 1);
    assert!(!gpu.choose_decoder(-1).use_gpu);
    *gpu.gpu_decoding.write() = false;
    assert!(!gpu.choose_decoder(1).use_gpu);
}
