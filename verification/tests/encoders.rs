use rendering::encoders::get_possible_encoders;
use rendering::gpu::{set_gpu_type_from_name, GpuType, Platform};

const GPUS: [GpuType; 4] = [GpuType::NVIDIA, GpuType::AMD, GpuType::Intel, GpuType::Unknown];
const PLATFORMS: [Platform; 5] =
    [Platform::Windows, Platform::Linux, Platform::MacOs, Platform::Ios, Platform::Other];

#[test]
fn x264_on_linux_with_nvidia() {
    assert_eq!(
        get_possible_encoders("x264", true, GpuType::NVIDIA, Platform::Linux),
        vec![
            ("h264_nvenc", true),
            ("nvenc", true),
            ("nvenc_h264", true),
            ("h264_vaapi", true),
            ("h264_qsv", true),
            ("h264_v4l2m2m", true),
            ("libx264", false),
        ]
    );
}

#[test]
fn x264_on_windows_by_vendor() {
    assert_eq!(
        get_possible_encoders("x264", true, GpuType::NVIDIA, Platform::Windows),
        vec![
            ("h264_nvenc", true),
            ("nvenc", true),
            ("nvenc_h264", true),
            ("h264_mf", true),
            ("h264_qsv", true),
            ("libx264", false),
        ]
    );
    assert_eq!(
        get_possible_encoders("x264", true, GpuType::AMD, Platform::Windows),
        vec![("h264_amf", true), ("h264_mf", true), ("h264_qsv", true), ("libx264", false)]
    );
    assert_eq!(
        get_possible_encoders("x264", true, GpuType::Intel, Platform::Windows),
        vec![("h264_mf", true), ("h264_qsv", true), ("libx264", false)]
    );
}

#[test]
fn x265_by_system() {
    assert_eq!(
        get_possible_encoders("x265", true, GpuType::AMD, Platform::Windows),
        vec![("hevc_amf", true), ("hevc_mf", true), ("hevc_qsv", true), ("libx265", false)]
    );
    assert_eq!(
        get_possible_encoders("x265", true, GpuType::NVIDIA, Platform::Linux),
        vec![
            ("hevc_nvenc", true),
            ("nvenc_hevc", true),
            ("hevc_vaapi", true),
            ("hevc_qsv", true),
            ("hevc_v4l2m2m", true),
            ("libx265", false),
        ]
    );
    assert_eq!(
        get_possible_encoders("x265", true, GpuType::Unknown, Platform::Linux),
        vec![("hevc_vaapi", true), ("hevc_qsv", true), ("hevc_v4l2m2m", true), ("libx265", false)]
    );
    for platform in [Platform::MacOs, Platform::Ios] {
        assert_eq!(
            get_possible_encoders("x265", true, GpuType::AMD, platform),
            vec![("hevc_videotoolbox", true), ("libx265", false)]
        );
    }
    assert_eq!(
        get_possible_encoders("x265", true, GpuType::NVIDIA, Platform::Other),
        vec![("libx265", false)]
    );
}

#[test]
fn software_encoder_is_the_only_one_without_gpu() {
    for gpu_type in GPUS {
        for platform in PLATFORMS {
            assert_eq!(
                get_possible_encoders("x264", false, gpu_type, platform),
                vec![("libx264", false)]
            );
            assert_eq!(
                get_possible_encoders("x265", false, gpu_type, platform),
                vec![("libx265", false)]
            );
            for use_gpu in [false, true] {
                assert_eq!(
                    get_possible_encoders("ProRes", use_gpu, gpu_type, platform),
                    vec![("prores_ks", false)]
                );
            }
        }
    }
}

#[test]
fn software_encoder_comes_last() {
    for gpu_type in GPUS {
        for platform in PLATFORMS {
            let encoders = get_possible_encoders("x264", true, gpu_type, platform);
            assert_eq!(encoders.last(), Some(&("libx264", false)));
            assert!(encoders[..encoders.len() - 1].iter().all(|encoder| encoder.1));
        }
    }
}

#[test]
fn png_needs_only_be_mentioned() {
    for codec in ["PNG Sequence", "png", "PNG", "x264 as png"] {
        for use_gpu in [false, true] {
            assert_eq!(
                get_possible_encoders(codec, use_gpu, GpuType::AMD, Platform::Windows),
                vec![("png", false)]
            );
        }
    }
    assert_eq!(get_possible_encoders("Png", true, GpuType::AMD, Platform::Windows), vec![]);
}

#[test]
fn unknown_codecs_have_no_encoder() {
    for codec in ["", "X264", "x264 ", "prores", "x26"] {
        assert_eq!(get_possible_encoders(codec, true, GpuType::NVIDIA, Platform::Linux), vec![]);
        assert_eq!(get_possible_encoders(codec, false, GpuType::NVIDIA, Platform::Linux), vec![]);
    }
}

#[test]
fn no_encoder_is_listed_twice() {
    for codec in ["x264", "x265", "ProRes", "PNG"] {
        for gpu_type in GPUS {
            for platform in PLATFORMS {
                let encoders = get_possible_encoders(codec, true, gpu_type, platform);
                for i in 0..encoders.len() {
                    for j in 0..i {
                        assert_ne!(encoders[i].0, encoders[j].0);
                    }
                }
            }
        }
    }
}

#[test]
fn unknown_gpu_is_offered_nothing_of_its_own() {
    for gpu_type in GPUS {
        for platform in PLATFORMS {
            let all = get_possible_encoders("x265", true, gpu_type, platform);
            for encoder in get_possible_encoders("x265", true, GpuType::Unknown, platform) {
                assert!(all.contains(&encoder));
            }
        }
    }
}

#[test]
fn device_name_decides_the_vendor_encoders() {
    let mut gpu_type = GpuType::Unknown;
    set_gpu_type_from_name(&mut gpu_type, "Radeon (amd)", Platform::Windows);
    let encoders = get_possible_encoders("x264", true, gpu_type, Platform::Windows);
    assert!(encoders.contains(&("h264_amf", true)));
    assert!(!encoders.contains(&("nvenc", true)));
    set_gpu_type_from_name(&mut gpu_type, "NVIDIA T4", Platform::Windows);
    let encoders = get_possible_encoders("x264", true, gpu_type, Platform::Windows);
    assert!(!encoders.contains(&("h264_amf", true)));
    assert!(encoders.contains(&("nvenc", true)));
}
