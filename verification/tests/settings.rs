use rendering::planes::PixelFormat;
use rendering::settings::{choose_decoder, encoder_settings, output_size, plan_render};

#[test]
fn decoder_needs_the_switch_and_an_index() {
    let choice = choose_decoder(true, 2);
    assert!(choice.use_gpu);
    assert_eq!(choice.index, 2);
    let choice = choose_decoder(false, 2);
    assert!(!choice.use_gpu);
    assert_eq!(choice.index, 2);
    assert!(choose_decoder(true, 0).use_gpu);
    assert_eq!(choose_decoder(true, i32::MAX).index, i32::MAX as usize);
}

#[test]
fn negative_decoder_index_wraps() {
    for index in [-1, -2, i32::MIN] {
        let choice = choose_decoder(true, index);
        assert!(!choice.use_gpu);
        assert_eq!(choice.index, index as usize);
    }
}

#[test]
fn prores_profiles_have_number_and_format() {
    let profiles = [
        ("Proxy", "0", PixelFormat::YUV422P10LE),
        ("LT", "1", PixelFormat::YUV422P10LE),
        ("Standard", "2", PixelFormat::YUV422P10LE),
        ("HQ", "3", PixelFormat::YUV422P10LE),
        ("4444", "4", PixelFormat::YUVA444P10LE),
        ("4444XQ", "5", PixelFormat::YUVA444P10LE),
    ];
    for (name, number, format) in profiles {
        let settings = encoder_settings("prores_ks", name);
        assert_eq!(
            settings.options,
            vec![("threads", "auto"), ("profile", number), ("allow_sw", "1")]
        );
        assert_eq!(settings.pixel_format, Some(format));
    }
}

#[test]
fn unknown_prores_profile_is_left_to_the_encoder() {
    for option in ["", "hq", "4444X", "Proxy "] {
        let settings = encoder_settings("prores_ks", option);
        assert_eq!(settings.options, vec![("threads", "auto"), ("allow_sw", "1")]);
        assert_eq!(settings.pixel_format, None);
    }
}

#[test]
fn png_depth_follows_the_option() {
    assert_eq!(encoder_settings("png", "16-bit").pixel_format, Some(PixelFormat::RGB48BE));
    assert_eq!(encoder_settings("png", "PNG 16-bit").pixel_format, Some(PixelFormat::RGB48BE));
    assert_eq!(encoder_settings("png", "8-bit").pixel_format, Some(PixelFormat::RGB24));
    assert_eq!(encoder_settings("png", "").pixel_format, Some(PixelFormat::RGB24));
    assert_eq!(
        encoder_settings("png", "16-bit").options,
        vec![("threads", "auto"), ("allow_sw", "1")]
    );
}

#[test]
fn other_encoders_ignore_the_option() {
    for option in ["HQ", "16-bit", ""] {
        let settings = encoder_settings("libx264", option);
        assert_eq!(settings.options, vec![("threads", "auto"), ("allow_sw", "1")]);
        assert_eq!(settings.pixel_format, None);
    }
}

#[test]
fn output_size_is_cut_to_32_bits() {
    assert_eq!(output_size(1920, 1080), (1920, 1080));
    assert_eq!(output_size(u32::MAX as usize, 0), (u32::MAX, 0));
    let large = (u32::MAX as usize).wrapping_add(3);
    assert_eq!(output_size(large, large), (large as u32, large as u32));
}

#[test]
fn plan_holds_all_choices() {
    let plan = plan_render("prores_ks", false, "LT", true, 3840, 2160);
    assert_eq!(plan.video_codec, "prores_ks");
    assert!(!plan.gpu_encoding);
    assert_eq!(plan.settings.options[1], ("profile", "1"));
    assert_eq!(plan.settings.pixel_format, Some(PixelFormat::YUV422P10LE));
    assert!(plan.keep_audio);
    assert_eq!(plan.output_size, (3840, 2160));
    let plan = plan_render("h264_nvenc", true, "", false, 1, 2);
    assert_eq!(plan.video_codec, "h264_nvenc");
    assert!(plan.gpu_encoding);
    assert!(!plan.keep_audio);
}
