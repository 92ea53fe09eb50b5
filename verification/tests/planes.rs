use rendering::planes::{
    conversion_for, plane_layout, plane_setup, Channels, PixelFormat, PixelKind, PlaneGeometry,
    PlaneSpec, CONVERTED_FORMAT,
};

fn described(format: PixelFormat) -> Vec<(PixelKind, usize, Vec<usize>)> {
    plane_layout(format).iter().map(|p| (p.kind, p.index, p.channels.to_vec())).collect()
}

#[test]
fn interleaved_formats_have_two_planes() {
    assert_eq!(
        described(PixelFormat::NV12),
        vec![(PixelKind::Luma8, 0, vec![0]), (PixelKind::UV8, 1, vec![1, 2])]
    );
    assert_eq!(
        described(PixelFormat::NV21),
        vec![(PixelKind::Luma8, 0, vec![0]), (PixelKind::UV8, 1, vec![2, 1])]
    );
    for format in [PixelFormat::P010LE, PixelFormat::P016LE] {
        assert_eq!(
            described(format),
            vec![(PixelKind::Luma16, 0, vec![0]), (PixelKind::UV16, 1, vec![1, 2])]
        );
    }
}

#[test]
fn planar_formats_have_three_planes() {
    for format in [PixelFormat::YUV420P, PixelFormat::YUVJ420P] {
        assert_eq!(
            described(format),
            vec![
                (PixelKind::Luma8, 0, vec![0]),
                (PixelKind::Luma8, 1, vec![1]),
                (PixelKind::Luma8, 2, vec![2]),
            ]
        );
    }
    for format in [PixelFormat::YUV420P10LE, PixelFormat::YUV420P16LE] {
        assert_eq!(
            described(format),
            vec![
                (PixelKind::Luma16, 0, vec![0]),
                (PixelKind::Luma16, 1, vec![1]),
                (PixelKind::Luma16, 2, vec![2]),
            ]
        );
    }
}

#[test]
fn other_formats_are_converted() {
    for format in [
        PixelFormat::YUV422P10LE,
        PixelFormat::YUVA444P10LE,
        PixelFormat::YUV444P16LE,
        PixelFormat::RGB24,
        PixelFormat::RGB48BE,
        PixelFormat::Other(-1),
        PixelFormat::Other(77),
    ] {
        assert_eq!(conversion_for(format), Some(PixelFormat::YUV444P16LE));
        assert_eq!(described(format), described(CONVERTED_FORMAT));
        assert_eq!(described(format), described(PixelFormat::YUV420P16LE));
    }
}

#[test]
fn direct_formats_are_not_converted() {
    for format in [
        PixelFormat::NV12,
        PixelFormat::NV21,
        PixelFormat::P010LE,
        PixelFormat::P016LE,
        PixelFormat::YUV420P,
        PixelFormat::YUVJ420P,
        PixelFormat::YUV420P10LE,
        PixelFormat::YUV420P16LE,
    ] {
        assert_eq!(conversion_for(format), None);
    }
}

#[test]
fn setup_takes_over_both_geometries() {
    let plane = PlaneSpec { kind: PixelKind::UV16, index: 1, channels: Channels::Pair(1, 2) };
    let setup = plane_setup(
        plane,
        PlaneGeometry { width: 1920, height: 1080, stride: 4096 },
        PlaneGeometry { width: 1280, height: 720, stride: 2560 },
    );
    assert_eq!(setup.plane, plane);
    assert_eq!(setup.size, (1920, 1080));
    assert_eq!(setup.stride, 4096);
    assert_eq!(setup.output_size, (1280, 720));
    assert_eq!(setup.output_stride, 2560);
}
