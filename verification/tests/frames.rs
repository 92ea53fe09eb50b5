use rendering::frames::{FrameAction, FrameEvent, FrameSession, Progress, RenderError};
use rendering::planes::{plane_layout, plane_setup, PixelFormat, PlaneGeometry, PlaneSetup};

fn setups(format: PixelFormat) -> Vec<PlaneSetup> {
    let geometry = PlaneGeometry { width: 64, height: 32, stride: 64 };
    plane_layout(format).iter().map(|plane| plane_setup(*plane, geometry, geometry)).collect()
}

#[test]
fn first_frame_is_prepared_then_undistorted_then_reported() {
    let mut session = FrameSession::new(25);
    match session.step(FrameEvent::Arrived(PixelFormat::NV12)) {
        FrameAction::Prepare { convert_to, layout } => {
            assert_eq!(convert_to, None);
            assert_eq!(layout, plane_layout(PixelFormat::NV12));
        }
        other => panic!("{:?}", other),
    }
    match session.step(FrameEvent::Prepared(PixelFormat::NV12, setups(PixelFormat::NV12))) {
        FrameAction::Undistort { convert_to, planes } => {
            assert_eq!(convert_to, None);
            assert_eq!(planes, 2);
        }
        other => panic!("{:?}", other),
    }
    match session.step(FrameEvent::Undistorted) {
        FrameAction::Report(progress) => {
            assert_eq!(progress, Progress { frame: 1, frame_count: 25, finished: false });
        }
        other => panic!("{:?}", other),
    }
    assert_eq!(session.planes, setups(PixelFormat::NV12));
}

#[test]
fn unusual_format_is_converted_both_times() {
    let mut session = FrameSession::new(1);
    match session.step(FrameEvent::Arrived(PixelFormat::RGB24)) {
        FrameAction::Prepare { convert_to, layout } => {
            assert_eq!(convert_to, Some(PixelFormat::YUV444P16LE));
            assert_eq!(layout.len(), 3);
        }
        other => panic!("{:?}", other),
    }
    match session.step(FrameEvent::Prepared(PixelFormat::RGB24, setups(PixelFormat::RGB24))) {
        FrameAction::Undistort { convert_to, planes } => {
            assert_eq!(convert_to, Some(PixelFormat::YUV444P16LE));
            assert_eq!(planes, 3);
        }
        other => panic!("{:?}", other),
    }
}

#[test]
fn later_frames_use_the_planes_of_the_first() {
    let mut session = FrameSession::new(10);
    session.step(FrameEvent::Arrived(PixelFormat::YUV420P));
    session.step(FrameEvent::Prepared(PixelFormat::YUV420P, setups(PixelFormat::YUV420P)));
    session.step(FrameEvent::Undistorted);
    match session.step(FrameEvent::Arrived(PixelFormat::Other(5))) {
        FrameAction::Undistort { convert_to, planes } => {
            assert_eq!(convert_to, Some(PixelFormat::YUV444P16LE));
            assert_eq!(planes, 3);
        }
        other => panic!("{:?}", other),
    }
    assert_eq!(session.planes, setups(PixelFormat::YUV420P));
    assert_eq!(session.process_frame, 2);
}

#[test]
fn frame_without_planes_is_rejected() {
    let mut session = FrameSession::new(10);
    session.step(FrameEvent::Arrived(PixelFormat::Other(9)));
    match session.step(FrameEvent::Prepared(PixelFormat::Other(9), Vec::new())) {
        FrameAction::Reject(error) => {
            assert_eq!(error, RenderError::UnknownPixelFormat(PixelFormat::Other(9)));
        }
        other => panic!("{:?}", other),
    }
    // The next frame is prepared anew.
    assert!(matches!(
        session.step(FrameEvent::Arrived(PixelFormat::NV12)),
        FrameAction::Prepare { .. }
    ));
    assert_eq!(session.process_frame, 2);
}

#[test]
fn arrivals_are_counted() {
    let mut session = FrameSession::new(3);
    for _ in 0..3 {
        session.step(FrameEvent::Arrived(PixelFormat::NV21));
        session.step(FrameEvent::Undistorted);
    }
    assert_eq!(session.process_frame, 3);
    assert_eq!(session.render_frame_count, 3);
}

#[test]
fn finished_render_reports_all_frames() {
    let mut session = FrameSession::new(7);
    session.step(FrameEvent::Arrived(PixelFormat::NV12));
    assert_eq!(session.finish(), Progress { frame: 7, frame_count: 7, finished: true });
}
