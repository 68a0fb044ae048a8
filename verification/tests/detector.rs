use camera_snitch::debounce::RawSignal;
use camera_snitch::detector::{
    classify, poll_signal, watch_signal, CLOSE_NOWRITE, CLOSE_WRITE, DEVICE_PATTERN, OPEN,
    WATCH_MASK,
};
use camera_snitch::state::CameraState;

#[test]
fn event_bits_are_those_of_the_watch_mechanism() {
    assert_eq!(OPEN, inotify::EventMask::OPEN.bits());
    assert_eq!(CLOSE_WRITE, inotify::EventMask::CLOSE_WRITE.bits());
    assert_eq!(CLOSE_NOWRITE, inotify::EventMask::CLOSE_NOWRITE.bits());
    assert_eq!(WATCH_MASK, (inotify::WatchMask::OPEN | inotify::WatchMask::CLOSE).bits());
    assert_eq!(WATCH_MASK, OPEN | CLOSE_WRITE | CLOSE_NOWRITE);
}

#[test]
fn open_stands_for_on() {
    assert_eq!(classify(0x20), Some(CameraState::On));
    assert_eq!(classify(OPEN), Some(CameraState::On));
}

#[test]
fn either_close_stands_for_off() {
    assert_eq!(classify(0x08), Some(CameraState::Off));
    assert_eq!(classify(0x10), Some(CameraState::Off));
    assert_eq!(classify(CLOSE_WRITE), Some(CameraState::Off));
    assert_eq!(classify(CLOSE_NOWRITE), Some(CameraState::Off));
}

#[test]
fn other_events_say_nothing() {
    assert_eq!(classify(0), None);
    assert_eq!(classify(0x01), None);
    assert_eq!(classify(0x02), None);
    assert_eq!(classify(OPEN | CLOSE_WRITE), None);
    assert_eq!(classify(CLOSE_WRITE | CLOSE_NOWRITE), None);
    assert_eq!(classify(WATCH_MASK), None);
    assert_eq!(classify(OPEN | 0x4000_0000), None);
    assert_eq!(classify(0x8000), None);
    assert_eq!(classify(u32::MAX), None);
}

#[test]
fn watch_signal_carries_the_moment_of_observation() {
    assert_eq!(watch_signal(OPEN, 42), Some(RawSignal { state: CameraState::On, at: 42 }));
    assert_eq!(watch_signal(CLOSE_WRITE, 43), Some(RawSignal { state: CameraState::Off, at: 43 }));
    assert_eq!(
        watch_signal(CLOSE_NOWRITE, u64::MAX),
        Some(RawSignal { state: CameraState::Off, at: u64::MAX })
    );
    assert_eq!(watch_signal(0x04, 44), None);
}

#[test]
fn poll_with_holders_stands_for_on() {
    assert_eq!(poll_signal(1, 7), RawSignal { state: CameraState::On, at: 7 });
    assert_eq!(poll_signal(12, 8), RawSignal { state: CameraState::On, at: 8 });
    assert_eq!(poll_signal(usize::MAX, 9), RawSignal { state: CameraState::On, at: 9 });
}

#[test]
fn poll_without_holders_stands_for_off() {
    assert_eq!(poll_signal(0, 7), RawSignal { state: CameraState::Off, at: 7 });
}

#[test]
fn device_pattern_matches_video_nodes() {
    assert_eq!(DEVICE_PATTERN, "/dev/video*");
    let pattern = glob::Pattern::new(DEVICE_PATTERN).unwrap();
    assert!(pattern.matches("/dev/video0"));
    assert!(pattern.matches("/dev/video12"));
    assert!(!pattern.matches("/dev/audio0"));
}
