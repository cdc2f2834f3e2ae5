use handy_meeting::capture::{
    choose_config, choose_mic_config, find_output_device, is_system_audio_device_name, offers_rate,
    CaptureCommand, CaptureWorker, DeviceChoice, GateAction, OpenAction, Platform, StreamGate,
    SystemAudioCapture, WorkerStartup, WorkerStep,
};

#[test]
fn system_device_names() {
    assert!(is_system_audio_device_name("HDA Intel PCH: HDMI 0"));
    assert!(is_system_audio_device_name("Built-in Audio Analog Stereo"));
    assert!(is_system_audio_device_name("USB Headset"));
    assert!(is_system_audio_device_name("Speakers (Realtek)"));
    assert!(!is_system_audio_device_name("default"));
    assert!(!is_system_audio_device_name("pulse"));
}

#[test]
fn linux_device_choice() {
    let names = vec![Some("default".to_string()), None, Some("HDMI Output".to_string()), Some("USB".to_string())];
    assert_eq!(find_output_device(Platform::Linux, Some(names), true), DeviceChoice::Listed(2));
    let plain = vec![Some("default".to_string()), None];
    assert_eq!(find_output_device(Platform::Linux, Some(plain.clone()), true), DeviceChoice::Default);
    assert_eq!(find_output_device(Platform::Linux, Some(plain), false), DeviceChoice::NoDevice);
    assert_eq!(find_output_device(Platform::Linux, None, true), DeviceChoice::NoDevice);
}

#[test]
fn other_platforms_device_choice() {
    assert_eq!(find_output_device(Platform::Windows, None, true), DeviceChoice::Default);
    assert_eq!(find_output_device(Platform::MacOs, None, false), DeviceChoice::NoDevice);
    assert_eq!(
        find_output_device(Platform::Other, Some(vec![Some("HDMI".to_string())]), true),
        DeviceChoice::NoDevice
    );
}

#[test]
fn config_choice() {
    assert_eq!(choose_config(&vec![false, true, true]), Some(1));
    assert_eq!(choose_config(&vec![false, false]), Some(0));
    assert_eq!(choose_config(&vec![]), None);
    assert!(offers_rate(8000, 48000, 48000));
    assert!(!offers_rate(8000, 44100, 48000));
    assert_eq!(choose_mic_config(&vec![(8000, 44100), (8000, 96000)]), Some(1));
    assert_eq!(choose_mic_config(&vec![(8000, 44100)]), Some(0));
    assert_eq!(choose_mic_config(&vec![]), None);
}

#[test]
fn capture_lifecycle() {
    let mut c = SystemAudioCapture::new();
    assert_eq!(c.open(), OpenAction::SpawnWorker);
    assert_eq!(c.start(), None);
    assert_eq!(c.stop(), None);
    assert_eq!(c.device_name(Some("Monitor".to_string())), None);
    assert!(c.check_device(DeviceChoice::Default).is_ok());
    assert!(c.finish_open(WorkerStartup::Ready).is_ok());
    assert_eq!(c.open(), OpenAction::AlreadyOpen);
    assert_eq!(c.start(), Some(CaptureCommand::Start));
    assert_eq!(c.stop(), Some(CaptureCommand::Stop));
    assert_eq!(c.device_name(Some("Monitor".to_string())), Some("Monitor".to_string()));
    assert_eq!(c.device_name(None), None);
    assert_eq!(c.close(), Some(CaptureCommand::Shutdown));
    assert_eq!(c.device_name(Some("Monitor".to_string())), None);
    assert_eq!(c.close(), None);
    assert_eq!(c.start(), None);
}

#[test]
fn capture_without_device_is_refused() {
    let c = SystemAudioCapture::new();
    match c.check_device(DeviceChoice::NoDevice) {
        Err(e) => {
            assert!(e.is_not_found());
            assert_eq!(e.message(), "No system audio device found");
        }
        Ok(()) => panic!("opened without a device"),
    }
    assert!(c.check_device(DeviceChoice::Listed(0)).is_ok());
    assert_eq!(c.open(), OpenAction::SpawnWorker);
    assert_eq!(c.start(), None);
}

#[test]
fn capture_startup_failures() {
    let mut c = SystemAudioCapture::new();
    match c.finish_open(WorkerStartup::Failed("No supported output config".to_string())) {
        Err(e) => {
            assert!(!e.is_not_found());
            assert_eq!(e.message(), "No supported output config");
        }
        Ok(()) => panic!("failed startup opened"),
    }
    assert_eq!(c.open(), OpenAction::SpawnWorker);
    match c.finish_open(WorkerStartup::Vanished("receiving on a closed channel".to_string())) {
        Err(e) => assert_eq!(e.message(), "Failed to initialize system audio worker: receiving on a closed channel"),
        Ok(()) => panic!("vanished worker opened"),
    }
    assert_eq!(c.start(), None);
}

#[test]
fn worker_flushes_every_three_seconds_of_samples() {
    let mut w: CaptureWorker<f32> = CaptureWorker::new(16_000);
    assert!(!w.is_running());
    assert_eq!(w.command(CaptureCommand::Start), WorkerStep::Resume);
    assert!(w.is_running());
    let d = w.samples(vec![0.1; 30_000]);
    assert_eq!(d.len(), 1);
    assert_eq!(d[0].len(), 30_000);
    let d = w.samples(vec![0.2; 20_000]);
    assert_eq!(d.len(), 2);
    assert_eq!(d[0], vec![0.2; 20_000]);
    assert_eq!(d[1].len(), 50_000);
    assert_eq!(d[1][0], 0.1);
    assert_eq!(d[1][49_999], 0.2);
    let d = w.samples(vec![0.3; 5]);
    assert_eq!(d.len(), 1);
    assert!(w.is_listening());
    assert_eq!(w.command(CaptureCommand::Stop), WorkerStep::Pause);
    assert!(!w.is_running());
    assert!(!w.is_listening());
    assert_eq!(w.command(CaptureCommand::Start), WorkerStep::Resume);
    let d = w.samples(vec![0.4; 47_999]);
    assert_eq!(d.len(), 1);
    assert_eq!(w.command(CaptureCommand::Shutdown), WorkerStep::Exit);
}

#[test]
fn stream_gate_sends_marker_once() {
    let mut g = StreamGate::new();
    assert_eq!(g.on_data(false), GateAction::Deliver);
    assert_eq!(g.on_data(true), GateAction::SendEndOfStream);
    assert_eq!(g.on_data(true), GateAction::Skip);
    assert_eq!(g.on_data(false), GateAction::Deliver);
    assert_eq!(g.on_data(true), GateAction::SendEndOfStream);
}

#[test]
fn lowercase_keyword_match() {
    assert!(handy_meeting::capture::mentions_system_output("alc897 analog"));
    assert!(!handy_meeting::capture::mentions_system_output("ALC897 ANALOG"));
}

#[test]
fn microphone_choice() {
    let names = vec![Some("Webcam".to_string()), None, Some("Headset".to_string()), Some("Headset".to_string())];
    assert_eq!(handy_meeting::capture::choose_microphone(&Some("Headset".to_string()), Some(names.clone()), true), DeviceChoice::Listed(2));
    assert_eq!(handy_meeting::capture::choose_microphone(&Some("Missing".to_string()), Some(names.clone()), true), DeviceChoice::Default);
    assert_eq!(handy_meeting::capture::choose_microphone(&Some("Missing".to_string()), Some(names), false), DeviceChoice::NoDevice);
    assert_eq!(handy_meeting::capture::choose_microphone(&None, None, true), DeviceChoice::Default);
    assert_eq!(handy_meeting::capture::choose_microphone(&Some("Headset".to_string()), None, false), DeviceChoice::NoDevice);
}

#[test]
fn worker_reports_pending() {
    let mut w: CaptureWorker<i16> = CaptureWorker::new(1);
    assert_eq!(w.pending_len(), 0);
    w.command(CaptureCommand::Start);
    let d = w.samples(vec![1, 2]);
    assert_eq!(d, vec![vec![1, 2]]);
    assert_eq!(w.pending_len(), 2);
    let d = w.samples(vec![3]);
    assert_eq!(d, vec![vec![3], vec![1, 2, 3]]);
    assert_eq!(w.pending_len(), 0);
    w.command(CaptureCommand::Stop);
    assert!(!w.is_running());
}

#[test]
fn worker_stops_listening_on_timeout_or_interruption() {
    let mut w: CaptureWorker<u8> = CaptureWorker::new(10);
    assert!(!w.is_listening());
    w.command(CaptureCommand::Start);
    w.samples(vec![1, 2, 3]);
    w.timed_out();
    assert!(!w.is_listening());
    assert!(w.is_running());
    assert_eq!(w.pending_len(), 3);
    w.command(CaptureCommand::Start);
    assert_eq!(w.pending_len(), 0);
    w.interrupted();
    assert!(!w.is_listening());
    assert!(w.is_running());
}
