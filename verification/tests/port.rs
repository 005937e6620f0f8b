use audio_engine::error::AudioError;
use audio_engine::port::default_device_index;
use audio_engine::port::AudioPort;
use audio_engine::port::DeviceReport;
use audio_engine::port::PortState;
use audio_engine::port::PortType;
use audio_engine::port::StreamAction;
use audio_engine::settings::StreamSettings;

fn names(list: &[&str]) -> Vec<String> {
    list.iter().map(|s| s.to_string()).collect()
}

fn report(list: &[&str], default_device: Option<&str>, default_built: bool) -> DeviceReport {
    DeviceReport {
        names: names(list),
        default_device: default_device.map(|s| s.to_string()),
        default_built,
    }
}

fn settings(rate: u32) -> StreamSettings {
    StreamSettings { channels: 2, sample_rate: rate, block_size: Some(512) }
}

#[test]
fn default_index_is_the_place_of_the_name() {
    let list = names(&["mic", "line", "usb"]);
    assert_eq!(default_device_index(&list, &"mic".to_string()), Some(0));
    assert_eq!(default_device_index(&list, &"line".to_string()), Some(1));
    assert_eq!(default_device_index(&list, &"usb".to_string()), Some(2));
}

#[test]
fn default_index_of_a_repeated_name_is_the_last_place() {
    let list = names(&["mic", "usb", "mic", "line"]);
    assert_eq!(default_device_index(&list, &"mic".to_string()), Some(2));
}

#[test]
fn default_index_of_an_unknown_name_is_none() {
    let list = names(&["mic", "line"]);
    assert_eq!(default_device_index(&list, &"usb".to_string()), None);
    assert_eq!(default_device_index(&list, &"".to_string()), None);
    assert_eq!(default_device_index(&Vec::new(), &"mic".to_string()), None);
}

#[test]
fn port_with_built_default_starts_device_selected() {
    let port = AudioPort::new(PortType::Input, report(&["mic", "line"], Some("line"), true), 44100);
    assert_eq!(port.port_type(), PortType::Input);
    assert_eq!(port.state(), PortState::DeviceSelected);
    assert_eq!(port.get_enabled_device_index(), Some(1));
    assert!(port.has_stream());
    assert_eq!(port.stream_rate(), Some(44100));
    assert_eq!(port.device_count(), 2);
    assert_eq!(port.get_device_names(), names(&["mic", "line"]));
}

#[test]
fn port_without_default_starts_uninitialized() {
    let port = AudioPort::new(PortType::Output, report(&["a", "b"], None, true), 44100);
    assert_eq!(port.port_type(), PortType::Output);
    assert_eq!(port.state(), PortState::Uninitialized);
    assert_eq!(port.get_enabled_device_index(), None);
    assert!(!port.has_stream());
    assert_eq!(port.stream_rate(), None);
}

#[test]
fn port_whose_default_was_rejected_starts_uninitialized() {
    let port = AudioPort::new(PortType::Output, report(&["a", "b"], Some("a"), false), 44100);
    assert_eq!(port.state(), PortState::Uninitialized);
    assert_eq!(port.get_enabled_device_index(), None);
}

#[test]
fn port_whose_default_is_not_listed_starts_uninitialized() {
    let port = AudioPort::new(PortType::Output, report(&["a", "b"], Some("c"), true), 44100);
    assert_eq!(port.state(), PortState::Uninitialized);
    assert_eq!(port.get_enabled_device_index(), None);
}

#[test]
fn plan_for_a_port_without_stream_only_builds() {
    let port = AudioPort::new(PortType::Input, report(&["a", "b"], None, false), 44100);
    let plan = port.build_stream(1, settings(48000)).unwrap();
    assert_eq!(
        plan,
        vec![StreamAction::Build { device: 1, settings: settings(48000) }, StreamAction::Pause]
    );
}

#[test]
fn plan_for_a_port_with_stream_ends_it_before_building() {
    let port = AudioPort::new(PortType::Input, report(&["a", "b"], Some("a"), true), 44100);
    let plan = port.build_stream(1, settings(44100)).unwrap();
    assert_eq!(
        plan,
        vec![
            StreamAction::Pause,
            StreamAction::Release,
            StreamAction::Build { device: 1, settings: settings(44100) },
            StreamAction::Pause,
        ]
    );
    assert_eq!(port.get_enabled_device_index(), Some(0));
}

#[test]
fn plan_for_an_index_out_of_range_is_device_not_found() {
    let port = AudioPort::new(PortType::Input, report(&["a", "b"], Some("a"), true), 44100);
    assert_eq!(port.build_stream(2, settings(44100)), Err(AudioError::DeviceNotFound));
    let empty = AudioPort::new(PortType::Input, report(&[], None, false), 44100);
    assert_eq!(empty.build_stream(0, settings(44100)), Err(AudioError::DeviceNotFound));
}

#[test]
fn enabling_an_index_out_of_range_changes_nothing() {
    let mut port = AudioPort::new(PortType::Input, report(&["a", "b"], Some("b"), true), 44100);
    port.open_stream().unwrap();
    assert_eq!(port.set_enabled_device_index(2, 48000, true), Err(AudioError::DeviceNotFound));
    assert_eq!(port.get_enabled_device_index(), Some(1));
    assert_eq!(port.state(), PortState::Streaming);
    assert_eq!(port.stream_rate(), Some(44100));
}

#[test]
fn enabling_a_rejected_stream_leaves_no_stream() {
    let mut port = AudioPort::new(PortType::Input, report(&["a", "b"], Some("b"), true), 44100);
    assert_eq!(port.set_enabled_device_index(0, 44100, false), Err(AudioError::StreamBuildError));
    assert_eq!(port.get_enabled_device_index(), None);
    assert_eq!(port.state(), PortState::Uninitialized);
    assert!(!port.has_stream());
    assert_eq!(port.open_stream(), Err(AudioError::NoActiveStream));
}

#[test]
fn enabling_a_device_replaces_a_running_stream_with_a_paused_one() {
    let mut port = AudioPort::new(PortType::Output, report(&["a", "b"], Some("a"), true), 44100);
    port.open_stream().unwrap();
    assert_eq!(port.state(), PortState::Streaming);
    assert_eq!(port.set_enabled_device_index(1, 48000, true), Ok(()));
    assert_eq!(port.get_enabled_device_index(), Some(1));
    assert_eq!(port.state(), PortState::DeviceSelected);
    assert_eq!(port.stream_rate(), Some(48000));
}

#[test]
fn open_and_close_switch_between_streaming_and_paused() {
    let mut port = AudioPort::new(PortType::Output, report(&["a"], Some("a"), true), 44100);
    assert_eq!(port.open_stream(), Ok(()));
    assert_eq!(port.state(), PortState::Streaming);
    assert_eq!(port.close_stream(), Ok(()));
    assert_eq!(port.state(), PortState::Paused);
    assert_eq!(port.close_stream(), Ok(()));
    assert_eq!(port.state(), PortState::Paused);
    assert_eq!(port.open_stream(), Ok(()));
    assert_eq!(port.state(), PortState::Streaming);
    assert_eq!(port.get_enabled_device_index(), Some(0));
}

#[test]
fn open_and_close_without_stream_are_no_active_stream() {
    let mut port = AudioPort::new(PortType::Output, report(&["a"], None, false), 44100);
    assert_eq!(port.open_stream(), Err(AudioError::NoActiveStream));
    assert_eq!(port.close_stream(), Err(AudioError::NoActiveStream));
    assert_eq!(port.state(), PortState::Uninitialized);
}

#[test]
fn tear_down_ends_the_stream_from_any_state() {
    let mut port = AudioPort::new(PortType::Output, report(&["a"], Some("a"), true), 44100);
    port.open_stream().unwrap();
    assert_eq!(port.tear_down(), vec![StreamAction::Pause, StreamAction::Release]);
    assert_eq!(port.state(), PortState::TornDown);
    assert_eq!(port.get_enabled_device_index(), None);
    assert_eq!(port.tear_down(), Vec::new());
    assert_eq!(port.state(), PortState::TornDown);
    assert_eq!(port.open_stream(), Err(AudioError::NoActiveStream));

    let mut idle = AudioPort::new(PortType::Input, report(&["a"], None, false), 44100);
    assert_eq!(idle.tear_down(), Vec::new());
    assert_eq!(idle.state(), PortState::TornDown);
}

#[test]
fn a_torn_down_port_can_enable_a_device_again() {
    let mut port = AudioPort::new(PortType::Output, report(&["a", "b"], Some("a"), true), 44100);
    port.tear_down();
    assert_eq!(
        port.build_stream(1, settings(44100)).unwrap(),
        vec![StreamAction::Build { device: 1, settings: settings(44100) }, StreamAction::Pause]
    );
    assert_eq!(port.set_enabled_device_index(1, 44100, true), Ok(()));
    assert_eq!(port.state(), PortState::DeviceSelected);
}
