use audio_engine::error::AudioError;
use audio_engine::io_manager::IOManager;
use audio_engine::io_manager::RateChange;
use audio_engine::port::DeviceReport;
use audio_engine::port::PortState;
use audio_engine::port::StreamAction;
use audio_engine::settings::StreamSettings;

fn report(list: &[&str], default_device: Option<&str>, default_built: bool) -> DeviceReport {
    DeviceReport {
        names: list.iter().map(|s| s.to_string()).collect(),
        default_device: default_device.map(|s| s.to_string()),
        default_built,
    }
}

fn manager() -> IOManager {
    IOManager::new(
        report(&["mic", "line in"], Some("mic"), true),
        report(&["speakers", "headphones", "hdmi"], Some("headphones"), true),
    )
}

#[test]
fn new_pipeline_runs_at_the_default_rate() {
    let m = manager();
    assert_eq!(m.current_sample_rate(), 44100);
    assert_eq!(
        m.settings(),
        StreamSettings { channels: 2, sample_rate: 44100, block_size: Some(512) }
    );
}

#[test]
fn new_pipeline_is_primed_with_the_latency_in_silence() {
    let mut m = manager();
    assert_eq!(m.buffer_capacity(), 88200);
    assert_eq!(m.buffered(), 44100);
    assert_eq!(m.overruns(), 0);
    assert_eq!(m.underruns(), 0);
    let mut out = vec![1u32; 44100];
    assert!(!m.render(&mut out));
    assert!(out.iter().all(|&s| s == 0));
    assert_eq!(m.buffered(), 0);
    assert_eq!(m.underruns(), 0);
}

#[test]
fn first_render_block_does_not_underrun() {
    let mut m = manager();
    let mut out = vec![1u32; 1024];
    assert!(!m.render(&mut out));
    assert_eq!(out, vec![0u32; 1024]);
    assert_eq!(m.underruns(), 0);
    assert_eq!(m.buffered(), 44100 - 1024);
}

#[test]
fn new_pipeline_selects_the_default_devices() {
    let m = manager();
    assert_eq!(m.get_current_in_device_index(), Some(0));
    assert_eq!(m.get_current_out_device_index(), Some(1));
    assert_eq!(m.input_state(), PortState::DeviceSelected);
    assert_eq!(m.output_state(), PortState::DeviceSelected);
    assert_eq!(m.get_input_device_names(), vec!["mic".to_string(), "line in".to_string()]);
    assert_eq!(
        m.get_output_devices_names(),
        vec!["speakers".to_string(), "headphones".to_string(), "hdmi".to_string()]
    );
}

#[test]
fn new_pipeline_without_devices_is_uninitialized() {
    let mut m = IOManager::new(report(&[], None, false), report(&[], None, false));
    assert_eq!(m.get_current_in_device_index(), None);
    assert_eq!(m.get_current_out_device_index(), None);
    assert_eq!(m.input_state(), PortState::Uninitialized);
    assert_eq!(m.output_state(), PortState::Uninitialized);
    assert_eq!(m.play_input(), Err(AudioError::NoActiveStream));
    assert_eq!(m.pause_input(), Err(AudioError::NoActiveStream));
    assert_eq!(m.play_output(), Err(AudioError::NoActiveStream));
    assert_eq!(m.pause_output(), Err(AudioError::NoActiveStream));
    assert_eq!(m.buffered(), 44100);
}

#[test]
fn unsupported_sample_rate_is_rejected_and_rate_unchanged() {
    let mut m = manager();
    assert_eq!(m.set_sample_rate(44000), Err(AudioError::UnsupportedSampleRate));
    assert_eq!(m.current_sample_rate(), 44100);
    assert_eq!(m.set_sample_rate(48000), Ok(RateChange::Deferred));
    assert_eq!(m.set_sample_rate(0), Err(AudioError::UnsupportedSampleRate));
    assert_eq!(m.current_sample_rate(), 48000);
}

#[test]
fn rate_change_is_deferred_while_a_stream_has_the_old_rate() {
    let mut m = manager();
    assert_eq!(m.set_sample_rate(44100), Ok(RateChange::Effective));
    assert_eq!(m.set_sample_rate(96000), Ok(RateChange::Deferred));
    assert_eq!(m.current_sample_rate(), 96000);
    assert_eq!(m.enable_input_device(1, true), Ok(()));
    assert_eq!(m.set_sample_rate(96000), Ok(RateChange::Deferred));
    assert_eq!(m.enable_output_device(0, true), Ok(()));
    assert_eq!(m.set_sample_rate(96000), Ok(RateChange::Effective));
}

#[test]
fn rate_change_is_effective_without_streams() {
    let mut m = IOManager::new(report(&["a"], None, false), report(&["b"], None, false));
    assert_eq!(m.set_sample_rate(8000), Ok(RateChange::Effective));
    assert_eq!(m.current_sample_rate(), 8000);
    assert_eq!(
        m.input_rebuild_plan(0),
        Ok(vec![
            StreamAction::Build {
                device: 0,
                settings: StreamSettings { channels: 2, sample_rate: 8000, block_size: Some(512) },
            },
            StreamAction::Pause,
        ])
    );
}

#[test]
fn both_directions_are_planned_with_the_same_settings() {
    let mut m = manager();
    m.set_sample_rate(22050).unwrap();
    let expected = StreamSettings { channels: 2, sample_rate: 22050, block_size: Some(512) };
    let input = m.input_rebuild_plan(1).unwrap();
    let output = m.output_rebuild_plan(2).unwrap();
    assert_eq!(input[2], StreamAction::Build { device: 1, settings: expected });
    assert_eq!(output[2], StreamAction::Build { device: 2, settings: expected });
}

#[test]
fn switching_device_on_a_running_stream_replaces_it() {
    let mut m = manager();
    m.play_output().unwrap();
    assert_eq!(m.output_state(), PortState::Streaming);
    assert_eq!(
        m.output_rebuild_plan(2).unwrap(),
        vec![
            StreamAction::Pause,
            StreamAction::Release,
            StreamAction::Build { device: 2, settings: m.settings() },
            StreamAction::Pause,
        ]
    );
    assert_eq!(m.enable_output_device(2, true), Ok(()));
    assert_eq!(m.get_current_out_device_index(), Some(2));
    assert_eq!(m.output_state(), PortState::DeviceSelected);
    assert_eq!(m.get_current_in_device_index(), Some(0));
    assert_eq!(m.input_state(), PortState::DeviceSelected);
    assert_eq!(m.buffered(), 44100);
}

#[test]
fn enabling_an_unknown_device_changes_nothing() {
    let mut m = manager();
    m.play_input().unwrap();
    assert_eq!(m.input_rebuild_plan(2), Err(AudioError::DeviceNotFound));
    assert_eq!(m.enable_input_device(2, true), Err(AudioError::DeviceNotFound));
    assert_eq!(m.get_current_in_device_index(), Some(0));
    assert_eq!(m.input_state(), PortState::Streaming);
    assert_eq!(m.output_rebuild_plan(3), Err(AudioError::DeviceNotFound));
    assert_eq!(m.enable_output_device(3, false), Err(AudioError::DeviceNotFound));
    assert_eq!(m.get_current_out_device_index(), Some(1));
}

#[test]
fn rejected_stream_leaves_the_port_without_stream() {
    let mut m = manager();
    assert_eq!(m.enable_output_device(0, false), Err(AudioError::StreamBuildError));
    assert_eq!(m.get_current_out_device_index(), None);
    assert_eq!(m.output_state(), PortState::Uninitialized);
    assert_eq!(m.play_output(), Err(AudioError::NoActiveStream));
    assert_eq!(m.input_state(), PortState::DeviceSelected);
    assert_eq!(m.enable_output_device(0, true), Ok(()));
    assert_eq!(m.play_output(), Ok(()));
}

#[test]
fn play_and_pause_move_each_port_on_its_own() {
    let mut m = manager();
    assert_eq!(m.play_input(), Ok(()));
    assert_eq!(m.input_state(), PortState::Streaming);
    assert_eq!(m.output_state(), PortState::DeviceSelected);
    assert_eq!(m.play_output(), Ok(()));
    assert_eq!(m.pause_input(), Ok(()));
    assert_eq!(m.input_state(), PortState::Paused);
    assert_eq!(m.output_state(), PortState::Streaming);
    assert_eq!(m.pause_output(), Ok(()));
    assert_eq!(m.output_state(), PortState::Paused);
}

#[test]
fn tear_down_ends_both_ports() {
    let mut m = manager();
    m.play_input().unwrap();
    let (capture, render) = m.tear_down();
    assert_eq!(capture, vec![StreamAction::Pause, StreamAction::Release]);
    assert_eq!(render, vec![StreamAction::Pause, StreamAction::Release]);
    assert_eq!(m.input_state(), PortState::TornDown);
    assert_eq!(m.output_state(), PortState::TornDown);
    assert_eq!(m.buffered(), 44100);
    assert_eq!(m.current_sample_rate(), 44100);
}

#[test]
fn capture_appends_the_block_twice() {
    let mut m = manager();
    let mut primed = vec![0u32; 44100];
    m.render(&mut primed);
    assert!(!m.capture(&[1, 2, 3]));
    assert_eq!(m.buffered(), 6);
    let mut out = vec![0u32; 6];
    assert!(!m.render(&mut out));
    assert_eq!(out, vec![1, 2, 3, 1, 2, 3]);
}

#[test]
fn capture_reports_and_counts_what_did_not_fit() {
    let mut m = manager();
    let block = vec![7u32; 22000];
    assert!(!m.capture(&block));
    assert_eq!(m.buffered(), 88100);
    assert!(m.capture(&block));
    assert_eq!(m.buffered(), 88200);
    assert_eq!(m.overruns(), 2 * 22000 - 100);
    assert!(m.capture(&[1]));
    assert_eq!(m.overruns(), 2 * 22000 - 100 + 2);
    assert!(!m.capture(&[]));
}

#[test]
fn render_substitutes_silence_and_counts_underruns() {
    let mut m = manager();
    let mut primed = vec![0u32; 44100];
    m.render(&mut primed);
    m.capture(&[5, 6]);
    let mut out = vec![9u32; 6];
    assert!(m.render(&mut out));
    assert_eq!(out, vec![5, 6, 5, 6, 0, 0]);
    assert_eq!(m.underruns(), 2);
    assert!(m.render(&mut out));
    assert_eq!(out, vec![0; 6]);
    assert_eq!(m.underruns(), 8);
}
