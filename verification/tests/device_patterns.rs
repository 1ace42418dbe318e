use macxlr::audio::{AudioError, AudioHandler, PlaybackAction, PlaybackEvent, PlaybackPhase};
use macxlr::patterns::{compile_patterns, select_device, CompiledPattern};

fn strings(items: &[&str]) -> Vec<String> {
    items.iter().map(|s| s.to_string()).collect()
}

#[test]
fn invalid_patterns_are_left_out() {
    let compiled = compile_patterns(&strings(&["goxlr_sample", "(unclosed", "Sample$"]));
    let sources: Vec<&str> = compiled.iter().map(|p| p.as_str()).collect();
    assert_eq!(sources, vec!["goxlr_sample", "Sample$"]);
}

#[test]
fn compiled_pattern_searches_text() {
    let p = CompiledPattern::compile("CoreAudio\\*Sample(?:(?!Mini).)*$".to_string()).unwrap();
    assert_eq!(p.is_match("CoreAudio*Sample GoXLR"), Some(true));
    assert_eq!(p.is_match("CoreAudio*Sample GoXLR Mini"), Some(false));
    assert!(CompiledPattern::compile("[".to_string()).is_none());
}

#[test]
fn select_first_matching_device() {
    let patterns = compile_patterns(&strings(&["goxlr_sample", "GoXLR_0_8_9"]));
    let devices = strings(&["Speakers", "alsa_output.GoXLR_0_8_9", "goxlr_sample"]);
    assert_eq!(select_device(&devices, &patterns), Some("alsa_output.GoXLR_0_8_9".to_string()));
    assert_eq!(select_device(&strings(&["Speakers"]), &patterns), None);
    assert_eq!(select_device(&strings(&[]), &patterns), None);
}

#[test]
fn default_output_patterns_skip_mini() {
    let patterns = AudioHandler::get_output_device_patterns(None);
    assert_eq!(patterns.len(), 7);
    let devices = strings(&["CoreAudio*MacBook Speakers", "CoreAudio*Sample (GoXLR Mini)", "CoreAudio*Sample (GoXLR)"]);
    assert_eq!(select_device(&devices, &patterns), Some("CoreAudio*Sample (GoXLR)".to_string()));
}

#[test]
fn override_replaces_defaults() {
    let out = AudioHandler::get_output_device_string_patterns(Some("My Device".to_string()));
    assert_eq!(out, vec!["My Device".to_string()]);
    let input = AudioHandler::get_input_device_string_patterns(None);
    assert_eq!(input[0], "goxlr_sample.*source");
    assert_eq!(input[3], "CoreAudio\\*Sampler(?:(?!Mini).)*$");
    let compiled = AudioHandler::get_input_device_patterns(None);
    let sources: Vec<&str> = compiled.iter().map(|p| p.as_str()).collect();
    assert_eq!(sources, input.iter().map(|s| s.as_str()).collect::<Vec<_>>());
}

#[test]
fn find_device_is_throttled() {
    let mut h = AudioHandler::new(0);
    assert!(h.device_check_due(0));
    h.find_device(true, 1000, &strings(&["goxlr_sample"]), None);
    assert_eq!(h.output_device(), Some("goxlr_sample".to_string()));
    assert!(!h.device_check_due(5999));
    h.find_device(true, 3000, &strings(&["Speakers"]), None);
    assert_eq!(h.output_device(), Some("goxlr_sample".to_string()));
    assert!(h.device_check_due(6000));
    h.find_device(true, 6000, &strings(&["Speakers"]), None);
    assert_eq!(h.output_device(), None);
}

#[test]
fn input_search_leaves_output_alone() {
    let mut h = AudioHandler::new(0);
    h.find_device(false, 0, &strings(&["goxlr_sample_source"]), None);
    assert_eq!(h.output_device(), None);
    assert!(!h.device_check_due(100));
}

#[test]
fn playback_without_device_searches_then_fails() {
    let mut h = AudioHandler::new(0);
    let (p, a) = h.playback_step(PlaybackPhase::Start, PlaybackEvent::Requested);
    assert_eq!((p, a), (PlaybackPhase::Searching, PlaybackAction::SearchDevice));
    h.find_device(true, 0, &strings(&["Speakers"]), None);
    let (p, a) = h.playback_step(p, PlaybackEvent::DeviceSearched);
    assert_eq!((p, a), (PlaybackPhase::Finished, PlaybackAction::Fail(AudioError::OutputDeviceNotFound)));
}

#[test]
fn playback_retries_once_on_a_fresh_search() {
    let mut h = AudioHandler::new(0);
    h.find_device(true, 0, &strings(&["x", "goxlr_sample"]), None);
    let (p, a) = h.playback_step(PlaybackPhase::Start, PlaybackEvent::Requested);
    assert_eq!((p, a), (PlaybackPhase::FirstAttempt, PlaybackAction::BuildPlayer("goxlr_sample".to_string())));
    let (p, a) = h.playback_step(p, PlaybackEvent::PlayerFailed);
    assert_eq!((p, a), (PlaybackPhase::SearchingAgain, PlaybackAction::SearchDevice));
    assert_eq!(h.output_device(), None);
    assert!(h.device_check_due(1));
    h.find_device(true, 1, &strings(&["GoXLR_0_8_9 sink"]), None);
    let (p, a) = h.playback_step(p, PlaybackEvent::DeviceSearched);
    assert_eq!((p, a), (PlaybackPhase::SecondAttempt, PlaybackAction::BuildPlayer("GoXLR_0_8_9 sink".to_string())));
    assert_eq!(h.playback_step(p, PlaybackEvent::PlayerFailed), (PlaybackPhase::Finished, PlaybackAction::FailWithPlayerError));
    assert_eq!(h.playback_step(p, PlaybackEvent::PlayerBuilt), (PlaybackPhase::Finished, PlaybackAction::StartPlayback));
    assert_eq!(h.playback_step(PlaybackPhase::Finished, PlaybackEvent::Requested), (PlaybackPhase::Finished, PlaybackAction::Ignore));
}

#[test]
fn playback_retry_without_device() {
    let mut h = AudioHandler::new(0);
    h.find_device(true, 0, &strings(&["goxlr_sample"]), None);
    let (p, _) = h.playback_step(PlaybackPhase::Start, PlaybackEvent::Requested);
    let (p, _) = h.playback_step(p, PlaybackEvent::PlayerFailed);
    h.find_device(true, 10, &strings(&[]), None);
    assert_eq!(h.playback_step(p, PlaybackEvent::DeviceSearched), (PlaybackPhase::Finished, PlaybackAction::Fail(AudioError::OutputDeviceNotFoundAfterRetry)));
}
