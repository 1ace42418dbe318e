use macxlr::audio::{AudioError, AudioHandler, RecorderAction, StopAction, calculation_outcome, recorder_action};
use macxlr::sampler::{SampleBank, SampleButtons};

fn s(text: &str) -> String {
    text.to_string()
}

#[test]
fn new_handler_is_idle() {
    let h = AudioHandler::new(30);
    assert_eq!(h.recorder_buffer(), 30);
    assert!(h.output_device().is_none());
    assert!(!h.is_sample_recording());
    assert!(!h.is_calculating());
    assert!(!h.is_sample_playing(SampleBank::A, SampleButtons::TopLeft));
    assert_eq!(h.get_playing_file(SampleBank::C, SampleButtons::BottomRight), None);
}

#[test]
fn update_record_buffer_keeps_streams() {
    let mut h = AudioHandler::new(30);
    h.play_for_button(SampleBank::A, SampleButtons::TopLeft, s("/s/a.wav"));
    h.update_record_buffer(90);
    assert_eq!(h.recorder_buffer(), 90);
    assert!(h.is_sample_playing(SampleBank::A, SampleButtons::TopLeft));
}

#[test]
fn play_then_query_reads_back_the_file() {
    let mut h = AudioHandler::new(0);
    h.play_for_button(SampleBank::B, SampleButtons::TopRight, s("/samples/kick.wav"));
    assert!(h.is_sample_playing(SampleBank::B, SampleButtons::TopRight));
    assert_eq!(h.get_playing_file(SampleBank::B, SampleButtons::TopRight), Some(s("/samples/kick.wav")));
    assert!(!h.sample_recording(SampleBank::B, SampleButtons::TopRight));
    assert!(!h.is_sample_playing(SampleBank::B, SampleButtons::TopLeft));
    assert!(!h.is_sample_playing(SampleBank::A, SampleButtons::TopRight));
    assert!(!h.is_sample_recording());
}

#[test]
fn record_then_query() {
    let mut h = AudioHandler::new(0);
    let r = h.record_for_button(s("/rec/take.wav"), SampleBank::C, SampleButtons::BottomLeft, RecorderAction::UseExisting, true);
    assert_eq!(r, Ok(()));
    assert!(h.sample_recording(SampleBank::C, SampleButtons::BottomLeft));
    assert!(h.is_sample_recording());
    assert!(!h.is_sample_playing(SampleBank::C, SampleButtons::BottomLeft));
    assert_eq!(h.get_playing_file(SampleBank::C, SampleButtons::BottomLeft), None);
    assert_eq!(h.recording_file(SampleBank::C, SampleButtons::BottomLeft), Some(s("/rec/take.wav")));
}

#[test]
fn recorder_actions() {
    assert_eq!(recorder_action(true, true), RecorderAction::UseExisting);
    assert_eq!(recorder_action(true, false), RecorderAction::Rebuild { require_ready: true });
    assert_eq!(recorder_action(false, false), RecorderAction::Rebuild { require_ready: false });
    assert_eq!(recorder_action(false, true), RecorderAction::Rebuild { require_ready: false });
}

#[test]
fn record_refused_when_rebuilt_recorder_not_ready() {
    let mut h = AudioHandler::new(0);
    let r = h.record_for_button(s("/rec/a.wav"), SampleBank::A, SampleButtons::TopLeft, RecorderAction::Rebuild { require_ready: true }, false);
    assert_eq!(r, Err(AudioError::SamplerNotReady));
    assert!(!h.is_sample_recording());
    // a recorder rebuilt because none existed is used as it is
    let r = h.record_for_button(s("/rec/a.wav"), SampleBank::A, SampleButtons::TopLeft, RecorderAction::Rebuild { require_ready: false }, false);
    assert_eq!(r, Ok(()));
    assert!(h.sample_recording(SampleBank::A, SampleButtons::TopLeft));
}

#[test]
fn stop_record_returns_file_name_and_clears() {
    let mut h = AudioHandler::new(0);
    h.record_for_button(s("/rec/dir/take1.wav"), SampleBank::A, SampleButtons::TopRight, RecorderAction::UseExisting, true).unwrap();
    let r = h.stop_record(SampleBank::A, SampleButtons::TopRight, true);
    assert_eq!(r, Ok(Some(s("take1.wav"))));
    assert!(!h.sample_recording(SampleBank::A, SampleButtons::TopRight));
    assert!(!h.is_sample_recording());
}

#[test]
fn stop_record_without_file_clears_and_returns_none() {
    let mut h = AudioHandler::new(0);
    h.record_for_button(s("/rec/take2.wav"), SampleBank::B, SampleButtons::TopLeft, RecorderAction::UseExisting, true).unwrap();
    assert_eq!(h.stop_record(SampleBank::B, SampleButtons::TopLeft, false), Ok(None));
    assert!(!h.sample_recording(SampleBank::B, SampleButtons::TopLeft));
}

#[test]
fn stop_record_refusals() {
    let mut h = AudioHandler::new(0);
    assert_eq!(h.stop_record(SampleBank::A, SampleButtons::TopLeft, true), Err(AudioError::InactiveRecording));
    h.play_for_button(SampleBank::A, SampleButtons::TopLeft, s("/s/a.wav"));
    assert_eq!(h.stop_record(SampleBank::A, SampleButtons::TopLeft, true), Err(AudioError::StopRecordingOnPlaybackStream));
    assert!(h.is_sample_playing(SampleBank::A, SampleButtons::TopLeft));
    h.record_for_button(s("/rec/.."), SampleBank::A, SampleButtons::TopRight, RecorderAction::UseExisting, true).unwrap();
    assert_eq!(h.stop_record(SampleBank::A, SampleButtons::TopRight, true), Err(AudioError::MissingFileName));
    assert!(h.sample_recording(SampleBank::A, SampleButtons::TopRight));
}

#[test]
fn restart_decisions() {
    let mut h = AudioHandler::new(0);
    assert_eq!(h.restart_for_button(SampleBank::A, SampleButtons::TopLeft), Ok(false));
    h.play_for_button(SampleBank::A, SampleButtons::TopLeft, s("/s/a.wav"));
    assert_eq!(h.restart_for_button(SampleBank::A, SampleButtons::TopLeft), Ok(true));
    h.record_for_button(s("/r/b.wav"), SampleBank::A, SampleButtons::TopRight, RecorderAction::UseExisting, true).unwrap();
    assert_eq!(h.restart_for_button(SampleBank::A, SampleButtons::TopRight), Err(AudioError::RestartOnRecordingStream));
}

#[test]
fn stop_playback_decisions() {
    let mut h = AudioHandler::new(0);
    assert_eq!(h.stop_playback(SampleBank::B, SampleButtons::TopLeft, false, false), Ok(StopAction::Nothing));
    h.play_for_button(SampleBank::B, SampleButtons::TopLeft, s("/s/a.wav"));
    assert_eq!(h.stop_playback(SampleBank::B, SampleButtons::TopLeft, false, false), Ok(StopAction::BeginStop { force: false }));
    assert!(h.is_sample_playing(SampleBank::B, SampleButtons::TopLeft));
    assert_eq!(h.stop_playback(SampleBank::B, SampleButtons::TopLeft, true, false), Ok(StopAction::BeginStop { force: true }));
    assert!(h.is_sample_stopping(SampleBank::B, SampleButtons::TopLeft, true));
    assert_eq!(h.stop_playback(SampleBank::B, SampleButtons::TopLeft, false, true), Ok(StopAction::ForceStopAndWait));
    assert!(!h.is_sample_playing(SampleBank::B, SampleButtons::TopLeft));
    h.record_for_button(s("/r/b.wav"), SampleBank::B, SampleButtons::TopRight, RecorderAction::UseExisting, true).unwrap();
    assert_eq!(h.stop_playback(SampleBank::B, SampleButtons::TopRight, true, true), Err(AudioError::StopPlaybackOnRecordingStream));
    assert!(h.sample_recording(SampleBank::B, SampleButtons::TopRight));
}

#[test]
fn stopping_only_reported_for_playback() {
    let mut h = AudioHandler::new(0);
    assert!(!h.is_sample_stopping(SampleBank::A, SampleButtons::TopLeft, true));
    h.record_for_button(s("/r/a.wav"), SampleBank::A, SampleButtons::TopLeft, RecorderAction::UseExisting, true).unwrap();
    assert!(!h.is_sample_stopping(SampleBank::A, SampleButtons::TopLeft, true));
    h.play_for_button(SampleBank::A, SampleButtons::TopRight, s("/s/b.wav"));
    assert!(h.is_sample_stopping(SampleBank::A, SampleButtons::TopRight, true));
    assert!(!h.is_sample_stopping(SampleBank::A, SampleButtons::TopRight, false));
}

#[test]
fn check_playing_clears_finished_streams_once() {
    let mut h = AudioHandler::new(0);
    h.play_for_button(SampleBank::A, SampleButtons::TopLeft, s("/s/a.wav"));
    h.play_for_button(SampleBank::A, SampleButtons::TopRight, s("/s/b.wav"));
    h.record_for_button(s("/r/c.wav"), SampleBank::C, SampleButtons::BottomRight, RecorderAction::UseExisting, true).unwrap();
    let mut finished = vec![false; 12];
    finished[0] = true;
    finished[11] = true;
    finished[5] = true; // an empty slot
    assert!(h.check_playing(&finished));
    assert!(!h.is_sample_playing(SampleBank::A, SampleButtons::TopLeft));
    assert!(h.is_sample_playing(SampleBank::A, SampleButtons::TopRight));
    assert!(!h.is_sample_recording());
    assert!(!h.check_playing(&finished));
    assert!(!h.check_playing(&vec![]));
    assert!(h.is_sample_playing(SampleBank::A, SampleButtons::TopRight));
}

#[test]
fn calculation_lifecycle() {
    let mut h = AudioHandler::new(0);
    assert_eq!(h.is_calculating_complete(true), Err(AudioError::CalculationNotInProgress));
    assert_eq!(h.get_calculating_progress(40), Err(AudioError::CalculationNotInProgress));
    assert!(h.get_and_clear_calculating_result().is_err());
    assert_eq!(h.check_not_calculating(), Ok(()));
    assert_eq!(h.calculate_gain_thread(s("/s/new.wav"), SampleBank::B, SampleButtons::BottomLeft), Ok(()));
    assert!(h.is_calculating());
    assert_eq!(h.check_not_calculating(), Err(AudioError::AlreadyProcessing));
    assert_eq!(h.calculate_gain_thread(s("/s/other.wav"), SampleBank::A, SampleButtons::TopLeft), Err(AudioError::AlreadyProcessing));
    assert_eq!(h.is_calculating_complete(false), Ok(false));
    assert_eq!(h.get_calculating_progress(40), Ok(40));
    let task = h.get_and_clear_calculating_result().unwrap();
    assert_eq!(task.bank, SampleBank::B);
    assert_eq!(task.button, SampleButtons::BottomLeft);
    assert_eq!(task.file, s("/s/new.wav"));
    assert!(!h.is_calculating());
    assert_eq!(h.get_and_clear_calculating_result().err(), Some(AudioError::CalculationNotInProgress));
}

#[test]
fn error_messages() {
    assert_eq!(AudioError::OutputDeviceNotFound.message(), "Unable to play Sample, Output device not found");
    assert_eq!(AudioError::AlreadyProcessing.message(), "Sample already being processed");
    assert_eq!(AudioError::InactiveRecording.message(), "Attempted to stop inactive recording..");
    assert_eq!(AudioError::CalculationNotInProgress.message(), "Calculation not in progress");
}

#[test]
fn calculation_outcomes() {
    assert_eq!(calculation_outcome(Some(None)), Ok(()));
    assert_eq!(calculation_outcome(Some(Some("decode failed".to_string()))), Err("decode failed".to_string()));
    assert_eq!(calculation_outcome(None), Err("Unable to read calculation state".to_string()));
}
