//! The sampler's audio state: which stream each button runs, which output
//! device the sampler plays on, and the one gain calculation that may run.
//!
//! The threads that play, record and analyse audio belong to the caller. It
//! asks this handler what to do, carries it out, and reports back what it saw
//! (whether a thread has finished, whether a player is fading out, whether a
//! recorded file exists).

use vstd::prelude::*;
use crate::paths::{file_name, option_view, path_file_name};
use crate::patterns::{
    CompiledPattern, compile_patterns, compiles, matches_any, pattern_sources, select_device,
    string_views,
};
use crate::sampler::{SampleBank, SampleButtons, SLOT_COUNT, slot_index, slot_of};

verus! {

broadcast use vstd::array::array_len_matches_n;

/// What a sampler slot is doing.
#[derive(Clone, Copy, Debug, PartialEq, Eq, Structural)]
pub enum StreamType {
    Playback,
    Recording,
}

/// The stream that occupies a sampler slot: a file being played or recorded.
pub struct StateManager {
    pub stream_type: StreamType,
    pub file: String,
}

/// A slot's stream as a value.
pub struct StreamView {
    pub stream_type: StreamType,
    pub file: Seq<char>,
}

impl View for StateManager {
    type V = StreamView;

    open spec fn view(&self) -> StreamView {
        StreamView { stream_type: self.stream_type, file: self.file@ }
    }
}

/// The gain calculation in progress: the sample it analyses and where it belongs.
pub struct ProcessTask {
    pub bank: SampleBank,
    pub button: SampleButtons,
    pub file: String,
}

/// A gain calculation as a value.
pub struct TaskView {
    pub bank: SampleBank,
    pub button: SampleButtons,
    pub file: Seq<char>,
}

impl View for ProcessTask {
    type V = TaskView;

    open spec fn view(&self) -> TaskView {
        TaskView { bank: self.bank, button: self.button, file: self.file@ }
    }
}

/// Why the handler refused a request.
#[derive(Clone, Copy, Debug, PartialEq, Eq, Structural)]
pub enum AudioError {
    /// No output device is known for playback.
    OutputDeviceNotFound,
    /// No output device was found after the cached one failed.
    OutputDeviceNotFoundAfterRetry,
    /// A restart was asked of a slot that is recording.
    RestartOnRecordingStream,
    /// A playback stop was asked of a slot that is recording.
    StopPlaybackOnRecordingStream,
    /// A recording stop was asked of a slot that is playing.
    StopRecordingOnPlaybackStream,
    /// A recording stop was asked of an empty slot.
    InactiveRecording,
    /// The recorded file's path has no file name.
    MissingFileName,
    /// The input recorder is not ready to record.
    SamplerNotReady,
    /// A gain calculation is already running.
    AlreadyProcessing,
    /// No gain calculation is running.
    CalculationNotInProgress,
}

impl AudioError {
    /// The error's message.
    pub fn message(&self) -> (s: String)
        ensures
            s@ == self.spec_message(),
    {
        match self {
            AudioError::OutputDeviceNotFound => String::from_str(
                "Unable to play Sample, Output device not found",
            ),
            AudioError::OutputDeviceNotFoundAfterRetry => String::from_str(
                "Unable to play Sample, Output device not found after retry",
            ),
            AudioError::RestartOnRecordingStream => String::from_str(
                "Attempted to Restart Playback on Recording Stream..",
            ),
            AudioError::StopPlaybackOnRecordingStream => String::from_str(
                "Attempted to Stop Playback on Recording Stream..",
            ),
            AudioError::StopRecordingOnPlaybackStream => String::from_str(
                "Attempted to Stop Recording on Playback Stream..",
            ),
            AudioError::InactiveRecording => String::from_str(
                "Attempted to stop inactive recording..",
            ),
            AudioError::MissingFileName => String::from_str(
                "Unable to Extract Filename from Path! (This shouldn't be possible!)",
            ),
            AudioError::SamplerNotReady => String::from_str(
                "Sampler is not ready to handle recording (possibly missing device?)",
            ),
            AudioError::AlreadyProcessing => String::from_str("Sample already being processed"),
            AudioError::CalculationNotInProgress => String::from_str(
                "Calculation not in progress",
            ),
        }
    }

    pub open spec fn spec_message(&self) -> Seq<char> {
        match self {
            AudioError::OutputDeviceNotFound => "Unable to play Sample, Output device not found"@,
            AudioError::OutputDeviceNotFoundAfterRetry =>
                "Unable to play Sample, Output device not found after retry"@,
            AudioError::RestartOnRecordingStream =>
                "Attempted to Restart Playback on Recording Stream.."@,
            AudioError::StopPlaybackOnRecordingStream =>
                "Attempted to Stop Playback on Recording Stream.."@,
            AudioError::StopRecordingOnPlaybackStream =>
                "Attempted to Stop Recording on Playback Stream.."@,
            AudioError::InactiveRecording => "Attempted to stop inactive recording.."@,
            AudioError::MissingFileName =>
                "Unable to Extract Filename from Path! (This shouldn't be possible!)"@,
            AudioError::SamplerNotReady =>
                "Sampler is not ready to handle recording (possibly missing device?)"@,
            AudioError::AlreadyProcessing => "Sample already being processed"@,
            AudioError::CalculationNotInProgress => "Calculation not in progress"@,
        }
    }
}

/// What the caller does to a playing stream that was asked to stop.
#[derive(Clone, Copy, Debug, PartialEq, Eq, Structural)]
pub enum StopAction {
    /// The slot holds no stream: nothing to do.
    Nothing,
    /// Ask the player to stop; with `force`, without fading out.
    BeginStop { force: bool },
    /// The player was already stopping: force it to stop and wait for its
    /// thread. The slot has been cleared.
    ForceStopAndWait,
}

/// How the caller gets a recorder ready before a recording starts.
#[derive(Clone, Copy, Debug, PartialEq, Eq, Structural)]
pub enum RecorderAction {
    /// The existing recorder is ready: record with it.
    UseExisting,
    /// Rebuild the recorder first; with `require_ready`, recording is refused
    /// when the rebuilt recorder is still not ready.
    Rebuild { require_ready: bool },
}

/// Where the start of a playback stands.
#[derive(Clone, Copy, Debug, PartialEq, Eq, Structural)]
pub enum PlaybackPhase {
    Start,
    Searching,
    FirstAttempt,
    SearchingAgain,
    SecondAttempt,
    Finished,
}

/// What the caller saw when it carried out the last playback action.
#[derive(Clone, Copy, Debug, PartialEq, Eq, Structural)]
pub enum PlaybackEvent {
    /// A sample is to be played.
    Requested,
    /// The output devices were searched (with `AudioHandler::find_device`).
    DeviceSearched,
    /// A player was built on the device.
    PlayerBuilt,
    /// No player could be built on the device.
    PlayerFailed,
}

/// What the caller does next to start a playback.
#[derive(Debug, PartialEq, Eq)]
pub enum PlaybackAction {
    /// Search the output devices.
    SearchDevice,
    /// Build a player on this output device.
    BuildPlayer(String),
    /// Run the player, then record the slot with `AudioHandler::play_for_button`.
    StartPlayback,
    /// Give up with this error.
    Fail(AudioError),
    /// Give up with the error that building the player reported.
    FailWithPlayerError,
    /// The event does not belong to this phase: nothing to do.
    Ignore,
}

/// The action builds a player on the device.
pub open spec fn builds_on(a: PlaybackAction, device: Seq<char>) -> bool {
    a matches PlaybackAction::BuildPlayer(d) && d@ == device
}

/// The next phase and action of a playback start, given the output device
/// known when the step is taken.
pub open spec fn is_playback_step(
    phase: PlaybackPhase,
    event: PlaybackEvent,
    device: Option<Seq<char>>,
    r: (PlaybackPhase, PlaybackAction),
) -> bool {
    match (phase, event) {
        (PlaybackPhase::Start, PlaybackEvent::Requested) => match device {
            None => r.0 == PlaybackPhase::Searching && r.1 == PlaybackAction::SearchDevice,
            Some(d) => r.0 == PlaybackPhase::FirstAttempt && builds_on(r.1, d),
        },
        (PlaybackPhase::Searching, PlaybackEvent::DeviceSearched) => match device {
            None => r.0 == PlaybackPhase::Finished
                && r.1 == PlaybackAction::Fail(AudioError::OutputDeviceNotFound),
            Some(d) => r.0 == PlaybackPhase::FirstAttempt && builds_on(r.1, d),
        },
        (PlaybackPhase::FirstAttempt, PlaybackEvent::PlayerFailed) => r.0
            == PlaybackPhase::SearchingAgain && r.1 == PlaybackAction::SearchDevice,
        (PlaybackPhase::SearchingAgain, PlaybackEvent::DeviceSearched) => match device {
            None => r.0 == PlaybackPhase::Finished
                && r.1 == PlaybackAction::Fail(AudioError::OutputDeviceNotFoundAfterRetry),
            Some(d) => r.0 == PlaybackPhase::SecondAttempt && builds_on(r.1, d),
        },
        (PlaybackPhase::FirstAttempt, PlaybackEvent::PlayerBuilt) => r.0 == PlaybackPhase::Finished
            && r.1 == PlaybackAction::StartPlayback,
        (PlaybackPhase::SecondAttempt, PlaybackEvent::PlayerBuilt) => r.0
            == PlaybackPhase::Finished && r.1 == PlaybackAction::StartPlayback,
        (PlaybackPhase::SecondAttempt, PlaybackEvent::PlayerFailed) => r.0
            == PlaybackPhase::Finished && r.1 == PlaybackAction::FailWithPlayerError,
        _ => r.0 == phase && r.1 == PlaybackAction::Ignore,
    }
}

/// Minimum time between two searches for a device, in milliseconds.
pub const DEVICE_CHECK_INTERVAL_MS: u64 = 5000;

/// The handler as a value.
pub struct HandlerView {
    pub output_device: Option<Seq<char>>,
    pub recorder_buffer: u16,
    pub last_device_check: Option<u64>,
    pub streams: Seq<Option<StreamView>>,
    pub task: Option<TaskView>,
}

pub open spec fn stream_view(s: Option<StateManager>) -> Option<StreamView> {
    match s {
        Some(m) => Some(m@),
        None => None,
    }
}

pub open spec fn task_view(t: Option<ProcessTask>) -> Option<TaskView> {
    match t {
        Some(p) => Some(p@),
        None => None,
    }
}

/// The patterns searched for in output device names when no override is set.
pub open spec fn default_output_patterns() -> Seq<Seq<char>> {
    seq![
        "goxlr_sample"@,
        "GoXLR_0_8_9"@,
        "GoXLR.*HiFi__Line3__sink"@,
        "CoreAudio\\*Sample(?:(?!Mini).)*$"@,
        "CoreAudio\\*Sampler(?:(?!Mini).)*$"@,
        "CoreAudio\\*GoXLR(?:(?!Mini).)*$"@,
        "^WASAPI\\*Sample(?:(?!Mini).)*$"@,
    ]
}

/// The patterns searched for in input device names when no override is set.
pub open spec fn default_input_patterns() -> Seq<Seq<char>> {
    seq![
        "goxlr_sample.*source"@,
        "GoXLR_0_4_5.*source"@,
        "GoXLR.*HiFi__Line5__source"@,
        "CoreAudio\\*Sampler(?:(?!Mini).)*$"@,
        "CoreAudio\\*Sample(?:(?!Mini).)*$"@,
        "CoreAudio\\*GoXLR(?:(?!Mini).)*$"@,
        "^WASAPI\\*Sample(?:(?!Mini).)*$"@,
    ]
}

/// The output patterns: the override alone when one is set, else the defaults.
pub open spec fn output_pattern_list(override_device: Option<Seq<char>>) -> Seq<Seq<char>> {
    match override_device {
        Some(d) => seq![d],
        None => default_output_patterns(),
    }
}

/// The input patterns: the override alone when one is set, else the defaults.
pub open spec fn input_pattern_list(override_device: Option<Seq<char>>) -> Seq<Seq<char>> {
    match override_device {
        Some(d) => seq![d],
        None => default_input_patterns(),
    }
}

/// The compiled patterns a device search uses.
pub open spec fn search_patterns(is_output: bool, override_device: Option<Seq<char>>) -> Seq<
    Seq<char>,
> {
    if is_output {
        output_pattern_list(override_device).filter(compiles())
    } else {
        input_pattern_list(override_device).filter(compiles())
    }
}

/// `r` is the first device, in order, in whose name some pattern is found, or
/// `None` when there is none.
pub open spec fn is_first_match(
    r: Option<Seq<char>>,
    devices: Seq<Seq<char>>,
    patterns: Seq<Seq<char>>,
) -> bool {
    match r {
        None => forall|i: int| 0 <= i < devices.len() ==> !matches_any(patterns, #[trigger] devices[i]),
        Some(d) => exists|i: int|
            0 <= i < devices.len() && d == devices[i] && matches_any(patterns, devices[i]) && forall|
                k: int,
            | 0 <= k < i ==> !matches_any(patterns, #[trigger] devices[k]),
    }
}

impl HandlerView {
    /// The state of a new handler.
    pub open spec fn initial(recorder_buffer: u16) -> HandlerView {
        HandlerView {
            output_device: None,
            recorder_buffer,
            last_device_check: None,
            streams: Seq::new(SLOT_COUNT as nat, |i: int| None),
            task: None,
        }
    }

    pub open spec fn slot(self, bank: SampleBank, button: SampleButtons) -> Option<StreamView> {
        self.streams[slot_index(bank, button)]
    }

    pub open spec fn with_slot(
        self,
        bank: SampleBank,
        button: SampleButtons,
        s: Option<StreamView>,
    ) -> HandlerView {
        HandlerView { streams: self.streams.update(slot_index(bank, button), s), ..self }
    }

    /// The slot holds a stream that plays.
    pub open spec fn is_playing(self, bank: SampleBank, button: SampleButtons) -> bool {
        self.slot(bank, button) matches Some(s) && s.stream_type == StreamType::Playback
    }

    /// The slot holds a stream that records.
    pub open spec fn is_recording(self, bank: SampleBank, button: SampleButtons) -> bool {
        self.slot(bank, button) matches Some(s) && s.stream_type == StreamType::Recording
    }

    /// The file that the slot plays, if it plays.
    pub open spec fn playing_file(self, bank: SampleBank, button: SampleButtons) -> Option<
        Seq<char>,
    > {
        if self.is_playing(bank, button) {
            Some(self.slot(bank, button)->0.file)
        } else {
            None
        }
    }

    /// Some slot records.
    pub open spec fn any_recording(self) -> bool {
        exists|i: int|
            0 <= i < self.streams.len() && (#[trigger] self.streams[i] matches Some(s)
                && s.stream_type == StreamType::Recording)
    }

    /// A device search at `now` is skipped: the last one was less than the
    /// check interval ago.
    pub open spec fn device_check_throttled(self, now: u64) -> bool {
        match self.last_device_check {
            Some(t) => t + DEVICE_CHECK_INTERVAL_MS > now,
            None => false,
        }
    }

    /// Whether a stream is to be cleared: it is there and has finished.
    pub open spec fn finished_stream(self, finished: Seq<bool>, i: int) -> bool {
        self.streams[i] is Some && i < finished.len() && finished[i]
    }

    /// The state after the finished streams are cleared; `finished[i]` tells
    /// whether the stream in slot `i` has finished (a missing entry: it has not).
    pub open spec fn after_check(self, finished: Seq<bool>) -> HandlerView {
        HandlerView {
            streams: Seq::new(
                self.streams.len(),
                |i: int|
                    if self.finished_stream(finished, i) {
                        None
                    } else {
                        self.streams[i]
                    },
            ),
            ..self
        }
    }

    /// Whether clearing the finished streams changes anything.
    pub open spec fn check_changes(self, finished: Seq<bool>) -> bool {
        exists|i: int| 0 <= i < self.streams.len() && #[trigger] self.finished_stream(finished, i)
    }

    /// The state after a playback starts in a slot.
    pub open spec fn after_play(
        self,
        bank: SampleBank,
        button: SampleButtons,
        file: Seq<char>,
    ) -> HandlerView {
        self.with_slot(
            bank,
            button,
            Some(StreamView { stream_type: StreamType::Playback, file }),
        )
    }

    /// The state after a recording starts in a slot.
    pub open spec fn after_record(
        self,
        bank: SampleBank,
        button: SampleButtons,
        file: Seq<char>,
    ) -> HandlerView {
        self.with_slot(
            bank,
            button,
            Some(StreamView { stream_type: StreamType::Recording, file }),
        )
    }

    /// The state after a gain calculation starts.
    pub open spec fn after_calculation_start(
        self,
        bank: SampleBank,
        button: SampleButtons,
        file: Seq<char>,
    ) -> HandlerView {
        HandlerView { task: Some(TaskView { bank, button, file }), ..self }
    }
}

/// The sampler's audio state.
pub struct AudioHandler {
    output_device: Option<String>,
    recorder_buffer: u16,
    last_device_check: Option<u64>,
    active_streams: [Option<StateManager>; SLOT_COUNT],
    process_task: Option<ProcessTask>,
}

impl View for AudioHandler {
    type V = HandlerView;

    closed spec fn view(&self) -> HandlerView {
        HandlerView {
            output_device: option_view(self.output_device),
            recorder_buffer: self.recorder_buffer,
            last_device_check: self.last_device_check,
            streams: self.active_streams@.map_values(|s: Option<StateManager>| stream_view(s)),
            task: task_view(self.process_task),
        }
    }
}

/// The outcome of a finished gain calculation, given the error its player
/// recorded: `None` when that record could not be read, `Some(None)` when the
/// calculation succeeded, `Some(Some(e))` when it failed with `e`.
pub fn calculation_outcome(recorded: Option<Option<String>>) -> (r: Result<(), String>)
    ensures
        match recorded {
            None => r matches Err(e) && e@ == "Unable to read calculation state"@,
            Some(None) => r is Ok,
            Some(Some(err)) => r matches Err(e) && e@ == err@,
        },
{
    match recorded {
        None => Err(String::from_str("Unable to read calculation state")),
        Some(None) => Ok(()),
        Some(Some(err)) => Err(err),
    }
}

/// Whether the caller rebuilds the recorder before a recording, given
/// whether it has one and whether that one is ready.
pub fn recorder_action(present: bool, ready: bool) -> (a: RecorderAction)
    ensures
        a == (if !present {
            RecorderAction::Rebuild { require_ready: false }
        } else if ready {
            RecorderAction::UseExisting
        } else {
            RecorderAction::Rebuild { require_ready: true }
        }),
{
    if !present {
        RecorderAction::Rebuild { require_ready: false }
    } else if ready {
        RecorderAction::UseExisting
    } else {
        RecorderAction::Rebuild { require_ready: true }
    }
}

fn push_string(v: &mut Vec<String>, s: &str)
    ensures
        string_views(final(v)@) == string_views(old(v)@).push(s@),
{
    v.push(String::from_str(s));
    assert(string_views(v@) =~= string_views(old(v)@).push(s@));
}

impl AudioHandler {
    /// A handler has one slot per bank and button.
    pub proof fn lemma_slot_count(&self)
        ensures
            self@.streams.len() == SLOT_COUNT,
    {
    }

    /// A handler with every slot empty, no output device yet and no calculation.
    pub fn new(recorder_buffer: u16) -> (h: AudioHandler)
        ensures
            h@ == HandlerView::initial(recorder_buffer),
    {
        let streams: [Option<StateManager>; SLOT_COUNT] = [
            None,
            None,
            None,
            None,
            None,
            None,
            None,
            None,
            None,
            None,
            None,
            None,
        ];
        let h = AudioHandler {
            output_device: None,
            recorder_buffer,
            last_device_check: None,
            active_streams: streams,
            process_task: None,
        };
        assert(h@.streams =~= HandlerView::initial(recorder_buffer).streams);
        h
    }

    /// Records the recorder's buffer length; the caller rebuilds its recorder with it.
    pub fn update_record_buffer(&mut self, recorder_buffer: u16)
        ensures
            final(self)@ == (HandlerView { recorder_buffer, ..old(self)@ }),
    {
        self.recorder_buffer = recorder_buffer;
    }

    /// The recorder's buffer length.
    pub fn recorder_buffer(&self) -> (b: u16)
        ensures
            b == self@.recorder_buffer,
    {
        self.recorder_buffer
    }

    /// The output device the sampler plays on, if one was found.
    pub fn output_device(&self) -> (d: Option<String>)
        ensures
            option_view(d) == self@.output_device,
    {
        self.output_device.clone()
    }

    /// The output patterns: the override alone when one is set, else the defaults.
    pub fn get_output_device_string_patterns(override_device: Option<String>) -> (r: Vec<String>)
        ensures
            string_views(r@) == output_pattern_list(option_view(override_device)),
    {
        match override_device {
            Some(d) => {
                let mut v: Vec<String> = Vec::new();
                v.push(d);
                assert(string_views(v@) =~= output_pattern_list(option_view(override_device)));
                v
            },
            None => {
                let mut v: Vec<String> = Vec::new();
                push_string(&mut v, "goxlr_sample");
                push_string(&mut v, "GoXLR_0_8_9");
                push_string(&mut v, "GoXLR.*HiFi__Line3__sink");
                push_string(&mut v, "CoreAudio\\*Sample(?:(?!Mini).)*$");
                push_string(&mut v, "CoreAudio\\*Sampler(?:(?!Mini).)*$");
                push_string(&mut v, "CoreAudio\\*GoXLR(?:(?!Mini).)*$");
                push_string(&mut v, "^WASAPI\\*Sample(?:(?!Mini).)*$");

                assert(string_views(v@) =~= default_output_patterns());
                v
            },
        }
    }

    /// The input patterns: the override alone when one is set, else the defaults.
    pub fn get_input_device_string_patterns(override_device: Option<String>) -> (r: Vec<String>)
        ensures
            string_views(r@) == input_pattern_list(option_view(override_device)),
    {
        match override_device {
            Some(d) => {
                let mut v: Vec<String> = Vec::new();
                v.push(d);
                assert(string_views(v@) =~= input_pattern_list(option_view(override_device)));
                v
            },
            None => {
                let mut v: Vec<String> = Vec::new();
                push_string(&mut v, "goxlr_sample.*source");
                push_string(&mut v, "GoXLR_0_4_5.*source");
                push_string(&mut v, "GoXLR.*HiFi__Line5__source");
                push_string(&mut v, "CoreAudio\\*Sampler(?:(?!Mini).)*$");
                push_string(&mut v, "CoreAudio\\*Sample(?:(?!Mini).)*$");
                push_string(&mut v, "CoreAudio\\*GoXLR(?:(?!Mini).)*$");
                push_string(&mut v, "^WASAPI\\*Sample(?:(?!Mini).)*$");

                assert(string_views(v@) =~= default_input_patterns());
                v
            },
        }
    }

    /// The output patterns that compile, in order.
    pub fn get_output_device_patterns(override_device: Option<String>) -> (r: Vec<
        CompiledPattern,
    >)
        ensures
            pattern_sources(r@) == search_patterns(true, option_view(override_device)),
    {
        compile_patterns(&Self::get_output_device_string_patterns(override_device))
    }

    /// The input patterns that compile, in order: the recorder is handed the
    /// same list uncompiled.
    pub fn get_input_device_patterns(override_device: Option<String>) -> (r: Vec<CompiledPattern>)
        ensures
            pattern_sources(r@) == search_patterns(false, option_view(override_device)),
    {
        compile_patterns(&Self::get_input_device_string_patterns(override_device))
    }

    /// Whether a device search at `now` (milliseconds) would run rather than be skipped.
    pub fn device_check_due(&self, now: u64) -> (due: bool)
        ensures
            due == !self@.device_check_throttled(now),
    {
        match self.last_device_check {
            Some(t) => now >= t && now - t >= DEVICE_CHECK_INTERVAL_MS,
            None => true,
        }
    }

    /// Searches the devices for the sampler's output (`is_output`) or input.
    /// Within the check interval of the last search nothing happens. Otherwise
    /// the search time is recorded, and for an output search the first device
    /// in whose name a pattern is found becomes the output device (`None` when
    /// no device matches).
    pub fn find_device(
        &mut self,
        is_output: bool,
        now: u64,
        devices: &Vec<String>,
        override_device: Option<String>,
    )
        ensures
            old(self)@.device_check_throttled(now) ==> final(self)@ == old(self)@,
            !old(self)@.device_check_throttled(now) ==> {
                &&& final(self)@.last_device_check == Some(now)
                &&& final(self)@.recorder_buffer == old(self)@.recorder_buffer
                &&& final(self)@.streams == old(self)@.streams
                &&& final(self)@.task == old(self)@.task
                &&& !is_output ==> final(self)@.output_device == old(self)@.output_device
                &&& is_output ==> is_first_match(
                    final(self)@.output_device,
                    string_views(devices@),
                    search_patterns(true, option_view(override_device)),
                )
            },
    {
        if !self.device_check_due(now) {
            return ;
        }
        let patterns = if is_output {
            Self::get_output_device_patterns(override_device)
        } else {
            Self::get_input_device_patterns(override_device)
        };
        let device = select_device(devices, &patterns);
        self.last_device_check = Some(now);
        let ghost chosen = device;
        if is_output {
            self.output_device = device;
            proof {
                let ds = string_views(devices@);
                let ps = pattern_sources(patterns@);
                match chosen {
                    None => {
                        assert forall|i: int| 0 <= i < ds.len() implies !matches_any(
                            ps,
                            #[trigger] ds[i],
                        ) by {
                            assert(ds[i] == devices@[i]@);
                        }
                    },
                    Some(d) => {
                        let i = choose|i: int|
                            0 <= i < devices@.len() && d@ == devices@[i]@ && matches_any(
                                ps,
                                devices@[i]@,
                            ) && forall|k: int|
                                0 <= k < i ==> !matches_any(ps, #[trigger] devices@[k]@);
                        assert forall|k: int| 0 <= k < i implies !matches_any(
                            ps,
                            #[trigger] ds[k],
                        ) by {
                            assert(ds[k] == devices@[k]@);
                        }
                        assert(ds[i] == devices@[i]@);
                    },
                }
            }
        }
    }

    /// One step of starting a playback. The cached output device is tried
    /// first (after a search when there is none); when a player cannot be
    /// built on it, the device is forgotten, searched for again, and tried
    /// once more.
    pub fn playback_step(&mut self, phase: PlaybackPhase, event: PlaybackEvent) -> (r: (
        PlaybackPhase,
        PlaybackAction,
    ))
        ensures
            is_playback_step(phase, event, old(self)@.output_device, r),
            (phase, event) == (PlaybackPhase::FirstAttempt, PlaybackEvent::PlayerFailed)
                ==> final(self)@ == (HandlerView {
                output_device: None,
                last_device_check: None,
                ..old(self)@
            }),
            (phase, event) != (PlaybackPhase::FirstAttempt, PlaybackEvent::PlayerFailed)
                ==> final(self)@ == old(self)@,
    {
        match (phase, event) {
            (PlaybackPhase::Start, PlaybackEvent::Requested) => match &self.output_device {
                None => (PlaybackPhase::Searching, PlaybackAction::SearchDevice),
                Some(d) => (PlaybackPhase::FirstAttempt, PlaybackAction::BuildPlayer(d.clone())),
            },
            (PlaybackPhase::Searching, PlaybackEvent::DeviceSearched) => match &self.output_device {
                None => (
                    PlaybackPhase::Finished,
                    PlaybackAction::Fail(AudioError::OutputDeviceNotFound),
                ),
                Some(d) => (PlaybackPhase::FirstAttempt, PlaybackAction::BuildPlayer(d.clone())),
            },
            (PlaybackPhase::FirstAttempt, PlaybackEvent::PlayerFailed) => {
                self.output_device = None;
                self.last_device_check = None;
                (PlaybackPhase::SearchingAgain, PlaybackAction::SearchDevice)
            },
            (PlaybackPhase::SearchingAgain, PlaybackEvent::DeviceSearched) => match &self.output_device {
                None => (
                    PlaybackPhase::Finished,
                    PlaybackAction::Fail(AudioError::OutputDeviceNotFoundAfterRetry),
                ),
                Some(d) => (PlaybackPhase::SecondAttempt, PlaybackAction::BuildPlayer(d.clone())),
            },
            (PlaybackPhase::FirstAttempt, PlaybackEvent::PlayerBuilt) => (
                PlaybackPhase::Finished,
                PlaybackAction::StartPlayback,
            ),
            (PlaybackPhase::SecondAttempt, PlaybackEvent::PlayerBuilt) => (
                PlaybackPhase::Finished,
                PlaybackAction::StartPlayback,
            ),
            (PlaybackPhase::SecondAttempt, PlaybackEvent::PlayerFailed) => (
                PlaybackPhase::Finished,
                PlaybackAction::FailWithPlayerError,
            ),
            _ => (phase, PlaybackAction::Ignore),
        }
    }

    fn set_slot(&mut self, bank: SampleBank, button: SampleButtons, s: Option<StateManager>)
        ensures
            final(self)@ == old(self)@.with_slot(bank, button, stream_view(s)),
    {
        let i = slot_of(bank, button);
        self.active_streams[i] = s;
        assert(self@.streams =~= old(self)@.with_slot(bank, button, stream_view(s)).streams);
    }

    fn slot(&self, bank: SampleBank, button: SampleButtons) -> (s: &Option<StateManager>)
        ensures
            stream_view(*s) == self@.slot(bank, button),
    {
        &self.active_streams[slot_of(bank, button)]
    }

    /// Records that the slot now plays `file`; whatever it held is replaced.
    pub fn play_for_button(&mut self, bank: SampleBank, button: SampleButtons, file: String)
        ensures
            final(self)@ == old(self)@.after_play(bank, button, file@),
    {
        self.set_slot(bank, button, Some(StateManager { stream_type: StreamType::Playback, file }));
    }

    /// Whether the slot plays.
    pub fn is_sample_playing(&self, bank: SampleBank, button: SampleButtons) -> (r: bool)
        ensures
            r == self@.is_playing(bank, button),
    {
        match self.slot(bank, button) {
            Some(s) => s.stream_type == StreamType::Playback,
            None => false,
        }
    }

    /// The file the slot plays, if it plays.
    pub fn get_playing_file(&self, bank: SampleBank, button: SampleButtons) -> (r: Option<String>)
        ensures
            option_view(r) == self@.playing_file(bank, button),
    {
        match self.slot(bank, button) {
            Some(s) => if s.stream_type == StreamType::Playback {
                Some(s.file.clone())
            } else {
                None
            },
            None => None,
        }
    }

    /// Whether the slot records.
    pub fn sample_recording(&self, bank: SampleBank, button: SampleButtons) -> (r: bool)
        ensures
            r == self@.is_recording(bank, button),
    {
        match self.slot(bank, button) {
            Some(s) => s.stream_type == StreamType::Recording,
            None => false,
        }
    }

    /// The file the slot records into, if it records.
    pub fn recording_file(&self, bank: SampleBank, button: SampleButtons) -> (r: Option<String>)
        ensures
            match r {
                Some(f) => self@.is_recording(bank, button) && f@ == self@.slot(
                    bank,
                    button,
                )->0.file,
                None => !self@.is_recording(bank, button),
            },
    {
        match self.slot(bank, button) {
            Some(s) => if s.stream_type == StreamType::Recording {
                Some(s.file.clone())
            } else {
                None
            },
            None => None,
        }
    }

    /// Whether any slot records.
    pub fn is_sample_recording(&self) -> (r: bool)
        ensures
            r == self@.any_recording(),
    {
        let ghost v = self@;
        for i in 0..SLOT_COUNT
            invariant
                v == self@,
                self.active_streams@.len() == SLOT_COUNT,
                forall|k: int|
                    0 <= k < i ==> !(#[trigger] v.streams[k] matches Some(s) && s.stream_type
                        == StreamType::Recording),
        {
            match &self.active_streams[i] {
                Some(s) => {
                    if s.stream_type == StreamType::Recording {
                        assert(v.streams[i as int] == stream_view(self.active_streams@[i as int]));
                        return true;
                    }
                },
                None => {},
            }
            assert(v.streams[i as int] == stream_view(self.active_streams@[i as int]));
        }
        false
    }

    /// Whether the slot's player is fading out: the slot plays and the player
    /// reports `stopping` (the caller's reading of it).
    pub fn is_sample_stopping(&self, bank: SampleBank, button: SampleButtons, stopping: bool) -> (r:
        bool)
        ensures
            r == (self@.is_playing(bank, button) && stopping),
    {
        self.is_sample_playing(bank, button) && stopping
    }

    /// Clears every slot whose stream has finished: `finished[i]` is the
    /// caller's reading for slot `i` (a missing entry counts as running).
    /// Returns whether any slot was cleared.
    pub fn check_playing(&mut self, finished: &Vec<bool>) -> (changed: bool)
        ensures
            final(self)@ == old(self)@.after_check(finished@),
            changed == old(self)@.check_changes(finished@),
    {
        let ghost old_v = self@;
        let mut changed = false;
        let mut i: usize = 0;
        while i < SLOT_COUNT
            invariant
                0 <= i <= SLOT_COUNT,
                self.active_streams@.len() == SLOT_COUNT,
                old_v.streams.len() == SLOT_COUNT,
                self@.output_device == old_v.output_device,
                self@.recorder_buffer == old_v.recorder_buffer,
                self@.last_device_check == old_v.last_device_check,
                self@.task == old_v.task,
                forall|k: int|
                    0 <= k < i ==> #[trigger] self@.streams[k] == (if old_v.streams[k] is Some && k
                        < finished@.len() && finished@[k] {
                        None
                    } else {
                        old_v.streams[k]
                    }),
                forall|k: int| i <= k < SLOT_COUNT ==> #[trigger] self@.streams[k] == old_v.streams[k],
                changed == exists|k: int| 0 <= k < i && #[trigger] old_v.finished_stream(finished@, k),
            decreases SLOT_COUNT - i,
        {
            let done = i < finished.len() && finished[i];
            let occupied = self.active_streams[i].is_some();
            let ghost before = self.active_streams@;
            let ghost prev = self@;
            assert(self@.streams[i as int] == stream_view(before[i as int]));
            assert(old_v.streams[i as int] == self@.streams[i as int]);
            assert(old_v.finished_stream(finished@, i as int) == (occupied && done));
            if occupied && done {
                self.active_streams[i] = None;
                changed = true;
                assert(self.active_streams@ == before.update(i as int, None));
            }
            proof {
                assert forall|k: int| 0 <= k < SLOT_COUNT && k != i implies #[trigger] self@.streams[k]
                    == prev.streams[k] by {
                    assert(prev.streams[k] == stream_view(before[k]));
                }
                assert(self@.streams[i as int] == stream_view(self.active_streams@[i as int]));
            }
            i = i + 1;
        }
        assert(self@.streams =~= old_v.after_check(finished@).streams);
        changed
    }

    /// Decides a restart request: `Ok(true)` when the slot plays and its
    /// player is to restart the track, `Ok(false)` when the slot is empty.
    pub fn restart_for_button(&self, bank: SampleBank, button: SampleButtons) -> (r: Result<
        bool,
        AudioError,
    >)
        ensures
            r == (match self@.slot(bank, button) {
                None => Ok::<bool, AudioError>(false),
                Some(s) => if s.stream_type == StreamType::Recording {
                    Err(AudioError::RestartOnRecordingStream)
                } else {
                    Ok(true)
                },
            }),
    {
        match self.slot(bank, button) {
            None => Ok(false),
            Some(s) => if s.stream_type == StreamType::Recording {
                Err(AudioError::RestartOnRecordingStream)
            } else {
                Ok(true)
            },
        }
    }

    /// Decides a playback stop; `stopping` is the caller's reading of whether
    /// the slot's player is already fading out. A player that is already
    /// stopping is forced to stop and its slot is cleared; otherwise it is
    /// asked to stop (`force`: without fading). A recording slot refuses.
    pub fn stop_playback(
        &mut self,
        bank: SampleBank,
        button: SampleButtons,
        force: bool,
        stopping: bool,
    ) -> (r: Result<StopAction, AudioError>)
        ensures
            match old(self)@.slot(bank, button) {
                None => r == Ok::<StopAction, AudioError>(StopAction::Nothing) && final(self)@
                    == old(self)@,
                Some(s) => if s.stream_type == StreamType::Recording {
                    r == Err::<StopAction, AudioError>(AudioError::StopPlaybackOnRecordingStream)
                        && final(self)@ == old(self)@
                } else if stopping {
                    r == Ok::<StopAction, AudioError>(StopAction::ForceStopAndWait)
                        && final(self)@ == old(self)@.with_slot(bank, button, None)
                } else {
                    r == Ok::<StopAction, AudioError>(StopAction::BeginStop { force })
                        && final(self)@ == old(self)@
                },
            },
    {
        let kind = match self.slot(bank, button) {
            None => {
                return Ok(StopAction::Nothing);
            },
            Some(s) => s.stream_type,
        };
        if kind == StreamType::Recording {
            return Err(AudioError::StopPlaybackOnRecordingStream);
        }
        if stopping {
            self.set_slot(bank, button, None);
            Ok(StopAction::ForceStopAndWait)
        } else {
            Ok(StopAction::BeginStop { force })
        }
    }

    /// Records that the slot now records into `path`, once the caller has
    /// carried out `action` and found the recorder `ready` (or not). A rebuilt
    /// recorder that had to be ready and is not refuses the recording.
    pub fn record_for_button(
        &mut self,
        path: String,
        bank: SampleBank,
        button: SampleButtons,
        action: RecorderAction,
        ready: bool,
    ) -> (r: Result<(), AudioError>)
        ensures
            (action == RecorderAction::Rebuild { require_ready: true } && !ready) ==> r == Err::<
                (),
                AudioError,
            >(AudioError::SamplerNotReady) && final(self)@ == old(self)@,
            !(action == RecorderAction::Rebuild { require_ready: true } && !ready) ==> r is Ok
                && final(self)@ == old(self)@.after_record(bank, button, path@),
    {
        if action == (RecorderAction::Rebuild { require_ready: true }) && !ready {
            return Err(AudioError::SamplerNotReady);
        }
        self.set_slot(
            bank,
            button,
            Some(StateManager { stream_type: StreamType::Recording, file: path }),
        );
        Ok(())
    }

    /// Finishes a recording once the caller has stopped its thread;
    /// `file_exists` is whether the recorded file was written. Returns the
    /// file's name when it exists and clears the slot. An empty or playing
    /// slot refuses, as does a recorded path without a file name (the slot
    /// then stays as it was).
    pub fn stop_record(&mut self, bank: SampleBank, button: SampleButtons, file_exists: bool) -> (r:
        Result<Option<String>, AudioError>)
        ensures
            match old(self)@.slot(bank, button) {
                None => r == Err::<Option<String>, AudioError>(AudioError::InactiveRecording)
                    && final(self)@ == old(self)@,
                Some(s) => if s.stream_type == StreamType::Playback {
                    r == Err::<Option<String>, AudioError>(
                        AudioError::StopRecordingOnPlaybackStream,
                    ) && final(self)@ == old(self)@
                } else if !file_exists {
                    r matches Ok(None) && final(self)@ == old(self)@.with_slot(bank, button, None)
                } else {
                    match path_file_name(s.file) {
                        None => r == Err::<Option<String>, AudioError>(AudioError::MissingFileName)
                            && final(self)@ == old(self)@,
                        Some(n) => r matches Ok(Some(name)) && name@ == n
                            && final(self)@ == old(self)@.with_slot(bank, button, None),
                    }
                },
            },
    {
        let file = match self.slot(bank, button) {
            None => {
                return Err(AudioError::InactiveRecording);
            },
            Some(s) => {
                if s.stream_type == StreamType::Playback {
                    return Err(AudioError::StopRecordingOnPlaybackStream);
                }
                s.file.clone()
            },
        };
        let mut name: Option<String> = None;
        if file_exists {
            match file_name(&file) {
                None => {
                    return Err(AudioError::MissingFileName);
                },
                Some(n) => {
                    name = Some(n);
                },
            }
        }
        self.set_slot(bank, button, None);
        Ok(name)
    }

    /// Refuses a new gain calculation while one runs.
    pub fn check_not_calculating(&self) -> (r: Result<(), AudioError>)
        ensures
            r is Ok <==> self@.task is None,
            r is Err ==> r == Err::<(), AudioError>(AudioError::AlreadyProcessing),
    {
        if self.process_task.is_some() {
            Err(AudioError::AlreadyProcessing)
        } else {
            Ok(())
        }
    }

    /// Records a gain calculation of `path` for a slot, unless one already runs.
    pub fn calculate_gain_thread(
        &mut self,
        path: String,
        bank: SampleBank,
        button: SampleButtons,
    ) -> (r: Result<(), AudioError>)
        ensures
            old(self)@.task is Some ==> r == Err::<(), AudioError>(AudioError::AlreadyProcessing)
                && final(self)@ == old(self)@,
            old(self)@.task is None ==> r is Ok
                && final(self)@ == old(self)@.after_calculation_start(bank, button, path@),
    {
        if self.process_task.is_some() {
            return Err(AudioError::AlreadyProcessing);
        }
        self.process_task = Some(ProcessTask { bank, button, file: path });
        Ok(())
    }

    /// Whether a gain calculation runs.
    pub fn is_calculating(&self) -> (r: bool)
        ensures
            r == self@.task is Some,
    {
        self.process_task.is_some()
    }

    /// Whether the running calculation has finished (`finished`: the caller's
    /// reading of its thread).
    pub fn is_calculating_complete(&self, finished: bool) -> (r: Result<bool, AudioError>)
        ensures
            self@.task is None ==> r == Err::<bool, AudioError>(
                AudioError::CalculationNotInProgress,
            ),
            self@.task is Some ==> r == Ok::<bool, AudioError>(finished),
    {
        if self.process_task.is_none() {
            return Err(AudioError::CalculationNotInProgress);
        }
        Ok(finished)
    }

    /// The running calculation's progress (`progress`: the caller's reading of it).
    pub fn get_calculating_progress(&self, progress: u8) -> (r: Result<u8, AudioError>)
        ensures
            self@.task is None ==> r == Err::<u8, AudioError>(AudioError::CalculationNotInProgress),
            self@.task is Some ==> r == Ok::<u8, AudioError>(progress),
    {
        if self.process_task.is_none() {
            return Err(AudioError::CalculationNotInProgress);
        }
        Ok(progress)
    }

    /// Hands back the running calculation once its thread has been waited
    /// for, and forgets it.
    pub fn get_and_clear_calculating_result(&mut self) -> (r: Result<ProcessTask, AudioError>)
        ensures
            old(self)@.task is None ==> r is Err && r->Err_0 == AudioError::CalculationNotInProgress
                && final(self)@ == old(self)@,
            old(self)@.task is Some ==> (r matches Ok(t) && Some(t@) == old(self)@.task && final(self)@
                == (HandlerView { task: None, ..old(self)@ })),
    {
        match self.process_task.take() {
            None => Err(AudioError::CalculationNotInProgress),
            Some(t) => Ok(t),
        }
    }
}

} // verus!
