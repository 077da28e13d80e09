//! What is done, step by step, when the process of a recording has ended.
//!
//! Each step names something to be done outside; once it is done, the function that belongs to
//! the step gives the next one.

use vstd::prelude::*;

use crate::clock::Instant;
use crate::model;
use crate::model::{AppSettings, LiveRoom, RecordTask};
use crate::plan::{AutoSetting, RoomPlan};
use crate::policy;
use crate::policy::LiveVerification;
use crate::recorder::RecordingExit;
use crate::schedule;
use crate::text;

verus! {

/// A recording whose process has ended, and whose result is still open. `S` is the kind of text.
#[derive(Debug)]
pub struct EndedRecording<S> {
    pub file_path: Option<S>,
    pub size: i64,
    pub trigger: S,
    pub manually_stopped: bool,
}

/// What a look at the room brought after the recording ended.
#[derive(Debug)]
pub enum Refresh<S> {
    /// The user stopped the recording, so the room was not looked at.
    NotAsked,
    Live,
    Offline,
    /// The room could not be read.
    Failed(S),
}

/// A recording whose result is known.
#[derive(Debug)]
pub struct JudgedRecording<S> {
    pub status: S,
    /// The kind of event by which the result is announced.
    pub reason: S,
    pub message: Option<S>,
    pub file_path: Option<S>,
    pub size: i64,
    pub trigger: S,
}

/// How the conversion of a file to MP4 ended.
#[derive(Debug)]
pub enum Conversion<S> {
    Done { path: S, size: i64, warning: Option<S> },
    Failed(S),
    /// The conversion itself broke down.
    Crashed(S),
}

/// What is done next about a recording whose process has ended.
#[derive(Debug)]
pub enum ExitStep<S> {
    /// Nothing: the recording was dealt with before.
    Ignore,
    /// Store that the recording is being finalized, with the size of its file, and announce that
    /// with the reason; then [`exit_marked`].
    MarkFinalizing { recording: EndedRecording<S>, reason: S },
    /// Look at the room; then [`exit_refreshed`].
    RefreshRoom(EndedRecording<S>),
    /// Convert the file to MP4; then [`exit_converted`].
    Convert { recording: JudgedRecording<S>, path: S, preserve_source: bool },
    /// Store the result; then [`exit_finished`].
    FinishTask(JudgedRecording<S>),
    /// Do what is planned about the room; then [`exit_settled`].
    SettleRoom { recording: JudgedRecording<S>, plan: RoomPlan<S> },
    /// Announce the result, together with the room. That is all.
    Announce(JudgedRecording<S>),
}

impl View for EndedRecording<String> {
    type V = EndedRecording<Seq<char>>;

    open spec fn view(&self) -> EndedRecording<Seq<char>> {
        EndedRecording {
            file_path: text::opt_view(self.file_path),
            size: self.size,
            trigger: self.trigger@,
            manually_stopped: self.manually_stopped,
        }
    }
}

impl View for Refresh<String> {
    type V = Refresh<Seq<char>>;

    open spec fn view(&self) -> Refresh<Seq<char>> {
        match self {
            Refresh::NotAsked => Refresh::NotAsked,
            Refresh::Live => Refresh::Live,
            Refresh::Offline => Refresh::Offline,
            Refresh::Failed(detail) => Refresh::Failed(detail@),
        }
    }
}

impl View for JudgedRecording<String> {
    type V = JudgedRecording<Seq<char>>;

    open spec fn view(&self) -> JudgedRecording<Seq<char>> {
        JudgedRecording {
            status: self.status@,
            reason: self.reason@,
            message: text::opt_view(self.message),
            file_path: text::opt_view(self.file_path),
            size: self.size,
            trigger: self.trigger@,
        }
    }
}

impl View for Conversion<String> {
    type V = Conversion<Seq<char>>;

    open spec fn view(&self) -> Conversion<Seq<char>> {
        match self {
            Conversion::Done { path, size, warning } => Conversion::Done {
                path: path@,
                size: *size,
                warning: text::opt_view(*warning),
            },
            Conversion::Failed(detail) => Conversion::Failed(detail@),
            Conversion::Crashed(detail) => Conversion::Crashed(detail@),
        }
    }
}

impl View for ExitStep<String> {
    type V = ExitStep<Seq<char>>;

    open spec fn view(&self) -> ExitStep<Seq<char>> {
        match self {
            ExitStep::Ignore => ExitStep::Ignore,
            ExitStep::MarkFinalizing { recording, reason } => ExitStep::MarkFinalizing {
                recording: recording@,
                reason: reason@,
            },
            ExitStep::RefreshRoom(ended) => ExitStep::RefreshRoom(ended@),
            ExitStep::Convert { recording, path, preserve_source } => ExitStep::Convert {
                recording: recording@,
                path: path@,
                preserve_source: *preserve_source,
            },
            ExitStep::FinishTask(recording) => ExitStep::FinishTask(recording@),
            ExitStep::SettleRoom { recording, plan } => ExitStep::SettleRoom {
                recording: recording@,
                plan: plan@,
            },
            ExitStep::Announce(recording) => ExitStep::Announce(recording@),
        }
    }
}

// ---------------------------------------------------------------------------
// The result of a recording
// ---------------------------------------------------------------------------

/// What a look at the room says about it.
pub open spec fn verification_of<S>(refresh: Refresh<S>) -> Option<LiveVerification> {
    match refresh {
        Refresh::NotAsked => None,
        Refresh::Live => Some(LiveVerification::Live),
        Refresh::Offline => Some(LiveVerification::Offline),
        Refresh::Failed(_) => Some(LiveVerification::Failed),
    }
}

/// What the user is told of a recording.
pub open spec fn ending_message(
    size: i64,
    manually_stopped: bool,
    refresh: Refresh<Seq<char>>,
) -> Option<Seq<char>> {
    if size <= 0 {
        Some("录制已结束，但没有生成有效文件"@)
    } else if manually_stopped {
        Some("录制已停止"@)
    } else {
        match refresh {
            Refresh::Offline => Some("直播已结束，录制已完成"@),
            Refresh::Live => Some("录制进程已结束，但主播仍在直播，请检查网络后重新录制"@),
            Refresh::Failed(detail) => Some("录制进程已结束，但无法确认直播状态: "@ + detail),
            Refresh::NotAsked => None,
        }
    }
}

/// The kind of event by which the end of a recording is announced.
pub open spec fn ending_reason<S>(size: i64, manually_stopped: bool, refresh: Refresh<S>) -> Seq<
    char,
> {
    if size <= 0 {
        "failed"@
    } else if manually_stopped {
        "manual_stop"@
    } else if refresh is Offline {
        "stream_ended"@
    } else {
        "interrupted"@
    }
}

/// The result of a recording.
pub open spec fn judged(
    ended: EndedRecording<Seq<char>>,
    refresh: Refresh<Seq<char>>,
) -> JudgedRecording<Seq<char>> {
    JudgedRecording {
        status: policy::recording_status(
            ended.size,
            ended.manually_stopped,
            verification_of(refresh),
        ),
        reason: ending_reason(ended.size, ended.manually_stopped, refresh),
        message: ending_message(ended.size, ended.manually_stopped, refresh),
        file_path: ended.file_path,
        size: ended.size,
        trigger: ended.trigger,
    }
}

/// The file is to be converted: the recording is complete, the user wants it, and it is FLV.
pub open spec fn wants_conversion(
    recording: JudgedRecording<Seq<char>>,
    settings: AppSettings,
) -> bool {
    &&& recording.status == "completed"@
    &&& settings.auto_convert_mp4
    &&& recording.file_path is Some
    &&& text::has_suffix(recording.file_path->0, ".flv"@)
}

/// The message so far, or a general one.
pub open spec fn so_far(message: Option<Seq<char>>) -> Seq<char> {
    match message {
        Some(message) => message,
        None => "录制已完成"@,
    }
}

/// A recording after the conversion of its file. Without an MP4 it keeps its FLV; its status is
/// the same in any case.
pub open spec fn converted(
    recording: JudgedRecording<Seq<char>>,
    conversion: Conversion<Seq<char>>,
) -> JudgedRecording<Seq<char>> {
    let said = so_far(recording.message);
    match conversion {
        Conversion::Done { path, size, warning } => JudgedRecording {
            file_path: Some(path),
            size,
            message: match warning {
                Some(warning) => Some(said + "；"@ + warning),
                None => recording.message,
            },
            ..recording
        },
        Conversion::Failed(detail) => JudgedRecording {
            message: Some(said + "；自动转换 MP4 失败，已保留 FLV: "@ + detail),
            ..recording
        },
        Conversion::Crashed(detail) => JudgedRecording {
            message: Some(said + "；自动转换任务异常，已保留 FLV: "@ + detail),
            ..recording
        },
    }
}

// ---------------------------------------------------------------------------
// The steps
// ---------------------------------------------------------------------------

/// What is known of a recording when its process has ended.
pub open spec fn ended_recording(task: RecordTask, size: i64, exit: RecordingExit) -> EndedRecording<
    Seq<char>,
> {
    EndedRecording {
        file_path: text::opt_view(task.file_path),
        size,
        trigger: task.trigger@,
        manually_stopped: exit.manually_stopped,
    }
}

/// The first step.
pub open spec fn first_step(task: RecordTask, size: i64, exit: RecordingExit) -> ExitStep<
    Seq<char>,
> {
    if model::is_pending(task.status@) {
        ExitStep::MarkFinalizing {
            recording: ended_recording(task, size, exit),
            reason: "finalizing"@,
        }
    } else {
        ExitStep::Ignore
    }
}

/// The step after the room was looked at, or was not to be.
pub open spec fn step_refreshed(
    ended: EndedRecording<Seq<char>>,
    refresh: Refresh<Seq<char>>,
    settings: AppSettings,
) -> ExitStep<Seq<char>> {
    let recording = judged(ended, refresh);
    if wants_conversion(recording, settings) {
        ExitStep::Convert {
            recording,
            path: recording.file_path->0,
            preserve_source: settings.preserve_source_after_convert,
        }
    } else {
        ExitStep::FinishTask(recording)
    }
}

/// The step after the recording was marked.
pub open spec fn step_marked(ended: EndedRecording<Seq<char>>, settings: AppSettings) -> ExitStep<
    Seq<char>,
> {
    if ended.manually_stopped {
        step_refreshed(ended, Refresh::NotAsked, settings)
    } else {
        ExitStep::RefreshRoom(ended)
    }
}

/// The step after the result was stored.
pub open spec fn step_finished(
    recording: JudgedRecording<Seq<char>>,
    settings: AppSettings,
    room: LiveRoom,
    now: Instant,
) -> ExitStep<Seq<char>> {
    ExitStep::SettleRoom {
        recording,
        plan: policy::post_recording_plan(
            recording.trigger,
            recording.status,
            settings,
            room,
            now,
        ),
    }
}

/// What is done when the process of the recording `task` has ended, and its file has that size.
pub fn handle_recording_exit(task: &RecordTask, size: i64, exit: &RecordingExit) -> (step: ExitStep<
    String,
>)
    ensures
        step@ == first_step(*task, size, *exit),
{
    if !model::status_is_pending(task.status.as_str()) {
        return ExitStep::Ignore;
    }
    ExitStep::MarkFinalizing {
        recording: EndedRecording {
            file_path: text::copy_opt(&task.file_path),
            size,
            trigger: task.trigger.clone(),
            manually_stopped: exit.manually_stopped,
        },
        reason: "finalizing".to_owned(),
    }
}

/// Whether the end of the process is worth a line in the log.
pub fn exit_is_noteworthy(exit: &RecordingExit) -> (noteworthy: bool)
    ensures
        noteworthy == (!exit.status_success || exit.wait_error is Some),
{
    !exit.status_success || exit.wait_error.is_some()
}

/// The step after the recording was marked.
pub fn exit_marked(ended: EndedRecording<String>, settings: &AppSettings) -> (step: ExitStep<
    String,
>)
    ensures
        step@ == step_marked(ended@, *settings),
{
    if ended.manually_stopped {
        exit_refreshed(ended, Refresh::NotAsked, settings)
    } else {
        ExitStep::RefreshRoom(ended)
    }
}

fn judge(ended: EndedRecording<String>, refresh: &Refresh<String>) -> (recording: JudgedRecording<
    String,
>)
    ensures
        recording@ == judged(ended@, refresh@),
{
    let verification = match refresh {
        Refresh::NotAsked => None,
        Refresh::Live => Some(LiveVerification::Live),
        Refresh::Offline => Some(LiveVerification::Offline),
        Refresh::Failed(_) => Some(LiveVerification::Failed),
    };
    let status = policy::classify_recording(ended.size, ended.manually_stopped, verification);
    proof {
        policy::lemma_statuses_differ();
    }
    let completed = text::same_text(status, "completed");
    let failed = text::same_text(status, "failed");
    let message = if completed && ended.manually_stopped {
        Some("录制已停止".to_owned())
    } else if completed {
        Some("直播已结束，录制已完成".to_owned())
    } else if failed {
        Some("录制已结束，但没有生成有效文件".to_owned())
    } else {
        match refresh {
            Refresh::Live => Some(
                "录制进程已结束，但主播仍在直播，请检查网络后重新录制".to_owned(),
            ),
            Refresh::Failed(detail) => Some(
                text::cat2("录制进程已结束，但无法确认直播状态: ", detail.as_str()),
            ),
            _ => None,
        }
    };
    let reason = if completed && ended.manually_stopped {
        "manual_stop"
    } else if completed {
        "stream_ended"
    } else if failed {
        "failed"
    } else {
        "interrupted"
    };
    JudgedRecording {
        status: status.to_owned(),
        reason: reason.to_owned(),
        message,
        file_path: ended.file_path,
        size: ended.size,
        trigger: ended.trigger,
    }
}

/// What a look at the room brought, given whether it is live, or why it could not be read.
pub open spec fn refresh_by(look: Result<bool, Seq<char>>) -> Refresh<Seq<char>> {
    match look {
        Ok(true) => Refresh::Live,
        Ok(false) => Refresh::Offline,
        Err(error) => Refresh::Failed(error),
    }
}

/// What a look at the room brought, given whether it is live, or why it could not be read.
pub fn refresh_of(look: Result<bool, String>) -> (refresh: Refresh<String>)
    ensures
        refresh@ == refresh_by(
            match look {
                Ok(live) => Ok(live),
                Err(error) => Err(error@),
            },
        ),
{
    match look {
        Ok(true) => Refresh::Live,
        Ok(false) => Refresh::Offline,
        Err(error) => Refresh::Failed(error),
    }
}

/// The step after the room was looked at.
pub fn exit_refreshed(
    ended: EndedRecording<String>,
    refresh: Refresh<String>,
    settings: &AppSettings,
) -> (step: ExitStep<String>)
    ensures
        step@ == step_refreshed(ended@, refresh@, *settings),
{
    let recording = judge(ended, &refresh);
    if text::same_text(recording.status.as_str(), "completed") && settings.auto_convert_mp4 {
        let path = match &recording.file_path {
            Some(path) => Some(path.clone()),
            None => None,
        };
        if let Some(path) = path {
            if text::ends_with(path.as_str(), ".flv") {
                return ExitStep::Convert {
                    recording,
                    path,
                    preserve_source: settings.preserve_source_after_convert,
                };
            }
        }
    }
    ExitStep::FinishTask(recording)
}

fn add_to(message: Option<String>, between: &str, detail: &str) -> (whole: Option<String>)
    ensures
        text::opt_view(whole) == Some(so_far(text::opt_view(message)) + between@ + detail@),
{
    let start = match message {
        Some(message) => message,
        None => "录制已完成".to_owned(),
    };
    Some(text::cat3(start.as_str(), between, detail))
}

/// The step after the conversion of the file.
pub fn exit_converted(recording: JudgedRecording<String>, conversion: Conversion<String>) -> (step:
    ExitStep<String>)
    ensures
        step@ == (ExitStep::FinishTask(converted(recording@, conversion@))),
{
    let mut recording = recording;
    match conversion {
        Conversion::Done { path, size, warning } => {
            recording.file_path = Some(path);
            recording.size = size;
            if let Some(warning) = warning {
                recording.message = add_to(recording.message, "；", warning.as_str());
            }
        },
        Conversion::Failed(detail) => {
            recording.message = add_to(
                recording.message,
                "；自动转换 MP4 失败，已保留 FLV: ",
                detail.as_str(),
            );
        },
        Conversion::Crashed(detail) => {
            recording.message = add_to(
                recording.message,
                "；自动转换任务异常，已保留 FLV: ",
                detail.as_str(),
            );
        },
    }
    ExitStep::FinishTask(recording)
}

/// The step after the result was stored.
pub fn exit_finished(
    recording: JudgedRecording<String>,
    settings: &AppSettings,
    room: &LiveRoom,
    now: Instant,
) -> (step: ExitStep<String>)
    requires
        now.valid(),
        policy::opens_window(recording.trigger@, recording.status@, *settings)
            ==> schedule::window_fits(now, settings.auto_monitor_window_hours),
    ensures
        step@ == step_finished(recording@, *settings, *room, now),
        step matches ExitStep::SettleRoom { plan, .. } && (plan.setting matches Some(
            AutoSetting { until: Some(until), .. },
        ) ==> schedule::reads_back(until@, settings.auto_monitor_window_hours, now)),
{
    let plan = policy::apply_post_recording_auto_policy(
        recording.trigger.as_str(),
        recording.status.as_str(),
        settings,
        room,
        now,
    );
    ExitStep::SettleRoom { recording, plan }
}

/// The step after what was planned about the room was done.
pub fn exit_settled(recording: JudgedRecording<String>) -> (step: ExitStep<String>)
    ensures
        step@ == (ExitStep::Announce(recording@)),
{
    ExitStep::Announce(recording)
}

// ---------------------------------------------------------------------------
// The steps as a whole
// ---------------------------------------------------------------------------

/// What the steps meet with outside.
pub struct ExitWorld {
    pub settings: AppSettings,
    pub refresh: Refresh<Seq<char>>,
    pub conversion: Conversion<Seq<char>>,
    pub room: LiveRoom,
    pub now: Instant,
}

/// The step that follows.
pub open spec fn next_step(step: ExitStep<Seq<char>>, world: ExitWorld) -> Option<
    ExitStep<Seq<char>>,
> {
    match step {
        ExitStep::Ignore => None,
        ExitStep::MarkFinalizing { recording, .. } => Some(
            step_marked(recording, world.settings),
        ),
        ExitStep::RefreshRoom(ended) => Some(
            step_refreshed(ended, world.refresh, world.settings),
        ),
        ExitStep::Convert { recording, .. } => Some(
            ExitStep::FinishTask(converted(recording, world.conversion)),
        ),
        ExitStep::FinishTask(recording) => Some(
            step_finished(recording, world.settings, world.room, world.now),
        ),
        ExitStep::SettleRoom { recording, .. } => Some(ExitStep::Announce(recording)),
        ExitStep::Announce(_) => None,
    }
}

/// How many steps can still follow.
pub open spec fn steps_left(step: ExitStep<Seq<char>>) -> nat {
    match step {
        ExitStep::Ignore => 0,
        ExitStep::MarkFinalizing { .. } => 5,
        ExitStep::RefreshRoom(_) => 4,
        ExitStep::Convert { .. } => 3,
        ExitStep::FinishTask(_) => 2,
        ExitStep::SettleRoom { .. } => 1,
        ExitStep::Announce(_) => 0,
    }
}

/// All the steps from `step` on.
pub open spec fn steps_from(step: ExitStep<Seq<char>>, world: ExitWorld) -> Seq<
    ExitStep<Seq<char>>,
>
    decreases steps_left(step),
{
    match next_step(step, world) {
        None => seq![step],
        Some(next) => seq![step] + steps_from(next, world),
    }
}

/// The result of the recording in the end.
pub open spec fn final_recording(
    task: RecordTask,
    size: i64,
    exit: RecordingExit,
    world: ExitWorld,
) -> JudgedRecording<Seq<char>> {
    let refresh = if exit.manually_stopped {
        Refresh::NotAsked
    } else {
        world.refresh
    };
    let recording = judged(ended_recording(task, size, exit), refresh);
    if wants_conversion(recording, world.settings) {
        converted(recording, world.conversion)
    } else {
        recording
    }
}

/// A recording that was dealt with before is left alone.
pub proof fn law_exit_is_handled_once(
    task: RecordTask,
    size: i64,
    exit: RecordingExit,
    world: ExitWorld,
)
    requires
        !model::is_pending(task.status@),
    ensures
        steps_from(first_step(task, size, exit), world) == seq![ExitStep::<Seq<char>>::Ignore],
{
}

/// The end of a recording is marked first, its result is stored exactly once, then the room is
/// settled, and last the same result is announced.
pub proof fn law_exit_steps(task: RecordTask, size: i64, exit: RecordingExit, world: ExitWorld)
    requires
        model::is_pending(task.status@),
    ensures
        ({
            let steps = steps_from(first_step(task, size, exit), world);
            let last = steps.len() - 1;
            let recording = final_recording(task, size, exit, world);
            &&& steps.len() >= 4
            &&& steps[0] is MarkFinalizing
            &&& steps[last - 2] == ExitStep::FinishTask(recording)
            &&& steps[last - 1] is SettleRoom
            &&& steps[last] == ExitStep::Announce(recording)
            &&& forall|i: int|
                0 <= i <= last && i != last - 2 ==> !(#[trigger] steps[i] is FinishTask)
        }),
{
    reveal_with_fuel(steps_from, 7);
}

/// The room is looked at unless the user stopped the recording.
pub proof fn law_manual_stop_is_not_verified(
    task: RecordTask,
    size: i64,
    exit: RecordingExit,
    world: ExitWorld,
)
    requires
        model::is_pending(task.status@),
    ensures
        ({
            let steps = steps_from(first_step(task, size, exit), world);
            (exists|i: int| 0 <= i < steps.len() && #[trigger] steps[i] is RefreshRoom)
                == !exit.manually_stopped
        }),
{
    reveal_with_fuel(steps_from, 7);
    let steps = steps_from(first_step(task, size, exit), world);
    assert(!exit.manually_stopped ==> steps[1] is RefreshRoom);
}

/// Only complete recordings are converted.
pub proof fn law_only_complete_recordings_are_converted(
    task: RecordTask,
    size: i64,
    exit: RecordingExit,
    world: ExitWorld,
    i: int,
)
    requires
        0 <= i < steps_from(first_step(task, size, exit), world).len(),
        steps_from(first_step(task, size, exit), world)[i] is Convert,
    ensures
        final_recording(task, size, exit, world).status == "completed"@,
        world.settings.auto_convert_mp4,
{
    reveal_with_fuel(steps_from, 7);
}

/// The conversion of its file changes neither what a recording came to nor how it is announced,
/// and a failed one leaves it with its FLV.
pub proof fn law_conversion_keeps_the_result(
    recording: JudgedRecording<Seq<char>>,
    conversion: Conversion<Seq<char>>,
)
    ensures
        converted(recording, conversion).status == recording.status,
        converted(recording, conversion).reason == recording.reason,
        converted(recording, conversion).trigger == recording.trigger,
        !(conversion is Done) ==> converted(recording, conversion).file_path
            == recording.file_path && converted(recording, conversion).size == recording.size,
{
}

// ---------------------------------------------------------------------------
// Laws over whole exits
// ---------------------------------------------------------------------------

/// The end of a recording is taken up exactly where the recording was prepared or ran, and it
/// begins with what the task says: its file, its trigger, and whether the user stopped it.
pub proof fn law_what_is_taken_up(
    task: RecordTask,
    size: i64,
    exit: RecordingExit,
    step: ExitStep<String>,
)
    requires
        call_ensures(handle_recording_exit, (&task, size, &exit), step),
    ensures
        (step is MarkFinalizing) == (task.status@ == "preparing"@ || task.status@ == "recording"@),
        (step is Ignore) == !(step is MarkFinalizing),
        step matches ExitStep::MarkFinalizing { recording, reason } ==> {
            &&& recording.trigger@ == task.trigger@
            &&& recording.size == size
            &&& recording.manually_stopped == exit.manually_stopped
            &&& recording.file_path is Some == task.file_path is Some
            &&& recording.file_path matches Some(path) ==> path@ == task.file_path->0@
            &&& reason@ == "finalizing"@
        },
{
}

/// Every step about a recording, from the first to the last, is about one with the trigger of its
/// task.
pub proof fn law_the_trigger_is_kept(
    task: RecordTask,
    size: i64,
    exit: RecordingExit,
    world: ExitWorld,
    i: int,
)
    requires
        task.status@ == "preparing"@ || task.status@ == "recording"@,
        0 <= i < steps_from(first_step(task, size, exit), world).len(),
    ensures
        match steps_from(first_step(task, size, exit), world)[i] {
            ExitStep::Ignore => false,
            ExitStep::MarkFinalizing { recording, .. } => recording.trigger == task.trigger@,
            ExitStep::RefreshRoom(recording) => recording.trigger == task.trigger@,
            ExitStep::Convert { recording, .. } => recording.trigger == task.trigger@,
            ExitStep::FinishTask(recording) => recording.trigger == task.trigger@,
            ExitStep::SettleRoom { recording, .. } => recording.trigger == task.trigger@,
            ExitStep::Announce(recording) => recording.trigger == task.trigger@,
        },
{
    reveal_with_fuel(steps_from, 7);
}

/// After a recording that was not started automatically no watching is ever switched on, and it is
/// switched off exactly where the room is watched and its window is over. After an automatic one
/// watching goes on exactly where the recording is complete and the user did not ask for an end.
pub proof fn law_what_becomes_of_watching(
    task: RecordTask,
    size: i64,
    exit: RecordingExit,
    world: ExitWorld,
    i: int,
)
    requires
        task.status@ == "preparing"@ || task.status@ == "recording"@,
        0 <= i < steps_from(first_step(task, size, exit), world).len(),
        steps_from(first_step(task, size, exit), world)[i] is SettleRoom,
    ensures
        ({
            let step = steps_from(first_step(task, size, exit), world)[i];
            let setting = step->plan.setting;
            let completed = size >= 1 && (exit.manually_stopped || world.refresh is Offline);
            let over = schedule::is_expired(
                text::opt_view(world.room.auto_record_until),
                world.now,
            );
            if task.trigger@ != "auto"@ {
                &&& setting is Some == (world.room.auto_record_enabled && over)
                &&& setting matches Some(setting) ==> !setting.enabled && setting.until is None
            } else {
                &&& setting is Some
                &&& setting->0.enabled == (completed
                    && !world.settings.auto_disable_after_record)
                &&& setting->0.until is Some == setting->0.enabled
            }
        }),
{
    reveal_with_fuel(steps_from, 7);
    policy::lemma_statuses_differ();
}

/// What the user is told in the end, and how it is stored: by the size of the file, by who stopped
/// the recording, and by what the room was like then.
pub proof fn law_what_is_announced(
    task: RecordTask,
    size: i64,
    exit: RecordingExit,
    world: ExitWorld,
)
    requires
        task.status@ == "preparing"@ || task.status@ == "recording"@,
        !world.settings.auto_convert_mp4,
    ensures
        ({
            let steps = steps_from(first_step(task, size, exit), world);
            let last = steps.last();
            &&& last matches ExitStep::Announce(recording)
            &&& steps.contains(ExitStep::FinishTask(recording))
            &&& recording.size == size
            &&& recording.file_path == (match task.file_path {
                Some(path) => Some(path@),
                None => None,
            })
            &&& size <= 0 ==> {
                &&& recording.status == "failed"@
                &&& recording.reason == "failed"@
                &&& recording.message == Some("录制已结束，但没有生成有效文件"@)
            }
            &&& size >= 1 && exit.manually_stopped ==> {
                &&& recording.status == "completed"@
                &&& recording.reason == "manual_stop"@
                &&& recording.message == Some("录制已停止"@)
            }
            &&& size >= 1 && !exit.manually_stopped && world.refresh is Offline ==> {
                &&& recording.status == "completed"@
                &&& recording.reason == "stream_ended"@
                &&& recording.message == Some("直播已结束，录制已完成"@)
            }
            &&& size >= 1 && !exit.manually_stopped && world.refresh is Live ==> {
                &&& recording.status == "interrupted"@
                &&& recording.reason == "interrupted"@
                &&& recording.message == Some(
                    "录制进程已结束，但主播仍在直播，请检查网络后重新录制"@,
                )
            }
            &&& size >= 1 && !exit.manually_stopped ==> (world.refresh matches Refresh::Failed(
                detail,
            ) ==> {
                &&& recording.status == "interrupted"@
                &&& recording.reason == "interrupted"@
                &&& recording.message == Some("录制进程已结束，但无法确认直播状态: "@ + detail)
            })
        }),
{
    reveal_with_fuel(steps_from, 7);
    let steps = steps_from(first_step(task, size, exit), world);
    assert(steps[steps.len() - 3] is FinishTask);
}

/// The file is converted exactly where the user wants that, the recording is complete and the file
/// is FLV; it is that file, and the FLV is preserved as the user wants.
pub proof fn law_when_a_file_is_converted(
    task: RecordTask,
    size: i64,
    exit: RecordingExit,
    world: ExitWorld,
)
    requires
        task.status@ == "preparing"@ || task.status@ == "recording"@,
    ensures
        ({
            let steps = steps_from(first_step(task, size, exit), world);
            let wanted = world.settings.auto_convert_mp4 && size >= 1 && (exit.manually_stopped
                || world.refresh is Offline) && (task.file_path matches Some(path) && exists|
                name: Seq<char>,
            |
                path@ == #[trigger] (name + ".flv"@));
            &&& wanted == exists|i: int|
                0 <= i < steps.len() && #[trigger] steps[i] is Convert
            &&& forall|i: int|
                0 <= i < steps.len() ==> (#[trigger] steps[i] matches ExitStep::Convert {
                    path,
                    preserve_source,
                    ..
                } ==> path == task.file_path->0@ && preserve_source
                    == world.settings.preserve_source_after_convert)
        }),
{
    reveal_with_fuel(steps_from, 7);
    policy::lemma_statuses_differ();
    let steps = steps_from(first_step(task, size, exit), world);
    if task.file_path is Some {
        text::law_beginnings_and_ends(task.file_path->0@, ".flv"@);
    }
    assert(exit.manually_stopped ==> steps[1] is Convert || steps.len() == 4);
    assert(!exit.manually_stopped ==> steps[2] is Convert || steps.len() == 5);
}

/// What a conversion adds to a recording: the new file and its size, or the reason why there is
/// none behind what was said before.
pub proof fn law_what_a_conversion_adds(
    recording: JudgedRecording<String>,
    conversion: Conversion<String>,
    step: ExitStep<String>,
)
    requires
        call_ensures(exit_converted, (recording, conversion), step),
    ensures
        ({
            let said = match recording.message {
                Some(message) => message@,
                None => "录制已完成"@,
            };
            &&& step matches ExitStep::FinishTask(after)
            &&& after.status@ == recording.status@
            &&& after.reason@ == recording.reason@
            &&& after.trigger@ == recording.trigger@
            &&& conversion matches Conversion::Done { path, size, warning } ==> {
                &&& after.file_path matches Some(new) && new@ == path@
                &&& after.size == size
                &&& warning matches Some(warning) ==> (after.message matches Some(message)
                    && message@ == said + "；"@ + warning@)
                &&& warning is None ==> text::opt_view(after.message) == text::opt_view(
                    recording.message,
                )
            }
            &&& conversion matches Conversion::Failed(detail) ==> {
                &&& after.size == recording.size
                &&& text::opt_view(after.file_path) == text::opt_view(recording.file_path)
                &&& after.message matches Some(message) && message@ == said
                    + "；自动转换 MP4 失败，已保留 FLV: "@ + detail@
            }
            &&& conversion matches Conversion::Crashed(detail) ==> {
                &&& after.size == recording.size
                &&& text::opt_view(after.file_path) == text::opt_view(recording.file_path)
                &&& after.message matches Some(message) && message@ == said
                    + "；自动转换任务异常，已保留 FLV: "@ + detail@
            }
        }),
{
    let after = step->FinishTask_0;
    assert(step@ == ExitStep::FinishTask(after@));
    assert(text::opt_view(after.message) == after@.message);
}

/// A look at the room says whether it is live; one that failed says why.
pub proof fn law_what_a_look_says(look: Result<bool, String>, refresh: Refresh<String>)
    requires
        call_ensures(refresh_of, (look,), refresh),
    ensures
        (refresh is Live) == (look == Ok::<bool, String>(true)),
        (refresh is Offline) == (look == Ok::<bool, String>(false)),
        look matches Err(error) ==> (refresh matches Refresh::Failed(detail) && detail@ == error@),
{
}

/// What is done about the room is what is planned for the recording's own trigger and status.
pub proof fn law_the_room_is_settled_by_policy(
    recording: JudgedRecording<String>,
    settings: AppSettings,
    room: LiveRoom,
    now: Instant,
    step: ExitStep<String>,
    trigger: &str,
    status: &str,
    planned: RoomPlan<String>,
)
    requires
        trigger@ == recording.trigger@,
        status@ == recording.status@,
        call_ensures(exit_finished, (recording, &settings, &room, now), step),
        call_ensures(
            policy::apply_post_recording_auto_policy,
            (trigger, status, &settings, &room, now),
            planned,
        ),
    ensures
        step matches ExitStep::SettleRoom { recording: after, plan } && after@ == recording@
            && plan@ == planned@,
{
}

/// The end of a process is worth a line exactly where the process did not succeed, or could not be
/// waited for.
pub proof fn law_what_is_noteworthy(exit: RecordingExit, noteworthy: bool)
    requires
        call_ensures(exit_is_noteworthy, (&exit,), noteworthy),
    ensures
        !noteworthy ==> exit.status_success && exit.wait_error is None,
        noteworthy ==> !exit.status_success || exit.wait_error is Some,
{
}

/// The recording that a step is about, once its result is known.
pub open spec fn judged_in(step: ExitStep<String>) -> Option<JudgedRecording<String>> {
    match step {
        ExitStep::Convert { recording, .. } => Some(recording),
        ExitStep::FinishTask(recording) => Some(recording),
        ExitStep::SettleRoom { recording, .. } => Some(recording),
        ExitStep::Announce(recording) => Some(recording),
        _ => None,
    }
}

/// What a look at the room comes to: the result of the recording, with its own file, size and
/// trigger, and whether the file is converted.
pub proof fn law_what_a_look_comes_to(
    ended: EndedRecording<String>,
    refresh: Refresh<String>,
    settings: AppSettings,
    step: ExitStep<String>,
)
    requires
        call_ensures(exit_refreshed, (ended, refresh, &settings), step),
    ensures
        ({
            let completed = ended.size >= 1 && (ended.manually_stopped || refresh is Offline);
            let is_flv = ended.file_path matches Some(path) && exists|name: Seq<char>|
                path@ == #[trigger] (name + ".flv"@);
            &&& step is Convert == (completed && settings.auto_convert_mp4 && is_flv)
            &&& step is FinishTask == !(step is Convert)
            &&& step matches ExitStep::Convert { path, preserve_source, .. } ==> path@
                == ended.file_path->0@ && preserve_source == settings.preserve_source_after_convert
            &&& judged_in(step) matches Some(recording)
            &&& recording.trigger@ == ended.trigger@
            &&& recording.size == ended.size
            &&& text::opt_view(recording.file_path) == text::opt_view(ended.file_path)
            &&& recording.status@ == (if ended.size <= 0 {
                "failed"@
            } else if completed {
                "completed"@
            } else {
                "interrupted"@
            })
            &&& recording.reason@ == (if ended.size <= 0 {
                "failed"@
            } else if ended.manually_stopped {
                "manual_stop"@
            } else if completed {
                "stream_ended"@
            } else {
                "interrupted"@
            })
            &&& text::opt_view(recording.message) == (if ended.size <= 0 {
                Some("录制已结束，但没有生成有效文件"@)
            } else if ended.manually_stopped {
                Some("录制已停止"@)
            } else {
                match refresh {
                    Refresh::Offline => Some("直播已结束，录制已完成"@),
                    Refresh::Live => Some(
                        "录制进程已结束，但主播仍在直播，请检查网络后重新录制"@,
                    ),
                    Refresh::Failed(detail) => Some(
                        "录制进程已结束，但无法确认直播状态: "@ + detail@,
                    ),
                    Refresh::NotAsked => None,
                }
            })
        }),
{
    policy::lemma_statuses_differ();
    if ended.file_path is Some {
        text::law_beginnings_and_ends(ended.file_path->0@, ".flv"@);
    }
    let recording = judged_in(step)->0;
    if let ExitStep::Convert { recording, path, preserve_source } = step {
        assert(step@ == (ExitStep::Convert { recording: recording@, path: path@, preserve_source }));
    }
    if let ExitStep::FinishTask(recording) = step {
        assert(step@ == ExitStep::FinishTask(recording@));
    }
    assert(recording@ == judged(ended@, refresh@));
}

/// Once the end is marked, the room is looked at unless the user stopped the recording; once the
/// room is settled, the same result is announced.
pub proof fn law_what_is_done_in_between(
    ended: EndedRecording<String>,
    settings: AppSettings,
    marked: ExitStep<String>,
    refreshed: ExitStep<String>,
    recording: JudgedRecording<String>,
    settled: ExitStep<String>,
)
    requires
        call_ensures(exit_marked, (ended, &settings), marked),
        call_ensures(exit_refreshed, (ended, Refresh::NotAsked, &settings), refreshed),
        call_ensures(exit_settled, (recording,), settled),
    ensures
        ended.manually_stopped ==> marked@ == refreshed@,
        !ended.manually_stopped ==> (marked matches ExitStep::RefreshRoom(same) && same.trigger@
            == ended.trigger@ && same.size == ended.size && !same.manually_stopped
            && text::opt_view(same.file_path) == text::opt_view(ended.file_path)),
        settled matches ExitStep::Announce(same) && same.status@ == recording.status@
            && same.reason@ == recording.reason@ && same.trigger@ == recording.trigger@ && same.size
            == recording.size && text::opt_view(same.message) == text::opt_view(recording.message)
            && text::opt_view(same.file_path) == text::opt_view(recording.file_path),
{
    if let ExitStep::RefreshRoom(same) = marked {
        assert(marked@ == ExitStep::RefreshRoom(same@));
    }
    if let ExitStep::Announce(same) = settled {
        assert(settled@ == ExitStep::Announce(same@));
    }
}

} // verus!
