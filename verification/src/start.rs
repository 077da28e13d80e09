//! Starting to record a room, step by step.
//!
//! Each step names something to be done outside; once it is done, the function that belongs to
//! the step gives the next one.

use vstd::prelude::*;

use crate::clock::{Instant, LocalMoment};
use crate::model;
use crate::model::LiveRoom;
use crate::parser::streams::SelectionView;
use crate::parser::StreamSelection;
use crate::paths;
use crate::schedule;
use crate::text;

verus! {

/// A new task. `S` is the kind of text.
#[derive(Debug)]
pub struct NewTask<S> {
    pub trigger: S,
    pub requested_qn: i64,
    pub actual_qn: i64,
    pub stream_type: S,
}

/// What is done next to start a recording, once its stream is known.
#[derive(Debug)]
pub enum StartStep<S> {
    /// The recording does not start, for that reason.
    Refused(S),
    /// Store the new task; then [`task_added`].
    AddTask(NewTask<S>),
    /// Find a name for the file that is not taken; then [`file_named`] or [`file_not_named`].
    NameFile { stem: S, extension: S },
    /// There is no place for the file: the recording does not start, for that reason, and the task
    /// stays as it was stored.
    Abandoned(S),
    /// Store the status and the path, announce that with the reason, and start the recorder; then
    /// [`recorder_started`].
    Prepare { status: S, path: S, reason: S },
    /// Store the status and the path. The recording has started.
    Started { status: S, path: S },
    /// Store the result, and announce it with the reason and the message. The recording does not
    /// start, because of `error`.
    Failed { status: S, path: S, size: i64, reason: S, message: S, error: S },
}

impl View for NewTask<String> {
    type V = NewTask<Seq<char>>;

    open spec fn view(&self) -> NewTask<Seq<char>> {
        NewTask {
            trigger: self.trigger@,
            requested_qn: self.requested_qn,
            actual_qn: self.actual_qn,
            stream_type: self.stream_type@,
        }
    }
}

impl View for StartStep<String> {
    type V = StartStep<Seq<char>>;

    open spec fn view(&self) -> StartStep<Seq<char>> {
        match self {
            StartStep::Refused(message) => StartStep::Refused(message@),
            StartStep::AddTask(task) => StartStep::AddTask(task@),
            StartStep::NameFile { stem, extension } => StartStep::NameFile {
                stem: stem@,
                extension: extension@,
            },
            StartStep::Abandoned(error) => StartStep::Abandoned(error@),
            StartStep::Prepare { status, path, reason } => StartStep::Prepare {
                status: status@,
                path: path@,
                reason: reason@,
            },
            StartStep::Started { status, path } => StartStep::Started {
                status: status@,
                path: path@,
            },
            StartStep::Failed { status, path, size, reason, message, error } => StartStep::Failed {
                status: status@,
                path: path@,
                size: *size,
                reason: reason@,
                message: message@,
                error: error@,
            },
        }
    }
}

// ---------------------------------------------------------------------------
// The steps
// ---------------------------------------------------------------------------

/// The room is still watched: only then may a recording start by itself.
pub open spec fn is_watched(room: LiveRoom, now: Instant) -> bool {
    room.auto_record_enabled && !schedule::is_expired(text::opt_view(room.auto_record_until), now)
}

/// The first step. One recording of a room is under way at a time.
pub open spec fn first_step(
    selection: SelectionView,
    trigger: Seq<char>,
    running: bool,
    room: LiveRoom,
    now: Instant,
) -> StartStep<Seq<char>> {
    if running_refusal(running) is Some {
        StartStep::Refused(running_refusal(running)->0)
    } else if trigger == "auto"@ && !is_watched(room, now) {
        StartStep::Refused("自动录制监控已关闭"@)
    } else {
        StartStep::AddTask(
            NewTask {
                trigger,
                requested_qn: selection.requested_qn,
                actual_qn: selection.actual_qn,
                stream_type: selection.stream_type,
            },
        )
    }
}

/// The step after the task was stored.
pub open spec fn step_added(room: LiveRoom, at: LocalMoment) -> StartStep<Seq<char>> {
    StartStep::NameFile {
        stem: paths::recording_stem_of(room.anchor_name@, room.room_id@, at),
        extension: "flv"@,
    }
}

/// The step after the file was named.
pub open spec fn step_named(path: Seq<char>) -> StartStep<Seq<char>> {
    StartStep::Prepare { status: "preparing"@, path, reason: "preparing"@ }
}

/// The step after the recorder was started, or could not be.
pub open spec fn step_launched(path: Seq<char>, error: Option<Seq<char>>) -> StartStep<Seq<char>> {
    match error {
        None => StartStep::Started { status: "recording"@, path },
        Some(error) => StartStep::Failed {
            status: "failed"@,
            path,
            size: 0,
            reason: "failed"@,
            message: "启动录制失败: "@ + error,
            error,
        },
    }
}

/// Why no recording of a room starts while one is still at work.
pub open spec fn running_refusal(running: bool) -> Option<Seq<char>> {
    if running {
        Some("该直播间已经在录制或结束处理中"@)
    } else {
        None
    }
}

/// Refuses a recording of a room while one is still at work, whatever is stored of the room.
pub fn refuse_while_running(running: bool) -> (refusal: Option<String>)
    ensures
        text::opt_view(refusal) == running_refusal(running),
{
    if running {
        Some("该直播间已经在录制或结束处理中".to_owned())
    } else {
        None
    }
}

/// Begins to start a recording of the room, given whether one is still at work.
pub fn start_record_from_info(
    selection: &StreamSelection,
    trigger: &str,
    running: bool,
    room: &LiveRoom,
    now: Instant,
) -> (step: StartStep<String>)
    ensures
        step@ == first_step(selection@, trigger@, running, *room, now),
{
    if let Some(refusal) = refuse_while_running(running) {
        return StartStep::Refused(refusal);
    }
    if text::same_text(trigger, "auto") && (!room.auto_record_enabled
        || schedule::monitor_is_expired_at(schedule::until_of(room), now)) {
        return StartStep::Refused("自动录制监控已关闭".to_owned());
    }
    StartStep::AddTask(
        NewTask {
            trigger: trigger.to_owned(),
            requested_qn: selection.requested_qn,
            actual_qn: selection.actual_qn,
            stream_type: selection.stream_type.clone(),
        },
    )
}

/// The step after the task was stored.
pub fn task_added(room: &LiveRoom, at: LocalMoment) -> (step: StartStep<String>)
    requires
        at.valid(),
    ensures
        step@ == step_added(*room, at),
{
    StartStep::NameFile {
        stem: paths::recording_stem(room.anchor_name.as_str(), room.room_id.as_str(), at),
        extension: "flv".to_owned(),
    }
}

/// The step after the file was named.
pub fn file_named(path: &str) -> (step: StartStep<String>)
    ensures
        step@ == step_named(path@),
{
    StartStep::Prepare {
        status: "preparing".to_owned(),
        path: path.to_owned(),
        reason: "preparing".to_owned(),
    }
}

/// The step after there was no place for the file.
pub fn file_not_named(error: String) -> (step: StartStep<String>)
    ensures
        step@ == (StartStep::<Seq<char>>::Abandoned(error@)),
{
    StartStep::Abandoned(error)
}

/// The step after the recorder was started, or could not be.
pub fn recorder_started(path: &str, error: Option<String>) -> (step: StartStep<String>)
    ensures
        step@ == step_launched(path@, text::opt_view(error)),
{
    match error {
        None => StartStep::Started { status: "recording".to_owned(), path: path.to_owned() },
        Some(error) => StartStep::Failed {
            status: "failed".to_owned(),
            path: path.to_owned(),
            size: 0,
            reason: "failed".to_owned(),
            message: text::cat2("启动录制失败: ", error.as_str()),
            error,
        },
    }
}

// ---------------------------------------------------------------------------
// Laws
// ---------------------------------------------------------------------------

/// No second recording of a room starts while one is at work, and none starts by itself for a
/// room that is not watched; a recording that the user wants starts in any other case.
pub proof fn law_when_a_recording_starts(
    selection: SelectionView,
    trigger: Seq<char>,
    running: bool,
    room: LiveRoom,
    now: Instant,
)
    ensures
        first_step(selection, trigger, running, room, now) is AddTask == (!running && (trigger
            != "auto"@ || is_watched(room, now))),
{
}

/// While a recording is being prepared or runs, its end will be dealt with; one that could not
/// start is not at work any more.
pub proof fn law_statuses_of_a_start(path: Seq<char>, error: Option<Seq<char>>)
    ensures
        model::is_pending(step_named(path)->Prepare_status),
        error is None ==> model::is_pending(step_launched(path, error)->Started_status),
        error is Some ==> !model::is_busy(step_launched(path, error)->Failed_status),
{
    reveal_strlit("failed");
    reveal_strlit("preparing");
    reveal_strlit("recording");
    reveal_strlit("finalizing");
    assert("failed"@.len() == 6);
    assert("preparing"@.len() == 9);
    assert("recording"@.len() == 9);
    assert("finalizing"@.len() == 10);
}

/// What the steps meet with outside.
pub struct StartWorld {
    pub room: LiveRoom,
    pub at: LocalMoment,
    /// The path that the file gets, or why there is no place for it.
    pub path: Result<Seq<char>, Seq<char>>,
    /// Why the recorder cannot be started, where it cannot.
    pub error: Option<Seq<char>>,
}

/// The step that follows.
pub open spec fn next_step(step: StartStep<Seq<char>>, world: StartWorld) -> Option<
    StartStep<Seq<char>>,
> {
    match step {
        StartStep::AddTask(_) => Some(step_added(world.room, world.at)),
        StartStep::NameFile { .. } => match world.path {
            Ok(path) => Some(step_named(path)),
            Err(error) => Some(StartStep::Abandoned(error)),
        },
        StartStep::Prepare { path, .. } => Some(step_launched(path, world.error)),
        StartStep::Refused(_) => None,
        StartStep::Abandoned(_) => None,
        StartStep::Started { .. } => None,
        StartStep::Failed { .. } => None,
    }
}

/// How many steps can still follow.
pub open spec fn steps_left(step: StartStep<Seq<char>>) -> nat {
    match step {
        StartStep::AddTask(_) => 3,
        StartStep::NameFile { .. } => 2,
        StartStep::Prepare { .. } => 1,
        _ => 0,
    }
}

/// All the steps from `step` on.
pub open spec fn steps_from(step: StartStep<Seq<char>>, world: StartWorld) -> Seq<
    StartStep<Seq<char>>,
>
    decreases steps_left(step),
{
    match next_step(step, world) {
        None => seq![step],
        Some(next) => seq![step] + steps_from(next, world),
    }
}

/// A task whose file was named is prepared with that path, and then recorded to it, or marked as
/// failed with it and the reason given. Where there is no place for the file, the recording does
/// not start, and nothing more is stored of the task.
pub proof fn law_what_becomes_of_a_stored_task(task: NewTask<Seq<char>>, world: StartWorld)
    ensures
        ({
            let steps = steps_from(StartStep::AddTask(task), world);
            &&& steps[1] == step_added(world.room, world.at)
            &&& world.path matches Ok(path) ==> {
                &&& steps.len() == 4
                &&& steps[2] == step_named(path)
                &&& steps[3] == step_launched(path, world.error)
                &&& steps[3] is Started == (world.error is None)
                &&& steps[3] is Started ==> steps[3]->Started_path == path
                &&& steps[3] is Failed ==> steps[3]->Failed_path == path && steps[3]->Failed_error
                    == world.error->0
            }
            &&& world.path matches Err(error) ==> {
                &&& steps.len() == 3
                &&& steps[2] == StartStep::Abandoned(error)
            }
        }),
{
    reveal_with_fuel(steps_from, 4);
}

/// A recording is refused while one is at work, and an automatic one also where the room is not
/// watched or its window is over. Otherwise the task is stored with the trigger it was asked for
/// with, and with the qualities and the kind of the stream.
pub proof fn law_what_is_stored_of_a_new_task(
    selection: StreamSelection,
    trigger: &str,
    running: bool,
    room: LiveRoom,
    now: Instant,
    step: StartStep<String>,
)
    requires
        call_ensures(start_record_from_info, (&selection, trigger, running, &room, now), step),
    ensures
        ({
            let over = schedule::is_expired(text::opt_view(room.auto_record_until), now);
            let unwatched = trigger@ == "auto"@ && (!room.auto_record_enabled || over);
            &&& running ==> (step matches StartStep::Refused(message) && message@
                == "该直播间已经在录制或结束处理中"@)
            &&& !running && unwatched ==> (step matches StartStep::Refused(message) && message@
                == "自动录制监控已关闭"@)
            &&& !running && !unwatched ==> (step matches StartStep::AddTask(task) && task.trigger@
                == trigger@ && task.requested_qn == selection.requested_qn && task.actual_qn
                == selection.actual_qn && task.stream_type@ == selection.stream_type@)
        }),
{
    if let StartStep::AddTask(task) = step {
        assert(step@ == StartStep::AddTask(task@));
    }
}

/// A room is refused exactly while one of its recordings is at work.
pub proof fn law_one_recording_at_a_time(running: bool, refusal: Option<String>)
    requires
        call_ensures(refuse_while_running, (running,), refusal),
    ensures
        refusal is Some == running,
        refusal matches Some(message) ==> message@ == "该直播间已经在录制或结束处理中"@,
{
}

/// The file of a recording is an FLV file, called after who is on air, the room and the time.
pub proof fn law_how_a_file_is_called(
    room: LiveRoom,
    at: LocalMoment,
    step: StartStep<String>,
    anchor_name: &str,
    room_id: &str,
    stem: String,
)
    requires
        call_ensures(task_added, (&room, at), step),
        anchor_name@ == room.anchor_name@,
        room_id@ == room.room_id@,
        call_ensures(paths::recording_stem, (anchor_name, room_id, at), stem),
    ensures
        step matches StartStep::NameFile { stem: called, extension } && called@ == stem@
            && extension@ == "flv"@,
{
}

/// A recording whose file is named is prepared with it; one whose file has no place is given up.
pub proof fn law_what_is_stored_of_a_file(
    path: &str,
    prepared: StartStep<String>,
    error: String,
    abandoned: StartStep<String>,
)
    requires
        call_ensures(file_named, (path,), prepared),
        call_ensures(file_not_named, (error,), abandoned),
    ensures
        prepared matches StartStep::Prepare { status, path: stored, reason } && status@
            == "preparing"@ && stored@ == path@ && reason@ == "preparing"@,
        abandoned matches StartStep::Abandoned(message) && message@ == error@,
{
}

/// Once the recorder runs, the task is recording to its file. Where it could not be started, the
/// task failed without data, and the user is told why.
pub proof fn law_what_is_stored_of_a_start(
    path: &str,
    error: Option<String>,
    step: StartStep<String>,
)
    requires
        call_ensures(recorder_started, (path, error), step),
    ensures
        error is None ==> (step matches StartStep::Started { status, path: stored } && status@
            == "recording"@ && stored@ == path@),
        error matches Some(why) ==> (step matches StartStep::Failed {
            status,
            path: stored,
            size,
            reason,
            message,
            error: given,
        } && status@ == "failed"@ && stored@ == path@ && size == 0 && reason@ == "failed"@
            && message@ == "启动录制失败: "@ + why@ && given@ == why@),
{
}

} // verus!
