//! Converting a recording from FLV to MP4, step by step.
//!
//! Each step names something to be done outside; once it is done, the function that belongs to
//! the step gives the next one.

use vstd::prelude::*;

use crate::number;
use crate::paths;
use crate::recorder::ffmpeg;
use crate::recorder::ffmpeg::FfmpegCommand;
use crate::text;

verus! {

/// How much of what FFmpeg says the user is told.
pub const STDERR_CHARS: usize = 200;

/// The file to be converted. `S` is the kind of text.
#[derive(Debug)]
pub struct RemuxSource<S> {
    pub path: S,
    pub preserve_source: bool,
}

/// The names that are tried for the new file.
#[derive(Debug)]
pub struct RemuxNames<S> {
    pub source: RemuxSource<S>,
    pub stem: S,
    pub attempt: u32,
}

/// A conversion whose files are known: FFmpeg writes the temporary file, which then becomes the
/// target.
#[derive(Debug)]
pub struct RemuxJob<S> {
    pub source: RemuxSource<S>,
    pub target: S,
    pub temporary: S,
}

/// What is done next to convert a file.
#[derive(Debug)]
pub enum RemuxStep<S> {
    /// Look at the file; then [`source_seen`].
    LookAtSource(RemuxSource<S>),
    /// Look whether the file's directory holds files of these two names; then [`names_seen`].
    TryNames { names: RemuxNames<S>, target_name: S, temporary_name: S },
    /// Run FFmpeg with [`remux_command`]; then [`ffmpeg_ran`].
    Run(RemuxJob<S>),
    /// Look at the temporary file; then [`output_seen`].
    LookAtOutput(RemuxJob<S>),
    /// Give the temporary file the name of the target; then [`output_renamed`].
    Rename(RemuxJob<S>),
    /// Look at the target; then [`target_seen`].
    LookAtTarget(RemuxJob<S>),
    /// Delete the file that was converted; then [`source_deleted`].
    DeleteSource { job: RemuxJob<S>, size: i64 },
    /// The file is converted.
    Done { path: S, size: i64, warning: Option<S> },
    /// Remove the temporary file. The file is not converted, for that reason.
    Discard { temporary: S, error: S },
    /// The file is not converted, for that reason.
    Failed(S),
}

/// What a look at the file brought.
#[derive(Debug)]
pub enum SourceLook<S> {
    Missing,
    /// It lies in no directory.
    NoParent,
    /// The name without its extension is given where it is text.
    Found { stem: Option<S> },
}

/// What a look at two names brought.
#[derive(Debug)]
pub enum NamesLook<S> {
    /// At least one is taken.
    Taken,
    /// Neither is taken; these are the paths.
    Free { target: S, temporary: S },
}

/// How FFmpeg ran.
#[derive(Debug)]
pub enum RemuxRun<S> {
    NotFound,
    NotStarted(S),
    /// It ended without success, and said that.
    Unsuccessful(S),
    Successful,
}

impl View for RemuxSource<String> {
    type V = RemuxSource<Seq<char>>;

    open spec fn view(&self) -> RemuxSource<Seq<char>> {
        RemuxSource { path: self.path@, preserve_source: self.preserve_source }
    }
}

impl View for RemuxNames<String> {
    type V = RemuxNames<Seq<char>>;

    open spec fn view(&self) -> RemuxNames<Seq<char>> {
        RemuxNames { source: self.source@, stem: self.stem@, attempt: self.attempt }
    }
}

impl View for RemuxJob<String> {
    type V = RemuxJob<Seq<char>>;

    open spec fn view(&self) -> RemuxJob<Seq<char>> {
        RemuxJob { source: self.source@, target: self.target@, temporary: self.temporary@ }
    }
}

impl View for RemuxStep<String> {
    type V = RemuxStep<Seq<char>>;

    open spec fn view(&self) -> RemuxStep<Seq<char>> {
        match self {
            RemuxStep::LookAtSource(source) => RemuxStep::LookAtSource(source@),
            RemuxStep::TryNames { names, target_name, temporary_name } => RemuxStep::TryNames {
                names: names@,
                target_name: target_name@,
                temporary_name: temporary_name@,
            },
            RemuxStep::Run(job) => RemuxStep::Run(job@),
            RemuxStep::LookAtOutput(job) => RemuxStep::LookAtOutput(job@),
            RemuxStep::Rename(job) => RemuxStep::Rename(job@),
            RemuxStep::LookAtTarget(job) => RemuxStep::LookAtTarget(job@),
            RemuxStep::DeleteSource { job, size } => RemuxStep::DeleteSource {
                job: job@,
                size: *size,
            },
            RemuxStep::Done { path, size, warning } => RemuxStep::Done {
                path: path@,
                size: *size,
                warning: text::opt_view(*warning),
            },
            RemuxStep::Discard { temporary, error } => RemuxStep::Discard {
                temporary: temporary@,
                error: error@,
            },
            RemuxStep::Failed(error) => RemuxStep::Failed(error@),
        }
    }
}

impl View for SourceLook<String> {
    type V = SourceLook<Seq<char>>;

    open spec fn view(&self) -> SourceLook<Seq<char>> {
        match self {
            SourceLook::Missing => SourceLook::Missing,
            SourceLook::NoParent => SourceLook::NoParent,
            SourceLook::Found { stem } => SourceLook::Found { stem: text::opt_view(*stem) },
        }
    }
}

impl View for NamesLook<String> {
    type V = NamesLook<Seq<char>>;

    open spec fn view(&self) -> NamesLook<Seq<char>> {
        match self {
            NamesLook::Taken => NamesLook::Taken,
            NamesLook::Free { target, temporary } => NamesLook::Free {
                target: target@,
                temporary: temporary@,
            },
        }
    }
}

impl View for RemuxRun<String> {
    type V = RemuxRun<Seq<char>>;

    open spec fn view(&self) -> RemuxRun<Seq<char>> {
        match self {
            RemuxRun::NotFound => RemuxRun::NotFound,
            RemuxRun::NotStarted(detail) => RemuxRun::NotStarted(detail@),
            RemuxRun::Unsuccessful(stderr) => RemuxRun::Unsuccessful(stderr@),
            RemuxRun::Successful => RemuxRun::Successful,
        }
    }
}

// ---------------------------------------------------------------------------
// The steps
// ---------------------------------------------------------------------------

/// The first step.
pub open spec fn first_step(path: Seq<char>, preserve_source: bool) -> RemuxStep<Seq<char>> {
    if text::has_suffix(path, ".flv"@) {
        RemuxStep::LookAtSource(RemuxSource { path, preserve_source })
    } else {
        RemuxStep::Failed("文件不是 FLV 格式，无需转换"@)
    }
}

/// The step in which these names are tried.
pub open spec fn try_names(names: RemuxNames<Seq<char>>) -> RemuxStep<Seq<char>> {
    RemuxStep::TryNames {
        names,
        target_name: paths::attempt_name(names.stem, "mp4"@, names.attempt),
        temporary_name: paths::attempt_name(names.stem, "part.mp4"@, names.attempt),
    }
}

/// The step after the file was looked at.
pub open spec fn step_source(source: RemuxSource<Seq<char>>, look: SourceLook<Seq<char>>) -> RemuxStep<
    Seq<char>,
> {
    match look {
        SourceLook::Missing => RemuxStep::Failed("原始 FLV 文件不存在"@),
        SourceLook::NoParent => RemuxStep::Failed("无法确定输出目录"@),
        SourceLook::Found { stem } => try_names(
            RemuxNames {
                source,
                stem: match stem {
                    Some(stem) => stem,
                    None => "recording"@,
                },
                attempt: 0,
            },
        ),
    }
}

/// The step after two names were looked at.
pub open spec fn step_names(names: RemuxNames<Seq<char>>, look: NamesLook<Seq<char>>) -> RemuxStep<
    Seq<char>,
> {
    match look {
        NamesLook::Free { target, temporary } => RemuxStep::Run(
            RemuxJob { source: names.source, target, temporary },
        ),
        NamesLook::Taken => if names.attempt + 1 < paths::MAX_ATTEMPTS {
            try_names(RemuxNames { attempt: (names.attempt + 1) as u32, ..names })
        } else {
            RemuxStep::Failed("无法生成不冲突的 MP4 文件名"@)
        },
    }
}

/// The arguments by which FFmpeg copies the streams of the file into an MP4 file.
pub open spec fn remux_args(job: RemuxJob<Seq<char>>) -> Seq<Seq<char>> {
    seq!["-y"@, "-i"@, job.source.path, "-c"@, "copy"@, "-f"@, "mp4"@, job.temporary]
}

/// The step after FFmpeg ran.
pub open spec fn step_ran(job: RemuxJob<Seq<char>>, run: RemuxRun<Seq<char>>) -> RemuxStep<
    Seq<char>,
> {
    match run {
        RemuxRun::NotFound => RemuxStep::Failed("ffmpeg 未找到"@),
        RemuxRun::NotStarted(detail) => RemuxStep::Failed("转换失败: "@ + detail),
        RemuxRun::Unsuccessful(stderr) => RemuxStep::Discard {
            temporary: job.temporary,
            error: "ffmpeg 转换失败: "@ + text::first_n(stderr, STDERR_CHARS as nat),
        },
        RemuxRun::Successful => RemuxStep::LookAtOutput(job),
    }
}

/// The step after the temporary file was looked at.
pub open spec fn step_output(job: RemuxJob<Seq<char>>, len: Option<u64>) -> RemuxStep<Seq<char>> {
    if paths::stored_size(len) <= 0 {
        RemuxStep::Discard {
            temporary: job.temporary,
            error: "转换完成但未找到输出文件"@,
        }
    } else {
        RemuxStep::Rename(job)
    }
}

/// The step after the temporary file was renamed, or could not be.
pub open spec fn step_renamed(job: RemuxJob<Seq<char>>, error: Option<Seq<char>>) -> RemuxStep<
    Seq<char>,
> {
    match error {
        Some(detail) => RemuxStep::Failed("MP4 已生成，但完成文件改名失败: "@ + detail),
        None => RemuxStep::LookAtTarget(job),
    }
}

/// The step after the target was looked at.
pub open spec fn step_target(job: RemuxJob<Seq<char>>, len: Option<u64>) -> RemuxStep<Seq<char>> {
    let size = paths::stored_size(len) as i64;
    if job.source.preserve_source {
        RemuxStep::Done { path: job.target, size, warning: None }
    } else {
        RemuxStep::DeleteSource { job, size }
    }
}

/// The step after the file was deleted, or could not be.
pub open spec fn step_deleted(job: RemuxJob<Seq<char>>, size: i64, error: Option<Seq<char>>) -> RemuxStep<
    Seq<char>,
> {
    RemuxStep::Done {
        path: job.target,
        size,
        warning: match error {
            Some(detail) => Some("MP4 已生成，但原始 FLV 未能删除: "@ + detail),
            None => None,
        },
    }
}

/// Begins to convert a file.
pub fn remux_flv_to_mp4(file_path: &str, preserve_source: bool) -> (step: RemuxStep<String>)
    ensures
        step@ == first_step(file_path@, preserve_source),
{
    if text::ends_with(file_path, ".flv") {
        RemuxStep::LookAtSource(RemuxSource { path: file_path.to_owned(), preserve_source })
    } else {
        RemuxStep::Failed("文件不是 FLV 格式，无需转换".to_owned())
    }
}

fn names_step(names: RemuxNames<String>) -> (step: RemuxStep<String>)
    ensures
        step@ == try_names(names@),
{
    let target_name = paths::numbered_name(names.stem.as_str(), "mp4", names.attempt);
    let temporary_name = paths::numbered_name(names.stem.as_str(), "part.mp4", names.attempt);
    RemuxStep::TryNames { names, target_name, temporary_name }
}

/// The step after the file was looked at.
pub fn source_seen(source: RemuxSource<String>, look: SourceLook<String>) -> (step: RemuxStep<String>)
    ensures
        step@ == step_source(source@, look@),
{
    match look {
        SourceLook::Missing => RemuxStep::Failed("原始 FLV 文件不存在".to_owned()),
        SourceLook::NoParent => RemuxStep::Failed("无法确定输出目录".to_owned()),
        SourceLook::Found { stem } => {
            let stem = match stem {
                Some(stem) => stem,
                None => "recording".to_owned(),
            };
            names_step(RemuxNames { source, stem, attempt: 0 })
        },
    }
}

/// The step after two names were looked at.
pub fn names_seen(names: RemuxNames<String>, look: NamesLook<String>) -> (step: RemuxStep<String>)
    ensures
        step@ == step_names(names@, look@),
{
    match look {
        NamesLook::Free { target, temporary } => RemuxStep::Run(
            RemuxJob { source: names.source, target, temporary },
        ),
        NamesLook::Taken => if names.attempt < paths::MAX_ATTEMPTS - 1 {
            names_step(
                RemuxNames { source: names.source, stem: names.stem, attempt: names.attempt + 1 },
            )
        } else {
            RemuxStep::Failed("无法生成不冲突的 MP4 文件名".to_owned())
        },
    }
}

/// The call of FFmpeg that converts the file.
pub fn remux_command(program: &str, job: &RemuxJob<String>) -> (command: FfmpegCommand)
    ensures
        command.program@ == program@,
        text::texts_view(command.args@) == remux_args(job@),
        command.env@.len() == 0,
{
    let mut args: Vec<String> = Vec::new();
    ffmpeg::add_arg(&mut args, "-y");
    ffmpeg::add_arg(&mut args, "-i");
    ffmpeg::add_arg(&mut args, job.source.path.as_str());
    ffmpeg::add_arg(&mut args, "-c");
    ffmpeg::add_arg(&mut args, "copy");
    ffmpeg::add_arg(&mut args, "-f");
    ffmpeg::add_arg(&mut args, "mp4");
    ffmpeg::add_arg(&mut args, job.temporary.as_str());
    assert(text::texts_view(args@) =~= remux_args(job@));
    FfmpegCommand { program: program.to_owned(), args, env: Vec::new() }
}

/// The step after FFmpeg ran.
pub fn ffmpeg_ran(job: RemuxJob<String>, run: RemuxRun<String>) -> (step: RemuxStep<String>)
    ensures
        step@ == step_ran(job@, run@),
{
    match run {
        RemuxRun::NotFound => RemuxStep::Failed("ffmpeg 未找到".to_owned()),
        RemuxRun::NotStarted(detail) => RemuxStep::Failed(
            text::cat2("转换失败: ", detail.as_str()),
        ),
        RemuxRun::Unsuccessful(stderr) => RemuxStep::Discard {
            temporary: job.temporary,
            error: text::cat2(
                "ffmpeg 转换失败: ",
                text::first_chars(stderr.as_str(), STDERR_CHARS).as_str(),
            ),
        },
        RemuxRun::Successful => RemuxStep::LookAtOutput(job),
    }
}

/// The step after the temporary file was looked at; its length is given where it exists.
pub fn output_seen(job: RemuxJob<String>, len: Option<u64>) -> (step: RemuxStep<String>)
    ensures
        step@ == step_output(job@, len),
{
    if paths::file_size(len) <= 0 {
        RemuxStep::Discard {
            temporary: job.temporary,
            error: "转换完成但未找到输出文件".to_owned(),
        }
    } else {
        RemuxStep::Rename(job)
    }
}

/// The step after the temporary file was renamed, or could not be.
pub fn output_renamed(job: RemuxJob<String>, error: Option<String>) -> (step: RemuxStep<String>)
    ensures
        step@ == step_renamed(job@, text::opt_view(error)),
{
    match error {
        Some(detail) => RemuxStep::Failed(
            text::cat2("MP4 已生成，但完成文件改名失败: ", detail.as_str()),
        ),
        None => RemuxStep::LookAtTarget(job),
    }
}

/// The step after the target was looked at; its length is given where it exists.
pub fn target_seen(job: RemuxJob<String>, len: Option<u64>) -> (step: RemuxStep<String>)
    ensures
        step@ == step_target(job@, len),
{
    let size = paths::file_size(len);
    if job.source.preserve_source {
        RemuxStep::Done { path: job.target, size, warning: None }
    } else {
        RemuxStep::DeleteSource { job, size }
    }
}

/// The step after the file was deleted, or could not be.
pub fn source_deleted(job: RemuxJob<String>, size: i64, error: Option<String>) -> (step: RemuxStep<
    String,
>)
    ensures
        step@ == step_deleted(job@, size, text::opt_view(error)),
{
    let warning = match error {
        Some(detail) => Some(
            text::cat2("MP4 已生成，但原始 FLV 未能删除: ", detail.as_str()),
        ),
        None => None,
    };
    RemuxStep::Done { path: job.target, size, warning }
}

// ---------------------------------------------------------------------------
// The steps as a whole
// ---------------------------------------------------------------------------

/// What the steps meet with outside.
pub struct RemuxWorld {
    pub source: SourceLook<Seq<char>>,
    /// What a look at the names of each attempt brings.
    pub names: spec_fn(u32) -> NamesLook<Seq<char>>,
    pub run: RemuxRun<Seq<char>>,
    pub output_len: Option<u64>,
    pub rename_error: Option<Seq<char>>,
    pub target_len: Option<u64>,
    pub delete_error: Option<Seq<char>>,
}

/// The step that follows.
pub open spec fn next_step(step: RemuxStep<Seq<char>>, world: RemuxWorld) -> Option<
    RemuxStep<Seq<char>>,
> {
    match step {
        RemuxStep::LookAtSource(source) => Some(step_source(source, world.source)),
        RemuxStep::TryNames { names, .. } => Some(
            step_names(names, (world.names)(names.attempt)),
        ),
        RemuxStep::Run(job) => Some(step_ran(job, world.run)),
        RemuxStep::LookAtOutput(job) => Some(step_output(job, world.output_len)),
        RemuxStep::Rename(job) => Some(step_renamed(job, world.rename_error)),
        RemuxStep::LookAtTarget(job) => Some(step_target(job, world.target_len)),
        RemuxStep::DeleteSource { job, size } => Some(step_deleted(job, size, world.delete_error)),
        RemuxStep::Done { .. } => None,
        RemuxStep::Discard { .. } => None,
        RemuxStep::Failed(_) => None,
    }
}

/// How far a step is from the end.
pub open spec fn steps_left(step: RemuxStep<Seq<char>>) -> int {
    match step {
        RemuxStep::LookAtSource(_) => paths::MAX_ATTEMPTS + 7,
        RemuxStep::TryNames { names, .. } => if names.attempt < paths::MAX_ATTEMPTS {
            paths::MAX_ATTEMPTS - names.attempt + 6
        } else {
            6
        },
        RemuxStep::Run(_) => 5,
        RemuxStep::LookAtOutput(_) => 4,
        RemuxStep::Rename(_) => 3,
        RemuxStep::LookAtTarget(_) => 2,
        RemuxStep::DeleteSource { .. } => 1,
        _ => 0,
    }
}

/// All the steps from `step` on.
pub open spec fn steps_from(step: RemuxStep<Seq<char>>, world: RemuxWorld) -> Seq<
    RemuxStep<Seq<char>>,
>
    decreases steps_left(step),
{
    match next_step(step, world) {
        None => seq![step],
        Some(next) => seq![step] + steps_from(next, world),
    }
}

/// Where the steps from `step` on end.
pub open spec fn ending(step: RemuxStep<Seq<char>>, world: RemuxWorld) -> RemuxStep<Seq<char>> {
    steps_from(step, world).last()
}

/// The file that a step is about.
pub open spec fn source_of(step: RemuxStep<Seq<char>>) -> Option<RemuxSource<Seq<char>>> {
    match step {
        RemuxStep::LookAtSource(source) => Some(source),
        RemuxStep::TryNames { names, .. } => Some(names.source),
        RemuxStep::Run(job) => Some(job.source),
        RemuxStep::LookAtOutput(job) => Some(job.source),
        RemuxStep::Rename(job) => Some(job.source),
        RemuxStep::LookAtTarget(job) => Some(job.source),
        RemuxStep::DeleteSource { job, .. } => Some(job.source),
        _ => None,
    }
}

/// The file that was converted is deleted only where it need not be preserved, and only after the
/// new file was found to hold data and was put in place.
pub proof fn law_source_is_deleted_last(
    path: Seq<char>,
    preserve_source: bool,
    world: RemuxWorld,
    i: int,
)
    requires
        0 <= i < steps_from(first_step(path, preserve_source), world).len(),
        steps_from(first_step(path, preserve_source), world)[i] is DeleteSource,
    ensures
        ({
            let steps = steps_from(first_step(path, preserve_source), world);
            &&& steps[i]->DeleteSource_job.source.path == path
            &&& !preserve_source
            &&& paths::stored_size(world.output_len) > 0
            &&& world.rename_error is None
            &&& i >= 3
            &&& steps[i - 1] is LookAtTarget
            &&& steps[i - 2] is Rename
            &&& steps[i - 3] is LookAtOutput
        }),
{
    lemma_deletion(first_step(path, preserve_source), world, i);
}

proof fn lemma_deletion(step: RemuxStep<Seq<char>>, world: RemuxWorld, i: int)
    requires
        step is LookAtSource || step is TryNames || step is Run || source_of(step) is None,
        0 <= i < steps_from(step, world).len(),
        steps_from(step, world)[i] is DeleteSource,
    ensures
        ({
            let steps = steps_from(step, world);
            &&& source_of(step) == Some(steps[i]->DeleteSource_job.source)
            &&& !steps[i]->DeleteSource_job.source.preserve_source
            &&& paths::stored_size(world.output_len) > 0
            &&& world.rename_error is None
            &&& i >= 3
            &&& steps[i - 1] is LookAtTarget
            &&& steps[i - 2] is Rename
            &&& steps[i - 3] is LookAtOutput
        }),
    decreases steps_left(step),
{
    match step {
        RemuxStep::Run(_) => {
            reveal_with_fuel(steps_from, 7);
        },
        RemuxStep::LookAtSource(_) => {
            lemma_deletion(next_step(step, world)->0, world, i - 1);
        },
        RemuxStep::TryNames { .. } => {
            lemma_deletion(next_step(step, world)->0, world, i - 1);
        },
        _ => {},
    }
}

/// A conversion that succeeds tells where the new file is and how large it is, and warns exactly
/// where the old file should have been deleted and was not.
pub proof fn law_conversion_result(
    source: RemuxSource<Seq<char>>,
    target: Seq<char>,
    temporary: Seq<char>,
    world: RemuxWorld,
)
    ensures
        ({
            let last = ending(RemuxStep::Run(RemuxJob { source, target, temporary }), world);
            &&& last is Done == (world.run is Successful && paths::stored_size(world.output_len) > 0
                && world.rename_error is None)
            &&& last is Done ==> last->path == target && last->Done_size == paths::stored_size(
                world.target_len,
            )
            &&& last is Done ==> (last->warning is Some == (!source.preserve_source
                && world.delete_error is Some))
        }),
{
    reveal_with_fuel(steps_from, 7);
}

/// The first pair of names of which neither is taken is used.
pub proof fn law_first_free_names(names: RemuxNames<Seq<char>>, world: RemuxWorld, k: u32)
    requires
        names.attempt <= k < paths::MAX_ATTEMPTS,
        (world.names)(k) is Free,
        forall|a: u32| names.attempt <= a < k ==> #[trigger] (world.names)(a) is Taken,
    ensures
        ({
            let steps = steps_from(try_names(names), world);
            let at = k - names.attempt;
            let free = (world.names)(k);
            &&& at + 1 < steps.len()
            &&& steps[at] == try_names(RemuxNames { attempt: k, ..names })
            &&& steps[at + 1] == RemuxStep::Run(
                RemuxJob {
                    source: names.source,
                    target: free->target,
                    temporary: free->temporary,
                },
            )
        }),
    decreases k - names.attempt,
{
    if names.attempt < k {
        assert((world.names)(names.attempt) is Taken);
        let next = RemuxNames { attempt: (names.attempt + 1) as u32, ..names };
        law_first_free_names(next, world, k);
    } else {
        reveal_with_fuel(steps_from, 3);
    }
}

/// Where all names are taken, nothing is converted.
pub proof fn law_no_free_names(names: RemuxNames<Seq<char>>, world: RemuxWorld)
    requires
        names.attempt < paths::MAX_ATTEMPTS,
        forall|a: u32|
            names.attempt <= a < paths::MAX_ATTEMPTS ==> #[trigger] (world.names)(a) is Taken,
    ensures
        ending(try_names(names), world) == RemuxStep::<Seq<char>>::Failed(
            "无法生成不冲突的 MP4 文件名"@,
        ),
    decreases paths::MAX_ATTEMPTS - names.attempt,
{
    assert((world.names)(names.attempt) is Taken);
    if names.attempt + 1 < paths::MAX_ATTEMPTS {
        let next = RemuxNames { attempt: (names.attempt + 1) as u32, ..names };
        law_no_free_names(next, world);
        assert(steps_from(try_names(next), world).len() > 0);
    } else {
        reveal_with_fuel(steps_from, 2);
    }
}

// ---------------------------------------------------------------------------
// Laws over whole conversions
// ---------------------------------------------------------------------------

/// The names of attempt `k` are the first of which neither is taken.
pub open spec fn first_free(world: RemuxWorld, k: u32) -> bool {
    &&& k < 10_000
    &&& (world.names)(k) is Free
    &&& forall|a: u32| a < k ==> #[trigger] (world.names)(a) is Taken
}

/// A file of that length holds data.
pub open spec fn holds_data(len: Option<u64>) -> bool {
    len matches Some(n) && 0 < n <= 0x7fff_ffff_ffff_ffff
}

proof fn lemma_reaches_run(names: RemuxNames<Seq<char>>, world: RemuxWorld, k: u32)
    requires
        names.attempt <= k < paths::MAX_ATTEMPTS,
        (world.names)(k) is Free,
        forall|a: u32| names.attempt <= a < k ==> #[trigger] (world.names)(a) is Taken,
    ensures
        ({
            let steps = steps_from(try_names(names), world);
            let job = RemuxJob {
                source: names.source,
                target: (world.names)(k)->target,
                temporary: (world.names)(k)->temporary,
            };
            &&& steps.len() > k - names.attempt + 1
            &&& steps.skip(k - names.attempt + 1) == steps_from(RemuxStep::Run(job), world)
            &&& forall|a: u32|
                names.attempt <= a <= k ==> steps[a - names.attempt] == #[trigger] try_names(
                    RemuxNames { attempt: a, ..names },
                )
        }),
    decreases k - names.attempt,
{
    let steps = steps_from(try_names(names), world);
    let job = RemuxJob {
        source: names.source,
        target: (world.names)(k)->target,
        temporary: (world.names)(k)->temporary,
    };
    if names.attempt < k {
        assert((world.names)(names.attempt) is Taken);
        let next = RemuxNames { attempt: (names.attempt + 1) as u32, ..names };
        let rest = steps_from(try_names(next), world);
        lemma_reaches_run(next, world, k);
        assert(steps == seq![try_names(names)] + rest);
        assert(steps.skip(k - names.attempt + 1) =~= rest.skip(k - next.attempt + 1));
        assert forall|a: u32| names.attempt <= a <= k implies steps[a - names.attempt]
            == #[trigger] try_names(RemuxNames { attempt: a, ..names }) by {
            if a > names.attempt {
                assert(RemuxNames { attempt: a, ..names } == RemuxNames { attempt: a, ..next });
                assert(steps[a - names.attempt] == rest[a - next.attempt]);
            }
        }
    } else {
        let rest = steps_from(RemuxStep::Run(job), world);
        assert(steps == seq![try_names(names)] + rest);
        assert(steps.skip(1) =~= rest);
        assert(rest.len() > 0);
    }
}

/// How a conversion ends, once FFmpeg can be run for it: with the MP4 in place, its size, and a
/// warning where the FLV should have been deleted and was not; or with the first thing that went
/// wrong. What FFmpeg left behind is then removed.
pub proof fn law_how_a_conversion_ends(
    path: Seq<char>,
    preserve_source: bool,
    stem: Option<Seq<char>>,
    world: RemuxWorld,
    k: u32,
)
    requires
        exists|name: Seq<char>| path == #[trigger] (name + ".flv"@),
        world.source == (SourceLook::Found { stem }),
        first_free(world, k),
    ensures
        ({
            let last = ending(first_step(path, preserve_source), world);
            let target = (world.names)(k)->target;
            let temporary = (world.names)(k)->temporary;
            match world.run {
                RemuxRun::NotFound => last == RemuxStep::Failed("ffmpeg 未找到"@),
                RemuxRun::NotStarted(detail) => last == RemuxStep::Failed("转换失败: "@ + detail),
                RemuxRun::Unsuccessful(stderr) => last == (RemuxStep::Discard {
                    temporary,
                    error: "ffmpeg 转换失败: "@ + (if stderr.len() > 200 {
                        stderr.take(200)
                    } else {
                        stderr
                    }),
                }),
                RemuxRun::Successful => if !holds_data(world.output_len) {
                    last == (RemuxStep::Discard {
                        temporary,
                        error: "转换完成但未找到输出文件"@,
                    })
                } else {
                    match world.rename_error {
                        Some(detail) => last == RemuxStep::Failed(
                            "MP4 已生成，但完成文件改名失败: "@ + detail,
                        ),
                        None => {
                            &&& last matches RemuxStep::Done { path, size, warning }
                            &&& path == target
                            &&& holds_data(world.target_len) ==> size == world.target_len->0
                            &&& world.target_len is None ==> size == 0
                            &&& warning == (match world.delete_error {
                                Some(detail) if !preserve_source => Some(
                                    "MP4 已生成，但原始 FLV 未能删除: "@ + detail,
                                ),
                                _ => None,
                            })
                        },
                    }
                },
            }
        }),
{
    lemma_conversion(path, preserve_source, stem, world, k);
    reveal_with_fuel(steps_from, 7);
}

/// What a file is called, where its name is text, and else.
spec fn called(stem: Option<Seq<char>>) -> Seq<char> {
    match stem {
        Some(stem) => stem,
        None => "recording"@,
    }
}

proof fn lemma_conversion(
    path: Seq<char>,
    preserve_source: bool,
    stem: Option<Seq<char>>,
    world: RemuxWorld,
    k: u32,
)
    requires
        exists|name: Seq<char>| path == #[trigger] (name + ".flv"@),
        world.source == (SourceLook::Found { stem }),
        first_free(world, k),
    ensures
        ({
            let source = RemuxSource { path, preserve_source };
            let stem = called(stem);
            let steps = steps_from(first_step(path, preserve_source), world);
            let job = RemuxJob {
                source,
                target: (world.names)(k)->target,
                temporary: (world.names)(k)->temporary,
            };
            let run = steps_from(RemuxStep::Run(job), world);
            &&& steps.len() == k + 2 + run.len()
            &&& steps.skip(k + 2) == run
            &&& steps.last() == run.last()
            &&& run.len() > 0
            &&& steps[0] == RemuxStep::LookAtSource(source)
            &&& forall|a: u32|
                a <= k ==> steps[a + 1] == #[trigger] try_names(
                    RemuxNames { source, stem, attempt: a },
                )
        }),
{
    text::law_beginnings_and_ends(path, ".flv"@);
    let stem = called(stem);
    let source = RemuxSource { path, preserve_source };
    let names = RemuxNames { source, stem, attempt: 0 };
    let steps = steps_from(first_step(path, preserve_source), world);
    let rest = steps_from(try_names(names), world);
    lemma_reaches_run(names, world, k);
    let job = RemuxJob {
        source,
        target: (world.names)(k)->target,
        temporary: (world.names)(k)->temporary,
    };
    let run = steps_from(RemuxStep::Run(job), world);
    assert(steps == seq![RemuxStep::LookAtSource(source)] + rest);
    assert(steps.skip(k + 2) =~= rest.skip(k + 1));
    assert(run.len() > 0);
    assert(steps.last() == steps.skip(k + 2).last());
    assert forall|a: u32| a <= k implies steps[a + 1] == #[trigger] try_names(
        RemuxNames { source, stem, attempt: a },
    ) by {
        assert(RemuxNames { attempt: a, ..names } == RemuxNames { source, stem, attempt: a });
        assert(steps[a + 1] == rest[a as int]);
    }
}

/// A conversion that succeeds deletes the FLV exactly where it is not to be preserved.
pub proof fn law_the_source_is_deleted_unless_preserved(
    path: Seq<char>,
    preserve_source: bool,
    stem: Option<Seq<char>>,
    world: RemuxWorld,
    k: u32,
)
    requires
        exists|name: Seq<char>| path == #[trigger] (name + ".flv"@),
        world.source == (SourceLook::Found { stem }),
        first_free(world, k),
        world.run is Successful,
        holds_data(world.output_len),
        world.rename_error is None,
    ensures
        ({
            let steps = steps_from(first_step(path, preserve_source), world);
            &&& (exists|i: int|
                0 <= i < steps.len() && #[trigger] steps[i] is DeleteSource
                    && steps[i]->DeleteSource_job.source.path == path) == !preserve_source
            &&& preserve_source ==> forall|i: int|
                0 <= i < steps.len() ==> !(#[trigger] steps[i] is DeleteSource)
        }),
{
    lemma_conversion(path, preserve_source, stem, world, k);
    let steps = steps_from(first_step(path, preserve_source), world);
    let run = steps.skip(k + 2);
    reveal_with_fuel(steps_from, 7);
    if !preserve_source {
        assert(run[4] is DeleteSource);
        assert(steps[k + 6] is DeleteSource);
    }
    assert forall|i: int| 0 <= i < steps.len() && preserve_source implies !(
    #[trigger] steps[i] is DeleteSource) by {
        if 1 <= i <= k + 1 {
            let a = (i - 1) as u32;
            assert(steps[a + 1] == try_names(
                RemuxNames {
                    source: RemuxSource { path, preserve_source },
                    stem: called(stem),
                    attempt: a,
                },
            ));
        } else if i > k + 1 {
            assert(run[i - k - 2] == steps[i]);
        }
    }
}

/// A file that is not FLV, is missing, or lies in no directory is not converted; nothing else is
/// looked at then.
pub proof fn law_what_is_not_converted(path: Seq<char>, preserve_source: bool, world: RemuxWorld)
    ensures
        ({
            let steps = steps_from(first_step(path, preserve_source), world);
            let is_flv = exists|name: Seq<char>| path == #[trigger] (name + ".flv"@);
            &&& !is_flv ==> steps == seq![
                RemuxStep::<Seq<char>>::Failed("文件不是 FLV 格式，无需转换"@),
            ]
            &&& is_flv && world.source is Missing ==> steps.len() == 2 && steps[1]
                == RemuxStep::<Seq<char>>::Failed("原始 FLV 文件不存在"@)
            &&& is_flv && world.source is NoParent ==> steps.len() == 2 && steps[1]
                == RemuxStep::<Seq<char>>::Failed("无法确定输出目录"@)
        }),
{
    text::law_beginnings_and_ends(path, ".flv"@);
    reveal_with_fuel(steps_from, 3);
}

/// The names that are tried are those of the FLV, first as they are and then with a number from one
/// on; a file whose name is no text is called `recording`.
pub proof fn law_names_that_are_tried(
    path: Seq<char>,
    preserve_source: bool,
    found: Option<Seq<char>>,
    world: RemuxWorld,
    k: u32,
    a: u32,
)
    requires
        exists|name: Seq<char>| path == #[trigger] (name + ".flv"@),
        world.source == (SourceLook::Found { stem: found }),
        first_free(world, k),
        a <= k,
    ensures
        ({
            let stem = match found {
                Some(stem) => stem,
                None => "recording"@,
            };
            let mark = if a == 0 {
                Seq::empty()
            } else {
                seq!['_'] + number::signed_decimal(a as int)
            };
            let step = steps_from(first_step(path, preserve_source), world)[a + 1];
            &&& step matches RemuxStep::TryNames { target_name, temporary_name, .. }
            &&& target_name == stem + mark + seq!['.', 'm', 'p', '4']
            &&& temporary_name == stem + mark + seq!['.', 'p', 'a', 'r', 't', '.', 'm', 'p', '4']
        }),
{
    let stem = match found {
        Some(stem) => stem,
        None => "recording"@,
    };
    text::law_beginnings_and_ends(path, ".flv"@);
    let source = RemuxSource { path, preserve_source };
    let names = RemuxNames { source, stem, attempt: 0 };
    let steps = steps_from(first_step(path, preserve_source), world);
    let rest = steps_from(try_names(names), world);
    lemma_reaches_run(names, world, k);
    assert(steps == seq![RemuxStep::LookAtSource(source)] + rest);
    assert(rest[a as int] == try_names(RemuxNames { attempt: a, ..names }));
    assert(steps[a + 1] == rest[a as int]);
    reveal_strlit("mp4");
    reveal_strlit("part.mp4");
    assert("mp4"@ =~= seq!['m', 'p', '4']);
    assert("part.mp4"@ =~= seq!['p', 'a', 'r', 't', '.', 'm', 'p', '4']);
    let step = steps[a + 1];
    let mark = paths::attempt_mark(a);
    assert(step->target_name =~= stem + mark + seq!['.', 'm', 'p', '4']);
    assert(step->temporary_name =~= stem + mark + seq![
        '.',
        'p',
        'a',
        'r',
        't',
        '.',
        'm',
        'p',
        '4',
    ]);
}

/// FFmpeg reads the FLV, copies its streams, and writes MP4 to the temporary file.
pub proof fn law_how_ffmpeg_converts(
    program: &str,
    job: RemuxJob<String>,
    command: FfmpegCommand,
)
    requires
        call_ensures(remux_command, (program, &job), command),
    ensures
        command.program@ == program@,
        command.args@.len() == 8,
        command.args@[0]@ == "-y"@,
        command.args@[1]@ == "-i"@,
        command.args@[2]@ == job.source.path@,
        command.args@[3]@ == "-c"@,
        command.args@[4]@ == "copy"@,
        command.args@[5]@ == "-f"@,
        command.args@[6]@ == "mp4"@,
        command.args@[7]@ == job.temporary@,
{
    let texts = text::texts_view(command.args@);
    assert(texts == remux_args(job@));
    assert(texts.len() == command.args@.len());
    assert(texts[0] == command.args@[0]@);
    assert(texts[1] == command.args@[1]@);
    assert(texts[2] == command.args@[2]@);
    assert(texts[3] == command.args@[3]@);
    assert(texts[4] == command.args@[4]@);
    assert(texts[5] == command.args@[5]@);
    assert(texts[6] == command.args@[6]@);
    assert(texts[7] == command.args@[7]@);
}

/// Where none of the 10000 names is free, there is no conversion.
pub proof fn law_when_no_name_is_free(
    path: Seq<char>,
    preserve_source: bool,
    stem: Option<Seq<char>>,
    world: RemuxWorld,
)
    requires
        exists|name: Seq<char>| path == #[trigger] (name + ".flv"@),
        world.source == (SourceLook::Found { stem }),
        forall|a: u32| a < 10_000 ==> #[trigger] (world.names)(a) is Taken,
    ensures
        ending(first_step(path, preserve_source), world) == RemuxStep::<Seq<char>>::Failed(
            "无法生成不冲突的 MP4 文件名"@,
        ),
{
    text::law_beginnings_and_ends(path, ".flv"@);
    let source = RemuxSource { path, preserve_source };
    let names = RemuxNames {
        source,
        stem: match stem {
            Some(stem) => stem,
            None => "recording"@,
        },
        attempt: 0,
    };
    law_no_free_names(names, world);
    assert(steps_from(try_names(names), world).len() > 0);
}

/// A conversion begins with a look at the FLV file, exactly where the path is one of such a file,
/// and remembers whether the file is to be preserved.
pub proof fn law_how_a_conversion_begins(
    file_path: &str,
    preserve_source: bool,
    step: RemuxStep<String>,
)
    requires
        call_ensures(remux_flv_to_mp4, (file_path, preserve_source), step),
    ensures
        ({
            let is_flv = exists|name: Seq<char>| file_path@ == #[trigger] (name + ".flv"@);
            &&& is_flv ==> (step matches RemuxStep::LookAtSource(source) && source.path@
                == file_path@ && source.preserve_source == preserve_source)
            &&& !is_flv ==> (step matches RemuxStep::Failed(message) && message@
                == "文件不是 FLV 格式，无需转换"@)
        }),
{
    text::law_beginnings_and_ends(file_path@, ".flv"@);
    if let RemuxStep::LookAtSource(source) = step {
        assert(step@ == RemuxStep::LookAtSource(source@));
    }
}

/// With free names FFmpeg is run for them, on the file that the names are for.
pub proof fn law_what_free_names_lead_to(
    names: RemuxNames<String>,
    target: String,
    temporary: String,
    step: RemuxStep<String>,
)
    requires
        call_ensures(names_seen, (names, NamesLook::Free { target, temporary }), step),
    ensures
        step matches RemuxStep::Run(job) && job.target@ == target@ && job.temporary@ == temporary@
            && job.source.path@ == names.source.path@ && job.source.preserve_source
            == names.source.preserve_source,
{
    if let RemuxStep::Run(job) = step {
        assert(step@ == RemuxStep::Run(job@));
        assert(job@.source == names@.source);
    }
}

/// Once the MP4 is in place, the FLV is deleted exactly where it is not to be preserved; without
/// that the conversion is over.
pub proof fn law_what_the_target_leads_to(
    job: RemuxJob<String>,
    len: Option<u64>,
    step: RemuxStep<String>,
)
    requires
        call_ensures(target_seen, (job, len), step),
    ensures
        (step is DeleteSource) == !job.source.preserve_source,
        (step is Done) == job.source.preserve_source,
        step matches RemuxStep::DeleteSource { job: same, .. } ==> same@ == job@,
        step matches RemuxStep::Done { path, warning, .. } ==> path@ == job.target@
            && warning is None,
{
    if let RemuxStep::DeleteSource { job: same, size } = step {
        assert(step@ == (RemuxStep::DeleteSource { job: same@, size }));
    }
    if let RemuxStep::Done { path, size, warning } = step {
        assert(step@ == (RemuxStep::Done { path: path@, size, warning: text::opt_view(warning) }));
    }
    assert(job@.source.preserve_source == job.source.preserve_source);
}

/// What is made of the source: a file that is missing or lies nowhere is not converted; for any
/// other one names are tried, from the first on.
pub proof fn law_what_the_source_leads_to(
    source: RemuxSource<String>,
    look: SourceLook<String>,
    step: RemuxStep<String>,
)
    requires
        call_ensures(source_seen, (source, look), step),
    ensures
        look is Missing ==> (step matches RemuxStep::Failed(message) && message@
            == "原始 FLV 文件不存在"@),
        look is NoParent ==> (step matches RemuxStep::Failed(message) && message@
            == "无法确定输出目录"@),
        look matches SourceLook::Found { stem } ==> {
            let called = match stem {
                Some(stem) => stem@,
                None => "recording"@,
            };
            &&& step matches RemuxStep::TryNames { names, target_name, temporary_name }
            &&& names.attempt == 0
            &&& names.stem@ == called
            &&& names.source@ == source@
            &&& target_name@ == called + seq!['.', 'm', 'p', '4']
            &&& temporary_name@ == called + seq!['.', 'p', 'a', 'r', 't', '.', 'm', 'p', '4']
        },
{
    if let RemuxStep::TryNames { names, target_name, temporary_name } = step {
        assert(step@ == (RemuxStep::TryNames {
            names: names@,
            target_name: target_name@,
            temporary_name: temporary_name@,
        }));
        reveal_strlit("mp4");
        reveal_strlit("part.mp4");
        assert("mp4"@ =~= seq!['m', 'p', '4']);
        assert("part.mp4"@ =~= seq!['p', 'a', 'r', 't', '.', 'm', 'p', '4']);
        let called = names.stem@;
        assert(target_name@ =~= called + seq!['.', 'm', 'p', '4']);
        assert(temporary_name@ =~= called + seq!['.', 'p', 'a', 'r', 't', '.', 'm', 'p', '4']);
    }
}

/// What is made of a run of FFmpeg: where it failed, what it left behind is removed, and the first
/// 200 characters of what it said are told.
pub proof fn law_what_a_run_leads_to(
    job: RemuxJob<String>,
    run: RemuxRun<String>,
    step: RemuxStep<String>,
)
    requires
        call_ensures(ffmpeg_ran, (job, run), step),
    ensures
        match run {
            RemuxRun::NotFound => step matches RemuxStep::Failed(message) && message@
                == "ffmpeg 未找到"@,
            RemuxRun::NotStarted(detail) => step matches RemuxStep::Failed(message) && message@
                == "转换失败: "@ + detail@,
            RemuxRun::Unsuccessful(stderr) => step matches RemuxStep::Discard { temporary, error }
                && temporary@ == job.temporary@ && error@ == "ffmpeg 转换失败: "@ + (
            if stderr@.len() > 200 {
                stderr@.take(200)
            } else {
                stderr@
            }),
            RemuxRun::Successful => step matches RemuxStep::LookAtOutput(same) && same@ == job@,
        },
{
}

/// What is made of the output: it is renamed exactly where it holds data.
pub proof fn law_what_the_output_leads_to(
    job: RemuxJob<String>,
    len: Option<u64>,
    step: RemuxStep<String>,
)
    requires
        call_ensures(output_seen, (job, len), step),
    ensures
        holds_data(len) ==> (step matches RemuxStep::Rename(same) && same@ == job@),
        !holds_data(len) ==> (step matches RemuxStep::Discard { temporary, error } && temporary@
            == job.temporary@ && error@ == "转换完成但未找到输出文件"@),
{
}

/// What is made of the renaming, and of the deletion of the FLV.
pub proof fn law_what_renaming_and_deleting_lead_to(
    job: RemuxJob<String>,
    error: Option<String>,
    renamed: RemuxStep<String>,
    size: i64,
    deleted: RemuxStep<String>,
)
    requires
        call_ensures(output_renamed, (job, error), renamed),
        call_ensures(source_deleted, (job, size, error), deleted),
    ensures
        error is None ==> (renamed matches RemuxStep::LookAtTarget(same) && same@ == job@),
        error matches Some(detail) ==> (renamed matches RemuxStep::Failed(message) && message@
            == "MP4 已生成，但完成文件改名失败: "@ + detail@),
        deleted matches RemuxStep::Done { path, size: same, warning } && path@ == job.target@
            && same == size && text::opt_view(warning) == (match error {
            Some(detail) => Some("MP4 已生成，但原始 FLV 未能删除: "@ + detail@),
            None => None,
        }),
{
}

} // verus!
