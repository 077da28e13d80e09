//! Names of files: safe for every file system, and not taken yet.

use vstd::prelude::*;

use crate::clock;
use crate::clock::{Instant, LocalMoment};
use crate::number;
use crate::text;

verus! {

// ---------------------------------------------------------------------------
// Safe names
// ---------------------------------------------------------------------------

/// The characters that Windows does not allow in the name of a file.
pub open spec fn is_forbidden(c: char) -> bool {
    ||| text::is_control(c)
    ||| c == '<'
    ||| c == '>'
    ||| c == ':'
    ||| c == '"'
    ||| c == '/'
    ||| c == '\\'
    ||| c == '|'
    ||| c == '?'
    ||| c == '*'
}

fn char_is_forbidden(c: char) -> (forbidden: bool)
    ensures
        forbidden == is_forbidden(c),
{
    text::char_is_control(c) || c == '<' || c == '>' || c == ':' || c == '"' || c == '/' || c
        == '\\' || c == '|' || c == '?' || c == '*'
}

/// The first 80 characters of `value`, with an underscore for each that is not allowed.
pub open spec fn cleaned(value: Seq<char>) -> Seq<char> {
    text::first_n(value, 80).map_values(
        |c: char|
            if is_forbidden(c) {
                '_'
            } else {
                c
            },
    )
}

/// `s` is one of the names `COM1` to `COM9`, or the like for another device.
pub open spec fn is_numbered_device(s: Seq<char>, device: Seq<char>) -> bool {
    &&& s.len() == 4
    &&& text::same_ignoring_ascii_case(s.take(3), device)
    &&& '1' <= s[3] <= '9'
}

/// The names that Windows keeps for devices.
pub open spec fn is_reserved(s: Seq<char>) -> bool {
    ||| text::same_ignoring_ascii_case(s, "CON"@)
    ||| text::same_ignoring_ascii_case(s, "PRN"@)
    ||| text::same_ignoring_ascii_case(s, "AUX"@)
    ||| text::same_ignoring_ascii_case(s, "NUL"@)
    ||| is_numbered_device(s, "COM"@)
    ||| is_numbered_device(s, "LPT"@)
}

/// `value` as a part of the name of a file.
pub open spec fn safe_name(value: Seq<char>) -> Seq<char> {
    let inner = text::stripped(text::trimmed(cleaned(value)));
    if inner.len() == 0 || is_reserved(inner) {
        "直播"@
    } else {
        inner
    }
}

fn numbered_device(s: &str, device: &str) -> (reserved: bool)
    ensures
        reserved == is_numbered_device(s@, device@),
{
    let chars = text::chars_of(s);
    if chars.len() != 4 {
        return false;
    }
    text::eq_ignore_ascii_case(s.substring_char(0, 3), device) && '1' <= chars[3] && chars[3] <= '9'
}

fn reserved(s: &str) -> (reserved: bool)
    ensures
        reserved == is_reserved(s@),
{
    text::eq_ignore_ascii_case(s, "CON") || text::eq_ignore_ascii_case(s, "PRN")
        || text::eq_ignore_ascii_case(s, "AUX") || text::eq_ignore_ascii_case(s, "NUL")
        || numbered_device(s, "COM") || numbered_device(s, "LPT")
}

fn clean(value: &str) -> (result: String)
    ensures
        result@ == cleaned(value@),
{
    let head = text::first_chars(value, 80);
    let chars = text::chars_of(head.as_str());
    let mut result = String::new();
    let mut i: usize = 0;
    while i < chars.len()
        invariant
            i <= chars@.len(),
            chars@ == text::first_n(value@, 80),
            result@ == cleaned(value@).take(i as int),
        decreases chars@.len() - i,
    {
        let c = if char_is_forbidden(chars[i]) {
            '_'
        } else {
            chars[i]
        };
        result.push(c);
        assert(cleaned(value@).take(i + 1) =~= cleaned(value@).take(i as int).push(c));
        i += 1;
    }
    assert(cleaned(value@).take(i as int) =~= cleaned(value@));
    result
}

/// `value` as a part of the name of a file.
pub fn sanitize_filename_component(value: &str) -> (name: String)
    ensures
        name@ == safe_name(value@),
{
    let result = clean(value);
    let inner = text::strip_dots(text::trim(result.as_str()));
    if inner.is_empty() || reserved(inner) {
        "直播".to_owned()
    } else {
        inner.to_owned()
    }
}

/// What is left once the ends are dropped is a part of the text.
proof fn lemma_dropping_keeps_inside(s: Seq<char>, drop: spec_fn(char) -> bool)
    ensures
        ({
            let inner = text::without_trailing(text::without_leading(s, drop), drop);
            &&& inner.len() <= s.len()
            &&& forall|i: int| 0 <= i < inner.len() ==> s.contains(#[trigger] inner[i])
            &&& inner.len() > 0 ==> !drop(inner.first()) && !drop(inner.last())
        }),
{
    let rest = text::without_leading(s, drop);
    let inner = text::without_trailing(rest, drop);
    text::lemma_without_leading(s, drop);
    text::lemma_without_trailing(rest, drop);
    let skipped = s.len() - rest.len();
    assert forall|i: int| 0 <= i < inner.len() implies s.contains(#[trigger] inner[i]) by {
        assert(inner[i] == rest[i]);
        assert(rest[i] == s[skipped + i]);
    }
    if inner.len() > 0 {
        assert(inner.first() == rest.first());
    }
}

/// A safe name is not empty, has at most 80 characters, none of them forbidden, is not reserved,
/// and neither begins nor ends with a full stop or a space.
pub proof fn law_safe_name(value: Seq<char>)
    ensures
        ({
            let name = safe_name(value);
            &&& 0 < name.len() <= 80
            &&& forall|i: int| 0 <= i < name.len() ==> !is_forbidden(#[trigger] name[i])
            &&& !is_reserved(name)
            &&& name.first() != '.' && name.first() != ' '
            &&& name.last() != '.' && name.last() != ' '
        }),
{
    let all = cleaned(value);
    let middle = text::trimmed(all);
    let inner = text::stripped(middle);
    lemma_dropping_keeps_inside(all, text::white());
    lemma_dropping_keeps_inside(middle, text::dot_or_space());
    assert forall|i: int| 0 <= i < inner.len() implies !is_forbidden(#[trigger] inner[i]) by {
        assert(middle.contains(inner[i]));
        let j = choose|j: int| 0 <= j < middle.len() && middle[j] == inner[i];
        assert(all.contains(middle[j]));
        let k = choose|k: int| 0 <= k < all.len() && all[k] == middle[j];
        assert(!is_forbidden('_'));
        assert(all[k] == '_' || all[k] == text::first_n(value, 80)[k]);
    }
    reveal_strlit("直播");
    assert("直播"@.len() == 2);
    assert("直播"@[0] == '直' && "直播"@[1] == '播');
    reveal_strlit("CON");
    reveal_strlit("PRN");
    reveal_strlit("AUX");
    reveal_strlit("NUL");
    assert("CON"@.len() == 3 && "PRN"@.len() == 3 && "AUX"@.len() == 3 && "NUL"@.len() == 3);
}

// ---------------------------------------------------------------------------
// Names that are not taken
// ---------------------------------------------------------------------------

/// How many names are tried before giving up.
pub const MAX_ATTEMPTS: u32 = 10_000;

/// The mark that tells the `attempt`th name from the others.
pub open spec fn attempt_mark(attempt: u32) -> Seq<char> {
    if attempt == 0 {
        Seq::empty()
    } else {
        seq!['_'] + number::decimal(attempt as nat)
    }
}

/// The `attempt`th name for a file.
pub open spec fn attempt_name(stem: Seq<char>, extension: Seq<char>, attempt: u32) -> Seq<char> {
    stem + attempt_mark(attempt) + seq!['.'] + extension
}

/// The name for a file when all others are taken.
pub open spec fn last_resort(stem: Seq<char>, extension: Seq<char>, now: Instant) -> Seq<char> {
    stem + seq!['_'] + number::signed_decimal(now.millis()) + seq!['.'] + extension
}

fn mark(attempt: u32) -> (mark: String)
    ensures
        mark@ == attempt_mark(attempt),
{
    if attempt == 0 {
        String::new()
    } else {
        let mut mark = String::new();
        mark.push('_');
        mark.append(number::u64_text(attempt as u64).as_str());
        assert(mark@ =~= attempt_mark(attempt));
        mark
    }
}

fn name_with(stem: &str, mark: &str, extension: &str) -> (name: String)
    ensures
        name@ == stem@ + mark@ + seq!['.'] + extension@,
{
    let mut name = text::cat2(stem, mark);
    name.push('.');
    assert(name@ =~= stem@ + mark@ + seq!['.']);
    name.append(extension);
    name
}

/// The `attempt`th name for a file.
pub(crate) fn numbered_name(stem: &str, extension: &str, attempt: u32) -> (name: String)
    ensures
        name@ == attempt_name(stem@, extension@, attempt),
{
    name_with(stem, mark(attempt).as_str(), extension)
}

/// A name to be tried, or the one that is taken in the end.
#[derive(Debug)]
pub enum OutputName {
    /// Look whether there is a file of that name; then [`name_seen`].
    Try { attempt: u32, name: String },
    Use(String),
}

/// What an [`OutputName`] says.
pub enum OutputNameView {
    Try { attempt: u32, name: Seq<char> },
    Use(Seq<char>),
}

impl View for OutputName {
    type V = OutputNameView;

    open spec fn view(&self) -> OutputNameView {
        match self {
            OutputName::Try { attempt, name } => OutputNameView::Try {
                attempt: *attempt,
                name: name@,
            },
            OutputName::Use(name) => OutputNameView::Use(name@),
        }
    }
}

/// The name to try in that attempt, counted from zero.
pub open spec fn output_name(
    stem: Seq<char>,
    extension: Seq<char>,
    attempt: u32,
    now: Instant,
) -> OutputNameView {
    if attempt < MAX_ATTEMPTS {
        OutputNameView::Try { attempt, name: attempt_name(stem, extension, attempt) }
    } else {
        OutputNameView::Use(last_resort(stem, extension, now))
    }
}

/// The name to try in that attempt, counted from zero.
pub fn unique_output_path(stem: &str, extension: &str, attempt: u32, now: Instant) -> (name:
    OutputName)
    requires
        now.valid(),
    ensures
        name@ == output_name(stem@, extension@, attempt, now),
{
    if attempt < MAX_ATTEMPTS {
        OutputName::Try { attempt, name: numbered_name(stem, extension, attempt) }
    } else {
        let mut stamp = String::new();
        stamp.push('_');
        stamp.append(number::i64_text(now.timestamp_millis()).as_str());
        let name = name_with(stem, stamp.as_str(), extension);
        assert(name@ =~= last_resort(stem@, extension@, now));
        OutputName::Use(name)
    }
}

/// What follows once the name of that attempt was looked at: it is used unless it is taken, and then
/// the next one is tried. After the last attempt there is nothing to look at.
pub open spec fn step_seen(
    stem: Seq<char>,
    extension: Seq<char>,
    attempt: u32,
    taken: bool,
    now: Instant,
) -> OutputNameView {
    if attempt >= MAX_ATTEMPTS {
        output_name(stem, extension, attempt, now)
    } else if taken {
        output_name(stem, extension, (attempt + 1) as u32, now)
    } else {
        OutputNameView::Use(attempt_name(stem, extension, attempt))
    }
}

/// What follows once the name of that attempt was looked at.
pub fn name_seen(stem: &str, extension: &str, attempt: u32, taken: bool, now: Instant) -> (name:
    OutputName)
    requires
        now.valid(),
    ensures
        name@ == step_seen(stem@, extension@, attempt, taken, now),
{
    if attempt >= MAX_ATTEMPTS {
        unique_output_path(stem, extension, attempt, now)
    } else if taken {
        unique_output_path(stem, extension, attempt + 1, now)
    } else {
        OutputName::Use(numbered_name(stem, extension, attempt))
    }
}

/// Different attempts try different names.
pub proof fn law_attempts_differ(stem: Seq<char>, extension: Seq<char>, a: u32, b: u32)
    requires
        a != b,
    ensures
        attempt_name(stem, extension, a) != attempt_name(stem, extension, b),
{
    let na = attempt_name(stem, extension, a);
    let nb = attempt_name(stem, extension, b);
    if na == nb {
        let from = stem.len() as int;
        let to = na.len() - extension.len() - 1;
        assert(na.subrange(from, to) =~= attempt_mark(a));
        assert(nb.subrange(from, to) =~= attempt_mark(b));
        if a > 0 && b > 0 {
            assert(attempt_mark(a).skip(1) =~= number::decimal(a as nat));
            assert(attempt_mark(b).skip(1) =~= number::decimal(b as nat));
            number::lemma_decimal_injective(a as nat, b as nat);
        }
    }
}

/// The name that is used in the end, given which names are taken, from `step` on.
pub open spec fn used_name(
    stem: Seq<char>,
    extension: Seq<char>,
    taken: Set<Seq<char>>,
    step: OutputNameView,
    now: Instant,
) -> Seq<char>
    decreases
            (match step {
                OutputNameView::Use(_) => 0,
                OutputNameView::Try { attempt, .. } => if attempt < MAX_ATTEMPTS {
                    MAX_ATTEMPTS - attempt + 1
                } else {
                    1
                },
            }),
{
    match step {
        OutputNameView::Use(name) => name,
        OutputNameView::Try { attempt, name } => used_name(
            stem,
            extension,
            taken,
            step_seen(stem, extension, attempt, taken.contains(name), now),
            now,
        ),
    }
}

/// The first name that is not taken is used; where all are, one with the current time.
pub proof fn law_first_free_name(
    stem: Seq<char>,
    extension: Seq<char>,
    taken: Set<Seq<char>>,
    attempt: u32,
    now: Instant,
)
    requires
        attempt <= MAX_ATTEMPTS,
    ensures
        ({
            let first = output_name(stem, extension, attempt, now);
            let name = used_name(stem, extension, taken, first, now);
            ||| exists|k: u32|
                attempt <= k < MAX_ATTEMPTS && name == #[trigger] attempt_name(stem, extension, k)
                    && !taken.contains(name) && forall|a: u32|
                    attempt <= a < k ==> taken.contains(#[trigger] attempt_name(stem, extension, a))
            ||| name == last_resort(stem, extension, now) && forall|a: u32|
                attempt <= a < MAX_ATTEMPTS ==> taken.contains(
                    #[trigger] attempt_name(stem, extension, a),
                )
        }),
    decreases MAX_ATTEMPTS - attempt,
{
    if attempt < MAX_ATTEMPTS {
        reveal_with_fuel(used_name, 2);
        let first = attempt_name(stem, extension, attempt);
        if taken.contains(first) {
            law_first_free_name(stem, extension, taken, (attempt + 1) as u32, now);
        }
    }
}

/// The name of a recording without its extension: who is on air, the room, and the time.
pub open spec fn recording_stem_of(anchor: Seq<char>, room_id: Seq<char>, at: LocalMoment) -> Seq<
    char,
> {
    safe_name(anchor) + "_"@ + room_id + "_"@ + clock::stamp_text(at)
}

/// The name of a recording without its extension: who is on air, the room, and the time.
pub fn recording_stem(anchor: &str, room_id: &str, at: LocalMoment) -> (stem: String)
    requires
        at.valid(),
    ensures
        stem@ == recording_stem_of(anchor@, room_id@, at),
{
    text::cat5(
        sanitize_filename_component(anchor).as_str(),
        "_",
        room_id,
        "_",
        at.stamp().as_str(),
    )
}

// ---------------------------------------------------------------------------
// Sizes and directories
// ---------------------------------------------------------------------------

/// The size of a file as it is stored: a signed number of 64 bits, zero where there is no file.
pub open spec fn stored_size(len: Option<u64>) -> int {
    match len {
        None => 0,
        Some(len) => if len <= i64::MAX {
            len as int
        } else {
            len - 0x1_0000_0000_0000_0000
        },
    }
}

/// The size of a file as it is stored, given its length where it exists.
pub fn file_size(len: Option<u64>) -> (size: i64)
    ensures
        size == stored_size(len),
{
    match len {
        None => 0,
        Some(len) => if len <= 0x7fff_ffff_ffff_ffff {
            len as i64
        } else {
            -((0xffff_ffff_ffff_ffff - len) as i64) - 1
        },
    }
}

/// Where recordings are kept.
#[derive(Debug)]
pub enum RecordingsDir {
    /// In the directory that the settings name.
    Configured(String),
    /// In that folder under the user's home directory.
    UnderHome { home: String, folder: String },
}

fn under_home(home: String) -> (dir: RecordingsDir)
    ensures
        dir matches RecordingsDir::UnderHome { home: path, folder } && path@ == home@ && folder@
            == "BilibiliRecordings"@,
{
    RecordingsDir::UnderHome { home, folder: "BilibiliRecordings".to_owned() }
}

/// Where recordings are kept: as the settings say, or else under the user's home directory, which
/// one of two variables of the environment names.
pub fn recordings_dir(setting: &str, user_profile: Option<String>, home: Option<String>) -> (dir:
    Result<RecordingsDir, String>)
    ensures
        setting@.len() > 0 ==> (dir matches Ok(RecordingsDir::Configured(path)) && path@
            == setting@),
        setting@.len() == 0 && user_profile is Some ==> (dir matches Ok(
            RecordingsDir::UnderHome { home: path, folder },
        ) && folder@ == "BilibiliRecordings"@ && path@ == user_profile->0@),
        setting@.len() == 0 && user_profile is None && home is Some ==> (dir matches Ok(
            RecordingsDir::UnderHome { home: path, folder },
        ) && folder@ == "BilibiliRecordings"@ && path@ == home->0@),
        setting@.len() == 0 && user_profile is None && home is None ==> (dir matches Err(message)
            && message@ == "无法获取用户目录"@),
{
    if !setting.is_empty() {
        return Ok(RecordingsDir::Configured(setting.to_owned()));
    }
    match user_profile {
        Some(path) => Ok(under_home(path)),
        None => match home {
            Some(path) => Ok(under_home(path)),
            None => Err("无法获取用户目录".to_owned()),
        },
    }
}

/// Why there is no recordings directory, for the user.
pub fn recordings_dir_error(detail: &str) -> (message: String)
    ensures
        message@ == "创建录制目录失败: "@ + detail@,
{
    text::cat2("创建录制目录失败: ", detail)
}

/// Why the place of a file cannot be found out.
#[derive(Debug)]
pub enum FileFault {
    /// The file is not there.
    File(String),
    /// The recordings directory cannot be reached.
    Root(String),
}

/// Why the place of a file cannot be found out, for the user.
pub fn file_error(fault: FileFault) -> (message: String)
    ensures
        fault matches FileFault::File(detail) ==> message@ == "录制文件不存在: "@ + detail@,
        fault matches FileFault::Root(detail) ==> message@ == "无法访问录制目录: "@ + detail@,
{
    match fault {
        FileFault::File(detail) => text::cat2("录制文件不存在: ", detail.as_str()),
        FileFault::Root(detail) => text::cat2("无法访问录制目录: ", detail.as_str()),
    }
}

/// What the user does with a recording.
#[derive(Debug, Clone, Copy, PartialEq, Eq, Structural)]
pub enum FileAction {
    Open,
    Reveal,
}

/// Why a recording was not opened or shown: the system failed, or it cannot do that at all.
pub open spec fn action_failure(action: FileAction, detail: Option<Seq<char>>) -> Seq<char> {
    match (action, detail) {
        (FileAction::Open, Some(detail)) => "打开录制文件失败: "@ + detail,
        (FileAction::Open, None) => "当前系统暂不支持打开录制文件"@,
        (FileAction::Reveal, Some(detail)) => "定位录制文件失败: "@ + detail,
        (FileAction::Reveal, None) => "当前系统暂不支持定位录制文件"@,
    }
}

/// Why a recording was not opened or shown, for the user.
pub fn action_error(action: FileAction, detail: Option<&str>) -> (message: String)
    ensures
        message@ == action_failure(action, text::opt_str(detail)),
{
    match (action, detail) {
        (FileAction::Open, Some(detail)) => text::cat2("打开录制文件失败: ", detail),
        (FileAction::Open, None) => "当前系统暂不支持打开录制文件".to_owned(),
        (FileAction::Reveal, Some(detail)) => text::cat2("定位录制文件失败: ", detail),
        (FileAction::Reveal, None) => "当前系统暂不支持定位录制文件".to_owned(),
    }
}

/// The components of `file` begin with those of `root`.
pub open spec fn is_within(file: Seq<Vec<u8>>, root: Seq<Vec<u8>>) -> bool {
    &&& root.len() <= file.len()
    &&& forall|i: int| 0 <= i < root.len() ==> (#[trigger] file[i])@ == root[i]@
}

fn same_bytes(a: &Vec<u8>, b: &Vec<u8>) -> (same: bool)
    ensures
        same == (a@ == b@),
{
    if a.len() != b.len() {
        return false;
    }
    let mut i: usize = 0;
    while i < a.len()
        invariant
            i <= a@.len(),
            a@.len() == b@.len(),
            forall|k: int| 0 <= k < i ==> a@[k] == b@[k],
        decreases a@.len() - i,
    {
        if a[i] != b[i] {
            return false;
        }
        i += 1;
    }
    assert(a@ =~= b@);
    true
}

/// A file may be opened only if it lies in the recordings directory. Both paths are canonical,
/// and given by their components.
pub fn validated_task_file(file: &Vec<Vec<u8>>, root: &Vec<Vec<u8>>) -> (result: Result<(), String>)
    ensures
        result is Ok == is_within(file@, root@),
        result matches Err(message) ==> message@
            == "任务文件不在当前录制目录中，已拒绝打开"@,
{
    let mut i: usize = 0;
    while i < root.len()
        invariant
            i <= root@.len(),
            i <= file@.len(),
            forall|k: int| 0 <= k < i ==> (#[trigger] file@[k])@ == root@[k]@,
        decreases root@.len() - i,
    {
        if i >= file.len() || !same_bytes(&file[i], &root[i]) {
            return Err("任务文件不在当前录制目录中，已拒绝打开".to_owned());
        }
        i += 1;
    }
    Ok(())
}

// ---------------------------------------------------------------------------
// FFmpeg
// ---------------------------------------------------------------------------

/// The systems for which FFmpeg is shipped.
#[derive(Debug, Clone, Copy, PartialEq, Eq, Structural)]
pub enum System {
    Windows,
    MacOs,
    Linux,
}

/// The name under which FFmpeg is shipped for a system on a processor.
pub open spec fn sidecar(system: System, arch: Seq<char>) -> Seq<char> {
    match system {
        System::Windows => "ffmpeg-"@ + arch + "-pc-windows-msvc"@ + ".exe"@,
        System::MacOs => "ffmpeg-"@ + arch + "-apple-darwin"@ + ""@,
        System::Linux => "ffmpeg-"@ + arch + "-unknown-linux-gnu"@ + ""@,
    }
}

/// The name under which FFmpeg is shipped for a system on a processor.
pub fn sidecar_name(system: System, arch: &str) -> (name: String)
    ensures
        name@ == sidecar(system, arch@),
{
    match system {
        System::Windows => text::cat4("ffmpeg-", arch, "-pc-windows-msvc", ".exe"),
        System::MacOs => text::cat4("ffmpeg-", arch, "-apple-darwin", ""),
        System::Linux => text::cat4("ffmpeg-", arch, "-unknown-linux-gnu", ""),
    }
}

/// A place where FFmpeg may be.
#[derive(Debug)]
pub struct Place {
    pub path: String,
    pub exists: bool,
}

/// The folder beside the program, and the one in its sources, in which FFmpeg may be.
pub const RESOURCES_FOLDER: &'static str = "resources";

pub const BINARIES_FOLDER: &'static str = "binaries";

/// The places, where they are known, one after the other.
pub open spec fn known_places(places: Seq<Option<Place>>) -> Seq<Place>
    decreases places.len(),
{
    if places.len() == 0 {
        Seq::empty()
    } else {
        match places.last() {
            Some(place) => known_places(places.drop_last()).push(place),
            None => known_places(places.drop_last()),
        }
    }
}

/// The order in which FFmpeg is looked for: beside the program, in its resources, and in the
/// sources.
pub fn ffmpeg_places(
    beside_program: Option<Place>,
    in_resources: Option<Place>,
    in_sources: Option<Place>,
) -> (places: Vec<Place>)
    ensures
        places@ == known_places(seq![beside_program, in_resources, in_sources]),
{
    let mut places: Vec<Place> = Vec::new();
    proof {
        reveal_with_fuel(known_places, 4);
        let all = seq![beside_program, in_resources, in_sources];
        assert(all.drop_last() =~= seq![beside_program, in_resources]);
        assert(all.drop_last().drop_last() =~= seq![beside_program]);
        assert(all.drop_last().drop_last().drop_last() =~= Seq::empty());
    }
    if let Some(place) = beside_program {
        places.push(place);
    }
    if let Some(place) = in_resources {
        places.push(place);
    }
    if let Some(place) = in_sources {
        places.push(place);
    }
    places
}

/// The first of the places from `from` on that exists; where none does, FFmpeg is left to the
/// system's search path.
pub open spec fn first_existing(places: Seq<Place>, from: int) -> Seq<char>
    decreases places.len() - from,
{
    if from < 0 || from >= places.len() {
        "ffmpeg"@
    } else if places[from].exists {
        places[from].path@
    } else {
        first_existing(places, from + 1)
    }
}

/// The first of the places that exists; where none does, FFmpeg is left to the system's search
/// path.
pub fn resolve_ffmpeg_path(places: &Vec<Place>) -> (path: String)
    ensures
        path@ == first_existing(places@, 0),
{
    let mut i: usize = 0;
    while i < places.len()
        invariant
            i <= places@.len(),
            first_existing(places@, 0) == first_existing(places@, i as int),
        decreases places@.len() - i,
    {
        if places[i].exists {
            return places[i].path.clone();
        }
        i += 1;
    }
    "ffmpeg".to_owned()
}

// ---------------------------------------------------------------------------
// Laws over characters and names
// ---------------------------------------------------------------------------

/// What stands for a character in a name: an underscore for a control character and for each of
/// the nine that file systems do not take.
pub open spec fn shown_as(c: char) -> char {
    let listed = seq!['<', '>', ':', '"', '/', '\\', '|', '?', '*'];
    if c as int <= 31 || 127 <= c as int <= 159 || listed.contains(c) {
        '_'
    } else {
        c
    }
}

/// The names of devices, in any mixture of capital and small letters.
pub open spec fn is_device(s: Seq<char>) -> bool {
    ||| text::same_ignoring_ascii_case(s, "CON"@)
    ||| text::same_ignoring_ascii_case(s, "PRN"@)
    ||| text::same_ignoring_ascii_case(s, "AUX"@)
    ||| text::same_ignoring_ascii_case(s, "NUL"@)
    ||| text::same_ignoring_ascii_case(s, "COM1"@)
    ||| text::same_ignoring_ascii_case(s, "COM2"@)
    ||| text::same_ignoring_ascii_case(s, "COM3"@)
    ||| text::same_ignoring_ascii_case(s, "COM4"@)
    ||| text::same_ignoring_ascii_case(s, "COM5"@)
    ||| text::same_ignoring_ascii_case(s, "COM6"@)
    ||| text::same_ignoring_ascii_case(s, "COM7"@)
    ||| text::same_ignoring_ascii_case(s, "COM8"@)
    ||| text::same_ignoring_ascii_case(s, "COM9"@)
    ||| text::same_ignoring_ascii_case(s, "LPT1"@)
    ||| text::same_ignoring_ascii_case(s, "LPT2"@)
    ||| text::same_ignoring_ascii_case(s, "LPT3"@)
    ||| text::same_ignoring_ascii_case(s, "LPT4"@)
    ||| text::same_ignoring_ascii_case(s, "LPT5"@)
    ||| text::same_ignoring_ascii_case(s, "LPT6"@)
    ||| text::same_ignoring_ascii_case(s, "LPT7"@)
    ||| text::same_ignoring_ascii_case(s, "LPT8"@)
    ||| text::same_ignoring_ascii_case(s, "LPT9"@)
}

proof fn lemma_shown(c: char)
    ensures
        shown_as(c) == (if is_forbidden(c) {
            '_'
        } else {
            c
        }),
{
    let listed = seq!['<', '>', ':', '"', '/', '\\', '|', '?', '*'];
    assert(listed[0] == '<' && listed[1] == '>' && listed[2] == ':' && listed[3] == '"' && listed[4]
        == '/' && listed[5] == '\\' && listed[6] == '|' && listed[7] == '?' && listed[8] == '*');
    if listed.contains(c) {
        let i = choose|i: int| 0 <= i < listed.len() && listed[i] == c;
        assert(0 <= i < 9);
    }
}

proof fn lemma_numbered(s: Seq<char>, device: Seq<char>, name: Seq<char>)
    requires
        device.len() == 3,
        name.len() == 4,
        name.take(3) == device,
        '1' <= name[3] <= '9',
    ensures
        text::same_ignoring_ascii_case(s, name) <==> s.len() == 4
            && text::same_ignoring_ascii_case(s.take(3), device) && s[3] == name[3],
{
    if text::same_ignoring_ascii_case(s, name) {
        assert forall|i: int| 0 <= i < 3 implies text::ascii_lower(#[trigger] s.take(3)[i])
            == text::ascii_lower(device[i]) by {
            assert(s[i] == s.take(3)[i]);
            assert(name.take(3)[i] == name[i]);
        }
        assert(text::ascii_lower(s[3]) == text::ascii_lower(name[3]));
    }
    if s.len() == 4 && text::same_ignoring_ascii_case(s.take(3), device) && s[3] == name[3] {
        assert forall|i: int| 0 <= i < 4 implies text::ascii_lower(#[trigger] s[i])
            == text::ascii_lower(name[i]) by {
            if i < 3 {
                assert(s.take(3)[i] == s[i]);
                assert(name.take(3)[i] == name[i]);
            }
        }
    }
}

proof fn lemma_devices(s: Seq<char>)
    ensures
        is_reserved(s) == is_device(s),
{
    reveal_strlit("COM");
    reveal_strlit("LPT");
    assert("COM"@ =~= seq!['C', 'O', 'M']);
    assert("LPT"@ =~= seq!['L', 'P', 'T']);
    reveal_strlit("COM1");
    assert("COM1"@ =~= seq!['C', 'O', 'M', '1']);
    assert("COM1"@.take(3) =~= "COM"@);
    lemma_numbered(s, "COM"@, "COM1"@);
    reveal_strlit("COM2");
    assert("COM2"@ =~= seq!['C', 'O', 'M', '2']);
    assert("COM2"@.take(3) =~= "COM"@);
    lemma_numbered(s, "COM"@, "COM2"@);
    reveal_strlit("COM3");
    assert("COM3"@ =~= seq!['C', 'O', 'M', '3']);
    assert("COM3"@.take(3) =~= "COM"@);
    lemma_numbered(s, "COM"@, "COM3"@);
    reveal_strlit("COM4");
    assert("COM4"@ =~= seq!['C', 'O', 'M', '4']);
    assert("COM4"@.take(3) =~= "COM"@);
    lemma_numbered(s, "COM"@, "COM4"@);
    reveal_strlit("COM5");
    assert("COM5"@ =~= seq!['C', 'O', 'M', '5']);
    assert("COM5"@.take(3) =~= "COM"@);
    lemma_numbered(s, "COM"@, "COM5"@);
    reveal_strlit("COM6");
    assert("COM6"@ =~= seq!['C', 'O', 'M', '6']);
    assert("COM6"@.take(3) =~= "COM"@);
    lemma_numbered(s, "COM"@, "COM6"@);
    reveal_strlit("COM7");
    assert("COM7"@ =~= seq!['C', 'O', 'M', '7']);
    assert("COM7"@.take(3) =~= "COM"@);
    lemma_numbered(s, "COM"@, "COM7"@);
    reveal_strlit("COM8");
    assert("COM8"@ =~= seq!['C', 'O', 'M', '8']);
    assert("COM8"@.take(3) =~= "COM"@);
    lemma_numbered(s, "COM"@, "COM8"@);
    reveal_strlit("COM9");
    assert("COM9"@ =~= seq!['C', 'O', 'M', '9']);
    assert("COM9"@.take(3) =~= "COM"@);
    lemma_numbered(s, "COM"@, "COM9"@);
    reveal_strlit("LPT1");
    assert("LPT1"@ =~= seq!['L', 'P', 'T', '1']);
    assert("LPT1"@.take(3) =~= "LPT"@);
    lemma_numbered(s, "LPT"@, "LPT1"@);
    reveal_strlit("LPT2");
    assert("LPT2"@ =~= seq!['L', 'P', 'T', '2']);
    assert("LPT2"@.take(3) =~= "LPT"@);
    lemma_numbered(s, "LPT"@, "LPT2"@);
    reveal_strlit("LPT3");
    assert("LPT3"@ =~= seq!['L', 'P', 'T', '3']);
    assert("LPT3"@.take(3) =~= "LPT"@);
    lemma_numbered(s, "LPT"@, "LPT3"@);
    reveal_strlit("LPT4");
    assert("LPT4"@ =~= seq!['L', 'P', 'T', '4']);
    assert("LPT4"@.take(3) =~= "LPT"@);
    lemma_numbered(s, "LPT"@, "LPT4"@);
    reveal_strlit("LPT5");
    assert("LPT5"@ =~= seq!['L', 'P', 'T', '5']);
    assert("LPT5"@.take(3) =~= "LPT"@);
    lemma_numbered(s, "LPT"@, "LPT5"@);
    reveal_strlit("LPT6");
    assert("LPT6"@ =~= seq!['L', 'P', 'T', '6']);
    assert("LPT6"@.take(3) =~= "LPT"@);
    lemma_numbered(s, "LPT"@, "LPT6"@);
    reveal_strlit("LPT7");
    assert("LPT7"@ =~= seq!['L', 'P', 'T', '7']);
    assert("LPT7"@.take(3) =~= "LPT"@);
    lemma_numbered(s, "LPT"@, "LPT7"@);
    reveal_strlit("LPT8");
    assert("LPT8"@ =~= seq!['L', 'P', 'T', '8']);
    assert("LPT8"@.take(3) =~= "LPT"@);
    lemma_numbered(s, "LPT"@, "LPT8"@);
    reveal_strlit("LPT9");
    assert("LPT9"@ =~= seq!['L', 'P', 'T', '9']);
    assert("LPT9"@.take(3) =~= "LPT"@);
    lemma_numbered(s, "LPT"@, "LPT9"@);
}

/// A name is made of the first 80 characters, with underscores for those that are not allowed,
/// without the white space and then the full stops and spaces around them. Where nothing is left,
/// or the name of a device, a general name takes its place.
pub proof fn law_how_a_name_is_made_safe(value: &str, name: String)
    requires
        call_ensures(sanitize_filename_component, (value,), name),
    ensures
        ({
            let count = if value@.len() < 80 {
                value@.len()
            } else {
                80
            };
            let inner = text::stripped(
                text::trimmed(Seq::new(count, |i: int| shown_as(value@[i]))),
            );
            name@ == (if inner.len() == 0 || is_device(inner) {
                "直播"@
            } else {
                inner
            })
        }),
{
    let count = if value@.len() < 80 {
        value@.len()
    } else {
        80
    };
    let all = Seq::new(count, |i: int| shown_as(value@[i]));
    assert forall|i: int| 0 <= i < count implies all[i] == #[trigger] cleaned(value@)[i] by {
        lemma_shown(value@[i]);
    }
    assert(all =~= cleaned(value@));
    lemma_devices(text::stripped(text::trimmed(all)));
}

/// A text that is a fit name is kept as it is.
pub proof fn law_fit_names_are_kept(value: &str, name: String)
    requires
        call_ensures(sanitize_filename_component, (value,), name),
        1 <= value@.len() <= 80,
        forall|i: int| 0 <= i < value@.len() ==> shown_as(#[trigger] value@[i]) == value@[i],
        !text::is_white_space(value@.first()) && value@.first() != '.',
        !text::is_white_space(value@.last()) && value@.last() != '.',
        !is_device(value@),
    ensures
        name@ == value@,
{
    law_how_a_name_is_made_safe(value, name);
    let all = Seq::new(value@.len(), |i: int| shown_as(value@[i]));
    assert(all =~= value@);
    assert(text::without_leading(value@, text::white()) == value@);
    assert(text::without_trailing(value@, text::white()) == value@);
    assert(text::without_leading(value@, text::dot_or_space()) == value@);
    assert(text::without_trailing(value@, text::dot_or_space()) == value@);
}

/// The names that are tried for a file are numbered from the second on, and there are 10000 of
/// them. After that the file is called after the present.
pub proof fn law_names_for_a_file(
    stem: &str,
    extension: &str,
    attempt: u32,
    now: Instant,
    name: OutputName,
)
    requires
        call_ensures(unique_output_path, (stem, extension, attempt, now), name),
    ensures
        attempt == 0 ==> (name matches OutputName::Try { attempt: a, name } && a == 0 && name@
            == stem@ + seq!['.'] + extension@),
        1 <= attempt < 10_000 ==> (name matches OutputName::Try { attempt: a, name } && a == attempt
            && name@ == stem@ + seq!['_'] + number::signed_decimal(attempt as int) + seq!['.']
            + extension@),
        attempt >= 10_000 ==> (name matches OutputName::Use(name) && name@ == stem@ + seq!['_']
            + number::signed_decimal(now.millis()) + seq!['.'] + extension@),
{
    assert(attempt_name(stem@, extension@, attempt) =~= (if attempt == 0 {
        stem@ + seq!['.'] + extension@
    } else {
        stem@ + seq!['_'] + number::signed_decimal(attempt as int) + seq!['.'] + extension@
    }));
}

/// A name is used exactly where it is not taken; otherwise the next one comes up.
pub proof fn law_names_are_used_if_free(
    stem: &str,
    extension: &str,
    attempt: u32,
    taken: bool,
    now: Instant,
    tried: OutputName,
    next: OutputName,
    step: OutputName,
)
    requires
        attempt < 10_000,
        call_ensures(unique_output_path, (stem, extension, attempt, now), tried),
        call_ensures(unique_output_path, (stem, extension, (attempt + 1) as u32, now), next),
        call_ensures(name_seen, (stem, extension, attempt, taken, now), step),
    ensures
        !taken ==> (step matches OutputName::Use(used) && (tried matches OutputName::Try {
            name,
            ..
        } && used@ == name@)),
        taken ==> step@ == next@,
{
}

/// The name of a recording is made of who is on air, the number of the room, and the time.
pub proof fn law_what_a_recording_is_called(
    anchor: &str,
    room_id: &str,
    at: LocalMoment,
    stem: String,
    name: String,
    stamp: String,
)
    requires
        call_ensures(recording_stem, (anchor, room_id, at), stem),
        call_ensures(sanitize_filename_component, (anchor,), name),
        call_ensures(LocalMoment::stamp, (at,), stamp),
    ensures
        stem@ == name@ + seq!['_'] + room_id@ + seq!['_'] + stamp@,
{
    reveal_strlit("_");
    assert("_"@ =~= seq!['_']);
}

/// A file that is not there has no size; a length that 63 bits do not hold counts as negative.
pub proof fn law_sizes_of_files(len: Option<u64>, size: i64)
    requires
        call_ensures(file_size, (len,), size),
    ensures
        len is None ==> size == 0,
        len matches Some(n) ==> (n <= 0x7fff_ffff_ffff_ffff ==> size == n),
        len matches Some(n) ==> (n > 0x7fff_ffff_ffff_ffff ==> size == n - 0x1_0000_0000_0000_0000),
{
}

/// Recordings are kept where the settings say, or else under the home directory, of which the one
/// that the user profile names comes first.
pub proof fn law_where_recordings_are_kept(
    setting: &str,
    user_profile: Option<String>,
    home: Option<String>,
    dir: Result<RecordingsDir, String>,
)
    requires
        call_ensures(recordings_dir, (setting, user_profile, home), dir),
    ensures
        setting@.len() >= 1 ==> (dir matches Ok(RecordingsDir::Configured(path)) && path@
            == setting@),
        setting@.len() == 0 ==> match (user_profile, home) {
            (Some(base), _) => dir matches Ok(RecordingsDir::UnderHome { home: path, folder })
                && path@ == base@ && folder@ == "BilibiliRecordings"@,
            (None, Some(base)) => dir matches Ok(RecordingsDir::UnderHome { home: path, folder })
                && path@ == base@ && folder@ == "BilibiliRecordings"@,
            (None, None) => dir matches Err(message) && message@ == "无法获取用户目录"@,
        },
{
}

/// What the user is told of a directory or a file that cannot be reached, and of one that cannot
/// be shown.
pub proof fn law_what_is_told_of_files(
    detail: String,
    reason: &str,
    directory: String,
    file: String,
    root: String,
    open: String,
    reveal: String,
    cannot_open: String,
    cannot_reveal: String,
)
    requires
        reason@ == detail@,
        call_ensures(recordings_dir_error, (reason,), directory),
        call_ensures(file_error, (FileFault::File(detail),), file),
        call_ensures(file_error, (FileFault::Root(detail),), root),
        call_ensures(action_error, (FileAction::Open, Some(reason)), open),
        call_ensures(action_error, (FileAction::Reveal, Some(reason)), reveal),
        call_ensures(action_error, (FileAction::Open, None::<&str>), cannot_open),
        call_ensures(action_error, (FileAction::Reveal, None::<&str>), cannot_reveal),
    ensures
        directory@ == "创建录制目录失败: "@ + detail@,
        file@ == "录制文件不存在: "@ + detail@,
        root@ == "无法访问录制目录: "@ + detail@,
        open@ == "打开录制文件失败: "@ + detail@,
        reveal@ == "定位录制文件失败: "@ + detail@,
        cannot_open@ == "当前系统暂不支持打开录制文件"@,
        cannot_reveal@ == "当前系统暂不支持定位录制文件"@,
{
}

/// A file may be opened exactly where its path goes on from that of the recordings directory.
pub proof fn law_which_files_may_be_opened(
    file: Vec<Vec<u8>>,
    root: Vec<Vec<u8>>,
    result: Result<(), String>,
)
    requires
        call_ensures(validated_task_file, (&file, &root), result),
    ensures
        result is Ok <==> root@.len() <= file@.len() && forall|i: int|
            0 <= i < root@.len() ==> (#[trigger] root@[i])@ == file@[i]@,
        result matches Err(message) ==> message@
            == "任务文件不在当前录制目录中，已拒绝打开"@,
{
    if result is Ok {
        assert forall|i: int| 0 <= i < root@.len() implies (#[trigger] root@[i])@ == file@[i]@ by {
            assert(file@[i]@ == root@[i]@);
        }
    }
}

/// FFmpeg is shipped under the name of its system and processor, on Windows with an extension.
pub proof fn law_names_of_ffmpeg(arch: &str, windows: String, mac_os: String, linux: String)
    requires
        call_ensures(sidecar_name, (System::Windows, arch), windows),
        call_ensures(sidecar_name, (System::MacOs, arch), mac_os),
        call_ensures(sidecar_name, (System::Linux, arch), linux),
    ensures
        windows@ == "ffmpeg-"@ + arch@ + "-pc-windows-msvc.exe"@,
        mac_os@ == "ffmpeg-"@ + arch@ + "-apple-darwin"@,
        linux@ == "ffmpeg-"@ + arch@ + "-unknown-linux-gnu"@,
{
    reveal_strlit("-pc-windows-msvc");
    reveal_strlit(".exe");
    reveal_strlit("-pc-windows-msvc.exe");
    reveal_strlit("");
    assert("-pc-windows-msvc"@ + ".exe"@ =~= "-pc-windows-msvc.exe"@);
    assert(windows@ =~= "ffmpeg-"@ + arch@ + ("-pc-windows-msvc"@ + ".exe"@));
    assert(mac_os@ =~= "ffmpeg-"@ + arch@ + "-apple-darwin"@);
    assert(linux@ =~= "ffmpeg-"@ + arch@ + "-unknown-linux-gnu"@);
}

/// The places that are known are looked at in that order: beside the program, in its resources, and
/// in the sources.
pub proof fn law_where_ffmpeg_is_looked_for(
    beside_program: Option<Place>,
    in_resources: Option<Place>,
    in_sources: Option<Place>,
    places: Vec<Place>,
)
    requires
        call_ensures(ffmpeg_places, (beside_program, in_resources, in_sources), places),
    ensures
        places@ == (match beside_program {
            Some(place) => seq![place],
            None => Seq::empty(),
        }) + (match in_resources {
            Some(place) => seq![place],
            None => Seq::empty(),
        }) + (match in_sources {
            Some(place) => seq![place],
            None => Seq::empty(),
        }),
{
    reveal_with_fuel(known_places, 4);
    let all = seq![beside_program, in_resources, in_sources];
    assert(all.drop_last() =~= seq![beside_program, in_resources]);
    assert(all.drop_last().drop_last() =~= seq![beside_program]);
    assert(all.drop_last().drop_last().drop_last() =~= Seq::empty());
}

proof fn lemma_first_existing(places: Seq<Place>, from: int)
    requires
        0 <= from,
    ensures
        (forall|i: int| from <= i < places.len() ==> !(#[trigger] places[i]).exists)
            ==> first_existing(places, from) == "ffmpeg"@,
        forall|i: int|
            from <= i < places.len() && (#[trigger] places[i]).exists && (forall|j: int|
                from <= j < i ==> !(#[trigger] places[j]).exists) ==> first_existing(places, from)
                == places[i].path@,
    decreases places.len() - from,
{
    if from < places.len() && !places[from].exists {
        lemma_first_existing(places, from + 1);
    }
}

/// FFmpeg is the first of the places that exists; where none does, it is left to the search path.
pub proof fn law_which_ffmpeg_is_used(places: Vec<Place>, path: String)
    requires
        call_ensures(resolve_ffmpeg_path, (&places,), path),
    ensures
        (forall|i: int| 0 <= i < places@.len() ==> !(#[trigger] places@[i]).exists) ==> path@
            == "ffmpeg"@,
        forall|i: int|
            0 <= i < places@.len() && (#[trigger] places@[i]).exists && (forall|j: int|
                0 <= j < i ==> !(#[trigger] places@[j]).exists) ==> path@ == places@[i].path@,
{
    lemma_first_existing(places@, 0);
}

/// The two folders in which FFmpeg may be have their own names.
pub proof fn law_folders_of_ffmpeg()
    ensures
        RESOURCES_FOLDER@ == "resources"@,
        BINARIES_FOLDER@ == "binaries"@,
{
}

} // verus!
