use bilibili_recorder::clock::{Instant, LocalMoment, TimeOfDay};
use bilibili_recorder::paths::{
    action_error, ffmpeg_places, file_error, file_size, name_seen, recording_stem, recordings_dir,
    recordings_dir_error, resolve_ffmpeg_path, sanitize_filename_component,
    sidecar_name, unique_output_path, validated_task_file, FileAction, FileFault,
    OutputName, Place, RecordingsDir, System,
};
use bilibili_recorder::remux::{
    ffmpeg_ran, names_seen, output_renamed, output_seen, remux_command, remux_flv_to_mp4,
    source_deleted, source_seen, target_seen, NamesLook, RemuxJob, RemuxNames, RemuxRun,
    RemuxSource, RemuxStep, SourceLook,
};

fn source(preserve_source: bool) -> RemuxSource<String> {
    RemuxSource { path: "/r/a.flv".to_string(), preserve_source }
}

fn job(preserve_source: bool) -> RemuxJob<String> {
    RemuxJob {
        source: source(preserve_source),
        target: "/r/a.mp4".to_string(),
        temporary: "/r/a.part.mp4".to_string(),
    }
}

fn failed(step: RemuxStep<String>) -> String {
    match step {
        RemuxStep::Failed(error) => error,
        other => panic!("{:?}", other),
    }
}

fn discarded(step: RemuxStep<String>) -> String {
    match step {
        RemuxStep::Discard { temporary, error } => {
            assert_eq!(temporary, "/r/a.part.mp4");
            error
        }
        other => panic!("{:?}", other),
    }
}

fn components(path: &[&str]) -> Vec<Vec<u8>> {
    path.iter().map(|part| part.as_bytes().to_vec()).collect()
}

#[test]
fn sanitizes_windows_filename_components() {
    assert_eq!(
        sanitize_filename_component("主播:测试/直播?"),
        "主播_测试_直播_"
    );
    assert_eq!(sanitize_filename_component("CON"), "直播");
    assert_eq!(sanitize_filename_component("  ...  "), "直播");
}

#[test]
fn names_keep_no_forbidden_character() {
    assert_eq!(sanitize_filename_component("a<b>c:d\"e/f\\g|h?i*j\n\u{85}"), "a_b_c_d_e_f_g_h_i_j__");
    assert_eq!(sanitize_filename_component(" . a. b. . "), "a. b");
    assert_eq!(sanitize_filename_component(".\u{3000}x"), "\u{3000}x");
    assert_eq!(sanitize_filename_component("\u{3000}.x"), "x");
    assert_eq!(sanitize_filename_component(""), "直播");
    let long: String = "长".repeat(100);
    assert_eq!(sanitize_filename_component(&long), "长".repeat(80));
}

#[test]
fn names_of_devices_are_not_used() {
    for name in ["con", "Prn", "AUX", "nul", "com1", "COM9", "lpt1", "LpT5", " nul. "] {
        assert_eq!(sanitize_filename_component(name), "直播", "{}", name);
    }
    for name in ["com0", "COM10", "lpt", "conn", "nul.txt"] {
        assert_eq!(sanitize_filename_component(name), name);
    }
}

#[test]
fn taken_names_are_numbered() {
    let now = Instant { secs: 1_787_304_600, nanos: 7_000_000 };
    for (attempt, expected) in [(0, "a.flv"), (1, "a_1.flv"), (9_999, "a_9999.flv")] {
        match unique_output_path("a", "flv", attempt, now) {
            OutputName::Try { attempt: tried, name } => {
                assert_eq!(tried, attempt);
                assert_eq!(name, expected);
            }
            other => panic!("{:?}", other),
        }
    }
    match unique_output_path("a", "flv", 10_000, now) {
        OutputName::Use(name) => assert_eq!(name, "a_1787304600007.flv"),
        other => panic!("{:?}", other),
    }
}

#[test]
fn the_first_free_name_is_used() {
    let now = Instant { secs: 1_787_304_600, nanos: 7_000_000 };
    match name_seen("a", "flv", 0, true, now) {
        OutputName::Try { attempt, name } => {
            assert_eq!(attempt, 1);
            assert_eq!(name, "a_1.flv");
        }
        other => panic!("{:?}", other),
    }
    for (attempt, taken, expected) in [
        (0, false, "a.flv"),
        (1, false, "a_1.flv"),
        (9_999, true, "a_1787304600007.flv"),
        (10_000, false, "a_1787304600007.flv"),
        (u32::MAX, true, "a_1787304600007.flv"),
    ] {
        match name_seen("a", "flv", attempt, taken, now) {
            OutputName::Use(name) => assert_eq!(name, expected),
            other => panic!("{:?}", other),
        }
    }
}

#[test]
fn failures_with_files_are_told() {
    assert_eq!(recordings_dir_error("只读"), "创建录制目录失败: 只读");
    assert_eq!(file_error(FileFault::File("x".to_string())), "录制文件不存在: x");
    assert_eq!(file_error(FileFault::Root("x".to_string())), "无法访问录制目录: x");
    assert_eq!(action_error(FileAction::Open, Some("x")), "打开录制文件失败: x");
    assert_eq!(action_error(FileAction::Open, None), "当前系统暂不支持打开录制文件");
    assert_eq!(action_error(FileAction::Reveal, Some("x")), "定位录制文件失败: x");
    assert_eq!(action_error(FileAction::Reveal, None), "当前系统暂不支持定位录制文件");
}

#[test]
fn recordings_are_named_by_anchor_room_and_time() {
    let at = LocalMoment {
        year: 2026,
        month: 8,
        day: 21,
        time: TimeOfDay { secs: 34_200, nanos: 0 },
    };
    assert_eq!(recording_stem("主/播", "123", at), "主_播_123_20260821_093000");
}

#[test]
fn sizes_are_stored_as_signed_numbers() {
    assert_eq!(file_size(None), 0);
    assert_eq!(file_size(Some(1024)), 1024);
    assert_eq!(file_size(Some(i64::MAX as u64)), i64::MAX);
    assert_eq!(file_size(Some(1 << 63)), i64::MIN);
    assert_eq!(file_size(Some(u64::MAX)), -1);
}

#[test]
fn recordings_are_kept_where_the_settings_say() {
    let home = || Some("/home/a".to_string());
    match recordings_dir("/r", home(), home()) {
        Ok(RecordingsDir::Configured(path)) => assert_eq!(path, "/r"),
        other => panic!("{:?}", other),
    }
    match recordings_dir("", Some("C:\\a".to_string()), home()) {
        Ok(RecordingsDir::UnderHome { home, folder }) => assert_eq!((home.as_str(), folder.as_str()), ("C:\\a", "BilibiliRecordings")),
        other => panic!("{:?}", other),
    }
    match recordings_dir("", None, home()) {
        Ok(RecordingsDir::UnderHome { home, folder }) => assert_eq!((home.as_str(), folder.as_str()), ("/home/a", "BilibiliRecordings")),
        other => panic!("{:?}", other),
    }
    assert_eq!(recordings_dir("", None, None).unwrap_err(), "无法获取用户目录");
}

#[test]
fn only_files_among_the_recordings_are_opened() {
    let root = components(&["/", "r"]);
    assert!(validated_task_file(&components(&["/", "r", "a.flv"]), &root).is_ok());
    assert!(validated_task_file(&root, &root).is_ok());
    for path in [vec!["/", "rr", "a.flv"], vec!["/"], vec!["/", "x", "r"]] {
        assert_eq!(
            validated_task_file(&components(&path), &root).unwrap_err(),
            "任务文件不在当前录制目录中，已拒绝打开"
        );
    }
}

#[test]
fn ffmpeg_is_looked_for_beside_the_program_first() {
    let place = |path: &str, exists| Place { path: path.to_string(), exists };
    assert_eq!(resolve_ffmpeg_path(&vec![place("a", false), place("b", true), place("c", true)]), "b");
    assert_eq!(resolve_ffmpeg_path(&vec![place("a", false)]), "ffmpeg");
    let places = ffmpeg_places(Some(place("a", false)), None, Some(place("c", true)));
    assert_eq!(places.len(), 2);
    assert_eq!(places[0].path, "a");
    assert_eq!(resolve_ffmpeg_path(&places), "c");
    let places = ffmpeg_places(None, Some(place("b", true)), Some(place("c", true)));
    assert_eq!(resolve_ffmpeg_path(&places), "b");
    assert!(ffmpeg_places(None, None, None).is_empty());
    assert_eq!(sidecar_name(System::Windows, "x86_64"), "ffmpeg-x86_64-pc-windows-msvc.exe");
    assert_eq!(sidecar_name(System::MacOs, "aarch64"), "ffmpeg-aarch64-apple-darwin");
    assert_eq!(sidecar_name(System::Linux, "x86_64"), "ffmpeg-x86_64-unknown-linux-gnu");
}

#[test]
fn only_flv_files_are_converted() {
    for path in ["/r/a.mp4", "/r/a.FLV", "flv", ""] {
        assert_eq!(failed(remux_flv_to_mp4(path, true)), "文件不是 FLV 格式，无需转换");
    }
    match remux_flv_to_mp4("/r/a.flv", true) {
        RemuxStep::LookAtSource(source) => {
            assert_eq!(source.path, "/r/a.flv");
            assert!(source.preserve_source);
        }
        other => panic!("{:?}", other),
    }
    assert_eq!(failed(source_seen(source(true), SourceLook::Missing)), "原始 FLV 文件不存在");
    assert_eq!(failed(source_seen(source(true), SourceLook::NoParent)), "无法确定输出目录");
}

#[test]
fn converted_files_get_free_names() {
    let step = source_seen(source(true), SourceLook::Found { stem: Some("a".to_string()) });
    let names = match step {
        RemuxStep::TryNames { names, target_name, temporary_name } => {
            assert_eq!(target_name, "a.mp4");
            assert_eq!(temporary_name, "a.part.mp4");
            names
        }
        other => panic!("{:?}", other),
    };
    let names = match names_seen(names, NamesLook::Taken) {
        RemuxStep::TryNames { names, target_name, temporary_name } => {
            assert_eq!(target_name, "a_1.mp4");
            assert_eq!(temporary_name, "a_1.part.mp4");
            names
        }
        other => panic!("{:?}", other),
    };
    let free = NamesLook::Free { target: "/r/a_1.mp4".to_string(), temporary: "/r/t".to_string() };
    match names_seen(names, free) {
        RemuxStep::Run(job) => {
            let command = remux_command("/bin/ffmpeg", &job);
            assert_eq!(command.program, "/bin/ffmpeg");
            assert_eq!(
                command.args,
                ["-y", "-i", "/r/a.flv", "-c", "copy", "-f", "mp4", "/r/t"]
            );
            assert!(command.env.is_empty());
            assert_eq!(job.target, "/r/a_1.mp4");
        }
        other => panic!("{:?}", other),
    }
    match source_seen(source(true), SourceLook::Found { stem: None }) {
        RemuxStep::TryNames { target_name, .. } => assert_eq!(target_name, "recording.mp4"),
        other => panic!("{:?}", other),
    }
    let last = RemuxNames { source: source(true), stem: "a".to_string(), attempt: 9_999 };
    assert_eq!(failed(names_seen(last, NamesLook::Taken)), "无法生成不冲突的 MP4 文件名");
}

#[test]
fn failed_conversions_leave_no_temporary_file() {
    assert_eq!(failed(ffmpeg_ran(job(false), RemuxRun::NotFound)), "ffmpeg 未找到");
    let run = RemuxRun::NotStarted("拒绝".to_string());
    assert_eq!(failed(ffmpeg_ran(job(false), run)), "转换失败: 拒绝");
    let run = RemuxRun::Unsuccessful("错".repeat(201));
    assert_eq!(
        discarded(ffmpeg_ran(job(false), run)),
        format!("ffmpeg 转换失败: {}", "错".repeat(200))
    );
    for len in [None, Some(0), Some(u64::MAX)] {
        assert_eq!(discarded(output_seen(job(false), len)), "转换完成但未找到输出文件");
    }
    let error = Some("占用".to_string());
    assert_eq!(
        failed(output_renamed(job(false), error)),
        "MP4 已生成，但完成文件改名失败: 占用"
    );
}

#[test]
fn conversions_respect_the_source_retention_setting() {
    for preserve in [true, false] {
        let step = ffmpeg_ran(job(preserve), RemuxRun::Successful);
        let step = match step {
            RemuxStep::LookAtOutput(job) => output_seen(job, Some(5)),
            other => panic!("{:?}", other),
        };
        let step = match step {
            RemuxStep::Rename(job) => output_renamed(job, None),
            other => panic!("{:?}", other),
        };
        let step = match step {
            RemuxStep::LookAtTarget(job) => target_seen(job, Some(6)),
            other => panic!("{:?}", other),
        };
        let step = match step {
            RemuxStep::DeleteSource { job, size } => {
                assert!(!preserve);
                assert_eq!(job.source.path, "/r/a.flv");
                source_deleted(job, size, None)
            }
            step => {
                assert!(preserve);
                step
            }
        };
        match step {
            RemuxStep::Done { path, size, warning } => {
                assert_eq!(path, "/r/a.mp4");
                assert_eq!(size, 6);
                assert_eq!(warning, None);
            }
            other => panic!("{:?}", other),
        }
    }
    match source_deleted(job(false), 6, Some("占用".to_string())) {
        RemuxStep::Done { warning, .. } => {
            assert_eq!(warning.as_deref(), Some("MP4 已生成，但原始 FLV 未能删除: 占用"))
        }
        other => panic!("{:?}", other),
    }
}
