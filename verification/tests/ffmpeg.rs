use std::path::{Component, Path};

use mondrian_media::ffmpeg_command::{
    admit_spawn, drop_child, kills_group, observe_exit, settle_output, spawn_failure, JobLook, LeaseFate, OwnerLoss, TryWait,
};
use mondrian_media::ffmpeg_runtime::{
    command_output, ffmpeg_log_level_from_env_value, init_failure, listing_contains_name,
    require_packaged_tool, required_command_muxers, required_decoder_labels,
    required_linked_decoders, verify_listing, verify_required_decoders, CommandEnd, RuntimeCheck,
};
use mondrian_media::ffmpeg_tools::{
    resolve_command, resolve_ffmpeg_tool_from, CommandChoice, DomainFailure, ErrorNode,
    FfmpegCommandError, FfmpegTool, FfmpegToolSource, PackagedCandidate, ResolvedFfmpegTool,
};
use mondrian_media::native_process_job::{
    assign_and_resume, check_resumed, check_spawn_deadline, primary_thread, JoinEvent, JoinPhase,
    JoinStep, NativeJobFault, ThreadEntry,
};
use mondrian_media::owner_lifetime::{
    abandon_io_error, dispose_canonical_or_abandon_opaque_panic_payload, PanicPayload,
};
use mondrian_media::path::{MediaPath, PathComponent};

#[test]
fn ffmpeg_log_level_defaults_to_fatal_for_product_preview() {
    assert_eq!(ffmpeg_log_level_from_env_value(None), 8);
    assert_eq!(ffmpeg_log_level_from_env_value(Some("error".to_owned())), 16);
    assert_eq!(ffmpeg_log_level_from_env_value(Some("debug".to_owned())), 48);
    assert_eq!(ffmpeg_log_level_from_env_value(Some("unknown".to_owned())), 8);
}

#[test]
fn log_levels_are_read_in_any_case() {
    for (name, level) in [
        ("QUIET", -8),
        ("Panic", 0),
        ("fatal", 8),
        ("WARNING", 24),
        ("info", 32),
        ("verbose", 40),
        ("Trace", 56),
    ] {
        assert_eq!(ffmpeg_log_level_from_env_value(Some(name.to_owned())), level);
    }
}

#[test]
fn command_listing_matches_exact_component_names() {
    let listing =
        " V..... libx264             libx264 H.264\n E mov,mp4,m4a            QuickTime / MOV";

    assert!(listing_contains_name(listing, "libx264"));
    assert!(listing_contains_name(listing, "mp4"));
    assert!(!listing_contains_name(listing, "x264"));
    assert!(!listing_contains_name(listing, "scale"));
}

#[test]
fn empty_names_stand_only_beside_commas() {
    assert!(!listing_contains_name("", ""));
    assert!(!listing_contains_name("a b", ""));
    assert!(listing_contains_name("a, b", ""));
    assert!(listing_contains_name(",b", ""));
    assert!(!listing_contains_name("a,b", "a,b"));
    assert!(!listing_contains_name("a b", "a b"));
}

#[test]
fn missing_components_are_named_in_order() {
    assert_eq!(
        verify_listing("muxers", "mp4,mov webm mxf gif", &required_command_muxers()),
        Err("packaged FFmpeg is missing required muxers: matroska, image2".to_owned())
    );
    assert_eq!(
        verify_listing(
            "muxers",
            "image2 gif mxf webm matroska mov mp4",
            &required_command_muxers()
        ),
        Ok(())
    );
}

#[test]
fn missing_decoders_are_named_for_people() {
    let names = required_linked_decoders();
    let labels = required_decoder_labels();
    assert_eq!(names.len(), labels.len());
    assert_eq!(labels[3], "DNxHD/DNxHR");
    let mut found = vec![true; names.len()];
    assert_eq!(verify_required_decoders(&found), Ok(()));
    found[0] = false;
    found[14] = false;
    assert_eq!(
        verify_required_decoders(&found),
        Err("linked FFmpeg runtime is missing required decoders: H.264, OpenEXR; install the documented Mondrian product runtime profile".to_owned())
    );
}

#[test]
fn packaged_runtimes_are_checked_step_by_step() {
    let mut step = RuntimeCheck::FfmpegVersion;
    let mut seen = Vec::new();
    loop {
        seen.push((step.tool().command_name(), step.argument()));
        let output = "ffmpeg version 7\n libx264 libx265 libaom-av1 prores_ks dnxhd gif aac \
            pcm_s16le pcm_s24le pcm_s32le pcm_f32le png exr dpx tiff scale setparams pan \
            anullsrc mp4 mov matroska webm mxf image2";
        match step.advance(output).expect("a complete runtime") {
            Some(next) => step = next,
            None => break,
        }
    }
    assert_eq!(
        seen,
        vec![
            ("ffmpeg", "-version"),
            ("ffprobe", "-version"),
            ("ffmpeg", "-encoders"),
            ("ffmpeg", "-filters"),
            ("ffmpeg", "-muxers"),
        ]
    );
    assert_eq!(
        RuntimeCheck::FfmpegVersion.advance("configuration: --enable-nonfree"),
        Err("packaged FFmpeg was built with --enable-nonfree and is not redistributable"
            .to_owned())
    );
    assert_eq!(
        RuntimeCheck::Filters.advance("scale pan anullsrc"),
        Err("packaged FFmpeg is missing required filters: setparams".to_owned())
    );
}

#[test]
fn release_checks_do_not_fall_back_to_the_search_path() {
    assert_eq!(require_packaged_tool(FfmpegToolSource::Packaged, FfmpegTool::Ffmpeg), Ok(()));
    assert_eq!(
        require_packaged_tool(FfmpegToolSource::SearchPath, FfmpegTool::Ffprobe),
        Err("packaged ffprobe is missing beside the Mondrian executable; release verification may not fall back to PATH".to_owned())
    );
    assert_eq!(init_failure("no codecs"), "ffmpeg init failed: no codecs");
}

#[test]
fn command_output_joins_both_streams() {
    let mut end = CommandEnd::Ended {
        success: true,
        status: "exit status: 0".to_owned(),
        stdout: b"out \xff".to_vec(),
        stderr: b" err".to_vec(),
    };
    assert_eq!(command_output("ffmpeg", &end), Ok("out \u{fffd} err".to_owned()));
    if let CommandEnd::Ended { success, status, .. } = &mut end {
        *success = false;
        *status = "exit status: 1".to_owned();
    }
    assert_eq!(
        command_output("ffmpeg", &end),
        Err("packaged media tool ffmpeg exited with exit status: 1: out \u{fffd} err".to_owned())
    );
    assert_eq!(
        command_output("ffmpeg", &CommandEnd::NotStarted { error: "not found".to_owned() }),
        Err("failed to start packaged media tool ffmpeg: not found".to_owned())
    );
}

/// A path as this system splits it.
fn media_path(text: &str) -> MediaPath {
    let path = Path::new(text);
    MediaPath {
        bytes: text.as_bytes().to_vec(),
        components: path
            .components()
            .map(|component| {
                let bytes = component.as_os_str().as_encoded_bytes().to_vec();
                match component {
                    Component::Prefix(_) => PathComponent::Prefix(bytes),
                    Component::RootDir => PathComponent::RootDir,
                    Component::CurDir => PathComponent::CurDir,
                    Component::ParentDir => PathComponent::ParentDir,
                    Component::Normal(_) => PathComponent::Normal(bytes),
                }
            })
            .collect(),
    }
}

fn candidate(is_file: bool) -> Option<PackagedCandidate> {
    Some(PackagedCandidate { path: media_path("/app/ffmpeg"), is_file })
}

#[test]
fn absent_toolchain_alone_resolves_the_development_command() {
    let choice = resolve_command::<u32, u32>(Ok(None), candidate(false), FfmpegTool::Ffmpeg);
    assert_eq!(
        choice,
        Ok(CommandChoice::Resolved(ResolvedFfmpegTool {
            path: media_path("ffmpeg"),
            source: FfmpegToolSource::SearchPath
        }))
    );
}

#[test]
fn admitted_command_preserves_exact_program_arguments_and_environment() {
    let command = (
        "/qualified/ffmpeg",
        vec!["-hide_banner", "-i", "source.mov"],
        vec![("MONDRIAN_QUALIFIED", "1")],
    );
    let choice = resolve_command::<_, u32>(Ok(Some(command.clone())), candidate(true), FfmpegTool::Ffmpeg);
    assert_eq!(choice, Ok(CommandChoice::Qualified(command)));
}

#[test]
fn rejected_toolchain_neither_resolves_nor_emits_a_command_and_retains_source() {
    let rejected = FfmpegCommandError::QualifiedToolchain {
        detail: "capsule namespace changed".to_owned(),
    };
    assert_eq!(
        rejected.message(),
        "qualified FFmpeg command admission rejected: capsule namespace changed"
    );
    let choice = resolve_command::<u32, _>(Err(rejected), candidate(true), FfmpegTool::Ffmpeg);
    assert_eq!(
        choice,
        Err(FfmpegCommandError::QualifiedToolchain {
            detail: "capsule namespace changed".to_owned()
        })
    );
    let refusal = ErrorNode { refusal: true, inner: None, source: None };
    let wrapped = ErrorNode {
        refusal: false,
        inner: Some(Box::new(refusal)),
        source: None,
    };
    assert!(FfmpegCommandError::is_error_cause(&wrapped));
    assert!(FfmpegCommandError::is_cause_of(&DomainFailure::Other(vec![
        ErrorNode { refusal: false, inner: None, source: None },
        ErrorNode { refusal: false, inner: None, source: Some(Box::new(wrapped)) },
    ])));
    let plain = ErrorNode { refusal: false, inner: None, source: None };
    assert!(!FfmpegCommandError::is_cause_of(&DomainFailure::Known(plain)));
}

#[test]
fn packaged_tool_beside_executable_wins_over_search_path() {
    assert_eq!(FfmpegTool::Ffmpeg.packaged_file_name(".exe"), "ffmpeg.exe");
    assert_eq!(
        resolve_ffmpeg_tool_from(candidate(true), FfmpegTool::Ffmpeg),
        ResolvedFfmpegTool {
            path: media_path("/app/ffmpeg"),
            source: FfmpegToolSource::Packaged
        }
    );
}

#[test]
fn development_resolution_falls_back_to_search_path() {
    assert_eq!(FfmpegTool::Ffmpeg.command_path().bytes, b"ffmpeg");
    assert_eq!(FfmpegTool::Ffprobe.command_path().bytes, b"ffprobe");
    for candidate in [None, candidate(false)] {
        assert_eq!(
            resolve_ffmpeg_tool_from(candidate, FfmpegTool::Ffprobe),
            ResolvedFfmpegTool {
                path: media_path("ffprobe"),
                source: FfmpegToolSource::SearchPath
            }
        );
    }
}

#[test]
fn authority_stays_with_running_processes() {
    assert_eq!(
        observe_exit(Ok(true), JobLook::Active(1)),
        (TryWait::Running, LeaseFate::Kept)
    );
    assert_eq!(
        observe_exit(Ok(true), JobLook::Active(0)),
        (TryWait::Exited, LeaseFate::Released)
    );
    assert_eq!(observe_exit(Ok(false), JobLook::NotAssigned), (TryWait::Running, LeaseFate::Kept));
    assert_eq!(observe_exit(Ok(true), JobLook::Unknown), (TryWait::Failed, LeaseFate::Kept));
    assert_eq!(observe_exit(Err(()), JobLook::NotAssigned), (TryWait::Failed, LeaseFate::Kept));
    assert_eq!(settle_output(true, true), Ok(LeaseFate::Released));
    assert_eq!(settle_output(true, false), Ok(LeaseFate::Abandoned));
    assert_eq!(settle_output(false, true), Err("native media child already consumed"));
    assert_eq!(
        drop_child(true, None),
        OwnerLoss { fate: LeaseFate::Released, terminate_group: false }
    );
    assert_eq!(
        drop_child(true, Some(JobLook::Active(2))),
        OwnerLoss { fate: LeaseFate::Abandoned, terminate_group: true }
    );
    assert!(kills_group(JobLook::Active(0)));
    assert!(!kills_group(JobLook::NotAssigned));
}

#[test]
fn suspended_processes_have_one_thread() {
    let entries = [
        ThreadEntry { owner: 7, thread: 70 },
        ThreadEntry { owner: 8, thread: 80 },
        ThreadEntry { owner: 8, thread: 81 },
    ];
    assert_eq!(primary_thread(&entries, 7), Ok(70));
    assert_eq!(primary_thread(&entries, 8), Err(NativeJobFault::MultipleThreads));
    assert_eq!(primary_thread(&entries, 9), Err(NativeJobFault::PrimaryThreadMissing));
    assert_eq!(check_resumed(1), Ok(()));
    assert_eq!(check_resumed(2), Err(NativeJobFault::SuspendCount));
    assert_eq!(check_spawn_deadline(5, None), Ok(()));
    assert_eq!(check_spawn_deadline(5, Some(6)), Ok(()));
    assert_eq!(check_spawn_deadline(6, Some(6)), Err(NativeJobFault::DeadlineExceeded));
    assert_eq!(
        NativeJobFault::DeadlineExceeded.text(""),
        "original native spawn deadline exceeded"
    );
}

#[test]
fn opaque_values_are_left_alone() {
    assert!(!dispose_canonical_or_abandon_opaque_panic_payload(PanicPayload::StaticText));
    assert!(!dispose_canonical_or_abandon_opaque_panic_payload(PanicPayload::OwnedText));
    assert!(dispose_canonical_or_abandon_opaque_panic_payload(PanicPayload::Opaque));
    assert!(abandon_io_error(true));
    assert!(!abandon_io_error(false));
}

#[test]
fn processes_join_their_group_before_they_run() {
    let threads = [ThreadEntry { owner: 7, thread: 70 }];
    let step = |phase, event| assign_and_resume(phase, event, 7, 5, Some(9));
    assert_eq!(step(JoinPhase::Created, JoinEvent::Ready), JoinStep::AssignProcess);
    assert_eq!(
        assign_and_resume(JoinPhase::Created, JoinEvent::Ready, 7, 10, Some(9)),
        JoinStep::Failed(NativeJobFault::DeadlineExceeded)
    );
    assert_eq!(step(JoinPhase::Assigning, JoinEvent::Assigned(Ok(()))), JoinStep::ListThreads);
    assert_eq!(
        step(JoinPhase::Listing, JoinEvent::Listed(Ok(&threads))),
        JoinStep::OpenThread { thread: 70 }
    );
    assert_eq!(step(JoinPhase::Opening, JoinEvent::Opened(Ok(()))), JoinStep::ResumeThread);
    assert_eq!(
        step(JoinPhase::Resuming, JoinEvent::Resumed { previous_suspend_count: 1 }),
        JoinStep::Complete
    );
    assert_eq!(
        step(JoinPhase::Assigning, JoinEvent::Assigned(Err(5))),
        JoinStep::Failed(NativeJobFault::System { code: 5 })
    );
    assert_eq!(
        step(JoinPhase::Resuming, JoinEvent::Resumed { previous_suspend_count: 2 }),
        JoinStep::Failed(NativeJobFault::SuspendCount)
    );
    assert_eq!(
        assign_and_resume(JoinPhase::Opening, JoinEvent::Opened(Ok(())), 7, 9, Some(9)),
        JoinStep::Failed(NativeJobFault::DeadlineExceeded)
    );
    assert_eq!(step(JoinPhase::Opening, JoinEvent::Assigned(Ok(()))), JoinStep::NotDue);
    assert_eq!(NativeJobFault::System { code: 5 }.text("access denied"), "access denied");
}

#[test]
fn only_admitted_commands_are_spawned() {
    assert_eq!(admit_spawn::<u32, &str>(Some(Ok(3)), Err("forbidden")), Ok(Some(3)));
    assert_eq!(admit_spawn::<u32, &str>(Some(Err("revoked")), Ok(())), Err("revoked"));
    assert_eq!(admit_spawn::<u32, &str>(None, Ok(())), Ok(None));
    assert_eq!(admit_spawn::<u32, &str>(None, Err("forbidden")), Err("forbidden"));
    assert_eq!(
        spawn_failure("late", "reaped"),
        "native process group admission failed: late; cleanup: reaped"
    );
}
