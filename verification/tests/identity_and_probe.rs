use std::path::{Component, Path};

use mondrian_media::media_probe_process::{
    begin_worker_probe, bounded_worker_detail, check_worker_arguments, check_worker_exit,
    decode_worker_response, finish_worker_probe, trimmed_detail, worker_response,
    IsolatedMediaProbeError, IsolatedMediaProbeSnapshot, MediaProbeWorkerEnvelope,
    MediaProbeWorkerResult, SupervisorCause, WorkerArgumentFault, MEDIA_PROBE_PROTOCOL_VERSION,
    MEDIA_PROBE_WORKER_ARGUMENT,
};
use mondrian_media::packet_identity::{
    admit_capture, admit_source, select_video_stream, ContainerStream, PacketIdentityCapture,
    VideoPacketIdentityError,
};
use mondrian_media::path::{MediaPath, PathComponent};

#[test]
fn packet_identities_hash_framed_payloads() {
    let capture = PacketIdentityCapture::begin(4)
        .observe(false, 4, true, Some(b"abc"))
        .and_then(|capture| capture.observe(false, 1, false, None))
        .and_then(|capture| capture.observe(false, 4, false, Some(b"")))
        .expect("sound packets");
    let identity = capture.finish(false, true).expect("a stable source");
    assert_eq!(identity.stream_index, 4);
    assert_eq!(identity.packet_count, 2);
    assert_eq!(identity.payload_bytes, 3);
    assert!(identity.first_packet_is_key);
    let expected: [u8; 32] = [
        0x84, 0x91, 0xa7, 0x18, 0xc3, 0xd8, 0xf5, 0x60, 0x08, 0x83, 0x94,
        0xe0, 0x07, 0x0a, 0x68, 0x2c, 0xd1, 0x17, 0x3b, 0x99, 0xf2, 0x3d,
        0x79, 0x94, 0x01, 0x27, 0xb8, 0x0a, 0x98, 0x7e, 0x0b, 0x92,
    ];
    assert_eq!(identity.payload_digest, expected);
}

#[test]
fn packet_identities_depend_on_the_framing() {
    let digest = |packets: &[&[u8]]| {
        let mut capture = PacketIdentityCapture::begin(0);
        for packet in packets {
            capture = capture.observe(false, 0, true, Some(packet)).expect("a sound packet");
        }
        capture.finish(false, true).expect("a stable source").payload_digest
    };
    assert_ne!(digest(&[b"ab", b"c"]), digest(&[b"a", b"bc"]));
    assert_eq!(digest(&[b"ab", b"c"]), digest(&[b"ab", b"c"]));
}

#[test]
fn packet_identity_failures_are_told_apart() {
    let begin = || PacketIdentityCapture::begin(2);
    assert_eq!(
        begin().observe(true, 2, true, Some(b"a")).err(),
        Some(VideoPacketIdentityError::Canceled)
    );
    assert_eq!(
        begin().observe(false, 2, true, None).err(),
        Some(VideoPacketIdentityError::MissingPacketPayload { stream_index: 2, packet_index: 0 })
    );
    assert_eq!(
        begin().finish(false, true).err(),
        Some(VideoPacketIdentityError::EmptyVideoStream { stream_index: 2 })
    );
    let one = || begin().observe(false, 2, true, Some(b"a")).expect("a sound packet");
    assert_eq!(one().finish(true, true).err(), Some(VideoPacketIdentityError::Canceled));
    assert_eq!(
        one().finish(false, false).err(),
        Some(VideoPacketIdentityError::SourceRevisionChanged)
    );
    assert_eq!(admit_capture(true), Err(VideoPacketIdentityError::Canceled));
    assert_eq!(admit_capture(false), Ok(()));
    assert_eq!(admit_source(false), Err(VideoPacketIdentityError::SourceRevisionChanged));
    assert_eq!(admit_source(true), Ok(()));
}

#[test]
fn video_streams_are_selected_by_index_or_as_primary() {
    let streams = [
        ContainerStream { index: 0, is_video: false },
        ContainerStream { index: 3, is_video: true },
    ];
    assert_eq!(select_video_stream(Some(3), &streams, None), Ok(3));
    assert_eq!(select_video_stream(None, &streams, Some(3)), Ok(3));
    for requested in [Some(0), Some(7)] {
        assert_eq!(
            select_video_stream(requested, &streams, Some(3)),
            Err(VideoPacketIdentityError::MissingVideoStream { requested })
        );
    }
    assert_eq!(
        select_video_stream(None, &streams, Some(1 << 40)),
        Err(VideoPacketIdentityError::StreamIndexOverflow { index: 1 << 40 })
    );
}

#[test]
fn packet_identity_failures_have_texts() {
    for (error, text) in [
        (VideoPacketIdentityError::Canceled, "video packet identity capture canceled"),
        (
            VideoPacketIdentityError::Initialize { code: -1 },
            "initialize FFmpeg for packet identity: cause",
        ),
        (
            VideoPacketIdentityError::SourceRevisionChanged,
            "media revision changed or is incomplete while inspecting a.mov",
        ),
        (
            VideoPacketIdentityError::Open { code: -2 },
            "open packet identity source a.mov: cause",
        ),
        (
            VideoPacketIdentityError::MissingVideoStream { requested: Some(2) },
            "video stream Some(2) is unavailable in a.mov",
        ),
        (
            VideoPacketIdentityError::MissingVideoStream { requested: None },
            "video stream None is unavailable in a.mov",
        ),
        (
            VideoPacketIdentityError::StreamIndexOverflow { index: 9 },
            "video stream index 9 exceeds u32",
        ),
        (
            VideoPacketIdentityError::MissingPacketPayload { stream_index: 1, packet_index: 5 },
            "video packet 5 in stream 1 has no payload",
        ),
        (
            VideoPacketIdentityError::PayloadSizeOverflow { stream_index: 1 },
            "video packet payload byte count overflowed for stream 1",
        ),
        (
            VideoPacketIdentityError::EmptyVideoStream { stream_index: 1 },
            "video stream 1 contains no encoded packets",
        ),
    ] {
        assert_eq!(error.message("a.mov", "cause"), text);
    }
}

/// A path as this system splits it.
fn media_path(text: &str) -> MediaPath {
    let path = Path::new(text);
    MediaPath {
        bytes: text.as_bytes().to_vec(),
        components: path
            .components()
            .map(|component| {
                let bytes = component.as_os_str().as_encoded_bytes().to_vec();
                match component {
                    Component::Prefix(_) => PathComponent::Prefix(bytes),
                    Component::RootDir => PathComponent::RootDir,
                    Component::CurDir => PathComponent::CurDir,
                    Component::ParentDir => PathComponent::ParentDir,
                    Component::Normal(_) => PathComponent::Normal(bytes),
                }
            })
            .collect(),
    }
}

fn probe_fixture() -> IsolatedMediaProbeSnapshot<u64, Vec<u8>> {
    IsolatedMediaProbeSnapshot {
        canonical_path: media_path("test.mov"),
        source_fingerprint: 0,
        probe: b"test".to_vec(),
    }
}

#[test]
fn protocol_round_trips_one_complete_probe() {
    let expected = probe_fixture();
    let response = worker_response(Ok(expected.clone()));
    assert_eq!(response.schema_version, MEDIA_PROBE_PROTOCOL_VERSION);

    let observed = decode_worker_response(Ok(response)).expect("decode response");

    assert_eq!(observed, expected);
}

#[test]
fn protocol_preserves_probe_failure_without_fabricating_snapshot() {
    let response: MediaProbeWorkerEnvelope<u32> =
        worker_response(Err("unsupported source".to_owned()));

    let error =
        decode_worker_response(Ok(response)).expect_err("probe failure must remain terminal");

    assert!(matches!(
        error,
        IsolatedMediaProbeError::ProbeFailed { detail } if detail == "unsupported source"
    ));
}

#[test]
fn protocol_rejects_another_schema_and_trailing_payload() {
    let wrong_schema = MediaProbeWorkerEnvelope {
        schema_version: MEDIA_PROBE_PROTOCOL_VERSION + 1,
        result: MediaProbeWorkerResult::Completed { prepared: probe_fixture() },
    };
    let error = decode_worker_response(Ok(wrong_schema)).expect_err("another schema");
    assert_eq!(
        error.message(),
        "invalid media Probe Helper response: expected schema 1, observed 2"
    );

    let trailing: Result<MediaProbeWorkerEnvelope<u32>, String> =
        Err("trailing characters at line 1 column 3".to_owned());
    assert!(matches!(
        decode_worker_response(trailing),
        Err(IsolatedMediaProbeError::Protocol { detail })
            if detail == "response JSON is invalid: trailing characters at line 1 column 3"
    ));
}

#[test]
fn failing_helpers_report_their_last_words() {
    assert_eq!(bounded_worker_detail(b"  broken \xff pipe \n"), "broken \u{fffd} pipe");
    assert_eq!(bounded_worker_detail(b" \n"), "no stderr detail");
    assert_eq!(trimmed_detail("\u{3000}a b\t"), "a b");
    assert_eq!(check_worker_exit(true, "exit status: 0".to_owned(), b"x"), Ok(()));
    let error = check_worker_exit(false, "exit status: 3".to_owned(), b"x")
        .expect_err("an unsuccessful exit");
    assert_eq!(
        error.message(),
        "media Probe Helper exited unsuccessfully (exit status: 3): x"
    );
}

#[test]
fn helper_errors_are_classified() {
    let supervised = |cause| IsolatedMediaProbeError::Supervisor { cause, text: "why".to_owned() };
    assert!(supervised(SupervisorCause::Canceled).is_canceled());
    assert!(!supervised(SupervisorCause::DeadlineExceeded).is_canceled());
    assert!(supervised(SupervisorCause::DeadlineExceeded).is_deadline_exceeded());
    assert!(!supervised(SupervisorCause::Other).is_deadline_exceeded());
    assert_eq!(supervised(SupervisorCause::Other).message(), "why");
    let rejected = IsolatedMediaProbeError::SnapshotRejected { detail: "rate".to_owned() };
    assert!(!rejected.is_canceled() && !rejected.is_deadline_exceeded());
    assert_eq!(rejected.message(), "media Probe Helper snapshot was rejected: rate");
    let failed = IsolatedMediaProbeError::ProbeFailed { detail: "codec".to_owned() };
    assert_eq!(failed.message(), "media Probe Helper rejected the source: codec");
}

#[test]
fn helpers_take_their_mode_and_one_path() {
    let mode = Some(MEDIA_PROBE_WORKER_ARGUMENT);
    assert_eq!(check_worker_arguments(mode, 2), Ok(()));
    assert_eq!(check_worker_arguments(mode, 1), Err(WorkerArgumentFault::MissingPath));
    assert_eq!(check_worker_arguments(mode, 3), Err(WorkerArgumentFault::Unexpected));
    assert_eq!(check_worker_arguments(Some("--help"), 2), Err(WorkerArgumentFault::Mode));
    assert_eq!(check_worker_arguments(None, 0), Err(WorkerArgumentFault::Mode));
    assert_eq!(
        WorkerArgumentFault::MissingPath.text(),
        "internal media Probe Helper requires one source path"
    );
}

#[test]
fn sources_must_not_change_while_they_are_probed() {
    assert_eq!(begin_worker_probe(true), Ok(()));
    assert!(begin_worker_probe(false).is_err());
    let snapshot = finish_worker_probe(media_path("a.mov"), 7u64, "probe", true, true)
        .expect("an unchanged source");
    assert_eq!(snapshot.source_fingerprint, 7);
    assert_eq!(
        finish_worker_probe(media_path("a.mov"), 7u64, "probe", true, false),
        Err("media source changed while the isolated probe was running")
    );
    assert!(finish_worker_probe(media_path("a.mov"), 7u64, "probe", false, true).is_err());
}
