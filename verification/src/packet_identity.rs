//! Identity of the encoded packets of one video stream, for conservative reuse of
//! encoded essence.
//!
//! A capture states one physical fact: a stable file revision holds an exact ordered
//! payload of encoded packets. Whether a range may be reused, and whether codec and
//! container agree, is decided elsewhere.

use crate::text::{decimal, push_decimal};
use sha2::Digest;
use vstd::prelude::*;
use vstd::string::*;

verus! {

/// A SHA-256 computation that collects its message piece by piece.
#[verifier::external_body]
pub struct PacketHasher {
    hasher: sha2::Sha256,
}

/// The bytes that a SHA-256 computation has collected: all that it was fed, in order.
pub uninterp spec fn hashed_bytes(hasher: PacketHasher) -> Seq<u8>;

/// The SHA-256 digest of a message.
pub uninterp spec fn sha256(message: Seq<u8>) -> Seq<u8>;

/// Calls `sha2::Sha256::new`, and claims that nothing was fed yet.
#[verifier::external_body]
fn sha256_new() -> (hasher: PacketHasher)
    ensures
        hashed_bytes(hasher) == Seq::<u8>::empty(),
{
    PacketHasher { hasher: sha2::Sha256::new() }
}

/// Calls `sha2::Sha256::update`, and claims that it appends the bytes to those that
/// were fed before.
#[verifier::external_body]
fn sha256_update(hasher: &mut PacketHasher, bytes: &[u8])
    ensures
        hashed_bytes(*final(hasher)) == hashed_bytes(*old(hasher)) + bytes@,
{
    hasher.hasher.update(bytes)
}

/// Calls `sha2::Sha256::finalize`, and claims that it yields the digest of all that was
/// fed. A longer message would overflow the length in bits that SHA-256 appends.
#[verifier::external_body]
fn sha256_finalize(hasher: PacketHasher) -> (digest: [u8; 32])
    requires
        hashed_bytes(hasher).len() < 0x2000_0000_0000_0000,
    ensures
        digest@ == sha256(hashed_bytes(hasher)),
{
    hasher.hasher.finalize().into()
}

/// Stable identity of every encoded packet in one selected video stream.
#[derive(Debug, Clone, Copy, PartialEq, Eq)]
pub struct VideoPacketIdentity {
    /// Absolute container stream index that was inspected.
    pub stream_index: u32,
    /// Number of encoded video packets in the identity.
    pub packet_count: u64,
    /// Total encoded payload bytes across those packets.
    pub payload_bytes: u64,
    /// Framed SHA-256 digest over ordered packet payloads.
    pub payload_digest: [u8; 32],
    /// Whether the first encoded packet is marked as independently decodable.
    pub first_packet_is_key: bool,
}

/// Failure to capture trustworthy encoded-packet identity.
#[derive(Debug, Clone, Copy, PartialEq, Eq, Structural)]
pub enum VideoPacketIdentityError {
    /// The owning execution was canceled cooperatively.
    Canceled,
    /// The libraries could not be initialized.
    Initialize {
        /// The error code of the libraries.
        code: i32,
    },
    /// Source revision evidence was incomplete or changed during inspection.
    SourceRevisionChanged,
    /// The container could not be opened.
    Open {
        /// The error code of the libraries.
        code: i32,
    },
    /// Requested or primary video stream was unavailable.
    MissingVideoStream {
        /// Requested absolute stream index, or `None` for primary video.
        requested: Option<u32>,
    },
    /// The selected stream index does not fit into 32 bits.
    StreamIndexOverflow { index: usize },
    /// A packet had no accessible encoded payload.
    MissingPacketPayload {
        /// Selected absolute stream index.
        stream_index: u32,
        /// Zero-based packet index within the selected stream.
        packet_index: u64,
    },
    /// The payload bytes exceed 64 bits.
    PayloadSizeOverflow { stream_index: u32 },
    /// Selected video stream had no packets.
    EmptyVideoStream { stream_index: u32 },
}

/// The text of an optional stream index.
pub open spec fn requested_text(requested: Option<u32>) -> Seq<char> {
    match requested {
        Some(index) => "Some("@ + decimal(index as nat) + ")"@,
        None => "None"@,
    }
}

impl VideoPacketIdentityError {
    /// The text that tells of a failure on a source path. `cause` is how the libraries
    /// put their own error, where it is one.
    pub open spec fn spec_message(&self, path: Seq<char>, cause: Seq<char>) -> Seq<char> {
        match *self {
            VideoPacketIdentityError::Canceled => "video packet identity capture canceled"@,
            VideoPacketIdentityError::Initialize { code } => {
                "initialize FFmpeg for packet identity: "@ + cause
            },
            VideoPacketIdentityError::Open { code } => {
                "open packet identity source "@ + path + ": "@ + cause
            },
            VideoPacketIdentityError::SourceRevisionChanged => {
                "media revision changed or is incomplete while inspecting "@ + path
            },
            VideoPacketIdentityError::MissingVideoStream { requested } => {
                "video stream "@ + requested_text(requested) + " is unavailable in "@ + path
            },
            VideoPacketIdentityError::StreamIndexOverflow { index } => {
                "video stream index "@ + decimal(index as nat) + " exceeds u32"@
            },
            VideoPacketIdentityError::MissingPacketPayload { stream_index, packet_index } => {
                "video packet "@ + decimal(packet_index as nat) + " in stream "@ + decimal(
                    stream_index as nat,
                ) + " has no payload"@
            },
            VideoPacketIdentityError::PayloadSizeOverflow { stream_index } => {
                "video packet payload byte count overflowed for stream "@ + decimal(
                    stream_index as nat,
                )
            },
            VideoPacketIdentityError::EmptyVideoStream { stream_index } => {
                "video stream "@ + decimal(stream_index as nat) + " contains no encoded packets"@
            },
        }
    }

    /// The text that tells of this failure on a source path.
    pub fn message(&self, path: &str, cause: &str) -> (text: String)
        ensures
            text@ == self.spec_message(path@, cause@),
    {
        match *self {
            VideoPacketIdentityError::Canceled => {
                "video packet identity capture canceled".to_owned()
            },
            VideoPacketIdentityError::Initialize { .. } => {
                let mut text = "initialize FFmpeg for packet identity: ".to_owned();
                text.append(cause);
                text
            },
            VideoPacketIdentityError::Open { .. } => {
                let mut text = "open packet identity source ".to_owned();
                text.append(path);
                text.append(": ");
                text.append(cause);
                text
            },
            VideoPacketIdentityError::SourceRevisionChanged => {
                let mut text =
                    "media revision changed or is incomplete while inspecting ".to_owned();
                text.append(path);
                text
            },
            VideoPacketIdentityError::MissingVideoStream { requested } => {
                let mut text = "video stream ".to_owned();
                match requested {
                    Some(index) => {
                        text.append("Some(");
                        push_decimal(&mut text, index as u64);
                        text.append(")");
                    },
                    None => {
                        text.append("None");
                    },
                }
                text.append(" is unavailable in ");
                text.append(path);
                assert(text@ =~= self.spec_message(path@, cause@));
                text
            },
            VideoPacketIdentityError::StreamIndexOverflow { index } => {
                let mut text = "video stream index ".to_owned();
                push_decimal(&mut text, index as u64);
                text.append(" exceeds u32");
                text
            },
            VideoPacketIdentityError::MissingPacketPayload { stream_index, packet_index } => {
                let mut text = "video packet ".to_owned();
                push_decimal(&mut text, packet_index);
                text.append(" in stream ");
                push_decimal(&mut text, stream_index as u64);
                text.append(" has no payload");
                text
            },
            VideoPacketIdentityError::PayloadSizeOverflow { stream_index } => {
                let mut text = "video packet payload byte count overflowed for stream ".to_owned();
                push_decimal(&mut text, stream_index as u64);
                text
            },
            VideoPacketIdentityError::EmptyVideoStream { stream_index } => {
                let mut text = "video stream ".to_owned();
                push_decimal(&mut text, stream_index as u64);
                text.append(" contains no encoded packets");
                text
            },
        }
    }
}

/// What the choice of a stream reads of one stream of a container.
#[derive(Debug, Clone, Copy, PartialEq, Eq, Structural)]
pub struct ContainerStream {
    /// Absolute index in the container.
    pub index: usize,
    pub is_video: bool,
}

/// The first stream with an index.
pub open spec fn stream_at(streams: Seq<ContainerStream>, index: int) -> Option<ContainerStream>
    decreases streams.len(),
{
    if streams.len() == 0 {
        None
    } else if streams.first().index == index {
        Some(streams.first())
    } else {
        stream_at(streams.drop_first(), index)
    }
}

/// The stream that a capture inspects: the requested one, which has to exist and hold
/// video, or else the primary video stream.
pub open spec fn selected_stream(
    requested: Option<u32>,
    streams: Seq<ContainerStream>,
    primary: Option<usize>,
) -> Result<u32, VideoPacketIdentityError> {
    let selected = match requested {
        Some(index) => match stream_at(streams, index as int) {
            Some(stream) => if stream.is_video {
                Some(stream.index)
            } else {
                None
            },
            None => None,
        },
        None => primary,
    };
    match selected {
        None => Err(VideoPacketIdentityError::MissingVideoStream { requested }),
        Some(index) => if index > u32::MAX {
            Err(VideoPacketIdentityError::StreamIndexOverflow { index })
        } else {
            Ok(index as u32)
        },
    }
}

/// The stream that a capture inspects. `primary` is the container's primary video stream.
pub fn select_video_stream(
    requested: Option<u32>,
    streams: &[ContainerStream],
    primary: Option<usize>,
) -> (r: Result<u32, VideoPacketIdentityError>)
    ensures
        r == selected_stream(requested, streams@, primary),
{
    let selected: Option<usize> = match requested {
        Some(index) => {
            let len: usize = streams.len();
            let mut found: Option<ContainerStream> = None;
            let mut i: usize = 0;
            assert(streams@.skip(0) =~= streams@);
            while i < len && found.is_none()
                invariant
                    i <= len == streams@.len(),
                    match found {
                        None => stream_at(streams@, index as int) == stream_at(
                            streams@.skip(i as int),
                            index as int,
                        ),
                        Some(stream) => stream_at(streams@, index as int) == Some(stream),
                    },
                decreases len - i,
            {
                proof {
                    assert(streams@.skip(i as int).drop_first() =~= streams@.skip(i + 1));
                }
                if streams[i].index as u64 == index as u64 {
                    found = Some(streams[i]);
                }
                i += 1;
            }
            match found {
                Some(stream) => if stream.is_video {
                    Some(stream.index)
                } else {
                    None
                },
                None => None,
            }
        },
        None => primary,
    };
    match selected {
        None => Err(VideoPacketIdentityError::MissingVideoStream { requested }),
        Some(index) => {
            if index as u64 > 0xffff_ffff {
                Err(VideoPacketIdentityError::StreamIndexOverflow { index })
            } else {
                Ok(index as u32)
            }
        },
    }
}

/// The eight bytes of a packet length, the lowest first.
pub open spec fn length_bytes(length: u64) -> Seq<u8> {
    seq![
        (length % 256) as u8,
        (length / 0x100 % 256) as u8,
        (length / 0x1_0000 % 256) as u8,
        (length / 0x100_0000 % 256) as u8,
        (length / 0x1_0000_0000 % 256) as u8,
        (length / 0x100_0000_0000 % 256) as u8,
        (length / 0x1_0000_0000_0000 % 256) as u8,
        (length / 0x100_0000_0000_0000 % 256) as u8,
    ]
}

/// One packet in the digested message: its length, and its payload.
pub open spec fn frame(payload: Seq<u8>) -> Seq<u8> {
    length_bytes(payload.len() as u64) + payload
}

/// Packets in the digested message, in order.
pub open spec fn frames(payloads: Seq<Seq<u8>>) -> Seq<u8>
    decreases payloads.len(),
{
    if payloads.len() == 0 {
        seq![]
    } else {
        frame(payloads.first()) + frames(payloads.drop_first())
    }
}

/// The bytes that separate these digests from all others:
/// `mondrian.video-packet-identity.v1`.
pub open spec fn identity_domain() -> Seq<u8> {
    seq![
        109, 111, 110, 100, 114, 105, 97, 110, 46, 118, 105, 100, 101, 111, 45, 112, 97, 99, 107,
        101, 116, 45, 105, 100, 101, 110, 116, 105, 116, 121, 46, 118, 49,
    ]
}

/// The message whose digest identifies payloads.
pub open spec fn identity_message(payloads: Seq<Seq<u8>>) -> Seq<u8> {
    identity_domain() + frames(payloads)
}

/// Bytes of all payloads.
pub open spec fn total_bytes(payloads: Seq<Seq<u8>>) -> nat
    decreases payloads.len(),
{
    if payloads.len() == 0 {
        0
    } else {
        total_bytes(payloads.drop_last()) + payloads.last().len()
    }
}

/// Number of packets as far as 64 bits count.
pub open spec fn counted(payloads: Seq<Seq<u8>>) -> u64 {
    if payloads.len() <= u64::MAX {
        payloads.len() as u64
    } else {
        u64::MAX
    }
}

/// What a packet of the container brings to a capture.
pub enum PacketOutcome {
    /// The packet belongs to another stream.
    Skipped,
    Taken,
    Refused(VideoPacketIdentityError),
}

/// What one packet does after the given payloads were taken from a stream.
pub open spec fn packet_outcome(
    stream_index: u32,
    payloads: Seq<Seq<u8>>,
    canceled: bool,
    packet_stream: usize,
    data: Option<Seq<u8>>,
) -> PacketOutcome {
    if canceled {
        PacketOutcome::Refused(VideoPacketIdentityError::Canceled)
    } else if packet_stream != stream_index {
        PacketOutcome::Skipped
    } else {
        match data {
            None => PacketOutcome::Refused(
                VideoPacketIdentityError::MissingPacketPayload {
                    stream_index,
                    packet_index: counted(payloads),
                },
            ),
            Some(payload) => if total_bytes(payloads) + payload.len() > u64::MAX {
                PacketOutcome::Refused(VideoPacketIdentityError::PayloadSizeOverflow { stream_index })
            } else {
                PacketOutcome::Taken
            },
        }
    }
}

/// The failure of a capture after its last packet, if there is one.
pub open spec fn capture_failure(
    stream_index: u32,
    payloads: Seq<Seq<u8>>,
    canceled: bool,
    revision_kept: bool,
) -> Option<VideoPacketIdentityError> {
    if payloads.len() == 0 {
        Some(VideoPacketIdentityError::EmptyVideoStream { stream_index })
    } else if canceled {
        Some(VideoPacketIdentityError::Canceled)
    } else if !revision_kept {
        Some(VideoPacketIdentityError::SourceRevisionChanged)
    } else {
        None
    }
}

/// Whether an identity is that of the payloads of a stream.
pub open spec fn identifies(
    identity: VideoPacketIdentity,
    stream_index: u32,
    payloads: Seq<Seq<u8>>,
    first_is_key: bool,
) -> bool {
    &&& identity.stream_index == stream_index
    &&& identity.packet_count == counted(payloads)
    &&& identity.payload_bytes == total_bytes(payloads)
    &&& identity.payload_digest@ == sha256(identity_message(payloads))
    &&& identity.first_packet_is_key == first_is_key
}

/// Stops before any work where the capture was canceled.
pub fn admit_capture(canceled: bool) -> (r: Result<(), VideoPacketIdentityError>)
    ensures
        r == (if canceled {
            Err::<(), VideoPacketIdentityError>(VideoPacketIdentityError::Canceled)
        } else {
            Ok(())
        }),
{
    if canceled {
        Err(VideoPacketIdentityError::Canceled)
    } else {
        Ok(())
    }
}

/// Stops before the container is opened where its file revision is not fully known.
pub fn admit_source(authorizes_reuse: bool) -> (r: Result<(), VideoPacketIdentityError>)
    ensures
        r == (if authorizes_reuse {
            Ok(())
        } else {
            Err::<(), VideoPacketIdentityError>(VideoPacketIdentityError::SourceRevisionChanged)
        }),
{
    if authorizes_reuse {
        Ok(())
    } else {
        Err(VideoPacketIdentityError::SourceRevisionChanged)
    }
}

fn push_length(hasher: &mut PacketHasher, length: u64)
    ensures
        hashed_bytes(*final(hasher)) == hashed_bytes(*old(hasher)) + length_bytes(length),
{
    let bytes: [u8; 8] = [
        (length % 256) as u8,
        (length / 0x100 % 256) as u8,
        (length / 0x1_0000 % 256) as u8,
        (length / 0x100_0000 % 256) as u8,
        (length / 0x1_0000_0000 % 256) as u8,
        (length / 0x100_0000_0000 % 256) as u8,
        (length / 0x1_0000_0000_0000 % 256) as u8,
        (length / 0x100_0000_0000_0000 % 256) as u8,
    ];
    assert(bytes@ =~= length_bytes(length));
    sha256_update(hasher, bytes.as_slice());
}

/// A capture in progress: packets go in one by one, in the order of the container.
pub struct PacketIdentityCapture {
    stream_index: u32,
    packet_count: u64,
    payload_bytes: u64,
    first_packet_is_key: bool,
    hasher: PacketHasher,
    payloads: Ghost<Seq<Seq<u8>>>,
}

impl PacketIdentityCapture {
    /// The stream that is inspected.
    pub closed spec fn stream(&self) -> u32 {
        self.stream_index
    }

    /// The payloads that were taken so far.
    pub closed spec fn payloads(&self) -> Seq<Seq<u8>> {
        self.payloads@
    }

    /// Whether the first packet that was taken is marked as independently decodable.
    pub closed spec fn first_is_key(&self) -> bool {
        self.first_packet_is_key
    }

    /// The counters and the digested message agree with the payloads.
    #[verifier::type_invariant]
    closed spec fn consistent(self) -> bool {
        &&& self.packet_count == counted(self.payloads@)
        &&& self.payload_bytes == total_bytes(self.payloads@)
        &&& hashed_bytes(self.hasher) == identity_message(self.payloads@)
        &&& self.payloads@.len() == 0 ==> !self.first_packet_is_key
    }

    /// Starts to inspect a stream.
    pub fn begin(stream_index: u32) -> (capture: PacketIdentityCapture)
        ensures
            capture.stream() == stream_index,
            capture.payloads() == Seq::<Seq<u8>>::empty(),
            !capture.first_is_key(),
    {
        let mut hasher = sha256_new();
        let domain: [u8; 33] = [
            109, 111, 110, 100, 114, 105, 97, 110, 46, 118, 105, 100, 101, 111, 45, 112, 97, 99,
            107, 101, 116, 45, 105, 100, 101, 110, 116, 105, 116, 121, 46, 118, 49,
        ];
        assert(domain@ =~= identity_domain());
        sha256_update(&mut hasher, domain.as_slice());
        let ghost none = Seq::<Seq<u8>>::empty();
        assert(hashed_bytes(hasher) =~= identity_message(none));
        PacketIdentityCapture {
            stream_index,
            packet_count: 0,
            payload_bytes: 0,
            first_packet_is_key: false,
            hasher,
            payloads: Ghost(none),
        }
    }

    /// Takes one packet of the container: the capture fails, skips it, or adds its payload.
    pub fn observe(
        self,
        canceled: bool,
        packet_stream: usize,
        is_key: bool,
        data: Option<&[u8]>,
    ) -> (r: Result<PacketIdentityCapture, VideoPacketIdentityError>)
        ensures
            match (
                packet_outcome(
                    self.stream(),
                    self.payloads(),
                    canceled,
                    packet_stream,
                    match data {
                        Some(payload) => Some(payload@),
                        None => None,
                    },
                ),
                r,
            ) {
                (PacketOutcome::Refused(expected), Err(error)) => error == expected,
                (PacketOutcome::Skipped, Ok(next)) => next == self,
                (PacketOutcome::Taken, Ok(next)) => {
                    &&& next.stream() == self.stream()
                    &&& next.payloads() == self.payloads().push(data->0@)
                    &&& next.first_is_key() == if self.payloads().len() == 0 {
                        is_key
                    } else {
                        self.first_is_key()
                    }
                },
                _ => false,
            },
    {
        proof {
            use_type_invariant(&self);
        }
        if canceled {
            return Err(VideoPacketIdentityError::Canceled);
        }
        if packet_stream as u64 != self.stream_index as u64 {
            return Ok(self);
        }
        let PacketIdentityCapture {
            stream_index,
            packet_count,
            payload_bytes,
            first_packet_is_key,
            hasher,
            payloads,
        } = self;
        let mut hasher = hasher;
        match data {
            None => Err(
                VideoPacketIdentityError::MissingPacketPayload {
                    stream_index,
                    packet_index: packet_count,
                },
            ),
            Some(payload) => {
                let len: usize = payload.len();
                let packet_len: u64 = len as u64;
                match payload_bytes.checked_add(packet_len) {
                    None => Err(VideoPacketIdentityError::PayloadSizeOverflow { stream_index }),
                    Some(total) => {
                        push_length(&mut hasher, packet_len);
                        sha256_update(&mut hasher, payload);
                        let ghost more = payloads@.push(payload@);
                        proof {
                            lemma_frames_push(payloads@, payload@);
                            assert(more.drop_last() =~= payloads@);
                            assert(hashed_bytes(hasher) =~= identity_message(more));
                        }
                        Ok(
                            PacketIdentityCapture {
                                stream_index,
                                packet_count: packet_count.saturating_add(1),
                                payload_bytes: total,
                                first_packet_is_key: if packet_count == 0 {
                                    is_key
                                } else {
                                    first_packet_is_key
                                },
                                hasher,
                                payloads: Ghost(more),
                            },
                        )
                    },
                }
            },
        }
    }

    /// Ends a capture. `revision_kept` tells that the file revision is fully known and
    /// the one from before the packets were read.
    pub fn finish(
        self,
        canceled: bool,
        revision_kept: bool,
    ) -> (r: Result<VideoPacketIdentity, VideoPacketIdentityError>)
        requires
            identity_message(self.payloads()).len() < 0x2000_0000_0000_0000,
        ensures
            match (
                capture_failure(self.stream(), self.payloads(), canceled, revision_kept),
                r,
            ) {
                (Some(expected), Err(error)) => error == expected,
                (None, Ok(identity)) => identifies(
                    identity,
                    self.stream(),
                    self.payloads(),
                    self.first_is_key(),
                ),
                _ => false,
            },
    {
        proof {
            use_type_invariant(&self);
        }
        if self.packet_count == 0 {
            return Err(
                VideoPacketIdentityError::EmptyVideoStream { stream_index: self.stream_index },
            );
        }
        if canceled {
            return Err(VideoPacketIdentityError::Canceled);
        }
        if !revision_kept {
            return Err(VideoPacketIdentityError::SourceRevisionChanged);
        }
        Ok(
            VideoPacketIdentity {
                stream_index: self.stream_index,
                packet_count: self.packet_count,
                payload_bytes: self.payload_bytes,
                payload_digest: sha256_finalize(self.hasher),
                first_packet_is_key: self.first_packet_is_key,
            },
        )
    }
}

proof fn lemma_frames_push(payloads: Seq<Seq<u8>>, payload: Seq<u8>)
    ensures
        frames(payloads.push(payload)) == frames(payloads) + frame(payload),
    decreases payloads.len(),
{
    if payloads.len() == 0 {
        let one = payloads.push(payload);
        assert(one.drop_first() =~= Seq::<Seq<u8>>::empty());
        assert(frames(one.drop_first()) =~= Seq::<u8>::empty());
        assert(frames(one) =~= frames(payloads) + frame(payload));
    } else {
        let longer = payloads.push(payload);
        assert(longer.drop_first() =~= payloads.drop_first().push(payload));
        lemma_frames_push(payloads.drop_first(), payload);
        assert(frames(longer) =~= frames(payloads) + frame(payload));
    }
}

proof fn lemma_length_bytes(a: u64, b: u64)
    requires
        length_bytes(a) == length_bytes(b),
    ensures
        a == b,
{
    let x = length_bytes(a);
    let y = length_bytes(b);
    assert(x[0] == y[0] && x[1] == y[1] && x[2] == y[2] && x[3] == y[3]);
    assert(x[4] == y[4] && x[5] == y[5] && x[6] == y[6] && x[7] == y[7]);
    lemma_places(a);
    lemma_places(b);
}

proof fn lemma_places(a: u64)
    by (bit_vector)
    ensures
        a == a % 256 + 0x100 * (a / 0x100 % 256) + 0x1_0000 * (a / 0x1_0000 % 256) + 0x100_0000 * (a
            / 0x100_0000 % 256) + 0x1_0000_0000 * (a / 0x1_0000_0000 % 256) + 0x100_0000_0000 * (a
            / 0x100_0000_0000 % 256) + 0x1_0000_0000_0000 * (a / 0x1_0000_0000_0000 % 256)
            + 0x100_0000_0000_0000 * (a / 0x100_0000_0000_0000 % 256),
{
}

/// Different ordered payloads never share a digested message: where one packet ends and
/// the next begins is part of it.
pub proof fn framing_is_injective(a: Seq<Seq<u8>>, b: Seq<Seq<u8>>)
    requires
        forall|i: int| 0 <= i < a.len() ==> (#[trigger] a[i]).len() <= u64::MAX,
        forall|i: int| 0 <= i < b.len() ==> (#[trigger] b[i]).len() <= u64::MAX,
        identity_message(a) == identity_message(b),
    ensures
        a == b,
{
    let whole = identity_message(a);
    let start = identity_domain().len() as int;
    assert(frames(a) =~= whole.skip(start));
    assert(frames(b) =~= whole.skip(start));
    lemma_frames_injective(a, b);
}

proof fn lemma_frames_injective(a: Seq<Seq<u8>>, b: Seq<Seq<u8>>)
    requires
        forall|i: int| 0 <= i < a.len() ==> (#[trigger] a[i]).len() <= u64::MAX,
        forall|i: int| 0 <= i < b.len() ==> (#[trigger] b[i]).len() <= u64::MAX,
        frames(a) == frames(b),
    ensures
        a == b,
    decreases a.len(),
{
    if a.len() == 0 {
        assert(frames(b).len() == 0);
        assert(b.len() == 0);
        assert(a =~= b);
    } else if b.len() == 0 {
        assert(frames(a).len() == 0);
    } else {
        let whole = frames(a);
        let x = a.first();
        let y = b.first();
        assert(length_bytes(x.len() as u64) =~= whole.take(8));
        assert(length_bytes(y.len() as u64) =~= whole.take(8));
        lemma_length_bytes(x.len() as u64, y.len() as u64);
        let end = 8 + x.len() as int;
        assert(x =~= whole.subrange(8, end));
        assert(y =~= whole.subrange(8, end));
        assert(frames(a.drop_first()) =~= whole.skip(end));
        assert(frames(b.drop_first()) =~= whole.skip(end));
        assert forall|i: int| 0 <= i < a.drop_first().len() implies (#[trigger] a.drop_first()[i]).len()
            <= u64::MAX by {
            assert(a.drop_first()[i] == a[i + 1]);
        }
        assert forall|i: int| 0 <= i < b.drop_first().len() implies (#[trigger] b.drop_first()[i]).len()
            <= u64::MAX by {
            assert(b.drop_first()[i] == b[i + 1]);
        }
        lemma_frames_injective(a.drop_first(), b.drop_first());
        assert(a =~= seq![x] + a.drop_first());
        assert(b =~= seq![y] + b.drop_first());
    }
}

/// The length of a packet is told in eight bytes, the lowest first.
pub proof fn lengths_read_back(length: u64)
    ensures
        length_bytes(length).len() == 8,
        ({
            let b = length_bytes(length);
            length == b[0] + 0x100 * b[1] + 0x1_0000 * b[2] + 0x100_0000 * b[3] + 0x1_0000_0000
                * b[4] + 0x100_0000_0000 * b[5] + 0x1_0000_0000_0000 * b[6]
                + 0x100_0000_0000_0000 * b[7]
        }),
{
    lemma_places(length);
}

/// A digested message begins with the name of what is digested, in ASCII.
pub proof fn messages_begin_with_their_domain(payloads: Seq<Seq<u8>>, i: int)
    requires
        0 <= i < 33,
    ensures
        identity_message(payloads).len() >= 33,
        identity_message(payloads)[i] as int == "mondrian.video-packet-identity.v1"@[i] as int,
{
    reveal_strlit("mondrian.video-packet-identity.v1");
    assert(identity_domain().len() == 33);
    assert(identity_message(payloads)[i] == identity_domain()[i]);
}

/// Behind the domain each packet stands in its order, its payload behind its length, with
/// nothing in between.
pub proof fn packets_stand_in_order(payloads: Seq<Seq<u8>>, i: int)
    requires
        0 <= i < payloads.len(),
    ensures
        identity_message(payloads) == identity_message(payloads.take(i)) + length_bytes(
            payloads[i].len() as u64,
        ) + payloads[i] + frames(payloads.skip(i + 1)),
        frames(seq![]) == Seq::<u8>::empty(),
{
    let front = payloads.take(i);
    let rest = payloads.skip(i);
    assert(payloads =~= front + rest);
    lemma_frames_join(front, rest);
    assert(rest.drop_first() =~= payloads.skip(i + 1));
    assert(rest.first() == payloads[i]);
    assert(identity_message(payloads) =~= identity_message(front) + length_bytes(
        payloads[i].len() as u64,
    ) + payloads[i] + frames(payloads.skip(i + 1)));
}

proof fn lemma_frames_join(a: Seq<Seq<u8>>, b: Seq<Seq<u8>>)
    ensures
        frames(a + b) == frames(a) + frames(b),
    decreases a.len(),
{
    if a.len() == 0 {
        assert(a + b =~= b);
        assert(frames(a) + frames(b) =~= frames(b));
    } else {
        lemma_frames_join(a.drop_first(), b);
        assert((a + b).drop_first() =~= a.drop_first() + b);
        assert((a + b).first() == a.first());
        assert(frames(a + b) =~= frames(a) + frames(b));
    }
}

/// Taking one more packet adds its bytes and counts one.
pub proof fn packets_add_up(payloads: Seq<Seq<u8>>, payload: Seq<u8>)
    ensures
        total_bytes(payloads.push(payload)) == total_bytes(payloads) + payload.len(),
        payloads.len() < u64::MAX ==> counted(payloads.push(payload)) == counted(payloads) + 1,
        total_bytes(seq![]) == 0,
        counted(seq![]) == 0,
{
    assert(payloads.push(payload).drop_last() =~= payloads);
}

/// A requested stream is inspected only where the container has it, and it holds video.
/// Where none is requested, the primary video stream is. Its number has to fit in 32 bits.
pub proof fn requested_streams_are_inspected(
    requested: Option<u32>,
    streams: Seq<ContainerStream>,
    primary: Option<usize>,
)
    ensures
        selected_stream(requested, streams, primary) matches Ok(index) ==> {
            &&& requested is Some ==> requested == Some(index) && exists|i: int|
                0 <= i < streams.len() && (#[trigger] streams[i]).index == index
                    && streams[i].is_video
            &&& requested is None ==> primary is Some && primary->0 == index
        },
        requested is Some && (forall|i: int|
            0 <= i < streams.len() && (#[trigger] streams[i]).index == requested->0
                ==> streams[i].is_video) && (exists|i: int|
            0 <= i < streams.len() && (#[trigger] streams[i]).index == requested->0)
            ==> selected_stream(requested, streams, primary) is Ok,
        requested is None && primary is Some && primary->0 <= u32::MAX ==> selected_stream(
            requested,
            streams,
            primary,
        ) is Ok,
        requested is None && primary is None ==> selected_stream(requested, streams, primary)
            == Err::<u32, _>(VideoPacketIdentityError::MissingVideoStream { requested }),
{
    if requested is Some {
        lemma_stream_at(streams, requested->0 as int);
    }
}

proof fn lemma_stream_at(streams: Seq<ContainerStream>, index: int)
    ensures
        match stream_at(streams, index) {
            Some(stream) => stream.index == index && exists|i: int|
                0 <= i < streams.len() && #[trigger] streams[i] == stream,
            None => forall|i: int|
                0 <= i < streams.len() ==> (#[trigger] streams[i]).index != index,
        },
    decreases streams.len(),
{
    if streams.len() > 0 {
        let rest = streams.drop_first();
        if streams.first().index == index {
            assert(streams[0] == streams.first());
        } else {
            lemma_stream_at(rest, index);
            match stream_at(rest, index) {
                Some(stream) => {
                    let i = choose|i: int| 0 <= i < rest.len() && #[trigger] rest[i] == stream;
                    assert(streams[i + 1] == stream);
                },
                None => {
                    assert forall|i: int| 0 <= i < streams.len() implies (
                    #[trigger] streams[i]).index != index by {
                        if i > 0 {
                            assert(streams[i] == rest[i - 1]);
                        }
                    }
                },
            }
        }
    }
}

/// A packet is taken exactly where it belongs to the stream, has a payload, and its bytes can
/// still be counted. A packet of another stream changes nothing. Cancellation comes first.
pub proof fn packets_of_the_stream_are_taken(
    stream_index: u32,
    payloads: Seq<Seq<u8>>,
    canceled: bool,
    packet_stream: usize,
    data: Option<Seq<u8>>,
)
    ensures
        ({
            let outcome = packet_outcome(stream_index, payloads, canceled, packet_stream, data);
            &&& outcome is Taken <==> !canceled && packet_stream == stream_index && data is Some
                && total_bytes(payloads) + data->0.len() <= u64::MAX
            &&& outcome is Skipped <==> !canceled && packet_stream != stream_index
            &&& canceled ==> outcome == PacketOutcome::Refused(VideoPacketIdentityError::Canceled)
            &&& !canceled && packet_stream == stream_index && data is None ==> outcome
                == PacketOutcome::Refused(
                VideoPacketIdentityError::MissingPacketPayload {
                    stream_index,
                    packet_index: counted(payloads),
                },
            )
        }),
{
}

/// A capture that ends has an identity exactly where it took packets, was not canceled, and
/// the file is still the one that was opened.
pub proof fn changed_files_have_no_identity(
    stream_index: u32,
    payloads: Seq<Seq<u8>>,
    canceled: bool,
    revision_kept: bool,
)
    ensures
        capture_failure(stream_index, payloads, canceled, revision_kept) is None <==> payloads.len()
            > 0 && !canceled && revision_kept,
        payloads.len() > 0 && !canceled && !revision_kept ==> capture_failure(
            stream_index,
            payloads,
            canceled,
            revision_kept,
        ) == Some(VideoPacketIdentityError::SourceRevisionChanged),
        payloads.len() == 0 ==> capture_failure(stream_index, payloads, canceled, revision_kept)
            == Some(VideoPacketIdentityError::EmptyVideoStream { stream_index }),
{
}

/// An identity tells the stream, how many packets and bytes it has, whether it begins with a
/// key, and the digest of all of it: payloads that share an identity share all of these.
pub proof fn identities_tell_their_payloads(
    identity: VideoPacketIdentity,
    stream_index: u32,
    payloads: Seq<Seq<u8>>,
    first_is_key: bool,
)
    requires
        identifies(identity, stream_index, payloads, first_is_key),
    ensures
        identity.stream_index == stream_index,
        payloads.len() <= u64::MAX ==> identity.packet_count == payloads.len(),
        identity.payload_bytes == total_bytes(payloads),
        identity.first_packet_is_key == first_is_key,
        identity.payload_digest@ == sha256(identity_message(payloads)),
{
}

} // verus!
