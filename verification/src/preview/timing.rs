//! Source times as timestamps of a stream, and what a decoder hands back.

use crate::text::{
    decimal, decimals_read_back, digits_count_by_their_places, digits_value, fixed_decimal,
    fixed_decimals_read_back, lower, push_decimal, push_fixed_decimal, push_signed_decimal,
    same_text, same_text_ignoring_case, signed_decimal, ten_to,
};
use vstd::prelude::*;
use vstd::string::*;

verus! {

/// A time base as text.
pub open spec fn base_text(num: int, den: int) -> Seq<char> {
    signed_decimal(num) + "/"@ + signed_decimal(den)
}

/// The failure of a source time before it is projected to a time base.
pub open spec fn target_fault(target: Seq<char>, negative: bool, num: int, den: int) -> Option<
    Seq<char>,
> {
    if negative {
        Some("negative media source target is invalid: "@ + target)
    } else if num <= 0 || den <= 0 {
        Some(
            "invalid FFmpeg time base "@ + base_text(num, den)
                + " for source target "@ + target,
        )
    } else {
        None
    }
}

/// Checks that a source time can be projected to a time base. `target` is its text.
pub fn check_source_target(target: &str, negative: bool, num: i64, den: i64) -> (r: Result<
    (),
    String,
>)
    ensures
        match (target_fault(target@, negative, num as int, den as int), r) {
            (Some(expected), Err(text)) => text@ == expected,
            (None, Ok(())) => true,
            _ => false,
        },
{
    if negative {
        let mut text = "negative media source target is invalid: ".to_owned();
        text.append(target);
        return Err(text);
    }
    if num <= 0 || den <= 0 {
        let mut text = "invalid FFmpeg time base ".to_owned();
        push_signed_decimal(&mut text, num);
        text.append("/");
        push_signed_decimal(&mut text, den);
        text.append(" for source target ");
        text.append(target);
        assert(text@ =~= target_fault(target@, negative, num as int, den as int)->0);
        return Err(text);
    }
    Ok(())
}

/// The ticks of a source time in a time base, from its projection: a failed one is told,
/// and one before the origin is refused.
pub open spec fn ticks_of(target: Seq<char>, projected: Result<i64, Seq<char>>) -> Result<
    i64,
    Seq<char>,
> {
    match projected {
        Err(error) => Err("source target cannot project to FFmpeg PTS: "@ + error),
        Ok(frame) => if frame < 0 {
            Err("media source target precedes origin: "@ + target)
        } else {
            Ok(frame)
        },
    }
}

/// A result with its text.
pub open spec fn with_text(r: Result<i64, String>) -> Result<i64, Seq<char>> {
    match r {
        Ok(value) => Ok(value),
        Err(text) => Err(text@),
    }
}

/// The ticks of a source time in a time base: the target and the base are checked before
/// the projection counts.
pub open spec fn sample_ticks(
    target: Seq<char>,
    negative: bool,
    num: int,
    den: int,
    projected: Result<i64, Seq<char>>,
) -> Result<i64, Seq<char>> {
    match target_fault(target, negative, num, den) {
        Some(fault) => Err(fault),
        None => ticks_of(target, projected),
    }
}

/// The ticks of a source time in a time base, from its projection.
pub fn source_sample_to_time_base_ticks(
    target: &str,
    negative: bool,
    num: i64,
    den: i64,
    projected: Result<i64, String>,
) -> (r: Result<i64, String>)
    ensures
        with_text(r) == sample_ticks(
            target@,
            negative,
            num as int,
            den as int,
            with_text(projected),
        ),
{
    match check_source_target(target, negative, num, den) {
        Err(text) => {
            return Err(text);
        },
        Ok(()) => {},
    }
    match projected {
        Err(error) => {
            let mut text = "source target cannot project to FFmpeg PTS: ".to_owned();
            text.append(error.as_str());
            Err(text)
        },
        Ok(frame) => {
            if frame < 0 {
                let mut text = "media source target precedes origin: ".to_owned();
                text.append(target);
                return Err(text);
            }
            Ok(frame)
        },
    }
}

/// The timestamp of a source time in a stream that starts at some timestamp.
pub open spec fn stream_pts(
    target: Seq<char>,
    ticks: Result<i64, Seq<char>>,
    num: int,
    den: int,
    start: int,
) -> Result<i64, Seq<char>> {
    match ticks {
        Err(error) => Err(error),
        Ok(relative) => if i64::MIN <= start + relative <= i64::MAX {
            Ok((start + relative) as i64)
        } else {
            Err(
                "source target PTS overflow: target="@ + target + " stream_time_base="@
                    + base_text(num, den) + " start_pts="@ + signed_decimal(start),
            )
        },
    }
}

/// The timestamp of a source time in a stream that starts at some timestamp, from the
/// projection of the time to the time base of the stream.
pub fn source_sample_to_stream_pts(
    target: &str,
    negative: bool,
    num: i32,
    den: i32,
    projected: Result<i64, String>,
    stream_start_pts: i64,
) -> (r: Result<i64, String>)
    ensures
        with_text(r) == stream_pts(
            target@,
            sample_ticks(target@, negative, num as int, den as int, with_text(projected)),
            num as int,
            den as int,
            stream_start_pts as int,
        ),
{
    let relative: i64 = match source_sample_to_time_base_ticks(
        target,
        negative,
        num as i64,
        den as i64,
        projected,
    ) {
        Err(text) => {
            return Err(text);
        },
        Ok(relative) => relative,
    };
    match stream_start_pts.checked_add(relative) {
        Some(pts) => Ok(pts),
        None => {
            let mut text = "source target PTS overflow: target=".to_owned();
            text.append(target);
            text.append(" stream_time_base=");
            push_signed_decimal(&mut text, num as i64);
            text.append("/");
            push_signed_decimal(&mut text, den as i64);
            text.append(" start_pts=");
            push_signed_decimal(&mut text, stream_start_pts);
            assert(text@ =~= "source target PTS overflow: target="@ + target@
                + " stream_time_base="@ + base_text(num as int, den as int) + " start_pts="@
                + signed_decimal(stream_start_pts as int));
            Err(text)
        },
    }
}

/// Checks that a duration can be projected to a time base, and hands on its projection.
pub fn duration_to_time_base_ticks(
    duration: &str,
    negative: bool,
    num: i64,
    den: i64,
    projected: Result<i64, String>,
) -> (r: Result<i64, String>)
    ensures
        if negative || num <= 0 || den <= 0 {
            r matches Err(text) && text@ == "invalid duration "@ + duration@
                + " or FFmpeg time base "@ + base_text(num as int, den as int)
        } else {
            match (projected, r) {
                (Ok(ticks), Ok(found)) => found == ticks,
                (Err(error), Err(text)) => text@ == "duration cannot project to FFmpeg ticks: "@
                    + error@,
                _ => false,
            }
        },
{
    if negative || num <= 0 || den <= 0 {
        let mut text = "invalid duration ".to_owned();
        text.append(duration);
        text.append(" or FFmpeg time base ");
        push_signed_decimal(&mut text, num);
        text.append("/");
        push_signed_decimal(&mut text, den);
        assert(text@ =~= "invalid duration "@ + duration@ + " or FFmpeg time base "@ + base_text(
            num as int,
            den as int,
        ));
        return Err(text);
    }
    match projected {
        Ok(ticks) => Ok(ticks),
        Err(error) => {
            let mut text = "duration cannot project to FFmpeg ticks: ".to_owned();
            text.append(error.as_str());
            Err(text)
        },
    }
}

/// The numerator of an exact seek time, over the denominator of the time base, from the
/// projection of a source time to the base.
pub fn seek_numerator(
    target: &str,
    negative: bool,
    num: i32,
    den: i32,
    projected: Result<i64, String>,
) -> (r: Result<i64, String>)
    ensures
        with_text(r) == (match sample_ticks(
            target@,
            negative,
            num as int,
            den as int,
            with_text(projected),
        ) {
            Err(error) => Err(error),
            Ok(relative) => if i64::MIN <= relative * num <= i64::MAX {
                Ok((relative * num) as i64)
            } else {
                Err("source seek time overflow: "@ + target@)
            },
        }),
{
    let relative: i64 = match source_sample_to_time_base_ticks(
        target,
        negative,
        num as i64,
        den as i64,
        projected,
    ) {
        Err(text) => {
            return Err(text);
        },
        Ok(relative) => relative,
    };
    match relative.checked_mul(num as i64) {
        Some(numerator) => Ok(numerator),
        None => {
            let mut text = "source seek time overflow: ".to_owned();
            text.append(target);
            Err(text)
        },
    }
}

/// A seek time of so many microseconds, in seconds with six decimals.
pub fn seek_time_text(micros: u64) -> (text: String)
    ensures
        text@ == decimal((micros / 1_000_000) as nat) + "."@ + fixed_decimal(
            (micros % 1_000_000) as nat,
            6,
        ),
        text@.len() > 7,
        text@[text@.len() - 7] == '.',
        digits_value(text@.take(text@.len() - 7) + text@.skip(text@.len() - 6)) == micros,
{
    let mut text = String::new();
    push_decimal(&mut text, micros / 1_000_000);
    text.append(".");
    push_fixed_decimal(&mut text, micros % 1_000_000, 6);
    assert(text@ =~= decimal((micros / 1_000_000) as nat) + "."@ + fixed_decimal(
        (micros % 1_000_000) as nat,
        6,
    ));
    proof {
        seek_times_read_back(micros);
        reveal_strlit(".");
        assert(text@.take(text@.len() - 7) =~= decimal((micros / 1_000_000) as nat));
        assert(text@.skip(text@.len() - 6) =~= fixed_decimal((micros % 1_000_000) as nat, 6));
    }
    text
}

/// What became of an exact seek time.
#[derive(Debug, PartialEq, Eq)]
pub enum SeekProjection {
    /// It is no time, for the reason given.
    Invalid(String),
    /// It has no microseconds, for the reason given.
    Unprojected(String),
    Micros(u64),
}

/// The seek time that FFmpeg is told, in seconds with six decimals.
pub fn ffmpeg_source_time_arg(projection: SeekProjection) -> (r: Result<String, String>)
    ensures
        match (projection, r) {
            (SeekProjection::Invalid(error), Err(text)) => text@ == "invalid source seek time: "@
                + error@,
            (SeekProjection::Unprojected(error), Err(text)) => text@
                == "source seek time cannot project to microseconds: "@ + error@,
            (SeekProjection::Micros(micros), Ok(text)) => text@ == decimal(
                (micros / 1_000_000) as nat,
            ) + "."@ + fixed_decimal((micros % 1_000_000) as nat, 6),
            _ => false,
        },
{
    match projection {
        SeekProjection::Invalid(error) => {
            let mut text = "invalid source seek time: ".to_owned();
            text.append(error.as_str());
            Err(text)
        },
        SeekProjection::Unprojected(error) => {
            let mut text = "source seek time cannot project to microseconds: ".to_owned();
            text.append(error.as_str());
            Err(text)
        },
        SeekProjection::Micros(micros) => Ok(seek_time_text(micros)),
    }
}

/// The value that stands for a missing timestamp.
pub const NO_TIMESTAMP: i64 = -0x8000_0000_0000_0000;

/// The timestamp of a decoded frame: its own, or else the best effort of the decoder,
/// unless that is missing too.
pub fn decoded_frame_pts(pts: Option<i64>, best_effort: i64) -> (r: Option<i64>)
    ensures
        r == (if pts is Some {
            pts
        } else if best_effort == i64::MIN {
            None
        } else {
            Some(best_effort)
        }),
        pts is Some ==> r == pts,
        pts is None && best_effort != i64::MIN ==> r == Some(best_effort),
        r is None ==> pts is None,
{
    match pts {
        Some(own) => Some(own),
        None => {
            if best_effort == NO_TIMESTAMP {
                None
            } else {
                Some(best_effort)
            }
        },
    }
}

/// What a decoder answers when it is asked for a frame.
#[derive(Debug, PartialEq, Eq)]
pub enum DecoderAnswer {
    Frame { pts: Option<i64>, best_effort: i64 },
    /// It wants more input.
    Again,
    Eof,
    /// Text of an error.
    Error(String),
}

/// What a decoder handed over.
#[derive(Debug, PartialEq, Eq)]
pub enum DecodedVideoReceive {
    /// A frame, with its timestamp.
    Frame { pts: Option<i64> },
    NeedInput,
    EndOfStream,
}

/// What a decoder handed over. An error is told with its text.
pub fn receive_decoded_video_frame(answer: DecoderAnswer) -> (r: Result<
    DecodedVideoReceive,
    String,
>)
    ensures
        match (answer, r) {
            (DecoderAnswer::Frame { pts, best_effort }, Ok(DecodedVideoReceive::Frame { pts: found }))
                => found == (if pts is Some {
                pts
            } else if best_effort == i64::MIN {
                None
            } else {
                Some(best_effort)
            }),
            (DecoderAnswer::Again, Ok(received)) => received is NeedInput,
            (DecoderAnswer::Eof, Ok(received)) => received is EndOfStream,
            (DecoderAnswer::Error(error), Err(text)) => text@
                == "FFmpeg receive_frame failed: "@ + error@,
            _ => false,
        },
{
    match answer {
        DecoderAnswer::Frame { pts, best_effort } => Ok(
            DecodedVideoReceive::Frame { pts: decoded_frame_pts(pts, best_effort) },
        ),
        DecoderAnswer::Again => Ok(DecodedVideoReceive::NeedInput),
        DecoderAnswer::Eof => Ok(DecodedVideoReceive::EndOfStream),
        DecoderAnswer::Error(error) => {
            let mut text = "FFmpeg receive_frame failed: ".to_owned();
            text.append(error.as_str());
            Err(text)
        },
    }
}

/// Whether a setting asks for traces: `1`, or `true` without regard to case.
pub fn trace_enabled(setting: Option<&str>) -> (r: bool)
    ensures
        r == (setting matches Some(value) && (value@ == "1"@ || lower(value@) == lower("true"@))),
{
    match setting {
        Some(value) => same_text(value, "1") || same_text_ignoring_case(value, "true"),
        None => false,
    }
}

/// A source time has ticks exactly where it is not negative, the time base is positive, and
/// its projection succeeded and is not negative; the ticks are then the projection.
pub proof fn ticks_are_the_projection(
    target: Seq<char>,
    negative: bool,
    num: int,
    den: int,
    projected: Result<i64, Seq<char>>,
)
    ensures
        sample_ticks(target, negative, num, den, projected) is Ok <==> !negative && num > 0 && den
            > 0 && projected is Ok && projected->Ok_0 >= 0,
        sample_ticks(target, negative, num, den, projected) is Ok ==> sample_ticks(
            target,
            negative,
            num,
            den,
            projected,
        ) == projected,
{
}

/// The timestamp of a source time lies after the start of the stream by its ticks. It fails
/// where there are none, or where 64 bits do not hold it.
pub proof fn timestamps_count_from_the_start(
    target: Seq<char>,
    ticks: Result<i64, Seq<char>>,
    num: int,
    den: int,
    start: i64,
)
    ensures
        stream_pts(target, ticks, num, den, start as int) matches Ok(pts) ==> ticks is Ok && pts
            - start == ticks->Ok_0,
        ticks is Ok && i64::MIN <= start + ticks->Ok_0 <= i64::MAX ==> stream_pts(
            target,
            ticks,
            num,
            den,
            start as int,
        ) is Ok,
        ticks is Err ==> stream_pts(target, ticks, num, den, start as int) == ticks,
{
}

/// A seek time can be read back: six digits stand behind the point, and all digits together
/// stand for the microseconds.
pub proof fn seek_times_read_back(micros: u64)
    ensures
        ({
            let whole = decimal((micros / 1_000_000) as nat);
            let part = fixed_decimal((micros % 1_000_000) as nat, 6);
            &&& whole.len() > 0
            &&& part.len() == 6
            &&& digits_value(whole + part) == micros
        }),
{
    let whole = decimal((micros / 1_000_000) as nat);
    let part = fixed_decimal((micros % 1_000_000) as nat, 6);
    decimals_read_back((micros / 1_000_000) as nat);
    assert(ten_to(6) == 1_000_000) by {
        reveal_with_fuel(ten_to, 7);
    }
    fixed_decimals_read_back((micros % 1_000_000) as nat, 6);
    digits_count_by_their_places(whole, part);
    let seconds = (micros / 1_000_000) as nat;
    assert(seconds * ten_to(6) == seconds * 1_000_000);
}

} // verus!
