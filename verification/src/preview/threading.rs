//! Threads of preview decode: how many workers and decoder threads a machine gets.

use crate::preview::vocabulary::PreviewDecodeAccessMode;
use crate::text::{lower, parse_unsigned, same_text_ignoring_case, unsigned_of};
use vstd::prelude::*;
use vstd::string::*;

verus! {

/// Threading of a software decoder.
#[derive(Debug, Clone, Copy, PartialEq, Eq, Structural, Default)]
pub enum PreviewDecodeThreadingKind {
    /// None.
    Absent,
    /// By frames.
    #[default]
    Frame,
    /// By slices.
    Slice,
}

impl PreviewDecodeThreadingKind {
    /// Stable threading kind name for telemetry.
    pub open spec fn spec_name(self) -> Seq<char> {
        match self {
            PreviewDecodeThreadingKind::Absent => "None"@,
            PreviewDecodeThreadingKind::Frame => "Frame"@,
            PreviewDecodeThreadingKind::Slice => "Slice"@,
        }
    }

    /// Stable threading kind name for telemetry.
    pub fn as_str(self) -> (name: &'static str)
        ensures
            name@ == self.spec_name(),
    {
        match self {
            PreviewDecodeThreadingKind::Absent => "None",
            PreviewDecodeThreadingKind::Frame => "Frame",
            PreviewDecodeThreadingKind::Slice => "Slice",
        }
    }
}

/// The threading that a setting asks for, without regard to ASCII case.
pub open spec fn threading_setting(value: Seq<char>) -> Option<PreviewDecodeThreadingKind> {
    if lower(value) == lower("none"@) || lower(value) == lower("off"@) || lower(value) == lower(
        "false"@,
    ) || lower(value) == lower("0"@) {
        Some(PreviewDecodeThreadingKind::Absent)
    } else if lower(value) == lower("frame"@) || lower(value) == lower("frames"@) {
        Some(PreviewDecodeThreadingKind::Frame)
    } else if lower(value) == lower("slice"@) || lower(value) == lower("slices"@) {
        Some(PreviewDecodeThreadingKind::Slice)
    } else {
        None
    }
}

impl PreviewDecodeThreadingKind {
    /// The threading that a setting asks for.
    pub fn from_env(value: &str) -> (r: Option<PreviewDecodeThreadingKind>)
        ensures
            r == threading_setting(value@),
    {
        if same_text_ignoring_case(value, "none") || same_text_ignoring_case(value, "off")
            || same_text_ignoring_case(value, "false") || same_text_ignoring_case(value, "0") {
            Some(PreviewDecodeThreadingKind::Absent)
        } else if same_text_ignoring_case(value, "frame") || same_text_ignoring_case(
            value,
            "frames",
        ) {
            Some(PreviewDecodeThreadingKind::Frame)
        } else if same_text_ignoring_case(value, "slice") || same_text_ignoring_case(
            value,
            "slices",
        ) {
            Some(PreviewDecodeThreadingKind::Slice)
        } else {
            None
        }
    }
}

/// CPU budget of preview decode: workers and decoder threads together, so that they never
/// multiply beyond what the machine has.
#[derive(Debug, Clone, Copy, PartialEq, Eq, Structural)]
pub struct PreviewDecodeCpuBudget {
    /// Hardware threads of the process.
    pub available_parallelism: usize,
    /// Threads that are left to interaction, rendering and sound.
    pub reserved_interactive_threads: usize,
    pub preview_worker_count: usize,
    /// Decoder threads of a worker.
    pub decoder_threads_per_worker: usize,
    /// The most decoder threads of a worker.
    pub max_decoder_threads_per_worker: usize,
}

/// Threads that are left to interaction.
pub open spec fn reserved_threads(available: int) -> int {
    if available >= 8 {
        2
    } else if available >= 3 {
        1
    } else {
        0
    }
}

/// Workers of a machine.
pub open spec fn worker_count(available: int) -> int {
    if available >= 12 {
        3
    } else if available >= 6 {
        2
    } else {
        1
    }
}

/// The CPU budget of a machine.
pub open spec fn budget_of(parallelism: usize) -> PreviewDecodeCpuBudget {
    let available = if parallelism < 1 {
        1int
    } else {
        parallelism as int
    };
    let usable = available - reserved_threads(available);
    let most = if usable > 12 {
        12
    } else {
        usable
    };
    let share = usable / worker_count(available);
    PreviewDecodeCpuBudget {
        available_parallelism: available as usize,
        reserved_interactive_threads: reserved_threads(available) as usize,
        preview_worker_count: worker_count(available) as usize,
        decoder_threads_per_worker: if share > most {
            most as usize
        } else {
            share as usize
        },
        max_decoder_threads_per_worker: most as usize,
    }
}

impl PreviewDecodeCpuBudget {
    /// The CPU budget of a machine with so many hardware threads.
    pub fn for_available_parallelism(available_parallelism: usize) -> (r: PreviewDecodeCpuBudget)
        ensures
            r == budget_of(available_parallelism),
    {
        let available: usize = if available_parallelism < 1 {
            1
        } else {
            available_parallelism
        };
        let reserved: usize = if available >= 8 {
            2
        } else if available >= 3 {
            1
        } else {
            0
        };
        let usable: usize = available - reserved;
        let workers: usize = if available >= 12 {
            3
        } else if available >= 6 {
            2
        } else {
            1
        };
        let most: usize = if usable > 12 {
            12
        } else {
            usable
        };
        let share: usize = usable / workers;
        PreviewDecodeCpuBudget {
            available_parallelism: available,
            reserved_interactive_threads: reserved,
            preview_worker_count: workers,
            decoder_threads_per_worker: if share > most {
                most
            } else {
                share
            },
            max_decoder_threads_per_worker: most,
        }
    }
}

/// The budget gives every worker a thread, and never more threads to all workers together
/// than the machine has beside those for interaction.
pub proof fn budgets_fit_the_machine(parallelism: usize)
    ensures
        ({
            let budget = budget_of(parallelism);
            &&& budget.preview_worker_count >= 1
            &&& 1 <= budget.decoder_threads_per_worker <= budget.max_decoder_threads_per_worker
                <= 12
            &&& budget.preview_worker_count * budget.decoder_threads_per_worker
                + budget.reserved_interactive_threads <= budget.available_parallelism
        }),
{
    let available = if parallelism < 1 {
        1int
    } else {
        parallelism as int
    };
    let usable = available - reserved_threads(available);
    let workers = worker_count(available);
    let budget = budget_of(parallelism);
    assert(workers * budget.decoder_threads_per_worker <= workers * (usable / workers))
        by (nonlinear_arith)
        requires
            workers > 0,
            budget.decoder_threads_per_worker <= usable / workers,
    ;
    assert(workers * (usable / workers) <= usable) by (nonlinear_arith)
        requires
            workers > 0,
            usable >= 0,
    ;
}

/// Threading of one decoder.
#[derive(Debug, Clone, Copy, PartialEq, Eq, Structural)]
pub struct PreviewDecodeThreadingConfig {
    pub kind: PreviewDecodeThreadingKind,
    pub count: usize,
}

/// Threading of a software decoder where nothing is set: by frames, which does not depend
/// on how many slices a picture has.
pub fn default_threading_kind_for_software_decode(
    access_mode: PreviewDecodeAccessMode,
    decode_pixels: u64,
) -> (r: PreviewDecodeThreadingKind)
    ensures
        r is Frame,
{
    PreviewDecodeThreadingKind::Frame
}

/// Decoder threads of an access mode where nothing is set: playback has the decoders for
/// itself.
pub open spec fn default_threads(
    budget: PreviewDecodeCpuBudget,
    access_mode: PreviewDecodeAccessMode,
) -> usize {
    if access_mode is PlaybackCursor {
        budget.max_decoder_threads_per_worker
    } else {
        budget.decoder_threads_per_worker
    }
}

/// Decoder threads of an access mode where nothing is set.
pub fn default_decoder_threads_for_access_mode(
    budget: PreviewDecodeCpuBudget,
    access_mode: PreviewDecodeAccessMode,
) -> (r: usize)
    ensures
        r == default_threads(budget, access_mode),
{
    if access_mode == PreviewDecodeAccessMode::PlaybackCursor {
        budget.max_decoder_threads_per_worker
    } else {
        budget.decoder_threads_per_worker
    }
}

/// The thread count that settings and a budget give: a number is brought within the
/// budget, anything else does not count.
pub open spec fn configured_threads(
    setting: Option<Seq<char>>,
    budget: PreviewDecodeCpuBudget,
    access_mode: PreviewDecodeAccessMode,
) -> int {
    let number = match setting {
        Some(text) => unsigned_of(text),
        None => None,
    };
    match number {
        Some(value) => if value > usize::MAX {
            default_threads(budget, access_mode) as int
        } else if value < 1 {
            1
        } else if value > budget.max_decoder_threads_per_worker {
            budget.max_decoder_threads_per_worker as int
        } else {
            value as int
        },
        None => default_threads(budget, access_mode) as int,
    }
}

/// A setting as text.
pub open spec fn setting_text(setting: Option<&str>) -> Option<Seq<char>> {
    match setting {
        Some(value) => Some(value@),
        None => None,
    }
}

/// Threading of a decoder, from the settings for it and the budget of the machine: by
/// frames, unless a setting says otherwise.
pub open spec fn configured_threading(
    kind_setting: Option<Seq<char>>,
    count_setting: Option<Seq<char>>,
    budget: PreviewDecodeCpuBudget,
    access_mode: PreviewDecodeAccessMode,
) -> PreviewDecodeThreadingConfig {
    PreviewDecodeThreadingConfig {
        kind: match kind_setting {
            Some(value) => match threading_setting(value) {
                Some(kind) => kind,
                None => PreviewDecodeThreadingKind::Frame,
            },
            None => PreviewDecodeThreadingKind::Frame,
        },
        count: configured_threads(count_setting, budget, access_mode) as usize,
    }
}

/// Whatever the settings say, a decoder gets at least one thread, and no more than the
/// budget of the machine allows a worker.
pub proof fn settings_stay_within_the_budget(
    kind_setting: Option<Seq<char>>,
    count_setting: Option<Seq<char>>,
    parallelism: usize,
    access_mode: PreviewDecodeAccessMode,
)
    ensures
        ({
            let budget = budget_of(parallelism);
            let config = configured_threading(kind_setting, count_setting, budget, access_mode);
            1 <= config.count <= budget.max_decoder_threads_per_worker
        }),
{
    budgets_fit_the_machine(parallelism);
}

/// A threading within the limit of a worker, if it has one, but at least one thread.
pub open spec fn capped_threading(
    requested: PreviewDecodeThreadingConfig,
    worker_thread_limit: Option<usize>,
) -> PreviewDecodeThreadingConfig {
    PreviewDecodeThreadingConfig {
        kind: requested.kind,
        count: match worker_thread_limit {
            Some(limit) => {
                let most = if limit < 1 {
                    1
                } else {
                    limit
                };
                if requested.count > most {
                    most
                } else {
                    requested.count
                }
            },
            None => requested.count,
        },
    }
}

/// The threading of a codec: an EXR decoder gets one thread.
pub open spec fn codec_threading(
    codec_is_exr: bool,
    requested: PreviewDecodeThreadingConfig,
) -> PreviewDecodeThreadingConfig {
    if codec_is_exr {
        PreviewDecodeThreadingConfig { kind: PreviewDecodeThreadingKind::Absent, count: 1 }
    } else {
        requested
    }
}

/// Threading of a decoder, from the settings for it and the budget of the machine.
pub fn preview_decode_threading_config(
    access_mode: PreviewDecodeAccessMode,
    decode_pixels: u64,
    kind_setting: Option<&str>,
    count_setting: Option<&str>,
    budget: PreviewDecodeCpuBudget,
) -> (r: PreviewDecodeThreadingConfig)
    requires
        budget.max_decoder_threads_per_worker >= 1,
    ensures
        r == configured_threading(
            setting_text(kind_setting),
            setting_text(count_setting),
            budget,
            access_mode,
        ),
{
    let preset = default_threading_kind_for_software_decode(access_mode, decode_pixels);
    let kind = match kind_setting {
        Some(value) => match PreviewDecodeThreadingKind::from_env(value) {
            Some(kind) => kind,
            None => preset,
        },
        None => preset,
    };
    let number: Option<u64> = match count_setting {
        Some(value) => parse_unsigned(value),
        None => None,
    };
    let count: usize = match number {
        Some(value) => {
            if value > usize::MAX as u64 {
                default_decoder_threads_for_access_mode(budget, access_mode)
            } else if value < 1 {
                1
            } else if value > budget.max_decoder_threads_per_worker as u64 {
                budget.max_decoder_threads_per_worker
            } else {
                value as usize
            }
        },
        None => default_decoder_threads_for_access_mode(budget, access_mode),
    };
    PreviewDecodeThreadingConfig { kind, count }
}

/// A threading within the limit of a worker, if it has one, but at least one thread.
pub fn cap_preview_decode_threading_config(
    requested: PreviewDecodeThreadingConfig,
    worker_thread_limit: Option<usize>,
) -> (r: PreviewDecodeThreadingConfig)
    ensures
        r == capped_threading(requested, worker_thread_limit),
{
    let most: usize = match worker_thread_limit {
        Some(limit) => {
            if limit < 1 {
                1
            } else {
                limit
            }
        },
        None => usize::MAX,
    };
    PreviewDecodeThreadingConfig {
        kind: requested.kind,
        count: if requested.count > most {
            most
        } else {
            requested.count
        },
    }
}

/// The threading of a codec: an EXR decoder gets one thread, as it can hold back a single
/// image when it decodes by frames.
pub fn apply_preview_codec_threading_policy(
    codec_is_exr: bool,
    requested: PreviewDecodeThreadingConfig,
) -> (r: PreviewDecodeThreadingConfig)
    ensures
        r == codec_threading(codec_is_exr, requested),
{
    if codec_is_exr {
        return PreviewDecodeThreadingConfig {
            kind: PreviewDecodeThreadingKind::Absent,
            count: 1,
        };
    }
    requested
}

/// Threading of the decoder of a codec in a worker.
pub fn preview_decode_threading_config_for_codec(
    codec_is_exr: bool,
    access_mode: PreviewDecodeAccessMode,
    decode_pixels: u64,
    worker_thread_limit: Option<usize>,
    kind_setting: Option<&str>,
    count_setting: Option<&str>,
    budget: PreviewDecodeCpuBudget,
) -> (r: PreviewDecodeThreadingConfig)
    requires
        budget.max_decoder_threads_per_worker >= 1,
    ensures
        r == codec_threading(
            codec_is_exr,
            capped_threading(
                configured_threading(
                    setting_text(kind_setting),
                    setting_text(count_setting),
                    budget,
                    access_mode,
                ),
                worker_thread_limit,
            ),
        ),
{
    let requested = preview_decode_threading_config(
        access_mode,
        decode_pixels,
        kind_setting,
        count_setting,
        budget,
    );
    let requested = cap_preview_decode_threading_config(requested, worker_thread_limit);
    apply_preview_codec_threading_policy(codec_is_exr, requested)
}

/// A machine keeps threads for interaction: two where it has eight or more, one where it
/// has three or more. It has three workers from twelve threads on, and two from six on.
/// Each worker gets as many threads as can be shared evenly, and playback up to twelve.
pub proof fn budgets_share_evenly(parallelism: usize)
    ensures
        ({
            let budget = budget_of(parallelism);
            let usable = budget.available_parallelism - budget.reserved_interactive_threads;
            &&& parallelism >= 1 ==> budget.available_parallelism == parallelism
            &&& parallelism < 1 ==> budget.available_parallelism == 1
            &&& budget.reserved_interactive_threads == if parallelism >= 8 {
                2int
            } else if parallelism >= 3 {
                1
            } else {
                0
            }
            &&& budget.preview_worker_count == if parallelism >= 12 {
                3int
            } else if parallelism >= 6 {
                2
            } else {
                1
            }
            &&& budget.max_decoder_threads_per_worker <= usable
            &&& budget.max_decoder_threads_per_worker == usable
                || budget.max_decoder_threads_per_worker == 12
            &&& (budget.decoder_threads_per_worker + 1) * budget.preview_worker_count > usable
                || budget.decoder_threads_per_worker == 12
        }),
{
    budgets_fit_the_machine(parallelism);
    let budget = budget_of(parallelism);
    let usable = budget.available_parallelism - budget.reserved_interactive_threads;
    let workers = budget.preview_worker_count as int;
    assert((usable / workers + 1) * workers > usable) by (nonlinear_arith)
        requires
            workers > 0,
            usable >= 0,
    ;
    assert(usable / workers <= usable) by (nonlinear_arith)
        requires
            workers > 0,
            usable >= 0,
    ;
}

/// A number of threads is taken as it is set where the budget allows it, and brought to the
/// nearest that it allows otherwise. What is no number leaves the number to the access mode:
/// playback gets the most that a worker may have.
pub proof fn settings_are_taken_as_they_are(
    kind_setting: Option<Seq<char>>,
    text: Seq<char>,
    budget: PreviewDecodeCpuBudget,
    access_mode: PreviewDecodeAccessMode,
)
    requires
        1 <= budget.decoder_threads_per_worker <= budget.max_decoder_threads_per_worker,
    ensures
        ({
            let set = configured_threading(kind_setting, Some(text), budget, access_mode);
            let unset = configured_threading(kind_setting, None, budget, access_mode);
            let most = budget.max_decoder_threads_per_worker;
            &&& unsigned_of(text) matches Some(number) ==> {
                &&& 1 <= number <= most ==> set.count == number
                &&& number < 1 ==> set.count == 1
                &&& most < number <= usize::MAX ==> set.count == most
            }
            &&& unsigned_of(text) is None ==> set == unset
            &&& access_mode is PlaybackCursor ==> unset.count == most
            &&& !(access_mode is PlaybackCursor) ==> unset.count
                == budget.decoder_threads_per_worker
            &&& set.kind == unset.kind
        }),
{
}

/// The kind of threading is what a setting names, in any case of letters, and by frames
/// where nothing is set or nothing is named.
pub proof fn kinds_are_read_by_name(
    value: Seq<char>,
    kind: PreviewDecodeThreadingKind,
    count_setting: Option<Seq<char>>,
    budget: PreviewDecodeCpuBudget,
    access_mode: PreviewDecodeAccessMode,
)
    ensures
        lower(value) == lower(kind.spec_name()) ==> threading_setting(value) == Some(kind),
        lower(value) == lower("off"@) || lower(value) == lower("false"@) || lower(value) == lower(
            "0"@,
        ) ==> threading_setting(value) == Some(PreviewDecodeThreadingKind::Absent),
        lower(value) == lower("frames"@) ==> threading_setting(value) == Some(
            PreviewDecodeThreadingKind::Frame,
        ),
        lower(value) == lower("slices"@) ==> threading_setting(value) == Some(
            PreviewDecodeThreadingKind::Slice,
        ),
        threading_setting(value) is Some ==> configured_threading(
            Some(value),
            count_setting,
            budget,
            access_mode,
        ).kind == threading_setting(value)->0,
        threading_setting(value) is None ==> configured_threading(
            Some(value),
            count_setting,
            budget,
            access_mode,
        ).kind is Frame,
        configured_threading(None, count_setting, budget, access_mode).kind is Frame,
{
    reveal_strlit("None");
    reveal_strlit("Frame");
    reveal_strlit("Slice");
    reveal_strlit("none");
    reveal_strlit("off");
    reveal_strlit("false");
    reveal_strlit("0");
    reveal_strlit("frame");
    reveal_strlit("frames");
    reveal_strlit("slice");
    reveal_strlit("slices");
    assert(lower("None"@) =~= lower("none"@));
    assert(lower("Frame"@) =~= lower("frame"@));
    assert(lower("Slice"@) =~= lower("slice"@));
    assert(lower("none"@).len() == 4);
    assert(lower("off"@).len() == 3);
    assert(lower("0"@).len() == 1);
    assert(lower("false"@).len() == 5);
    assert(lower("frame"@).len() == 5);
    assert(lower("slice"@).len() == 5);
    assert(lower("frames"@).len() == 6);
    assert(lower("slices"@).len() == 6);
    assert(lower("frame"@)[1] == 'r');
    assert(lower("false"@)[1] == 'a');
    assert(lower("slice"@)[1] == 'l');
    assert(lower("frames"@)[1] == 'r');
    assert(lower("slices"@)[1] == 'l');
}

/// A worker's limit is never exceeded but for one thread, and nothing but the limit lowers
/// the number of threads. An EXR picture is decoded in one thread.
pub proof fn limits_are_kept(
    requested: PreviewDecodeThreadingConfig,
    limit: usize,
)
    requires
        requested.count >= 1,
    ensures
        capped_threading(requested, None) == requested,
        capped_threading(requested, Some(limit)).kind == requested.kind,
        1 <= capped_threading(requested, Some(limit)).count <= requested.count,
        capped_threading(requested, Some(limit)).count <= limit || capped_threading(
            requested,
            Some(limit),
        ).count == 1,
        requested.count <= limit ==> capped_threading(requested, Some(limit)) == requested,
        1 <= limit < requested.count ==> capped_threading(requested, Some(limit)).count == limit,
        codec_threading(false, requested) == requested,
        codec_threading(true, requested).count == 1,
        codec_threading(true, requested).kind is Absent,
{
}

} // verus!