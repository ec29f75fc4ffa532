//! Metadata hints: recognising them in text and bringing them into one order.

use super::color::{
    texts, ColorSpace, HintText, VideoColorMetadataDeclaration, VideoColorMetadataHint,
    VideoColorMetadataHintAuthority, VideoColorMetadataHintScope,
};
use crate::text::{
    chars_of, code_of, contains, contains_text, lower, lower_char, occurs_at,
    same_text_ignoring_case, to_lower,
};
use vstd::prelude::*;
use vstd::string::*;

verus! {

/// Rank of a scope; the smallest speaks first.
pub open spec fn scope_rank(scope: VideoColorMetadataHintScope) -> nat {
    match scope {
        VideoColorMetadataHintScope::Stream => 0,
        VideoColorMetadataHintScope::Container => 1,
        VideoColorMetadataHintScope::FileName => 2,
    }
}

/// Rank of a scope; the smallest speaks first.
pub fn metadata_hint_scope_priority(scope: VideoColorMetadataHintScope) -> (r: u8)
    ensures
        r == scope_rank(scope),
{
    match scope {
        VideoColorMetadataHintScope::Stream => 0,
        VideoColorMetadataHintScope::Container => 1,
        VideoColorMetadataHintScope::FileName => 2,
    }
}

/// Whether text `a` stands before text `b` in the dictionary.
pub open spec fn text_before(a: Seq<char>, b: Seq<char>) -> bool
    decreases a.len(),
{
    if b.len() == 0 {
        false
    } else if a.len() == 0 {
        true
    } else if a[0] != b[0] {
        (a[0] as int) < (b[0] as int)
    } else {
        text_before(a.skip(1), b.skip(1))
    }
}

proof fn lemma_text_irreflexive(a: Seq<char>)
    ensures
        !text_before(a, a),
    decreases a.len(),
{
    if a.len() > 0 {
        lemma_text_irreflexive(a.skip(1));
    }
}

proof fn lemma_text_transitive(a: Seq<char>, b: Seq<char>, c: Seq<char>)
    ensures
        text_before(a, b) && text_before(b, c) ==> text_before(a, c),
    decreases a.len(),
{
    if a.len() > 0 && b.len() > 0 && c.len() > 0 {
        lemma_text_transitive(a.skip(1), b.skip(1), c.skip(1));
    }
}

proof fn lemma_text_total(a: Seq<char>, b: Seq<char>)
    ensures
        a == b || text_before(a, b) || text_before(b, a),
        !(text_before(a, b) && text_before(b, a)),
    decreases a.len(),
{
    if a.len() > 0 && b.len() > 0 {
        lemma_text_total(a.skip(1), b.skip(1));
        if a[0] == b[0] && a.skip(1) == b.skip(1) {
            assert(a =~= seq![a[0]] + a.skip(1));
            assert(b =~= seq![b[0]] + b.skip(1));
        }
    } else {
        assert(a.len() == 0 && b.len() == 0 ==> a =~= b);
    }
}

/// How two texts stand to each other in the dictionary.
#[derive(Clone, Copy, PartialEq, Eq, Structural)]
enum Place {
    Before,
    Same,
    Behind,
}

fn place_of(a: &str, b: &str) -> (r: Place)
    ensures
        (r == Place::Before) == text_before(a@, b@),
        (r == Place::Behind) == text_before(b@, a@),
        (r == Place::Same) == (a@ == b@),
{
    let x = chars_of(a);
    let y = chars_of(b);
    let mut i: usize = 0;
    assert(a@.skip(0) =~= a@);
    assert(b@.skip(0) =~= b@);
    while i < x.len() && i < y.len()
        invariant
            x@ == a@,
            y@ == b@,
            i <= x.len(),
            i <= y.len(),
            a@.take(i as int) == b@.take(i as int),
            text_before(a@, b@) == text_before(a@.skip(i as int), b@.skip(i as int)),
            text_before(b@, a@) == text_before(b@.skip(i as int), a@.skip(i as int)),
        decreases x.len() - i,
    {
        let left: u32 = code_of(x[i]);
        let right: u32 = code_of(y[i]);
        assert(a@.skip(i as int)[0] == a@[i as int]);
        assert(b@.skip(i as int)[0] == b@[i as int]);
        if left < right {
            assert(a@[i as int] != b@[i as int]);
            return Place::Before;
        }
        if right < left {
            assert(a@[i as int] != b@[i as int]);
            return Place::Behind;
        }
        assert(a@.skip(i as int).skip(1) =~= a@.skip(i + 1));
        assert(b@.skip(i as int).skip(1) =~= b@.skip(i + 1));
        assert(a@.take(i + 1) =~= a@.take(i as int).push(a@[i as int]));
        assert(b@.take(i + 1) =~= b@.take(i as int).push(b@[i as int]));
        i = i + 1;
    }
    assert(a@ =~= a@.take(i as int) + a@.skip(i as int));
    assert(b@ =~= b@.take(i as int) + b@.skip(i as int));
    if i < x.len() {
        Place::Behind
    } else if i < y.len() {
        Place::Before
    } else {
        assert(a@ =~= b@);
        Place::Same
    }
}

/// Whether hint `a` may stand before hint `b` in a diagnostic listing: by scope,
/// then key, then value, then colour identity.
pub open spec fn hint_order(a: VideoColorMetadataHint, b: VideoColorMetadataHint) -> bool {
    let (ra, rb) = (scope_rank(a.scope), scope_rank(b.scope));
    ||| ra < rb
    ||| ra == rb && text_before(a.key@, b.key@)
    ||| ra == rb && a.key@ == b.key@ && text_before(a.value@, b.value@)
    ||| ra == rb && a.key@ == b.key@ && a.value@ == b.value@ && a.detected_color_space.spec_rank()
        <= b.detected_color_space.spec_rank()
}

/// Tests whether one hint may stand before another in a diagnostic listing.
pub fn metadata_hint_diagnostic_order(
    left: &VideoColorMetadataHint,
    right: &VideoColorMetadataHint,
) -> (r: bool)
    ensures
        r == hint_order(*left, *right),
{
    let a: u8 = metadata_hint_scope_priority(left.scope);
    let b: u8 = metadata_hint_scope_priority(right.scope);
    proof {
        lemma_text_total(left.key@, right.key@);
        lemma_text_total(left.value@, right.value@);
    }
    if a != b {
        return a < b;
    }
    match place_of(left.key.as_str(), right.key.as_str()) {
        Place::Before => true,
        Place::Behind => false,
        Place::Same => match place_of(left.value.as_str(), right.value.as_str()) {
            Place::Before => true,
            Place::Behind => false,
            Place::Same => left.detected_color_space.rank() <= right.detected_color_space.rank(),
        },
    }
}

proof fn lemma_order_total(a: VideoColorMetadataHint, b: VideoColorMetadataHint)
    ensures
        hint_order(a, b) || hint_order(b, a),
{
    lemma_text_total(a.key@, b.key@);
    lemma_text_total(a.value@, b.value@);
}

proof fn lemma_order_transitive(
    a: VideoColorMetadataHint,
    b: VideoColorMetadataHint,
    c: VideoColorMetadataHint,
)
    requires
        hint_order(a, b),
        hint_order(b, c),
    ensures
        hint_order(a, c),
{
    lemma_text_transitive(a.key@, b.key@, c.key@);
    lemma_text_transitive(a.value@, b.value@, c.value@);
}

/// `hint` put into an ordered listing, behind all that may stand before it.
pub open spec fn place_hint(
    listing: Seq<VideoColorMetadataHint>,
    hint: VideoColorMetadataHint,
) -> Seq<VideoColorMetadataHint>
    decreases listing.len(),
{
    if listing.len() == 0 || hint_order(listing.last(), hint) {
        listing.push(hint)
    } else {
        place_hint(listing.drop_last(), hint).push(listing.last())
    }
}

/// Hints in diagnostic order; hints that may stand either way keep their order.
pub open spec fn ordered(hints: Seq<VideoColorMetadataHint>) -> Seq<VideoColorMetadataHint>
    decreases hints.len(),
{
    if hints.len() == 0 {
        hints
    } else {
        place_hint(ordered(hints.drop_last()), hints.last())
    }
}

/// Whether a listing is in diagnostic order.
pub open spec fn is_ordered(listing: Seq<VideoColorMetadataHint>) -> bool {
    forall|i: int, j: int|
        0 <= i <= j < listing.len() ==> hint_order(#[trigger] listing[i], #[trigger] listing[j])
}

proof fn lemma_place_at(
    listing: Seq<VideoColorMetadataHint>,
    hint: VideoColorMetadataHint,
    at: int,
)
    requires
        0 <= at <= listing.len(),
        at > 0 ==> hint_order(listing[at - 1], hint),
        forall|i: int| at <= i < listing.len() ==> !hint_order(#[trigger] listing[i], hint),
    ensures
        place_hint(listing, hint) == listing.insert(at, hint),
    decreases listing.len(),
{
    if at == listing.len() {
        assert(listing.insert(at, hint) =~= listing.push(hint));
    } else {
        lemma_place_at(listing.drop_last(), hint, at);
        assert(listing.drop_last().insert(at, hint).push(listing.last()) =~= listing.insert(
            at,
            hint,
        ));
    }
}

proof fn lemma_place_ordered(listing: Seq<VideoColorMetadataHint>, hint: VideoColorMetadataHint)
    requires
        is_ordered(listing),
    ensures
        is_ordered(place_hint(listing, hint)),
        place_hint(listing, hint).to_multiset() == listing.to_multiset().insert(hint),
        place_hint(listing, hint).len() == listing.len() + 1,
        listing.len() > 0 ==> hint_order(place_hint(listing, hint).last(), listing.last())
            || place_hint(listing, hint).last() == hint,
        listing.len() > 0 && !hint_order(listing.last(), hint) ==> place_hint(listing, hint).last()
            == listing.last(),
    decreases listing.len(),
{
    broadcast use vstd::seq_lib::group_to_multiset_ensures;

    lemma_order_total(hint, hint);
    if listing.len() == 0 {
        assert(listing.push(hint).to_multiset() == listing.to_multiset().insert(hint));
    } else if hint_order(listing.last(), hint) {
        assert(listing.push(hint).to_multiset() == listing.to_multiset().insert(hint));
        assert forall|i: int, j: int|
            0 <= i <= j < listing.push(hint).len() implies hint_order(
            #[trigger] listing.push(hint)[i],
            #[trigger] listing.push(hint)[j],
        ) by {
            if j == listing.len() && i < j {
                lemma_order_transitive(listing[i], listing.last(), hint);
            }
        }
    } else {
        let front = listing.drop_last();
        let last = listing.last();
        lemma_order_total(last, hint);
        lemma_place_ordered(front, hint);
        let placed = place_hint(front, hint);
        assert forall|i: int| 0 <= i < placed.len() implies hint_order(
            #[trigger] placed[i],
            last,
        ) by {
            assert(placed.to_multiset().contains(placed[i]));
            if placed[i] != hint {
                assert(front.to_multiset().contains(placed[i]));
                assert(front.contains(placed[i]));
                let k = choose|k: int| 0 <= k < front.len() && front[k] == placed[i];
                assert(hint_order(listing[k], listing[listing.len() - 1]));
            }
        }
        lemma_order_total(last, last);
        assert(placed.push(last).to_multiset() == placed.to_multiset().insert(last));
        assert(listing =~= front.push(last));
        assert(listing.to_multiset() == front.to_multiset().insert(last));
        assert(front.to_multiset().insert(hint).insert(last) =~= front.to_multiset().insert(
            last,
        ).insert(hint));
    }
}

/// Bringing hints into diagnostic order keeps each of them and does order them.
pub proof fn ordering_keeps_every_hint(hints: Seq<VideoColorMetadataHint>)
    ensures
        is_ordered(ordered(hints)),
        ordered(hints).to_multiset() == hints.to_multiset(),
        ordered(hints).len() == hints.len(),
    decreases hints.len(),
{
    broadcast use vstd::seq_lib::group_to_multiset_ensures;

    if hints.len() > 0 {
        ordering_keeps_every_hint(hints.drop_last());
        lemma_place_ordered(ordered(hints.drop_last()), hints.last());
        assert(hints =~= hints.drop_last().push(hints.last()));
    }
}

/// Whether a hint that says `a` may stand before one that says `b`.
pub open spec fn text_order(a: HintText, b: HintText) -> bool {
    let (ra, rb) = (scope_rank(a.scope), scope_rank(b.scope));
    ||| ra < rb
    ||| ra == rb && text_before(a.key, b.key)
    ||| ra == rb && a.key == b.key && text_before(a.value, b.value)
    ||| ra == rb && a.key == b.key && a.value == b.value && a.detected_color_space.spec_rank()
        <= b.detected_color_space.spec_rank()
}

/// Whether hints that stand either way in the order say the same.
pub open spec fn tells_apart(said: Seq<HintText>) -> bool {
    forall|i: int, j: int|
        0 <= i < said.len() && 0 <= j < said.len() && text_order(
            #[trigger] said[i],
            #[trigger] said[j],
        ) && text_order(said[j], said[i]) ==> said[i] == said[j]
}

spec fn texts_ordered(said: Seq<HintText>) -> bool {
    forall|i: int, j: int|
        0 <= i <= j < said.len() ==> text_order(#[trigger] said[i], #[trigger] said[j])
}

proof fn lemma_ordered_unique(a: Seq<HintText>, b: Seq<HintText>)
    requires
        texts_ordered(a),
        texts_ordered(b),
        a.to_multiset() == b.to_multiset(),
        tells_apart(a),
    ensures
        a == b,
    decreases a.len(),
{
    broadcast use vstd::seq_lib::group_to_multiset_ensures;

    assert(a.len() == a.to_multiset().len());
    assert(b.len() == b.to_multiset().len());
    if a.len() == 0 {
        assert(a =~= b);
    } else {
        let la = a.last();
        let lb = b.last();
        assert(b.to_multiset().contains(lb));
        assert(a.to_multiset().contains(lb));
        assert(a.contains(lb));
        let i = choose|i: int| 0 <= i < a.len() && a[i] == lb;
        assert(text_order(a[i], a[a.len() - 1]));
        assert(a.to_multiset().contains(la));
        assert(b.to_multiset().contains(la));
        assert(b.contains(la));
        let j = choose|j: int| 0 <= j < b.len() && b[j] == la;
        assert(text_order(b[j], b[b.len() - 1]));
        assert(a[i] == a[a.len() - 1]);
        assert(a =~= a.drop_last().push(la));
        assert(b =~= b.drop_last().push(lb));
        assert(a.to_multiset() == a.drop_last().to_multiset().insert(la));
        assert(b.to_multiset() == b.drop_last().to_multiset().insert(lb));
        assert(a.drop_last().to_multiset() =~= a.to_multiset().remove(la));
        assert(b.drop_last().to_multiset() =~= b.to_multiset().remove(lb));
        lemma_ordered_unique(a.drop_last(), b.drop_last());
    }
}

proof fn lemma_place_texts(listing: Seq<VideoColorMetadataHint>, hint: VideoColorMetadataHint)
    ensures
        texts(place_hint(listing, hint)).to_multiset() == texts(listing).to_multiset().insert(
            hint@,
        ),
    decreases listing.len(),
{
    broadcast use vstd::seq_lib::group_to_multiset_ensures;

    if listing.len() == 0 || hint_order(listing.last(), hint) {
        assert(texts(listing.push(hint)) =~= texts(listing).push(hint@));
    } else {
        let front = listing.drop_last();
        let last = listing.last();
        lemma_place_texts(front, hint);
        let placed = place_hint(front, hint);
        assert(texts(placed.push(last)) =~= texts(placed).push(last@));
        assert(texts(listing) =~= texts(front).push(last@));
        assert(texts(front).to_multiset().insert(hint@).insert(last@) =~= texts(
            front,
        ).to_multiset().insert(last@).insert(hint@));
    }
}

proof fn lemma_ordered_texts(hints: Seq<VideoColorMetadataHint>)
    ensures
        texts(ordered(hints)).to_multiset() == texts(hints).to_multiset(),
    decreases hints.len(),
{
    broadcast use vstd::seq_lib::group_to_multiset_ensures;

    if hints.len() > 0 {
        lemma_ordered_texts(hints.drop_last());
        lemma_place_texts(ordered(hints.drop_last()), hints.last());
        assert(texts(hints) =~= texts(hints.drop_last()).push(hints.last()@));
    }
}

/// The order in which hints were found does not matter: lists that say the same are
/// brought into listings that read the same, where hints that stand either way say the
/// same.
pub proof fn ordering_ignores_discovery(
    a: Seq<VideoColorMetadataHint>,
    b: Seq<VideoColorMetadataHint>,
)
    requires
        texts(a).to_multiset() == texts(b).to_multiset(),
        tells_apart(texts(a)),
    ensures
        texts(ordered(a)) == texts(ordered(b)),
{
    broadcast use vstd::seq_lib::group_to_multiset_ensures;

    ordering_keeps_every_hint(a);
    ordering_keeps_every_hint(b);
    lemma_ordered_texts(a);
    lemma_ordered_texts(b);
    let s = texts(ordered(a));
    let t = texts(ordered(b));
    assert forall|i: int, j: int| 0 <= i <= j < s.len() implies text_order(
        #[trigger] s[i],
        #[trigger] s[j],
    ) by {
        assert(hint_order(ordered(a)[i], ordered(a)[j]));
    }
    assert forall|i: int, j: int| 0 <= i <= j < t.len() implies text_order(
        #[trigger] t[i],
        #[trigger] t[j],
    ) by {
        assert(hint_order(ordered(b)[i], ordered(b)[j]));
    }
    let found = texts(a);
    assert forall|i: int, j: int|
        0 <= i < s.len() && 0 <= j < s.len() && text_order(#[trigger] s[i], #[trigger] s[j])
            && text_order(s[j], s[i]) implies s[i] == s[j] by {
        assert(s.to_multiset().contains(s[i]));
        assert(s.to_multiset().contains(s[j]));
        assert(found.contains(s[i]));
        assert(found.contains(s[j]));
        let x = choose|x: int| 0 <= x < found.len() && found[x] == s[i];
        let y = choose|y: int| 0 <= y < found.len() && found[y] == s[j];
        assert(text_order(found[x], found[y]));
    }
    lemma_ordered_unique(s, t);
}

/// Whether a hint is what parsing makes of its own scope, key and value.
pub open spec fn is_parsed(said: HintText) -> bool {
    &&& named_color_space(normalized(said.key + " "@ + said.value)) == Some(
        said.detected_color_space,
    )
    &&& said.authority == hint_authority(said.scope, said.key)
}

/// Parsed hints that stand either way in the order say the same.
pub proof fn parsed_hints_are_told_apart(said: Seq<HintText>)
    requires
        forall|i: int| 0 <= i < said.len() ==> is_parsed(#[trigger] said[i]),
    ensures
        tells_apart(said),
{
    assert forall|i: int, j: int|
        0 <= i < said.len() && 0 <= j < said.len() && text_order(
            #[trigger] said[i],
            #[trigger] said[j],
        ) && text_order(said[j], said[i]) implies said[i] == said[j] by {
        lemma_text_total(said[i].key, said[j].key);
        lemma_text_total(said[i].value, said[j].value);
        lemma_text_irreflexive(said[i].key);
        lemma_text_irreflexive(said[i].value);
        assert(is_parsed(said[i]) && is_parsed(said[j]));
    }
}

/// Copies hints into diagnostic order.
pub fn order_hints(hints: &[VideoColorMetadataHint]) -> (out: Vec<VideoColorMetadataHint>)
    ensures
        out@ == ordered(hints@),
{
    let mut out: Vec<VideoColorMetadataHint> = Vec::new();
    let mut n: usize = 0;
    assert(hints@.take(0) =~= Seq::empty());
    while n < hints.len()
        invariant
            n <= hints.len(),
            out@ == ordered(hints@.take(n as int)),
        decreases hints.len() - n,
    {
        proof {
            ordering_keeps_every_hint(hints@.take(n as int));
        }
        let mut at: usize = out.len();
        while at > 0 && !metadata_hint_diagnostic_order(&out[at - 1], &hints[n])
            invariant
                n < hints.len(),
                at <= out.len(),
                forall|i: int|
                    at <= i < out.len() ==> !hint_order(#[trigger] out@[i], hints@[n as int]),
            decreases at,
        {
            at = at - 1;
        }
        proof {
            lemma_place_at(out@, hints@[n as int], at as int);
            assert(hints@.take(n + 1).drop_last() =~= hints@.take(n as int));
        }
        out.insert(at, hints[n].duplicate());
        n = n + 1;
    }
    assert(hints@.take(hints@.len() as int) =~= hints@);
    out
}

/// Whether `c` is an ASCII letter or digit.
pub open spec fn is_alphanumeric(c: char) -> bool {
    48 <= c as int <= 57 || 65 <= c as int <= 90 || 97 <= c as int <= 122
}

/// The letters and digits of a text in lower case.
pub open spec fn normalized(text: Seq<char>) -> Seq<char>
    decreases text.len(),
{
    if text.len() == 0 {
        seq![]
    } else if is_alphanumeric(text.last()) {
        normalized(text.drop_last()).push(lower_char(text.last()))
    } else {
        normalized(text.drop_last())
    }
}

/// The letters and digits of a text in lower case.
pub fn normalize_metadata_hint_text(value: &str) -> (out: String)
    ensures
        out@ == normalized(value@),
{
    let chars = chars_of(value);
    let mut out = String::new();
    let mut i: usize = 0;
    assert(value@.take(0) =~= Seq::empty());
    while i < chars.len()
        invariant
            chars@ == value@,
            i <= chars.len(),
            out@ == normalized(value@.take(i as int)),
        decreases chars.len() - i,
    {
        assert(value@.take(i + 1).drop_last() =~= value@.take(i as int));
        let c = chars[i];
        let code: u32 = c as u32;
        if (48 <= code && code <= 57) || (65 <= code && code <= 90) || (97 <= code && code <= 122) {
            out.push(to_lower(c));
        }
        i = i + 1;
    }
    assert(value@.take(value@.len() as int) =~= value@);
    out
}

/// The colour identity that a normalised text names. Identities with more words
/// are looked for before those that are part of them.
pub open spec fn named_color_space(hay: Seq<char>) -> Option<ColorSpace> {
    if contains_text(hay, "aces20651"@) || contains_text(hay, "aces2065ap0"@) {
        Some(ColorSpace::Aces2065_1)
    } else if contains_text(hay, "acescct"@) || contains_text(hay, "acescctap1"@) {
        Some(ColorSpace::AcesCct)
    } else if contains_text(hay, "acescg"@) || contains_text(hay, "acescgap1"@) {
        Some(ColorSpace::AcesCg)
    } else if contains_text(hay, "linearrec2020"@) || contains_text(hay, "linrec2020"@) {
        Some(ColorSpace::LinearRec2020)
    } else if contains_text(hay, "linearrec709"@) || contains_text(hay, "linrec709"@)
        || contains_text(hay, "linearsrgb"@) {
        Some(ColorSpace::LinearRec709)
    } else if contains_text(hay, "linearp3d65"@) || contains_text(hay, "linp3d65"@) {
        Some(ColorSpace::LinearP3D65)
    } else if contains_text(hay, "slog2sgamut"@) || contains_text(hay, "sonyslog2sgamut"@) {
        Some(ColorSpace::SonySLog2SGamut)
    } else if contains_text(hay, "applelog"@) || contains_text(hay, "applelogprofile"@) {
        Some(ColorSpace::AppleLogBt2020)
    } else if contains_text(hay, "slog3sgamut3cine"@) || contains_text(
        hay,
        "sonyslog3sgamut3cine"@,
    ) {
        Some(ColorSpace::SonySLog3SGamut3Cine)
    } else if contains_text(hay, "slog3sgamut3"@) || contains_text(hay, "sonyslog3sgamut3"@) {
        Some(ColorSpace::SonySLog3SGamut3)
    } else if contains_text(hay, "arrilogc4"@) || contains_text(hay, "logc4widegamut4"@)
        || contains_text(hay, "logc4awg4"@) {
        Some(ColorSpace::ArriLogC4WideGamut4)
    } else if contains_text(hay, "arrilogc3"@) || contains_text(hay, "logc3widegamut3"@)
        || contains_text(hay, "logc3awg3"@) || contains_text(hay, "logc3ei800"@) {
        Some(ColorSpace::ArriLogC3WideGamut3)
    } else if contains_text(hay, "canonlog2cinemagamut"@) || contains_text(
        hay,
        "clog2cinemagamut"@,
    ) {
        Some(ColorSpace::CanonLog2CinemaGamutD55)
    } else if contains_text(hay, "canonlog3cinemagamut"@) || contains_text(
        hay,
        "clog3cinemagamut"@,
    ) {
        Some(ColorSpace::CanonLog3CinemaGamutD55)
    } else if contains_text(hay, "vlogvgamut"@) || contains_text(hay, "panasonicvlogvgamut"@) {
        Some(ColorSpace::PanasonicVLogVGamut)
    } else if contains_text(hay, "log3g10redwidegamutrgb"@) || contains_text(
        hay,
        "redlog3g10rwg"@,
    ) {
        Some(ColorSpace::RedLog3G10WideGamutRgb)
    } else if contains_text(hay, "bmdfilmwidegamutgen5"@) || contains_text(
        hay,
        "blackmagicfilmwidegamutgen5"@,
    ) {
        Some(ColorSpace::BlackmagicFilmWideGamutGen5)
    } else if contains_text(hay, "dlogdgamut"@) || contains_text(hay, "djidlogdgamut"@) {
        Some(ColorSpace::DjiDLogDGamut)
    } else if contains_text(hay, "davinciintermediatewidegamut"@) || contains_text(
        hay,
        "davinciintermediatedwg"@,
    ) {
        Some(ColorSpace::DavinciIntermediateWideGamut)
    } else {
        None
    }
}

fn contains_any(hay: &str, first: &str, second: &str) -> (r: bool)
    ensures
        r == (contains_text(hay@, first@) || contains_text(hay@, second@)),
{
    contains(hay, first) || contains(hay, second)
}

fn find_color_space(hay: &str) -> (r: Option<ColorSpace>)
    ensures
        r == named_color_space(hay@),
{
    if contains_any(hay, "aces20651", "aces2065ap0") {
        Some(ColorSpace::Aces2065_1)
    } else if contains_any(hay, "acescct", "acescctap1") {
        Some(ColorSpace::AcesCct)
    } else if contains_any(hay, "acescg", "acescgap1") {
        Some(ColorSpace::AcesCg)
    } else if contains_any(hay, "linearrec2020", "linrec2020") {
        Some(ColorSpace::LinearRec2020)
    } else if contains_any(hay, "linearrec709", "linrec709") || contains(hay, "linearsrgb") {
        Some(ColorSpace::LinearRec709)
    } else if contains_any(hay, "linearp3d65", "linp3d65") {
        Some(ColorSpace::LinearP3D65)
    } else if contains_any(hay, "slog2sgamut", "sonyslog2sgamut") {
        Some(ColorSpace::SonySLog2SGamut)
    } else if contains_any(hay, "applelog", "applelogprofile") {
        Some(ColorSpace::AppleLogBt2020)
    } else if contains_any(hay, "slog3sgamut3cine", "sonyslog3sgamut3cine") {
        Some(ColorSpace::SonySLog3SGamut3Cine)
    } else if contains_any(hay, "slog3sgamut3", "sonyslog3sgamut3") {
        Some(ColorSpace::SonySLog3SGamut3)
    } else if contains_any(hay, "arrilogc4", "logc4widegamut4") || contains(hay, "logc4awg4") {
        Some(ColorSpace::ArriLogC4WideGamut4)
    } else if contains_any(hay, "arrilogc3", "logc3widegamut3") || contains_any(
        hay,
        "logc3awg3",
        "logc3ei800",
    ) {
        Some(ColorSpace::ArriLogC3WideGamut3)
    } else if contains_any(hay, "canonlog2cinemagamut", "clog2cinemagamut") {
        Some(ColorSpace::CanonLog2CinemaGamutD55)
    } else if contains_any(hay, "canonlog3cinemagamut", "clog3cinemagamut") {
        Some(ColorSpace::CanonLog3CinemaGamutD55)
    } else if contains_any(hay, "vlogvgamut", "panasonicvlogvgamut") {
        Some(ColorSpace::PanasonicVLogVGamut)
    } else if contains_any(hay, "log3g10redwidegamutrgb", "redlog3g10rwg") {
        Some(ColorSpace::RedLog3G10WideGamutRgb)
    } else if contains_any(hay, "bmdfilmwidegamutgen5", "blackmagicfilmwidegamutgen5") {
        Some(ColorSpace::BlackmagicFilmWideGamutGen5)
    } else if contains_any(hay, "dlogdgamut", "djidlogdgamut") {
        Some(ColorSpace::DjiDLogDGamut)
    } else if contains_any(hay, "davinciintermediatewidegamut", "davinciintermediatedwg") {
        Some(ColorSpace::DavinciIntermediateWideGamut)
    } else {
        None
    }
}

/// What a hint with a key in a scope may be used for: only the vendor fields of
/// streams and containers declare their source.
pub open spec fn hint_authority(scope: VideoColorMetadataHintScope, key: Seq<char>) ->
    VideoColorMetadataHintAuthority {
    if scope == VideoColorMetadataHintScope::FileName {
        VideoColorMetadataHintAuthority::DiagnosticSuggestion
    } else if lower(key) == lower("com.sony.colorProfile"@) {
        VideoColorMetadataHintAuthority::SourceDeclaration(
            VideoColorMetadataDeclaration::SonyColorProfile,
        )
    } else if lower(key) == lower("com.apple.proapps.cameraLog"@) {
        VideoColorMetadataHintAuthority::SourceDeclaration(
            VideoColorMetadataDeclaration::AppleProAppsCameraLog,
        )
    } else {
        VideoColorMetadataHintAuthority::DiagnosticSuggestion
    }
}

/// What a hint with a key in a scope may be used for.
pub fn metadata_hint_authority(scope: VideoColorMetadataHintScope, key: &str) -> (r:
    VideoColorMetadataHintAuthority)
    ensures
        r == hint_authority(scope, key@),
{
    if scope == VideoColorMetadataHintScope::FileName {
        VideoColorMetadataHintAuthority::DiagnosticSuggestion
    } else if same_text_ignoring_case(key, "com.sony.colorProfile") {
        VideoColorMetadataHintAuthority::SourceDeclaration(
            VideoColorMetadataDeclaration::SonyColorProfile,
        )
    } else if same_text_ignoring_case(key, "com.apple.proapps.cameraLog") {
        VideoColorMetadataHintAuthority::SourceDeclaration(
            VideoColorMetadataDeclaration::AppleProAppsCameraLog,
        )
    } else {
        VideoColorMetadataHintAuthority::DiagnosticSuggestion
    }
}

/// Reads one metadata field as a hint. A hint names both curve and gamut; text
/// that leaves one of them open is no hint.
pub fn parse_video_color_metadata_hint(
    scope: VideoColorMetadataHintScope,
    key: &str,
    value: &str,
) -> (r: Option<VideoColorMetadataHint>)
    ensures
        match (r, named_color_space(normalized(key@ + " "@ + value@))) {
            (Some(hint), Some(color_space)) => {
                &&& hint.scope == scope
                &&& hint.key@ == key@
                &&& hint.value@ == value@
                &&& hint.detected_color_space == color_space
                &&& hint.authority == hint_authority(scope, key@)
            },
            (None, None) => true,
            _ => false,
        },
        r matches Some(hint) ==> is_parsed(hint@),
{
    let joined = key.to_owned().concat(" ").concat(value);
    let hay = normalize_metadata_hint_text(joined.as_str());
    match find_color_space(hay.as_str()) {
        None => None,
        Some(detected_color_space) => Some(
            VideoColorMetadataHint {
                scope,
                key: key.to_owned(),
                value: value.to_owned(),
                detected_color_space,
                authority: metadata_hint_authority(scope, key),
            },
        ),
    }
}

/// A file name never declares its source, whatever it holds.
pub proof fn file_names_only_suggest(key: Seq<char>)
    ensures
        hint_authority(VideoColorMetadataHintScope::FileName, key)
            == VideoColorMetadataHintAuthority::DiagnosticSuggestion,
{
}

/// Whether a text holds one of these names.
pub open spec fn holds_one(hay: Seq<char>, names: Seq<Seq<char>>) -> bool {
    exists|i: int| 0 <= i < names.len() && contains_text(hay, #[trigger] names[i])
}

/// The names that vendors and colour configurations give an identity, in lower case and
/// without separators. Identities of displays have none: their text alone decides nothing.
pub open spec fn documented_names(space: ColorSpace) -> Seq<Seq<char>> {
    match space {
        ColorSpace::Rec601Ntsc
        | ColorSpace::Rec601Pal
        | ColorSpace::Rec709
        | ColorSpace::Rec2020
        | ColorSpace::Rec2100Pq
        | ColorSpace::Rec2100Hlg
        | ColorSpace::DisplayP3 => seq![],
        ColorSpace::LinearRec709 => seq!["linearrec709"@, "linrec709"@, "linearsrgb"@],
        ColorSpace::LinearRec2020 => seq!["linearrec2020"@, "linrec2020"@],
        ColorSpace::LinearP3D65 => seq!["linearp3d65"@, "linp3d65"@],
        ColorSpace::Aces2065_1 => seq!["aces20651"@, "aces2065ap0"@],
        ColorSpace::AcesCg => seq!["acescg"@, "acescgap1"@],
        ColorSpace::AcesCct => seq!["acescct"@, "acescctap1"@],
        ColorSpace::AppleLogBt2020 => seq!["applelog"@, "applelogprofile"@],
        ColorSpace::SonySLog2SGamut => seq!["slog2sgamut"@, "sonyslog2sgamut"@],
        ColorSpace::SonySLog3SGamut3 => seq!["slog3sgamut3"@, "sonyslog3sgamut3"@],
        ColorSpace::SonySLog3SGamut3Cine => seq!["slog3sgamut3cine"@, "sonyslog3sgamut3cine"@],
        ColorSpace::ArriLogC3WideGamut3 => seq![
            "arrilogc3"@,
            "logc3widegamut3"@,
            "logc3awg3"@,
            "logc3ei800"@,
        ],
        ColorSpace::ArriLogC4WideGamut4 => seq!["arrilogc4"@, "logc4widegamut4"@, "logc4awg4"@],
        ColorSpace::CanonLog2CinemaGamutD55 => seq!["canonlog2cinemagamut"@, "clog2cinemagamut"@],
        ColorSpace::CanonLog3CinemaGamutD55 => seq!["canonlog3cinemagamut"@, "clog3cinemagamut"@],
        ColorSpace::PanasonicVLogVGamut => seq!["vlogvgamut"@, "panasonicvlogvgamut"@],
        ColorSpace::RedLog3G10WideGamutRgb => seq!["log3g10redwidegamutrgb"@, "redlog3g10rwg"@],
        ColorSpace::BlackmagicFilmWideGamutGen5 => seq![
            "bmdfilmwidegamutgen5"@,
            "blackmagicfilmwidegamutgen5"@,
        ],
        ColorSpace::DjiDLogDGamut => seq!["dlogdgamut"@, "djidlogdgamut"@],
        ColorSpace::DavinciIntermediateWideGamut => seq![
            "davinciintermediatewidegamut"@,
            "davinciintermediatedwg"@,
        ],
    }
}

/// Which identity speaks first where a text holds the names of several: the scene
/// referred ones, then those of cameras; a longer name before one that is part of it.
pub open spec fn precedence(space: ColorSpace) -> nat {
    match space {
        ColorSpace::Aces2065_1 => 0,
        ColorSpace::AcesCct => 1,
        ColorSpace::AcesCg => 2,
        ColorSpace::LinearRec2020 => 3,
        ColorSpace::LinearRec709 => 4,
        ColorSpace::LinearP3D65 => 5,
        ColorSpace::SonySLog2SGamut => 6,
        ColorSpace::AppleLogBt2020 => 7,
        ColorSpace::SonySLog3SGamut3Cine => 8,
        ColorSpace::SonySLog3SGamut3 => 9,
        ColorSpace::ArriLogC4WideGamut4 => 10,
        ColorSpace::ArriLogC3WideGamut3 => 11,
        ColorSpace::CanonLog2CinemaGamutD55 => 12,
        ColorSpace::CanonLog3CinemaGamutD55 => 13,
        ColorSpace::PanasonicVLogVGamut => 14,
        ColorSpace::RedLog3G10WideGamutRgb => 15,
        ColorSpace::BlackmagicFilmWideGamutGen5 => 16,
        ColorSpace::DjiDLogDGamut => 17,
        ColorSpace::DavinciIntermediateWideGamut => 18,
        _ => 19,
    }
}

proof fn lemma_holds_two(hay: Seq<char>, a: Seq<char>, b: Seq<char>)
    ensures
        holds_one(hay, seq![a, b]) == (contains_text(hay, a) || contains_text(hay, b)),
{
    let names = seq![a, b];
    assert(names[0] == a && names[1] == b);
}

proof fn lemma_holds_three(hay: Seq<char>, a: Seq<char>, b: Seq<char>, c: Seq<char>)
    ensures
        holds_one(hay, seq![a, b, c]) == (contains_text(hay, a) || contains_text(hay, b)
            || contains_text(hay, c)),
{
    let names = seq![a, b, c];
    assert(names[0] == a && names[1] == b && names[2] == c);
}

proof fn lemma_holds_four(hay: Seq<char>, a: Seq<char>, b: Seq<char>, c: Seq<char>, d: Seq<char>)
    ensures
        holds_one(hay, seq![a, b, c, d]) == (contains_text(hay, a) || contains_text(hay, b)
            || contains_text(hay, c) || contains_text(hay, d)),
{
    let names = seq![a, b, c, d];
    assert(names[0] == a && names[1] == b && names[2] == c && names[3] == d);
}

proof fn lemma_names_held(hay: Seq<char>)
    ensures
        named_color_space(hay) matches Some(found) ==> holds_one(hay, documented_names(found)),
        forall|space: ColorSpace|
            #![trigger documented_names(space)]
            holds_one(hay, documented_names(space)) ==> (named_color_space(hay) matches Some(found)
                && precedence(found) <= precedence(space)),
{
    lemma_holds_three(hay, "linearrec709"@, "linrec709"@, "linearsrgb"@);
    lemma_holds_two(hay, "linearrec2020"@, "linrec2020"@);
    lemma_holds_two(hay, "linearp3d65"@, "linp3d65"@);
    lemma_holds_two(hay, "aces20651"@, "aces2065ap0"@);
    lemma_holds_two(hay, "acescg"@, "acescgap1"@);
    lemma_holds_two(hay, "acescct"@, "acescctap1"@);
    lemma_holds_two(hay, "applelog"@, "applelogprofile"@);
    lemma_holds_two(hay, "slog2sgamut"@, "sonyslog2sgamut"@);
    lemma_holds_two(hay, "slog3sgamut3"@, "sonyslog3sgamut3"@);
    lemma_holds_two(hay, "slog3sgamut3cine"@, "sonyslog3sgamut3cine"@);
    lemma_holds_four(hay, "arrilogc3"@, "logc3widegamut3"@, "logc3awg3"@, "logc3ei800"@);
    lemma_holds_three(hay, "arrilogc4"@, "logc4widegamut4"@, "logc4awg4"@);
    lemma_holds_two(hay, "canonlog2cinemagamut"@, "clog2cinemagamut"@);
    lemma_holds_two(hay, "canonlog3cinemagamut"@, "clog3cinemagamut"@);
    lemma_holds_two(hay, "vlogvgamut"@, "panasonicvlogvgamut"@);
    lemma_holds_two(hay, "log3g10redwidegamutrgb"@, "redlog3g10rwg"@);
    lemma_holds_two(hay, "bmdfilmwidegamutgen5"@, "blackmagicfilmwidegamutgen5"@);
    lemma_holds_two(hay, "dlogdgamut"@, "djidlogdgamut"@);
    lemma_holds_two(hay, "davinciintermediatewidegamut"@, "davinciintermediatedwg"@);
    assert forall|space: ColorSpace|
        #![trigger documented_names(space)]
        holds_one(hay, documented_names(space)) implies (named_color_space(hay) matches Some(found)
        && precedence(found) <= precedence(space)) by {
        let names = documented_names(space);
        if names.len() == 0 {
            assert(!holds_one(hay, names));
        }
    }
}

/// A field is read as an identity exactly where its key and value hold one of the names of
/// that identity, and no name of one that speaks before it. A field without any name is no
/// hint, and no text is read as the identity of a display.
pub proof fn names_decide_the_identity(key: Seq<char>, value: Seq<char>, space: ColorSpace)
    ensures
        ({
            let hay = normalized(key + " "@ + value);
            &&& (named_color_space(hay) == Some(space))
                <==> (holds_one(hay, documented_names(space))
                && forall|other: ColorSpace|
                #![trigger documented_names(other)]
                precedence(other) < precedence(space) ==> !holds_one(hay, documented_names(other)))
            &&& named_color_space(hay) is None <==> forall|other: ColorSpace|
                #![trigger documented_names(other)]
                !holds_one(hay, documented_names(other))
        }),
{
    let hay = normalized(key + " "@ + value);
    lemma_names_held(hay);
    if named_color_space(hay) is Some {
        let found = named_color_space(hay).unwrap();
        assert(holds_one(hay, documented_names(found)));
    }
    if holds_one(hay, documented_names(space)) {
        assert(documented_names(space).len() > 0);
    }
}

/// Linear light is read in the gamut that the text names, and never in another one: where
/// no other identity is named, "linear" or "lin" before Rec.709, Rec.2020 or P3 D65 is that
/// gamut, and linear sRGB has the gamut of Rec.709.
pub proof fn linear_light_keeps_its_gamut(hay: Seq<char>)
    requires
        forall|other: ColorSpace|
            #![trigger documented_names(other)]
            other != ColorSpace::LinearRec709 && other != ColorSpace::LinearRec2020 && other
                != ColorSpace::LinearP3D65 ==> !holds_one(hay, documented_names(other)),
    ensures
        named_color_space(hay) == Some(ColorSpace::LinearRec709) ==> contains_text(
            hay,
            "linearrec709"@,
        ) || contains_text(hay, "linrec709"@) || contains_text(hay, "linearsrgb"@),
        named_color_space(hay) == Some(ColorSpace::LinearRec2020) ==> contains_text(
            hay,
            "linearrec2020"@,
        ) || contains_text(hay, "linrec2020"@),
        named_color_space(hay) == Some(ColorSpace::LinearP3D65) ==> contains_text(
            hay,
            "linearp3d65"@,
        ) || contains_text(hay, "linp3d65"@),
        contains_text(hay, "linearrec709"@) || contains_text(hay, "linrec709"@) || contains_text(
            hay,
            "linearsrgb"@,
        ) || contains_text(hay, "linearrec2020"@) || contains_text(hay, "linrec2020"@)
            || contains_text(hay, "linearp3d65"@) || contains_text(hay, "linp3d65"@) ==> (
        named_color_space(hay) matches Some(found) && (found == ColorSpace::LinearRec709 || found
            == ColorSpace::LinearRec2020 || found == ColorSpace::LinearP3D65)),
{
    lemma_names_held(hay);
    lemma_holds_three(hay, "linearrec709"@, "linrec709"@, "linearsrgb"@);
    lemma_holds_two(hay, "linearrec2020"@, "linrec2020"@);
    lemma_holds_two(hay, "linearp3d65"@, "linp3d65"@);
    assert(holds_one(hay, documented_names(ColorSpace::LinearRec709)) == (contains_text(
        hay,
        "linearrec709"@,
    ) || contains_text(hay, "linrec709"@) || contains_text(hay, "linearsrgb"@)));
    assert(holds_one(hay, documented_names(ColorSpace::LinearRec2020)) == (contains_text(
        hay,
        "linearrec2020"@,
    ) || contains_text(hay, "linrec2020"@)));
    assert(holds_one(hay, documented_names(ColorSpace::LinearP3D65)) == (contains_text(
        hay,
        "linearp3d65"@,
    ) || contains_text(hay, "linp3d65"@)));
}

/// Texts that hold the names of one identity each are read alike only where that identity
/// is the same.
pub proof fn distinct_identities_stay_distinct(
    a: Seq<char>,
    b: Seq<char>,
    left: ColorSpace,
    right: ColorSpace,
)
    requires
        left != right,
        holds_one(a, documented_names(left)),
        holds_one(b, documented_names(right)),
        forall|other: ColorSpace|
            #![trigger documented_names(other)]
            (other != left ==> !holds_one(a, documented_names(other))) && (other != right
                ==> !holds_one(b, documented_names(other))),
    ensures
        named_color_space(a) == Some(left),
        named_color_space(b) == Some(right),
        named_color_space(a) != named_color_space(b),
{
    lemma_names_held(a);
    lemma_names_held(b);
}

/// Case, spaces and punctuation do not matter, and nothing else is dropped: a text
/// normalises piece by piece, a small letter or a digit to itself, a capital to its small
/// letter, and any other character to nothing.
pub proof fn normalising_goes_by_characters(a: Seq<char>, b: Seq<char>, c: char)
    ensures
        normalized(a + b) == normalized(a) + normalized(b),
        'a' <= c <= 'z' || '0' <= c <= '9' ==> normalized(seq![c]) == seq![c],
        'A' <= c <= 'Z' ==> normalized(seq![c]) == seq![((c as u32) + 32) as char],
        !('a' <= c <= 'z' || '0' <= c <= '9' || 'A' <= c <= 'Z') ==> normalized(seq![c]).len()
            == 0,
    decreases b.len(),
{
    reveal_with_fuel(normalized, 2);
    assert(seq![c].drop_last() =~= Seq::<char>::empty());
    assert(seq![c].last() == c);
    assert(normalized(seq![c]) =~= if is_alphanumeric(c) {
        seq![lower_char(c)]
    } else {
        seq![]
    });
    if b.len() == 0 {
        assert(a + b =~= a);
        assert(normalized(a) + normalized(b) =~= normalized(a));
    } else {
        normalising_goes_by_characters(a, b.drop_last(), c);
        assert((a + b).drop_last() =~= a + b.drop_last());
        assert((a + b).last() == b.last());
        assert(normalized(a + b) =~= normalized(a) + normalized(b));
    }
}

/// Only the two vendor fields declare what a source is, whatever the case of their keys;
/// every other field, and every field of a file name, only suggests it. Which field
/// declared it is kept.
pub proof fn only_vendor_fields_declare(
    scope: VideoColorMetadataHintScope,
    key: Seq<char>,
    other: Seq<char>,
)
    ensures
        hint_authority(scope, key) == VideoColorMetadataHintAuthority::SourceDeclaration(
            VideoColorMetadataDeclaration::SonyColorProfile,
        ) <==> !(scope is FileName) && lower(key) == lower("com.sony.colorProfile"@),
        hint_authority(scope, key) == VideoColorMetadataHintAuthority::SourceDeclaration(
            VideoColorMetadataDeclaration::AppleProAppsCameraLog,
        ) <==> !(scope is FileName) && lower(key) == lower("com.apple.proapps.cameraLog"@),
        lower(key) == lower(other) ==> hint_authority(scope, key) == hint_authority(scope, other),
        hint_authority(VideoColorMetadataHintScope::Stream, key) == hint_authority(
            VideoColorMetadataHintScope::Container,
            key,
        ),
{
    reveal_strlit("com.sony.colorProfile");
    reveal_strlit("com.apple.proapps.cameraLog");
    assert(lower("com.sony.colorProfile"@).len() != lower("com.apple.proapps.cameraLog"@).len());
}

/// Streams speak before containers, and containers before file names; within a scope the
/// listing goes by the text of keys and then of values.
pub proof fn nearer_scopes_speak_first(a: VideoColorMetadataHint, b: VideoColorMetadataHint)
    ensures
        a.scope is Stream && !(b.scope is Stream) ==> hint_order(a, b) && !hint_order(b, a),
        b.scope is FileName && !(a.scope is FileName) ==> hint_order(a, b) && !hint_order(b, a),
        a.scope == b.scope && text_before(a.key@, b.key@) ==> hint_order(a, b) && !hint_order(b, a),
        a.scope == b.scope && a.key@ == b.key@ && text_before(a.value@, b.value@) ==> hint_order(
            a,
            b,
        ) && !hint_order(b, a),
{
    lemma_text_total(a.key@, b.key@);
    lemma_text_total(a.value@, b.value@);
    lemma_text_irreflexive(a.key@);
    lemma_text_irreflexive(a.value@);
}

proof fn lemma_begins(name: Seq<char>, small: Seq<char>)
    requires
        small.len() <= name.len(),
        forall|i: int|
            0 <= i < small.len() ==> is_alphanumeric(#[trigger] name[i]) && lower_char(name[i])
                == small[i],
    ensures
        contains_text(normalized(name), small),
    decreases name.len(),
{
    if name.len() > small.len() {
        lemma_begins(name.drop_last(), small);
        let before = normalized(name.drop_last());
        let at = choose|at: int| occurs_at(before, small, at);
        assert(occurs_at(normalized(name), small, at)) by {
            assert(normalized(name).subrange(at, at + small.len()) =~= before.subrange(
                at,
                at + small.len(),
            ));
        }
    } else {
        lemma_letters(name, small);
        assert(occurs_at(normalized(name), small, 0)) by {
            assert(small.subrange(0, small.len() as int) =~= small);
        }
    }
}

proof fn lemma_letters(name: Seq<char>, small: Seq<char>)
    requires
        small.len() == name.len(),
        forall|i: int|
            0 <= i < small.len() ==> is_alphanumeric(#[trigger] name[i]) && lower_char(name[i])
                == small[i],
    ensures
        normalized(name) == small,
    decreases name.len(),
{
    if name.len() > 0 {
        lemma_letters(name.drop_last(), small.drop_last());
        assert(small =~= small.drop_last().push(small.last()));
    } else {
        assert(small =~= seq![]);
    }
}

/// An identity is recognised by the name that diagnostics give it: that name holds a
/// documented name of the same identity. Of the ACES interchange space and the RED one
/// only the vendors' spelling is known.
pub proof fn identities_know_their_own_names(space: ColorSpace)
    requires
        documented_names(space).len() > 0,
        space != ColorSpace::Aces2065_1,
        space != ColorSpace::RedLog3G10WideGamutRgb,
    ensures
        holds_one(normalized(space.spec_name()), documented_names(space)),
{
    let hay = normalized(space.spec_name());
    let names = documented_names(space);
    match space {
        ColorSpace::LinearRec709 => {
            reveal_strlit("LinearRec709");
            reveal_strlit("linearrec709");
            lemma_begins("LinearRec709"@, "linearrec709"@);
            assert(names[0] == "linearrec709"@);
        },
        ColorSpace::LinearRec2020 => {
            reveal_strlit("LinearRec2020");
            reveal_strlit("linearrec2020");
            lemma_begins("LinearRec2020"@, "linearrec2020"@);
            assert(names[0] == "linearrec2020"@);
        },
        ColorSpace::LinearP3D65 => {
            reveal_strlit("LinearP3D65");
            reveal_strlit("linearp3d65");
            lemma_begins("LinearP3D65"@, "linearp3d65"@);
            assert(names[0] == "linearp3d65"@);
        },
        ColorSpace::AcesCg => {
            reveal_strlit("AcesCg");
            reveal_strlit("acescg");
            lemma_begins("AcesCg"@, "acescg"@);
            assert(names[0] == "acescg"@);
        },
        ColorSpace::AcesCct => {
            reveal_strlit("AcesCct");
            reveal_strlit("acescct");
            lemma_begins("AcesCct"@, "acescct"@);
            assert(names[0] == "acescct"@);
        },
        ColorSpace::AppleLogBt2020 => {
            reveal_strlit("AppleLogBt2020");
            reveal_strlit("applelog");
            lemma_begins("AppleLogBt2020"@, "applelog"@);
            assert(names[0] == "applelog"@);
        },
        ColorSpace::SonySLog2SGamut => {
            reveal_strlit("SonySLog2SGamut");
            reveal_strlit("sonyslog2sgamut");
            lemma_begins("SonySLog2SGamut"@, "sonyslog2sgamut"@);
            assert(names[1] == "sonyslog2sgamut"@);
        },
        ColorSpace::SonySLog3SGamut3 => {
            reveal_strlit("SonySLog3SGamut3");
            reveal_strlit("sonyslog3sgamut3");
            lemma_begins("SonySLog3SGamut3"@, "sonyslog3sgamut3"@);
            assert(names[1] == "sonyslog3sgamut3"@);
        },
        ColorSpace::SonySLog3SGamut3Cine => {
            reveal_strlit("SonySLog3SGamut3Cine");
            reveal_strlit("sonyslog3sgamut3cine");
            lemma_begins("SonySLog3SGamut3Cine"@, "sonyslog3sgamut3cine"@);
            assert(names[1] == "sonyslog3sgamut3cine"@);
        },
        ColorSpace::ArriLogC3WideGamut3 => {
            reveal_strlit("ArriLogC3WideGamut3");
            reveal_strlit("arrilogc3");
            lemma_begins("ArriLogC3WideGamut3"@, "arrilogc3"@);
            assert(names[0] == "arrilogc3"@);
        },
        ColorSpace::ArriLogC4WideGamut4 => {
            reveal_strlit("ArriLogC4WideGamut4");
            reveal_strlit("arrilogc4");
            lemma_begins("ArriLogC4WideGamut4"@, "arrilogc4"@);
            assert(names[0] == "arrilogc4"@);
        },
        ColorSpace::CanonLog2CinemaGamutD55 => {
            reveal_strlit("CanonLog2CinemaGamutD55");
            reveal_strlit("canonlog2cinemagamut");
            lemma_begins("CanonLog2CinemaGamutD55"@, "canonlog2cinemagamut"@);
            assert(names[0] == "canonlog2cinemagamut"@);
        },
        ColorSpace::CanonLog3CinemaGamutD55 => {
            reveal_strlit("CanonLog3CinemaGamutD55");
            reveal_strlit("canonlog3cinemagamut");
            lemma_begins("CanonLog3CinemaGamutD55"@, "canonlog3cinemagamut"@);
            assert(names[0] == "canonlog3cinemagamut"@);
        },
        ColorSpace::PanasonicVLogVGamut => {
            reveal_strlit("PanasonicVLogVGamut");
            reveal_strlit("panasonicvlogvgamut");
            lemma_begins("PanasonicVLogVGamut"@, "panasonicvlogvgamut"@);
            assert(names[1] == "panasonicvlogvgamut"@);
        },
        ColorSpace::BlackmagicFilmWideGamutGen5 => {
            reveal_strlit("BlackmagicFilmWideGamutGen5");
            reveal_strlit("blackmagicfilmwidegamutgen5");
            lemma_begins("BlackmagicFilmWideGamutGen5"@, "blackmagicfilmwidegamutgen5"@);
            assert(names[1] == "blackmagicfilmwidegamutgen5"@);
        },
        ColorSpace::DjiDLogDGamut => {
            reveal_strlit("DjiDLogDGamut");
            reveal_strlit("djidlogdgamut");
            lemma_begins("DjiDLogDGamut"@, "djidlogdgamut"@);
            assert(names[1] == "djidlogdgamut"@);
        },
        ColorSpace::DavinciIntermediateWideGamut => {
            reveal_strlit("DavinciIntermediateWideGamut");
            reveal_strlit("davinciintermediatewidegamut");
            lemma_begins("DavinciIntermediateWideGamut"@, "davinciintermediatewidegamut"@);
            assert(names[0] == "davinciintermediatewidegamut"@);
        },
        _ => {},
    }
}

/// Texts stand in the order of their first difference, and a text before all that go on from
/// it.
pub proof fn texts_stand_by_their_first_difference(a: Seq<char>, b: Seq<char>, n: int)
    requires
        0 <= n <= a.len(),
        n < b.len(),
        a.take(n) == b.take(n),
        n < a.len() ==> a[n] != b[n],
    ensures
        n == a.len() ==> text_before(a, b),
        n < a.len() ==> text_before(a, b) == ((a[n] as int) < (b[n] as int)),
    decreases n,
{
    if n > 0 {
        assert(a[0] == a.take(n)[0]);
        assert(b[0] == b.take(n)[0]);
        let x = a.skip(1);
        let y = b.skip(1);
        assert(x.take(n - 1) =~= a.take(n).skip(1));
        assert(y.take(n - 1) =~= b.take(n).skip(1));
        texts_stand_by_their_first_difference(x, y, n - 1);
    }
}

} // verus!
