//! Templates: splitting on a placeholder marker, counting placeholders, and
//! filling them with values.

use vstd::prelude::*;

use crate::error::HelperError;
use crate::text::{chars_of, marker_at, matches_at, views};

verus! {

/// The segments of `t` from position `i` on, scanning left to right for
/// non-overlapping occurrences of `m`; the current segment began at `start`.
pub open spec fn segments_from(t: Seq<char>, m: Seq<char>, start: int, i: int) -> Seq<Seq<char>>
    decreases t.len() - i,
{
    if i >= t.len() || m.len() == 0 {
        seq![t.subrange(start, t.len() as int)]
    } else if marker_at(t, m, i) {
        seq![t.subrange(start, i)] + segments_from(t, m, i + m.len(), i + m.len())
    } else {
        segments_from(t, m, start, i + 1)
    }
}

/// The pieces of `t` between the occurrences of `m`, as splitting a string on a
/// pattern gives them: one more piece than there are occurrences.
pub open spec fn split_on(t: Seq<char>, m: Seq<char>) -> Seq<Seq<char>> {
    segments_from(t, m, 0, 0)
}

/// The number of placeholders `m` in template `t`.
pub open spec fn placeholder_count(t: Seq<char>, m: Seq<char>) -> int {
    split_on(t, m).len() - 1
}

/// The positional placeholder, `{}`.
pub open spec fn positional_marker() -> Seq<char> {
    seq!['{', '}']
}

/// The derived placeholder, `{b}`, filled from the current branch's number.
pub open spec fn derived_marker() -> Seq<char> {
    seq!['{', 'b', '}']
}

/// Segment `i` followed by value `i`, unless the segment is the last one or
/// the values have run out.
pub open spec fn piece(segs: Seq<Seq<char>>, vals: Seq<Seq<char>>, i: int) -> Seq<char> {
    if i + 1 < segs.len() && i < vals.len() {
        segs[i] + vals[i]
    } else {
        segs[i]
    }
}

/// The first `k` pieces, concatenated.
pub open spec fn joined(segs: Seq<Seq<char>>, vals: Seq<Seq<char>>, k: int) -> Seq<char>
    decreases k,
{
    if k <= 0 {
        Seq::empty()
    } else {
        joined(segs, vals, k - 1) + piece(segs, vals, k - 1)
    }
}

/// `segment_0, value_0, segment_1, value_1, ..., segment_n`: the segments with
/// the values merged in between, in order.
pub open spec fn merge(segs: Seq<Seq<char>>, vals: Seq<Seq<char>>) -> Seq<char> {
    joined(segs, vals, segs.len() as int)
}

/// `t` with its placeholders `m` replaced, left to right, by `vals`.
pub open spec fn interpolation(t: Seq<char>, m: Seq<char>, vals: Seq<Seq<char>>) -> Seq<char> {
    merge(split_on(t, m), vals)
}

/// Splitting yields at least one segment.
pub proof fn lemma_segments_nonempty(t: Seq<char>, m: Seq<char>, start: int, i: int)
    ensures
        segments_from(t, m, start, i).len() >= 1,
    decreases t.len() - i,
{
    if i >= t.len() || m.len() == 0 {
    } else if marker_at(t, m, i) {
        lemma_segments_nonempty(t, m, i + m.len(), i + m.len());
    } else {
        lemma_segments_nonempty(t, m, start, i + 1);
    }
}

/// The pieces of `text` between occurrences of `marker`.
pub fn split_on_marker(text: &str, marker: &str) -> (segs: Vec<String>)
    requires
        marker@.len() > 0,
    ensures
        views(segs@) == split_on(text@, marker@),
{
    let t = chars_of(text);
    let m = chars_of(marker);
    let n = t.len();
    let mlen = m.len();
    let mut segs: Vec<String> = Vec::new();
    let mut start: usize = 0;
    let mut i: usize = 0;
    assert(views(segs@) =~= Seq::<Seq<char>>::empty());
    while i < n
        invariant
            t@ == text@,
            m@ == marker@,
            n == t@.len(),
            mlen == m@.len(),
            mlen > 0,
            start <= i <= n,
            views(segs@) + segments_from(text@, marker@, start as int, i as int) == split_on(
                text@,
                marker@,
            ),
        decreases n - i,
    {
        if matches_at(&t, &m, i) {
            let seg = text.substring_char(start, i).to_owned();
            proof {
                let rest = segments_from(text@, marker@, i + mlen, i + mlen);
                assert(views(segs@.push(seg)) =~= views(segs@).push(seg@));
                assert(views(segs@).push(seg@) + rest =~= views(segs@) + (seq![seg@] + rest));
            }
            segs.push(seg);
            i = i + mlen;
            start = i;
        } else {
            i = i + 1;
        }
    }
    let last = text.substring_char(start, n).to_owned();
    proof {
        assert(views(segs@.push(last)) =~= views(segs@).push(last@));
        assert(views(segs@) + seq![last@] =~= views(segs@).push(last@));
    }
    segs.push(last);
    segs
}

/// Checks that `format` has exactly `params_len` placeholders `pattern`.
pub fn validate_interpolation_places_on_custom_pattern(
    format: &String,
    params_len: usize,
    pattern: &str,
) -> (r: Result<(), HelperError>)
    requires
        pattern@.len() > 0,
    ensures
        r is Ok <==> placeholder_count(format@, pattern@) == params_len,
        r matches Err(HelperError::CountMismatch { expected, received }) ==> expected
            == placeholder_count(format@, pattern@) && received == params_len,
        r is Err ==> r matches Err(HelperError::CountMismatch { .. }),
{
    let segs = split_on_marker(format.as_str(), pattern);
    proof {
        lemma_segments_nonempty(format@, pattern@, 0, 0);
    }
    let places = segs.len() - 1;
    if places == params_len {
        Ok(())
    } else {
        Err(HelperError::CountMismatch { expected: places, received: params_len })
    }
}

/// Checks that `format` has exactly `params_len` positional placeholders `{}`.
pub fn validate_interpolation_places_count(format: &String, params_len: usize) -> (r: Result<
    (),
    HelperError,
>)
    ensures
        r is Ok <==> placeholder_count(format@, positional_marker()) == params_len,
        r matches Err(HelperError::CountMismatch { expected, received }) ==> expected
            == placeholder_count(format@, positional_marker()) && received == params_len,
        r is Err ==> r matches Err(HelperError::CountMismatch { .. }),
{
    proof {
        reveal_strlit("{}");
        assert("{}"@ =~= positional_marker());
    }
    validate_interpolation_places_on_custom_pattern(format, params_len, "{}")
}

/// Replaces the placeholders `pattern` in `format`, left to right, by `values`.
/// Placeholders beyond the values are dropped; values beyond the placeholders
/// are ignored.
pub fn interpolate_on_custom_val(format: &String, values: Vec<String>, pattern: &str) -> (r: Result<
    String,
    HelperError,
>)
    requires
        pattern@.len() > 0,
    ensures
        r matches Ok(s) && s@ == interpolation(format@, pattern@, views(values@)),
{
    let segs = split_on_marker(format.as_str(), pattern);
    let ghost vals = views(values@);
    let ghost sv = views(segs@);
    let mut out = String::new();
    let mut k: usize = 0;
    while k < segs.len()
        invariant
            sv == views(segs@),
            vals == views(values@),
            k <= segs.len(),
            out@ == joined(sv, vals, k as int),
        decreases segs.len() - k,
    {
        out.append(segs[k].as_str());
        if k + 1 < segs.len() && k < values.len() {
            out.append(values[k].as_str());
        }
        k = k + 1;
    }
    Ok(out)
}

/// Replaces the positional placeholders `{}` in `format`, left to right, by `values`.
pub fn interpolate(format: &String, values: Vec<String>) -> (r: Result<String, HelperError>)
    ensures
        r matches Ok(s) && s@ == interpolation(format@, positional_marker(), views(values@)),
{
    proof {
        reveal_strlit("{}");
        assert("{}"@ =~= positional_marker());
    }
    interpolate_on_custom_val(format, values, "{}")
}

/// `[segment_0, value_0, segment_1, value_1, ..., segment_n]`.
pub open spec fn interleaved(segs: Seq<Seq<char>>, vals: Seq<Seq<char>>) -> Seq<Seq<char>> {
    Seq::new(
        (2 * segs.len() - 1) as nat,
        |i: int|
            if i % 2 == 0 {
                segs[i / 2]
            } else {
                vals[i / 2]
            },
    )
}

proof fn lemma_joined_prefix(segs: Seq<Seq<char>>, vals: Seq<Seq<char>>, k: int)
    requires
        segs.len() == vals.len() + 1,
        0 <= k <= vals.len(),
    ensures
        joined(segs, vals, k) == interleaved(segs, vals).take(2 * k).flatten(),
    decreases k,
{
    let il = interleaved(segs, vals);
    if k == 0 {
        assert(il.take(0) =~= Seq::<Seq<char>>::empty());
    } else {
        lemma_joined_prefix(segs, vals, k - 1);
        let j = k - 1;
        assert(il[2 * j] == segs[j]);
        assert(il[2 * j + 1] == vals[j]);
        assert(il.take(2 * k) =~= il.take(2 * j).push(segs[j]).push(vals[j]));
        il.take(2 * j).lemma_flatten_push(segs[j]);
        il.take(2 * j).push(segs[j]).lemma_flatten_push(vals[j]);
        assert(joined(segs, vals, k) =~= joined(segs, vals, j) + segs[j] + vals[j]);
    }
}

/// When a template holds exactly as many placeholders `m` as there are values,
/// filling it gives its segments with the values between them, in order:
/// `segment_0 + value_0 + segment_1 + ... + value_(n-1) + segment_n`.
pub proof fn lemma_interpolation_concatenates_segments(
    t: Seq<char>,
    m: Seq<char>,
    vals: Seq<Seq<char>>,
)
    requires
        placeholder_count(t, m) == vals.len(),
    ensures
        interpolation(t, m, vals) == interleaved(split_on(t, m), vals).flatten(),
{
    let segs = split_on(t, m);
    let il = interleaved(segs, vals);
    let n = vals.len() as int;
    lemma_joined_prefix(segs, vals, n);
    assert(il[2 * n] == segs[n]);
    assert(il =~= il.take(2 * n).push(segs[n]));
    il.take(2 * n).lemma_flatten_push(segs[n]);
    assert(joined(segs, vals, n + 1) =~= joined(segs, vals, n) + segs[n]);
}

/// `n` copies of `m`.
pub open spec fn copies(n: nat, m: Seq<char>) -> Seq<Seq<char>> {
    Seq::new(n, |i: int| m)
}

/// The segments joined back together, with `m` between each two.
pub open spec fn rejoined(segs: Seq<Seq<char>>, m: Seq<char>) -> Seq<char> {
    interleaved(segs, copies((segs.len() - 1) as nat, m)).flatten()
}

proof fn lemma_rejoined_cons(x: Seq<char>, rest: Seq<Seq<char>>, m: Seq<char>)
    requires
        rest.len() >= 1,
    ensures
        rejoined(seq![x] + rest, m) == x + m + rejoined(rest, m),
{
    let s = seq![x] + rest;
    let il = interleaved(s, copies((s.len() - 1) as nat, m));
    let il2 = interleaved(rest, copies((rest.len() - 1) as nat, m));
    assert forall|i: int| 0 <= i < il2.len() implies #[trigger] il.drop_first().drop_first()[i]
        == il2[i] by {
        assert((i + 2) % 2 == i % 2);
        assert((i + 2) / 2 == i / 2 + 1);
    }
    assert(il.drop_first().drop_first() =~= il2);
    assert(il[0] == x);
    assert(il[1] == m);
    assert(il.flatten() == x + il.drop_first().flatten());
    assert(il.drop_first().flatten() == m + il.drop_first().drop_first().flatten());
}

proof fn lemma_segments_rejoin(t: Seq<char>, m: Seq<char>, start: int, i: int)
    requires
        m.len() > 0,
        0 <= start <= i <= t.len(),
    ensures
        rejoined(segments_from(t, m, start, i), m) == t.subrange(start, t.len() as int),
    decreases t.len() - i,
{
    if i >= t.len() {
        let one = seq![t.subrange(start, t.len() as int)];
        let il = interleaved(one, copies(0, m));
        assert(il =~= one);
        assert(il.drop_first() =~= Seq::<Seq<char>>::empty());
        assert(il.flatten() == il[0] + il.drop_first().flatten());
        assert(il.flatten() =~= t.subrange(start, t.len() as int));
    } else if marker_at(t, m, i) {
        let rest = segments_from(t, m, i + m.len(), i + m.len());
        lemma_segments_rejoin(t, m, i + m.len(), i + m.len());
        lemma_segments_nonempty(t, m, i + m.len(), i + m.len());
        lemma_rejoined_cons(t.subrange(start, i), rest, m);
        assert(t.subrange(start, t.len() as int) =~= t.subrange(start, i) + m + t.subrange(
            i + m.len(),
            t.len() as int,
        ));
    } else {
        lemma_segments_rejoin(t, m, start, i + 1);
    }
}

/// Splitting loses nothing: joining the segments back together with the
/// marker between each two gives the template again.
pub proof fn lemma_split_rejoins(t: Seq<char>, m: Seq<char>)
    requires
        m.len() > 0,
    ensures
        rejoined(split_on(t, m), m) == t,
{
    lemma_segments_rejoin(t, m, 0, 0);
    assert(t.subrange(0, t.len() as int) =~= t);
}

} // verus!
