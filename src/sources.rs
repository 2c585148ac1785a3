//! Counting of open raw sources per session identifier.

use vstd::prelude::*;

use crate::device::{RawKind, RawSource};

verus! {

/// Whether `s` is a source of pad `id` (of the high-level kind only, when
/// `gamepad_only`).
pub open spec fn source_matches(s: RawSource, id: u32, gamepad_only: bool) -> bool {
    s.id == id && (!gamepad_only || s.kind == RawKind::Gamepad)
}

/// How many sources in `s` match pad `id`.
pub open spec fn count_sources(s: Seq<RawSource>, id: u32, gamepad_only: bool) -> nat
    decreases s.len(),
{
    if s.len() == 0 {
        0
    } else {
        count_sources(s.drop_last(), id, gamepad_only) + if source_matches(
            s.last(),
            id,
            gamepad_only,
        ) {
            1nat
        } else {
            0nat
        }
    }
}

/// Index of the last source of pad `id` opened through path `kind` in `s`,
/// or -1 when there is none.
pub open spec fn last_source_of(s: Seq<RawSource>, id: u32, kind: RawKind) -> int
    decreases s.len(),
{
    if s.len() == 0 {
        -1
    } else if s.last().id == id && s.last().kind == kind {
        s.len() - 1
    } else {
        last_source_of(s.drop_last(), id, kind)
    }
}

/// Index of the last source of pad `id` in `s`, whatever its path, or -1
/// when there is none.
pub open spec fn last_source_any(s: Seq<RawSource>, id: u32) -> int
    decreases s.len(),
{
    if s.len() == 0 {
        -1
    } else if s.last().id == id {
        s.len() - 1
    } else {
        last_source_any(s.drop_last(), id)
    }
}

/// The source a detach of pad `id` through `kind` closes: the most recent
/// one of that pad and path, else the most recent one of that pad; -1 when
/// the pad has none.
pub open spec fn detach_index(s: Seq<RawSource>, id: u32, kind: RawKind) -> int {
    if last_source_of(s, id, kind) >= 0 {
        last_source_of(s, id, kind)
    } else {
        last_source_any(s, id)
    }
}

/// A count never exceeds the number of sources.
pub proof fn lemma_count_le_len(s: Seq<RawSource>, id: u32, g: bool)
    ensures
        count_sources(s, id, g) <= s.len(),
    decreases s.len(),
{
    if s.len() > 0 {
        lemma_count_le_len(s.drop_last(), id, g);
    }
}

/// Appending a source adds one to the counts it matches.
pub proof fn lemma_count_push(s: Seq<RawSource>, x: RawSource, id: u32, g: bool)
    ensures
        count_sources(s.push(x), id, g) == count_sources(s, id, g) + if source_matches(x, id, g) {
            1nat
        } else {
            0nat
        },
{
    assert(s.push(x).drop_last() =~= s);
}

/// Removing the source at `k` takes one from the counts it matched.
pub proof fn lemma_count_remove(s: Seq<RawSource>, k: int, id: u32, g: bool)
    requires
        0 <= k < s.len(),
    ensures
        count_sources(s.remove(k), id, g) + (if source_matches(s[k], id, g) {
            1nat
        } else {
            0nat
        }) == count_sources(s, id, g),
    decreases s.len(),
{
    if k == s.len() - 1 {
        assert(s.remove(k) =~= s.drop_last());
    } else {
        lemma_count_remove(s.drop_last(), k, id, g);
        assert(s.remove(k).drop_last() =~= s.drop_last().remove(k));
        assert(s.remove(k).last() == s.last());
    }
}

/// A count is zero exactly when no source matches.
pub proof fn lemma_count_zero(s: Seq<RawSource>, id: u32, g: bool)
    ensures
        count_sources(s, id, g) == 0 <==> forall|i: int|
            0 <= i < s.len() ==> !source_matches(#[trigger] s[i], id, g),
    decreases s.len(),
{
    if s.len() > 0 {
        lemma_count_zero(s.drop_last(), id, g);
        if count_sources(s, id, g) == 0 {
            assert forall|i: int| 0 <= i < s.len() implies !source_matches(
                #[trigger] s[i],
                id,
                g,
            ) by {
                if i < s.len() - 1 {
                    assert(s[i] == s.drop_last()[i]);
                }
            }
        } else {
            if !source_matches(s.last(), id, g) {
                let j = choose|j: int|
                    0 <= j < s.drop_last().len() && source_matches(
                        #[trigger] s.drop_last()[j],
                        id,
                        g,
                    );
                assert(s[j] == s.drop_last()[j]);
            }
        }
    }
}

/// The last source of pad `id` through `kind`, when there is one, is such
/// a source; there is none exactly when no source matches both.
pub proof fn lemma_last_source_of(s: Seq<RawSource>, id: u32, kind: RawKind)
    ensures
        -1 <= last_source_of(s, id, kind) < s.len(),
        last_source_of(s, id, kind) >= 0 ==> s[last_source_of(s, id, kind)] == (RawSource {
            id,
            kind,
        }),
        last_source_of(s, id, kind) == -1 <==> forall|i: int|
            0 <= i < s.len() ==> #[trigger] s[i] != (RawSource { id, kind }),
    decreases s.len(),
{
    if s.len() > 0 {
        lemma_last_source_of(s.drop_last(), id, kind);
        if last_source_of(s, id, kind) == -1 {
            assert forall|i: int| 0 <= i < s.len() implies #[trigger] s[i] != (RawSource {
                id,
                kind,
            }) by {
                if i < s.len() - 1 {
                    assert(s[i] == s.drop_last()[i]);
                }
            }
        } else if last_source_of(s.drop_last(), id, kind) == -1 && s.last() != (RawSource {
            id,
            kind,
        }) {
            let j = choose|j: int|
                0 <= j < s.drop_last().len() && #[trigger] s.drop_last()[j] == (RawSource {
                    id,
                    kind,
                });
            assert(s[j] == s.drop_last()[j]);
        }
    }
}

/// The last source of pad `id`, when there is one, belongs to pad `id`;
/// there is none exactly when the pad has no source.
pub proof fn lemma_last_source_any(s: Seq<RawSource>, id: u32)
    ensures
        -1 <= last_source_any(s, id) < s.len(),
        last_source_any(s, id) >= 0 ==> s[last_source_any(s, id)].id == id,
        last_source_any(s, id) == -1 <==> count_sources(s, id, false) == 0,
    decreases s.len(),
{
    if s.len() > 0 {
        lemma_last_source_any(s.drop_last(), id);
    }
}

/// A detach of a pad with sources closes one of that pad's sources; one
/// of a pad without sources closes none.
pub proof fn lemma_detach_index(s: Seq<RawSource>, id: u32, kind: RawKind)
    ensures
        -1 <= detach_index(s, id, kind) < s.len(),
        detach_index(s, id, kind) >= 0 ==> s[detach_index(s, id, kind)].id == id,
        detach_index(s, id, kind) == -1 <==> count_sources(s, id, false) == 0,
{
    lemma_last_source_of(s, id, kind);
    lemma_last_source_any(s, id);
    lemma_count_zero(s, id, false);
    if last_source_of(s, id, kind) >= 0 {
        assert(source_matches(s[last_source_of(s, id, kind)], id, false));
    }
}

/// Index of the last source of pad `id`, whatever its path.
pub fn find_last_any(s: &Vec<RawSource>, id: u32) -> (r: Option<usize>)
    ensures
        match r {
            Some(k) => k as int == last_source_any(s@, id),
            None => last_source_any(s@, id) == -1,
        },
{
    let mut i: usize = s.len();
    proof {
        assert(s@.take(i as int) =~= s@);
    }
    while i > 0
        invariant
            i <= s@.len(),
            last_source_any(s@, id) == last_source_any(s@.take(i as int), id),
        decreases i,
    {
        proof {
            let t = s@.take(i as int);
            assert(t.drop_last() =~= s@.take(i - 1));
        }
        if s[i - 1].id == id {
            return Some(i - 1);
        }
        i = i - 1;
    }
    None
}

/// Index of the last source of pad `id` opened through `kind`.
pub fn find_last_source(s: &Vec<RawSource>, id: u32, kind: RawKind) -> (r: Option<usize>)
    ensures
        match r {
            Some(k) => k as int == last_source_of(s@, id, kind),
            None => last_source_of(s@, id, kind) == -1,
        },
{
    let mut i: usize = s.len();
    proof {
        assert(s@.take(i as int) =~= s@);
    }
    while i > 0
        invariant
            i <= s@.len(),
            last_source_of(s@, id, kind) == last_source_of(s@.take(i as int), id, kind),
        decreases i,
    {
        proof {
            let t = s@.take(i as int);
            assert(t.drop_last() =~= s@.take(i - 1));
        }
        if s[i - 1].id == id && s[i - 1].kind == kind {
            return Some(i - 1);
        }
        i = i - 1;
    }
    None
}

/// Index of the first high-level source of pad `id`.
pub fn find_gamepad(s: &Vec<RawSource>, id: u32) -> (r: Option<usize>)
    ensures
        match r {
            Some(k) => k < s@.len() && source_matches(s@[k as int], id, true) && forall|j: int|
                0 <= j < k ==> !source_matches(#[trigger] s@[j], id, true),
            None => count_sources(s@, id, true) == 0,
        },
{
    let mut i: usize = 0;
    while i < s.len()
        invariant
            i <= s@.len(),
            forall|j: int| 0 <= j < i ==> !source_matches(#[trigger] s@[j], id, true),
        decreases s@.len() - i,
    {
        if s[i].id == id && s[i].kind == RawKind::Gamepad {
            return Some(i);
        }
        i = i + 1;
    }
    proof {
        lemma_count_zero(s@, id, true);
    }
    None
}

} // verus!
