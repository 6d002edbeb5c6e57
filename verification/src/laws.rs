//! The history store's laws, proved once over the recording and loading
//! specifications and holding for every history the store can reach.

use vstd::prelude::*;

use crate::codec::decoded;
use crate::history::MAX_HISTORY_SIZE;
use crate::history::spec_inserted;
use crate::history::spec_load;
use crate::history::spec_record;
use crate::text::spec_blank;

verus! {

/// Law: recording keeps the history within its bound, whatever the content,
/// so every sequence of recordings starting from a bounded history stays
/// bounded.
pub proof fn lemma_record_bounded(h: Seq<(Seq<char>, u64)>, c: Seq<char>, t: u64)
    requires
        h.len() <= MAX_HISTORY_SIZE,
    ensures
        spec_record(h, c, t).len() <= MAX_HISTORY_SIZE,
{
}

/// Law: recording blank content never changes the history.
pub proof fn lemma_blank_never_recorded(h: Seq<(Seq<char>, u64)>, c: Seq<char>, t: u64)
    requires
        spec_blank(c),
    ensures
        spec_record(h, c, t) == h,
{
}

/// Law: recording the same content twice in a row changes nothing the second
/// time; only an intervening different content makes it recordable again.
pub proof fn lemma_adjacent_duplicate_suppressed(
    h: Seq<(Seq<char>, u64)>,
    c: Seq<char>,
    t1: u64,
    t2: u64,
)
    ensures
        spec_record(spec_record(h, c, t1), c, t2) == spec_record(h, c, t1),
{
    let h1 = spec_record(h, c, t1);
    if spec_inserted(h, c) {
        let pushed = seq![(c, t1)] + h;
        assert(pushed[0] == (c, t1));
        assert(h1[0].0 == c);
        assert(!spec_inserted(h1, c));
    }
}

/// Law: a duplicate further back is kept. Recording `a`, then a different
/// `b`, then `a` again leaves both copies of `a` in place: the three newest
/// entries are `a`, `b`, `a`.
pub proof fn lemma_nonadjacent_duplicates_kept(
    h: Seq<(Seq<char>, u64)>,
    a: Seq<char>,
    b: Seq<char>,
    t1: u64,
    t2: u64,
    t3: u64,
)
    requires
        h.len() <= MAX_HISTORY_SIZE,
        !spec_blank(b),
        a != b,
        spec_inserted(h, a),
    ensures
        ({
            let r = spec_record(spec_record(spec_record(h, a, t1), b, t2), a, t3);
            &&& r.len() >= 3
            &&& r[0] == (a, t3)
            &&& r[1] == (b, t2)
            &&& r[2] == (a, t1)
        }),
{
    let h1 = spec_record(h, a, t1);
    assert(h1[0] == (a, t1));
    assert(spec_inserted(h1, b));
    let h2 = spec_record(h1, b, t2);
    assert(h2[0] == (b, t2));
    assert(h2[1] == (a, t1));
    assert(spec_inserted(h2, a));
    let h3 = spec_record(h2, a, t3);
    assert(h3[0] == (a, t3));
    assert(h3[1] == (b, t2));
    assert(h3[2] == (a, t1));
}

/// Law: inserting into a full history evicts exactly the oldest entry — the
/// new entry stands at the front, every other entry moves back one place, and
/// the previous oldest entry is gone.
pub proof fn lemma_full_history_evicts_oldest(h: Seq<(Seq<char>, u64)>, c: Seq<char>, t: u64)
    requires
        h.len() == MAX_HISTORY_SIZE,
        spec_inserted(h, c),
    ensures
        ({
            let r = spec_record(h, c, t);
            &&& r.len() == MAX_HISTORY_SIZE
            &&& r[0] == (c, t)
            &&& forall|i: int| 1 <= i < MAX_HISTORY_SIZE ==> r[i] == h[i - 1]
        }),
{
    let pushed = seq![(c, t)] + h;
    let r = spec_record(h, c, t);
    assert forall|i: int| 1 <= i < MAX_HISTORY_SIZE implies r[i] == h[i - 1] by {
        assert(r[i] == pushed[i]);
    }
}

/// Law: persisted text that decodes to a bounded list of entries loads back
/// to exactly those entries; together with what `History::serialize` ensures,
/// a history survives a save and reload unchanged.
pub proof fn lemma_persist_roundtrip(s: Seq<char>, v: Seq<(Seq<char>, u64)>)
    requires
        decoded(s) == Some(v),
        v.len() <= MAX_HISTORY_SIZE,
    ensures
        spec_load(Some(s)) == v,
{
}

} // verus!
