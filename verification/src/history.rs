//! The history store: a bounded, newest-first list of clipboard snapshots with
//! adjacent-duplicate suppression, loaded from and encoded to persisted text.

use std::collections::VecDeque;
use vstd::prelude::*;

use crate::codec::decode_pairs;
use crate::codec::decoded;
use crate::codec::encode_pairs;
use crate::codec::pair_views;
use crate::text::is_blank;
use crate::text::preview_label;
use crate::text::spec_blank;
use crate::text::spec_preview;

verus! {

/// The most entries the history ever holds.
pub const MAX_HISTORY_SIZE: usize = 50;

/// One historical clipboard snapshot: its text and when it was recorded,
/// in seconds since the epoch.
pub struct ClipboardEntry {
    pub content: String,
    pub timestamp: u64,
}

impl View for ClipboardEntry {
    type V = (Seq<char>, u64);

    open spec fn view(&self) -> (Seq<char>, u64) {
        (self.content@, self.timestamp)
    }
}

/// Whether recording `c` into history `h` inserts a new entry: blank content
/// and content equal to the current newest entry are ignored.
pub open spec fn spec_inserted(h: Seq<(Seq<char>, u64)>, c: Seq<char>) -> bool {
    &&& !spec_blank(c)
    &&& !(h.len() > 0 && h[0].0 == c)
}

/// What recording `c` at time `t` does to history `h`: a no-op when nothing is
/// inserted, otherwise a push to the front, with the oldest entry dropped when
/// the bound would be exceeded.
pub open spec fn spec_record(h: Seq<(Seq<char>, u64)>, c: Seq<char>, t: u64) -> Seq<
    (Seq<char>, u64),
> {
    if !spec_inserted(h, c) {
        h
    } else {
        let pushed = seq![(c, t)] + h;
        if pushed.len() > MAX_HISTORY_SIZE {
            pushed.take(MAX_HISTORY_SIZE as int)
        } else {
            pushed
        }
    }
}

/// What loading persisted text yields: empty for a missing file or malformed
/// text, otherwise the decoded entries, cut to the bound.
pub open spec fn spec_load(d: Option<Seq<char>>) -> Seq<(Seq<char>, u64)> {
    match d {
        Option::None => Seq::empty(),
        Option::Some(s) => match decoded(s) {
            Option::None => Seq::empty(),
            Option::Some(v) => if v.len() > MAX_HISTORY_SIZE {
                v.take(MAX_HISTORY_SIZE as int)
            } else {
                v
            },
        },
    }
}

/// The bounded, ordered, adjacent-deduplicated clipboard history.
/// Newest entry first. Its view is the list of (content, timestamp) pairs.
pub struct History {
    entries: VecDeque<ClipboardEntry>,
}

impl View for History {
    type V = Seq<(Seq<char>, u64)>;

    closed spec fn view(&self) -> Seq<(Seq<char>, u64)> {
        Seq::new(self.entries@.len(), |i: int| self.entries@[i]@)
    }
}

impl History {
    /// The store's invariant: never more entries than the bound.
    pub open spec fn wf(&self) -> bool {
        self@.len() <= MAX_HISTORY_SIZE
    }

    /// An empty history.
    pub fn new() -> (h: History)
        ensures
            h.wf(),
            h@ == Seq::<(Seq<char>, u64)>::empty(),
    {
        let h = History { entries: VecDeque::new() };
        proof {
            assert(h@ =~= Seq::<(Seq<char>, u64)>::empty());
        }
        h
    }

    /// How many entries are stored.
    pub fn len(&self) -> (n: usize)
        ensures
            n == self@.len(),
    {
        self.entries.len()
    }

    /// Bounds-checked lookup, newest entry at index 0.
    pub fn get(&self, index: usize) -> (r: Option<&ClipboardEntry>)
        ensures
            match r {
                Some(e) => index < self@.len() && e@ == self@[index as int],
                None => index >= self@.len(),
            },
    {
        if index < self.entries.len() {
            Some(&self.entries[index])
        } else {
            None
        }
    }

    /// Records observed clipboard content at the given time. Blank content and
    /// content equal to the current newest entry are ignored; otherwise the
    /// entry goes to the front and the oldest entry is dropped when the store
    /// is full. Returns whether an entry was inserted.
    pub fn record(&mut self, content: String, now: u64) -> (inserted: bool)
        requires
            old(self).wf(),
        ensures
            final(self).wf(),
            final(self)@ == spec_record(old(self)@, content@, now),
            inserted == spec_inserted(old(self)@, content@),
    {
        if is_blank(content.as_str()) {
            return false;
        }
        if self.entries.len() > 0 {
            let newest = &self.entries[0];
            if newest.content == content {
                return false;
            }
        }
        let ghost pushed = seq![(content@, now)] + old(self)@;
        let entry = ClipboardEntry { content, timestamp: now };
        self.entries.push_front(entry);
        proof {
            assert(self@ =~= pushed);
        }
        if self.entries.len() > MAX_HISTORY_SIZE {
            self.entries.pop_back();
            proof {
                assert(self@ =~= pushed.take(MAX_HISTORY_SIZE as int));
            }
        }
        true
    }

    /// The display label of every entry, newest first: what a presentation
    /// layer lists for the user to pick from.
    pub fn preview_labels(&self) -> (r: Vec<String>)
        ensures
            r@.len() == self@.len(),
            forall|i: int| 0 <= i < r@.len() ==> r@[i]@ == spec_preview(self@[i].0),
    {
        let mut r: Vec<String> = Vec::new();
        let n = self.entries.len();
        let mut i: usize = 0;
        while i < n
            invariant
                i <= n,
                n == self@.len(),
                r@.len() == i,
                forall|j: int| 0 <= j < i ==> r@[j]@ == spec_preview(self@[j].0),
            decreases n - i,
        {
            let label = preview_label(self.entries[i].content.as_str());
            r.push(label);
            i += 1;
        }
        r
    }

    /// Builds a history from decoded (content, timestamp) pairs, keeping at
    /// most the first `MAX_HISTORY_SIZE` of them.
    fn from_pairs(pairs: Vec<(String, u64)>) -> (h: History)
        ensures
            h.wf(),
            h@ == if pair_views(pairs@).len() > MAX_HISTORY_SIZE {
                pair_views(pairs@).take(MAX_HISTORY_SIZE as int)
            } else {
                pair_views(pairs@)
            },
    {
        let n = if pairs.len() > MAX_HISTORY_SIZE {
            MAX_HISTORY_SIZE
        } else {
            pairs.len()
        };
        let mut entries: VecDeque<ClipboardEntry> = VecDeque::new();
        let mut i: usize = 0;
        while i < n
            invariant
                i <= n,
                n <= pairs@.len(),
                n == if pairs@.len() > MAX_HISTORY_SIZE {
                    MAX_HISTORY_SIZE as int
                } else {
                    pairs@.len() as int
                },
                entries@.len() == i,
                forall|j: int| 0 <= j < i ==> entries@[j]@ == pair_views(pairs@)[j],
            decreases n - i,
        {
            let content = pairs[i].0.clone();
            let timestamp = pairs[i].1;
            entries.push_back(ClipboardEntry { content, timestamp });
            i += 1;
        }
        let h = History { entries };
        proof {
            if pair_views(pairs@).len() > MAX_HISTORY_SIZE {
                assert(h@ =~= pair_views(pairs@).take(MAX_HISTORY_SIZE as int));
            } else {
                assert(h@ =~= pair_views(pairs@));
            }
        }
        h
    }

    /// Loads a history from the persisted file's text: `None` stands for a
    /// missing file; malformed text yields an empty history, never a failure.
    pub fn load_from_data(data: Option<&str>) -> (h: History)
        ensures
            h.wf(),
            h@ == spec_load(match data {
                Some(s) => Some(s@),
                None => None,
            }),
    {
        match data {
            None => History::new(),
            Some(s) => match decode_pairs(s) {
                None => History::new(),
                Some(pairs) => History::from_pairs(pairs),
            },
        }
    }

    /// Encodes the history for persistence: text that parses back to exactly
    /// this history. Encoding is owed; only the file write can fail, and that
    /// failure is the caller's to log and swallow.
    pub fn serialize(&self) -> (r: String)
        ensures
            decoded(r@) == Some(self@),
    {
        let mut pairs: Vec<(String, u64)> = Vec::new();
        let mut i: usize = 0;
        let n = self.entries.len();
        while i < n
            invariant
                i <= n,
                n == self@.len(),
                pairs@.len() == i,
                forall|j: int| 0 <= j < i ==> (pairs@[j].0@, pairs@[j].1) == self@[j],
            decreases n - i,
        {
            let content = self.entries[i].content.clone();
            let timestamp = self.entries[i].timestamp;
            pairs.push((content, timestamp));
            i += 1;
        }
        proof {
            assert(pair_views(pairs@) =~= self@);
        }
        match encode_pairs(&pairs) {
            Some(s) => s,
            None => unreached(),
        }
    }
}

} // verus!
