//! Prepared statement handles memoized by their statement text.
use vstd::prelude::*;

verus! {

/// A cache of prepared statement handles keyed by statement text. A text is
/// compiled by the cluster at most once: after its handle is stored, every
/// later preparation of the same text is answered from the cache.
pub struct StatementCache<H> {
    entries: Vec<(String, H)>,
    contents: Ghost<Map<Seq<char>, H>>,
}

/// What preparing a statement text calls for.
pub enum PrepareStep<'a, H> {
    /// The text was prepared before: reuse this handle, no round trip.
    Cached(&'a H),
    /// The text is new: compile it on the cluster, then store the handle.
    Compile,
}

/// The step that preparing `text` calls for, given the cache's contents.
pub open spec fn prepare_step_of<H>(contents: Map<Seq<char>, H>, text: Seq<char>) -> Option<H> {
    if contents.contains_key(text) {
        Some(contents[text])
    } else {
        None
    }
}

/// The cache's contents after storing `handle` for `text`: the first handle
/// stored for a text is the one kept.
pub open spec fn cache_insert<H>(contents: Map<Seq<char>, H>, text: Seq<char>, handle: H) -> Map<
    Seq<char>,
    H,
> {
    if contents.contains_key(text) {
        contents
    } else {
        contents.insert(text, handle)
    }
}

impl<H> View for StatementCache<H> {
    type V = Map<Seq<char>, H>;

    closed spec fn view(&self) -> Map<Seq<char>, H> {
        self.contents@
    }
}

impl<'a, H> PrepareStep<'a, H> {
    pub open spec fn handle(self) -> Option<H> {
        match self {
            PrepareStep::Cached(h) => Some(*h),
            PrepareStep::Compile => None,
        }
    }
}

impl<H> StatementCache<H> {
    pub closed spec fn wf(&self) -> bool {
        &&& forall|i: int|
            0 <= i < self.entries@.len() ==> {
                &&& self.contents@.contains_key(#[trigger] self.entries@[i].0@)
                &&& self.contents@[self.entries@[i].0@] == self.entries@[i].1
            }
        &&& forall|k: Seq<char>|
            #[trigger] self.contents@.contains_key(k) ==> exists|i: int|
                0 <= i < self.entries@.len() && #[trigger] self.entries@[i].0@ == k
    }

    pub fn new() -> (c: StatementCache<H>)
        ensures
            c.wf(),
            c@ == Map::<Seq<char>, H>::empty(),
    {
        StatementCache { entries: Vec::new(), contents: Ghost(Map::empty()) }
    }

    /// Looks `text` up: the cached handle when the text was prepared before,
    /// else the request to compile it.
    pub fn prepare_step(&self, text: &str) -> (r: PrepareStep<'_, H>)
        requires
            self.wf(),
        ensures
            r.handle() == prepare_step_of(self@, text@),
    {
        let key = text.to_owned();
        let mut i: usize = 0;
        while i < self.entries.len()
            invariant
                self.wf(),
                key@ == text@,
                i <= self.entries@.len(),
                forall|j: int| 0 <= j < i ==> #[trigger] self.entries@[j].0@ != text@,
            decreases self.entries@.len() - i,
        {
            if self.entries[i].0 == key {
                return PrepareStep::Cached(&self.entries[i].1);
            }
            i = i + 1;
        }
        PrepareStep::Compile
    }

    /// Stores the handle compiled for `text`. A text that is cached already
    /// keeps the handle it had, so every caller goes on seeing one handle.
    pub fn insert(&mut self, text: String, handle: H)
        requires
            old(self).wf(),
        ensures
            final(self).wf(),
            final(self)@ == cache_insert(old(self)@, text@, handle),
    {
        if let PrepareStep::Cached(_) = self.prepare_step(text.as_str()) {
            return;
        }
        let ghost key = text@;
        let ghost h = handle;
        let ghost before = self.entries@;
        self.entries.push((text, handle));
        self.contents = Ghost(self.contents@.insert(key, h));
        assert forall|k: Seq<char>| #[trigger] self.contents@.contains_key(k) implies exists|i: int|
            0 <= i < self.entries@.len() && #[trigger] self.entries@[i].0@ == k by {
            if k == key {
                assert(self.entries@[before.len() as int].0@ == k);
            } else {
                let i = choose|i: int| 0 <= i < before.len() && #[trigger] before[i].0@ == k;
                assert(self.entries@[i] == before[i]);
            }
        }
        assert forall|i: int| 0 <= i < self.entries@.len() implies {
            &&& self.contents@.contains_key(#[trigger] self.entries@[i].0@)
            &&& self.contents@[self.entries@[i].0@] == self.entries@[i].1
        } by {
            if i < before.len() {
                assert(self.entries@[i] == before[i]);
            }
        }
    }
}

/// Once a handle is stored for a text, preparing that text again is answered
/// from the cache with that handle, so no second compilation is asked for;
/// storing another handle for it changes nothing, and other texts keep
/// what they had.
pub proof fn law_prepare_is_memoized<H>(
    contents: Map<Seq<char>, H>,
    text: Seq<char>,
    handle: H,
    later: H,
)
    ensures
        prepare_step_of(cache_insert(contents, text, handle), text) == Some(
            if contents.contains_key(text) {
                contents[text]
            } else {
                handle
            },
        ),
        cache_insert(cache_insert(contents, text, handle), text, later) == cache_insert(
            contents,
            text,
            handle,
        ),
        forall|other: Seq<char>|
            other != text ==> #[trigger] prepare_step_of(cache_insert(contents, text, handle), other)
                == prepare_step_of(contents, other),
{
}

} // verus!
