//! Per-key coordination of archive builds.
//!
//! The cache decides, for each request, whether it starts a build, waits for
//! the build already in flight, or is served the finished archive. It performs
//! no I/O itself: the caller runs the packaging operation it is told to start,
//! and reports the outcome back, which releases every waiter of that key.
//!
//! Entries are never evicted: a finished archive is served for the lifetime of
//! the process, and only a failed entry is built again.
use vstd::prelude::*;

verus! {

/// The state of one key, as the contracts see it. A key with no entry is absent.
pub enum EntryView {
    /// A build is in flight; the requesters waiting for it, in arrival order.
    Building(Seq<u64>),
    /// The archive was fully written at this path.
    Ready(Seq<char>),
    /// The last build failed; the next request builds again.
    Failed,
}

/// The state of one key.
pub enum Entry {
    Building(Vec<u64>),
    Ready(String),
    Failed,
}

impl View for Entry {
    type V = EntryView;

    open spec fn view(&self) -> EntryView {
        match self {
            Entry::Building(w) => EntryView::Building(w@),
            Entry::Ready(p) => EntryView::Ready(p@),
            Entry::Failed => EntryView::Failed,
        }
    }
}

/// What a request must do next, as the contracts see it.
pub enum ActionView {
    StartBuild,
    Wait,
    Serve(Seq<char>),
}

/// What a request must do next.
pub enum FetchAction {
    /// Run the packaging operation for the key, then report with `finish_build`.
    StartBuild,
    /// A build is in flight: wait until `finish_build` releases this requester.
    Wait,
    /// The archive is ready at this path.
    Serve(String),
}

impl View for FetchAction {
    type V = ActionView;

    open spec fn view(&self) -> ActionView {
        match self {
            FetchAction::StartBuild => ActionView::StartBuild,
            FetchAction::Wait => ActionView::Wait,
            FetchAction::Serve(p) => ActionView::Serve(p@),
        }
    }
}

pub type CacheModel = Map<Seq<char>, EntryView>;

/// The state of `k` after `who` asks for it.
pub open spec fn fetch_next(m: CacheModel, k: Seq<char>, who: u64) -> CacheModel {
    if m.contains_key(k) {
        match m[k] {
            EntryView::Building(ws) => m.insert(k, EntryView::Building(ws.push(who))),
            EntryView::Ready(_) => m,
            EntryView::Failed => m.insert(k, EntryView::Building(seq![who])),
        }
    } else {
        m.insert(k, EntryView::Building(seq![who]))
    }
}

/// What a request for `k` is told to do.
pub open spec fn fetch_action(m: CacheModel, k: Seq<char>) -> ActionView {
    if m.contains_key(k) {
        match m[k] {
            EntryView::Building(_) => ActionView::Wait,
            EntryView::Ready(p) => ActionView::Serve(p),
            EntryView::Failed => ActionView::StartBuild,
        }
    } else {
        ActionView::StartBuild
    }
}

/// The state after the build of `k` ends with `outcome` (the archive's path,
/// or `None` on failure). Nothing changes when no build of `k` is in flight.
pub open spec fn finish_next(m: CacheModel, k: Seq<char>, outcome: Option<Seq<char>>) -> CacheModel {
    if m.contains_key(k) && m[k] is Building {
        match outcome {
            Some(p) => m.insert(k, EntryView::Ready(p)),
            None => m.insert(k, EntryView::Failed),
        }
    } else {
        m
    }
}

/// The view of a build outcome.
pub open spec fn path_view(outcome: &Option<String>) -> Option<Seq<char>> {
    match outcome {
        Some(p) => Some(p@),
        None => None,
    }
}

/// The requesters that the end of the build of `k` releases.
pub open spec fn released(m: CacheModel, k: Seq<char>) -> Seq<u64> {
    if m.contains_key(k) {
        match m[k] {
            EntryView::Building(ws) => ws,
            _ => Seq::empty(),
        }
    } else {
        Seq::empty()
    }
}

/// Archive build coordination for all keys. Each key has its own entry, and
/// an operation on one key leaves every other key's entry as it was.
pub struct ArchiveCache {
    keys: Vec<String>,
    entries: Vec<Entry>,
    model: Ghost<CacheModel>,
}

impl View for ArchiveCache {
    type V = CacheModel;

    closed spec fn view(&self) -> CacheModel {
        self.model@
    }
}

impl ArchiveCache {
    pub closed spec fn wf(&self) -> bool {
        &&& self.keys.len() == self.entries.len()
        &&& forall|i: int|
            0 <= i < self.keys.len() ==> #[trigger] self.model@.contains_key(self.keys@[i]@)
                && self.model@[self.keys@[i]@] == self.entries@[i]@
        &&& forall|k: Seq<char>| #[trigger]
            self.model@.contains_key(k) ==> exists|i: int|
                0 <= i < self.keys.len() && #[trigger] self.keys@[i]@ == k
        &&& forall|i: int, j: int|
            0 <= i < j < self.keys.len() ==> self.keys@[i]@ != self.keys@[j]@
    }

    /// A cache in which every key is absent.
    pub fn new() -> (r: ArchiveCache)
        ensures
            r.wf(),
            r@ == CacheModel::empty(),
    {
        ArchiveCache { keys: Vec::new(), entries: Vec::new(), model: Ghost(Map::empty()) }
    }

    /// The position of `key`'s entry, if it has one.
    fn find(&self, key: &String) -> (r: Option<usize>)
        requires
            self.wf(),
        ensures
            match r {
                Some(i) => i < self.keys.len() && self.keys@[i as int]@ == key@,
                None => !self@.contains_key(key@),
            },
    {
        let mut i: usize = 0;
        while i < self.keys.len()
            invariant
                self.wf(),
                i <= self.keys.len(),
                forall|j: int| 0 <= j < i ==> self.keys@[j]@ != key@,
            decreases self.keys.len() - i,
        {
            if self.keys[i] == *key {
                return Some(i);
            }
            i = i + 1;
        }
        None
    }

    /// Replaces the entry at `i`, and its key's state in the model.
    fn put(&mut self, i: usize, e: Entry)
        requires
            old(self).wf(),
            i < old(self).keys.len(),
        ensures
            final(self).wf(),
            final(self)@ == old(self)@.insert(old(self).keys@[i as int]@, e@),
            final(self).keys@ == old(self).keys@,
    {
        let ghost k = self.keys@[i as int]@;
        let ghost model0 = self.model@;
        self.entries.set(i, e);
        self.model = Ghost(self.model@.insert(k, e@));
        assert forall|k2: Seq<char>| #[trigger] self.model@.contains_key(k2) implies exists|j: int|
            0 <= j < self.keys.len() && #[trigger] self.keys@[j]@ == k2 by {
            if k2 == k {
                assert(self.keys@[i as int]@ == k2);
            } else {
                assert(model0.contains_key(k2));
            }
        }
    }

    /// Adds an entry for a key that has none.
    fn add(&mut self, key: String, e: Entry)
        requires
            old(self).wf(),
            !old(self)@.contains_key(key@),
        ensures
            final(self).wf(),
            final(self)@ == old(self)@.insert(key@, e@),
    {
        let ghost k = key@;
        let ghost n = self.keys.len() as int;
        let ghost keys0 = self.keys@;
        let ghost model0 = self.model@;
        self.keys.push(key);
        self.entries.push(e);
        self.model = Ghost(self.model@.insert(k, e@));
        assert(self.keys@[n]@ == k);
        assert forall|k2: Seq<char>| #[trigger] self.model@.contains_key(k2) implies exists|j: int|
            0 <= j < self.keys.len() && #[trigger] self.keys@[j]@ == k2 by {
            if k2 == k {
                assert(self.keys@[n]@ == k2);
            } else {
                assert(model0.contains_key(k2));
                let j = choose|j: int| 0 <= j < n && #[trigger] keys0[j]@ == k2;
                assert(self.keys@[j] == keys0[j]);
            }
        }
    }

    /// A request by `who` for the archive of `key`. An absent or failed key
    /// starts a build with `who` as its only waiter; a key being built adds
    /// `who` to its waiters and starts nothing; a ready key is served.
    pub fn begin_fetch(&mut self, key: &str, who: u64) -> (r: FetchAction)
        requires
            old(self).wf(),
        ensures
            final(self).wf(),
            final(self)@ == fetch_next(old(self)@, key@, who),
            r@ == fetch_action(old(self)@, key@),
    {
        let key = String::from_str(key);
        match self.find(&key) {
            None => {
                let mut ws: Vec<u64> = Vec::new();
                ws.push(who);
                let e = Entry::Building(ws);
                assert(e@ == EntryView::Building(seq![who]));
                self.add(key, e);
                FetchAction::StartBuild
            },
            Some(i) => {
                match &self.entries[i] {
                    Entry::Building(ws) => {
                        let mut waiting = ws.clone();
                        assert(waiting@ =~= ws@);
                        waiting.push(who);
                        self.put(i, Entry::Building(waiting));
                        FetchAction::Wait
                    },
                    Entry::Ready(p) => FetchAction::Serve(p.clone()),
                    Entry::Failed => {
                        let mut ws: Vec<u64> = Vec::new();
                        ws.push(who);
                        let e = Entry::Building(ws);
                        assert(e@ == EntryView::Building(seq![who]));
                        self.put(i, e);
                        FetchAction::StartBuild
                    },
                }
            },
        }
    }

    /// Reports the end of the build of `key`: `Some(path)` once the archive is
    /// fully written at `path`, `None` when packaging failed. Returns every
    /// requester that was waiting for this build, in arrival order; each of
    /// them is owed the same outcome. A key with no build in flight is left
    /// unchanged and releases nobody.
    pub fn finish_build(&mut self, key: &str, outcome: Option<String>) -> (r: Vec<u64>)
        requires
            old(self).wf(),
        ensures
            final(self).wf(),
            final(self)@ == finish_next(old(self)@, key@, path_view(&outcome)),
            r@ == released(old(self)@, key@),
    {
        let key = String::from_str(key);
        match self.find(&key) {
            None => Vec::new(),
            Some(i) => {
                assert(self.model@.contains_key(self.keys@[i as int]@));
                match &self.entries[i] {
                    Entry::Building(ws) => {
                        let waiting = ws.clone();
                        assert(waiting@ =~= ws@);
                        match outcome {
                            Some(p) => self.put(i, Entry::Ready(p)),
                            None => self.put(i, Entry::Failed),
                        }
                        waiting
                    },
                    _ => {
                        let none: Vec<u64> = Vec::new();
                        assert(none@ =~= Seq::<u64>::empty());
                        none
                    },
                }
            },
        }
    }

}

/// The state after each of `whos`, in order, asks for `k`.
pub open spec fn fetch_all(m: CacheModel, k: Seq<char>, whos: Seq<u64>) -> CacheModel
    decreases whos.len(),
{
    if whos.len() == 0 {
        m
    } else {
        fetch_all(fetch_next(m, k, whos[0]), k, whos.drop_first())
    }
}

/// What each of `whos`, asking for `k` in order, is told to do.
pub open spec fn fetch_all_actions(m: CacheModel, k: Seq<char>, whos: Seq<u64>) -> Seq<ActionView>
    decreases whos.len(),
{
    if whos.len() == 0 {
        Seq::empty()
    } else {
        seq![fetch_action(m, k)] + fetch_all_actions(fetch_next(m, k, whos[0]), k, whos.drop_first())
    }
}

/// While a build of `k` is in flight, every further request waits and joins
/// the waiters; none starts a build.
pub proof fn lemma_requests_join_build(m: CacheModel, k: Seq<char>, ws: Seq<u64>, whos: Seq<u64>)
    requires
        m.contains_key(k),
        m[k] == EntryView::Building(ws),
    ensures
        fetch_all(m, k, whos).contains_key(k),
        fetch_all(m, k, whos)[k] == EntryView::Building(ws + whos),
        fetch_all_actions(m, k, whos).len() == whos.len(),
        forall|i: int| 0 <= i < whos.len() ==> fetch_all_actions(m, k, whos)[i] == ActionView::Wait,
    decreases whos.len(),
{
    if whos.len() > 0 {
        let m1 = fetch_next(m, k, whos[0]);
        lemma_requests_join_build(m1, k, ws.push(whos[0]), whos.drop_first());
        assert(ws.push(whos[0]) + whos.drop_first() =~= ws + whos);
        let tail = fetch_all_actions(m1, k, whos.drop_first());
        assert forall|i: int| 0 <= i < whos.len() implies fetch_all_actions(m, k, whos)[i]
            == ActionView::Wait by {
            if i > 0 {
                assert(fetch_all_actions(m, k, whos)[i] == tail[i - 1]);
            }
        }
    } else {
        assert(ws + whos =~= ws);
    }
}

/// Any number of requests for a key that is absent, or whose last build
/// failed, start exactly one build: the first is told to build, all the others
/// wait for it. The end of that build releases all of them, in arrival order,
/// with the one outcome; a successful build is then served to later requests.
pub proof fn lemma_one_build_per_key(
    m: CacheModel,
    k: Seq<char>,
    whos: Seq<u64>,
    outcome: Option<Seq<char>>,
)
    requires
        whos.len() > 0,
        !m.contains_key(k) || m[k] is Failed,
    ensures
        fetch_all_actions(m, k, whos).len() == whos.len(),
        fetch_all_actions(m, k, whos)[0] == ActionView::StartBuild,
        forall|i: int| 1 <= i < whos.len() ==> fetch_all_actions(m, k, whos)[i] == ActionView::Wait,
        released(fetch_all(m, k, whos), k) == whos,
        finish_next(fetch_all(m, k, whos), k, outcome).contains_key(k),
        finish_next(fetch_all(m, k, whos), k, outcome)[k] == match outcome {
            Some(p) => EntryView::Ready(p),
            None => EntryView::Failed,
        },
        outcome is Some ==> fetch_action(finish_next(fetch_all(m, k, whos), k, outcome), k)
            == ActionView::Serve(outcome->0),
{
    let m1 = fetch_next(m, k, whos[0]);
    assert(m1[k] == EntryView::Building(seq![whos[0]]));
    lemma_requests_join_build(m1, k, seq![whos[0]], whos.drop_first());
    assert(seq![whos[0]] + whos.drop_first() =~= whos);
    let tail = fetch_all_actions(m1, k, whos.drop_first());
    assert forall|i: int| 1 <= i < whos.len() implies fetch_all_actions(m, k, whos)[i]
        == ActionView::Wait by {
        assert(fetch_all_actions(m, k, whos)[i] == tail[i - 1]);
    }
}

/// Requests and build outcomes for one key never change what another key's
/// requests are told, nor that key's entry: a failure of one key neither
/// blocks nor fails another.
pub proof fn lemma_keys_independent(
    m: CacheModel,
    a: Seq<char>,
    b: Seq<char>,
    who: u64,
    outcome: Option<Seq<char>>,
)
    requires
        a != b,
    ensures
        fetch_next(m, a, who).contains_key(b) == m.contains_key(b),
        fetch_next(m, a, who)[b] == m[b],
        fetch_action(fetch_next(m, a, who), b) == fetch_action(m, b),
        finish_next(m, a, outcome).contains_key(b) == m.contains_key(b),
        finish_next(m, a, outcome)[b] == m[b],
        fetch_action(finish_next(m, a, outcome), b) == fetch_action(m, b),
        released(finish_next(m, a, outcome), b) == released(m, b),
{
}

/// After a failed build, the next request starts exactly one new build, with
/// itself as the only waiter: nothing of the failed attempt is carried over.
pub proof fn lemma_retry_after_failure(m: CacheModel, k: Seq<char>, ws: Seq<u64>, who: u64)
    requires
        m.contains_key(k),
        m[k] == EntryView::Building(ws),
    ensures
        fetch_action(finish_next(m, k, None), k) == ActionView::StartBuild,
        fetch_next(finish_next(m, k, None), k, who)[k] == EntryView::Building(seq![who]),
        released(fetch_next(finish_next(m, k, None), k, who), k) == seq![who],
{
}

} // verus!
