//! The queue of pull requests: ordered by arrival, at most one entry for a URL.

use crate::pull_request::PullRequest;
use vstd::prelude::*;

verus! {

/// Some entry of `q` has the URL `u`.
pub open spec fn queued(q: Seq<PullRequest>, u: Option<Seq<char>>) -> bool {
    exists|i: int| 0 <= i < q.len() && (#[trigger] q[i]).key() == u
}

/// No two entries of `q` have the same URL.
pub open spec fn distinct(q: Seq<PullRequest>) -> bool {
    forall|i: int, j: int| 0 <= i < j < q.len() ==> (#[trigger] q[i]).key() != (#[trigger] q[j]).key()
}

/// What holds of every queue: every entry has a URL, and no two entries
/// have the same.
pub open spec fn is_queue(q: Seq<PullRequest>) -> bool {
    &&& distinct(q)
    &&& forall|i: int| 0 <= i < q.len() ==> (#[trigger] q[i]).url is Some
}

/// `q` after `item` has arrived: it goes to the end, unless it has no URL or
/// an entry with its URL is there already.
pub open spec fn pushed(q: Seq<PullRequest>, item: PullRequest) -> Seq<PullRequest> {
    if item.url is Some && !queued(q, item.key()) {
        q.push(item)
    } else {
        q
    }
}

/// `q` without its first entry that has the URL `u`; `q` itself if there is none.
pub open spec fn without(q: Seq<PullRequest>, u: Option<Seq<char>>) -> Seq<PullRequest>
    decreases q.len(),
{
    if q.len() == 0 {
        q
    } else if q[0].key() == u {
        q.skip(1)
    } else {
        seq![q[0]] + without(q.skip(1), u)
    }
}

/// `q` after the URL of each entry of `marked` has been taken out in turn.
/// A URL that is no longer there is passed over.
pub open spec fn without_all(q: Seq<PullRequest>, marked: Seq<PullRequest>) -> Seq<PullRequest>
    decreases marked.len(),
{
    if marked.len() == 0 {
        q
    } else {
        without(without_all(q, marked.drop_last()), marked.last().key())
    }
}

/// Taking out a URL whose first entry stands at `i` removes that entry.
pub proof fn lemma_without_at(q: Seq<PullRequest>, u: Option<Seq<char>>, i: int)
    requires
        0 <= i < q.len(),
        q[i].key() == u,
        forall|j: int| 0 <= j < i ==> (#[trigger] q[j]).key() != u,
    ensures
        without(q, u) == q.remove(i),
    decreases i,
{
    if i == 0 {
        assert(q.skip(1) =~= q.remove(0));
    } else {
        let rest = q.skip(1);
        assert(q[0].key() != u);
        assert forall|j: int| 0 <= j < i - 1 implies (#[trigger] rest[j]).key() != u by {
            assert(rest[j] == q[j + 1]);
        }
        lemma_without_at(rest, u, i - 1);
        assert(seq![q[0]] + rest.remove(i - 1) =~= q.remove(i));
    }
}

/// Taking out a URL that no entry has changes nothing.
pub proof fn lemma_without_absent(q: Seq<PullRequest>, u: Option<Seq<char>>)
    requires
        !queued(q, u),
    ensures
        without(q, u) == q,
    decreases q.len(),
{
    if q.len() > 0 {
        let rest = q.skip(1);
        assert(q[0].key() != u);
        assert forall|j: int| 0 <= j < rest.len() implies (#[trigger] rest[j]).key() != u by {
            assert(rest[j] == q[j + 1]);
        }
        lemma_without_absent(rest, u);
        assert(seq![q[0]] + rest =~= q);
    }
}

/// In a queue without duplicates, taking out a URL leaves no entry with it,
/// keeps every other entry, and shortens the queue by one if the URL was there.
pub proof fn lemma_without_distinct(q: Seq<PullRequest>, u: Option<Seq<char>>)
    requires
        distinct(q),
    ensures
        distinct(without(q, u)),
        without(q, u).len() == q.len() - if queued(q, u) { 1int } else { 0int },
        forall|v: Option<Seq<char>>| queued(without(q, u), v) <==> queued(q, v) && v != u,
{
    if queued(q, u) {
        let i = choose|i: int| 0 <= i < q.len() && (#[trigger] q[i]).key() == u;
        lemma_without_at(q, u, i);
        let r = q.remove(i);
        assert forall|v: Option<Seq<char>>| queued(r, v) <==> queued(q, v) && v != u by {
            if queued(r, v) {
                let j = choose|j: int| 0 <= j < r.len() && (#[trigger] r[j]).key() == v;
                if j < i {
                    assert(r[j] == q[j]);
                } else {
                    assert(r[j] == q[j + 1]);
                }
            }
            if queued(q, v) && v != u {
                let j = choose|j: int| 0 <= j < q.len() && (#[trigger] q[j]).key() == v;
                if j < i {
                    assert(r[j] == q[j]);
                } else {
                    assert(r[j - 1] == q[j]);
                }
            }
        }
        assert forall|a: int, b: int| 0 <= a < b < r.len() implies (#[trigger] r[a]).key() != (
        #[trigger] r[b]).key() by {
            let a0 = if a < i { a } else { a + 1 };
            let b0 = if b < i { b } else { b + 1 };
            assert(r[a] == q[a0]);
            assert(r[b] == q[b0]);
        }
    } else {
        lemma_without_absent(q, u);
    }
}

/// The queue of pull requests.
pub struct PullRequestQueue {
    items: Vec<PullRequest>,
}

impl View for PullRequestQueue {
    type V = Seq<PullRequest>;

    /// The entries, oldest first.
    closed spec fn view(&self) -> Seq<PullRequest> {
        self.items@
    }
}

/// Where the first entry with the URL of `probe` stands in `items`.
fn position(items: &Vec<PullRequest>, probe: &PullRequest) -> (at: Option<usize>)
    ensures
        match at {
            Some(i) => {
                &&& i < items.len()
                &&& items@[i as int].key() == probe.key()
                &&& forall|j: int| 0 <= j < i ==> (#[trigger] items@[j]).key() != probe.key()
            },
            None => !queued(items@, probe.key()),
        },
{
    let mut i: usize = 0;
    while i < items.len()
        invariant
            i <= items.len(),
            forall|j: int| 0 <= j < i ==> (#[trigger] items@[j]).key() != probe.key(),
        decreases items.len() - i,
    {
        if items[i].same(probe) {
            return Some(i);
        }
        i += 1;
    }
    None
}

impl PullRequestQueue {
    /// Every entry has a URL, and no two entries have the same.
    #[verifier::type_invariant]
    closed spec fn well_formed(&self) -> bool {
        is_queue(self.items@)
    }

    /// The empty queue.
    pub fn new() -> (out: Self)
        ensures
            out@.len() == 0,
    {
        PullRequestQueue { items: Vec::new() }
    }

    /// Takes the entries out, leaving the queue empty.
    fn take_items(&mut self) -> (items: Vec<PullRequest>)
        ensures
            items@ == old(self)@,
            final(self)@.len() == 0,
    {
        let mut items: Vec<PullRequest> = Vec::new();
        core::mem::swap(&mut self.items, &mut items);
        items
    }

    /// How many pull requests are queued.
    pub fn len(&self) -> (n: usize)
        ensures
            n == self@.len(),
    {
        self.items.len()
    }

    /// Appends `item` unless it has no URL or its URL is queued already; says
    /// whether it was appended.
    pub fn push(&mut self, item: PullRequest) -> (added: bool)
        ensures
            final(self)@ == pushed(old(self)@, item),
            is_queue(final(self)@),
            added == (item.url is Some && !queued(old(self)@, item.key())),
    {
        proof {
            use_type_invariant(&*self);
        }
        if item.url.is_none() {
            return false;
        }
        match position(&self.items, &item) {
            Some(_) => false,
            None => {
                let mut items = self.take_items();
                items.push(item);
                self.items = items;
                true
            },
        }
    }

    /// Removes the entry with the URL `url`, if there is one; says whether
    /// there was.
    pub fn pop(&mut self, url: &str) -> (removed: bool)
        ensures
            final(self)@ == without(old(self)@, Some(url@)),
            is_queue(final(self)@),
            removed == queued(old(self)@, Some(url@)),
    {
        let probe = PullRequest {
            url: Some(url.to_owned()),
            owner: String::new(),
            repo: String::new(),
            request: 0,
        };
        self.remove_same(&probe)
    }

    /// Removes the entry with the URL of `probe`, if there is one.
    fn remove_same(&mut self, probe: &PullRequest) -> (removed: bool)
        ensures
            final(self)@ == without(old(self)@, probe.key()),
            is_queue(final(self)@),
            removed == queued(old(self)@, probe.key()),
    {
        proof {
            use_type_invariant(&*self);
            lemma_without_distinct(self@, probe.key());
        }
        match position(&self.items, probe) {
            Some(i) => {
                proof {
                    lemma_without_at(self@, probe.key(), i as int);
                }
                let mut items = self.take_items();
                let _ = items.remove(i);
                assert forall|k: int| 0 <= k < items@.len() implies (#[trigger] items@[k]).url is Some by {
                    let k0 = if k < i { k } else { k + 1 };
                    assert(items@[k] == old(self)@[k0]);
                }
                self.items = items;
                true
            },
            None => {
                proof {
                    lemma_without_absent(self@, probe.key());
                }
                false
            },
        }
    }

    /// Empties the queue.
    pub fn clear(&mut self)
        ensures
            final(self)@.len() == 0,
    {
        self.items = Vec::new();
    }

    /// The URLs of the queued pull requests, oldest first.
    pub fn list(&self) -> (urls: Vec<String>)
        ensures
            urls.len() == self@.len(),
            forall|i: int| 0 <= i < urls.len() ==> Some((#[trigger] urls[i])@) == self@[i].key(),
    {
        let mut urls: Vec<String> = Vec::new();
        let mut i: usize = 0;
        proof {
            use_type_invariant(self);
        }
        while i < self.items.len()
            invariant
                is_queue(self@),
                i <= self.items.len(),
                urls.len() == i,
                forall|k: int| 0 <= k < i ==> Some((#[trigger] urls[k])@) == self@[k].key(),
            decreases self.items.len() - i,
        {
            assert(self@[i as int].url is Some);
            match &self.items[i].url {
                Some(u) => {
                    urls.push(u.clone());
                },
                None => {},
            }
            i += 1;
        }
        urls
    }

    /// A copy of the queued pull requests, oldest first.
    pub fn snapshot(&self) -> (copy: Vec<PullRequest>)
        ensures
            copy@ == self@,
            is_queue(copy@),
    {
        proof {
            use_type_invariant(self);
        }
        let mut copy: Vec<PullRequest> = Vec::new();
        let mut i: usize = 0;
        while i < self.items.len()
            invariant
                i <= self.items.len(),
                copy@ == self@.take(i as int),
            decreases self.items.len() - i,
        {
            copy.push(self.items[i].clone());
            i += 1;
            assert(copy@ =~= self@.take(i as int));
        }
        assert(self@.take(i as int) =~= self@);
        copy
    }

    /// Removes the entries that have the URL of a pull request in
    /// `processed`. One that is no longer queued is passed over.
    pub fn remove_processed(&mut self, processed: &Vec<PullRequest>)
        ensures
            final(self)@ == without_all(old(self)@, processed@),
            is_queue(final(self)@),
    {
        let mut k: usize = 0;
        proof {
            use_type_invariant(&*self);
        }
        while k < processed.len()
            invariant
                k <= processed.len(),
                is_queue(self@),
                self@ == without_all(old(self)@, processed@.take(k as int)),
            decreases processed.len() - k,
        {
            assert(processed@.take(k + 1).drop_last() =~= processed@.take(k as int));
            let _ = self.remove_same(&processed[k]);
            k += 1;
        }
        assert(processed@.take(k as int) =~= processed@);
    }
}

/// Pushing a pull request twice is pushing it once: the second push changes
/// nothing, and the queue holds exactly one entry with its URL.
pub proof fn lemma_push_twice(q: Seq<PullRequest>, first: PullRequest, second: PullRequest)
    requires
        distinct(q),
        first.url is Some,
        first.key() == second.key(),
    ensures
        pushed(pushed(q, first), second) == pushed(q, first),
        distinct(pushed(q, first)),
        queued(pushed(q, first), first.key()),
{
    let once = pushed(q, first);
    if !queued(q, first.key()) {
        assert(once[q.len() as int].key() == first.key());
        assert forall|i: int, j: int| 0 <= i < j < once.len() implies (#[trigger] once[i]).key() != (
        #[trigger] once[j]).key() by {
            assert(once[i] == q[i]);
            if j < q.len() {
                assert(once[j] == q[j]);
            }
        }
    }
}

/// Cleaning up after a run: where the marked pull requests are all queued and
/// no two of them are the same, the queue shrinks by their number, no marked
/// one stays, and every one that was not marked stays.
pub proof fn lemma_cleanup_removes_marked(q: Seq<PullRequest>, marked: Seq<PullRequest>)
    requires
        distinct(q),
        distinct(marked),
        forall|k: int| 0 <= k < marked.len() ==> queued(q, (#[trigger] marked[k]).key()),
    ensures
        without_all(q, marked).len() == q.len() - marked.len(),
        distinct(without_all(q, marked)),
        forall|u: Option<Seq<char>>|
            queued(without_all(q, marked), u) <==> queued(q, u) && !queued(marked, u),
    decreases marked.len(),
{
    if marked.len() > 0 {
        let earlier = marked.drop_last();
        let x = marked.last().key();
        let r = without_all(q, earlier);
        assert forall|k: int| 0 <= k < earlier.len() implies queued(q, (#[trigger] earlier[k]).key()) by {
            assert(earlier[k] == marked[k]);
        }
        assert forall|i: int, j: int| 0 <= i < j < earlier.len() implies (#[trigger] earlier[i]).key()
            != (#[trigger] earlier[j]).key() by {
            assert(earlier[i] == marked[i]);
            assert(earlier[j] == marked[j]);
        }
        lemma_cleanup_removes_marked(q, earlier);
        lemma_without_distinct(r, x);
        assert(!queued(earlier, x)) by {
            if queued(earlier, x) {
                let k = choose|k: int| 0 <= k < earlier.len() && (#[trigger] earlier[k]).key() == x;
                assert(earlier[k] == marked[k]);
                assert(marked[k].key() != marked[marked.len() - 1].key());
            }
        }
        assert(queued(q, marked[marked.len() - 1].key()));
        assert(queued(r, x));
        assert forall|u: Option<Seq<char>>|
            queued(without_all(q, marked), u) <==> queued(q, u) && !queued(marked, u) by {
            if queued(marked, u) {
                let k = choose|k: int| 0 <= k < marked.len() && (#[trigger] marked[k]).key() == u;
                if k < earlier.len() {
                    assert(earlier[k] == marked[k]);
                    assert(queued(earlier, u));
                }
            }
            if queued(earlier, u) {
                let k = choose|k: int| 0 <= k < earlier.len() && (#[trigger] earlier[k]).key() == u;
                assert(marked[k] == earlier[k]);
            }
            if u == x {
                assert(marked[marked.len() - 1].key() == u);
            }
        }
    }
}

} // verus!
