//! The background refresh: the plan of one cycle over the registered feeds,
//! the messages it sends to the client, and the tally of a whole cycle.

use vstd::prelude::*;
use crate::model::Feed;
use crate::text::concat;

verus! {

/// Progress reported by a refresh cycle, in the order it happens.
#[derive(Debug)]
pub enum FetchMessage {
    /// A feed's fetch is about to begin (its display name).
    Started(String),
    /// A feed is done: its name, how many articles were new, and the error
    /// text when fetching or parsing failed.
    FeedDone(String, usize, Option<String>),
    /// Every feed is done: the number of new articles over the cycle.
    AllDone(usize),
}

/// What a message says, with text as character sequences.
pub enum MessageView {
    Started(Seq<char>),
    FeedDone(Seq<char>, nat, Option<Seq<char>>),
    AllDone(nat),
}

impl View for FetchMessage {
    type V = MessageView;

    open spec fn view(&self) -> MessageView {
        match self {
            FetchMessage::Started(n) => MessageView::Started(n@),
            FetchMessage::FeedDone(n, c, e) => MessageView::FeedDone(n@, *c as nat, e.deep_view()),
            FetchMessage::AllDone(t) => MessageView::AllDone(*t as nat),
        }
    }
}

/// One feed of a cycle's snapshot.
#[derive(Debug)]
pub struct FeedJob {
    pub feed_id: i64,
    /// Display name, used in the messages.
    pub name: String,
    pub url: String,
}

/// How fetching one feed ended: for each fetched entry whether the store
/// created it (true) or already had it (false), or the error text.
pub type FeedOutcome = Result<Vec<bool>, String>;

/// The number of `true` entries.
pub open spec fn count_true(s: Seq<bool>) -> nat
    decreases s.len(),
{
    if s.len() == 0 {
        0
    } else {
        count_true(s.drop_last()) + if s.last() { 1nat } else { 0nat }
    }
}

/// The number of entries that the store newly created.
pub fn count_new(inserted: &Vec<bool>) -> (r: usize)
    ensures
        r == count_true(inserted@),
{
    let mut n: usize = 0;
    let mut i: usize = 0;
    while i < inserted.len()
        invariant
            0 <= i <= inserted.len(),
            n == count_true(inserted@.take(i as int)),
            n <= i,
        decreases inserted.len() - i,
    {
        proof {
            assert(inserted@.take(i + 1).drop_last() =~= inserted@.take(i as int));
        }
        if inserted[i] {
            n = n + 1;
        }
        i = i + 1;
    }
    proof {
        assert(inserted@.take(inserted.len() as int) =~= inserted@);
    }
    n
}

/// New articles that an outcome contributes: none for a failure.
pub open spec fn outcome_new(o: Result<Seq<bool>, Seq<char>>) -> nat {
    match o {
        Ok(v) => count_true(v),
        Err(_) => 0,
    }
}

/// The message that ends a feed named `name` with outcome `o`.
pub open spec fn done_message(name: Seq<char>, o: Result<Seq<bool>, Seq<char>>) -> MessageView {
    match o {
        Ok(v) => MessageView::FeedDone(name, count_true(v), None),
        Err(e) => MessageView::FeedDone(name, 0, Some(e)),
    }
}

pub open spec fn outcome_view(o: FeedOutcome) -> Result<Seq<bool>, Seq<char>> {
    match o {
        Ok(v) => Ok(v@),
        Err(e) => Err(e@),
    }
}

/// `a + b`, capped at the largest `usize`.
pub open spec fn sat_add(a: nat, b: nat) -> nat {
    if a + b <= usize::MAX {
        a + b
    } else {
        usize::MAX as nat
    }
}

/// The messages of a whole cycle over feeds named `names` whose fetches end
/// with `outcomes`, one per feed: for each feed `Started` then `FeedDone`,
/// then one `AllDone` with the number of new articles.
pub open spec fn cycle_messages(
    names: Seq<Seq<char>>,
    outcomes: Seq<Result<Seq<bool>, Seq<char>>>,
) -> Seq<MessageView> {
    feed_messages(names, outcomes).push(MessageView::AllDone(cycle_new(outcomes)))
}

/// The `Started`/`FeedDone` pairs of the feeds in order.
pub open spec fn feed_messages(
    names: Seq<Seq<char>>,
    outcomes: Seq<Result<Seq<bool>, Seq<char>>>,
) -> Seq<MessageView>
    decreases outcomes.len(),
{
    if outcomes.len() == 0 || names.len() < outcomes.len() {
        Seq::empty()
    } else {
        let k = outcomes.len() - 1;
        feed_messages(names, outcomes.drop_last()).push(MessageView::Started(names[k])).push(
            done_message(names[k], outcomes[k]),
        )
    }
}

/// New articles over a cycle (capped at the largest `usize`).
pub open spec fn cycle_new(outcomes: Seq<Result<Seq<bool>, Seq<char>>>) -> nat
    decreases outcomes.len(),
{
    if outcomes.len() == 0 {
        0
    } else {
        sat_add(cycle_new(outcomes.drop_last()), outcome_new(outcomes.last()))
    }
}

/// The state of one refresh cycle on the background side: the snapshot of
/// feeds, how many are done, what each ended with, and what was sent.
pub struct RefreshTask {
    pub jobs: Vec<FeedJob>,
    /// Index of the next feed to fetch.
    pub next: usize,
    /// New articles so far.
    pub total_new: usize,
    /// Outcomes of the feeds done so far.
    pub outcomes: Ghost<Seq<Result<Seq<bool>, Seq<char>>>>,
    /// Messages produced so far.
    pub sent: Ghost<Seq<MessageView>>,
}

impl RefreshTask {
    pub open spec fn names(&self) -> Seq<Seq<char>> {
        self.jobs@.map_values(|j: FeedJob| j.name@)
    }

    /// The task is between feeds: `next` feeds are done, and what was sent
    /// is exactly their messages.
    pub open spec fn wf(&self) -> bool {
        &&& self.next <= self.jobs.len()
        &&& self.outcomes@.len() == self.next
        &&& self.total_new == cycle_new(self.outcomes@)
        &&& self.sent@ == feed_messages(self.names(), self.outcomes@)
    }

    /// A cycle over `feeds`, in their order, with nothing done yet.
    pub fn new(feeds: &Vec<Feed>) -> (r: Self)
        ensures
            r.wf(),
            r.next == 0,
            r.jobs.len() == feeds.len(),
            forall|i: int| 0 <= i < feeds.len() ==> {
                &&& (#[trigger] r.jobs@[i]).feed_id == feeds@[i].id
                &&& r.jobs@[i].name@ == feeds@[i].display_name_spec()
                &&& r.jobs@[i].url@ == feeds@[i].url@
            },
    {
        let mut jobs: Vec<FeedJob> = Vec::new();
        let mut i: usize = 0;
        while i < feeds.len()
            invariant
                0 <= i <= feeds.len(),
                jobs.len() == i,
                forall|k: int| 0 <= k < i ==> {
                    &&& (#[trigger] jobs@[k]).feed_id == feeds@[k].id
                    &&& jobs@[k].name@ == feeds@[k].display_name_spec()
                    &&& jobs@[k].url@ == feeds@[k].url@
                },
            decreases feeds.len() - i,
        {
            let f = &feeds[i];
            let name = f.display_name().to_owned();
            jobs.push(FeedJob { feed_id: f.id, name, url: f.url.clone() });
            i = i + 1;
        }
        RefreshTask {
            jobs,
            next: 0,
            total_new: 0,
            outcomes: Ghost(Seq::empty()),
            sent: Ghost(Seq::empty()),
        }
    }

    /// The next feed to fetch with the `Started` message to send before,
    /// or `None` when every feed is done.
    pub fn start_next(&self) -> (r: Option<(FetchMessage, usize)>)
        requires
            self.wf(),
        ensures
            self.next == self.jobs.len() ==> r is None,
            self.next < self.jobs.len() ==> (r matches Some((m, k)) && k == self.next
                && m@ == MessageView::Started(self.jobs@[k as int].name@)),
    {
        if self.next < self.jobs.len() {
            let name = self.jobs[self.next].name.clone();
            Some((FetchMessage::Started(name), self.next))
        } else {
            None
        }
    }

    /// Ends the current feed with `outcome`: the `FeedDone` message to send.
    pub fn finish(&mut self, outcome: FeedOutcome) -> (r: FetchMessage)
        requires
            old(self).wf(),
            old(self).next < old(self).jobs.len(),
        ensures
            final(self).wf(),
            final(self).jobs@ == old(self).jobs@,
            final(self).next == old(self).next + 1,
            final(self).outcomes@ == old(self).outcomes@.push(outcome_view(outcome)),
            r@ == done_message(old(self).jobs@[old(self).next as int].name@, outcome_view(outcome)),
    {
        let k = self.next;
        let name = self.jobs[k].name.clone();
        let ghost ov = outcome_view(outcome);
        let ghost old_outcomes = self.outcomes@;
        let (msg, n) = match outcome {
            Ok(v) => {
                let n = count_new(&v);
                (FetchMessage::FeedDone(name, n, None), n)
            }
            Err(e) => (FetchMessage::FeedDone(name, 0, Some(e)), 0),
        };
        self.total_new = self.total_new.saturating_add(n);
        self.next = k + 1;
        self.outcomes = Ghost(old_outcomes.push(ov));
        proof {
            assert(self.outcomes@.drop_last() =~= old_outcomes);
            assert(self.names()[k as int] == self.jobs@[k as int].name@);
        }
        self.sent = Ghost(feed_messages(self.names(), self.outcomes@));
        msg
    }

    /// The closing `AllDone` message, once every feed is done.
    pub fn all_done(&self) -> (r: FetchMessage)
        requires
            self.wf(),
            self.next == self.jobs.len(),
        ensures
            r@ == MessageView::AllDone(cycle_new(self.outcomes@)),
            self.sent@.push(r@) == cycle_messages(self.names(), self.outcomes@),
    {
        FetchMessage::AllDone(self.total_new)
    }
}

/// Outcome of refreshing every feed at once, as the desktop shell reports it.
#[derive(Debug)]
pub struct FetchResult {
    pub total_feeds: usize,
    pub new_articles: usize,
    /// One line per failed feed: `"<title>: <error>"`.
    pub errors: Vec<String>,
}

impl FetchResult {
    /// Nothing recorded yet for `total_feeds` feeds.
    pub fn new(total_feeds: usize) -> (r: Self)
        ensures
            r.total_feeds == total_feeds,
            r.new_articles == 0,
            r.errors@.len() == 0,
    {
        FetchResult { total_feeds, new_articles: 0, errors: Vec::new() }
    }

    /// Records one feed: its new articles when it was stored, or a line
    /// naming it and the error.
    pub fn record(&mut self, title: &str, outcome: Result<usize, String>)
        ensures
            final(self).total_feeds == old(self).total_feeds,
            match outcome {
                Ok(n) => final(self).new_articles == sat_add(old(self).new_articles as nat, n as nat)
                    && final(self).errors.deep_view() == old(self).errors.deep_view(),
                Err(e) => final(self).new_articles == old(self).new_articles
                    && final(self).errors.deep_view() == old(self).errors.deep_view().push(
                    title@ + ": "@ + e@,
                ),
            },
    {
        match outcome {
            Ok(n) => {
                self.new_articles = self.new_articles.saturating_add(n);
            },
            Err(e) => {
                let head = concat(title, ": ");
                let line = concat(head.as_str(), e.as_str());
                let ghost before = self.errors.deep_view();
                self.errors.push(line);
                proof {
                    assert(self.errors.deep_view() =~= before.push(title@ + ": "@ + e@));
                }
            },
        }
    }
}

} // verus!
