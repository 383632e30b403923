//! The walk over a paginated collection of pages. Each step takes the
//! outcome of one fetch and says what to do next: fetch the batch that the
//! `next` link points at, stop with every page gathered so far, or stop
//! with the failure, dropping what was gathered. The caller performs the
//! fetches one after another.

use vstd::prelude::*;
use crate::models::{Page, SpaceContentResult};
use crate::session::{ApiError, Session};
use crate::text::strip_page;

verus! {

/// The outcome of one fetch: a decoded batch, or the failure.
pub type BatchOutcome = Result<SpaceContentResult, ApiError>;

/// Where a walk stands after a step, in terms of values.
pub enum Progress {
    /// Gathered `pages` so far; the next batch is at the given address.
    Continue(Seq<Page>, Seq<char>),
    /// The walk ended with these pages, in the order the service sent them.
    Finished(Seq<Page>),
    /// The walk failed; nothing gathered is handed out.
    Stopped(ApiError),
}

/// The records of a batch, or none for a failure.
pub open spec fn batch_records(outcome: BatchOutcome) -> Seq<Page> {
    match outcome {
        Ok(batch) => batch.page.results@,
        Err(_) => Seq::empty(),
    }
}

/// A successful batch that links to a further one.
pub open spec fn links_onward(outcome: BatchOutcome) -> bool {
    outcome matches Ok(batch) && batch.page.links.next is Some
}

/// A successful batch that links to no further one.
pub open spec fn is_last_batch(outcome: BatchOutcome) -> bool {
    outcome matches Ok(batch) && batch.page.links.next is None
}

/// One step of the walk: with `collected` gathered and the service at
/// `base`, the outcome of a fetch leads to the next state.
pub open spec fn advance(collected: Seq<Page>, base: Seq<char>, outcome: BatchOutcome) -> Progress {
    match outcome {
        Err(e) => Progress::Stopped(e),
        Ok(batch) => match batch.page.links.next {
            None => Progress::Finished(collected + batch.page.results@),
            Some(link) => Progress::Continue(
                collected + batch.page.results@,
                base + strip_page(link@),
            ),
        },
    }
}

/// The result of a walk that started with `collected` gathered and was fed
/// `outcomes` in turn: `None` while it still waits for a batch.
pub open spec fn walk_result(collected: Seq<Page>, base: Seq<char>, outcomes: Seq<BatchOutcome>) -> Option<
    Result<Seq<Page>, ApiError>,
>
    decreases outcomes.len(),
{
    if outcomes.len() == 0 {
        None
    } else {
        match advance(collected, base, outcomes[0]) {
            Progress::Continue(pages, _) => walk_result(pages, base, outcomes.drop_first()),
            Progress::Finished(pages) => Some(Ok(pages)),
            Progress::Stopped(e) => Some(Err(e)),
        }
    }
}

/// The records of `outcomes`, batch after batch.
pub open spec fn all_records(outcomes: Seq<BatchOutcome>) -> Seq<Page>
    decreases outcomes.len(),
{
    if outcomes.len() == 0 {
        Seq::empty()
    } else {
        batch_records(outcomes[0]) + all_records(outcomes.drop_first())
    }
}

/// A chain of batches: each links onward but the last, which links nowhere.
pub open spec fn is_chain(outcomes: Seq<BatchOutcome>) -> bool {
    &&& outcomes.len() > 0
    &&& forall|i: int| 0 <= i < outcomes.len() - 1 ==> links_onward(#[trigger] outcomes[i])
    &&& is_last_batch(outcomes[outcomes.len() - 1])
}

/// A walk fed a chain of batches ends with the records of every batch, in
/// the order of the batches and of the records within each, none dropped
/// and none repeated.
pub proof fn lemma_walk_keeps_order(collected: Seq<Page>, base: Seq<char>, outcomes: Seq<BatchOutcome>)
    requires
        is_chain(outcomes),
    ensures
        walk_result(collected, base, outcomes) == Some(
            Ok::<Seq<Page>, ApiError>(collected + all_records(outcomes)),
        ),
    decreases outcomes.len(),
{
    let first = outcomes[0];
    let rest = outcomes.drop_first();
    if outcomes.len() == 1 {
        assert(is_last_batch(first));
        assert(all_records(rest) =~= Seq::empty());
        assert(all_records(outcomes) =~= batch_records(first));
    } else {
        assert(links_onward(outcomes[0]));
        assert forall|i: int| 0 <= i < rest.len() - 1 implies links_onward(#[trigger] rest[i]) by {
            assert(rest[i] == outcomes[i + 1]);
        }
        assert(rest[rest.len() - 1] == outcomes[outcomes.len() - 1]);
        lemma_walk_keeps_order(collected + batch_records(first), base, rest);
        assert(collected + batch_records(first) + all_records(rest) =~= collected + all_records(
            outcomes,
        ));
    }
}

/// A batch without a `next` link ends the walk: what was gathered, then
/// that batch's records, and nothing more is fetched.
pub proof fn lemma_walk_ends_without_next(collected: Seq<Page>, base: Seq<char>, outcomes: Seq<BatchOutcome>)
    requires
        outcomes.len() > 0,
        is_last_batch(outcomes[0]),
    ensures
        walk_result(collected, base, outcomes) == Some(
            Ok::<Seq<Page>, ApiError>(collected + batch_records(outcomes[0])),
        ),
{
}

/// A walk of a single batch returns exactly that batch's records.
pub proof fn lemma_single_batch_walk(base: Seq<char>, outcome: BatchOutcome)
    requires
        is_last_batch(outcome),
    ensures
        walk_result(Seq::empty(), base, seq![outcome]) == Some(
            Ok::<Seq<Page>, ApiError>(batch_records(outcome)),
        ),
{
    lemma_walk_ends_without_next(Seq::empty(), base, seq![outcome]);
    assert(Seq::<Page>::empty() + batch_records(outcome) =~= batch_records(outcome));
}

/// A failed fetch at any batch fails the whole walk with that failure; no
/// records of earlier batches are handed out.
pub proof fn lemma_walk_fails_on_error(
    collected: Seq<Page>,
    base: Seq<char>,
    outcomes: Seq<BatchOutcome>,
    k: int,
)
    requires
        0 <= k < outcomes.len(),
        forall|i: int| 0 <= i < k ==> links_onward(#[trigger] outcomes[i]),
        outcomes[k] is Err,
    ensures
        walk_result(collected, base, outcomes) == Some(
            Err::<Seq<Page>, ApiError>(outcomes[k]->Err_0),
        ),
    decreases k,
{
    if k > 0 {
        let rest = outcomes.drop_first();
        assert(links_onward(outcomes[0]));
        assert forall|i: int| 0 <= i < k - 1 implies links_onward(#[trigger] rest[i]) by {
            assert(rest[i] == outcomes[i + 1]);
        }
        lemma_walk_fails_on_error(collected + batch_records(outcomes[0]), base, rest, k - 1);
    }
}

/// The pages gathered by a walk that is still going.
pub struct PageWalk {
    pages: Vec<Page>,
}

impl View for PageWalk {
    type V = Seq<Page>;

    closed spec fn view(&self) -> Seq<Page> {
        self.pages@
    }
}

/// What to do next in a walk.
pub enum WalkStep {
    /// Fetch the batch at `url` and hand its outcome to `walk`.
    Fetch { walk: PageWalk, url: String },
    /// The walk is over: every page, in the order the service sent them.
    Done(Vec<Page>),
    /// The walk failed.
    Failed(ApiError),
}

impl WalkStep {
    /// The state of the walk that this step stands for.
    pub open spec fn progress(&self) -> Progress {
        match self {
            WalkStep::Fetch { walk, url } => Progress::Continue(walk@, url@),
            WalkStep::Done(pages) => Progress::Finished(pages@),
            WalkStep::Failed(e) => Progress::Stopped(*e),
        }
    }
}

impl PageWalk {
    /// Starts a walk over the pages of `space_key`: nothing gathered, and
    /// the first batch at the space's content address.
    pub fn start(session: &Session, space_key: &str) -> (r: WalkStep)
        ensures
            r.progress() == Progress::Continue(
                Seq::empty(),
                session.base() + "/rest/api/space/"@ + space_key@ + "/content"@,
            ),
    {
        let url = session.space_content_url(space_key);
        let walk = PageWalk { pages: Vec::new() };
        WalkStep::Fetch { walk, url }
    }

    /// Resumes a walk at a continuation link that the service sent: nothing
    /// gathered, and the next batch at the link stripped of `/page`.
    pub fn resume(session: &Session, link: &str) -> (r: WalkStep)
        ensures
            r.progress() == Progress::Continue(Seq::empty(), session.base() + strip_page(link@)),
    {
        let url = session.continuation_url(link);
        let walk = PageWalk { pages: Vec::new() };
        WalkStep::Fetch { walk, url }
    }

    /// Takes the outcome of the fetch that the last step asked for. A batch
    /// adds its records after those gathered; its `next` link, stripped of
    /// `/page`, is the next address, and without one the walk is done. A
    /// failure ends the walk with that failure.
    pub fn on_response(self, session: &Session, outcome: BatchOutcome) -> (r: WalkStep)
        ensures
            r.progress() == advance(self@, session.base(), outcome),
    {
        let mut pages = self.pages;
        match outcome {
            Err(e) => WalkStep::Failed(e),
            Ok(batch) => {
                let mut records = batch.page.results;
                pages.append(&mut records);
                match batch.page.links.next {
                    None => WalkStep::Done(pages),
                    Some(link) => {
                        let url = session.continuation_url(link.as_str());
                        WalkStep::Fetch { walk: PageWalk { pages }, url }
                    },
                }
            },
        }
    }
}

} // verus!
