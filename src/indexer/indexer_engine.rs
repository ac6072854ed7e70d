//! The engine's decisions between iterations.
use vstd::prelude::*;
use vstd::string::StrSliceExecFns;

verus! {

/// The values of the migration override that mean "migrate".
pub open spec fn migrate_value(v: Seq<char>) -> bool {
    ||| v == seq!['1']
    ||| v == seq!['t', 'r', 'u', 'e']
    ||| v == seq!['T', 'R', 'U', 'E']
    ||| v == seq!['y']
}

/// Whether to migrate the store on start: the override when it is set
/// (exactly `1`, `true`, `TRUE` or `y` mean yes), else the configured flag,
/// else no.
pub fn migrate_on_start(over: Option<&str>, configured: Option<bool>) -> (r: bool)
    ensures
        r == match over {
            Some(v) => migrate_value(v@),
            None => configured == Some(true),
        },
{
    match over {
        Some(v) => {
            let n = v.unicode_len();
            if n == 1 {
                let c = v.get_char(0);
                assert(v@ == seq![c]);
                c == '1' || c == 'y'
            } else if n == 4 {
                let c0 = v.get_char(0);
                let c1 = v.get_char(1);
                let c2 = v.get_char(2);
                let c3 = v.get_char(3);
                assert(v@ == seq![c0, c1, c2, c3]);
                (c0 == 't' && c1 == 'r' && c2 == 'u' && c3 == 'e') || (c0 == 'T' && c1 == 'R' && c2
                    == 'U' && c3 == 'E')
            } else {
                false
            }
        },
        None => match configured {
            Some(b) => b,
            None => false,
        },
    }
}

/// The seconds to sleep after an iteration that started at `started`, at time
/// `now`: what is left of the interval, if anything, saturated at `u64::MAX`.
pub open spec fn wait_spec(interval: i64, now: i64, started: i64) -> u64 {
    let left = interval - (now - started);
    if left <= 0 {
        0
    } else if left <= u64::MAX {
        left as u64
    } else {
        u64::MAX
    }
}

/// Decides how long to sleep between iterations.
pub fn wait_seconds(interval: i64, now: i64, started: i64) -> (r: u64)
    ensures
        r == wait_spec(interval, now, started),
{
    let left: i128 = interval as i128 - (now as i128 - started as i128);
    if left <= 0 {
        0
    } else if left <= u64::MAX as i128 {
        left as u64
    } else {
        u64::MAX
    }
}

/// The `before` bound of the next discovery call within an iteration: the
/// last (oldest) signature of the page, or `None` when the page is empty and
/// the iteration ends.
pub fn next_before(page: &Vec<String>) -> (r: Option<String>)
    ensures
        page@.len() == 0 ==> r is None,
        page@.len() > 0 ==> (r matches Some(s) && s@ == page@[page@.len() - 1]@),
{
    if page.len() == 0 {
        None
    } else {
        Some(page[page.len() - 1].clone())
    }
}

/// Where an indexing iteration stands.
#[derive(Debug, PartialEq, Eq, Clone, Copy, Structural)]
pub enum IterationStage {
    /// Waiting for a page of signatures.
    AwaitPage,
    /// Waiting for the page to be fetched and processed.
    AwaitProcessing,
    /// The history down to `until` is drained.
    Done,
}

/// What the host reports back during an iteration.
#[derive(Debug)]
pub enum IterationEvent {
    /// Discovery returned this page, newest first.
    PageReturned(Vec<String>),
    /// The pending page has been fetched and processed.
    PageProcessed,
}

/// What the host does next during an iteration.
#[derive(Debug)]
pub enum IterationAction {
    /// Ask for the page of signatures below `before` (all when `None`), down
    /// to the iteration's `until`.
    GetSignatures(Option<String>),
    /// Fetch and process this page.
    ProcessPage(Vec<String>),
    /// The iteration is over.
    Done,
    /// The report did not match the pending action; nothing changed.
    Unexpected,
}

/// One pass of discovery, fetching and processing, from the newest signature
/// down to `until`, page by page.
#[derive(Debug)]
pub struct IndexingIteration {
    /// The indexed head that bounds discovery, if any.
    pub until: Option<String>,
    /// The oldest signature of the last page, where the next page starts.
    pub before: Option<String>,
    pub stage: IterationStage,
}

/// One step of an iteration: an empty page ends it; a page is processed and
/// the next page starts below its last signature.
pub open spec fn iteration_transition(
    s: IndexingIteration,
    ev: IterationEvent,
    t: IndexingIteration,
    a: IterationAction,
) -> bool {
    &&& t.until == s.until
    &&& match (s.stage, ev) {
        (IterationStage::AwaitPage, IterationEvent::PageReturned(p)) => if p@.len() == 0 {
            t.stage == IterationStage::Done && a is Done && t.before == s.before
        } else {
            &&& t.stage == IterationStage::AwaitProcessing
            &&& t.before matches Some(b) && b@ == p@[p@.len() - 1]@
            &&& a == IterationAction::ProcessPage(p)
        },
        (IterationStage::AwaitProcessing, IterationEvent::PageProcessed) => {
            &&& t.stage == IterationStage::AwaitPage && t.before == s.before
            &&& a == IterationAction::GetSignatures(s.before)
        },
        _ => t == s && a is Unexpected,
    }
}

impl IndexingIteration {
    /// Starts an iteration bounded by `until`: the first page is the newest.
    pub fn new(until: Option<String>) -> (r: (IndexingIteration, IterationAction))
        ensures
            r.0.until == until,
            r.0.before is None,
            r.0.stage == IterationStage::AwaitPage,
            r.1 == IterationAction::GetSignatures(None),
    {
        (IndexingIteration { until, before: None, stage: IterationStage::AwaitPage }, IterationAction::GetSignatures(None))
    }

    /// Takes the host's report on the pending action and returns the next action.
    pub fn step(&mut self, ev: IterationEvent) -> (a: IterationAction)
        ensures
            iteration_transition(*old(self), ev, *final(self), a),
    {
        match (self.stage, ev) {
            (IterationStage::AwaitPage, IterationEvent::PageReturned(p)) => {
                match next_before(&p) {
                    None => {
                        self.stage = IterationStage::Done;
                        IterationAction::Done
                    },
                    Some(b) => {
                        self.before = Some(b);
                        self.stage = IterationStage::AwaitProcessing;
                        IterationAction::ProcessPage(p)
                    },
                }
            },
            (IterationStage::AwaitProcessing, IterationEvent::PageProcessed) => {
                self.stage = IterationStage::AwaitPage;
                let before = match &self.before {
                    Some(b) => Some(b.clone()),
                    None => None,
                };
                IterationAction::GetSignatures(before)
            },
            (_, _) => IterationAction::Unexpected,
        }
    }
}

/// An iteration ends only on an empty page: while discovery returns
/// signatures, each page is processed before the next is asked for.
pub proof fn lemma_iteration_ends_on_empty_page(
    s: IndexingIteration,
    ev: IterationEvent,
    t: IndexingIteration,
    a: IterationAction,
)
    requires
        iteration_transition(s, ev, t, a),
        a is Done,
    ensures
        ev matches IterationEvent::PageReturned(p) && p@.len() == 0,
        s.stage == IterationStage::AwaitPage,
{
}

} // verus!
