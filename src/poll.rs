use vstd::prelude::*;

use crate::classify::{
    announcements_for, announces_identity, classify, lemma_activity_skips_recorded, seen_after,
    Activity, Announcement,
};
use crate::ledger::ContributorLedger;

verus! {

/// The point up to which activity has been consumed: an entity tag that the
/// activity feed handed out with its last answer.
#[derive(Debug, Clone, PartialEq, Eq)]
pub struct Cursor {
    pub weak: bool,
    pub tag: String,
}

/// What one request for activity since the cursor brought back.
#[derive(Debug, Clone, PartialEq, Eq)]
pub enum PollOutcome {
    /// Nothing changed since the cursor.
    NotModified,
    /// Activity records, in the order of the feed, and the cursor that the
    /// answer carried, if any.
    Fetched { cursor: Option<Cursor>, items: Vec<Activity> },
    /// The request failed.
    Failed,
}

/// What the poll loop does after handling one outcome.
#[derive(PartialEq, Eq, Structural, Clone, Copy, Debug)]
pub enum NextStep {
    /// Wait for the poll interval, then poll again.
    Sleep,
    /// End the loop.
    Stop,
}

/// The result of handling one poll outcome.
#[derive(Debug, Clone, PartialEq, Eq)]
pub struct PollStep {
    /// To be handed on downstream, in this order.
    pub announcements: Vec<Announcement>,
    pub next: NextStep,
}

/// The ledger after a batch of activity went through it, in order.
pub open spec fn seen_after_all(seen: Seq<Seq<char>>, items: Seq<Activity>) -> Seq<Seq<char>>
    decreases items.len(),
{
    if items.len() == 0 {
        seen
    } else {
        seen_after(seen_after_all(seen, items.drop_last()), items.last())
    }
}

/// The announcements of a batch of activity, in the order of the records.
pub open spec fn announcements_all(seen: Seq<Seq<char>>, items: Seq<Activity>) -> Seq<Announcement>
    decreases items.len(),
{
    if items.len() == 0 {
        Seq::empty()
    } else {
        announcements_all(seen, items.drop_last()) + announcements_for(
            seen_after_all(seen, items.drop_last()),
            items.last(),
        )
    }
}

/// Over any run of activity, however often the commits of a contributor
/// come back, a contributor whom the ledger held when the run began is
/// never announced.
pub proof fn lemma_recorded_never_announced(seen: Seq<Seq<char>>, items: Seq<Activity>, id: Seq<char>)
    requires
        seen.contains(id),
    ensures
        seen_after_all(seen, items).contains(id),
        forall|k: int|
            0 <= k < announcements_all(seen, items).len() ==> !announces_identity(
                #[trigger] announcements_all(seen, items)[k],
                id,
            ),
    decreases items.len(),
{
    if items.len() > 0 {
        let before = items.drop_last();
        lemma_recorded_never_announced(seen, before, id);
        let mid = seen_after_all(seen, before);
        lemma_activity_skips_recorded(mid, items.last(), id);
        let head = announcements_all(seen, before);
        let tail = announcements_for(mid, items.last());
        assert forall|k: int| 0 <= k < announcements_all(seen, items).len() implies !announces_identity(
            #[trigger] announcements_all(seen, items)[k],
            id,
        ) by {
            if k < head.len() {
                assert(announcements_all(seen, items)[k] == head[k]);
            } else {
                assert(announcements_all(seen, items)[k] == tail[k - head.len()]);
            }
        }
    }
}

/// Whether an outcome carries activity that is handled: a non-empty batch
/// fetched while a cursor was held. Without a cursor, what comes back is the
/// activity from before the loop started, and it only sets the cursor.
pub open spec fn handles_items(cursor: Option<Cursor>, o: PollOutcome) -> bool {
    match o {
        PollOutcome::Fetched { items, .. } => items@.len() > 0 && cursor is Some,
        _ => false,
    }
}

/// The cursor after an outcome: it moves only to the cursor that a
/// non-empty batch carries; a batch that carries none leaves it where it was.
pub open spec fn next_cursor(cursor: Option<Cursor>, o: PollOutcome) -> Option<Cursor> {
    match o {
        PollOutcome::Fetched { cursor: fresh, items } => if items@.len() > 0 && fresh is Some {
            fresh
        } else {
            cursor
        },
        _ => cursor,
    }
}

/// The ledger after an outcome.
pub open spec fn next_seen(seen: Seq<Seq<char>>, cursor: Option<Cursor>, o: PollOutcome) -> Seq<
    Seq<char>,
> {
    match o {
        PollOutcome::Fetched { items, .. } => if handles_items(cursor, o) {
            seen_after_all(seen, items@)
        } else {
            seen
        },
        _ => seen,
    }
}

/// The announcements of an outcome.
pub open spec fn poll_announcements(
    seen: Seq<Seq<char>>,
    cursor: Option<Cursor>,
    o: PollOutcome,
) -> Seq<Announcement> {
    match o {
        PollOutcome::Fetched { items, .. } => if handles_items(cursor, o) {
            announcements_all(seen, items@)
        } else {
            Seq::empty()
        },
        _ => Seq::empty(),
    }
}

/// What follows an outcome.
pub open spec fn next_step(exit_on_poll_error: bool, o: PollOutcome) -> NextStep {
    if o is Failed && exit_on_poll_error {
        NextStep::Stop
    } else {
        NextStep::Sleep
    }
}

/// The cursor moves only on a poll that fetched a non-empty batch carrying a
/// cursor, and once held it is never dropped. A failed
/// poll leaves cursor and ledger as they were, so the poll after it asks from
/// the same cursor and yields what it would have yielded without the failure.
pub proof fn lemma_cursor_moves_only_on_new_data(
    seen: Seq<Seq<char>>,
    cursor: Option<Cursor>,
    o: PollOutcome,
    retry: PollOutcome,
)
    ensures
        next_cursor(cursor, o) != cursor ==> (o matches PollOutcome::Fetched { cursor: fresh, items }
            && items@.len() > 0 && fresh is Some && next_cursor(cursor, o) == fresh),
        cursor is Some ==> next_cursor(cursor, o) is Some,
        next_cursor(cursor, PollOutcome::Failed) == cursor,
        next_seen(seen, cursor, PollOutcome::Failed) == seen,
        poll_announcements(
            next_seen(seen, cursor, PollOutcome::Failed),
            next_cursor(cursor, PollOutcome::Failed),
            retry,
        ) == poll_announcements(seen, cursor, retry),
        next_seen(
            next_seen(seen, cursor, PollOutcome::Failed),
            next_cursor(cursor, PollOutcome::Failed),
            retry,
        ) == next_seen(seen, cursor, retry),
{
}

/// The state of the poll loop: the ledger it feeds, the cursor it holds,
/// and whether a failed poll ends it.
pub struct Poller {
    pub ledger: ContributorLedger,
    pub cursor: Option<Cursor>,
    pub exit_on_poll_error: bool,
}

impl Poller {
    /// A loop that has not polled yet.
    pub fn new(ledger: ContributorLedger, exit_on_poll_error: bool) -> (r: Self)
        ensures
            r.ledger == ledger,
            r.cursor is None,
            r.exit_on_poll_error == exit_on_poll_error,
    {
        Poller { ledger, cursor: None, exit_on_poll_error }
    }

    fn classify_all(ledger: &mut ContributorLedger, items: &Vec<Activity>) -> (r: Vec<Announcement>)
        ensures
            final(ledger)@ == seen_after_all(old(ledger)@, items@),
            r@ == announcements_all(old(ledger)@, items@),
    {
        let ghost seen = ledger@;
        let mut out: Vec<Announcement> = Vec::new();
        let mut i: usize = 0;
        while i < items.len()
            invariant
                i <= items.len(),
                ledger@ == seen_after_all(seen, items@.subrange(0, i as int)),
                out@ == announcements_all(seen, items@.subrange(0, i as int)),
            decreases items.len() - i,
        {
            proof {
                assert(items@.subrange(0, i as int + 1).drop_last() =~= items@.subrange(0, i as int));
            }
            let mut found = classify(ledger, &items[i]);
            out.append(&mut found);
            i = i + 1;
        }
        assert(items@.subrange(0, items@.len() as int) =~= items@);
        out
    }

    /// Handles the outcome of one poll. A non-empty batch fetched while a
    /// cursor is held goes through the classifier, every record in order,
    /// and only then does the cursor move; a batch fetched without a cursor
    /// only sets it. Nothing else moves the cursor or touches the ledger:
    /// after a failure the next poll asks from the same cursor.
    pub fn on_poll(&mut self, outcome: PollOutcome) -> (r: PollStep)
        ensures
            final(self).cursor == next_cursor(old(self).cursor, outcome),
            final(self).ledger@ == next_seen(old(self).ledger@, old(self).cursor, outcome),
            final(self).exit_on_poll_error == old(self).exit_on_poll_error,
            r.announcements@ == poll_announcements(old(self).ledger@, old(self).cursor, outcome),
            r.next == next_step(old(self).exit_on_poll_error, outcome),
    {
        match outcome {
            PollOutcome::NotModified => PollStep { announcements: Vec::new(), next: NextStep::Sleep },
            PollOutcome::Failed => {
                let next = if self.exit_on_poll_error {
                    NextStep::Stop
                } else {
                    NextStep::Sleep
                };
                PollStep { announcements: Vec::new(), next }
            },
            PollOutcome::Fetched { cursor, items } => {
                if items.len() == 0 {
                    return PollStep { announcements: Vec::new(), next: NextStep::Sleep };
                }
                let announcements = if self.cursor.is_some() {
                    Self::classify_all(&mut self.ledger, &items)
                } else {
                    Vec::new()
                };
                if cursor.is_some() {
                    self.cursor = cursor;
                }
                PollStep { announcements, next: NextStep::Sleep }
            },
        }
    }
}

} // verus!
