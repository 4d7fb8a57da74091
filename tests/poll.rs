use announce_bot::classify::{Activity, Announcement, PushCommit, ReleaseActivity};
use announce_bot::ledger::ContributorLedger;
use announce_bot::poll::{Cursor, NextStep, PollOutcome, Poller};
use announce_bot::types::{CommitAuthor, Release};

fn cursor(tag: &str) -> Cursor {
    Cursor { weak: true, tag: tag.to_string() }
}

fn push_by(email: &str) -> Activity {
    Activity::Push(vec![PushCommit {
        author: CommitAuthor { name: email.to_uppercase(), email: email.to_string(), username: None },
        message: "change".to_string(),
        url: "https://example.com/c".to_string(),
        distinct: true,
    }])
}

fn published(tag: &str) -> Activity {
    Activity::Release(ReleaseActivity {
        action: "published".to_string(),
        release: Release { tag_name: tag.to_string(), name: None, html_url: "https://example.com/r".to_string() },
    })
}

fn started(exit_on_poll_error: bool) -> Poller {
    let mut poller = Poller::new(ContributorLedger::new(), exit_on_poll_error);
    let step = poller.on_poll(PollOutcome::Fetched { cursor: Some(cursor("0")), items: vec![published("v0")] });
    assert!(step.announcements.is_empty());
    poller
}

#[test]
fn first_fetch_only_sets_the_cursor() {
    let poller = started(false);
    assert_eq!(poller.cursor, Some(cursor("0")));
    assert_eq!(poller.ledger.len(), 0);
}

#[test]
fn polls_without_new_data_change_nothing() {
    let mut poller = started(false);
    poller.on_poll(PollOutcome::Fetched { cursor: Some(cursor("1")), items: vec![push_by("kim")] });
    for _ in 0..2 {
        let step = poller.on_poll(PollOutcome::Fetched { cursor: Some(cursor("1")), items: vec![] });
        assert!(step.announcements.is_empty());
        assert_eq!(step.next, NextStep::Sleep);
        assert_eq!(poller.cursor, Some(cursor("1")));
        assert_eq!(poller.ledger.len(), 1);
    }
    let step = poller.on_poll(PollOutcome::NotModified);
    assert!(step.announcements.is_empty());
    assert_eq!(poller.cursor, Some(cursor("1")));
    assert_eq!(poller.ledger.len(), 1);
}

#[test]
fn new_batch_is_classified_in_order_and_moves_the_cursor() {
    let mut poller = started(false);
    let step = poller.on_poll(PollOutcome::Fetched {
        cursor: Some(cursor("2")),
        items: vec![push_by("lee"), Activity::Other, published("v3"), push_by("lee")],
    });
    assert_eq!(step.next, NextStep::Sleep);
    assert_eq!(step.announcements.len(), 2);
    assert!(matches!(&step.announcements[0], Announcement::Contributor(c) if c.identity == "lee"));
    assert!(matches!(&step.announcements[1], Announcement::Release(r) if r.version == "v3"));
    assert_eq!(poller.cursor, Some(cursor("2")));
    assert!(poller.ledger.contains("lee"));
}

#[test]
fn failed_poll_keeps_cursor_and_retry_sees_the_same_batch() {
    let mut poller = started(false);
    let step = poller.on_poll(PollOutcome::Failed);
    assert_eq!(step.next, NextStep::Sleep);
    assert!(step.announcements.is_empty());
    assert_eq!(poller.cursor, Some(cursor("0")));
    let step = poller.on_poll(PollOutcome::Fetched { cursor: Some(cursor("1")), items: vec![push_by("max")] });
    assert_eq!(step.announcements.len(), 1);
    assert_eq!(poller.cursor, Some(cursor("1")));
}

#[test]
fn failed_poll_stops_when_configured() {
    let mut poller = started(true);
    let step = poller.on_poll(PollOutcome::Failed);
    assert_eq!(step.next, NextStep::Stop);
    assert_eq!(poller.cursor, Some(cursor("0")));
}

#[test]
fn batch_without_cursor_keeps_the_held_one() {
    let mut poller = started(false);
    let step = poller.on_poll(PollOutcome::Fetched { cursor: None, items: vec![push_by("ned")] });
    assert_eq!(step.announcements.len(), 1);
    assert_eq!(poller.cursor, Some(cursor("0")));
    let step = poller.on_poll(PollOutcome::Fetched { cursor: Some(cursor("1")), items: vec![published("v4")] });
    assert_eq!(step.announcements.len(), 1);
    assert_eq!(poller.cursor, Some(cursor("1")));
}
