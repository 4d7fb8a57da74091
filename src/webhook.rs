use vstd::prelude::*;

use crate::classify::{Activity, PushCommit, ReleaseActivity};
use crate::text::{ends_with, str_ends_with, str_equal};
use crate::types::{Commit, CommitAuthor, PushEvent, Release, ReleaseEvent};

verus! {

/// The kinds of webhook delivery that are handled.
#[derive(PartialEq, Eq, Structural, Clone, Copy, Debug)]
pub enum WebhookKind {
    Ping,
    Push,
    Release,
}

/// The kind that an event-type header names, if it is handled.
pub open spec fn kind_named(event_type: Seq<char>) -> Option<WebhookKind> {
    if event_type == "ping"@ {
        Some(WebhookKind::Ping)
    } else if event_type == "push"@ {
        Some(WebhookKind::Push)
    } else if event_type == "release"@ {
        Some(WebhookKind::Release)
    } else {
        None
    }
}

/// The kind that an event-type header names; none for a kind that is not
/// handled.
pub fn webhook_kind(event_type: &str) -> (r: Option<WebhookKind>)
    ensures
        r == kind_named(event_type@),
{
    if str_equal(event_type, "ping") {
        Some(WebhookKind::Ping)
    } else if str_equal(event_type, "push") {
        Some(WebhookKind::Push)
    } else if str_equal(event_type, "release") {
        Some(WebhookKind::Release)
    } else {
        None
    }
}

/// Whether a pushed ref is the main line of the repository.
pub open spec fn on_main_line(git_ref: Seq<char>) -> bool {
    ends_with(git_ref, "/main"@) || ends_with(git_ref, "/master"@)
}

/// Whether a pushed commit is considered: its author has an account, and it
/// is not the owner of the repository.
pub open spec fn considered(c: Commit, owner: Seq<char>) -> bool {
    c.author.username matches Some(u) && u@ != owner
}

/// A pushed commit as the classifier sees it: every commit that a webhook
/// reports was introduced by the push.
pub open spec fn push_commit_of(c: Commit) -> PushCommit {
    PushCommit { author: c.author, message: c.message, url: c.url, distinct: true }
}

/// The considered commits of a push, in order.
pub open spec fn considered_commits(commits: Seq<Commit>, owner: Seq<char>) -> Seq<PushCommit>
    decreases commits.len(),
{
    if commits.len() == 0 {
        Seq::empty()
    } else {
        let before = considered_commits(commits.drop_last(), owner);
        if considered(commits.last(), owner) {
            before.push(push_commit_of(commits.last()))
        } else {
            before
        }
    }
}

fn copy_author(a: &CommitAuthor) -> (r: CommitAuthor)
    ensures
        r == *a,
{
    let username = match &a.username {
        Some(u) => Some(u.clone()),
        None => None,
    };
    CommitAuthor { name: a.name.clone(), email: a.email.clone(), username }
}

/// The activity that a push delivered to the webhook stands for: the
/// considered commits of a push to the main line, nothing for a push to
/// another branch.
pub fn push_activity(event: &PushEvent) -> (r: Activity)
    ensures
        on_main_line(event.git_ref@) ==> (r matches Activity::Push(v) && v@ == considered_commits(
            event.commits@,
            event.repository.owner.login@,
        )),
        !on_main_line(event.git_ref@) ==> r is Other,
{
    if !str_ends_with(event.git_ref.as_str(), "/main") && !str_ends_with(
        event.git_ref.as_str(),
        "/master",
    ) {
        return Activity::Other;
    }
    let owner = event.repository.owner.login.as_str();
    let ghost owner_view = owner@;
    let mut out: Vec<PushCommit> = Vec::new();
    let mut i: usize = 0;
    while i < event.commits.len()
        invariant
            i <= event.commits.len(),
            owner@ == owner_view,
            owner_view == event.repository.owner.login@,
            out@ == considered_commits(event.commits@.subrange(0, i as int), owner_view),
        decreases event.commits.len() - i,
    {
        let c = &event.commits[i];
        proof {
            assert(event.commits@.subrange(0, i as int + 1).drop_last() =~= event.commits@.subrange(
                0,
                i as int,
            ));
        }
        match &c.author.username {
            Some(u) => {
                if !str_equal(u.as_str(), owner) {
                    out.push(
                        PushCommit {
                            author: copy_author(&c.author),
                            message: c.message.clone(),
                            url: c.url.clone(),
                            distinct: true,
                        },
                    );
                }
            },
            None => {},
        }
        i = i + 1;
    }
    assert(event.commits@.subrange(0, event.commits@.len() as int) =~= event.commits@);
    Activity::Push(out)
}

/// The activity that a release event delivered to the webhook stands for.
pub fn release_activity(event: &ReleaseEvent) -> (r: Activity)
    ensures
        r == Activity::Release(ReleaseActivity { action: event.action, release: event.release }),
{
    let name = match &event.release.name {
        Some(n) => Some(n.clone()),
        None => None,
    };
    Activity::Release(
        ReleaseActivity {
            action: event.action.clone(),
            release: Release {
                tag_name: event.release.tag_name.clone(),
                name,
                html_url: event.release.html_url.clone(),
            },
        },
    )
}

} // verus!
