use vstd::prelude::*;

use crate::ledger::{lemma_record_keeps, record, ContributorLedger};
use crate::text::str_equal;
use crate::types::{CommitAuthor, Release};

verus! {

/// One commit of a push, as the activity feed reports it.
#[derive(Debug, Clone, PartialEq, Eq)]
pub struct PushCommit {
    pub author: CommitAuthor,
    pub message: String,
    pub url: String,
    /// Whether this push introduced the commit, rather than an ancestor
    /// ref that was already known.
    pub distinct: bool,
}

/// A change to a release.
#[derive(Debug, Clone, PartialEq, Eq)]
pub struct ReleaseActivity {
    /// What happened to the release: "published", "created", "edited", ...
    pub action: String,
    pub release: Release,
}

/// One record of repository activity.
#[derive(Debug, Clone, PartialEq, Eq)]
pub enum Activity {
    Push(Vec<PushCommit>),
    Release(ReleaseActivity),
    /// Any other kind of activity.
    Other,
}

/// A contributor seen for the first time.
#[derive(Debug, Clone, PartialEq, Eq)]
pub struct NewContributor {
    pub identity: String,
    pub name: String,
    pub commit_message: String,
    pub url: String,
}

/// A published release.
#[derive(Debug, Clone, PartialEq, Eq)]
pub struct NewRelease {
    pub version: String,
    pub url: String,
}

/// Something worth announcing.
#[derive(Debug, Clone, PartialEq, Eq)]
pub enum Announcement {
    Contributor(NewContributor),
    Release(NewRelease),
}

/// The key under which the author of `c` is recorded.
pub open spec fn identity_of(c: PushCommit) -> Seq<char> {
    c.author.email@
}

/// The announcement for a commit by a first-time contributor.
pub open spec fn contributor_of(c: PushCommit) -> Announcement {
    Announcement::Contributor(
        NewContributor {
            identity: c.author.email,
            name: c.author.name,
            commit_message: c.message,
            url: c.url,
        },
    )
}

/// The ledger after the commits of a push went through it, in order: the
/// author of each distinct commit is recorded.
pub open spec fn seen_after_commits(seen: Seq<Seq<char>>, commits: Seq<PushCommit>) -> Seq<
    Seq<char>,
>
    decreases commits.len(),
{
    if commits.len() == 0 {
        seen
    } else {
        let before = seen_after_commits(seen, commits.drop_last());
        let c = commits.last();
        if c.distinct {
            record(before, identity_of(c))
        } else {
            before
        }
    }
}

/// The announcements of a push, in commit order: one for each distinct
/// commit whose author was not recorded when the commit was reached.
pub open spec fn commit_announcements(seen: Seq<Seq<char>>, commits: Seq<PushCommit>) -> Seq<
    Announcement,
>
    decreases commits.len(),
{
    if commits.len() == 0 {
        Seq::empty()
    } else {
        let before = commit_announcements(seen, commits.drop_last());
        let c = commits.last();
        if c.distinct && !seen_after_commits(seen, commits.drop_last()).contains(identity_of(c)) {
            before.push(contributor_of(c))
        } else {
            before
        }
    }
}

/// The label of a release: its display name if it has one, else its tag.
pub open spec fn version_of(r: Release) -> String {
    match r.name {
        Some(name) => name,
        None => r.tag_name,
    }
}

/// The announcements of a release activity: one exactly when the release
/// was published.
pub open spec fn release_announcements(r: ReleaseActivity) -> Seq<Announcement> {
    if r.action@ == "published"@ {
        seq![Announcement::Release(NewRelease { version: version_of(r.release), url: r.release.html_url })]
    } else {
        Seq::empty()
    }
}

/// The ledger after one activity was classified.
pub open spec fn seen_after(seen: Seq<Seq<char>>, a: Activity) -> Seq<Seq<char>> {
    match a {
        Activity::Push(commits) => seen_after_commits(seen, commits@),
        _ => seen,
    }
}

/// The announcements that one activity yields against a ledger.
pub open spec fn announcements_for(seen: Seq<Seq<char>>, a: Activity) -> Seq<Announcement> {
    match a {
        Activity::Push(commits) => commit_announcements(seen, commits@),
        Activity::Release(r) => release_announcements(r),
        Activity::Other => Seq::empty(),
    }
}

/// Whether `a` announces the contributor with identity `id`.
pub open spec fn announces_identity(a: Announcement, id: Seq<char>) -> bool {
    a matches Announcement::Contributor(c) && c.identity@ == id
}

/// What the ledger held before a push, it still holds after it.
pub proof fn lemma_commits_keep_recorded(seen: Seq<Seq<char>>, commits: Seq<PushCommit>, id: Seq<char>)
    requires
        seen.contains(id),
    ensures
        seen_after_commits(seen, commits).contains(id),
    decreases commits.len(),
{
    if commits.len() > 0 {
        lemma_commits_keep_recorded(seen, commits.drop_last(), id);
        lemma_record_keeps(
            seen_after_commits(seen, commits.drop_last()),
            identity_of(commits.last()),
            id,
        );
    }
}

/// A push announces nobody whom the ledger held before it.
pub proof fn lemma_push_skips_recorded(seen: Seq<Seq<char>>, commits: Seq<PushCommit>, id: Seq<char>)
    requires
        seen.contains(id),
    ensures
        forall|k: int|
            0 <= k < commit_announcements(seen, commits).len() ==> !announces_identity(
                #[trigger] commit_announcements(seen, commits)[k],
                id,
            ),
    decreases commits.len(),
{
    if commits.len() > 0 {
        let before = commits.drop_last();
        lemma_push_skips_recorded(seen, before, id);
        lemma_commits_keep_recorded(seen, before, id);
        let prev = commit_announcements(seen, before);
        let all = commit_announcements(seen, commits);
        assert forall|k: int| 0 <= k < all.len() implies !announces_identity(#[trigger] all[k], id) by {
            if k < prev.len() {
                assert(all[k] == prev[k]);
            } else {
                assert(all[k] == contributor_of(commits.last()));
            }
        }
    }
}

/// An activity announces nobody whom the ledger held before it, and the
/// ledger keeps all it held.
pub proof fn lemma_activity_skips_recorded(seen: Seq<Seq<char>>, a: Activity, id: Seq<char>)
    requires
        seen.contains(id),
    ensures
        seen_after(seen, a).contains(id),
        forall|k: int|
            0 <= k < announcements_for(seen, a).len() ==> !announces_identity(
                #[trigger] announcements_for(seen, a)[k],
                id,
            ),
{
    match a {
        Activity::Push(commits) => {
            lemma_commits_keep_recorded(seen, commits@, id);
            lemma_push_skips_recorded(seen, commits@, id);
        },
        _ => {},
    }
}

/// A release activity yields an announcement exactly when its action is
/// "published", whatever the ledger holds; then it yields one, of that
/// release, and the ledger is left as it was.
pub proof fn lemma_release_iff_published(seen: Seq<Seq<char>>, r: ReleaseActivity)
    ensures
        announcements_for(seen, Activity::Release(r)).len() > 0 <==> r.action@ == "published"@,
        announcements_for(seen, Activity::Release(r)).len() <= 1,
        forall|k: int|
            0 <= k < announcements_for(seen, Activity::Release(r)).len() ==> (#[trigger] announcements_for(
                seen,
                Activity::Release(r),
            )[k] matches Announcement::Release(n) && n.version == version_of(r.release)
                && n.url == r.release.html_url),
        seen_after(seen, Activity::Release(r)) == seen,
{
}

/// Records the author of `author`'s commit; true exactly when the author
/// was not recorded before.
pub fn is_first_contribution(ledger: &mut ContributorLedger, author: &CommitAuthor) -> (r: bool)
    ensures
        r == !old(ledger)@.contains(author.email@),
        final(ledger)@ == record(old(ledger)@, author.email@),
{
    ledger.record_if_new(author.email.clone())
}

fn push_announcements(ledger: &mut ContributorLedger, commits: &Vec<PushCommit>) -> (r: Vec<
    Announcement,
>)
    ensures
        final(ledger)@ == seen_after_commits(old(ledger)@, commits@),
        r@ == commit_announcements(old(ledger)@, commits@),
{
    let ghost seen = ledger@;
    let mut out: Vec<Announcement> = Vec::new();
    let mut i: usize = 0;
    while i < commits.len()
        invariant
            i <= commits.len(),
            ledger@ == seen_after_commits(seen, commits@.subrange(0, i as int)),
            out@ == commit_announcements(seen, commits@.subrange(0, i as int)),
        decreases commits.len() - i,
    {
        let c = &commits[i];
        proof {
            assert(commits@.subrange(0, i as int + 1).drop_last() =~= commits@.subrange(0, i as int));
            assert(commits@.subrange(0, i as int + 1).last() == commits@[i as int]);
        }
        if c.distinct {
            if is_first_contribution(ledger, &c.author) {
                out.push(
                    Announcement::Contributor(
                        NewContributor {
                            identity: c.author.email.clone(),
                            name: c.author.name.clone(),
                            commit_message: c.message.clone(),
                            url: c.url.clone(),
                        },
                    ),
                );
            }
        }
        i = i + 1;
    }
    assert(commits@.subrange(0, commits@.len() as int) =~= commits@);
    out
}

/// The announcements that one activity yields, in order. Records the
/// authors of the distinct commits of a push; touches nothing else. Not
/// idempotent: a second call on the same push finds its new authors
/// recorded.
pub fn classify(ledger: &mut ContributorLedger, activity: &Activity) -> (r: Vec<Announcement>)
    ensures
        final(ledger)@ == seen_after(old(ledger)@, *activity),
        r@ == announcements_for(old(ledger)@, *activity),
{
    match activity {
        Activity::Push(commits) => push_announcements(ledger, commits),
        Activity::Release(r) => {
            let mut out: Vec<Announcement> = Vec::new();
            if str_equal(r.action.as_str(), "published") {
                let version = match &r.release.name {
                    Some(name) => name.clone(),
                    None => r.release.tag_name.clone(),
                };
                out.push(
                    Announcement::Release(
                        NewRelease { version, url: r.release.html_url.clone() },
                    ),
                );
            }
            proof {
                assert(out@ =~= release_announcements(*r));
            }
            out
        },
        Activity::Other => Vec::new(),
    }
}

} // verus!
