use announce_bot::classify::{
    classify, is_first_contribution, Activity, Announcement, NewContributor, NewRelease,
    PushCommit, ReleaseActivity,
};
use announce_bot::ledger::ContributorLedger;
use announce_bot::types::{CommitAuthor, Release};

fn commit(email: &str, name: &str, message: &str, url: &str, distinct: bool) -> PushCommit {
    PushCommit {
        author: CommitAuthor { name: name.to_string(), email: email.to_string(), username: None },
        message: message.to_string(),
        url: url.to_string(),
        distinct,
    }
}

fn release(action: &str, tag: &str, name: Option<&str>) -> Activity {
    Activity::Release(ReleaseActivity {
        action: action.to_string(),
        release: Release {
            tag_name: tag.to_string(),
            name: name.map(|n| n.to_string()),
            html_url: format!("https://example.com/releases/{}", tag),
        },
    })
}

#[test]
fn seeded_contributor_is_skipped_and_new_one_announced() {
    let mut ledger = ContributorLedger::new();
    ledger.seed(&vec![Some("alice".to_string())]);
    let push = Activity::Push(vec![
        commit("alice", "Alice", "fix typo", "https://example.com/c/1", true),
        commit("bob", "Bob", "add feature", "https://example.com/c/2", true),
    ]);
    let out = classify(&mut ledger, &push);
    assert_eq!(
        out,
        vec![Announcement::Contributor(NewContributor {
            identity: "bob".to_string(),
            name: "Bob".to_string(),
            commit_message: "add feature".to_string(),
            url: "https://example.com/c/2".to_string(),
        })]
    );
    assert!(ledger.contains("bob"));
    assert_eq!(ledger.len(), 2);
}

#[test]
fn seeded_contributor_never_announced_across_repeated_pushes() {
    let mut ledger = ContributorLedger::new();
    ledger.seed(&vec![Some("alice".to_string())]);
    for round in 0..3 {
        let push = Activity::Push(vec![
            commit("alice", "Alice", "again", "https://example.com/c/a", true),
            commit("alice", "Alice", "and again", "https://example.com/c/b", true),
        ]);
        assert!(classify(&mut ledger, &push).is_empty(), "round {}", round);
    }
    assert_eq!(ledger.len(), 1);
}

#[test]
fn published_release_without_display_name_uses_tag() {
    let mut ledger = ContributorLedger::new();
    let out = classify(&mut ledger, &release("published", "v1.2.0", None));
    assert_eq!(
        out,
        vec![Announcement::Release(NewRelease {
            version: "v1.2.0".to_string(),
            url: "https://example.com/releases/v1.2.0".to_string(),
        })]
    );
    assert_eq!(ledger.len(), 0);
}

#[test]
fn published_release_with_display_name_uses_name() {
    let mut ledger = ContributorLedger::new();
    let out = classify(&mut ledger, &release("published", "v2.0.0", Some("Two")));
    match &out[..] {
        [Announcement::Release(r)] => assert_eq!(r.version, "Two"),
        other => panic!("unexpected {:?}", other),
    }
}

#[test]
fn unpublished_release_actions_yield_nothing() {
    let mut ledger = ContributorLedger::new();
    for action in ["created", "edited", "deleted", "Published", "publish"] {
        assert!(classify(&mut ledger, &release(action, "v1.2.0", None)).is_empty(), "{}", action);
    }
}

#[test]
fn non_distinct_commits_yield_nothing_and_are_not_recorded() {
    let mut ledger = ContributorLedger::new();
    let push = Activity::Push(vec![commit("frank", "Frank", "old", "u", false)]);
    assert!(classify(&mut ledger, &push).is_empty());
    assert!(!ledger.contains("frank"));
}

#[test]
fn first_contributor_announced_once_within_one_push_in_commit_order() {
    let mut ledger = ContributorLedger::new();
    let push = Activity::Push(vec![
        commit("gina", "Gina", "one", "u1", true),
        commit("hal", "Hal", "two", "u2", true),
        commit("gina", "Gina", "three", "u3", true),
    ]);
    let out = classify(&mut ledger, &push);
    let names: Vec<String> = out
        .iter()
        .map(|a| match a {
            Announcement::Contributor(c) => c.commit_message.clone(),
            Announcement::Release(_) => panic!("no release here"),
        })
        .collect();
    assert_eq!(names, vec!["one".to_string(), "two".to_string()]);
}

#[test]
fn other_activity_yields_nothing() {
    let mut ledger = ContributorLedger::new();
    assert!(classify(&mut ledger, &Activity::Other).is_empty());
    assert_eq!(ledger.len(), 0);
}

#[test]
fn is_first_contribution_keys_on_email() {
    let mut ledger = ContributorLedger::new();
    let author = CommitAuthor {
        name: "Ivy".to_string(),
        email: "ivy@example.com".to_string(),
        username: Some("ivy".to_string()),
    };
    assert!(is_first_contribution(&mut ledger, &author));
    assert!(!is_first_contribution(&mut ledger, &author));
    assert!(ledger.contains("ivy@example.com"));
    assert!(!ledger.contains("ivy"));
}
