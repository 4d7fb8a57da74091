use vstd::prelude::*;

use crate::classify::{Announcement, NewContributor, NewRelease};

verus! {

/// The text announcing a first-time contributor.
pub open spec fn commiter_text(name: Seq<char>, commit_message: Seq<char>, commit_link: Seq<char>) -> Seq<
    char,
> {
    "Delta got a new contributor "@ + name + "!\n\nDetails: "@ + commit_message + " \n\nLink: "@
        + commit_link + " \n"@
}

/// The text announcing a published release.
pub open spec fn release_text(version: Seq<char>, release_notes_link: Seq<char>) -> Seq<char> {
    "New release ("@ + version + ") of Delta out! \u{1F389}\n\nLink to release notes: "@
        + release_notes_link + "\n"@
}

/// The text that announces `a`.
pub open spec fn announcement_text(a: Announcement) -> Seq<char> {
    match a {
        Announcement::Contributor(c) => commiter_text(c.name@, c.commit_message@, c.url@),
        Announcement::Release(r) => release_text(r.version@, r.url@),
    }
}

/// The body of one post.
#[derive(Debug, Clone, PartialEq, Eq)]
pub struct PostTweetRequest {
    text: String,
}

impl PostTweetRequest {
    /// The text to post.
    pub closed spec fn spec_text(&self) -> Seq<char> {
        self.text@
    }

    /// The text to post.
    pub fn text(&self) -> (r: &str)
        ensures
            r@ == self.spec_text(),
    {
        self.text.as_str()
    }

    /// The post that announces a first-time contributor.
    pub fn announce_commiter(name: String, commit_message: String, commit_link: String) -> (r: Self)
        ensures
            r.spec_text() == commiter_text(name@, commit_message@, commit_link@),
    {
        let mut text = String::from_str("Delta got a new contributor ");
        text.append(name.as_str());
        text.append("!\n\nDetails: ");
        text.append(commit_message.as_str());
        text.append(" \n\nLink: ");
        text.append(commit_link.as_str());
        text.append(" \n");
        PostTweetRequest { text }
    }

    /// The post that announces a published release.
    pub fn announce_release(version: String, release_notes_link: String) -> (r: Self)
        ensures
            r.spec_text() == release_text(version@, release_notes_link@),
    {
        let mut text = String::from_str("New release (");
        text.append(version.as_str());
        text.append(") of Delta out! \u{1F389}\n\nLink to release notes: ");
        text.append(release_notes_link.as_str());
        text.append("\n");
        PostTweetRequest { text }
    }

    /// The post that announces `a`.
    pub fn from_announcement(a: Announcement) -> (r: Self)
        ensures
            r.spec_text() == announcement_text(a),
    {
        match a {
            Announcement::Contributor(NewContributor { name, commit_message, url, .. }) => {
                Self::announce_commiter(name, commit_message, url)
            },
            Announcement::Release(NewRelease { version, url }) => Self::announce_release(version, url),
        }
    }
}

} // verus!
