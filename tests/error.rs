use announce_bot::error::Error;

#[test]
fn messages_name_the_source() {
    assert_eq!(Error::GitHubError("Not Found".into()).message(), "GitHub error: Not Found");
    assert_eq!(Error::OctocrabError("timeout".into()).message(), "Octocrab error: timeout");
    assert_eq!(Error::TwitterError("401".into()).message(), "Twitter error: 401");
    assert_eq!(Error::Misc("unknown octocrab error".into()).message(), "Misc error: unknown octocrab error");
}
