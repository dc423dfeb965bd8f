use freebies::check::{check, Outcome};
use freebies::feed::{get_channel, FeedError};
use freebies::sent::Sent;

const FEED: &str = r#"<?xml version="1.0" encoding="UTF-8"?>
<rss version="2.0">
  <channel>
    <title>News</title>
    <link>https://example.org/</link>
    <description>Deals</description>
    <item>
      <title>50% off Game</title>
      <description>&lt;p&gt;Half price &lt;b&gt;now&lt;/b&gt;!&lt;/p&gt;</description>
      <link>https://example.org/1</link>
      <pubDate>Mon, 01 Jan 2024 10:00:00 +0000</pubDate>
      <author>a@example.org</author>
    </item>
    <item>
      <title>FREE Game A</title>
      <description>&lt;p&gt;Grab it&lt;/p&gt;</description>
      <link>https://example.org/2</link>
      <pubDate>Tue, 02 Jan 2024 10:00:00 +0000</pubDate>
      <author>b@example.org</author>
    </item>
    <item>
      <title>FREE Game B</title>
      <link>https://example.org/3</link>
    </item>
  </channel>
</rss>"#;

#[test]
fn document_yields_items_in_order() {
    let items = get_channel(Ok(FEED.as_bytes().to_vec())).expect("feed parses");
    assert_eq!(items.len(), 3);
    assert_eq!(items[0].title.as_deref(), Some("50% off Game"));
    assert_eq!(items[0].description.as_deref(), Some("<p>Half price <b>now</b>!</p>"));
    assert_eq!(items[0].link.as_deref(), Some("https://example.org/1"));
    assert_eq!(items[0].pub_date.as_deref(), Some("Mon, 01 Jan 2024 10:00:00 +0000"));
    assert_eq!(items[0].author.as_deref(), Some("a@example.org"));
    assert_eq!(items[1].title.as_deref(), Some("FREE Game A"));
    assert_eq!(items[2].title.as_deref(), Some("FREE Game B"));
}

#[test]
fn absent_fields_are_none() {
    let items = get_channel(Ok(FEED.as_bytes().to_vec())).expect("feed parses");
    assert_eq!(items[2].description, None);
    assert_eq!(items[2].pub_date, None);
    assert_eq!(items[2].author, None);
    assert_eq!(items[2].link.as_deref(), Some("https://example.org/3"));
}

#[test]
fn channel_without_items_is_an_empty_feed() {
    let doc = "<rss version=\"2.0\"><channel><title>t</title></channel></rss>";
    let items = get_channel(Ok(doc.as_bytes().to_vec())).expect("feed parses");
    assert!(items.is_empty());
}

#[test]
fn unreadable_document_is_a_parse_failure() {
    for doc in ["", "not xml at all", "<html><body>hi</body></html>", "<rss version=\"2.0\">"] {
        match get_channel(Ok(doc.as_bytes().to_vec())) {
            Err(FeedError::Parse(detail)) => assert!(!detail.is_empty()),
            other => panic!("unexpected result for {:?}: {:?}", doc, other),
        }
    }
}

#[test]
fn failed_fetch_keeps_its_message() {
    match get_channel(Err("connection refused".to_string())) {
        Err(FeedError::Retrieval(detail)) => assert_eq!(detail, "connection refused"),
        other => panic!("unexpected result {:?}", other),
    }
}

#[test]
fn fetched_document_runs_through_a_pass() {
    let mut sent = Sent::new(25);
    let report = check(&mut sent, get_channel(Ok(FEED.as_bytes().to_vec())));
    assert_eq!(report.notifications.len(), 1);
    assert_eq!(report.notifications[0].subject, "FREE Game A");
    assert_eq!(
        report.notifications[0].body,
        "Description: Grab it\nLink: https://example.org/2\nPublished: Tue, 02 Jan 2024 10:00:00 +0000\nAuthor: b@example.org"
    );
    assert!(matches!(report.outcome, Outcome::Fatal { index: 2, .. }));
}

#[test]
fn unreadable_document_ends_the_pass_quietly() {
    let mut sent = Sent::new(25);
    let report = check(&mut sent, get_channel(Ok(b"garbage".to_vec())));
    assert!(report.notifications.is_empty());
    assert!(matches!(report.outcome, Outcome::FeedUnavailable(FeedError::Parse(_))));
    assert_eq!(sent.len(), 0);
}
