//! Feed items, and reading them out of a fetched feed document.

use vstd::prelude::*;

verus! {

/// Where the feed is fetched from.
pub const RSS_URL: &'static str = "https://gg.deals/au/news/feed/";

/// One entry of the feed, as the feed gave it. A field the feed left out is
/// `None`.
#[derive(Clone, Debug)]
pub struct FeedItem {
    pub title: Option<String>,
    pub description: Option<String>,
    pub link: Option<String>,
    pub pub_date: Option<String>,
    pub author: Option<String>,
}

/// A feed item as contracts see it: each field as its characters.
pub struct ItemModel {
    pub title: Option<Seq<char>>,
    pub description: Option<Seq<char>>,
    pub link: Option<Seq<char>>,
    pub pub_date: Option<Seq<char>>,
    pub author: Option<Seq<char>>,
}

/// The characters of an optional text.
pub open spec fn text_of(field: Option<String>) -> Option<Seq<char>> {
    match field {
        Some(text) => Some(text@),
        None => None,
    }
}

impl View for FeedItem {
    type V = ItemModel;

    open spec fn view(&self) -> ItemModel {
        ItemModel {
            title: text_of(self.title),
            description: text_of(self.description),
            link: text_of(self.link),
            pub_date: text_of(self.pub_date),
            author: text_of(self.author),
        }
    }
}

/// The models of a run of feed items, in the same order.
pub open spec fn models(items: Seq<FeedItem>) -> Seq<ItemModel> {
    items.map_values(|item: FeedItem| item@)
}

/// Why a pass got no feed to work on. Either way the pass is over and the next
/// one starts fresh.
#[derive(Debug)]
pub enum FeedError {
    /// The document could not be fetched; the text says why.
    Retrieval(String),
    /// The document was fetched but is not a readable feed; the text says why.
    Parse(String),
}

/// The error type of the `rss` crate, carried from its parser to
/// [`error_detail`] and never looked into.
#[verifier::external_type_specification]
#[verifier::external_body]
pub struct ExRssError(rss::Error);

/// The items that `rss::Channel::read_from` finds in a document, in document
/// order, or `None` where it rejects the document.
pub uninterp spec fn channel_items(data: Seq<u8>) -> Option<Seq<ItemModel>>;

/// Calls `rss::Channel::read_from` on the document and moves the five fields
/// this library reads out of each item. The parser looks at nothing but the
/// bytes it is given, so its answer is a function of them, called
/// [`channel_items`]; nothing more is claimed about it.
#[verifier::external_body]
fn read_channel(data: &[u8]) -> (read: Result<Vec<FeedItem>, rss::Error>)
    ensures
        match read {
            Ok(items) => channel_items(data@) == Some(models(items@)),
            Err(_) => channel_items(data@) is None,
        },
{
    let channel = rss::Channel::read_from(data)?;
    Ok(channel.into_items().into_iter().map(|item| FeedItem {
        title: item.title,
        description: item.description,
        link: item.link,
        pub_date: item.pub_date,
        author: item.author,
    }).collect())
}

/// The message of an `rss::Error`, as its `Display` impl writes it. Nothing is
/// claimed about the text.
#[verifier::external_body]
fn error_detail(error: &rss::Error) -> String {
    format!("{}", error)
}

/// Turns the outcome of fetching the feed document into the feed's items.
///
/// A fetch that failed stays a failure and keeps its message. A fetched
/// document yields its items in document order if the parser accepts it, and
/// a parse failure otherwise.
pub fn get_channel(fetched: Result<Vec<u8>, String>) -> (feed: Result<Vec<FeedItem>, FeedError>)
    ensures
        match fetched {
            Err(why) => feed matches Err(FeedError::Retrieval(detail)) && detail@ == why@,
            Ok(data) => match channel_items(data@) {
                Some(items) => feed matches Ok(found) && models(found@) == items,
                None => feed matches Err(FeedError::Parse(_)),
            },
        },
{
    match fetched {
        Err(why) => Err(FeedError::Retrieval(why)),
        Ok(data) => match read_channel(data.as_slice()) {
            Ok(items) => Ok(items),
            Err(error) => Err(FeedError::Parse(error_detail(&error))),
        },
    }
}

} // verus!
