//! Turning a downloaded RSS/Atom/JSON feed document into a feed and its
//! articles. feed-rs parses the document; the choices of which of its
//! fields become which of ours are made here.

use vstd::prelude::*;
use crate::model::{Article, Feed, Timestamp};

verus! {

/// The fields of one entry that an article is made from.
pub struct EntryFields {
    pub title: Option<String>,
    /// The `href` of each link, in order.
    pub links: Vec<String>,
    pub summary: Option<String>,
    /// The body of the entry's content, if it has one.
    pub content: Option<String>,
    pub published: Option<Timestamp>,
    pub updated: Option<Timestamp>,
}

pub struct EntryView {
    pub title: Option<Seq<char>>,
    pub links: Seq<Seq<char>>,
    pub summary: Option<Seq<char>>,
    pub content: Option<Seq<char>>,
    pub published: Option<Timestamp>,
    pub updated: Option<Timestamp>,
}

impl View for EntryFields {
    type V = EntryView;

    open spec fn view(&self) -> EntryView {
        EntryView {
            title: self.title.deep_view(),
            links: self.links.deep_view(),
            summary: self.summary.deep_view(),
            content: self.content.deep_view(),
            published: self.published,
            updated: self.updated,
        }
    }
}

/// What the library reads of a parsed feed document.
pub struct ParsedDocument {
    pub title: Option<String>,
    pub description: Option<String>,
    /// The entries, in the document's order.
    pub entries: Vec<EntryFields>,
}

pub struct DocumentView {
    pub title: Option<Seq<char>>,
    pub description: Option<Seq<char>>,
    pub entries: Seq<EntryView>,
}

impl View for ParsedDocument {
    type V = DocumentView;

    open spec fn view(&self) -> DocumentView {
        DocumentView {
            title: self.title.deep_view(),
            description: self.description.deep_view(),
            entries: self.entries@.map_values(|e: EntryFields| e@),
        }
    }
}

/// A name for what feed-rs reads from a document's bytes: its title,
/// description and entries, or the text of its error.
pub uninterp spec fn parsed_feed(body: Seq<u8>) -> Result<DocumentView, Seq<char>>;

/// Relies on `feed_rs::parser::parse` and the fields of its `Feed`, `Entry`,
/// `Text`, `Link` and `Content`, and on chrono's `timestamp_micros`: the
/// outcome is determined by the bytes alone.
#[verifier::external_body]
fn parse_document(body: &[u8]) -> (r: Result<ParsedDocument, String>)
    ensures
        match r {
            Ok(d) => parsed_feed(body@) == Ok::<DocumentView, Seq<char>>(d@),
            Err(e) => parsed_feed(body@) == Err::<DocumentView, Seq<char>>(e@),
        },
{
    feed_rs::parser::parse(body).map_err(|e| e.to_string()).map(|d| ParsedDocument {
        title: d.title.map(|t| t.content),
        description: d.description.map(|t| t.content),
        entries: d.entries.into_iter().map(|e| EntryFields {
            title: e.title.map(|t| t.content),
            links: e.links.into_iter().map(|l| l.href).collect(),
            summary: e.summary.map(|t| t.content),
            content: e.content.and_then(|c| c.body),
            published: e.published.map(|t| t.timestamp_micros()),
            updated: e.updated.map(|t| t.timestamp_micros()),
        }).collect(),
    })
}

pub open spec fn or_else<T>(a: Option<T>, b: Option<T>) -> Option<T> {
    match a {
        Some(x) => Some(x),
        None => b,
    }
}

/// The article an entry becomes: titled "Untitled" when it has no title,
/// linked to its first link, with its summary or else its content body,
/// dated by its publication or else its last update; unread, no favorite,
/// not yet in a feed (feed 0).
pub open spec fn entry_article_spec(e: EntryView, a: Article) -> bool {
    &&& a.id == 0
    &&& a.feed_id == 0
    &&& a.title@ == match e.title {
        Some(t) => t,
        None => "Untitled"@,
    }
    &&& a.url.deep_view() == if e.links.len() > 0 {
        Some(e.links[0])
    } else {
        None
    }
    &&& a.content.deep_view() == or_else(e.summary, e.content)
    &&& a.published_at == or_else(e.published, e.updated)
    &&& !a.is_read
    &&& !a.is_favorite
}

/// The title of a feed whose document has `title`.
pub open spec fn feed_title(title: Option<Seq<char>>) -> Seq<char> {
    match title {
        Some(t) => t,
        None => "Untitled Feed"@,
    }
}

/// Makes the article an entry becomes.
pub fn entry_article(e: EntryFields) -> (r: Article)
    ensures
        entry_article_spec(e@, r),
{
    let ghost e0 = e@;
    let title = match e.title {
        Some(t) => t,
        None => "Untitled".to_owned(),
    };
    let url = if e.links.len() > 0 {
        Some(e.links[0].clone())
    } else {
        None
    };
    let content = match e.summary {
        Some(s) => Some(s),
        None => e.content,
    };
    let published = match e.published {
        Some(p) => Some(p),
        None => e.updated,
    };
    Article::new(0, title, url, content, published)
}

/// The feed a document describes, fetched from `url`: titled "Untitled
/// Feed" when the document has no title.
pub fn feed_info(url: &str, title: Option<String>, description: Option<String>) -> (r: Feed)
    ensures
        r.id == 0,
        r.url@ == url@,
        r.title@ == match title {
            Some(t) => t@,
            None => "Untitled Feed"@,
        },
        r.description == description,
        r.custom_name is None,
        r.category is None,
        r.priority == 0,
{
    let title = match title {
        Some(t) => t,
        None => "Untitled Feed".to_owned(),
    };
    Feed::new(url.to_owned(), title, description)
}

/// Reads a feed document downloaded from `url`: the feed it describes
/// (see `feed_info`) and one article per entry, in the document's order
/// (see `entry_article`). Fails exactly when feed-rs does, with its message.
pub fn parse_feed(url: &str, body: &[u8]) -> (r: Result<(Feed, Vec<Article>), String>)
    ensures
        r is Ok <==> parsed_feed(body@) is Ok,
        r matches Err(e) ==> parsed_feed(body@) == Err::<DocumentView, Seq<char>>(e@),
        r matches Ok((f, arts)) ==> (parsed_feed(body@) matches Ok(d) && {
            &&& f.id == 0
            &&& f.url@ == url@
            &&& f.title@ == feed_title(d.title)
            &&& f.description.deep_view() == d.description
            &&& f.custom_name is None
            &&& f.category is None
            &&& f.priority == 0
            &&& arts@.len() == d.entries.len()
            &&& forall|i: int| 0 <= i < arts@.len() ==> entry_article_spec(d.entries[i], #[trigger] arts@[i])
        }),
{
    let doc = match parse_document(body) {
        Ok(d) => d,
        Err(e) => return Err(e),
    };
    let ghost dv = doc@;
    let feed = feed_info(url, doc.title, doc.description);
    let entries = doc.entries;
    let mut articles: Vec<Article> = Vec::new();
    let mut rest = entries;
    let n = rest.len();
    let mut i: usize = 0;
    while i < n
        invariant
            n == dv.entries.len(),
            0 <= i <= n,
            rest@.len() == n - i,
            forall|k: int| 0 <= k < rest@.len() ==> (#[trigger] rest@[k])@ == dv.entries[i + k],
            articles@.len() == i,
            forall|k: int| 0 <= k < i ==> entry_article_spec(dv.entries[k], #[trigger] articles@[k]),
        decreases n - i,
    {
        let e = rest.remove(0);
        articles.push(entry_article(e));
        i = i + 1;
    }
    Ok((feed, articles))
}

} // verus!
