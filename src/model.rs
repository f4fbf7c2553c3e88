//! Feeds and articles as the client holds them.
//!
//! Timestamps are microseconds since the Unix epoch, in UTC.

use vstd::prelude::*;

verus! {

/// Microseconds since the Unix epoch, UTC.
pub type Timestamp = i64;

/// Relies on chrono's `Utc::now` and `DateTime::timestamp_micros`: the
/// current time of the system clock. Nothing is promised of the value.
#[verifier::external_body]
fn now_micros() -> (r: Timestamp) {
    chrono::Utc::now().timestamp_micros()
}

/// The calendar day format, `YYYY-MM-DD`.
pub const DAY_FORMAT: &'static str = "%Y-%m-%d";

/// The date and time format, `YYYY-MM-DD HH:MM:SS`.
pub const STAMP_FORMAT: &'static str = "%Y-%m-%d %H:%M:%S";

/// A name for a timestamp written in UTC with a chrono format; `None` when
/// chrono cannot represent the time.
pub uninterp spec fn utc_text(micros: i64, format: Seq<char>) -> Option<Seq<char>>;

/// Relies on chrono's `DateTime::from_timestamp_micros` and `format`: the
/// UTC time of the timestamp written with one of this crate's two formats,
/// determined by the timestamp and the format alone.
#[verifier::external_body]
pub(crate) fn format_utc(micros: Timestamp, format: &str) -> (r: Option<String>)
    requires
        format@ == DAY_FORMAT@ || format@ == STAMP_FORMAT@,
    ensures
        r.deep_view() == utc_text(micros, format@),
{
    chrono::DateTime::from_timestamp_micros(micros).map(|d| d.format(format).to_string())
}

/// A registered RSS/Atom source.
#[derive(Debug)]
pub struct Feed {
    /// Identity given by the store (0 before it is stored).
    pub id: i64,
    /// Fetch URL; the store keeps it unique.
    pub url: String,
    /// Title as fetched.
    pub title: String,
    pub description: Option<String>,
    pub created_at: Timestamp,
    pub updated_at: Timestamp,
    /// Name chosen by the user; shown instead of the title when present.
    pub custom_name: Option<String>,
    pub category: Option<String>,
    /// Higher sorts first.
    pub priority: i64,
}

/// One entry of a feed, with its read and favorite marks.
#[derive(Debug)]
pub struct Article {
    /// Identity given by the store (0 before it is stored).
    pub id: i64,
    /// The feed it belongs to.
    pub feed_id: i64,
    pub title: String,
    pub url: Option<String>,
    /// Content or summary, often HTML.
    pub content: Option<String>,
    pub published_at: Option<Timestamp>,
    pub is_read: bool,
    pub is_favorite: bool,
    /// When it was retrieved.
    pub created_at: Timestamp,
}

impl Clone for Feed {
    fn clone(&self) -> (r: Self)
        ensures
            r == *self,
    {
        Feed {
            id: self.id,
            url: self.url.clone(),
            title: self.title.clone(),
            description: self.description.clone(),
            created_at: self.created_at,
            updated_at: self.updated_at,
            custom_name: self.custom_name.clone(),
            category: self.category.clone(),
            priority: self.priority,
        }
    }
}

impl Clone for Article {
    fn clone(&self) -> (r: Self)
        ensures
            r == *self,
    {
        Article {
            id: self.id,
            feed_id: self.feed_id,
            title: self.title.clone(),
            url: self.url.clone(),
            content: self.content.clone(),
            published_at: self.published_at,
            is_read: self.is_read,
            is_favorite: self.is_favorite,
            created_at: self.created_at,
        }
    }
}

impl Feed {
    /// The name shown for a feed: its custom name if set, else its title.
    pub open spec fn display_name_spec(&self) -> Seq<char> {
        match self.custom_name {
            Some(n) => n@,
            None => self.title@,
        }
    }

    /// A feed not yet stored: identity 0, no custom name or category,
    /// priority 0, both timestamps set to the current time.
    pub fn new(url: String, title: String, description: Option<String>) -> (r: Self)
        ensures
            r.id == 0,
            r.url == url,
            r.title == title,
            r.description == description,
            r.created_at == r.updated_at,
            r.custom_name is None,
            r.category is None,
            r.priority == 0,
    {
        let now = now_micros();
        Feed {
            id: 0,
            url,
            title,
            description,
            created_at: now,
            updated_at: now,
            custom_name: None,
            category: None,
            priority: 0,
        }
    }

    /// The custom name if set, else the title.
    pub fn display_name(&self) -> (r: &str)
        ensures
            r@ == self.display_name_spec(),
    {
        match &self.custom_name {
            Some(n) => n.as_str(),
            None => self.title.as_str(),
        }
    }
}

impl Article {
    /// A new entry, unread and not a favorite, with identity 0 and the
    /// current time as its retrieval time.
    pub fn new(
        feed_id: i64,
        title: String,
        url: Option<String>,
        content: Option<String>,
        published_at: Option<Timestamp>,
    ) -> (r: Self)
        ensures
            r.id == 0,
            r.feed_id == feed_id,
            r.title == title,
            r.url == url,
            r.content == content,
            r.published_at == published_at,
            !r.is_read,
            !r.is_favorite,
    {
        Article {
            id: 0,
            feed_id,
            title,
            url,
            content,
            published_at,
            is_read: false,
            is_favorite: false,
            created_at: now_micros(),
        }
    }
}

} // verus!
