//! The decisions of the command-line tool: which articles a listing keeps,
//! which articles a "mark unread" touches, which export format is asked for.

use vstd::prelude::*;
use crate::model::{format_utc, utc_text, Article, DAY_FORMAT};

verus! {

/// `None` for an empty text (clearing a custom name or a category), else the text.
pub fn optional_text(s: &str) -> (r: Option<String>)
    ensures
        s@.len() == 0 ==> r is None,
        s@.len() > 0 ==> (r matches Some(t) && t@ == s@),
{
    if s.unicode_len() == 0 {
        None
    } else {
        Some(s.to_owned())
    }
}

/// What "mark unread" applies to.
#[derive(Clone, Copy, Debug, PartialEq, Eq, Structural)]
pub enum UnreadTarget {
    Article(i64),
    Feed(i64),
    All,
}

/// Why "mark unread" was refused.
#[derive(Clone, Copy, Debug, PartialEq, Eq, Structural)]
pub enum TargetError {
    /// Neither an article, a feed nor everything was named.
    NoneGiven,
    /// More than one of them was named.
    SeveralGiven,
}

impl TargetError {
    /// The message shown for the error.
    pub fn message(&self) -> (r: &'static str)
        ensures
            *self == TargetError::NoneGiven ==> r@ == "Please specify either an article ID, --feed, or --all"@,
            *self == TargetError::SeveralGiven ==> r@ == "Please specify only one of: article ID, --feed, or --all"@,
    {
        match self {
            TargetError::NoneGiven => "Please specify either an article ID, --feed, or --all",
            TargetError::SeveralGiven => "Please specify only one of: article ID, --feed, or --all",
        }
    }
}

pub open spec fn given_count(id: Option<i64>, feed_id: Option<i64>, all: bool) -> nat {
    (if id is Some { 1nat } else { 0nat }) + (if feed_id is Some { 1nat } else { 0nat }) + (if all {
        1nat
    } else {
        0nat
    })
}

/// Exactly one of an article, a feed or everything must be named.
pub fn unread_target(id: Option<i64>, feed_id: Option<i64>, all: bool) -> (r: Result<UnreadTarget, TargetError>)
    ensures
        given_count(id, feed_id, all) == 0 <==> r == Err::<UnreadTarget, TargetError>(TargetError::NoneGiven),
        given_count(id, feed_id, all) > 1 <==> r == Err::<UnreadTarget, TargetError>(TargetError::SeveralGiven),
        given_count(id, feed_id, all) == 1 ==> r == Ok::<UnreadTarget, TargetError>(
            match (id, feed_id) {
                (Some(a), _) => UnreadTarget::Article(a),
                (None, Some(f)) => UnreadTarget::Feed(f),
                _ => UnreadTarget::All,
            },
        ),
{
    let n: usize = (if id.is_some() { 1 } else { 0 }) + (if feed_id.is_some() { 1 } else { 0 }) + (if all {
        1
    } else {
        0
    });
    if n == 0 {
        Err(TargetError::NoneGiven)
    } else if n > 1 {
        Err(TargetError::SeveralGiven)
    } else {
        match (id, feed_id) {
            (Some(a), _) => Ok(UnreadTarget::Article(a)),
            (None, Some(f)) => Ok(UnreadTarget::Feed(f)),
            _ => Ok(UnreadTarget::All),
        }
    }
}

/// `a` sorts before or equals `b`, character by character (for UTF-8 text
/// the same order as by bytes).
pub open spec fn text_le(a: Seq<char>, b: Seq<char>) -> bool
    decreases a.len(),
{
    if a.len() == 0 {
        true
    } else if b.len() == 0 {
        false
    } else if a[0] != b[0] {
        (a[0] as u32) < (b[0] as u32)
    } else {
        text_le(a.drop_first(), b.drop_first())
    }
}

proof fn lemma_text_le_skip(a: Seq<char>, b: Seq<char>, i: int)
    requires
        0 <= i < a.len(),
        i < b.len(),
        a[i] == b[i],
    ensures
        text_le(a.skip(i), b.skip(i)) == text_le(a.skip(i + 1), b.skip(i + 1)),
{
    assert(a.skip(i).drop_first() =~= a.skip(i + 1));
    assert(b.skip(i).drop_first() =~= b.skip(i + 1));
}

/// Compares two texts as `text_le` states.
pub fn text_le_exec(a: &str, b: &str) -> (r: bool)
    ensures
        r == text_le(a@, b@),
{
    let na = a.unicode_len();
    let nb = b.unicode_len();
    let mut i: usize = 0;
    proof {
        assert(a@.skip(0) =~= a@);
        assert(b@.skip(0) =~= b@);
    }
    while i < na && i < nb
        invariant
            na == a@.len(),
            nb == b@.len(),
            0 <= i <= na,
            i <= nb,
            text_le(a@, b@) == text_le(a@.skip(i as int), b@.skip(i as int)),
        decreases na - i,
    {
        let ca = a.get_char(i);
        let cb = b.get_char(i);
        if ca != cb {
            return (ca as u32) < (cb as u32);
        }
        proof {
            lemma_text_le_skip(a@, b@, i as int);
        }
        i = i + 1;
    }
    i == na
}

/// The calendar day, `YYYY-MM-DD` in UTC, of a timestamp.
pub open spec fn utc_day(micros: i64) -> Option<Seq<char>> {
    utc_text(micros, DAY_FORMAT@)
}

/// Whether an article with publication day `day` (`None`: no date) is
/// within the bounds given, inclusive. Without a date it is within only
/// when no bound is given.
pub open spec fn day_within(day: Option<Seq<char>>, after: Option<Seq<char>>, before: Option<Seq<char>>) -> bool {
    &&& (after matches Some(a) ==> (day matches Some(d) && text_le(a, d)))
    &&& (before matches Some(b) ==> (day matches Some(d) && text_le(d, b)))
}

/// The bound check of a listing, given the publication day.
pub fn day_within_exec(day: Option<&str>, after: Option<&str>, before: Option<&str>) -> (r: bool)
    ensures
        r == day_within(
            match day { Some(d) => Some(d@), None => None },
            match after { Some(a) => Some(a@), None => None },
            match before { Some(b) => Some(b@), None => None },
        ),
{
    let ok_after = match after {
        Some(a) => match day {
            Some(d) => text_le_exec(a, d),
            None => false,
        },
        None => true,
    };
    let ok_before = match before {
        Some(b) => match day {
            Some(d) => text_le_exec(d, b),
            None => false,
        },
        None => true,
    };
    ok_after && ok_before
}

pub open spec fn day_of_article(a: Article) -> Option<Seq<char>> {
    match a.published_at {
        Some(t) => utc_day(t),
        None => None,
    }
}

pub open spec fn opt_view(s: Option<&str>) -> Option<Seq<char>> {
    match s {
        Some(t) => Some(t@),
        None => None,
    }
}

/// A listing keeps an article unless its feed is disabled (only for
/// listings over all feeds) or it falls outside the day bounds.
pub open spec fn listed(a: Article, disabled: Seq<i64>, all_feeds: bool, after: Option<Seq<char>>, before: Option<Seq<char>>) -> bool {
    &&& !(all_feeds && disabled.contains(a.feed_id))
    &&& day_within(day_of_article(a), after, before)
}

fn contains_id(ids: &Vec<i64>, id: i64) -> (r: bool)
    ensures
        r == ids@.contains(id),
{
    let mut i: usize = 0;
    while i < ids.len()
        invariant
            0 <= i <= ids.len(),
            forall|k: int| 0 <= k < i ==> ids@[k] != id,
        decreases ids.len() - i,
    {
        if ids[i] == id {
            return true;
        }
        i = i + 1;
    }
    false
}

/// Whether a listing keeps an article, as `listed` states.
pub fn is_listed(
    a: &Article,
    disabled: &Vec<i64>,
    all_feeds: bool,
    after: Option<&str>,
    before: Option<&str>,
) -> (r: bool)
    ensures
        r == listed(*a, disabled@, all_feeds, opt_view(after), opt_view(before)),
{
    if all_feeds && contains_id(disabled, a.feed_id) {
        return false;
    }
    if after.is_none() && before.is_none() {
        return true;
    }
    let day = match a.published_at {
        Some(t) => format_utc(t, DAY_FORMAT),
        None => None,
    };
    match &day {
        Some(d) => day_within_exec(Some(d.as_str()), after, before),
        None => day_within_exec(None, after, before),
    }
}

/// The articles a listing keeps, in their order; `all_feeds` is whether the
/// listing spans every feed (then disabled feeds are left out).
pub fn filter_listing(
    articles: Vec<Article>,
    disabled: &Vec<i64>,
    all_feeds: bool,
    after: Option<&str>,
    before: Option<&str>,
) -> (r: Vec<Article>)
    ensures
        r@ == articles@.filter(
            |a: Article| listed(a, disabled@, all_feeds, opt_view(after), opt_view(before)),
        ),
{
    let ghost keep = |a: Article| listed(a, disabled@, all_feeds, opt_view(after), opt_view(before));
    let mut out: Vec<Article> = Vec::new();
    let mut i: usize = 0;
    while i < articles.len()
        invariant
            0 <= i <= articles.len(),
            out@ == articles@.take(i as int).filter(keep),
            keep == (|a: Article| listed(a, disabled@, all_feeds, opt_view(after), opt_view(before))),
        decreases articles.len() - i,
    {
        proof {
            reveal(Seq::filter);
            assert(articles@.take(i + 1).drop_last() =~= articles@.take(i as int));
        }
        let k = is_listed(&articles[i], disabled, all_feeds, after, before);
        proof {
            let t = articles@.take(i + 1);
            assert(t.last() == articles@[i as int]);
            assert(k == listed(articles@[i as int], disabled@, all_feeds, opt_view(after), opt_view(before)));
            assert(keep(articles@[i as int]) == k);
            assert(t.filter(keep) == if keep(t.last()) {
                t.drop_last().filter(keep).push(t.last())
            } else {
                t.drop_last().filter(keep)
            });
        }
        if k {
            out.push(articles[i].clone());
        }
        i = i + 1;
    }
    proof {
        assert(articles@.take(articles.len() as int) =~= articles@);
    }
    out
}

/// The first `n` characters of `s` (all of it when shorter).
pub fn first_chars(s: &str, n: usize) -> (r: String)
    ensures
        r@ == s@.take(if n < s@.len() { n as int } else { s@.len() as int }),
{
    let len = s.unicode_len();
    let end = if n < len {
        n
    } else {
        len
    };
    s.substring_char(0, end).to_owned()
}

/// Export formats.
#[derive(Clone, Copy, Debug, PartialEq, Eq, Structural)]
pub enum ExportFormat {
    Json,
    Markdown,
}

/// A name for the lowercase form of a text, as `str::to_lowercase` gives it.
pub uninterp spec fn lowercase(s: Seq<char>) -> Seq<char>;

/// Relies on `str::to_lowercase`: the lowercase form, determined by the
/// text alone.
#[verifier::external_body]
fn to_lower(s: &str) -> (r: String)
    ensures
        r@ == lowercase(s@),
{
    s.to_lowercase()
}

pub open spec fn format_named(lower: Seq<char>) -> Option<ExportFormat> {
    if lower == "json"@ {
        Some(ExportFormat::Json)
    } else if lower == "markdown"@ || lower == "md"@ {
        Some(ExportFormat::Markdown)
    } else {
        None
    }
}

fn same_text(a: &str, b: &str) -> (r: bool)
    ensures
        r == (a@ == b@),
{
    let n = a.unicode_len();
    if n != b.unicode_len() {
        return false;
    }
    let mut i: usize = 0;
    while i < n
        invariant
            n == a@.len(),
            n == b@.len(),
            0 <= i <= n,
            a@.take(i as int) == b@.take(i as int),
        decreases n - i,
    {
        if a.get_char(i) != b.get_char(i) {
            proof {
                assert(a@[i as int] != b@[i as int]);
            }
            return false;
        }
        proof {
            assert(a@.take(i + 1) =~= a@.take(i as int).push(a@[i as int]));
            assert(b@.take(i + 1) =~= b@.take(i as int).push(b@[i as int]));
        }
        i = i + 1;
    }
    proof {
        assert(a@.take(n as int) =~= a@);
        assert(b@.take(n as int) =~= b@);
    }
    true
}

/// The format a lowercased name stands for: "json", or "markdown" / "md".
pub fn format_of_lowercase(lower: &str) -> (r: Option<ExportFormat>)
    ensures
        r == format_named(lower@),
{
    proof {
        reveal_strlit("json");
        reveal_strlit("markdown");
        reveal_strlit("md");
    }
    if same_text(lower, "json") {
        Some(ExportFormat::Json)
    } else if same_text(lower, "markdown") || same_text(lower, "md") {
        Some(ExportFormat::Markdown)
    } else {
        None
    }
}

/// The format a name stands for, in any case.
pub fn export_format(name: &str) -> (r: Option<ExportFormat>)
    ensures
        r == format_named(lowercase(name@)),
{
    let lower = to_lower(name);
    format_of_lowercase(lower.as_str())
}

} // verus!
