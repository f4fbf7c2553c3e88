//! The SQL statement that reads an article list: the conditions an
//! `ArticleQuery` asks for, the keywords of its filter, and the values bound
//! to the statement's placeholders, in order.

use vstd::prelude::*;
use crate::app::ArticleQuery;
use crate::model::Feed;
use crate::text::{concat, push_char};

verus! {

/// A value bound to a `?` placeholder.
#[derive(Debug)]
pub enum SqlValue {
    Int(i64),
    Text(String),
}

pub enum SqlValueView {
    Int(i64),
    Text(Seq<char>),
}

impl View for SqlValue {
    type V = SqlValueView;

    open spec fn view(&self) -> SqlValueView {
        match self {
            SqlValue::Int(i) => SqlValueView::Int(*i),
            SqlValue::Text(t) => SqlValueView::Text(t@),
        }
    }
}

/// Unicode's White_Space property, the one `char::is_whitespace` tests:
/// tab to carriage return, space, next line, no-break space, ogham space
/// mark, en quad to hair space, line and paragraph separators, narrow
/// no-break space, medium mathematical space and ideographic space.
pub open spec fn unicode_whitespace(c: char) -> bool {
    let u = c as u32;
    (0x9 <= u <= 0xD) || u == 0x20 || u == 0x85 || u == 0xA0 || u == 0x1680 || (0x2000 <= u
        <= 0x200A) || u == 0x2028 || u == 0x2029 || u == 0x202F || u == 0x205F || u == 0x3000
}

/// Tests `unicode_whitespace`.
fn is_space(c: char) -> (r: bool)
    ensures
        r == unicode_whitespace(c),
{
    let u = c as u32;
    (0x9 <= u && u <= 0xD) || u == 0x20 || u == 0x85 || u == 0xA0 || u == 0x1680 || (0x2000 <= u
        && u <= 0x200A) || u == 0x2028 || u == 0x2029 || u == 0x202F || u == 0x205F || u == 0x3000
}

pub open spec fn trim_start(s: Seq<char>) -> Seq<char>
    decreases s.len(),
{
    if s.len() > 0 && unicode_whitespace(s[0]) {
        trim_start(s.drop_first())
    } else {
        s
    }
}

pub open spec fn trim_end(s: Seq<char>) -> Seq<char>
    decreases s.len(),
{
    if s.len() > 0 && unicode_whitespace(s.last()) {
        trim_end(s.drop_last())
    } else {
        s
    }
}

/// `s` without white space at either end.
pub open spec fn trimmed(s: Seq<char>) -> Seq<char> {
    trim_end(trim_start(s))
}

/// Removes white space at both ends, as `trimmed` states.
pub fn trim(s: &str) -> (r: String)
    ensures
        r@ == trimmed(s@),
{
    let n = s.unicode_len();
    let mut i: usize = 0;
    proof {
        assert(s@.skip(0) =~= s@);
    }
    while i < n && is_space(s.get_char(i))
        invariant
            n == s@.len(),
            0 <= i <= n,
            trim_start(s@) == trim_start(s@.skip(i as int)),
        decreases n - i,
    {
        proof {
            assert(s@.skip(i as int).drop_first() =~= s@.skip(i + 1));
        }
        i = i + 1;
    }
    proof {
        if i < n {
            assert(trim_start(s@.skip(i as int)) == s@.skip(i as int));
        } else {
            assert(s@.skip(i as int).len() == 0);
        }
        assert(s@.skip(i as int) =~= s@.subrange(i as int, n as int));
    }
    let mut j: usize = n;
    while j > i && is_space(s.get_char(j - 1))
        invariant
            n == s@.len(),
            0 <= i <= j <= n,
            trimmed(s@) == trim_end(s@.subrange(i as int, j as int)),
        decreases j - i,
    {
        proof {
            assert(s@.subrange(i as int, j as int).drop_last() =~= s@.subrange(i as int, j - 1));
        }
        j = j - 1;
    }
    s.substring_char(i, j).to_owned()
}

/// The pieces of `s` between separators `sep`: one more than there are separators.
pub open spec fn split_by(s: Seq<char>, sep: char) -> Seq<Seq<char>>
    decreases s.len(),
{
    if s.len() == 0 {
        seq![Seq::<char>::empty()]
    } else {
        let rest = split_by(s.drop_last(), sep);
        if s.last() == sep {
            rest.push(Seq::<char>::empty())
        } else {
            rest.update(rest.len() - 1, rest.last().push(s.last()))
        }
    }
}

proof fn lemma_split_by_nonempty(s: Seq<char>, sep: char)
    ensures
        split_by(s, sep).len() >= 1,
    decreases s.len(),
{
    if s.len() > 0 {
        lemma_split_by_nonempty(s.drop_last(), sep);
    }
}

/// The keywords of a filter: split at commas, each trimmed.
pub open spec fn keywords_of(filter: Seq<char>) -> Seq<Seq<char>> {
    split_by(filter, ',').map_values(|p: Seq<char>| trimmed(p))
}

/// Splits a filter into its keywords as `keywords_of` states.
pub fn keywords(filter: &str) -> (r: Vec<String>)
    ensures
        r.deep_view() == keywords_of(filter@),
        r@.len() >= 1,
{
    let n = filter.unicode_len();
    let mut done: Vec<String> = Vec::new();
    let mut cur = String::new();
    let mut i: usize = 0;
    while i < n
        invariant
            n == filter@.len(),
            0 <= i <= n,
            split_by(filter@.take(i as int), ',').len() >= 1,
            done.deep_view() == split_by(filter@.take(i as int), ',').drop_last().map_values(
                |p: Seq<char>| trimmed(p),
            ),
            cur@ == split_by(filter@.take(i as int), ',').last(),
        decreases n - i,
    {
        let c = filter.get_char(i);
        let ghost pre = filter@.take(i as int);
        let ghost post = filter@.take(i + 1);
        proof {
            assert(post.drop_last() =~= pre);
            lemma_split_by_nonempty(pre, ',');
            lemma_split_by_nonempty(post, ',');
        }
        if c == ',' {
            let ghost old_done = done.deep_view();
            let piece = trim(cur.as_str());
            done.push(piece);
            cur = String::new();
            proof {
                let sp = split_by(pre, ',');
                assert(split_by(post, ',') == sp.push(Seq::<char>::empty()));
                assert(split_by(post, ',').drop_last() =~= sp);
                assert(done.deep_view() =~= old_done.push(trimmed(sp.last())));
                assert(sp.map_values(|p: Seq<char>| trimmed(p)) =~= sp.drop_last().map_values(
                    |p: Seq<char>| trimmed(p),
                ).push(trimmed(sp.last())));
            }
        } else {
            push_char(&mut cur, c);
            proof {
                let sp = split_by(pre, ',');
                assert(split_by(post, ',') == sp.update(sp.len() - 1, sp.last().push(c)));
                assert(split_by(post, ',').drop_last() =~= sp.drop_last());
            }
        }
        i = i + 1;
    }
    proof {
        assert(filter@.take(n as int) =~= filter@);
        lemma_split_by_nonempty(filter@, ',');
    }
    let ghost old_done = done.deep_view();
    let last = trim(cur.as_str());
    done.push(last);
    proof {
        let sp = split_by(filter@, ',');
        assert(done.deep_view() =~= old_done.push(trimmed(sp.last())));
        assert(sp.map_values(|p: Seq<char>| trimmed(p)) =~= sp.drop_last().map_values(
            |p: Seq<char>| trimmed(p),
        ).push(trimmed(sp.last())));
    }
    done
}

/// `parts` joined with `sep` between each two.
pub open spec fn join(parts: Seq<Seq<char>>, sep: Seq<char>) -> Seq<char>
    decreases parts.len(),
{
    if parts.len() == 0 {
        Seq::empty()
    } else if parts.len() == 1 {
        parts[0]
    } else {
        join(parts.drop_last(), sep) + sep + parts.last()
    }
}

/// One keyword's condition: the title or the content contains it, case
/// sensitive (`instr` compares characters exactly, unlike `LIKE`).
pub open spec fn keyword_condition() -> Seq<char> {
    "(instr(title, ?) > 0 OR instr(content, ?) > 0)"@
}

/// The conditions of a query whose filter has `n` keywords (`None`: no filter).
pub open spec fn conditions(unread_only: bool, by_feed: bool, n: Option<nat>) -> Seq<Seq<char>> {
    let a: Seq<Seq<char>> = if unread_only { seq!["is_read = 0"@] } else { Seq::empty() };
    let b: Seq<Seq<char>> = if by_feed { seq!["feed_id = ?"@] } else { Seq::empty() };
    let c: Seq<Seq<char>> = match n {
        Some(k) => seq!["("@ + join(Seq::new(k, |i: int| keyword_condition()), " OR "@) + ")"@],
        None => Seq::empty(),
    };
    a + b + c
}

pub open spec fn select_text() -> Seq<char> {
    "SELECT id, feed_id, title, url, content, published_at, is_read, is_favorite, created_at FROM articles"@
}

/// Newest first by publication time, or by retrieval time for an article
/// without one (both are stored as RFC 3339 text in UTC, which sorts as
/// the times do), then the limit.
pub open spec fn order_text() -> Seq<char> {
    " ORDER BY COALESCE(published_at, created_at) DESC LIMIT ?"@
}

/// The statement text: the columns of an article, the conditions joined
/// with AND, newest first (published, else retrieved), and a limit.
pub open spec fn statement_text(conds: Seq<Seq<char>>) -> Seq<char> {
    if conds.len() == 0 {
        select_text() + order_text()
    } else {
        select_text() + " WHERE "@ + join(conds, " AND "@) + order_text()
    }
}

/// The bound value of a limit: beyond the largest `i64` it means no limit (-1).
pub open spec fn limit_value(limit: nat) -> i64 {
    if limit <= i64::MAX {
        limit as i64
    } else {
        -1i64
    }
}

/// The values bound to the statement: the feed, each keyword
/// twice (title, content), then the limit.
pub open spec fn statement_values(q: crate::app::QueryView) -> Seq<SqlValueView> {
    let a: Seq<SqlValueView> = match q.feed_id {
        Some(id) => seq![SqlValueView::Int(id)],
        None => Seq::empty(),
    };
    let b: Seq<SqlValueView> = match q.filter {
        Some(f) => keyword_values(keywords_of(f)),
        None => Seq::empty(),
    };
    a + b + seq![SqlValueView::Int(limit_value(q.limit))]
}

/// Each keyword twice (title, content).
pub open spec fn keyword_values(kws: Seq<Seq<char>>) -> Seq<SqlValueView>
    decreases kws.len(),
{
    if kws.len() == 0 {
        Seq::empty()
    } else {
        let p = kws.last();
        keyword_values(kws.drop_last()).push(SqlValueView::Text(p)).push(SqlValueView::Text(p))
    }
}

fn join_exec(parts: &Vec<String>, sep: &str) -> (r: String)
    ensures
        r@ == join(parts.deep_view(), sep@),
{
    let mut out = String::new();
    let mut i: usize = 0;
    while i < parts.len()
        invariant
            0 <= i <= parts.len(),
            out@ == join(parts.deep_view().take(i as int), sep@),
        decreases parts.len() - i,
    {
        let ghost t = parts.deep_view().take(i + 1);
        proof {
            assert(t.drop_last() =~= parts.deep_view().take(i as int));
            assert(t.last() == parts[i as int]@);
        }
        if i == 0 {
            out = parts[i].clone();
            proof {
                assert(t.len() == 1);
            }
        } else {
            let with_sep = concat(out.as_str(), sep);
            out = concat(with_sep.as_str(), parts[i].as_str());
        }
        i = i + 1;
    }
    proof {
        assert(parts.deep_view().take(parts.len() as int) =~= parts.deep_view());
    }
    out
}

/// The statement and its bound values for an article query.
pub fn article_statement(q: &ArticleQuery) -> (r: (String, Vec<SqlValue>))
    ensures
        r.0@ == statement_text(
            conditions(
                q.unread_only,
                q.feed_id is Some,
                match q@.filter {
                    Some(f) => Some(keywords_of(f).len()),
                    None => None,
                },
            ),
        ),
        r.1@.map_values(|v: SqlValue| v@) == statement_values(q@),
{
    let mut conds: Vec<String> = Vec::new();
    let mut values: Vec<SqlValue> = Vec::new();
    if q.unread_only {
        conds.push("is_read = 0".to_owned());
    }
    if let Some(id) = q.feed_id {
        conds.push("feed_id = ?".to_owned());
        values.push(SqlValue::Int(id));
    }
    let ghost before_kw = values@.map_values(|v: SqlValue| v@);
    match &q.filter {
        Some(f) => {
            let kws = keywords(f.as_str());
            let mut each: Vec<String> = Vec::new();
            let mut i: usize = 0;
            while i < kws.len()
                invariant
                    0 <= i <= kws.len(),
                    each.deep_view() == Seq::new(i as nat, |k: int| keyword_condition()),
                    values@.map_values(|v: SqlValue| v@) == before_kw + keyword_values(
                        kws.deep_view().take(i as int),
                    ),
                decreases kws.len() - i,
            {
                let ghost old_vals = values@.map_values(|v: SqlValue| v@);
                let ghost old_each = each.deep_view();
                let ghost t = kws.deep_view().take(i + 1);
                each.push("(instr(title, ?) > 0 OR instr(content, ?) > 0)".to_owned());
                let pattern = kws[i].clone();
                values.push(SqlValue::Text(pattern.clone()));
                values.push(SqlValue::Text(pattern));
                proof {
                    assert(t.drop_last() =~= kws.deep_view().take(i as int));
                    assert(t.last() == kws[i as int]@);
                    assert(each.deep_view() =~= old_each.push(keyword_condition()));
                    assert(each.deep_view() =~= Seq::new((i + 1) as nat, |k: int| keyword_condition()));
                    assert(values@.map_values(|v: SqlValue| v@) =~= old_vals.push(
                        SqlValueView::Text(pattern@),
                    ).push(SqlValueView::Text(pattern@)));
                }
                i = i + 1;
            }
            proof {
                assert(kws.deep_view().take(kws.len() as int) =~= kws.deep_view());
                assert(values@.map_values(|v: SqlValue| v@) == before_kw + keyword_values(
                    keywords_of(f@),
                ));
            }
            let inner = join_exec(&each, " OR ");
            let open = concat("(", inner.as_str());
            conds.push(concat(open.as_str(), ")"));
        },
        None => {
            proof {
                assert(before_kw + Seq::<SqlValueView>::empty() =~= before_kw);
            }
        },
    }
    let ghost mid = values@.map_values(|v: SqlValue| v@);
    let limit: i64 = if (q.limit as u64) <= (i64::MAX as u64) {
        q.limit as i64
    } else {
        -1i64
    };
    values.push(SqlValue::Int(limit));
    proof {
        assert(values@.map_values(|v: SqlValue| v@) =~= mid.push(SqlValueView::Int(limit)));
    }
    let head = "SELECT id, feed_id, title, url, content, published_at, is_read, is_favorite, created_at FROM articles";
    let order = " ORDER BY COALESCE(published_at, created_at) DESC LIMIT ?";
    let sql = if conds.len() == 0 {
        concat(head, order)
    } else {
        let joined = join_exec(&conds, " AND ");
        let w = concat(head, " WHERE ");
        let body = concat(w.as_str(), joined.as_str());
        concat(body.as_str(), order)
    };
    proof {
        let n: Option<nat> = match q@.filter {
            Some(f) => Some(keywords_of(f).len()),
            None => None,
        };
        assert(conds.deep_view() =~= conditions(q.unread_only, q.feed_id is Some, n));
        assert(values@.map_values(|v: SqlValue| v@) =~= statement_values(q@));
    }
    (sql, values)
}


/// Whether a feed is in category `c`.
pub open spec fn in_category(f: Feed, c: Seq<char>) -> bool {
    f.category.deep_view() == Some(c)
}

/// The feeds of a category, in their order; all of them without one.
pub fn feeds_in_category(feeds: Vec<Feed>, category: Option<&str>) -> (r: Vec<Feed>)
    ensures
        category is None ==> r@ == feeds@,
        category matches Some(c) ==> r@ == feeds@.filter(|f: Feed| in_category(f, c@)),
{
    let c = match category {
        Some(c) => c.to_owned(),
        None => return feeds,
    };
    let ghost keep = |f: Feed| in_category(f, c@);
    let mut out: Vec<Feed> = Vec::new();
    let mut i: usize = 0;
    while i < feeds.len()
        invariant
            0 <= i <= feeds.len(),
            out@ == feeds@.take(i as int).filter(keep),
            keep == (|f: Feed| in_category(f, c@)),
        decreases feeds.len() - i,
    {
        let k = match &feeds[i].category {
            Some(fc) => *fc == c,
            None => false,
        };
        proof {
            reveal(Seq::filter);
            let t = feeds@.take(i + 1);
            assert(t.drop_last() =~= feeds@.take(i as int));
            assert(t.last() == feeds@[i as int]);
            assert(keep(feeds@[i as int]) == k);
        }
        if k {
            out.push(feeds[i].clone());
        }
        i = i + 1;
    }
    proof {
        assert(feeds@.take(feeds.len() as int) =~= feeds@);
    }
    out
}

} // verus!
