//! The Markdown export of an article list.

use vstd::prelude::*;
use crate::model::{format_utc, utc_text, Article, STAMP_FORMAT};
use crate::text::{decimal, usize_text};

verus! {

/// The UTC time of a timestamp, `YYYY-MM-DD HH:MM:SS`.
pub open spec fn utc_stamp(micros: i64) -> Option<Seq<char>> {
    utc_text(micros, STAMP_FORMAT@)
}

pub open spec fn yes_no(b: bool) -> Seq<char> {
    if b { "Yes"@ } else { "No"@ }
}

/// The publication time shown for an article.
pub open spec fn published_stamp(a: Article) -> Option<Seq<char>> {
    match a.published_at {
        Some(t) => utc_stamp(t),
        None => None,
    }
}

/// The section of the article numbered `number`, published at `stamp`;
/// all but the last section end with a rule.
pub open spec fn article_section(number: nat, a: Article, stamp: Option<Seq<char>>, last: bool) -> Seq<char> {
    "## "@ + decimal(number) + ". "@ + a.title@ + "\n\n"@
        + match a.url {
            Some(u) => "**URL:** "@ + u@ + "\n\n"@,
            None => Seq::empty(),
        }
        + match stamp {
            Some(s) => "**Published:** "@ + s + "\n\n"@,
            None => Seq::empty(),
        }
        + "**Read:** "@ + yes_no(a.is_read) + "\n\n"@
        + "**Favorite:** "@ + yes_no(a.is_favorite) + "\n\n"@
        + match a.content {
            Some(c) => "### Content\n\n"@ + c@ + "\n\n"@,
            None => Seq::empty(),
        }
        + if last { Seq::empty() } else { "---\n\n"@ }
}

/// The sections of the first `arts.len()` articles of a list of `total`.
pub open spec fn sections(arts: Seq<Article>, total: nat) -> Seq<char>
    decreases arts.len(),
{
    if arts.len() == 0 {
        Seq::empty()
    } else {
        let k = (arts.len() - 1) as nat;
        sections(arts.drop_last(), total) + article_section(
            k + 1,
            arts.last(),
            published_stamp(arts.last()),
            k + 1 == total,
        )
    }
}

/// The whole export: a title, the count, a rule, then one section per article.
pub open spec fn markdown_of(arts: Seq<Article>) -> Seq<char> {
    "# Exported Articles\n\n"@ + "Total: "@ + decimal(arts.len()) + " articles\n\n"@ + "---\n\n"@
        + sections(arts, arts.len())
}

/// The section of one article, given the publication time as chrono
/// formats it.
pub fn article_markdown(number: usize, a: &Article, stamp: Option<&str>, last: bool) -> (r: String)
    ensures
        r@ == article_section(
            number as nat,
            *a,
            match stamp { Some(s) => Some(s@), None => None },
            last,
        ),
{
    let mut s = "## ".to_owned();
    s.append(usize_text(number).as_str());
    s.append(". ");
    s.append(a.title.as_str());
    s.append("\n\n");
    let ghost p1 = s@;
    match &a.url {
        Some(u) => {
            s.append("**URL:** ");
            s.append(u.as_str());
            s.append("\n\n");
        },
        None => {},
    }
    let ghost p2 = s@;
    match stamp {
        Some(t) => {
            s.append("**Published:** ");
            s.append(t);
            s.append("\n\n");
        },
        None => {},
    }
    let ghost p3 = s@;
    s.append("**Read:** ");
    s.append(if a.is_read { "Yes" } else { "No" });
    s.append("\n\n");
    s.append("**Favorite:** ");
    s.append(if a.is_favorite { "Yes" } else { "No" });
    s.append("\n\n");
    let ghost p4 = s@;
    match &a.content {
        Some(c) => {
            s.append("### Content\n\n");
            s.append(c.as_str());
            s.append("\n\n");
        },
        None => {},
    }
    let ghost p5 = s@;
    if !last {
        s.append("---\n\n");
    }
    proof {
        reveal_strlit("");
        let sv = match stamp { Some(t) => Some(t@), None => None };
        assert(p1 =~= "## "@ + decimal(number as nat) + ". "@ + a.title@ + "\n\n"@);
        assert(p2 =~= p1 + match a.url {
            Some(u) => "**URL:** "@ + u@ + "\n\n"@,
            None => Seq::empty(),
        });
        assert(p3 =~= p2 + match sv {
            Some(t) => "**Published:** "@ + t + "\n\n"@,
            None => Seq::empty(),
        });
        assert(p4 =~= p3 + "**Read:** "@ + yes_no(a.is_read) + "\n\n"@ + "**Favorite:** "@ + yes_no(
            a.is_favorite,
        ) + "\n\n"@);
        assert(p5 =~= p4 + match a.content {
            Some(c) => "### Content\n\n"@ + c@ + "\n\n"@,
            None => Seq::empty(),
        });
        assert(s@ =~= p5 + if last { Seq::empty() } else { "---\n\n"@ });
    }
    s
}

/// The Markdown export of `articles`, as `markdown_of` states.
pub fn export_markdown(articles: &Vec<Article>) -> (r: String)
    ensures
        r@ == markdown_of(articles@),
{
    let n = articles.len();
    let mut out = "# Exported Articles\n\n".to_owned();
    out.append("Total: ");
    out.append(usize_text(n).as_str());
    out.append(" articles\n\n");
    out.append("---\n\n");
    let ghost head = out@;
    let mut i: usize = 0;
    while i < n
        invariant
            n == articles.len(),
            0 <= i <= n,
            out@ == head + sections(articles@.take(i as int), n as nat),
        decreases n - i,
    {
        let a = &articles[i];
        let stamp = match a.published_at {
            Some(t) => format_utc(t, STAMP_FORMAT),
            None => None,
        };
        let section = match &stamp {
            Some(t) => article_markdown(i + 1, a, Some(t.as_str()), i + 1 == n),
            None => article_markdown(i + 1, a, None, i + 1 == n),
        };
        let ghost before = out@;
        out.append(section.as_str());
        proof {
            let t = articles@.take(i + 1);
            assert(t.drop_last() =~= articles@.take(i as int));
            assert(t.last() == articles@[i as int]);
            assert(out@ =~= head + sections(t, n as nat));
        }
        i = i + 1;
    }
    proof {
        assert(articles@.take(n as int) =~= articles@);
        assert(out@ =~= markdown_of(articles@));
    }
    out
}

} // verus!
