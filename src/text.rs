//! Text helpers: decimal numbers, line splitting and the HTML rendering
//! used by the preview.

use vstd::prelude::*;

verus! {

/// The decimal digit for `d < 10`.
pub open spec fn digit_char(d: nat) -> char {
    if d == 0 { '0' }
    else if d == 1 { '1' }
    else if d == 2 { '2' }
    else if d == 3 { '3' }
    else if d == 4 { '4' }
    else if d == 5 { '5' }
    else if d == 6 { '6' }
    else if d == 7 { '7' }
    else if d == 8 { '8' }
    else { '9' }
}

/// The decimal notation of `n`, without sign or leading zeros.
pub open spec fn decimal(n: nat) -> Seq<char>
    decreases n,
{
    if n < 10 {
        seq![digit_char(n)]
    } else {
        decimal(n / 10).push(digit_char(n % 10))
    }
}

/// Relies on `String::push`: appends one character.
#[verifier::external_body]
pub(crate) fn push_char(s: &mut String, c: char)
    ensures
        final(s)@ == old(s)@.push(c),
{
    s.push(c)
}

/// Relies on `String::pop`: removes and returns the last character, or
/// returns `None` and leaves an empty string as it is.
#[verifier::external_body]
pub(crate) fn pop_char(s: &mut String) -> (r: Option<char>)
    ensures
        old(s)@.len() == 0 ==> r is None && final(s)@ == old(s)@,
        old(s)@.len() > 0 ==> r == Some(old(s)@.last()) && final(s)@ == old(s)@.drop_last(),
{
    s.pop()
}

fn digit_of(d: usize) -> (r: char)
    requires
        d < 10,
    ensures
        r == digit_char(d as nat),
{
    if d == 0 { '0' }
    else if d == 1 { '1' }
    else if d == 2 { '2' }
    else if d == 3 { '3' }
    else if d == 4 { '4' }
    else if d == 5 { '5' }
    else if d == 6 { '6' }
    else if d == 7 { '7' }
    else if d == 8 { '8' }
    else { '9' }
}

/// Appends the decimal notation of `n`.
fn write_decimal(n: usize, s: &mut String)
    ensures
        final(s)@ == old(s)@ + decimal(n as nat),
    decreases n,
{
    if n >= 10 {
        write_decimal(n / 10, s);
    }
    push_char(s, digit_of(n % 10));
    proof {
        assert(s@ =~= old(s)@ + decimal(n as nat));
    }
}

/// The decimal notation of `n`.
pub(crate) fn usize_text(n: usize) -> (r: String)
    ensures
        r@ == decimal(n as nat),
{
    let mut s = String::new();
    write_decimal(n, &mut s);
    proof {
        assert(s@ =~= decimal(n as nat));
    }
    s
}

/// Builds `a + b` as a new string.
pub fn concat(a: &str, b: &str) -> (r: String)
    ensures
        r@ == a@ + b@,
{
    let mut s = a.to_owned();
    s.append(b);
    s
}

/// The pieces of `s` between newlines, as `split('\n')` gives them: one
/// more piece than there are newlines.
pub open spec fn split_nl(s: Seq<char>) -> Seq<Seq<char>>
    decreases s.len(),
{
    if s.len() == 0 {
        seq![Seq::<char>::empty()]
    } else {
        let rest = split_nl(s.drop_last());
        if s.last() == '\n' {
            rest.push(Seq::<char>::empty())
        } else {
            rest.update(rest.len() - 1, rest.last().push(s.last()))
        }
    }
}

/// A line without the carriage return that ends it, if any.
pub open spec fn strip_cr(l: Seq<char>) -> Seq<char> {
    if l.len() > 0 && l.last() == '\r' {
        l.drop_last()
    } else {
        l
    }
}

/// The lines of `s`: split at `\n`, a `\r` before the `\n` removed, and no
/// empty line after a final newline (what `str::lines` yields).
pub open spec fn lines_of(s: Seq<char>) -> Seq<Seq<char>> {
    let parts = split_nl(s);
    let ended = parts.take(parts.len() - 1).map_values(|l: Seq<char>| strip_cr(l));
    if parts.last().len() == 0 {
        ended
    } else {
        ended.push(parts.last())
    }
}

proof fn lemma_split_nl_nonempty(s: Seq<char>)
    ensures
        split_nl(s).len() >= 1,
    decreases s.len(),
{
    if s.len() > 0 {
        lemma_split_nl_nonempty(s.drop_last());
    }
}

/// Removes a final carriage return.
fn strip_cr_exec(s: &mut String)
    ensures
        final(s)@ == strip_cr(old(s)@),
{
    let n = s.as_str().unicode_len();
    if n > 0 && s.as_str().get_char(n - 1) == '\r' {
        pop_char(s);
    }
}

/// Splits text into lines as `lines_of` states.
pub fn split_lines(text: &str) -> (r: Vec<String>)
    ensures
        r.deep_view() == lines_of(text@),
{
    let n = text.unicode_len();
    let mut done: Vec<String> = Vec::new();
    let mut cur = String::new();
    let mut i: usize = 0;
    while i < n
        invariant
            n == text@.len(),
            0 <= i <= n,
            split_nl(text@.take(i as int)).len() >= 1,
            done.deep_view() == split_nl(text@.take(i as int)).take(
                split_nl(text@.take(i as int)).len() - 1,
            ).map_values(|l: Seq<char>| strip_cr(l)),
            cur@ == split_nl(text@.take(i as int)).last(),
        decreases n - i,
    {
        let c = text.get_char(i);
        let ghost pre = text@.take(i as int);
        let ghost post = text@.take(i + 1);
        proof {
            assert(post.drop_last() =~= pre);
            assert(post.last() == c);
            lemma_split_nl_nonempty(pre);
            lemma_split_nl_nonempty(post);
        }
        if c == '\n' {
            let ghost old_done = done.deep_view();
            strip_cr_exec(&mut cur);
            done.push(cur);
            cur = String::new();
            proof {
                assert(split_nl(post) == split_nl(pre).push(Seq::<char>::empty()));
                assert(done.deep_view() =~= old_done.push(strip_cr(split_nl(pre).last())));
                assert(split_nl(post).take(split_nl(post).len() - 1) =~= split_nl(pre));
                assert(split_nl(pre) =~= split_nl(pre).take(split_nl(pre).len() - 1).push(
                    split_nl(pre).last(),
                ));
                assert(done.deep_view() =~= split_nl(post).take(split_nl(post).len() - 1).map_values(
                    |l: Seq<char>| strip_cr(l),
                ));
            }
        } else {
            push_char(&mut cur, c);
            proof {
                let sp = split_nl(pre);
                assert(split_nl(post) == sp.update(sp.len() - 1, sp.last().push(c)));
                assert(split_nl(post).take(split_nl(post).len() - 1) =~= sp.take(sp.len() - 1));
            }
        }
        i = i + 1;
    }
    proof {
        assert(text@.take(n as int) =~= text@);
    }
    if cur.as_str().unicode_len() > 0 {
        let ghost old_done = done.deep_view();
        done.push(cur);
        proof {
            assert(done.deep_view() =~= old_done.push(split_nl(text@).last()));
        }
    }
    done
}

/// A name for what html2text renders from `html` at `width` columns:
/// `None` when it gives up.
pub uninterp spec fn rendered_html(html: Seq<char>, width: nat) -> Option<Seq<char>>;

/// Relies on html2text's `config::plain().string_from_read`: plain text
/// wrapped to `width` columns, determined by the input and the width alone;
/// its error (output too narrow for the nesting) becomes `None`.
#[verifier::external_body]
fn render_html(html: &str, width: usize) -> (r: Option<String>)
    ensures
        r.deep_view() == rendered_html(html@, width as nat),
{
    html2text::config::plain().string_from_read(html.as_bytes(), width).ok()
}

/// Wrap width of the preview.
pub const PREVIEW_WIDTH: usize = 80;

/// Placeholder shown for an article without content.
pub open spec fn no_content_text() -> Seq<char> {
    "(No content available)"@
}

/// The preview lines for article content that html2text rendered as
/// `rendered` (`None` when it gave up): the rendered lines, or the raw
/// content's lines when nothing was rendered.
pub open spec fn preview_lines_spec(raw: Seq<char>, rendered: Option<Seq<char>>) -> Seq<Seq<char>> {
    match rendered {
        Some(t) => lines_of(t),
        None => lines_of(raw),
    }
}

/// The preview's lines from the source text and its rendering.
pub fn preview_lines_from(raw: &str, rendered: Option<&str>) -> (r: Vec<String>)
    ensures
        r.deep_view() == preview_lines_spec(raw@, match rendered { Some(t) => Some(t@), None => None }),
{
    match rendered {
        Some(t) => split_lines(t),
        None => split_lines(raw),
    }
}

/// The source text of a preview: the content, or a placeholder.
pub open spec fn preview_source(content: Option<Seq<char>>) -> Seq<char> {
    match content {
        Some(c) => c,
        None => no_content_text(),
    }
}

/// The preview of an article with `content`: rendered at the preview width
/// and split into lines.
pub fn preview_lines(content: Option<&str>) -> (r: Vec<String>)
    ensures
        ({
            let src = preview_source(match content { Some(c) => Some(c@), None => None });
            r.deep_view() == preview_lines_spec(src, rendered_html(src, PREVIEW_WIDTH as nat))
        }),
{
    let src: &str = match content {
        Some(c) => c,
        None => "(No content available)",
    };
    proof {
        reveal_strlit("(No content available)");
    }
    let rendered = render_html(src, PREVIEW_WIDTH);
    match &rendered {
        Some(t) => preview_lines_from(src, Some(t.as_str())),
        None => preview_lines_from(src, None),
    }
}

} // verus!
