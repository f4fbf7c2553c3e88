//! The texts the client shows besides the lists themselves: pane titles,
//! the footer, the preview's position and the marks of an article row.

use vstd::prelude::*;
use crate::app::{App, Mode};
use crate::model::Article;
use crate::text::{concat, decimal, usize_text};

verus! {

/// Key help of the article browser.
pub const BROWSE_HELP: &'static str = "q:Quit j/k:Move g/G:Top/End ^u/d:Half Tab:Switch r:Read f:Fav o:Open p:Preview /:Search R:Refresh";

/// Key help of the preview.
pub const PREVIEW_HELP: &'static str = "Esc/p/q:Close  j/k:Scroll  PgUp/Dn  ^u/d:Half  g/G:Top/End  o:Open";

/// Title of the article pane: the selected feed's name, or " Articles "
/// when no feed is selected.
pub open spec fn articles_title_spec(app: App) -> Seq<char> {
    if app.selected_feed < app.feeds@.len() {
        " "@ + app.feeds@[app.selected_feed as int].display_name_spec() + " "@
    } else {
        " Articles "@
    }
}

/// The footer: the search prompt while typing, else the key help and the status.
pub open spec fn footer_spec(app: App) -> Seq<char> {
    match app.mode {
        Mode::SearchInput(q) => "Search: "@ + q@ + "_  (Enter:Search Esc:Cancel)"@,
        _ => match app.status_message {
            Some(m) => BROWSE_HELP@ + " | "@ + m@,
            None => BROWSE_HELP@,
        },
    }
}

/// Where the preview is: its first shown line, counted from 1, of all
/// (at least 1).
pub open spec fn position_spec(scroll: nat, len: nat) -> Seq<char> {
    " Line "@ + decimal(scroll + 1) + "/"@ + decimal(if len == 0 { 1 } else { len }) + " "@
}

impl App {
    /// The article pane's title, as `articles_title_spec` states.
    pub fn articles_title(&self) -> (r: String)
        ensures
            r@ == articles_title_spec(*self),
    {
        if self.selected_feed < self.feeds.len() {
            let head = concat(" ", self.feeds[self.selected_feed].display_name());
            concat(head.as_str(), " ")
        } else {
            " Articles ".to_owned()
        }
    }

    /// The footer text, as `footer_spec` states.
    pub fn footer_text(&self) -> (r: String)
        ensures
            r@ == footer_spec(*self),
    {
        match &self.mode {
            Mode::SearchInput(q) => {
                let head = concat("Search: ", q.as_str());
                concat(head.as_str(), "_  (Enter:Search Esc:Cancel)")
            },
            _ => match &self.status_message {
                Some(m) => {
                    let head = concat(BROWSE_HELP, " | ");
                    concat(head.as_str(), m.as_str())
                },
                None => BROWSE_HELP.to_owned(),
            },
        }
    }

    /// The preview's position text, when the preview is open.
    pub fn preview_position(&self) -> (r: Option<String>)
        requires
            self.mode matches Mode::Preview(_, s) ==> s < usize::MAX,
        ensures
            match self.mode {
                Mode::Preview(lines, scroll) => r matches Some(t) && t@ == position_spec(
                    scroll as nat,
                    lines@.len(),
                ),
                _ => r is None,
            },
    {
        match &self.mode {
            Mode::Preview(lines, scroll) => {
                let first = *scroll + 1;
                let total = if lines.len() == 0 {
                    1
                } else {
                    lines.len()
                };
                let a = concat(" Line ", usize_text(first).as_str());
                let b = concat(a.as_str(), "/");
                let c = concat(b.as_str(), usize_text(total).as_str());
                let r = concat(c.as_str(), " ");
                Some(r)
            },
            _ => None,
        }
    }
}

/// The marks in front of an article row: unread, then favorite.
pub fn article_marks(a: &Article) -> (r: (&'static str, &'static str))
    ensures
        r.0@ == (if a.is_read { "  "@ } else { "* "@ }),
        r.1@ == (if a.is_favorite { "\u{2665} "@ } else { "  "@ }),
{
    (if a.is_read { "  " } else { "* " }, if a.is_favorite { "\u{2665} " } else { "  " })
}

} // verus!
