//! The terminal client's state machine.
//!
//! The client never touches the store, the network or the terminal itself:
//! each transition returns an `Action` for the caller to perform, and the
//! caller hands the outcome back through the matching method
//! (`articles_loaded`, `feeds_loaded`, `read_toggled`, ...).

use vstd::prelude::*;
use crate::config::AppConfig;
use crate::keys::{
    Command, Direction, Key, KeyInput, Unit, browse_command, browse_command_of, preview_command,
    preview_command_of, search_command, search_command_of,
};
use crate::model::{Article, Feed};
use crate::nav::{
    clamp_index, clamp_to, down_by, half_page_size, half_rows, last_index, last_of, min_nat,
    move_down_by, move_up_by, page_rows, page_size, sat_sub, up_by,
};
use crate::refresh::{FetchMessage, MessageView};
use crate::text::{concat, decimal, pop_char, preview_lines, preview_lines_spec, preview_source,
    push_char, rendered_html, usize_text, PREVIEW_WIDTH};

verus! {

/// Which list receives moves.
#[derive(Clone, Copy, Debug, PartialEq, Eq, Structural)]
pub enum Focus {
    Feeds,
    Articles,
}

/// The overlay in front of the two lists, if any.
#[derive(Debug)]
pub enum Mode {
    Normal,
    /// Typing a search query.
    SearchInput(String),
    /// Reading an article: its lines and the first line shown.
    Preview(Vec<String>, usize),
}

pub enum ModeView {
    Normal,
    SearchInput(Seq<char>),
    Preview(Seq<Seq<char>>, nat),
}

impl View for Mode {
    type V = ModeView;

    open spec fn view(&self) -> ModeView {
        match self {
            Mode::Normal => ModeView::Normal,
            Mode::SearchInput(q) => ModeView::SearchInput(q@),
            Mode::Preview(lines, scroll) => ModeView::Preview(lines.deep_view(), *scroll as nat),
        }
    }
}

/// A read of the store's articles, newest first (published, else retrieved).
#[derive(Debug)]
pub struct ArticleQuery {
    pub unread_only: bool,
    pub limit: usize,
    /// Comma-separated keywords, any of which the title or content contains.
    pub filter: Option<String>,
    /// Only the articles of this feed.
    pub feed_id: Option<i64>,
}

pub struct QueryView {
    pub unread_only: bool,
    pub limit: nat,
    pub filter: Option<Seq<char>>,
    pub feed_id: Option<i64>,
}

impl View for ArticleQuery {
    type V = QueryView;

    open spec fn view(&self) -> QueryView {
        QueryView {
            unread_only: self.unread_only,
            limit: self.limit as nat,
            filter: self.filter.deep_view(),
            feed_id: self.feed_id,
        }
    }
}

/// Articles shown for one feed.
pub const FEED_PAGE: usize = 50;

/// Articles shown for a search.
pub const SEARCH_PAGE: usize = 100;

/// Frame rows around each list.
pub const LIST_BORDER: u16 = 2;

/// Frame and footer rows around the preview text.
pub const PREVIEW_BORDER: u16 = 4;

/// The article list of one feed.
pub open spec fn feed_query(feed_id: i64) -> QueryView {
    QueryView { unread_only: false, limit: FEED_PAGE as nat, filter: None, feed_id: Some(feed_id) }
}

/// The results of a search over all feeds.
pub open spec fn search_query(q: Seq<char>) -> QueryView {
    QueryView { unread_only: false, limit: SEARCH_PAGE as nat, filter: Some(q), feed_id: None }
}

fn make_feed_query(feed_id: i64) -> (r: ArticleQuery)
    ensures
        r@ == feed_query(feed_id),
{
    ArticleQuery { unread_only: false, limit: FEED_PAGE, filter: None, feed_id: Some(feed_id) }
}

fn make_search_query(q: String) -> (r: ArticleQuery)
    ensures
        r@ == search_query(q@),
{
    ArticleQuery { unread_only: false, limit: SEARCH_PAGE, filter: Some(q), feed_id: None }
}

/// What the caller must do after a transition.
#[derive(Debug)]
pub enum Action {
    Nothing,
    /// Clear and redraw the terminal.
    ClearScreen,
    /// Read articles; hand the result to `articles_loaded`.
    LoadArticles(ArticleQuery),
    /// Read search results; hand them to `search_loaded`.
    RunSearch(ArticleQuery),
    /// Read the feed list; hand it to `feeds_loaded`.
    LoadFeeds,
    /// Flip an article's read mark; hand the result to `read_toggled`.
    ToggleRead(i64),
    /// Set an article's favorite mark; hand the result to `favorite_set`.
    SetFavorite(i64, bool),
    /// Open a URL in the browser: the URL, the article, whether it was read
    /// already; hand the result to `url_opened`.
    OpenUrl(String, i64, bool),
    /// Mark an article read; hand the result to `marked_read`.
    MarkRead(i64),
    /// Start a background refresh of these feeds (see `RefreshTask`) and
    /// hand each message it sends to `on_fetch_message`.
    StartRefresh(Vec<Feed>),
}

pub enum ActionView {
    Nothing,
    ClearScreen,
    LoadArticles(QueryView),
    RunSearch(QueryView),
    LoadFeeds,
    ToggleRead(i64),
    SetFavorite(i64, bool),
    OpenUrl(Seq<char>, i64, bool),
    MarkRead(i64),
    StartRefresh(Seq<Feed>),
}

impl View for Action {
    type V = ActionView;

    open spec fn view(&self) -> ActionView {
        match self {
            Action::Nothing => ActionView::Nothing,
            Action::ClearScreen => ActionView::ClearScreen,
            Action::LoadArticles(q) => ActionView::LoadArticles(q@),
            Action::RunSearch(q) => ActionView::RunSearch(q@),
            Action::LoadFeeds => ActionView::LoadFeeds,
            Action::ToggleRead(id) => ActionView::ToggleRead(*id),
            Action::SetFavorite(id, f) => ActionView::SetFavorite(*id, *f),
            Action::OpenUrl(u, id, r) => ActionView::OpenUrl(u@, *id, *r),
            Action::MarkRead(id) => ActionView::MarkRead(*id),
            Action::StartRefresh(feeds) => ActionView::StartRefresh(feeds@),
        }
    }
}

/// The whole client state.
pub struct App {
    pub config: AppConfig,
    pub should_quit: bool,
    pub focus: Focus,
    /// Feeds, highest priority first.
    pub feeds: Vec<Feed>,
    pub selected_feed: usize,
    /// The selected feed's articles, or the results of the active search.
    pub articles: Vec<Article>,
    pub selected_article: usize,
    pub status_message: Option<String>,
    /// Rows of the feed pane, frame included (set by the renderer).
    pub feeds_list_height: u16,
    /// Rows of the article pane, frame included (set by the renderer).
    pub articles_list_height: u16,
    /// Rows of the preview's text area, frame and footer included.
    pub preview_height: u16,
    pub mode: Mode,
    /// The query whose results the article list shows, if it shows a search.
    pub active_search: Option<String>,
    pub is_fetching: bool,
    /// Display name of the feed being fetched.
    pub fetching_feed: Option<String>,
    /// Feeds done and feeds in the running refresh.
    pub fetch_progress: (usize, usize),
}

/// The client state with text as character sequences.
pub struct AppView {
    pub config: AppConfig,
    pub should_quit: bool,
    pub focus: Focus,
    pub feeds: Seq<Feed>,
    pub selected_feed: nat,
    pub articles: Seq<Article>,
    pub selected_article: nat,
    pub status: Option<Seq<char>>,
    pub feeds_height: nat,
    pub articles_height: nat,
    pub preview_height: nat,
    pub mode: ModeView,
    pub active_search: Option<Seq<char>>,
    pub fetching: bool,
    pub fetching_feed: Option<Seq<char>>,
    pub fetch_done: nat,
    pub fetch_total: nat,
}

impl View for App {
    type V = AppView;

    open spec fn view(&self) -> AppView {
        AppView {
            config: self.config,
            should_quit: self.should_quit,
            focus: self.focus,
            feeds: self.feeds@,
            selected_feed: self.selected_feed as nat,
            articles: self.articles@,
            selected_article: self.selected_article as nat,
            status: self.status_message.deep_view(),
            feeds_height: self.feeds_list_height as nat,
            articles_height: self.articles_list_height as nat,
            preview_height: self.preview_height as nat,
            mode: self.mode@,
            active_search: self.active_search.deep_view(),
            fetching: self.is_fetching,
            fetching_feed: self.fetching_feed.deep_view(),
            fetch_done: self.fetch_progress.0 as nat,
            fetch_total: self.fetch_progress.1 as nat,
        }
    }
}

/// Where a cursor at `i` in a list of `len` rows lands after a move, with a
/// pane of `height` rows and `border` rows of frame.
pub open spec fn moved_index(i: nat, len: nat, d: Direction, u: Unit, height: nat, border: nat) -> nat {
    let n = match u {
        Unit::Line => 1,
        Unit::Page => page_rows(height, border),
        Unit::HalfPage => half_rows(height, border),
        Unit::Edge => len,
    };
    match (d, u) {
        (Direction::Up, Unit::Edge) => 0,
        (Direction::Down, Unit::Edge) => last_index(len),
        (Direction::Up, _) => up_by(i, n),
        (Direction::Down, _) => down_by(i, n, len),
    }
}

/// The first line a preview of `len` lines can scroll to at most, with
/// `height` rows for it.
pub open spec fn max_scroll(len: nat, height: nat) -> nat {
    sat_sub(len as int, page_rows(height, PREVIEW_BORDER as nat) as int)
}

/// Where the preview's first line goes after a move.
pub open spec fn scrolled(s: nat, len: nat, d: Direction, u: Unit, height: nat) -> nat {
    let n = match u {
        Unit::Line => 1,
        Unit::Page => page_rows(height, PREVIEW_BORDER as nat),
        Unit::HalfPage => half_rows(height, PREVIEW_BORDER as nat),
        Unit::Edge => 0,
    };
    match (d, u) {
        (Direction::Up, Unit::Edge) => 0,
        (Direction::Down, Unit::Edge) => max_scroll(len, height),
        (Direction::Up, _) => up_by(s, n),
        (Direction::Down, _) => min_nat(s + n, max_scroll(len, height)),
    }
}

pub open spec fn error_text(e: Seq<char>) -> Seq<char> {
    "Error: "@ + e
}

impl AppView {
    /// Selections point into their lists (or are 0 for an empty list).
    pub open spec fn wf(self) -> bool {
        &&& self.selected_feed <= last_index(self.feeds.len())
        &&& self.selected_article <= last_index(self.articles.len())
    }

    pub open spec fn with_status(self, s: Seq<char>) -> AppView {
        AppView { status: Some(s), ..self }
    }

    /// Reading the selected feed's articles, if a feed is selected.
    pub open spec fn feed_reload(self) -> ActionView {
        if self.selected_feed < self.feeds.len() {
            ActionView::LoadArticles(feed_query(self.feeds[self.selected_feed as int].id))
        } else {
            ActionView::Nothing
        }
    }

    /// Reading again what the article list shows: the active search, or
    /// the selected feed's articles.
    pub open spec fn view_reload(self) -> ActionView {
        match self.active_search {
            Some(q) => ActionView::LoadArticles(search_query(q)),
            None => self.feed_reload(),
        }
    }

    /// Leaves the search: the feed's articles are read again.
    pub open spec fn cleared(self) -> (AppView, ActionView) {
        (AppView { active_search: None, ..self }.with_status("Search cleared"@), self.feed_reload())
    }

    pub open spec fn moved(self, d: Direction, u: Unit) -> (AppView, ActionView) {
        match self.focus {
            Focus::Feeds => {
                let n = moved_index(self.selected_feed, self.feeds.len(), d, u, self.feeds_height, LIST_BORDER as nat);
                let v = AppView { selected_feed: n, ..self };
                if n != self.selected_feed {
                    (v, v.feed_reload())
                } else {
                    (v, ActionView::Nothing)
                }
            },
            Focus::Articles => {
                let n = moved_index(self.selected_article, self.articles.len(), d, u, self.articles_height, LIST_BORDER as nat);
                (AppView { selected_article: n, ..self }, ActionView::Nothing)
            },
        }
    }

    /// An article is selected in the article pane.
    pub open spec fn on_article(self) -> bool {
        self.focus == Focus::Articles && self.selected_article < self.articles.len()
    }

    pub open spec fn opened(self) -> (AppView, ActionView) {
        if self.selected_article < self.articles.len() {
            let a = self.articles[self.selected_article as int];
            match a.url {
                Some(u) => (self, ActionView::OpenUrl(u@, a.id, a.is_read)),
                None => (self.with_status("Article has no URL"@), ActionView::Nothing),
            }
        } else {
            (self, ActionView::Nothing)
        }
    }

    pub open spec fn refresh_started(self) -> (AppView, ActionView) {
        if self.fetching {
            (self.with_status("Already fetching..."@), ActionView::Nothing)
        } else if self.feeds.len() == 0 {
            (self.with_status("No feeds to fetch"@), ActionView::Nothing)
        } else {
            (
                AppView { fetching: true, fetch_done: 0, fetch_total: self.feeds.len(), ..self }.with_status(
                    "Starting fetch..."@,
                ),
                ActionView::StartRefresh(self.feeds),
            )
        }
    }

    /// Focus on the feed pane; an active search is left, and the feed's
    /// articles are read again.
    pub open spec fn focus_feeds(self) -> (AppView, ActionView) {
        let v = AppView { focus: Focus::Feeds, ..self };
        if self.active_search is Some {
            (v.cleared().0.with_status("Feeds"@), v.cleared().1)
        } else {
            (v.with_status("Feeds"@), ActionView::Nothing)
        }
    }

    /// Focus on the article pane (when there are feeds); the feed's articles
    /// are read again unless a search is shown, whose results stay.
    pub open spec fn focus_articles(self) -> (AppView, ActionView) {
        if self.focus == Focus::Feeds && self.feeds.len() > 0 {
            let v = AppView { focus: Focus::Articles, ..self }.with_status("Articles"@);
            // An active search's results are not feed-scoped: they stay.
            if self.active_search is Some {
                (v, ActionView::Nothing)
            } else {
                (v, self.feed_reload())
            }
        } else {
            (self, ActionView::Nothing)
        }
    }

    /// The article browser's response to a command.
    pub open spec fn browse(self, c: Command) -> (AppView, ActionView) {
        match c {
            Command::Quit => (AppView { should_quit: true, ..self }, ActionView::Nothing),
            Command::Move(d, u) => self.moved(d, u),
            Command::FocusFeeds => self.focus_feeds(),
            Command::FocusArticles => self.focus_articles(),
            Command::SwitchFocus => {
                if self.focus == Focus::Feeds {
                    self.focus_articles()
                } else {
                    self.focus_feeds()
                }
            },
            Command::ToggleRead => {
                if self.on_article() {
                    (self, ActionView::ToggleRead(self.articles[self.selected_article as int].id))
                } else {
                    (self, ActionView::Nothing)
                }
            },
            Command::ToggleFavorite => {
                if self.on_article() {
                    let a = self.articles[self.selected_article as int];
                    (self, ActionView::SetFavorite(a.id, !a.is_favorite))
                } else {
                    (self, ActionView::Nothing)
                }
            },
            Command::Refresh => self.refresh_started(),
            Command::OpenInBrowser => {
                if self.on_article() {
                    self.opened()
                } else {
                    (self, ActionView::Nothing)
                }
            },
            Command::OpenPreview => {
                if self.on_article() {
                    let a = self.articles[self.selected_article as int];
                    let src = preview_source(a.content.deep_view());
                    (
                        AppView {
                            mode: ModeView::Preview(
                                preview_lines_spec(src, rendered_html(src, PREVIEW_WIDTH as nat)),
                                0,
                            ),
                            ..self
                        },
                        ActionView::Nothing,
                    )
                } else {
                    (self, ActionView::Nothing)
                }
            },
            Command::StartSearch => (
                AppView { mode: ModeView::SearchInput(Seq::empty()), focus: Focus::Articles, ..self },
                ActionView::Nothing,
            ),
            Command::ClearSearch => {
                if self.active_search is Some {
                    self.cleared()
                } else {
                    (self, ActionView::Nothing)
                }
            },
            _ => (self, ActionView::Nothing),
        }
    }

    /// The search prompt's response to a command, with `q` typed so far.
    pub open spec fn searching(self, q: Seq<char>, c: Command) -> (AppView, ActionView) {
        match c {
            Command::ConfirmSearch => {
                let v = AppView { mode: ModeView::Normal, ..self };
                if q.len() > 0 {
                    (v, ActionView::RunSearch(search_query(q)))
                } else {
                    (v, ActionView::Nothing)
                }
            },
            Command::CancelSearch => (AppView { mode: ModeView::Normal, ..self }, ActionView::Nothing),
            Command::Type(ch) => (
                AppView { mode: ModeView::SearchInput(q.push(ch)), ..self },
                ActionView::Nothing,
            ),
            Command::Erase => (
                AppView {
                    mode: ModeView::SearchInput(if q.len() > 0 { q.drop_last() } else { q }),
                    ..self
                },
                ActionView::Nothing,
            ),
            _ => (self, ActionView::Nothing),
        }
    }

    /// The preview's response to a command, showing `lines` from `s` on.
    pub open spec fn previewing(self, lines: Seq<Seq<char>>, s: nat, c: Command) -> (AppView, ActionView) {
        match c {
            Command::ClosePreview => (AppView { mode: ModeView::Normal, ..self }, ActionView::Nothing),
            Command::Move(d, u) => (
                AppView {
                    mode: ModeView::Preview(lines, scrolled(s, lines.len(), d, u, self.preview_height)),
                    ..self
                },
                ActionView::Nothing,
            ),
            Command::OpenInBrowser => self.opened(),
            _ => (self, ActionView::Nothing),
        }
    }

    /// The response to a key event: repeats and releases are ignored,
    /// Control-L redraws the screen, and any other key goes to the table of
    /// the active mode.
    pub open spec fn on_key(self, k: KeyInput) -> (AppView, ActionView) {
        if !k.press {
            (self, ActionView::Nothing)
        } else if k.ctrl && k.key == Key::Char('l') {
            (self.with_status("Screen refreshed"@), ActionView::ClearScreen)
        } else {
            match self.mode {
                ModeView::SearchInput(q) => self.searching(q, search_command(k.key)),
                ModeView::Preview(lines, s) => self.previewing(lines, s, preview_command(k.key, k.ctrl)),
                ModeView::Normal => self.browse(browse_command(k.key, k.ctrl)),
            }
        }
    }

    /// The list now shows `list`, the answer to `q`.
    pub open spec fn articles_loaded(self, q: QueryView, result: Result<Seq<Article>, Seq<char>>) -> AppView {
        match result {
            Ok(list) => AppView {
                articles: list,
                selected_article: clamp_index(self.selected_article, list.len()),
                active_search: q.filter,
                ..self
            },
            Err(e) => self.with_status(error_text(e)),
        }
    }

    pub open spec fn search_status(q: Seq<char>, n: nat) -> Seq<char> {
        "Search: '"@ + q + "' ("@ + decimal(n) + " results)"@
    }

    pub open spec fn search_loaded(self, q: QueryView, result: Result<Seq<Article>, Seq<char>>) -> AppView {
        match result {
            Ok(list) => AppView {
                articles: list,
                selected_article: 0,
                active_search: q.filter,
                ..self
            }.with_status(
                Self::search_status(
                    match q.filter {
                        Some(f) => f,
                        None => Seq::empty(),
                    },
                    list.len(),
                ),
            ),
            Err(e) => self.with_status(error_text(e)),
        }
    }

    pub open spec fn feeds_loaded(self, result: Result<Seq<Feed>, Seq<char>>) -> (AppView, ActionView) {
        match result {
            Ok(list) => {
                let v = AppView {
                    feeds: list,
                    selected_feed: clamp_index(self.selected_feed, list.len()),
                    ..self
                };
                (v, v.view_reload())
            },
            Err(e) => (self.with_status(error_text(e)), ActionView::Nothing),
        }
    }

    /// After a change to an article in the store: a status, and the list
    /// read again.
    pub open spec fn changed(self, result: Result<bool, Seq<char>>, done: Seq<char>) -> (AppView, ActionView) {
        match result {
            Ok(true) => (self.with_status(done), self.view_reload()),
            Ok(false) => (self.with_status("Article not found"@), self.view_reload()),
            Err(e) => (self.with_status(error_text(e)), ActionView::Nothing),
        }
    }

    pub open spec fn url_opened(self, id: i64, was_read: bool, result: Result<(), Seq<char>>) -> (AppView, ActionView) {
        match result {
            Ok(_) => (
                self.with_status("Opened in browser"@),
                if was_read { ActionView::Nothing } else { ActionView::MarkRead(id) },
            ),
            Err(e) => (self.with_status("Failed to open: "@ + e), ActionView::Nothing),
        }
    }

    pub open spec fn marked_read(self, result: Result<bool, Seq<char>>) -> (AppView, ActionView) {
        match result {
            Ok(true) => (self, self.view_reload()),
            Ok(false) => (self.with_status("Article not found"@), self.view_reload()),
            Err(e) => (self.with_status(error_text(e)), ActionView::Nothing),
        }
    }

    /// The client's response to one message of the background refresh.
    pub open spec fn on_message(self, m: MessageView) -> (AppView, ActionView) {
        match m {
            MessageView::Started(name) => (
                AppView { fetching_feed: Some(name), ..self }.with_status("Fetching "@ + name + "..."@),
                ActionView::Nothing,
            ),
            MessageView::FeedDone(name, n, err) => {
                let done = crate::refresh::sat_add(self.fetch_done, 1);
                let v = AppView { fetch_done: done, ..self };
                match err {
                    Some(e) => (v.with_status(name + ": Error - "@ + e), ActionView::Nothing),
                    None => (
                        v.with_status(
                            name + ": "@ + decimal(n) + " new ("@ + decimal(done) + "/"@ + decimal(self.fetch_total) + ")"@,
                        ),
                        ActionView::Nothing,
                    ),
                }
            },
            MessageView::AllDone(total) => (
                AppView { fetching: false, fetching_feed: None, ..self }.with_status(
                    "Fetch complete! "@ + decimal(total) + " new articles"@,
                ),
                ActionView::LoadFeeds,
            ),
        }
    }
}

pub open spec fn list_result<T>(r: Result<Vec<T>, String>) -> Result<Seq<T>, Seq<char>> {
    match r {
        Ok(v) => Ok(v@),
        Err(e) => Err(e@),
    }
}

pub open spec fn flag_result(r: Result<bool, String>) -> Result<bool, Seq<char>> {
    match r {
        Ok(b) => Ok(b),
        Err(e) => Err(e@),
    }
}

pub open spec fn unit_result(r: Result<(), String>) -> Result<(), Seq<char>> {
    match r {
        Ok(u) => Ok(u),
        Err(e) => Err(e@),
    }
}

fn join3(a: &str, b: &str, c: &str) -> (r: String)
    ensures
        r@ == a@ + b@ + c@,
{
    let ab = concat(a, b);
    concat(ab.as_str(), c)
}

fn text(s: &str) -> (r: String)
    ensures
        r@ == s@,
{
    s.to_owned()
}

impl App {
    /// A client over `feeds`, with the feed pane focused, the first feed
    /// selected and no articles yet (`reload_action` reads them).
    pub fn new(config: AppConfig, feeds: Vec<Feed>) -> (r: Self)
        ensures
            r@ == (AppView {
                config,
                should_quit: false,
                focus: Focus::Feeds,
                feeds: feeds@,
                selected_feed: 0,
                articles: Seq::empty(),
                selected_article: 0,
                status: None,
                feeds_height: 10,
                articles_height: 10,
                preview_height: 10,
                mode: ModeView::Normal,
                active_search: None,
                fetching: false,
                fetching_feed: None,
                fetch_done: 0,
                fetch_total: 0,
            }),
            r@.wf(),
    {
        App {
            config,
            should_quit: false,
            focus: Focus::Feeds,
            feeds,
            selected_feed: 0,
            articles: Vec::new(),
            selected_article: 0,
            status_message: None,
            feeds_list_height: 10,
            articles_list_height: 10,
            preview_height: 10,
            mode: Mode::Normal,
            active_search: None,
            is_fetching: false,
            fetching_feed: None,
            fetch_progress: (0, 0),
        }
    }

    fn set_status(&mut self, s: &str)
        ensures
            final(self)@ == old(self)@.with_status(s@),
    {
        self.status_message = Some(text(s));
    }

    /// The read of the selected feed's articles, if a feed is selected.
    pub fn feed_reload(&self) -> (r: Action)
        ensures
            r@ == self@.feed_reload(),
    {
        if self.selected_feed < self.feeds.len() {
            Action::LoadArticles(make_feed_query(self.feeds[self.selected_feed].id))
        } else {
            Action::Nothing
        }
    }

    /// The read that refreshes what the article list shows.
    pub fn reload_action(&self) -> (r: Action)
        ensures
            r@ == self@.view_reload(),
    {
        match &self.active_search {
            Some(q) => Action::LoadArticles(make_search_query(q.clone())),
            None => self.feed_reload(),
        }
    }

    fn move_cursor(&mut self, d: Direction, u: Unit) -> (r: Action)
        ensures
            (final(self)@, r@) == old(self)@.moved(d, u),
    {
        match self.focus {
            Focus::Feeds => {
                let old_index = self.selected_feed;
                let n = self.moved_index(old_index, self.feeds.len(), d, u, self.feeds_list_height);
                self.selected_feed = n;
                if n != old_index {
                    self.feed_reload()
                } else {
                    Action::Nothing
                }
            },
            Focus::Articles => {
                let n = self.moved_index(
                    self.selected_article,
                    self.articles.len(),
                    d,
                    u,
                    self.articles_list_height,
                );
                self.selected_article = n;
                Action::Nothing
            },
        }
    }

    fn moved_index(&self, i: usize, len: usize, d: Direction, u: Unit, height: u16) -> (r: usize)
        ensures
            r == moved_index(i as nat, len as nat, d, u, height as nat, LIST_BORDER as nat),
    {
        match (d, u) {
            (Direction::Up, Unit::Edge) => 0,
            (Direction::Down, Unit::Edge) => last_of(len),
            (Direction::Up, Unit::Line) => move_up_by(i, 1),
            (Direction::Down, Unit::Line) => move_down_by(i, 1, len),
            (Direction::Up, Unit::Page) => move_up_by(i, page_size(height, LIST_BORDER)),
            (Direction::Down, Unit::Page) => move_down_by(i, page_size(height, LIST_BORDER), len),
            (Direction::Up, Unit::HalfPage) => move_up_by(i, half_page_size(height, LIST_BORDER)),
            (Direction::Down, Unit::HalfPage) => move_down_by(
                i,
                half_page_size(height, LIST_BORDER),
                len,
            ),
        }
    }

    fn clear_search(&mut self) -> (r: Action)
        ensures
            (final(self)@, r@) == old(self)@.cleared(),
    {
        self.active_search = None;
        self.set_status("Search cleared");
        self.feed_reload()
    }

    fn open_selected(&mut self) -> (r: Action)
        ensures
            (final(self)@, r@) == old(self)@.opened(),
    {
        if self.selected_article < self.articles.len() {
            let a = &self.articles[self.selected_article];
            match &a.url {
                Some(u) => Action::OpenUrl(u.clone(), a.id, a.is_read),
                None => {
                    self.set_status("Article has no URL");
                    Action::Nothing
                },
            }
        } else {
            Action::Nothing
        }
    }

    fn start_fetch(&mut self) -> (r: Action)
        ensures
            (final(self)@, r@) == old(self)@.refresh_started(),
    {
        if self.is_fetching {
            self.set_status("Already fetching...");
            return Action::Nothing;
        }
        if self.feeds.len() == 0 {
            self.set_status("No feeds to fetch");
            return Action::Nothing;
        }
        let snapshot = self.feeds.clone();
        proof {
            assert(snapshot@ =~= self.feeds@);
        }
        self.is_fetching = true;
        self.fetch_progress = (0, self.feeds.len());
        self.set_status("Starting fetch...");
        Action::StartRefresh(snapshot)
    }

    fn on_article(&self) -> (r: bool)
        ensures
            r == self@.on_article(),
    {
        self.focus == Focus::Articles && self.selected_article < self.articles.len()
    }

    fn focus_feeds(&mut self) -> (r: Action)
        ensures
            (final(self)@, r@) == old(self)@.focus_feeds(),
    {
        self.focus = Focus::Feeds;
        let r = if self.active_search.is_some() {
            self.clear_search()
        } else {
            Action::Nothing
        };
        self.set_status("Feeds");
        r
    }

    fn focus_articles(&mut self) -> (r: Action)
        ensures
            (final(self)@, r@) == old(self)@.focus_articles(),
    {
        if self.focus == Focus::Feeds && self.feeds.len() > 0 {
            self.focus = Focus::Articles;
            self.set_status("Articles");
            if self.active_search.is_some() {
                Action::Nothing
            } else {
                self.feed_reload()
            }
        } else {
            Action::Nothing
        }
    }

    fn browse(&mut self, c: Command) -> (r: Action)
        ensures
            (final(self)@, r@) == old(self)@.browse(c),
    {
        match c {
            Command::Quit => {
                self.should_quit = true;
                Action::Nothing
            },
            Command::Move(d, u) => self.move_cursor(d, u),
            Command::FocusFeeds => self.focus_feeds(),
            Command::FocusArticles => self.focus_articles(),
            Command::SwitchFocus => {
                if self.focus == Focus::Feeds {
                    self.focus_articles()
                } else {
                    self.focus_feeds()
                }
            },
            Command::ToggleRead => {
                if self.on_article() {
                    Action::ToggleRead(self.articles[self.selected_article].id)
                } else {
                    Action::Nothing
                }
            },
            Command::ToggleFavorite => {
                if self.on_article() {
                    let a = &self.articles[self.selected_article];
                    Action::SetFavorite(a.id, !a.is_favorite)
                } else {
                    Action::Nothing
                }
            },
            Command::Refresh => self.start_fetch(),
            Command::OpenInBrowser => {
                if self.on_article() {
                    self.open_selected()
                } else {
                    Action::Nothing
                }
            },
            Command::OpenPreview => {
                if self.on_article() {
                    let lines = match &self.articles[self.selected_article].content {
                        Some(c) => preview_lines(Some(c.as_str())),
                        None => preview_lines(None),
                    };
                    self.mode = Mode::Preview(lines, 0);
                }
                Action::Nothing
            },
            Command::StartSearch => {
                self.mode = Mode::SearchInput(String::new());
                self.focus = Focus::Articles;
                Action::Nothing
            },
            Command::ClearSearch => {
                if self.active_search.is_some() {
                    self.clear_search()
                } else {
                    Action::Nothing
                }
            },
            _ => Action::Nothing,
        }
    }

    fn search_key(&mut self, c: Command) -> (r: Action)
        requires
            old(self).mode is SearchInput,
        ensures
            (final(self)@, r@) == old(self)@.searching(
                match old(self)@.mode {
                    ModeView::SearchInput(q) => q,
                    _ => Seq::empty(),
                },
                c,
            ),
    {
        let mut query = match &self.mode {
            Mode::SearchInput(q) => q.clone(),
            _ => String::new(),
        };
        match c {
            Command::ConfirmSearch => {
                self.mode = Mode::Normal;
                if query.as_str().unicode_len() > 0 {
                    Action::RunSearch(make_search_query(query))
                } else {
                    Action::Nothing
                }
            },
            Command::CancelSearch => {
                self.mode = Mode::Normal;
                Action::Nothing
            },
            Command::Type(ch) => {
                push_char(&mut query, ch);
                self.mode = Mode::SearchInput(query);
                Action::Nothing
            },
            Command::Erase => {
                pop_char(&mut query);
                self.mode = Mode::SearchInput(query);
                Action::Nothing
            },
            _ => Action::Nothing,
        }
    }

    fn scrolled(&self, s: usize, len: usize, d: Direction, u: Unit) -> (r: usize)
        ensures
            r == scrolled(s as nat, len as nat, d, u, self.preview_height as nat),
    {
        let visible = page_size(self.preview_height, PREVIEW_BORDER);
        let max = if len >= visible {
            len - visible
        } else {
            0
        };
        let n = match u {
            Unit::Line => 1,
            Unit::Page => visible,
            Unit::HalfPage => half_page_size(self.preview_height, PREVIEW_BORDER),
            Unit::Edge => 0,
        };
        match (d, u) {
            (Direction::Up, Unit::Edge) => 0,
            (Direction::Down, Unit::Edge) => max,
            (Direction::Up, _) => move_up_by(s, n),
            (Direction::Down, _) => {
                if s >= max || n >= max - s {
                    max
                } else {
                    s + n
                }
            },
        }
    }

    fn preview_key(&mut self, c: Command) -> (r: Action)
        requires
            old(self).mode is Preview,
        ensures
            ({
                let (lines, s) = match old(self)@.mode {
                    ModeView::Preview(lines, s) => (lines, s),
                    _ => (Seq::empty(), 0),
                };
                (final(self)@, r@) == old(self)@.previewing(lines, s, c)
            }),
    {
        match c {
            Command::ClosePreview => {
                self.mode = Mode::Normal;
                Action::Nothing
            },
            Command::Move(d, u) => {
                let (s, len) = match &self.mode {
                    Mode::Preview(lines, s) => (*s, lines.len()),
                    _ => (0, 0),
                };
                let n = self.scrolled(s, len, d, u);
                match &mut self.mode {
                    Mode::Preview(_, s) => {
                        *s = n;
                    },
                    _ => {},
                }
                Action::Nothing
            },
            Command::OpenInBrowser => self.open_selected(),
            _ => Action::Nothing,
        }
    }

    /// Handles one key event; see `AppView::on_key`.
    pub fn on_key(&mut self, k: KeyInput) -> (r: Action)
        ensures
            (final(self)@, r@) == old(self)@.on_key(k),
    {
        if !k.press {
            return Action::Nothing;
        }
        if k.ctrl && k.key == Key::Char('l') {
            self.set_status("Screen refreshed");
            return Action::ClearScreen;
        }
        match &self.mode {
            Mode::SearchInput(_) => self.search_key(search_command_of(k.key)),
            Mode::Preview(_, _) => self.preview_key(preview_command_of(k.key, k.ctrl)),
            Mode::Normal => self.browse(browse_command_of(k.key, k.ctrl)),
        }
    }

    /// Shows the answer to `query`: the list, with the selection kept where
    /// it was as far as the new list allows. On failure the list stays and
    /// the status tells the error.
    pub fn articles_loaded(&mut self, query: &ArticleQuery, result: Result<Vec<Article>, String>)
        ensures
            final(self)@ == old(self)@.articles_loaded(query@, list_result(result)),
            old(self)@.wf() ==> final(self)@.wf(),
    {
        match result {
            Ok(list) => {
                self.selected_article = clamp_to(self.selected_article, list.len());
                self.articles = list;
                self.active_search = query.filter.clone();
            },
            Err(e) => {
                let msg = concat("Error: ", e.as_str());
                self.status_message = Some(msg);
            },
        }
    }

    /// Shows the results of a search, the first one selected.
    pub fn search_loaded(&mut self, query: &ArticleQuery, result: Result<Vec<Article>, String>)
        ensures
            final(self)@ == old(self)@.search_loaded(query@, list_result(result)),
            old(self)@.wf() ==> final(self)@.wf(),
    {
        match result {
            Ok(list) => {
                let n = usize_text(list.len());
                let q: &str = match &query.filter {
                    Some(f) => f.as_str(),
                    None => "",
                };
                let head = join3("Search: '", q, "' (");
                let msg = join3(head.as_str(), n.as_str(), " results)");
                proof {
                    reveal_strlit("");
                    let qs = match query@.filter {
                        Some(f) => f,
                        None => Seq::empty(),
                    };
                    assert(q@ =~= qs);
                    assert(msg@ =~= AppView::search_status(qs, list@.len()));
                }
                self.articles = list;
                self.selected_article = 0;
                self.active_search = query.filter.clone();
                self.status_message = Some(msg);
            },
            Err(e) => {
                let msg = concat("Error: ", e.as_str());
                self.status_message = Some(msg);
            },
        }
    }

    /// Shows a new feed list, keeping the selection as far as it allows,
    /// and asks for the article list to be read again.
    pub fn feeds_loaded(&mut self, result: Result<Vec<Feed>, String>) -> (r: Action)
        ensures
            (final(self)@, r@) == old(self)@.feeds_loaded(list_result(result)),
            old(self)@.wf() ==> final(self)@.wf(),
    {
        match result {
            Ok(list) => {
                self.selected_feed = clamp_to(self.selected_feed, list.len());
                self.feeds = list;
                self.reload_action()
            },
            Err(e) => {
                let msg = concat("Error: ", e.as_str());
                self.status_message = Some(msg);
                Action::Nothing
            },
        }
    }

    fn changed(&mut self, result: Result<bool, String>, done: &str) -> (r: Action)
        ensures
            (final(self)@, r@) == old(self)@.changed(flag_result(result), done@),
    {
        match result {
            Ok(true) => {
                self.set_status(done);
                self.reload_action()
            },
            Ok(false) => {
                self.set_status("Article not found");
                self.reload_action()
            },
            Err(e) => {
                let msg = concat("Error: ", e.as_str());
                self.status_message = Some(msg);
                Action::Nothing
            },
        }
    }

    /// After the store flipped a read mark (`Ok(false)`: no such article).
    pub fn read_toggled(&mut self, result: Result<bool, String>) -> (r: Action)
        ensures
            (final(self)@, r@) == old(self)@.changed(flag_result(result), "Toggled read status"@),
    {
        self.changed(result, "Toggled read status")
    }

    /// After the store set a favorite mark to `favorite`.
    pub fn favorite_set(&mut self, favorite: bool, result: Result<bool, String>) -> (r: Action)
        ensures
            (final(self)@, r@) == old(self)@.changed(
                flag_result(result),
                if favorite { "Added to favorites"@ } else { "Removed from favorites"@ },
            ),
    {
        if favorite {
            self.changed(result, "Added to favorites")
        } else {
            self.changed(result, "Removed from favorites")
        }
    }

    /// After the browser was asked to open article `id`'s URL: an unread
    /// article is then marked read.
    pub fn url_opened(&mut self, id: i64, was_read: bool, result: Result<(), String>) -> (r: Action)
        ensures
            (final(self)@, r@) == old(self)@.url_opened(id, was_read, unit_result(result)),
    {
        match result {
            Ok(_) => {
                self.set_status("Opened in browser");
                if was_read {
                    Action::Nothing
                } else {
                    Action::MarkRead(id)
                }
            },
            Err(e) => {
                let msg = concat("Failed to open: ", e.as_str());
                self.status_message = Some(msg);
                Action::Nothing
            },
        }
    }

    /// After the store marked an article read.
    pub fn marked_read(&mut self, result: Result<bool, String>) -> (r: Action)
        ensures
            (final(self)@, r@) == old(self)@.marked_read(flag_result(result)),
    {
        match result {
            Ok(true) => self.reload_action(),
            Ok(false) => {
                self.set_status("Article not found");
                self.reload_action()
            },
            Err(e) => {
                let msg = concat("Error: ", e.as_str());
                self.status_message = Some(msg);
                Action::Nothing
            },
        }
    }

    /// Folds one message of the background refresh into the state.
    pub fn on_fetch_message(&mut self, msg: FetchMessage) -> (r: Action)
        ensures
            (final(self)@, r@) == old(self)@.on_message(msg@),
    {
        match msg {
            FetchMessage::Started(name) => {
                let status = join3("Fetching ", name.as_str(), "...");
                self.fetching_feed = Some(name);
                self.status_message = Some(status);
                Action::Nothing
            },
            FetchMessage::FeedDone(name, n, err) => {
                let done = self.fetch_progress.0.saturating_add(1);
                self.fetch_progress.0 = done;
                let status = match err {
                    Some(e) => join3(name.as_str(), ": Error - ", e.as_str()),
                    None => {
                        let a = join3(name.as_str(), ": ", usize_text(n).as_str());
                        let b = join3(a.as_str(), " new (", usize_text(done).as_str());
                        let total = usize_text(self.fetch_progress.1);
                        join3(b.as_str(), "/", total.as_str()).concat(")")
                    },
                };
                self.status_message = Some(status);
                Action::Nothing
            },
            FetchMessage::AllDone(total) => {
                let status = join3("Fetch complete! ", usize_text(total).as_str(), " new articles");
                self.is_fetching = false;
                self.fetching_feed = None;
                self.status_message = Some(status);
                Action::LoadFeeds
            },
        }
    }
}

/// The state after the client has taken in `msgs` one by one, and the
/// action the last one asked for.
pub open spec fn drain(v: AppView, msgs: Seq<MessageView>) -> (AppView, ActionView)
    decreases msgs.len(),
{
    if msgs.len() == 0 {
        (v, ActionView::Nothing)
    } else {
        drain(v, msgs.drop_last()).0.on_message(msgs.last())
    }
}

/// In the article pane, a page down from a valid index `i` lands on the
/// smaller of `i + P` and the last index, and a page up on the larger of
/// `i - P` and 0, where `P` is the pane's page size.
pub proof fn lemma_article_page_moves(v: AppView)
    requires
        v.focus == Focus::Articles,
        v.selected_article < v.articles.len(),
    ensures
        ({
            let i = v.selected_article;
            let p = page_rows(v.articles_height, LIST_BORDER as nat);
            let n = v.articles.len();
            &&& v.moved(Direction::Down, Unit::Page).0.selected_article == if i + p <= n - 1 {
                i + p
            } else {
                (n - 1) as nat
            }
            &&& v.moved(Direction::Up, Unit::Page).0.selected_article == if i >= p {
                (i - p) as nat
            } else {
                0
            }
        }),
{
}

/// Selecting feed `a`, then `b`, then `a` again asks the store the same
/// question for `a` both times; with the store unchanged (it answers `la`
/// both times) the article list is the same as the first time.
pub proof fn lemma_reselect_same_snapshot(
    v: AppView,
    a: nat,
    b: nat,
    la: Seq<Article>,
    lb: Seq<Article>,
)
    requires
        a < v.feeds.len(),
        b < v.feeds.len(),
    ensures
        ({
            let qa = feed_query(v.feeds[a as int].id);
            let qb = feed_query(v.feeds[b as int].id);
            let s1 = AppView { selected_feed: a, ..v };
            let t1 = s1.articles_loaded(qa, Ok(la));
            let s2 = AppView { selected_feed: b, ..t1 };
            let t2 = s2.articles_loaded(qb, Ok(lb));
            let s3 = AppView { selected_feed: a, ..t2 };
            let t3 = s3.articles_loaded(qa, Ok(la));
            &&& s1.feed_reload() == ActionView::LoadArticles(qa)
            &&& s2.feed_reload() == ActionView::LoadArticles(qb)
            &&& s3.feed_reload() == ActionView::LoadArticles(qa)
            &&& t3.articles == t1.articles
            &&& t3.active_search == t1.active_search
        }),
{
}

/// Confirming a typed query asks for at most 100 matches over all feeds;
/// the results replace the list with the first selected; clearing the
/// search then asks for the selected feed's list again, and the store's
/// unchanged answer restores the list exactly. Typing appends to the query.
pub proof fn lemma_search_then_clear(v: AppView, q: Seq<char>, results: Seq<Article>, c: char)
    requires
        v.mode == ModeView::SearchInput(q),
        q.len() > 0,
        v.active_search is None,
        v.selected_feed < v.feeds.len(),
    ensures
        ({
            let enter = KeyInput { key: Key::Enter, ctrl: false, press: true };
            let esc = KeyInput { key: Key::Esc, ctrl: false, press: true };
            let (v1, a1) = v.on_key(enter);
            let v2 = v1.search_loaded(search_query(q), Ok(results));
            let (v3, a3) = v2.on_key(esc);
            let v4 = v3.articles_loaded(feed_query(v.feeds[v.selected_feed as int].id), Ok(v.articles));
            &&& v.on_key(KeyInput { key: Key::Char(c), ctrl: false, press: true }).0.mode
                == ModeView::SearchInput(q.push(c))
            &&& a1 == ActionView::RunSearch(search_query(q))
            &&& search_query(q).limit == 100 && search_query(q).feed_id is None
            &&& v1.mode == ModeView::Normal
            &&& v2.articles == results && v2.selected_article == 0 && v2.active_search == Some(q)
            &&& a3 == v.feed_reload()
            &&& a3 == ActionView::LoadArticles(feed_query(v.feeds[v.selected_feed as int].id))
            &&& v3.active_search is None
            &&& v4.articles == v.articles
            &&& v4.active_search is None
        }),
{
}

/// Flipping the read mark of the selected article asks the store to flip
/// it, then to read the list again; whatever list comes back (the article
/// may have left it), the selection is kept as far as the new list allows:
/// the last item of a shorter list, 0 for an empty one.
pub proof fn lemma_toggle_read_keeps_selection(v: AppView, list: Seq<Article>)
    requires
        v.wf(),
        v.mode == ModeView::Normal,
        v.focus == Focus::Articles,
        v.selected_article < v.articles.len(),
        v.active_search is None,
        v.selected_feed < v.feeds.len(),
    ensures
        ({
            let q = feed_query(v.feeds[v.selected_feed as int].id);
            let (v1, a1) = v.on_key(KeyInput { key: Key::Char('r'), ctrl: false, press: true });
            let (v2, a2) = v1.changed(Ok(true), "Toggled read status"@);
            let v3 = v2.articles_loaded(q, Ok(list));
            &&& a1 == ActionView::ToggleRead(v.articles[v.selected_article as int].id)
            &&& a2 == ActionView::LoadArticles(q)
            &&& v3.articles == list
            &&& v3.selected_article == if list.len() == 0 {
                0
            } else if v.selected_article < list.len() {
                v.selected_article
            } else {
                (list.len() - 1) as nat
            }
            &&& v3.wf()
        }),
{
}

/// Asking for a refresh while one runs changes nothing but the status and
/// starts nothing.
pub proof fn lemma_refresh_while_active(v: AppView, ctrl: bool)
    requires
        v.fetching,
        v.mode == ModeView::Normal,
    ensures
        v.on_key(KeyInput { key: Key::Char('R'), ctrl, press: true }) == (
            v.with_status("Already fetching..."@),
            ActionView::Nothing,
        ),
{
}

/// Taking in the `Started`/`FeedDone` pairs of any number of feeds keeps
/// the refresh running and counts each feed as done once.
pub proof fn lemma_feed_messages_drained(
    v: AppView,
    names: Seq<Seq<char>>,
    outcomes: Seq<Result<Seq<bool>, Seq<char>>>,
)
    requires
        names.len() >= outcomes.len(),
        v.fetch_done + outcomes.len() <= usize::MAX,
    ensures
        ({
            let w = drain(v, crate::refresh::feed_messages(names, outcomes)).0;
            &&& w.fetching == v.fetching
            &&& w.fetch_done == v.fetch_done + outcomes.len()
            &&& w.fetch_total == v.fetch_total
            &&& w.feeds == v.feeds
        }),
    decreases outcomes.len(),
{
    if outcomes.len() > 0 {
        let pre = outcomes.drop_last();
        lemma_feed_messages_drained(v, names, pre);
        let k = outcomes.len() - 1;
        let m0 = crate::refresh::feed_messages(names, pre);
        let m1 = m0.push(MessageView::Started(names[k]));
        let m2 = m1.push(crate::refresh::done_message(names[k], outcomes[k]));
        assert(m1.drop_last() =~= m0);
        assert(m2.drop_last() =~= m1);
        assert(crate::refresh::feed_messages(names, outcomes) == m2);
        assert(drain(v, m1) == drain(v, m0).0.on_message(m1.last()));
        assert(drain(v, m2) == drain(v, m1).0.on_message(m2.last()));
        assert(crate::refresh::done_message(names[k], outcomes[k]) is FeedDone);
    } else {
        assert(crate::refresh::feed_messages(names, outcomes).len() == 0);
    }
}

/// A whole refresh cycle, drained by the client, ends the refresh: the
/// flag is cleared, every feed is counted as done, the status gives the
/// number of new articles, and the feed list is read again, after which
/// the article list is too.
pub proof fn lemma_refresh_cycle_drained(
    v: AppView,
    names: Seq<Seq<char>>,
    outcomes: Seq<Result<Seq<bool>, Seq<char>>>,
    feeds: Seq<Feed>,
)
    requires
        v.fetching,
        v.fetch_done == 0,
        names.len() == outcomes.len(),
        outcomes.len() <= usize::MAX,
    ensures
        ({
            let (w, a) = drain(v, crate::refresh::cycle_messages(names, outcomes));
            let (x, b) = w.feeds_loaded(Ok(feeds));
            &&& !w.fetching
            &&& w.fetching_feed is None
            &&& w.fetch_done == outcomes.len()
            &&& w.status == Some(
                "Fetch complete! "@ + decimal(crate::refresh::cycle_new(outcomes)) + " new articles"@,
            )
            &&& a == ActionView::LoadFeeds
            &&& x.feeds == feeds
            &&& b == x.view_reload()
        }),
{
    lemma_feed_messages_drained(v, names, outcomes);
    let m = crate::refresh::feed_messages(names, outcomes);
    let all = crate::refresh::cycle_messages(names, outcomes);
    assert(all.drop_last() =~= m);
}


/// Every key keeps both selections inside their lists.
pub proof fn lemma_on_key_keeps_wf(v: AppView, k: KeyInput)
    requires
        v.wf(),
    ensures
        v.on_key(k).0.wf(),
{
    if k.press && !(k.ctrl && k.key == Key::Char('l')) {
        match v.mode {
            ModeView::SearchInput(q) => {},
            ModeView::Preview(lines, s) => {},
            ModeView::Normal => lemma_browse_keeps_wf(v, browse_command(k.key, k.ctrl)),
        }
    }
}

proof fn lemma_browse_keeps_wf(v: AppView, c: Command)
    requires
        v.wf(),
    ensures
        v.browse(c).0.wf(),
{
    match c {
        Command::Move(d, u) => {
            let n = match u {
                Unit::Line => 1,
                Unit::Page => page_rows(v.feeds_height, LIST_BORDER as nat),
                Unit::HalfPage => half_rows(v.feeds_height, LIST_BORDER as nat),
                Unit::Edge => v.feeds.len(),
            };
            let m = match u {
                Unit::Line => 1,
                Unit::Page => page_rows(v.articles_height, LIST_BORDER as nat),
                Unit::HalfPage => half_rows(v.articles_height, LIST_BORDER as nat),
                Unit::Edge => v.articles.len(),
            };
            assert(up_by(v.selected_feed, n) <= v.selected_feed);
            assert(up_by(v.selected_article, m) <= v.selected_article);
        },
        _ => {},
    }
}

/// Every refresh message keeps both selections inside their lists.
pub proof fn lemma_on_message_keeps_wf(v: AppView, m: MessageView)
    requires
        v.wf(),
    ensures
        v.on_message(m).0.wf(),
{
}


/// A refresh started from the article browser with feeds to fetch, whose
/// background cycle then runs over the snapshot it was handed (one outcome
/// per feed, messages named by display name), ends with the flag cleared,
/// every feed counted, the new-article total in the status, and the feed
/// list read again.
pub proof fn lemma_refresh_from_trigger(
    v: AppView,
    outcomes: Seq<Result<Seq<bool>, Seq<char>>>,
)
    requires
        !v.fetching,
        v.mode == ModeView::Normal,
        0 < v.feeds.len() <= usize::MAX,
        outcomes.len() == v.feeds.len(),
    ensures
        ({
            let (s, a) = v.on_key(KeyInput { key: Key::Char('R'), ctrl: false, press: true });
            let names = v.feeds.map_values(|f: Feed| f.display_name_spec());
            let (w, b) = drain(s, crate::refresh::cycle_messages(names, outcomes));
            &&& a == ActionView::StartRefresh(v.feeds)
            &&& s.fetching && s.fetch_done == 0 && s.fetch_total == v.feeds.len()
            &&& !w.fetching
            &&& w.fetching_feed is None
            &&& w.fetch_done == v.feeds.len()
            &&& w.fetch_total == v.feeds.len()
            &&& w.status == Some(
                "Fetch complete! "@ + decimal(crate::refresh::cycle_new(outcomes)) + " new articles"@,
            )
            &&& b == ActionView::LoadFeeds
        }),
{
    let s = v.on_key(KeyInput { key: Key::Char('R'), ctrl: false, press: true }).0;
    let names = v.feeds.map_values(|f: Feed| f.display_name_spec());
    lemma_refresh_cycle_drained(s, names, outcomes, v.feeds);
    lemma_feed_messages_drained(s, names, outcomes);
    let m = crate::refresh::feed_messages(names, outcomes);
    let all = crate::refresh::cycle_messages(names, outcomes);
    assert(all.drop_last() =~= m);
}

/// Flipping a read mark with no article selected (an empty list) changes
/// nothing and asks nothing of the store (the search prompt takes `r` as
/// text).
pub proof fn lemma_toggle_read_on_empty(v: AppView)
    requires
        !(v.mode is SearchInput),
        v.articles.len() == 0,
    ensures
        v.on_key(KeyInput { key: Key::Char('r'), ctrl: false, press: true }) == (v, ActionView::Nothing),
{
}

} // verus!
