use rustfeed::app::{ArticleQuery, Mode};
use rustfeed::screen::article_marks;
use rustfeed::keys::Key;
use rustfeed::{Action, App, AppConfig, Article, Feed, FetchMessage, Focus, KeyInput, RefreshTask};

fn feed(id: i64, title: &str) -> Feed {
    Feed {
        id,
        url: format!("https://example.com/{}.xml", id),
        title: title.to_string(),
        description: None,
        created_at: 0,
        updated_at: 0,
        custom_name: None,
        category: None,
        priority: 0,
    }
}

fn article(id: i64, feed_id: i64, title: &str) -> Article {
    Article {
        id,
        feed_id,
        title: title.to_string(),
        url: Some(format!("https://example.com/a/{}", id)),
        content: Some(format!("<p>{}</p>", title)),
        published_at: None,
        is_read: false,
        is_favorite: false,
        created_at: id,
    }
}

fn articles(feed_id: i64, n: i64) -> Vec<Article> {
    (0..n).map(|i| article(feed_id * 1000 + i, feed_id, &format!("a{}", i))).collect()
}

fn press(key: Key) -> KeyInput {
    KeyInput { key, ctrl: false, press: true }
}

fn ctrl(c: char) -> KeyInput {
    KeyInput { key: Key::Char(c), ctrl: true, press: true }
}

fn ids(list: &[Article]) -> Vec<i64> {
    list.iter().map(|a| a.id).collect()
}

fn app_with(feeds: Vec<Feed>) -> App {
    App::new(AppConfig::default(), feeds)
}

fn load_into(app: &mut App, action: Action, list: Vec<Article>) {
    match action {
        Action::LoadArticles(q) => app.articles_loaded(&q, Ok(list)),
        other => panic!("expected a load, got {:?}", other),
    }
}

fn query_of(action: &Action) -> (bool, usize, Option<String>, Option<i64>) {
    match action {
        Action::LoadArticles(q) | Action::RunSearch(q) => {
            (q.unread_only, q.limit, q.filter.clone(), q.feed_id)
        }
        other => panic!("expected a query, got {:?}", other),
    }
}

#[test]
fn initial_load_reads_first_feed() {
    let app = app_with(vec![feed(7, "Seven"), feed(8, "Eight")]);
    assert_eq!(app.focus, Focus::Feeds);
    assert_eq!(query_of(&app.reload_action()), (false, 50, None, Some(7)));
    let empty = app_with(vec![]);
    assert!(matches!(empty.reload_action(), Action::Nothing));
}

#[test]
fn page_moves_clamp_to_list() {
    let mut app = app_with(vec![feed(1, "One")]);
    app.articles = articles(1, 30);
    app.focus = Focus::Articles;
    app.articles_list_height = 12; // a page is 10 rows
    app.selected_article = 5;
    app.on_key(press(Key::PageDown));
    assert_eq!(app.selected_article, 15);
    app.selected_article = 25;
    app.on_key(press(Key::PageDown));
    assert_eq!(app.selected_article, 29);
    app.selected_article = 15;
    app.on_key(press(Key::PageUp));
    assert_eq!(app.selected_article, 5);
    app.on_key(press(Key::PageUp));
    assert_eq!(app.selected_article, 0);
    app.selected_article = 10;
    app.on_key(ctrl('d'));
    assert_eq!(app.selected_article, 15);
    app.on_key(ctrl('u'));
    assert_eq!(app.selected_article, 10);
    app.on_key(press(Key::Char('G')));
    assert_eq!(app.selected_article, 29);
    app.on_key(press(Key::Char('g')));
    assert_eq!(app.selected_article, 0);
    app.on_key(press(Key::Up));
    assert_eq!(app.selected_article, 0);
    app.on_key(press(Key::Char('j')));
    assert_eq!(app.selected_article, 1);
}

#[test]
fn moves_on_empty_list_stay_at_zero() {
    let mut app = app_with(vec![]);
    app.focus = Focus::Articles;
    app.on_key(press(Key::PageDown));
    assert_eq!(app.selected_article, 0);
    app.on_key(press(Key::End));
    assert_eq!(app.selected_article, 0);
    let action = app.on_key(press(Key::Char('r')));
    assert!(matches!(action, Action::Nothing));
}

#[test]
fn moving_feed_selection_reloads_only_on_change() {
    let mut app = app_with(vec![feed(1, "One"), feed(2, "Two")]);
    let action = app.on_key(press(Key::Up));
    assert!(matches!(action, Action::Nothing));
    let action = app.on_key(press(Key::Down));
    assert_eq!(app.selected_feed, 1);
    assert_eq!(query_of(&action), (false, 50, None, Some(2)));
    let action = app.on_key(press(Key::Down));
    assert!(matches!(action, Action::Nothing));
}

#[test]
fn reselecting_a_feed_reproduces_its_snapshot() {
    let mut app = app_with(vec![feed(1, "A"), feed(2, "B")]);
    let first = app.reload_action();
    load_into(&mut app, first, articles(1, 3));
    let snapshot = ids(&app.articles);
    let to_b = app.on_key(press(Key::Down));
    assert_eq!(query_of(&to_b), (false, 50, None, Some(2)));
    load_into(&mut app, to_b, articles(2, 5));
    assert_eq!(app.articles.len(), 5);
    let back = app.on_key(press(Key::Up));
    assert_eq!(query_of(&back), (false, 50, None, Some(1)));
    load_into(&mut app, back, articles(1, 3));
    assert_eq!(ids(&app.articles), snapshot);
}

#[test]
fn refresh_cycle_messages_and_drain() {
    let feeds = vec![feed(1, "F1"), feed(2, "F2"), feed(3, "F3")];
    let mut app = app_with(feeds.clone());
    let action = app.on_key(press(Key::Char('R')));
    let snapshot = match action {
        Action::StartRefresh(list) => list,
        other => panic!("expected a refresh, got {:?}", other),
    };
    assert!(app.is_fetching);
    assert_eq!(app.fetch_progress, (0, 3));
    assert_eq!(app.status_message.as_deref(), Some("Starting fetch..."));

    let mut task = RefreshTask::new(&snapshot);
    let outcomes: Vec<Result<Vec<bool>, String>> =
        vec![Ok(vec![true, false, true]), Err("network down".to_string()), Ok(vec![false])];
    let mut sent = Vec::new();
    for outcome in outcomes {
        let (started, _) = task.start_next().expect("a feed is left");
        sent.push(started);
        sent.push(task.finish(outcome));
    }
    assert!(task.start_next().is_none());
    sent.push(task.all_done());

    let text: Vec<String> = sent.iter().map(|m| format!("{:?}", m)).collect();
    assert_eq!(
        text,
        vec![
            "Started(\"F1\")",
            "FeedDone(\"F1\", 2, None)",
            "Started(\"F2\")",
            "FeedDone(\"F2\", 0, Some(\"network down\"))",
            "Started(\"F3\")",
            "FeedDone(\"F3\", 0, None)",
            "AllDone(2)",
        ]
    );

    let mut statuses = Vec::new();
    let mut last = Action::Nothing;
    for m in sent {
        last = app.on_fetch_message(m);
        statuses.push(app.status_message.clone().unwrap());
    }
    assert_eq!(
        statuses,
        vec![
            "Fetching F1...",
            "F1: 2 new (1/3)",
            "Fetching F2...",
            "F2: Error - network down",
            "Fetching F3...",
            "F3: 0 new (3/3)",
            "Fetch complete! 2 new articles",
        ]
    );
    assert!(!app.is_fetching);
    assert!(app.fetching_feed.is_none());
    assert!(matches!(last, Action::LoadFeeds));
    let reload = app.feeds_loaded(Ok(feeds));
    assert_eq!(query_of(&reload), (false, 50, None, Some(1)));
}

#[test]
fn search_then_clear_restores_feed_list() {
    let mut app = app_with(vec![feed(1, "One")]);
    let first = app.reload_action();
    load_into(&mut app, first, articles(1, 4));
    let before = ids(&app.articles);
    app.on_key(press(Key::Char('/')));
    assert_eq!(app.focus, Focus::Articles);
    for c in "rust,cargo".chars() {
        app.on_key(press(Key::Char(c)));
    }
    app.on_key(press(Key::Char('x')));
    app.on_key(press(Key::Backspace));
    match &app.mode {
        Mode::SearchInput(q) => assert_eq!(q, "rust,cargo"),
        other => panic!("expected the search prompt, got {:?}", other),
    }
    let action = app.on_key(press(Key::Enter));
    assert!(matches!(app.mode, Mode::Normal));
    assert_eq!(query_of(&action), (false, 100, Some("rust,cargo".to_string()), None));
    let q = match action {
        Action::RunSearch(q) => q,
        other => panic!("expected a search, got {:?}", other),
    };
    app.search_loaded(&q, Ok(vec![article(50, 2, "rust 1.80"), article(51, 3, "cargo tips")]));
    assert_eq!(ids(&app.articles), vec![50, 51]);
    assert_eq!(app.selected_article, 0);
    assert_eq!(app.active_search.as_deref(), Some("rust,cargo"));
    assert_eq!(app.status_message.as_deref(), Some("Search: 'rust,cargo' (2 results)"));

    let clear = app.on_key(press(Key::Esc));
    assert!(app.active_search.is_none());
    assert_eq!(app.status_message.as_deref(), Some("Search cleared"));
    assert_eq!(query_of(&clear), (false, 50, None, Some(1)));
    load_into(&mut app, clear, articles(1, 4));
    assert_eq!(ids(&app.articles), before);
}

#[test]
fn empty_search_and_cancel_change_nothing() {
    let mut app = app_with(vec![feed(1, "One")]);
    app.on_key(press(Key::Char('/')));
    let action = app.on_key(press(Key::Enter));
    assert!(matches!(action, Action::Nothing));
    assert!(matches!(app.mode, Mode::Normal));
    app.on_key(press(Key::Char('/')));
    app.on_key(press(Key::Char('a')));
    let action = app.on_key(press(Key::Esc));
    assert!(matches!(action, Action::Nothing));
    assert!(matches!(app.mode, Mode::Normal));
    assert!(app.active_search.is_none());
}

#[test]
fn search_prompt_masks_other_keys() {
    let mut app = app_with(vec![feed(1, "One")]);
    app.on_key(press(Key::Char('/')));
    app.on_key(press(Key::Char('p')));
    app.on_key(press(Key::Char('q')));
    assert!(!app.should_quit);
    match &app.mode {
        Mode::SearchInput(q) => assert_eq!(q, "pq"),
        other => panic!("expected the search prompt, got {:?}", other),
    }
}

#[test]
fn toggling_last_unread_clamps_selection() {
    let mut app = app_with(vec![feed(1, "One")]);
    let first = app.reload_action();
    load_into(&mut app, first, articles(1, 3));
    app.focus = Focus::Articles;
    app.selected_article = 2;
    let action = app.on_key(press(Key::Char('r')));
    assert!(matches!(action, Action::ToggleRead(1002)));
    let reload = app.read_toggled(Ok(true));
    assert_eq!(app.status_message.as_deref(), Some("Toggled read status"));
    let mut shorter = articles(1, 3);
    shorter.pop();
    load_into(&mut app, reload, shorter);
    assert_eq!(app.selected_article, 1);

    let action = app.on_key(press(Key::Char('r')));
    assert!(matches!(action, Action::ToggleRead(1001)));
    let reload = app.read_toggled(Ok(true));
    load_into(&mut app, reload, Vec::new());
    assert_eq!(app.selected_article, 0);
    let action = app.on_key(press(Key::Char('r')));
    assert!(matches!(action, Action::Nothing));
}

#[test]
fn refresh_while_active_only_reports() {
    let mut app = app_with(vec![feed(1, "One")]);
    app.on_key(press(Key::Char('R')));
    app.fetch_progress = (1, 1);
    let action = app.on_key(press(Key::Char('R')));
    assert!(matches!(action, Action::Nothing));
    assert!(app.is_fetching);
    assert_eq!(app.fetch_progress, (1, 1));
    assert_eq!(app.status_message.as_deref(), Some("Already fetching..."));
}

#[test]
fn refresh_without_feeds_reports() {
    let mut app = app_with(vec![]);
    let action = app.on_key(press(Key::Char('R')));
    assert!(matches!(action, Action::Nothing));
    assert!(!app.is_fetching);
    assert_eq!(app.status_message.as_deref(), Some("No feeds to fetch"));
}

#[test]
fn repeats_ignored_and_ctrl_l_clears() {
    let mut app = app_with(vec![feed(1, "One"), feed(2, "Two")]);
    let action = app.on_key(KeyInput { key: Key::Down, ctrl: false, press: false });
    assert!(matches!(action, Action::Nothing));
    assert_eq!(app.selected_feed, 0);
    let action = app.on_key(ctrl('l'));
    assert!(matches!(action, Action::ClearScreen));
    assert_eq!(app.status_message.as_deref(), Some("Screen refreshed"));
    app.on_key(press(Key::Char('q')));
    assert!(app.should_quit);
}

#[test]
fn focus_switching() {
    let mut app = app_with(vec![feed(3, "Three")]);
    let action = app.on_key(press(Key::Right));
    assert_eq!(app.focus, Focus::Articles);
    assert_eq!(app.status_message.as_deref(), Some("Articles"));
    assert_eq!(query_of(&action), (false, 50, None, Some(3)));
    let action = app.on_key(press(Key::Char('h')));
    assert!(matches!(action, Action::Nothing));
    assert_eq!(app.focus, Focus::Feeds);
    assert_eq!(app.status_message.as_deref(), Some("Feeds"));
    app.on_key(press(Key::Tab));
    assert_eq!(app.focus, Focus::Articles);
    let q = ArticleQuery { unread_only: false, limit: 100, filter: Some("rust".to_string()), feed_id: None };
    app.search_loaded(&q, Ok(articles(1, 2)));
    let action = app.on_key(press(Key::Tab));
    assert_eq!(app.focus, Focus::Feeds);
    assert!(app.active_search.is_none());
    assert_eq!(query_of(&action), (false, 50, None, Some(3)));
    app.search_loaded(&q, Ok(articles(1, 2)));
    app.focus = Focus::Feeds;
    let action = app.on_key(press(Key::Enter));
    assert!(matches!(action, Action::Nothing));
    assert_eq!(app.focus, Focus::Articles);
    assert_eq!(app.active_search.as_deref(), Some("rust"));
    assert_eq!(app.articles.len(), 2);
    let mut none = app_with(vec![]);
    none.on_key(press(Key::Enter));
    assert_eq!(none.focus, Focus::Feeds);
}

#[test]
fn preview_opens_scrolls_and_closes() {
    let mut app = app_with(vec![feed(1, "One")]);
    let mut a = article(9, 1, "Long");
    let body: String = (0..30).map(|i| format!("<p>line {}</p>", i)).collect();
    a.content = Some(body);
    app.articles = vec![a];
    app.focus = Focus::Articles;
    app.preview_height = 14; // ten rows of text
    app.on_key(press(Key::Char('p')));
    let n = match &app.mode {
        Mode::Preview(lines, scroll) => {
            assert_eq!(*scroll, 0);
            assert!(lines.iter().any(|l| l.contains("line 0")));
            assert!(lines.iter().all(|l| !l.contains("<p>")));
            lines.len()
        }
        other => panic!("expected the preview, got {:?}", other),
    };
    assert!(n > 10);
    app.on_key(press(Key::End));
    assert!(matches!(&app.mode, Mode::Preview(_, s) if *s == n - 10));
    app.on_key(press(Key::Down));
    assert!(matches!(&app.mode, Mode::Preview(_, s) if *s == n - 10));
    app.on_key(press(Key::PageUp));
    assert!(matches!(&app.mode, Mode::Preview(_, s) if *s == n - 20));
    app.on_key(press(Key::Home));
    assert!(matches!(&app.mode, Mode::Preview(_, s) if *s == 0));
    app.on_key(press(Key::Char('j')));
    assert!(matches!(&app.mode, Mode::Preview(_, s) if *s == 1));
    app.on_key(press(Key::Char('q')));
    assert!(matches!(app.mode, Mode::Normal));
    assert!(!app.should_quit);
}

#[test]
fn preview_of_article_without_content() {
    let mut app = app_with(vec![feed(1, "One")]);
    let mut a = article(9, 1, "Empty");
    a.content = None;
    app.articles = vec![a];
    app.focus = Focus::Articles;
    app.on_key(press(Key::Char('p')));
    match &app.mode {
        Mode::Preview(lines, _) => assert_eq!(lines.concat().trim(), "(No content available)"),
        other => panic!("expected the preview, got {:?}", other),
    }
}

#[test]
fn favorite_and_open_flows() {
    let mut app = app_with(vec![feed(1, "One")]);
    let first = app.reload_action();
    load_into(&mut app, first, articles(1, 2));
    app.focus = Focus::Articles;
    let action = app.on_key(press(Key::Char('f')));
    assert!(matches!(action, Action::SetFavorite(1000, true)));
    let reload = app.favorite_set(true, Ok(true));
    assert_eq!(app.status_message.as_deref(), Some("Added to favorites"));
    assert_eq!(query_of(&reload), (false, 50, None, Some(1)));
    app.favorite_set(false, Ok(false));
    assert_eq!(app.status_message.as_deref(), Some("Article not found"));

    let action = app.on_key(press(Key::Char('o')));
    match action {
        Action::OpenUrl(url, id, was_read) => {
            assert_eq!(url, "https://example.com/a/1000");
            assert_eq!(id, 1000);
            assert!(!was_read);
        }
        other => panic!("expected an open, got {:?}", other),
    }
    let next = app.url_opened(1000, false, Ok(()));
    assert!(matches!(next, Action::MarkRead(1000)));
    assert_eq!(app.status_message.as_deref(), Some("Opened in browser"));
    let reload = app.marked_read(Ok(true));
    assert_eq!(query_of(&reload), (false, 50, None, Some(1)));
    let none = app.url_opened(1000, true, Ok(()));
    assert!(matches!(none, Action::Nothing));
    app.url_opened(1000, false, Err("no browser".to_string()));
    assert_eq!(app.status_message.as_deref(), Some("Failed to open: no browser"));

    app.articles[0].url = None;
    let action = app.on_key(press(Key::Char('o')));
    assert!(matches!(action, Action::Nothing));
    assert_eq!(app.status_message.as_deref(), Some("Article has no URL"));
}

#[test]
fn storage_errors_keep_snapshot() {
    let mut app = app_with(vec![feed(1, "One")]);
    let first = app.reload_action();
    load_into(&mut app, first, articles(1, 2));
    let q = ArticleQuery { unread_only: false, limit: 50, filter: None, feed_id: Some(1) };
    app.articles_loaded(&q, Err("disk I/O error".to_string()));
    assert_eq!(app.articles.len(), 2);
    assert_eq!(app.status_message.as_deref(), Some("Error: disk I/O error"));
    let action = app.feeds_loaded(Err("locked".to_string()));
    assert!(matches!(action, Action::Nothing));
    assert_eq!(app.feeds.len(), 1);
    assert_eq!(app.status_message.as_deref(), Some("Error: locked"));
    let action = app.read_toggled(Err("gone".to_string()));
    assert!(matches!(action, Action::Nothing));
    assert_eq!(app.status_message.as_deref(), Some("Error: gone"));
}

#[test]
fn refresh_reloads_active_search() {
    let mut app = app_with(vec![feed(1, "One"), feed(2, "Two")]);
    let q = ArticleQuery { unread_only: false, limit: 100, filter: Some("rust".to_string()), feed_id: None };
    app.search_loaded(&q, Ok(articles(1, 1)));
    app.selected_feed = 1;
    let action = app.feeds_loaded(Ok(vec![feed(1, "One")]));
    assert_eq!(app.selected_feed, 0);
    assert_eq!(query_of(&action), (false, 100, Some("rust".to_string()), None));
}

#[test]
fn screen_texts() {
    let mut app = app_with(vec![feed(1, "One")]);
    assert_eq!(app.articles_title(), " One ");
    assert!(app.footer_text().starts_with("q:Quit"));
    assert!(!app.footer_text().contains(" | "));
    app.on_key(press(Key::Char('l')));
    assert!(app.footer_text().ends_with(" | Articles"));
    app.on_key(press(Key::Char('/')));
    app.on_key(press(Key::Char('r')));
    assert_eq!(app.footer_text(), "Search: r_  (Enter:Search Esc:Cancel)");
    let q = ArticleQuery { unread_only: false, limit: 100, filter: Some("r".to_string()), feed_id: None };
    app.on_key(press(Key::Esc));
    app.search_loaded(&q, Ok(articles(1, 2)));
    assert_eq!(app.articles_title(), " One ");
    let none = app_with(vec![]);
    assert_eq!(none.articles_title(), " Articles ");
    assert!(app.preview_position().is_none());
    app.mode = Mode::Preview(vec!["a".to_string(), "b".to_string()], 1);
    assert_eq!(app.preview_position().as_deref(), Some(" Line 2/2 "));
    app.mode = Mode::Preview(vec![], 0);
    assert_eq!(app.preview_position().as_deref(), Some(" Line 1/1 "));
    let mut a = article(1, 1, "x");
    assert_eq!(article_marks(&a), ("* ", "  "));
    a.is_read = true;
    a.is_favorite = true;
    assert_eq!(article_marks(&a), ("  ", "\u{2665} "));
}
