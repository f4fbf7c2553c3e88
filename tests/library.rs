use rustfeed::commands::{
    export_format, filter_listing, first_chars, format_of_lowercase, optional_text,
    text_le_exec, unread_target, ExportFormat, TargetError, UnreadTarget,
};
use rustfeed::config::{default_date_format, default_db_path, default_limit, default_true, ConfigFile};
use rustfeed::feed::{entry_article, feed_info, parse_feed, EntryFields};
use rustfeed::nav::{clamp_to, half_page_size, move_down_by, move_up_by, page_size};
use rustfeed::refresh::count_new;
use rustfeed::text::{preview_lines, preview_lines_from, split_lines};
use rustfeed::export::export_markdown;
use rustfeed::query::{article_statement, feeds_in_category, keywords, trim};
use rustfeed::{AppConfig, Article, ArticleQuery, Feed, FetchResult};

fn dated(id: i64, feed_id: i64, published_at: Option<i64>) -> Article {
    Article {
        id,
        feed_id,
        title: format!("t{}", id),
        url: None,
        content: None,
        published_at,
        is_read: false,
        is_favorite: false,
        created_at: 0,
    }
}

// 2024-03-10T12:00:00Z and 2024-03-20T12:00:00Z in microseconds.
const MARCH_10: i64 = 1_710_072_000_000_000;
const MARCH_20: i64 = 1_710_936_000_000_000;

#[test]
fn cursor_arithmetic() {
    assert_eq!(page_size(12, 2), 10);
    assert_eq!(page_size(1, 2), 0);
    assert_eq!(half_page_size(12, 2), 5);
    assert_eq!(half_page_size(3, 2), 1);
    assert_eq!(move_down_by(5, 10, 30), 15);
    assert_eq!(move_down_by(25, 10, 30), 29);
    assert_eq!(move_down_by(0, 10, 0), 0);
    assert_eq!(move_down_by(3, usize::MAX, 10), 9);
    assert_eq!(move_up_by(15, 10), 5);
    assert_eq!(move_up_by(5, 10), 0);
    assert_eq!(clamp_to(7, 3), 2);
    assert_eq!(clamp_to(1, 3), 1);
    assert_eq!(clamp_to(4, 0), 0);
}

#[test]
fn display_name_prefers_custom_name() {
    let mut f = Feed::new("https://e.com/f".to_string(), "Title".to_string(), None);
    assert_eq!(f.id, 0);
    assert_eq!(f.priority, 0);
    assert_eq!(f.created_at, f.updated_at);
    assert_eq!(f.display_name(), "Title");
    f.custom_name = Some("Mine".to_string());
    assert_eq!(f.display_name(), "Mine");
}

#[test]
fn new_article_is_unread() {
    let a = Article::new(3, "T".to_string(), None, None, Some(5));
    assert_eq!(a.id, 0);
    assert_eq!(a.feed_id, 3);
    assert!(!a.is_read);
    assert!(!a.is_favorite);
    assert_eq!(a.published_at, Some(5));
}

#[test]
fn lines_split_like_str_lines() {
    assert_eq!(split_lines("a\r\nb\n"), vec!["a", "b"]);
    assert_eq!(split_lines(""), Vec::<String>::new());
    assert_eq!(split_lines("\n"), vec![""]);
    assert_eq!(split_lines("x\r"), vec!["x\r"]);
    assert_eq!(split_lines("one\n\nthree"), vec!["one", "", "three"]);
    assert_eq!(preview_lines_from("raw\ntext", None), vec!["raw", "text"]);
    assert_eq!(preview_lines_from("raw", Some("done\n")), vec!["done"]);
}

#[test]
fn preview_renders_html() {
    let lines = preview_lines(Some("<p>Hello <b>world</b></p>"));
    assert!(lines.iter().any(|l| l.contains("Hello")));
    assert!(lines.iter().all(|l| !l.contains("<p>")));
}

#[test]
fn counts_only_new_inserts() {
    assert_eq!(count_new(&vec![true, false, true, true]), 3);
    assert_eq!(count_new(&vec![]), 0);
    assert_eq!(count_new(&vec![false, false]), 0);
}

#[test]
fn fetch_result_tally() {
    let mut r = FetchResult::new(3);
    r.record("A", Ok(4));
    r.record("B", Err("timeout".to_string()));
    r.record("C", Ok(1));
    assert_eq!(r.total_feeds, 3);
    assert_eq!(r.new_articles, 5);
    assert_eq!(r.errors, vec!["B: timeout".to_string()]);
}

#[test]
fn config_defaults_and_file_values() {
    assert_eq!(default_limit(), 20);
    assert_eq!(default_date_format(), "%Y-%m-%d");
    assert_eq!(default_db_path(), "~/.rustfeed/rustfeed.db");
    assert!(default_true());
    let d = AppConfig::load(None);
    assert_eq!(d.general.default_limit, 20);
    assert!(!d.general.show_unread_only);
    assert!(d.general.disabled_feeds.is_empty());
    assert_eq!(d.display.date_format, "%Y-%m-%d");
    assert!(d.display.show_description);
    assert_eq!(d.database.path, "~/.rustfeed/rustfeed.db");
    let file = ConfigFile {
        default_limit: Some(5),
        show_unread_only: None,
        disabled_feeds: Some(vec![2, 3]),
        date_format: None,
        show_description: Some(false),
        path: None,
    };
    let c = AppConfig::load(Some(file));
    assert_eq!(c.general.default_limit, 5);
    assert!(!c.general.show_unread_only);
    assert_eq!(c.general.disabled_feeds, vec![2, 3]);
    assert_eq!(c.display.date_format, "%Y-%m-%d");
    assert!(!c.display.show_description);
    assert_eq!(c.database.path, "~/.rustfeed/rustfeed.db");
    let sample = AppConfig::sample_config();
    assert!(sample.contains("default_limit = 20"));
    assert!(sample.contains("[database]"));
}

#[test]
fn entry_fields_become_article() {
    let a = entry_article(EntryFields {
        title: None,
        links: vec!["https://e.com/1".to_string(), "https://e.com/2".to_string()],
        summary: None,
        content: Some("body".to_string()),
        published: None,
        updated: Some(77),
    });
    assert_eq!(a.title, "Untitled");
    assert_eq!(a.url.as_deref(), Some("https://e.com/1"));
    assert_eq!(a.content.as_deref(), Some("body"));
    assert_eq!(a.published_at, Some(77));
    assert_eq!(a.feed_id, 0);
    let b = entry_article(EntryFields {
        title: Some("T".to_string()),
        links: vec![],
        summary: Some("sum".to_string()),
        content: Some("body".to_string()),
        published: Some(1),
        updated: Some(2),
    });
    assert_eq!(b.title, "T");
    assert!(b.url.is_none());
    assert_eq!(b.content.as_deref(), Some("sum"));
    assert_eq!(b.published_at, Some(1));
    let f = feed_info("https://e.com/feed", None, Some("d".to_string()));
    assert_eq!(f.title, "Untitled Feed");
    assert_eq!(f.url, "https://e.com/feed");
    assert_eq!(f.description.as_deref(), Some("d"));
}

#[test]
fn parses_rss_document() {
    let doc = r#"<?xml version="1.0"?>
<rss version="2.0"><channel>
<title>Example Blog</title><link>https://e.com/</link><description>News</description>
<item><title>First</title><link>https://e.com/1</link><description>Hello</description>
<pubDate>Sun, 10 Mar 2024 12:00:00 GMT</pubDate></item>
<item><link>https://e.com/2</link></item>
</channel></rss>"#;
    let (feed, articles) = parse_feed("https://e.com/rss", doc.as_bytes()).expect("parses");
    assert_eq!(feed.title, "Example Blog");
    assert_eq!(feed.url, "https://e.com/rss");
    assert_eq!(feed.description.as_deref(), Some("News"));
    assert_eq!(articles.len(), 2);
    assert_eq!(articles[0].title, "First");
    assert_eq!(articles[0].url.as_deref(), Some("https://e.com/1"));
    assert_eq!(articles[0].content.as_deref(), Some("Hello"));
    assert_eq!(articles[0].published_at, Some(MARCH_10));
    assert_eq!(articles[1].title, "Untitled");
    assert!(parse_feed("https://e.com/rss", b"not a feed").is_err());
}

#[test]
fn optional_names() {
    assert_eq!(optional_text(""), None);
    assert_eq!(optional_text("Tech").as_deref(), Some("Tech"));
}

#[test]
fn unread_target_needs_exactly_one() {
    assert_eq!(unread_target(None, None, false), Err(TargetError::NoneGiven));
    assert_eq!(unread_target(Some(1), None, true), Err(TargetError::SeveralGiven));
    assert_eq!(unread_target(Some(1), None, false), Ok(UnreadTarget::Article(1)));
    assert_eq!(unread_target(None, Some(4), false), Ok(UnreadTarget::Feed(4)));
    assert_eq!(unread_target(None, None, true), Ok(UnreadTarget::All));
    assert_eq!(
        TargetError::NoneGiven.message(),
        "Please specify either an article ID, --feed, or --all"
    );
}

#[test]
fn text_order() {
    assert!(text_le_exec("2024-03-10", "2024-03-10"));
    assert!(text_le_exec("2024-03-09", "2024-03-10"));
    assert!(!text_le_exec("2024-03-11", "2024-03-10"));
    assert!(text_le_exec("", "a"));
    assert!(!text_le_exec("ab", "a"));
}

#[test]
fn listing_filters() {
    let list = vec![
        dated(1, 1, Some(MARCH_10)),
        dated(2, 2, Some(MARCH_20)),
        dated(3, 1, None),
        dated(4, 3, Some(MARCH_20)),
    ];
    let kept = filter_listing(list.clone(), &vec![2], true, None, None);
    assert_eq!(kept.iter().map(|a| a.id).collect::<Vec<_>>(), vec![1, 3, 4]);
    let kept = filter_listing(list.clone(), &vec![2], false, None, None);
    assert_eq!(kept.len(), 4);
    let kept = filter_listing(list.clone(), &vec![], true, Some("2024-03-15"), None);
    assert_eq!(kept.iter().map(|a| a.id).collect::<Vec<_>>(), vec![2, 4]);
    let kept = filter_listing(list.clone(), &vec![], true, None, Some("2024-03-10"));
    assert_eq!(kept.iter().map(|a| a.id).collect::<Vec<_>>(), vec![1]);
    let kept = filter_listing(list, &vec![3], true, Some("2024-03-10"), Some("2024-03-20"));
    assert_eq!(kept.iter().map(|a| a.id).collect::<Vec<_>>(), vec![1, 2]);
}

#[test]
fn description_is_cut() {
    assert_eq!(first_chars("héllo", 2), "hé");
    assert_eq!(first_chars("abc", 80), "abc");
}

#[test]
fn export_formats() {
    assert_eq!(export_format("JSON"), Some(ExportFormat::Json));
    assert_eq!(export_format("Md"), Some(ExportFormat::Markdown));
    assert_eq!(export_format("markdown"), Some(ExportFormat::Markdown));
    assert_eq!(export_format("csv"), None);
    assert_eq!(format_of_lowercase("JSON"), None);
    assert_eq!(format_of_lowercase("json"), Some(ExportFormat::Json));
}


#[test]
fn keyword_splitting() {
    assert_eq!(keywords(" rust , cargo"), vec!["rust", "cargo"]);
    assert_eq!(keywords("rust"), vec!["rust"]);
    assert_eq!(keywords("a,,b"), vec!["a", "", "b"]);
    assert_eq!(keywords(""), vec![""]);
    assert_eq!(trim(" \t a b \n"), "a b");
    assert_eq!(trim("   "), "");
    assert_eq!(trim("\u{3000}x\u{a0}\u{85}"), "x");
    assert_eq!(trim("\u{200b}x"), "\u{200b}x");
    for c in ['\u{9}', '\u{d}', ' ', '\u{1680}', '\u{2000}', '\u{200a}', '\u{2028}', '\u{202f}', '\u{205f}'] {
        assert!(c.is_whitespace());
        assert_eq!(trim(&format!("{}y{}", c, c)), "y");
    }
}

fn values_text(values: &[rustfeed::query::SqlValue]) -> Vec<String> {
    values.iter().map(|v| format!("{:?}", v)).collect()
}

#[test]
fn article_statements() {
    let select = "SELECT id, feed_id, title, url, content, published_at, is_read, is_favorite, created_at FROM articles";
    let order = " ORDER BY COALESCE(published_at, created_at) DESC LIMIT ?";
    let (sql, values) = article_statement(&ArticleQuery {
        unread_only: false,
        limit: 50,
        filter: None,
        feed_id: Some(4),
    });
    assert_eq!(sql, format!("{} WHERE feed_id = ?{}", select, order));
    assert_eq!(values_text(&values), vec!["Int(4)", "Int(50)"]);

    let (sql, values) = article_statement(&ArticleQuery {
        unread_only: true,
        limit: 100,
        filter: Some("rust, cargo".to_string()),
        feed_id: None,
    });
    assert_eq!(
        sql,
        format!(
            "{} WHERE is_read = 0 AND ((instr(title, ?) > 0 OR instr(content, ?) > 0) OR (instr(title, ?) > 0 OR instr(content, ?) > 0)){}",
            select, order
        )
    );
    assert_eq!(
        values_text(&values),
        vec!["Text(\"rust\")", "Text(\"rust\")", "Text(\"cargo\")", "Text(\"cargo\")", "Int(100)"]
    );

    let (sql, values) = article_statement(&ArticleQuery {
        unread_only: false,
        limit: usize::MAX,
        filter: None,
        feed_id: None,
    });
    assert_eq!(sql, format!("{}{}", select, order));
    assert_eq!(values_text(&values), vec!["Int(-1)"]);
}

#[test]
fn category_filter() {
    let mut a = Feed::new("https://e.com/a".to_string(), "A".to_string(), None);
    a.category = Some("Tech".to_string());
    let b = Feed::new("https://e.com/b".to_string(), "B".to_string(), None);
    let mut c = Feed::new("https://e.com/c".to_string(), "C".to_string(), None);
    c.category = Some("News".to_string());
    let all = vec![a, b, c];
    let tech = feeds_in_category(all.clone(), Some("Tech"));
    assert_eq!(tech.iter().map(|f| f.title.as_str()).collect::<Vec<_>>(), vec!["A"]);
    assert_eq!(feeds_in_category(all.clone(), None).len(), 3);
    assert!(feeds_in_category(all, Some("tech")).is_empty());
}

#[test]
fn markdown_export() {
    let mut first = dated(1, 1, Some(MARCH_10));
    first.title = "First".to_string();
    first.url = Some("https://e.com/1".to_string());
    first.content = Some("Body".to_string());
    first.is_favorite = true;
    let mut second = dated(2, 1, None);
    second.title = "Second".to_string();
    second.is_read = true;
    let text = export_markdown(&vec![first, second]);
    assert_eq!(
        text,
        "# Exported Articles\n\nTotal: 2 articles\n\n---\n\n\
## 1. First\n\n**URL:** https://e.com/1\n\n**Published:** 2024-03-10 12:00:00\n\n\
**Read:** No\n\n**Favorite:** Yes\n\n### Content\n\nBody\n\n---\n\n\
## 2. Second\n\n**Read:** Yes\n\n**Favorite:** No\n\n"
    );
    assert_eq!(export_markdown(&vec![]), "# Exported Articles\n\nTotal: 0 articles\n\n---\n\n");
}
