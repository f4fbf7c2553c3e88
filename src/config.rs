//! User settings, with the default of each value, and the sample settings
//! file that documents them.

use vstd::prelude::*;

verus! {

/// General settings.
#[derive(Debug)]
pub struct GeneralConfig {
    /// How many articles a listing shows unless told otherwise.
    pub default_limit: usize,
    /// Whether listings show unread articles only.
    pub show_unread_only: bool,
    /// Feeds whose articles listings leave out.
    pub disabled_feeds: Vec<i64>,
}

/// Display settings.
#[derive(Debug)]
pub struct DisplayConfig {
    /// chrono format of dates in listings.
    pub date_format: String,
    pub show_description: bool,
}

/// Where the database lives.
#[derive(Debug)]
pub struct DatabaseConfig {
    /// Path of the database file; `~` stands for the home directory.
    pub path: String,
}

/// All settings.
#[derive(Debug)]
pub struct AppConfig {
    pub general: GeneralConfig,
    pub display: DisplayConfig,
    pub database: DatabaseConfig,
}

/// The values a settings file gave: each is `None` where the file leaves it
/// out (a whole section may be left out).
pub struct ConfigFile {
    pub default_limit: Option<usize>,
    pub show_unread_only: Option<bool>,
    pub disabled_feeds: Option<Vec<i64>>,
    pub date_format: Option<String>,
    pub show_description: Option<bool>,
    pub path: Option<String>,
}

pub open spec fn default_limit_value() -> usize {
    20
}

pub open spec fn default_date_format_text() -> Seq<char> {
    "%Y-%m-%d"@
}

pub open spec fn default_db_path_text() -> Seq<char> {
    "~/.rustfeed/rustfeed.db"@
}

/// Listing size when none is set.
pub fn default_limit() -> (r: usize)
    ensures
        r == default_limit_value(),
{
    20
}

/// Date format when none is set.
pub fn default_date_format() -> (r: String)
    ensures
        r@ == default_date_format_text(),
{
    "%Y-%m-%d".to_owned()
}

/// Database path when none is set.
pub fn default_db_path() -> (r: String)
    ensures
        r@ == default_db_path_text(),
{
    "~/.rustfeed/rustfeed.db".to_owned()
}

/// Default of the settings that are on unless turned off.
pub fn default_true() -> (r: bool)
    ensures
        r,
{
    true
}

impl Default for GeneralConfig {
    fn default() -> (r: Self)
        ensures
            r.default_limit == default_limit_value(),
            !r.show_unread_only,
            r.disabled_feeds@.len() == 0,
    {
        GeneralConfig {
            default_limit: default_limit(),
            show_unread_only: false,
            disabled_feeds: Vec::new(),
        }
    }
}

impl Default for DisplayConfig {
    fn default() -> (r: Self)
        ensures
            r.date_format@ == default_date_format_text(),
            r.show_description,
    {
        DisplayConfig { date_format: default_date_format(), show_description: default_true() }
    }
}

impl Default for DatabaseConfig {
    fn default() -> (r: Self)
        ensures
            r.path@ == default_db_path_text(),
    {
        DatabaseConfig { path: default_db_path() }
    }
}

impl Default for AppConfig {
    fn default() -> (r: Self)
        ensures
            r.is_default(),
    {
        AppConfig {
            general: GeneralConfig::default(),
            display: DisplayConfig::default(),
            database: DatabaseConfig::default(),
        }
    }
}

/// The sample settings file, with every value at its default.
pub const SAMPLE_CONFIG: &'static str = "# rustfeed 設定ファイル
# ~/.config/rustfeed/config.toml

[general]
# デフォルトの記事表示件数
default_limit = 20

# デフォルトで未読のみ表示するか
show_unread_only = false

# 無効化するフィードのIDリスト（記事を表示したくないフィード）
# 例: disabled_feeds = [2, 3]
disabled_feeds = []

[display]
# 日付のフォーマット（chrono形式）
# %Y: 年, %m: 月, %d: 日, %H: 時, %M: 分, %S: 秒
date_format = \"%Y-%m-%d\"

# フィードの説明を表示するか
show_description = true

[database]
# データベースファイルのパス
# ~ はホームディレクトリに展開されます
path = \"~/.rustfeed/rustfeed.db\"
";

impl AppConfig {
    /// Every value is at its default.
    pub open spec fn is_default(&self) -> bool {
        &&& self.general.default_limit == default_limit_value()
        &&& !self.general.show_unread_only
        &&& self.general.disabled_feeds@.len() == 0
        &&& self.display.date_format@ == default_date_format_text()
        &&& self.display.show_description
        &&& self.database.path@ == default_db_path_text()
    }

    /// The settings from a settings file, `None` when there is none: each
    /// value the file gives, and the default of each it leaves out.
    pub fn load(file: Option<ConfigFile>) -> (r: Self)
        ensures
            file is None ==> r.is_default(),
            file matches Some(f) ==> {
                &&& r.general.default_limit == match f.default_limit {
                    Some(v) => v,
                    None => default_limit_value(),
                }
                &&& r.general.show_unread_only == match f.show_unread_only {
                    Some(v) => v,
                    None => false,
                }
                &&& r.general.disabled_feeds@ == match f.disabled_feeds {
                    Some(v) => v@,
                    None => Seq::empty(),
                }
                &&& r.display.date_format@ == match f.date_format {
                    Some(v) => v@,
                    None => default_date_format_text(),
                }
                &&& r.display.show_description == match f.show_description {
                    Some(v) => v,
                    None => true,
                }
                &&& r.database.path@ == match f.path {
                    Some(v) => v@,
                    None => default_db_path_text(),
                }
            },
    {
        match file {
            None => AppConfig::default(),
            Some(f) => {
                let default_limit = match f.default_limit {
                    Some(v) => v,
                    None => default_limit(),
                };
                let show_unread_only = match f.show_unread_only {
                    Some(v) => v,
                    None => false,
                };
                let disabled_feeds = match f.disabled_feeds {
                    Some(v) => v,
                    None => Vec::new(),
                };
                let date_format = match f.date_format {
                    Some(v) => v,
                    None => default_date_format(),
                };
                let show_description = match f.show_description {
                    Some(v) => v,
                    None => default_true(),
                };
                let path = match f.path {
                    Some(v) => v,
                    None => default_db_path(),
                };
                AppConfig {
                    general: GeneralConfig { default_limit, show_unread_only, disabled_feeds },
                    display: DisplayConfig { date_format, show_description },
                    database: DatabaseConfig { path },
                }
            },
        }
    }

    /// The text of the sample settings file.
    pub fn sample_config() -> (r: &'static str)
        ensures
            r@ == SAMPLE_CONFIG@,
    {
        SAMPLE_CONFIG
    }
}

} // verus!
