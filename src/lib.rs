//! A personal feed reader: the state machine of its terminal client, the
//! planning of a background refresh, and the small rules around them.
//!
//! Everything that touches a terminal, the network or the database is done
//! by the caller; this crate decides what to do and says so in its contracts.

pub mod nav;
pub mod model;
pub mod text;
pub mod refresh;
pub mod config;
pub mod keys;
pub mod app;
pub mod feed;
pub mod commands;
pub mod query;
pub mod export;
pub mod screen;

pub use app::{Action, App, ArticleQuery, Focus, Mode};
pub use config::{AppConfig, DatabaseConfig, DisplayConfig, GeneralConfig};
pub use keys::{Key, KeyInput};
pub use model::{Article, Feed};
pub use refresh::{FetchMessage, FetchResult, RefreshTask};
