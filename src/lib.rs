//! A request-scoped pipeline that reads a user profile and its post listing
//! from an upstream JSON API, drops what the reader's filters block, and
//! assembles the page that the renderer shows.
//!
//! The caller performs the upstream calls: [`ProfileFlow`] says which address
//! to fetch next and turns each outcome into the next step, so every
//! decision of a request is a plain function of the values handed in.

pub mod date;
pub mod filter;
pub mod json;
pub mod post;
pub mod query;
pub mod text;
pub mod user;

pub use date::{created_label, format_date};
pub use filter::{filter_posts, is_post_filtered, is_user_filtered, user_identifier, FilterSet};
pub use json::{field, integer_or, nearest_or, text_or, Json, JsonNumber, Member};
pub use post::{post_from_json, posts_from_listing, Post, PostView};
pub use query::param;
pub use text::{escape_html, format_url};
pub use user::{
    parse_user, posts_path, user_path, Action, FetchError, FetchErrorKind, ProfileFlow, Stage, User,
    UserPage, UserView,
};
