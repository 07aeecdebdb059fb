//! Retrieves a user's upvoted items from a social-media platform's private
//! API, paginating through results lazily and normalizing heterogeneous
//! record shapes (posts vs. comments) into one uniform item type.
//!
//! The verified core is the demand-driven pagination and authentication
//! engine: it decides when to log in, when to fetch a page, how the cursor
//! evolves between pages, and how raw records are normalized. The actual
//! network calls are performed by an unverified driver that feeds their
//! outcomes back into the engine.

pub mod configs;
pub mod credentials;
pub mod items;
pub mod upvoted;

pub use configs::Config;
pub use configs::RedditConfig;
pub use credentials::RedditCredentials;
pub use items::UpvotedItem;
pub use upvoted::Upvotes;
