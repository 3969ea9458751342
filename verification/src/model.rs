//! The domain records the client returns, and their decoding from
//! the server's JSON payloads.

pub mod list_posts;
pub mod post;
pub mod scraped_post;
pub mod scraped_user;
pub mod user;

pub use self::list_posts::ListPostsPost;
pub use self::list_posts::Thumbnail;
pub use self::post::File as PostFile;
pub use self::post::Post;
pub use self::scraped_post::File as ScrapedPostFile;
pub use self::scraped_post::ScrapedPost;
pub use self::scraped_user::FromHtmlError as InvalidScrapedUserError;
pub use self::scraped_user::ScrapedUser;
pub use self::user::User;

use vstd::prelude::*;

verus! {

/// One file update of a bulk file update: a file id and its new,
/// non-empty description.
#[derive(Debug, Clone)]
pub struct FileUpdate {
    /// The file id.
    pub id: String,
    /// The file description. The server treats it as required.
    pub description: String,
}

} // verus!
