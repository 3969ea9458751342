//! A verified client core for an image-hosting service.
//!
//! The crate holds the decision logic of the client: the per-minute
//! request governor, the session token state, the permissive JSON
//! decoding of API responses, the extraction of records from scraped
//! HTML pages, and the validation and building of outbound requests.
//! Network transport and asynchronous plumbing live outside of it and
//! hand plain values in and out.

pub mod builder;
pub mod cli;
pub mod codec;
pub mod date;
pub mod json;
pub mod model;
pub mod ops;
pub mod rate;
pub mod scrape;
pub mod session;
pub mod text;

pub use crate::builder::CreatePostBuilder;
pub use crate::builder::ListPostsBuilder;
pub use crate::builder::PostPrivacy;
pub use crate::builder::SortOrder;
pub use crate::builder::UpdatePostBuilder;
pub use crate::builder::UploadPostFile;
pub use crate::model::FileUpdate;
pub use crate::model::ListPostsPost;
pub use crate::model::Post;
pub use crate::model::PostFile;
pub use crate::model::ScrapedPost;
pub use crate::model::ScrapedPostFile;
pub use crate::model::ScrapedUser;
pub use crate::model::User;
pub use crate::rate::RatelimitState;
pub use crate::session::Session;

use vstd::prelude::*;

verus! {

/// The closed error taxonomy of the client.
///
/// Validation failures are raised before any network effect occurs;
/// decode and extraction failures carry enough context to be
/// actionable.
#[derive(Debug)]
pub enum Error {
    /// The underlying request or response failed: connection,
    /// timeout, or a non-2xx status.
    Transport { message: String },
    /// An authenticated operation was attempted with no credentials
    /// set.
    MissingToken,
    /// A post title shorter than three characters was given.
    TitleTooShort,
    /// A post creation or image addition held no file.
    MissingImages,
    /// A file update held an empty description.
    MissingDescription,
    /// The server reported a failed success envelope on an otherwise
    /// successful exchange.
    ApiOperationFailed,
    /// A toggle-style operation's response held no message.
    ApiResponseMissingMessage,
    /// A toggle-style operation's response held an unrecognized
    /// message, carried here.
    ApiResponseUnknownMessage { message: String },
    /// A JSON body was not valid JSON at all.
    InvalidJson(JsonError),
    /// A JSON body did not match the expected schema; the failing
    /// field is named.
    Decode(crate::codec::DecodeError),
    /// HTML scraping failed; the missing element or attribute, or
    /// the failing embedded payload, is named.
    Extraction(crate::model::scraped_user::FromHtmlError),
    /// The worker that runs a CPU-bound parse did not run to
    /// completion.
    ExtractionWorkerFailure,
}

/// An error kind of the JSON text parser.
#[derive(Debug, Clone, Copy, PartialEq, Eq, Structural)]
pub enum JsonErrorKind {
    /// A value was expected and something else was found.
    ExpectedValue,
    /// A string escape sequence was malformed.
    BadEscape,
    /// A number was malformed.
    BadNumber,
    /// A string was not terminated before the end of the input.
    UnterminatedString,
    /// `true`, `false` or `null` was started but not completed.
    BadLiteral,
    /// An object or array was malformed.
    BadStructure,
    /// Input remained after the first complete value.
    TrailingData,
}

/// An error of the JSON text parser, with the character position at
/// which parsing stopped.
#[derive(Debug, Clone, Copy, PartialEq, Eq, Structural)]
pub struct JsonError {
    pub pos: usize,
    pub kind: JsonErrorKind,
}

} // verus!
