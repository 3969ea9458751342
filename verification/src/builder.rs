//! Builders for the requests a caller assembles before an operation
//! runs: creating a post, updating a post, and listing posts.

use vstd::prelude::*;

verus! {

/// The privacy of a post.
#[derive(Debug, Copy, Clone, Eq, PartialEq, Hash, Structural)]
pub enum PostPrivacy {
    Public,
    Hidden,
    Secret,
}

/// The wire word of a privacy value.
pub open spec fn spec_privacy_str(p: PostPrivacy) -> Seq<char> {
    match p {
        PostPrivacy::Public => "public"@,
        PostPrivacy::Hidden => "hidden"@,
        PostPrivacy::Secret => "secret"@,
    }
}

impl PostPrivacy {
    /// The word the server expects for this privacy value.
    pub fn as_str(self) -> (s: &'static str)
        ensures
            s@ == spec_privacy_str(self),
    {
        match self {
            PostPrivacy::Public => "public",
            PostPrivacy::Hidden => "hidden",
            PostPrivacy::Secret => "secret",
        }
    }
}

/// The declaration of the transport's request body type, so that an
/// upload can carry one opaquely.
#[verifier::external_type_specification]
#[verifier::external_body]
pub struct ExBody(reqwest::Body);

/// A post file that is meant for uploading.
#[derive(Debug)]
pub struct UploadPostFile {
    /// The file name.
    pub file_name: String,
    /// The file body.
    pub body: reqwest::Body,
}

impl UploadPostFile {
    /// Create this from a raw request body.
    pub fn from_body(file_name: &str, body: reqwest::Body) -> (r: Self)
        ensures
            r.file_name@ == file_name@,
            r.body == body,
    {
        UploadPostFile { file_name: String::from_str(file_name), body }
    }

    /// Create this from bytes.
    pub fn from_bytes(file_name: &str, file_data: Vec<u8>) -> (r: Self)
        ensures
            r.file_name@ == file_name@,
    {
        let body = body_from_bytes(file_data);
        UploadPostFile { file_name: String::from_str(file_name), body }
    }
}

/// Relies on `reqwest::Body: From<Vec<u8>>`: a complete request body
/// holding exactly the given bytes.
#[verifier::external_body]
fn body_from_bytes(data: Vec<u8>) -> reqwest::Body {
    reqwest::Body::from(data)
}

/// A builder for creating a post.
#[derive(Debug)]
pub struct CreatePostBuilder {
    /// The title of the post. If specified, it must be at least 3
    /// characters long.
    pub title: Option<String>,
    /// The post privacy. Defaults to hidden on the server.
    pub privacy: Option<PostPrivacy>,
    /// Whether the post should not be tied to the user.
    pub anonymous: Option<bool>,
    /// Whether this post is nsfw.
    pub nsfw: Option<bool>,
    /// The images of the post.
    pub images: Vec<UploadPostFile>,
}

impl CreatePostBuilder {
    /// Create a new builder.
    pub fn new() -> (r: Self)
        ensures
            r.title is None,
            r.privacy is None,
            r.anonymous is None,
            r.nsfw is None,
            r.images@.len() == 0,
    {
        CreatePostBuilder {
            title: None,
            privacy: None,
            anonymous: None,
            nsfw: None,
            images: Vec::new(),
        }
    }

    /// Set the title. It must be at least 3 characters long.
    pub fn title(&mut self, title: String)
        ensures
            final(self).title matches Some(t) && t@ == title@,
            final(self).privacy == old(self).privacy,
            final(self).anonymous == old(self).anonymous,
            final(self).nsfw == old(self).nsfw,
            final(self).images == old(self).images,
    {
        self.title = Some(title);
    }

    /// Set the post privacy.
    pub fn privacy(&mut self, privacy: PostPrivacy)
        ensures
            *final(self) == (CreatePostBuilder { privacy: Some(privacy), ..*old(self) }),
    {
        self.privacy = Some(privacy);
    }

    /// Set whether this post should be anonymous.
    pub fn anonymous(&mut self, anonymous: bool)
        ensures
            *final(self) == (CreatePostBuilder { anonymous: Some(anonymous), ..*old(self) }),
    {
        self.anonymous = Some(anonymous);
    }

    /// Set whether this post is nsfw.
    pub fn nsfw(&mut self, nsfw: bool)
        ensures
            *final(self) == (CreatePostBuilder { nsfw: Some(nsfw), ..*old(self) }),
    {
        self.nsfw = Some(nsfw);
    }

    /// Add a new image to this post.
    pub fn image(&mut self, file: UploadPostFile)
        ensures
            final(self).images@ == old(self).images@.push(file),
            final(self).title == old(self).title,
            final(self).privacy == old(self).privacy,
            final(self).anonymous == old(self).anonymous,
            final(self).nsfw == old(self).nsfw,
    {
        self.images.push(file);
    }
}

impl Default for CreatePostBuilder {
    fn default() -> (r: Self)
        ensures
            r.title is None && r.privacy is None && r.anonymous is None && r.nsfw is None
                && r.images@.len() == 0,
    {
        Self::new()
    }
}

/// A builder for updating a post.
#[derive(Debug, Clone)]
pub struct UpdatePostBuilder {
    /// The title. If specified, it must be at least 3 characters
    /// long.
    pub title: Option<String>,
    /// The post privacy.
    pub privacy: Option<PostPrivacy>,
    /// Whether the post is nsfw.
    pub nsfw: Option<bool>,
}

impl UpdatePostBuilder {
    /// Create an empty post update.
    pub fn new() -> (r: Self)
        ensures
            r.title is None,
            r.privacy is None,
            r.nsfw is None,
    {
        UpdatePostBuilder { title: None, privacy: None, nsfw: None }
    }

    /// Update the title. It must be at least 3 characters long.
    pub fn title(&mut self, title: String)
        ensures
            final(self).title matches Some(t) && t@ == title@,
            final(self).privacy == old(self).privacy,
            final(self).nsfw == old(self).nsfw,
    {
        self.title = Some(title);
    }

    /// Update the privacy.
    pub fn privacy(&mut self, privacy: PostPrivacy)
        ensures
            *final(self) == (UpdatePostBuilder { privacy: Some(privacy), ..*old(self) }),
    {
        self.privacy = Some(privacy);
    }

    /// Update the nsfw flag.
    pub fn nsfw(&mut self, nsfw: bool)
        ensures
            *final(self) == (UpdatePostBuilder { nsfw: Some(nsfw), ..*old(self) }),
    {
        self.nsfw = Some(nsfw);
    }
}

impl Default for UpdatePostBuilder {
    fn default() -> (r: Self)
        ensures
            r.title is None && r.privacy is None && r.nsfw is None,
    {
        Self::new()
    }
}

/// Sort order of a post listing.
#[derive(Debug, Copy, Clone, Eq, PartialEq, Hash, Structural)]
pub enum SortOrder {
    /// Sort by the most popular posts.
    Popular,
    /// Sort by the newest posts.
    New,
    /// Sort by the oldest posts.
    Old,
}

/// A builder for listing posts.
#[derive(Debug, Clone)]
pub struct ListPostsBuilder {
    /// How posts should be sorted. Defaults to popular.
    pub sort: SortOrder,
    /// The page to get. Starts at 1.
    pub page: u64,
    /// The username to filter posts by.
    pub username: Option<String>,
    /// Whether to list posts from the current user.
    pub profile: bool,
}

impl ListPostsBuilder {
    /// Make a new builder.
    pub fn new() -> (r: Self)
        ensures
            r.sort == SortOrder::Popular,
            r.page == 1,
            r.username is None,
            r.profile == false,
    {
        ListPostsBuilder { sort: SortOrder::Popular, page: 1, username: None, profile: false }
    }

    /// Set how posts should be sorted.
    pub fn sort(&mut self, sort: SortOrder)
        ensures
            *final(self) == (ListPostsBuilder { sort, ..*old(self) }),
    {
        self.sort = sort;
    }

    /// Set the page to get. Starts at 1.
    pub fn page(&mut self, page: u64)
        ensures
            *final(self) == (ListPostsBuilder { page, ..*old(self) }),
    {
        self.page = page;
    }

    /// Set the username to filter by.
    pub fn username(&mut self, username: String)
        ensures
            final(self).username matches Some(u) && u@ == username@,
            final(self).sort == old(self).sort,
            final(self).page == old(self).page,
            final(self).profile == old(self).profile,
    {
        self.username = Some(username);
    }

    /// Set whether to list posts from the current user.
    pub fn profile(&mut self, profile: bool)
        ensures
            *final(self) == (ListPostsBuilder { profile, ..*old(self) }),
    {
        self.profile = profile;
    }
}

impl Default for ListPostsBuilder {
    fn default() -> (r: Self)
        ensures
            r.sort == SortOrder::Popular && r.page == 1 && r.username is None && r.profile
                == false,
    {
        Self::new()
    }
}

} // verus!
