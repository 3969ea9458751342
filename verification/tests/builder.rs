//! Builders and session state.

use imgchest::builder::CreatePostBuilder;
use imgchest::builder::ListPostsBuilder;
use imgchest::builder::PostPrivacy;
use imgchest::builder::SortOrder;
use imgchest::builder::UpdatePostBuilder;
use imgchest::builder::UploadPostFile;
use imgchest::session::Session;

fn s(text: &str) -> String {
    String::from(text)
}

#[test]
fn create_post_builder_accumulates() {
    let mut b = CreatePostBuilder::new();
    assert!(b.title.is_none());
    assert!(b.images.is_empty());
    b.title(s("hello there"));
    b.privacy(PostPrivacy::Public);
    b.anonymous(false);
    b.nsfw(true);
    b.image(UploadPostFile::from_bytes("x.png", vec![1]));
    b.image(UploadPostFile::from_bytes("y.png", vec![2]));
    assert_eq!(b.title.as_deref(), Some("hello there"));
    assert_eq!(b.privacy, Some(PostPrivacy::Public));
    assert_eq!(b.anonymous, Some(false));
    assert_eq!(b.nsfw, Some(true));
    assert_eq!(b.images.len(), 2);
    assert_eq!(b.images[0].file_name, "x.png");
    assert_eq!(b.images[1].file_name, "y.png");
}

#[test]
fn update_post_builder_defaults_to_no_change() {
    let b = UpdatePostBuilder::new();
    assert!(b.title.is_none() && b.privacy.is_none() && b.nsfw.is_none());
    let mut b = UpdatePostBuilder::default();
    b.privacy(PostPrivacy::Secret);
    assert_eq!(b.privacy, Some(PostPrivacy::Secret));
}

#[test]
fn list_posts_builder_defaults() {
    let b = ListPostsBuilder::new();
    assert_eq!(b.sort, SortOrder::Popular);
    assert_eq!(b.page, 1);
    assert!(b.username.is_none());
    assert!(!b.profile);
}

#[test]
fn privacy_words() {
    assert_eq!(PostPrivacy::Public.as_str(), "public");
    assert_eq!(PostPrivacy::Hidden.as_str(), "hidden");
    assert_eq!(PostPrivacy::Secret.as_str(), "secret");
}

#[test]
fn session_holds_the_token() {
    let mut session = Session::new();
    assert!(session.get_token().is_none());
    session.set_token(s("first"));
    assert_eq!(session.get_token().as_deref(), Some("first"));
    session.set_token(s("second"));
    assert_eq!(session.get_token().as_deref(), Some("second"));
}

#[test]
fn missing_token_fails_before_any_network_effect() {
    let session = Session::new();
    assert!(matches!(
        session.require_token(),
        Err(imgchest::Error::MissingToken)
    ));
    let mut session = Session::new();
    session.set_token(s("tok"));
    assert_eq!(session.require_token().unwrap(), "tok");
}

#[test]
fn upload_file_from_body_keeps_the_name() {
    let body = reqwest::Body::from(vec![1u8, 2, 3]);
    let f = UploadPostFile::from_body("from-body.png", body);
    assert_eq!(f.file_name, "from-body.png");
}
