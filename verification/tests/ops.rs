//! The operation layer: pre-send validation order, the listing
//! query string, the bulk update body, and response interpretation.

use imgchest::builder::CreatePostBuilder;
use imgchest::builder::ListPostsBuilder;
use imgchest::builder::PostPrivacy;
use imgchest::builder::SortOrder;
use imgchest::builder::UpdatePostBuilder;
use imgchest::builder::UploadPostFile;
use imgchest::model::FileUpdate;
use imgchest::ops::api_favorite_url;
use imgchest::ops::begin_add_post_images;
use imgchest::ops::begin_create_post;
use imgchest::ops::begin_update_file;
use imgchest::ops::begin_update_files_bulk;
use imgchest::ops::begin_update_post;
use imgchest::ops::api_post_url;
use imgchest::ops::add_post_images_form;
use imgchest::ops::completed_from_body;
use imgchest::ops::create_post_form;
use imgchest::ops::favorite_from_body;
use imgchest::ops::list_posts_query;
use imgchest::ops::list_posts_url;
use imgchest::ops::update_file_form;
use imgchest::ops::update_files_bulk_body;
use imgchest::ops::update_post_form;
use imgchest::Error;

fn s(text: &str) -> String {
    String::from(text)
}

#[test]
fn create_post_checks_the_title_before_the_images() {
    // A two-character title and zero images fail on the title, and
    // the check happens before anything could be sent.
    let mut b = CreatePostBuilder::new();
    b.title(s("ab"));
    assert!(matches!(create_post_form(b), Err(Error::TitleTooShort)));
    // A valid title with zero images fails on the images.
    let mut b = CreatePostBuilder::new();
    b.title(s("a fine title"));
    assert!(matches!(create_post_form(b), Err(Error::MissingImages)));
}

#[test]
fn validation_precedes_authentication() {
    // An invalid request fails on its own terms even when no
    // credentials are set; the missing token is reported only for a
    // request that would otherwise go out.
    let mut b = CreatePostBuilder::new();
    b.title(s("ab"));
    assert!(matches!(
        begin_create_post(None, b),
        Err(Error::TitleTooShort)
    ));
    let mut b = CreatePostBuilder::new();
    b.image(UploadPostFile::from_bytes("a.png", vec![1]));
    assert!(matches!(
        begin_create_post(None, b),
        Err(Error::MissingToken)
    ));
    let mut b = CreatePostBuilder::new();
    b.image(UploadPostFile::from_bytes("a.png", vec![1]));
    let (token, pairs, images) = begin_create_post(Some(s("tok")), b).unwrap();
    assert_eq!(token, "tok");
    assert!(pairs.is_empty());
    assert_eq!(images.len(), 1);

    let mut b = UpdatePostBuilder::new();
    b.title(s("ab"));
    assert!(matches!(
        begin_update_post(None, b),
        Err(Error::TitleTooShort)
    ));
    assert!(matches!(
        begin_update_file(None, ""),
        Err(Error::MissingDescription)
    ));
    assert!(matches!(
        begin_update_file(None, "fine"),
        Err(Error::MissingToken)
    ));
    assert!(matches!(
        begin_add_post_images(None, vec![]),
        Err(Error::MissingImages)
    ));
    let bad = vec![FileUpdate { id: s("a"), description: s("") }];
    assert!(matches!(
        begin_update_files_bulk(None, &bad),
        Err(Error::MissingDescription)
    ));
    let good = vec![FileUpdate { id: s("a"), description: s("d") }];
    assert!(matches!(
        begin_update_files_bulk(None, &good),
        Err(Error::MissingToken)
    ));
    let (token, body) = begin_update_files_bulk(Some(s("tok")), &good).unwrap();
    assert_eq!(token, "tok");
    assert_eq!(body, r#"{"data":[{"id":"a","description":"d"}]}"#);
}

#[test]
fn create_post_builds_the_text_fields_in_wire_order() {
    let mut b = CreatePostBuilder::new();
    b.title(s("my title"));
    b.privacy(PostPrivacy::Hidden);
    b.anonymous(true);
    b.nsfw(false);
    b.image(UploadPostFile::from_bytes("a.png", vec![1, 2, 3]));
    let (pairs, images) = create_post_form(b).unwrap();
    let view: Vec<(&str, &str)> = pairs
        .iter()
        .map(|p| (p.0.as_str(), p.1.as_str()))
        .collect();
    assert_eq!(
        view,
        vec![
            ("title", "my title"),
            ("privacy", "hidden"),
            ("anonymous", "true"),
            ("nsfw", "false"),
        ]
    );
    assert_eq!(images.len(), 1);
    assert_eq!(images[0].file_name, "a.png");
}

#[test]
fn create_post_without_title_omits_the_field() {
    let mut b = CreatePostBuilder::new();
    b.image(UploadPostFile::from_bytes("a.png", vec![0]));
    let (pairs, _) = create_post_form(b).unwrap();
    assert!(pairs.is_empty());
}

#[test]
fn update_post_validates_the_title_and_builds_pairs() {
    let mut b = UpdatePostBuilder::new();
    b.title(s("ab"));
    assert!(matches!(update_post_form(b), Err(Error::TitleTooShort)));
    let mut b = UpdatePostBuilder::new();
    b.title(s("longer"));
    b.nsfw(true);
    let pairs = update_post_form(b).unwrap();
    let view: Vec<(&str, &str)> = pairs
        .iter()
        .map(|p| (p.0.as_str(), p.1.as_str()))
        .collect();
    assert_eq!(view, vec![("title", "longer"), ("nsfw", "true")]);
}

#[test]
fn add_images_requires_at_least_one_file() {
    assert!(matches!(
        add_post_images_form(vec![]),
        Err(Error::MissingImages)
    ));
    let kept =
        add_post_images_form(vec![UploadPostFile::from_bytes("b.png", vec![9])]).unwrap();
    assert_eq!(kept.len(), 1);
}

#[test]
fn update_file_requires_a_description() {
    assert!(matches!(update_file_form(""), Err(Error::MissingDescription)));
    let pairs = update_file_form("a description").unwrap();
    assert_eq!(pairs.len(), 1);
    assert_eq!(pairs[0].0, "description");
    assert_eq!(pairs[0].1, "a description");
}

#[test]
fn bulk_update_rejects_a_single_empty_description() {
    let files = vec![
        FileUpdate { id: s("a"), description: s("fine") },
        FileUpdate { id: s("b"), description: s("") },
    ];
    assert!(matches!(
        update_files_bulk_body(&files),
        Err(Error::MissingDescription)
    ));
}

#[test]
fn bulk_update_builds_the_json_body() {
    let files = vec![
        FileUpdate { id: s("a1"), description: s("first") },
        FileUpdate { id: s("b\"2"), description: s("second") },
    ];
    let body = update_files_bulk_body(&files).unwrap();
    assert_eq!(
        body,
        r#"{"data":[{"id":"a1","description":"first"},{"id":"b\"2","description":"second"}]}"#
    );
}

#[test]
fn listing_query_lays_parameters_out_in_order() {
    // Page 2, sort new, username alice: exactly this query, and no
    // profile parameter when profile is false.
    let mut b = ListPostsBuilder::new();
    b.sort(SortOrder::New);
    b.page(2);
    b.username(s("alice"));
    b.profile(false);
    assert_eq!(list_posts_query(&b), "sort=new&page=2&username=alice");
    assert_eq!(
        list_posts_url(&b),
        "https://imgchest.com/api/posts?sort=new&page=2&username=alice"
    );
}

#[test]
fn listing_query_defaults_and_profile_flag() {
    let b = ListPostsBuilder::new();
    assert_eq!(list_posts_query(&b), "sort=popular&page=1");
    let mut b = ListPostsBuilder::new();
    b.sort(SortOrder::Old);
    b.profile(true);
    assert_eq!(list_posts_query(&b), "sort=old&page=1&profile=true");
}

#[test]
fn listing_query_escapes_the_username() {
    let mut b = ListPostsBuilder::new();
    b.username(s("a b"));
    assert_eq!(list_posts_query(&b), "sort=popular&page=1&username=a+b");
    let mut b = ListPostsBuilder::new();
    b.username(s("émile/x"));
    assert_eq!(
        list_posts_query(&b),
        "sort=popular&page=1&username=%C3%A9mile%2Fx"
    );
}

#[test]
fn listing_query_keeps_unreserved_bytes() {
    let mut b = ListPostsBuilder::new();
    b.username(s("A-z_0.9*"));
    assert_eq!(
        list_posts_query(&b),
        "sort=popular&page=1&username=A-z_0.9*"
    );
    let mut b = ListPostsBuilder::new();
    b.username(s("a+b"));
    assert_eq!(list_posts_query(&b), "sort=popular&page=1&username=a%2Bb");
}

#[test]
fn bulk_update_escapes_control_characters() {
    let files = vec![FileUpdate { id: s("a"), description: s("line\nbreak") }];
    let body = update_files_bulk_body(&files).unwrap();
    assert_eq!(body, "{\"data\":[{\"id\":\"a\",\"description\":\"line\\nbreak\"}]}");
}

#[test]
fn success_field_must_be_textual() {
    // The envelope writes its success flag as a string; a native
    // boolean does not decode.
    match completed_from_body(r#"{"success":true}"#) {
        Err(Error::Decode(e)) => assert_eq!(e.field, "success"),
        other => panic!("expected a decode error, got {other:?}"),
    }
}

#[test]
fn endpoint_urls() {
    assert_eq!(api_post_url("p1"), "https://api.imgchest.com/v1/post/p1");
    assert_eq!(
        api_favorite_url("p1"),
        "https://api.imgchest.com/v1/post/p1/favorite"
    );
}

#[test]
fn favorite_added_yields_true() {
    let r = favorite_from_body(r#"{"success":"true","message":"Favorite added."}"#);
    assert_eq!(r.unwrap(), true);
}

#[test]
fn favorite_removed_yields_false() {
    let r = favorite_from_body(r#"{"success":"true","message":"Favorite removed."}"#);
    assert_eq!(r.unwrap(), false);
}

#[test]
fn favorite_unknown_message_is_carried() {
    let r = favorite_from_body(r#"{"success":"true","message":"Something else."}"#);
    match r {
        Err(Error::ApiResponseUnknownMessage { message }) => {
            assert_eq!(message, "Something else.");
        }
        other => panic!("expected an unknown-message error, got {other:?}"),
    }
}

#[test]
fn favorite_without_message_fails() {
    let r = favorite_from_body(r#"{"success":"true"}"#);
    assert!(matches!(r, Err(Error::ApiResponseMissingMessage)));
}

#[test]
fn false_success_fails_even_on_http_success() {
    let r = completed_from_body(r#"{"success":"false","message":"nope"}"#);
    assert!(matches!(r, Err(Error::ApiOperationFailed)));
    let r = favorite_from_body(r#"{"success":"false"}"#);
    assert!(matches!(r, Err(Error::ApiOperationFailed)));
}

#[test]
fn completed_envelope_returns_the_message() {
    let r = completed_from_body(r#"{"success":"true","message":"done"}"#).unwrap();
    assert_eq!(r, Some(s("done")));
    let r = completed_from_body(r#"{"success":"true"}"#).unwrap();
    assert_eq!(r, None);
}

#[test]
fn completed_envelope_decode_errors_name_the_field() {
    match completed_from_body(r#"{"message":"x"}"#) {
        Err(Error::Decode(e)) => assert_eq!(e.field, "success"),
        other => panic!("expected a decode error, got {other:?}"),
    }
    assert!(matches!(
        completed_from_body("not json"),
        Err(Error::InvalidJson(_))
    ));
}
