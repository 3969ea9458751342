//! HTML extraction, running against the real HTML parser: failure
//! attribution and full scrapes of synthetic pages.

use imgchest::date::DateTime;
use imgchest::model::scraped_user::FromHtmlError;
use imgchest::scrape::extract_data_page;
use imgchest::scrape::extract_fragment_files;
use imgchest::scrape::scraped_post_from_html;
use imgchest::scrape::scraped_user_from_html;

const USER_PAGE: &str = r#"<!DOCTYPE html><html><body>
<div id="app" data-page='{"props":{"targetUser":{"username":"alice","post_count":2,"comment_count":3,"created_at":"01/15/2020","post_views":1234,"experience":99,"favorite_count":7}}}'></div>
</body></html>"#;

#[test]
fn scrapes_a_user_profile() {
    let u = scraped_user_from_html(USER_PAGE).expect("failed to scrape user");
    assert_eq!(u.name, "alice");
    assert_eq!(u.posts, 2);
    assert_eq!(u.comments, 3);
    assert_eq!(u.post_views, 1234);
    assert_eq!(u.experience, 99);
    assert_eq!(u.favorites, 7);
    // The creation instant is a day-precision estimate at midnight.
    assert_eq!(
        u.created,
        DateTime { year: 2020, month: 1, day: 15, hour: 0, minute: 0, second: 0, offset_minutes: 0 }
    );
}

#[test]
fn missing_container_is_named() {
    let html = "<html><body><p>nothing here</p></body></html>";
    match scraped_user_from_html(html) {
        Err(FromHtmlError::MissingElement(m)) => assert_eq!(m, "app div"),
        other => panic!("expected a missing-element error, got {other:?}"),
    }
    match extract_data_page(html) {
        Err(FromHtmlError::MissingElement(m)) => assert_eq!(m, "app div"),
        other => panic!("expected a missing-element error, got {other:?}"),
    }
}

#[test]
fn missing_attribute_is_named() {
    let html = r#"<html><body><div id="app"></div></body></html>"#;
    match scraped_user_from_html(html) {
        Err(FromHtmlError::MissingAttribute(m)) => assert_eq!(m, "data-page"),
        other => panic!("expected a missing-attribute error, got {other:?}"),
    }
}

#[test]
fn malformed_payload_wraps_the_json_error() {
    let html = r#"<html><body><div id="app" data-page='{"props": oops}'></div></body></html>"#;
    match scraped_user_from_html(html) {
        Err(FromHtmlError::InvalidDataPage(_)) => {}
        other => panic!("expected an invalid-payload error, got {other:?}"),
    }
}

#[test]
fn payload_with_missing_fields_is_attributed_to_its_shape() {
    let html = r#"<html><body><div id="app" data-page='{"props":{}}'></div></body></html>"#;
    match scraped_user_from_html(html) {
        Err(FromHtmlError::InvalidDataPageShape(e)) => assert_eq!(e.field, "targetUser"),
        other => panic!("expected a shape error, got {other:?}"),
    }
}

const POST_PAGE: &str = r#"<!DOCTYPE html><html><body>
<div id="app" data-page='{"props":{"csrf_token":"tok123","post":{"id":"pwl7lgepyx2","title":"PDN AGIF Issue #1","username":"Jacob","files":[{"id":"6yxkcz5ml7w","description":"Notice how inserting an AGIF is now supported","link":"https://cdn.imgchest.com/files/6yxkcz5ml7w.gif","video_link":"https://cdn.imgchest.com/files/6yxkcz5ml7w.mp4"}]}}}'></div>
</body></html>"#;

#[test]
fn scrapes_a_post() {
    let p = scraped_post_from_html(POST_PAGE).expect("failed to scrape post");
    assert_eq!(p.id, "pwl7lgepyx2");
    assert_eq!(p.title, "PDN AGIF Issue #1");
    assert_eq!(p.username, "Jacob");
    assert_eq!(p.token, "tok123");
    assert_eq!(p.files.len(), 1);
    assert_eq!(p.files[0].id, "6yxkcz5ml7w");
    assert_eq!(
        p.files[0].link,
        "https://cdn.imgchest.com/files/6yxkcz5ml7w.gif"
    );
    assert_eq!(
        p.files[0].video_link.as_deref(),
        Some("https://cdn.imgchest.com/files/6yxkcz5ml7w.mp4")
    );
}

#[test]
fn fragment_files_extract_in_order() {
    let fragment = r#"<div data-id="a1" data-link="https://x/a1.png" data-description="first"></div><div data-id="a2" data-link="https://x/a2.png" data-description=""></div>"#;
    let files = extract_fragment_files(fragment).expect("failed to extract fragment");
    assert_eq!(files.len(), 2);
    assert_eq!(files[0].id, "a1");
    assert_eq!(files[0].link, "https://x/a1.png");
    assert_eq!(files[0].description.as_deref(), Some("first"));
    assert_eq!(files[0].video_link, None);
    assert_eq!(files[1].id, "a2");
    // An empty description means "none".
    assert_eq!(files[1].description, None);
}

#[test]
fn fragment_failure_names_the_element_and_attribute() {
    let fragment =
        r#"<div data-id="a1" data-link="https://x/a1.png"></div><div data-id="a2"></div>"#;
    match extract_fragment_files(fragment) {
        Err(FromHtmlError::MissingFragmentAttribute { index, attribute }) => {
            assert_eq!(index, 1);
            assert_eq!(attribute, "data-link");
        }
        other => panic!("expected a fragment error, got {other:?}"),
    }
}

#[test]
fn empty_fragment_yields_no_files() {
    let files = extract_fragment_files("").expect("failed on the empty fragment");
    assert!(files.is_empty());
}
