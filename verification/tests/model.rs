//! Decoding of the domain records from whole response bodies.

use imgchest::date::parse_iso8601;
use imgchest::date::parse_mdy_date;
use imgchest::date::DateTime;
use imgchest::json::JsonValue;
use imgchest::ops::file_from_body;
use imgchest::ops::list_posts_from_body;
use imgchest::ops::post_from_body;
use imgchest::ops::user_from_body;
use imgchest::Error;

fn s(text: &str) -> String {
    String::from(text)
}

fn image(id: &str, description: &str, link: &str, position: u32) -> String {
    format!(
        r#"{{"id":"{id}","description":"{description}","link":"{link}","position":{position},"created":"2019-11-03T00:36:00.000000Z"}}"#
    )
}

#[test]
fn get_post() {
    // The fields of a well-known post decode exactly.
    let body = format!(
        r#"{{"data":{{"id":"3qe4gdvj4j2","title":"Donkey Kong - Video Game From The Mid 80's","username":"LunarLandr","privacy":"public","report_status":1,"views":198,"nsfw":0,"image_count":4,"created":"2019-11-03T00:36:00.000000Z","images":[{},{},{},{}]}}}}"#,
        image(
            "nw7w6cmlvye",
            "Released in the arcades in 1981, Donkey Kong",
            "https://cdn.imgchest.com/files/nw7w6cmlvye.png",
            1
        ),
        image(
            "kwye3cpag4b",
            "amstrad - apple ii",
            "https://cdn.imgchest.com/files/kwye3cpag4b.png",
            2
        ),
        image("5g4z9c8ok72", "", "https://cdn.imgchest.com/files/5g4z9c8ok72.png", 3),
        image("we4gdcv5j4r", "", "https://cdn.imgchest.com/files/we4gdcv5j4r.jpg", 4),
    );
    let post = post_from_body(&body).expect("failed to decode post");
    assert!(post.id == "3qe4gdvj4j2");
    assert!(post.title == "Donkey Kong - Video Game From The Mid 80's");
    assert!(post.username == "LunarLandr");
    assert!(post.views >= 198);
    assert!(post.image_count == 4);
    assert_eq!(
        post.created,
        DateTime { year: 2019, month: 11, day: 3, hour: 0, minute: 36, second: 0, offset_minutes: 0 }
    );

    assert!(post.images[0].id == "nw7w6cmlvye");
    assert!(post.images[0]
        .description
        .as_ref()
        .expect("missing description")
        .starts_with("Released in the arcades in 1981, Donkey Kong"));
    assert!(post.images[0].link == "https://cdn.imgchest.com/files/nw7w6cmlvye.png");
    assert!(post.images[0].position == 1);

    assert!(post.images[1].id == "kwye3cpag4b");
    assert!(post.images[2].id == "5g4z9c8ok72");
    // An empty description decodes to "absent".
    assert!(post.images[2].description.is_none());
    assert!(post.images[3].id == "we4gdcv5j4r");
    assert!(post.images[3].link == "https://cdn.imgchest.com/files/we4gdcv5j4r.jpg");
    assert!(post.delete_url.is_none());
}

#[test]
fn post_decode_failure_names_the_field() {
    let body = r#"{"data":{"id":"x","title":"t","username":"u","privacy":"public","report_status":0,"views":"many","nsfw":0,"image_count":0,"created":"2019-11-03T00:36:00.000000Z","images":[]}}"#;
    match post_from_body(body) {
        Err(Error::Decode(e)) => assert_eq!(e.field, "views"),
        other => panic!("expected a decode error, got {other:?}"),
    }
}

#[test]
fn post_bad_date_is_attributed() {
    let body = r#"{"data":{"id":"x","title":"t","username":"u","privacy":"public","report_status":0,"views":1,"nsfw":0,"image_count":0,"created":"2019-13-03T00:36:00.000000Z","images":[]}}"#;
    match post_from_body(body) {
        Err(Error::Decode(e)) => assert_eq!(e.field, "created"),
        other => panic!("expected a decode error, got {other:?}"),
    }
}

#[test]
fn file_positions_must_be_positive() {
    let body = r#"{"data":{"id":"f1","description":"d","link":"l","position":0,"created":"2019-11-03T00:36:00.000000Z"}}"#;
    match file_from_body(body) {
        Err(Error::Decode(e)) => assert_eq!(e.field, "position"),
        other => panic!("expected a decode error, got {other:?}"),
    }
    let body = r#"{"data":{"id":"f1","description":"d","link":"l","position":3,"created":"2019-11-03T00:36:00.000000Z","original_name":"orig.png"}}"#;
    let f = file_from_body(body).unwrap();
    assert_eq!(f.position, 3);
    assert_eq!(f.original_name, Some(s("orig.png")));
}

#[test]
fn listing_rows_accept_both_numeric_encodings() {
    let body = r#"{"data":[
        {"id":"p1","title":"t1","slug":"s1","link":"l1","nsfw":0,"score":"42","comments":"7","views":100,
         "thumbnail":{"id":"th1","description":null,"link":"tl1","zzz":true},
         "something_new":{"nested":[1]}},
        {"id":"p2","title":"t2","slug":"s2","link":"l2","nsfw":1,"score":-3,"comments":9,"views":5,
         "thumbnail":{"id":"th2","description":"d","link":"tl2"}}
    ]}"#;
    let posts = list_posts_from_body(body).unwrap();
    assert_eq!(posts.len(), 2);
    assert_eq!(posts[0].score, 42);
    assert_eq!(posts[0].comments, 7);
    assert_eq!(posts[0].nsfw, false);
    assert_eq!(posts[0].thumbnail.description, None);
    // Unknown members are preserved opaquely, in order.
    assert_eq!(posts[0].extra.len(), 1);
    assert_eq!(posts[0].extra[0].0, "something_new");
    assert_eq!(posts[0].thumbnail.extra.len(), 1);
    assert_eq!(posts[0].thumbnail.extra[0].0, "zzz");
    assert_eq!(posts[0].thumbnail.extra[0].1, JsonValue::Bool(true));
    assert_eq!(posts[1].score, -3);
    assert_eq!(posts[1].nsfw, true);
    assert_eq!(posts[1].extra.len(), 0);
}

#[test]
fn listing_row_bad_boolean_names_the_value() {
    let body = r#"{"data":[{"id":"p1","title":"t1","slug":"s1","link":"l1","nsfw":2,"score":1,"comments":1,"views":1,"thumbnail":{"id":"t","description":null,"link":"l"}}]}"#;
    match list_posts_from_body(body) {
        Err(Error::Decode(e)) => {
            assert_eq!(e.field, "nsfw");
            assert_eq!(
                e.kind,
                imgchest::codec::DecodeErrorKind::BadBoolBit { value: 2 }
            );
        }
        other => panic!("expected a decode error, got {other:?}"),
    }
}

#[test]
fn user_decodes() {
    let body = r#"{"data":{"name":"alice","created":"2020-01-15T08:30:00Z"}}"#;
    let u = user_from_body(body).unwrap();
    assert_eq!(u.name, "alice");
    assert_eq!(
        u.created,
        DateTime { year: 2020, month: 1, day: 15, hour: 8, minute: 30, second: 0, offset_minutes: 0 }
    );
}

#[test]
fn bulk_update_response_decodes_files() {
    let body = r#"{"data":[{"id":"f1","description":"d1","link":"l1","position":1,"created":"2019-11-03T00:36:00.000000Z"},{"id":"f2","description":"","link":"l2","position":2,"created":"2019-11-03T00:36:00.000000Z"}]}"#;
    let files = imgchest::ops::files_from_body(body).unwrap();
    assert_eq!(files.len(), 2);
    assert_eq!(files[0].id, "f1");
    assert_eq!(files[0].description.as_deref(), Some("d1"));
    assert_eq!(files[1].description, None);
}

#[test]
fn envelope_without_data_is_a_decode_error() {
    match post_from_body(r#"{"datum":1}"#) {
        Err(Error::Decode(e)) => assert_eq!(e.field, "data"),
        other => panic!("expected a decode error, got {other:?}"),
    }
}

#[test]
fn dates_validate_the_calendar() {
    assert!(parse_iso8601("2020-02-29T00:00:00Z").is_some());
    assert!(parse_iso8601("2019-02-29T00:00:00Z").is_none());
    assert!(parse_iso8601("2019-04-31T00:00:00Z").is_none());
    assert!(parse_iso8601("2019-11-03T00:36:00.000000Z").is_some());
    assert!(parse_iso8601("2019-11-03T24:00:00Z").is_none());
    assert!(parse_iso8601("2019-11-03 00:36:00Z").is_none());
    // Numeric offsets are read and kept.
    let d = parse_iso8601("2020-01-15T08:30:00+02:00").unwrap();
    assert_eq!(
        d,
        DateTime { year: 2020, month: 1, day: 15, hour: 8, minute: 30, second: 0, offset_minutes: 120 }
    );
    let d = parse_iso8601("2020-01-15T08:30:00.250-05:30").unwrap();
    assert_eq!(d.offset_minutes, -330);
    assert!(parse_iso8601("2020-01-15T08:30:00+24:00").is_none());
    assert!(parse_iso8601("2020-01-15T08:30:00+02:60").is_none());
    let d = parse_mdy_date("01/15/2020").unwrap();
    assert_eq!(
        d,
        DateTime { year: 2020, month: 1, day: 15, hour: 0, minute: 0, second: 0, offset_minutes: 0 }
    );
    assert!(parse_mdy_date("13/01/2020").is_none());
    assert!(parse_mdy_date("1/15/2020").is_none());
}
