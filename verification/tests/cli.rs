//! The command-line front end's pure logic: argument parsing helpers
//! and rendering.

use imgchest::cli::list_posts::OutputFormat;
use imgchest::cli::list_posts::SortOrder;
use imgchest::cli::list_posts::render_human;
use imgchest::cli::profile::extract_user;
use imgchest::cli::profile::render_profile;
use imgchest::cli::profile::PrettyFormatU64;
use imgchest::date::DateTime;
use imgchest::model::scraped_user::ScrapedUser;
use imgchest::ops::list_posts_from_body;

fn s(text: &str) -> String {
    String::from(text)
}

#[test]
fn output_format_from_str() {
    assert_eq!(OutputFormat::from_str("human"), Some(OutputFormat::Human));
    assert_eq!(OutputFormat::from_str("json"), Some(OutputFormat::Json));
    assert_eq!(OutputFormat::from_str("yaml"), None);
}

#[test]
fn sort_order_from_str_and_conversion() {
    assert_eq!(SortOrder::from_str("popular"), Some(SortOrder::Popular));
    assert_eq!(SortOrder::from_str("old"), Some(SortOrder::Old));
    assert_eq!(SortOrder::from_str("new"), Some(SortOrder::New));
    assert_eq!(SortOrder::from_str("best"), None);
    let lib: imgchest::builder::SortOrder = SortOrder::New.into();
    assert_eq!(lib, imgchest::builder::SortOrder::New);
}

#[test]
fn extract_user_takes_plain_names_as_names() {
    assert_eq!(extract_user(s("alice")).as_deref(), Some("alice"));
}

#[test]
fn extract_user_reads_profile_urls() {
    assert_eq!(
        extract_user(s("https://imgchest.com/u/alice")).as_deref(),
        Some("alice")
    );
    assert_eq!(
        extract_user(s("http://imgchest.com/u/bob")).as_deref(),
        Some("bob")
    );
    assert_eq!(
        extract_user(s("https://imgchest.com/u/alice/posts")).as_deref(),
        Some("alice")
    );
}

#[test]
fn extract_user_accepts_ports_and_other_schemes() {
    assert_eq!(
        extract_user(s("https://imgchest.com:8080/u/alice")).as_deref(),
        Some("alice")
    );
    assert_eq!(
        extract_user(s("ftp://imgchest.com/u/bob")).as_deref(),
        Some("bob")
    );
    // A port must be numeric.
    assert_eq!(extract_user(s("https://imgchest.com:8x/u/alice")), None);
}

#[test]
fn extract_user_rejects_foreign_urls() {
    assert_eq!(extract_user(s("https://example.com/u/alice")), None);
    assert_eq!(extract_user(s("https://imgchest.com/p/xyz")), None);
    assert_eq!(extract_user(s("https://imgchest.com/u/")), None);
}

#[test]
fn pretty_format_groups_thousands() {
    assert_eq!(PrettyFormatU64(0).to_display_string(), "0");
    assert_eq!(PrettyFormatU64(999).to_display_string(), "999");
    assert_eq!(PrettyFormatU64(1234).to_display_string(), "1,234");
    assert_eq!(PrettyFormatU64(1000000).to_display_string(), "1,000,000");
    assert_eq!(
        PrettyFormatU64(18446744073709551615).to_display_string(),
        "18,446,744,073,709,551,615"
    );
}

#[test]
fn renders_a_profile() {
    let u = ScrapedUser {
        name: s("alice"),
        posts: 2,
        comments: 3,
        created: DateTime { year: 2020, month: 1, day: 15, hour: 0, minute: 0, second: 0, offset_minutes: 0 },
        post_views: 1234,
        experience: 99,
        favorites: 7,
    };
    assert_eq!(
        render_profile(&u),
        "Name: alice\nJoined: 1/15/2020\nXP: 99\nPosts: 2\nComments: 3\nFavorites: 7\nPost Views: 1,234\n"
    );
}

#[test]
fn renders_a_human_listing() {
    let body = r#"{"data":[{"id":"p1","title":"A title","slug":"s","link":"l","nsfw":0,"score":"42","comments":"7","views":100,"thumbnail":{"id":"t","description":null,"link":"tl"}}]}"#;
    let posts = list_posts_from_body(body).unwrap();
    assert_eq!(
        render_human(&posts),
        "Id: p1\nTitle: A title\nNsfw: false\nScore: 42\nComments: 7\nViews: 100\n\n"
    );
    assert_eq!(render_human(&vec![]), "No results\n");
}

#[test]
fn listing_rows_re_encode_in_wire_form() {
    let body = r#"{"data":[{"id":"p1","title":"T","slug":"s","link":"l","nsfw":1,"score":-3,"comments":"7","views":100,"thumbnail":{"id":"t","description":null,"link":"tl"},"zzz":5}]}"#;
    let posts = list_posts_from_body(body).unwrap();
    let json = imgchest::model::list_posts::list_posts_to_json(posts);
    // Score and comments go out in their string form, the nsfw flag
    // as 0/1, and unknown members survive the round trip.
    assert_eq!(
        json,
        r#"[{"id":"p1","title":"T","slug":"s","link":"l","nsfw":1,"score":"-3","comments":"7","views":100,"thumbnail":{"id":"t","description":null,"link":"tl"},"zzz":5}]"#
    );
}
