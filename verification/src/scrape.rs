//! HTML extraction: locating the embedded data-page payload of a
//! scraped page, and reading the file records of a loaded HTML
//! fragment.
//!
//! All DOM and attribute names live here, so a page-layout change
//! touches one module. Extraction is best-effort and every failure
//! names the element or attribute that was missing.

use crate::json::parse_json;
use crate::model::scraped_post::scraped_post_from_data_page;
use crate::model::scraped_post::File as ScrapedPostFile;
use crate::model::scraped_post::ScrapedPost;
use crate::model::scraped_user::scraped_user_from_data_page;
use crate::model::scraped_user::FromHtmlError;
use crate::model::scraped_user::ScrapedUser;
use vstd::prelude::*;

verus! {

/// The view of a doubly optional attribute lookup.
pub open spec fn view_opt_opt(r: Option<Option<String>>) -> Option<Option<Seq<char>>> {
    match r {
        Some(Some(s)) => Some(Some(s@)),
        Some(None) => Some(None),
        None => None,
    }
}

/// What the document holds at the first match of a selector: `None`
/// when no element matches, `Some(None)` when the matched element
/// lacks the attribute, and `Some(Some(value))` otherwise. The
/// result depends on the document text, the selector and the
/// attribute name alone.
pub uninterp spec fn first_attr_in_doc(
    html: Seq<char>,
    selector: Seq<char>,
    attr: Seq<char>,
) -> Option<Option<Seq<char>>>;

/// Relies on `scraper::Html::parse_document`,
/// `scraper::Selector::parse`, `scraper::Html::select` and
/// `scraper::ElementRef::attr`: parse the document, take the first
/// element the selector matches, and read the named attribute from
/// it. An invalid selector matches nothing.
#[verifier::external_body]
fn select_first_attr(html: &str, selector: &str, attr: &str) -> (r: Option<Option<String>>)
    ensures
        view_opt_opt(r) == first_attr_in_doc(html@, selector@, attr@),
{
    let doc = scraper::Html::parse_document(html);
    let sel = match scraper::Selector::parse(selector) {
        Ok(sel) => sel,
        Err(_) => return None,
    };
    match doc.select(&sel).next() {
        Some(el) => Some(el.attr(attr).map(|value| value.to_string())),
        None => None,
    }
}

/// How many top-level elements a fragment holds. The result depends
/// on the fragment text alone.
pub uninterp spec fn fragment_element_count(fragment: Seq<char>) -> nat;

/// The named attribute of each top-level element of a fragment, in
/// order. The result depends on the fragment text and the attribute
/// name alone.
pub uninterp spec fn fragment_attrs(fragment: Seq<char>, attr: Seq<char>) -> Seq<Option<Seq<char>>>;

/// The view of a vector of optional attribute values.
pub open spec fn view_opt_strs(r: Seq<Option<String>>) -> Seq<Option<Seq<char>>> {
    r.map_values(
        |o: Option<String>|
            match o {
                Some(s) => Some(s@),
                None => None,
            },
    )
}

/// Relies on `scraper::Html::parse_fragment`,
/// `scraper::Html::root_element`, `scraper::ElementRef::child_elements`
/// and `scraper::ElementRef::attr`: for each top-level element of
/// the fragment, in order, the value of the named attribute. One
/// entry is returned per top-level element, whatever the attribute.
#[verifier::external_body]
fn fragment_top_attrs(fragment: &str, attr: &str) -> (r: Vec<Option<String>>)
    ensures
        view_opt_strs(r@) == fragment_attrs(fragment@, attr@),
        r@.len() == fragment_element_count(fragment@),
{
    let doc = scraper::Html::parse_fragment(fragment);
    doc.root_element().child_elements().map(
        |el| el.attr(attr).map(|value| value.to_string()),
    ).collect()
}

/// Find the data-page payload of a scraped page: the `data-page`
/// attribute of the unique `#app` container.
pub fn extract_data_page(html: &str) -> (r: Result<String, FromHtmlError>)
    ensures
        first_attr_in_doc(html@, "#app"@, "data-page"@) is None ==> (r matches Err(e) && e
            matches FromHtmlError::MissingElement(m) && m@ == "app div"@),
        first_attr_in_doc(html@, "#app"@, "data-page"@) matches Some(a) ==> (a is None ==> (r
            matches Err(e) && e matches FromHtmlError::MissingAttribute(m) && m@ == "data-page"@)),
        first_attr_in_doc(html@, "#app"@, "data-page"@) matches Some(a) ==> (a matches Some(p)
            ==> (r matches Ok(s) && s@ == p)),
{
    match select_first_attr(html, "#app", "data-page") {
        Some(a) => match a {
            Some(p) => Ok(p),
            None => Err(FromHtmlError::MissingAttribute(String::from_str("data-page"))),
        },
        None => Err(FromHtmlError::MissingElement(String::from_str("app div"))),
    }
}

/// Scrape a user's public profile from a profile page.
///
/// A failure is attributed precisely: a missing container names the
/// container, a missing attribute names the attribute, and only
/// with both present can the payload itself be at fault — and a
/// payload the parser's contract pins as parseable is never blamed
/// on the parse.
pub fn scraped_user_from_html(html: &str) -> (r: Result<ScrapedUser, FromHtmlError>)
    ensures
        first_attr_in_doc(html@, "#app"@, "data-page"@) matches Some(a) ==> (a matches Some(p)
            ==> (p.len() == 0 ==> (r matches Err(e) && e matches FromHtmlError::InvalidDataPage(
                _,
            )))),
        first_attr_in_doc(html@, "#app"@, "data-page"@) matches Some(a) ==> (a matches Some(p)
            ==> ((p == "null"@ || p == "true"@ || p == "false"@) ==> (r matches Err(e) && e
            matches FromHtmlError::InvalidDataPageShape(_)))),
        first_attr_in_doc(html@, "#app"@, "data-page"@) is None ==> (r matches Err(e) && e
            matches FromHtmlError::MissingElement(m) && m@ == "app div"@),
        first_attr_in_doc(html@, "#app"@, "data-page"@) matches Some(a) ==> (a is None ==> (r
            matches Err(e) && e matches FromHtmlError::MissingAttribute(m) && m@ == "data-page"@)),
        first_attr_in_doc(html@, "#app"@, "data-page"@) matches Some(a) ==> (a is Some ==> (r
            is Ok || r matches Err(FromHtmlError::InvalidDataPage(_)) || r matches Err(
            FromHtmlError::InvalidDataPageShape(_),
        ))),
{
    let page = match extract_data_page(html) {
        Ok(p) => p,
        Err(e) => {
            return Err(e);
        },
    };
    let v = match parse_json(page.as_str()) {
        Ok(v) => v,
        Err(e) => {
            return Err(FromHtmlError::InvalidDataPage(e));
        },
    };
    match scraped_user_from_data_page(&v) {
        Ok(u) => Ok(u),
        Err(e) => Err(FromHtmlError::InvalidDataPageShape(e)),
    }
}

/// Scrape a post from its page.
///
/// The same attribution as for a profile holds; the scrape yields
/// only the files rendered on first page load, together with the
/// page token needed to load the rest.
pub fn scraped_post_from_html(html: &str) -> (r: Result<ScrapedPost, FromHtmlError>)
    ensures
        first_attr_in_doc(html@, "#app"@, "data-page"@) matches Some(a) ==> (a matches Some(p)
            ==> (p.len() == 0 ==> (r matches Err(e) && e matches FromHtmlError::InvalidDataPage(
                _,
            )))),
        first_attr_in_doc(html@, "#app"@, "data-page"@) matches Some(a) ==> (a matches Some(p)
            ==> ((p == "null"@ || p == "true"@ || p == "false"@) ==> (r matches Err(e) && e
            matches FromHtmlError::InvalidDataPageShape(_)))),
        first_attr_in_doc(html@, "#app"@, "data-page"@) is None ==> (r matches Err(e) && e
            matches FromHtmlError::MissingElement(m) && m@ == "app div"@),
        first_attr_in_doc(html@, "#app"@, "data-page"@) matches Some(a) ==> (a is None ==> (r
            matches Err(e) && e matches FromHtmlError::MissingAttribute(m) && m@ == "data-page"@)),
        first_attr_in_doc(html@, "#app"@, "data-page"@) matches Some(a) ==> (a is Some ==> (r
            is Ok || r matches Err(FromHtmlError::InvalidDataPage(_)) || r matches Err(
            FromHtmlError::InvalidDataPageShape(_),
        ))),
{
    let page = match extract_data_page(html) {
        Ok(p) => p,
        Err(e) => {
            return Err(e);
        },
    };
    let v = match parse_json(page.as_str()) {
        Ok(v) => v,
        Err(e) => {
            return Err(FromHtmlError::InvalidDataPage(e));
        },
    };
    match scraped_post_from_data_page(&v) {
        Ok(p) => Ok(p),
        Err(e) => Err(FromHtmlError::InvalidDataPageShape(e)),
    }
}

/// A file record as the loaded fragment encodes it, all values read
/// from attributes of one top-level element.
pub open spec fn spec_fragment_file(
    id: Seq<char>,
    link: Seq<char>,
    desc: Option<Seq<char>>,
    video: Option<Seq<char>>,
) -> crate::model::scraped_post::FileView {
    crate::model::scraped_post::FileView {
        id,
        description: match desc {
            Some(d) => if d.len() == 0 {
                None
            } else {
                Some(d)
            },
            None => None,
        },
        link,
        video_link: video,
    }
}

/// Read the file records of a loaded HTML fragment: one record per
/// top-level element, from the `data-id`, `data-link`,
/// `data-description` and `data-video` attributes. A single element
/// that lacks a required attribute aborts the whole call, naming
/// the element index and the attribute; partial results are never
/// returned.
#[verifier::loop_isolation(false)]
pub fn extract_fragment_files(fragment: &str) -> (r: Result<Vec<ScrapedPostFile>, FromHtmlError>)
    ensures
        r matches Ok(fs) ==> {
            let ids = fragment_attrs(fragment@, "data-id"@);
            let links = fragment_attrs(fragment@, "data-link"@);
            let descs = fragment_attrs(fragment@, "data-description"@);
            let videos = fragment_attrs(fragment@, "data-video"@);
            &&& fs@.len() == fragment_element_count(fragment@)
            &&& forall|i: int|
                0 <= i < fs@.len() ==> ids[i] is Some && links[i] is Some && (
                #[trigger] fs@[i])@ == spec_fragment_file(
                    ids[i]->0,
                    links[i]->0,
                    descs[i],
                    videos[i],
                )
        },
        r matches Err(e) ==> (e matches FromHtmlError::MissingFragmentAttribute {
            index,
            attribute,
        } && index < fragment_element_count(fragment@) && ((attribute@ == "data-id"@
            && fragment_attrs(fragment@, "data-id"@)[index as int] is None) || (attribute@
            == "data-link"@ && fragment_attrs(fragment@, "data-link"@)[index as int] is None))),
{
    let ids = fragment_top_attrs(fragment, "data-id");
    let links = fragment_top_attrs(fragment, "data-link");
    let descs = fragment_top_attrs(fragment, "data-description");
    let videos = fragment_top_attrs(fragment, "data-video");
    let n = ids.len();
    let mut files: Vec<ScrapedPostFile> = Vec::new();
    let mut i: usize = 0;
    proof {
        assert(view_opt_strs(ids@).len() == ids@.len());
        assert(view_opt_strs(links@).len() == links@.len());
        assert(view_opt_strs(descs@).len() == descs@.len());
        assert(view_opt_strs(videos@).len() == videos@.len());
    }
    while i < n
        invariant
            i <= n,
            n == fragment_element_count(fragment@),
            files@.len() == i,
            forall|j: int|
                0 <= j < i ==> fragment_attrs(fragment@, "data-id"@)[j] is Some && fragment_attrs(
                    fragment@,
                    "data-link"@,
                )[j] is Some && (#[trigger] files@[j])@ == spec_fragment_file(
                    fragment_attrs(fragment@, "data-id"@)[j]->0,
                    fragment_attrs(fragment@, "data-link"@)[j]->0,
                    fragment_attrs(fragment@, "data-description"@)[j],
                    fragment_attrs(fragment@, "data-video"@)[j],
                ),
        decreases n - i,
    {
        let ghost idsv = fragment_attrs(fragment@, "data-id"@);
        let ghost linksv = fragment_attrs(fragment@, "data-link"@);
        let ghost descsv = fragment_attrs(fragment@, "data-description"@);
        let ghost videosv = fragment_attrs(fragment@, "data-video"@);
        let id = match &ids[i] {
            Some(s) => s.clone(),
            None => {
                proof {
                    assert(idsv[i as int] == view_opt_strs(ids@)[i as int]);
                }
                return Err(
                    FromHtmlError::MissingFragmentAttribute {
                        index: i,
                        attribute: String::from_str("data-id"),
                    },
                );
            },
        };
        let link = match &links[i] {
            Some(s) => s.clone(),
            None => {
                proof {
                    assert(linksv[i as int] == view_opt_strs(links@)[i as int]);
                }
                return Err(
                    FromHtmlError::MissingFragmentAttribute {
                        index: i,
                        attribute: String::from_str("data-link"),
                    },
                );
            },
        };
        let description = match &descs[i] {
            Some(s) => {
                if s.as_str().unicode_len() == 0 {
                    None
                } else {
                    Some(s.clone())
                }
            },
            None => None,
        };
        let video_link = match &videos[i] {
            Some(s) => Some(s.clone()),
            None => None,
        };
        let f = ScrapedPostFile { id, description, link, video_link };
        let ghost pre = files@;
        files.push(f);
        proof {
            assert(idsv[i as int] == view_opt_strs(ids@)[i as int]);
            assert(linksv[i as int] == view_opt_strs(links@)[i as int]);
            assert(descsv[i as int] == view_opt_strs(descs@)[i as int]);
            assert(videosv[i as int] == view_opt_strs(videos@)[i as int]);
            assert(files@[i as int]@ == spec_fragment_file(
                idsv[i as int]->0,
                linksv[i as int]->0,
                descsv[i as int],
                videosv[i as int],
            ));
        }
        i = i + 1;
    }
    Ok(files)
}

} // verus!
