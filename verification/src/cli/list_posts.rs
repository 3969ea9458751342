//! Options and pure rendering of the listing command.

use crate::model::list_posts::ListPostsPost;
use crate::ops::spec_bool_str;
use crate::text::bool_to_str;
use crate::text::chars_to_string;
use crate::text::push_i64_digits;
use crate::text::push_str_chars;
use crate::text::push_u64_digits;
use crate::text::spec_digits;
use crate::text::spec_signed_digits;
use crate::text::str_eq;
use vstd::prelude::*;

verus! {

/// How the listing is printed.
#[derive(Debug, Copy, Clone, Eq, PartialEq, Hash, Structural)]
pub enum OutputFormat {
    Human,
    Json,
}

impl OutputFormat {
    /// The format named by `input`, if any.
    pub fn from_str(input: &str) -> (r: Option<OutputFormat>)
        ensures
            input@ == "human"@ ==> r == Some(OutputFormat::Human),
            input@ == "json"@ ==> r == Some(OutputFormat::Json),
            input@ != "human"@ && input@ != "json"@ ==> r is None,
    {
        proof {
            reveal_strlit("human");
            reveal_strlit("json");
            assert("human"@.len() == 5);
            assert("json"@.len() == 4);
        }
        if str_eq(input, "human") {
            Some(OutputFormat::Human)
        } else if str_eq(input, "json") {
            Some(OutputFormat::Json)
        } else {
            None
        }
    }
}

impl Default for OutputFormat {
    fn default() -> (r: Self)
        ensures
            r == OutputFormat::Human,
    {
        OutputFormat::Human
    }
}

/// The sort orders the command accepts.
#[derive(Debug, Copy, Clone, Eq, PartialEq, Hash, Structural)]
pub enum SortOrder {
    Popular,
    Old,
    New,
}

impl SortOrder {
    /// The sort order named by `input`, if any.
    pub fn from_str(input: &str) -> (r: Option<SortOrder>)
        ensures
            input@ == "popular"@ ==> r == Some(SortOrder::Popular),
            input@ == "old"@ ==> r == Some(SortOrder::Old),
            input@ == "new"@ ==> r == Some(SortOrder::New),
            input@ != "popular"@ && input@ != "old"@ && input@ != "new"@ ==> r is None,
    {
        proof {
            reveal_strlit("popular");
            reveal_strlit("old");
            reveal_strlit("new");
            assert("popular"@.len() == 7);
            assert("old"@.len() == 3);
            assert("new"@.len() == 3);
            assert("old"@[0] == 'o' && "new"@[0] == 'n');
        }
        if str_eq(input, "popular") {
            Some(SortOrder::Popular)
        } else if str_eq(input, "old") {
            Some(SortOrder::Old)
        } else if str_eq(input, "new") {
            Some(SortOrder::New)
        } else {
            None
        }
    }
}

impl Default for SortOrder {
    fn default() -> (r: Self)
        ensures
            r == SortOrder::Popular,
    {
        SortOrder::Popular
    }
}

impl core::convert::From<SortOrder> for crate::builder::SortOrder {
    fn from(sort: SortOrder) -> (r: crate::builder::SortOrder) {
        match sort {
            SortOrder::Popular => crate::builder::SortOrder::Popular,
            SortOrder::Old => crate::builder::SortOrder::Old,
            SortOrder::New => crate::builder::SortOrder::New,
        }
    }
}

impl vstd::std_specs::convert::FromSpecImpl<SortOrder> for crate::builder::SortOrder {
    open spec fn obeys_from_spec() -> bool {
        true
    }

    open spec fn from_spec(sort: SortOrder) -> Self {
        match sort {
            SortOrder::Popular => crate::builder::SortOrder::Popular,
            SortOrder::Old => crate::builder::SortOrder::Old,
            SortOrder::New => crate::builder::SortOrder::New,
        }
    }
}

/// Options of the listing command.
#[derive(Debug, Clone)]
pub struct Options {
    /// Only include posts by this user.
    pub user: Option<String>,
    /// The page number to get.
    pub page: u64,
    /// How to sort posts.
    pub sort: SortOrder,
    /// Whether to list posts for the current user.
    pub profile: bool,
    /// The output format.
    pub output_format: OutputFormat,
}

/// One row of the human-readable listing.
pub open spec fn spec_human_row(p: ListPostsPost) -> Seq<char> {
    "Id: "@ + p.id@ + seq!['\n'] + "Title: "@ + p.title@ + seq!['\n'] + "Nsfw: "@ + spec_bool_str(
        p.nsfw,
    ) + seq!['\n'] + "Score: "@ + spec_signed_digits(p.score as int) + seq!['\n'] + "Comments: "@
        + spec_digits(p.comments as int) + seq!['\n'] + "Views: "@ + spec_digits(p.views as int)
        + seq!['\n', '\n']
}

/// The human-readable listing: one block per row, or a fixed line
/// when there is nothing to show.
pub open spec fn spec_human_rows(posts: Seq<ListPostsPost>) -> Seq<char>
    decreases posts.len(),
{
    if posts.len() == 0 {
        Seq::empty()
    } else {
        spec_human_rows(posts.drop_last()) + spec_human_row(posts.last())
    }
}

pub open spec fn spec_human_listing(posts: Seq<ListPostsPost>) -> Seq<char> {
    if posts.len() == 0 {
        "No results"@ + seq!['\n']
    } else {
        spec_human_rows(posts)
    }
}

/// Render the listing for a human reader, exactly as
/// [`spec_human_listing`] lays it out.
#[verifier::loop_isolation(false)]
#[verifier::rlimit(60)]
pub fn render_human(posts: &Vec<ListPostsPost>) -> (s: String)
    ensures
        s@ == spec_human_listing(posts@),
{
    let n = posts.len();
    if n == 0 {
        let mut out: Vec<char> = Vec::new();
        push_str_chars(&mut out, "No results");
        out.push('\n');
        proof {
            assert(out@ =~= spec_human_listing(posts@));
        }
        return chars_to_string(&out);
    }
    let mut out: Vec<char> = Vec::new();
    let mut i: usize = 0;
    proof {
        assert(posts@.take(0) =~= Seq::<ListPostsPost>::empty());
    }
    while i < n
        invariant
            i <= n,
            out@ == spec_human_rows(posts@.take(i as int)),
        decreases n - i,
    {
        push_str_chars(&mut out, "Id: ");
        push_str_chars(&mut out, posts[i].id.as_str());
        out.push('\n');
        push_str_chars(&mut out, "Title: ");
        push_str_chars(&mut out, posts[i].title.as_str());
        out.push('\n');
        push_str_chars(&mut out, "Nsfw: ");
        push_str_chars(&mut out, bool_to_str(posts[i].nsfw));
        out.push('\n');
        push_str_chars(&mut out, "Score: ");
        push_i64_digits(posts[i].score, &mut out);
        out.push('\n');
        push_str_chars(&mut out, "Comments: ");
        push_u64_digits(posts[i].comments, &mut out);
        out.push('\n');
        push_str_chars(&mut out, "Views: ");
        push_u64_digits(posts[i].views, &mut out);
        out.push('\n');
        out.push('\n');
        proof {
            assert(posts@.take(i + 1).drop_last() =~= posts@.take(i as int));
            assert(posts@.take(i + 1).last() == posts@[i as int]);
            assert(out@ =~= spec_human_rows(posts@.take(i + 1)));
        }
        i = i + 1;
    }
    proof {
        assert(posts@.take(n as int) =~= posts@);
    }
    chars_to_string(&out)
}

} // verus!
