use vstd::prelude::*;

use crate::json::{field, get, int_or, integer_or, items, nearest_or, rounded_or, str_or, text_or, Json};
use crate::text::{display_url, escape_html, escaped, format_url};

verus! {

/// One item of a user's listing, as read from upstream.
pub struct Post {
    pub id: String,
    /// Author name, verbatim from upstream (filters compare against it).
    pub author: String,
    /// Community name, verbatim from upstream (filters compare against it).
    pub community: String,
    pub body: String,
    pub score: i64,
    /// Creation time in whole seconds since the Unix epoch.
    pub created: i64,
    /// Preview media address; empty when the post has none.
    pub preview: String,
}

/// The mathematical value of a `Post`.
pub struct PostView {
    pub id: Seq<char>,
    pub author: Seq<char>,
    pub community: Seq<char>,
    pub body: Seq<char>,
    pub score: int,
    pub created: int,
    pub preview: Seq<char>,
}

impl View for Post {
    type V = PostView;

    open spec fn view(&self) -> PostView {
        PostView {
            id: self.id@,
            author: self.author@,
            community: self.community@,
            body: self.body@,
            score: self.score as int,
            created: self.created as int,
            preview: self.preview@,
        }
    }
}

/// The views of a sequence of posts, in order.
pub open spec fn views(posts: Seq<Post>) -> Seq<PostView> {
    posts.map_values(|p: Post| p@)
}

/// The text of a listing item: a comment's `body`, else a post's `selftext`.
pub open spec fn body_of(data: Option<Json>) -> Seq<char> {
    match get(data, "body"@) {
        Some(Json::Str(b)) => b@,
        _ => str_or(get(data, "selftext"@), ""@),
    }
}

/// The post that a listing item stands for; every field that is missing or
/// of another type takes its empty or zero value.
pub open spec fn post_of(item: Json) -> PostView {
    let data = get(Some(item), "data"@);
    PostView {
        id: str_or(get(data, "id"@), ""@),
        author: str_or(get(data, "author"@), ""@),
        community: str_or(get(data, "subreddit"@), ""@),
        body: escaped(body_of(data)),
        score: int_or(get(data, "score"@), 0),
        created: rounded_or(get(data, "created"@), 0),
        preview: display_url(str_or(get(data, "thumbnail"@), ""@)),
    }
}

/// The items of a listing envelope, `data.children`.
pub open spec fn listing_items(listing: Json) -> Seq<Json> {
    items(get(get(Some(listing), "data"@), "children"@))
}

/// The posts of a listing envelope, in upstream order.
pub open spec fn posts_of(listing: Json) -> Seq<PostView> {
    listing_items(listing).map_values(|item: Json| post_of(item))
}

/// The cursor of the next page of a listing, `data.after`; empty at the end.
pub open spec fn after_of(listing: Json) -> Seq<char> {
    str_or(get(get(Some(listing), "data"@), "after"@), ""@)
}

/// Reads one listing item as a post, never failing.
pub fn post_from_json(item: &Json) -> (r: Post)
    ensures
        r@ == post_of(*item),
{
    let data = item.member("data");
    let body = match field(data, "body") {
        Some(Json::Str(b)) => escape_html(b.as_str()),
        _ => {
            let t = text_or(field(data, "selftext"), "");
            escape_html(t.as_str())
        },
    };
    let thumbnail = text_or(field(data, "thumbnail"), "");
    Post {
        id: text_or(field(data, "id"), ""),
        author: text_or(field(data, "author"), ""),
        community: text_or(field(data, "subreddit"), ""),
        body,
        score: integer_or(field(data, "score"), 0),
        created: nearest_or(field(data, "created"), 0),
        preview: format_url(thumbnail.as_str()),
    }
}

/// Reads a listing envelope: its posts in upstream order and the cursor of
/// the next page.
pub fn posts_from_listing(listing: &Json) -> (r: (Vec<Post>, String))
    ensures
        views(r.0@) == posts_of(*listing),
        r.1@ == after_of(*listing),
{
    let data = listing.member("data");
    let after = text_or(field(data, "after"), "");
    let mut posts: Vec<Post> = Vec::new();
    match field(data, "children") {
        Some(Json::Array(children)) => {
            let mut i: usize = 0;
            while i < children.len()
                invariant
                    i <= children@.len(),
                    children@ == listing_items(*listing),
                    views(posts@) == listing_items(*listing).take(i as int).map_values(
                        |item: Json| post_of(item),
                    ),
                decreases children@.len() - i,
            {
                let post = post_from_json(&children[i]);
                let ghost before = posts@;
                posts.push(post);
                proof {
                    assert(views(posts@) =~= views(before).push(post@));
                    assert(listing_items(*listing).take(i + 1).map_values(|item: Json| post_of(item))
                        =~= listing_items(*listing).take(i as int).map_values(
                        |item: Json| post_of(item),
                    ).push(post_of(children@[i as int])));
                }
                i = i + 1;
            }
            assert(listing_items(*listing).take(i as int) =~= listing_items(*listing));
        },
        _ => {
            assert(views(posts@) =~= posts_of(*listing));
        },
    }
    (posts, after)
}

} // verus!
