use vstd::prelude::*;

use crate::date::{created_label, epoch_label, in_calendar, timestamp_label};
use crate::filter::{all_filtered, filter_posts, is_user_filtered, kept, user_blocked, FilterSet};
use crate::json::{field, get, int_or, integer_or, nearest_or, rounded_or, str_or, text_or, Json};
use crate::post::{after_of, posts_from_listing, posts_of, views, Post};
use crate::query::{param, param_or_empty};
use crate::text::{display_url, escape_html, escaped, format_url};

verus! {

/// A user's profile.
pub struct User {
    pub name: String,
    pub title: String,
    pub icon: String,
    pub karma: i64,
    /// The day the account was created, as `Mon DD 'YY`.
    pub created: String,
    pub banner: String,
    pub description: String,
}

/// The mathematical value of a `User`.
pub struct UserView {
    pub name: Seq<char>,
    pub title: Seq<char>,
    pub icon: Seq<char>,
    pub karma: int,
    pub created: Seq<char>,
    pub banner: Seq<char>,
    pub description: Seq<char>,
}

impl View for User {
    type V = UserView;

    open spec fn view(&self) -> UserView {
        UserView {
            name: self.name@,
            title: self.title@,
            icon: self.icon@,
            karma: self.karma as int,
            created: self.created@,
            banner: self.banner@,
            description: self.description@,
        }
    }
}

/// The empty profile, shown when upstream could not give one.
pub open spec fn empty_user() -> UserView {
    UserView {
        name: Seq::empty(),
        title: Seq::empty(),
        icon: Seq::empty(),
        karma: 0,
        created: Seq::empty(),
        banner: Seq::empty(),
        description: Seq::empty(),
    }
}

impl Default for User {
    fn default() -> (r: User)
        ensures
            r@ == empty_user(),
    {
        User {
            name: String::new(),
            title: String::new(),
            icon: String::new(),
            karma: 0,
            created: String::new(),
            banner: String::new(),
            description: String::new(),
        }
    }
}

/// The `data` object of a profile envelope.
pub open spec fn profile_data(res: Json) -> Option<Json> {
    get(Some(res), "data"@)
}

/// The text of `data.subreddit.<item>` in a profile envelope, or empty.
pub open spec fn about(res: Json, item: Seq<char>) -> Seq<char> {
    str_or(get(get(profile_data(res), "subreddit"@), item), ""@)
}

/// The creation time of a profile envelope, rounded to whole seconds; zero
/// where it is missing.
pub open spec fn created_at(res: Json) -> int {
    rounded_or(get(profile_data(res), "created"@), 0)
}

/// `u` is the profile that envelope `res` describes: each field read from
/// its fixed place, empty or zero where missing or of another type.
pub open spec fn describes(u: UserView, res: Json) -> bool {
    &&& u.name == str_or(get(profile_data(res), "name"@), ""@)
    &&& u.title == escaped(about(res, "title"@))
    &&& u.icon == display_url(about(res, "icon_img"@))
    &&& u.karma == int_or(get(profile_data(res), "total_karma"@), 0)
    &&& u.created == timestamp_label(created_at(res)) || u.created == epoch_label()
    &&& in_calendar(created_at(res)) ==> u.created == timestamp_label(created_at(res))
    &&& created_at(res) == 0 ==> u.created == epoch_label()
    &&& u.banner == escaped(display_url(about(res, "banner_img"@)))
    &&& u.description == escaped(about(res, "public_description"@))
}

/// Reads a profile envelope (`/user/<name>/about.json`); never fails,
/// missing fields read as empty or zero.
pub fn parse_user(res: &Json) -> (r: User)
    ensures
        describes(r@, *res),
{
    let data = res.member("data");
    let sub = field(data, "subreddit");
    let title = text_or(field(sub, "title"), "");
    let icon = text_or(field(sub, "icon_img"), "");
    let banner = text_or(field(sub, "banner_img"), "");
    let banner = format_url(banner.as_str());
    let description = text_or(field(sub, "public_description"), "");
    let created = nearest_or(field(data, "created"), 0);
    User {
        name: text_or(field(data, "name"), ""),
        title: escape_html(title.as_str()),
        icon: format_url(icon.as_str()),
        karma: integer_or(field(data, "total_karma"), 0),
        created: created_label(created),
        banner: escape_html(banner.as_str()),
        description: escape_html(description.as_str()),
    }
}

/// A profile envelope without a creation time reads as created on the epoch,
/// labelled `Jan 01 '70`, instead of failing.
pub proof fn lemma_missing_created(res: Json, u: UserView)
    requires
        get(profile_data(res), "created"@) is None,
        describes(u, res),
    ensures
        u.created == "Jan 01 '70"@,
{
    reveal_strlit("Jan 01 '70");
    reveal_strlit("Jan");
    reveal_strlit("0123456789");
    assert(epoch_label() =~= "Jan 01 '70"@);
}

/// The upstream address of the profile of user `name`.
pub open spec fn about_path(name: Seq<char>) -> Seq<char> {
    "/user/"@ + name + "/about.json?raw_json=1"@
}

/// The user whose listing a request asks for: the one it names, else `reddit`.
pub open spec fn listing_user(name: Option<Seq<char>>) -> Seq<char> {
    match name {
        Some(n) => n,
        None => "reddit"@,
    }
}

/// The upstream address of a user's listing, carrying the request's query.
pub open spec fn listing_path(name: Option<Seq<char>>, query: Seq<char>) -> Seq<char> {
    "/user/"@ + listing_user(name) + ".json?"@ + query + "&raw_json=1"@
}

/// The upstream address of the profile of user `name`.
pub fn user_path(name: &str) -> (r: String)
    ensures
        r@ == about_path(name@),
{
    let mut r = String::from_str("/user/");
    r.append(name);
    r.append("/about.json?raw_json=1");
    r
}

/// The upstream address of the listing of user `name` (or of `reddit` when
/// the request names none), carrying the request's `query`.
pub fn posts_path(name: Option<&str>, query: &str) -> (r: String)
    ensures
        r@ == listing_path(
            match name {
                Some(n) => Some(n@),
                None => None,
            },
            query@,
        ),
{
    let mut r = String::from_str("/user/");
    match name {
        Some(n) => r.append(n),
        None => r.append("reddit"),
    }
    r.append(".json?");
    r.append(query);
    r.append("&raw_json=1");
    r
}

/// The kinds of upstream failure.
pub enum FetchErrorKind {
    /// The network failed or upstream answered with an error status.
    UpstreamUnavailable,
    /// Upstream answered with something that is not a JSON document.
    MalformedResponse,
}

/// An upstream call that failed, with a message for the error page.
pub struct FetchError {
    pub kind: FetchErrorKind,
    pub message: String,
}

/// What the renderer receives for a profile page.
pub struct UserPage {
    pub user: User,
    /// The posts that survived the filters, in upstream order.
    pub posts: Vec<Post>,
    /// The request's `sort` and `t` parameters.
    pub sort: (String, String),
    /// The cursor this page was fetched with and the cursor of the next page.
    pub ends: (String, String),
    /// The user themself is filtered: no posts were fetched.
    pub is_filtered: bool,
    /// Posts were fetched and every one of them was filtered out.
    pub all_posts_filtered: bool,
}

/// Where a profile request stands.
pub enum Stage {
    /// The profile has been asked for.
    AwaitingUser,
    /// The listing has been asked for; the profile is known.
    AwaitingPosts(User),
    /// The page or the error has been handed out.
    Finished,
}

/// What the caller does next for a profile request.
pub enum Action {
    /// Fetch this upstream address and hand the outcome back.
    Fetch(String),
    /// Render this page.
    Render(UserPage),
    /// Show an error page with this failure.
    ShowError(FetchError),
}

/// The decisions of one profile request: which upstream calls to make, in
/// which order, and what to show. The caller performs the calls.
pub struct ProfileFlow {
    /// The requested user; empty when the request names none.
    pub username: String,
    /// The upstream address of the listing.
    pub listing: String,
    /// The request's `sort` and `t` parameters.
    pub sort: (String, String),
    /// The cursor the request came with; empty when none.
    pub after: String,
    pub filters: FilterSet,
    pub stage: Stage,
}

/// `u` is the profile read from the outcome of the profile call: what the
/// envelope describes, or the empty profile when the call failed.
pub open spec fn user_read(fetched: Result<Json, FetchError>, u: UserView) -> bool {
    match fetched {
        Ok(res) => describes(u, res),
        Err(_) => u == empty_user(),
    }
}

impl ProfileFlow {
    /// Starts a request for the profile page of `name` with query string
    /// `query`, under the reader's `filters`. The first step fetches the
    /// profile.
    pub fn start(name: Option<&str>, query: &str, filters: FilterSet) -> (r: (ProfileFlow, Action))
        ensures
            r.0.username@ == match name {
                Some(n) => n@,
                None => Seq::<char>::empty(),
            },
            r.0.listing@ == listing_path(
                match name {
                    Some(n) => Some(n@),
                    None => None,
                },
                query@,
            ),
            r.0.sort.0@ == param_or_empty(query@, "sort"@),
            r.0.sort.1@ == param_or_empty(query@, "t"@),
            r.0.after@ == param_or_empty(query@, "after"@),
            r.0.filters@ == filters@,
            r.0.stage is AwaitingUser,
            r.1 matches Action::Fetch(p) && p@ == about_path(r.0.username@),
    {
        let username = match name {
            Some(n) => String::from_str(n),
            None => String::new(),
        };
        let listing = posts_path(name, query);
        let sort = match param(query, "sort") {
            Some(v) => v,
            None => String::new(),
        };
        let t = match param(query, "t") {
            Some(v) => v,
            None => String::new(),
        };
        let after = match param(query, "after") {
            Some(v) => v,
            None => String::new(),
        };
        let path = user_path(username.as_str());
        let flow = ProfileFlow { username, listing, sort: (sort, t), after, filters, stage: Stage::AwaitingUser };
        (flow, Action::Fetch(path))
    }

    /// Takes the outcome of the call that the last action asked for and
    /// decides the next action.
    ///
    /// A failed profile call leaves the profile empty and the request goes
    /// on. When the filters block the requested user, the listing is never
    /// fetched: the page has no posts and is marked filtered. A failed
    /// listing call ends the request with that failure. Otherwise the page
    /// holds the listing's posts that survive the filters, in upstream
    /// order, and the cursors (the request's, the listing's) as given.
    pub fn resume(&mut self, fetched: Result<Json, FetchError>) -> (a: Action)
        requires
            !(old(self).stage is Finished),
        ensures
            final(self).username == old(self).username,
            final(self).listing == old(self).listing,
            final(self).sort == old(self).sort,
            final(self).after == old(self).after,
            final(self).filters == old(self).filters,
            old(self).stage is AwaitingUser ==> {
                if user_blocked(old(self).username@, old(self).filters@) {
                    &&& final(self).stage is Finished
                    &&& a matches Action::Render(page) && {
                        &&& user_read(fetched, page.user@)
                        &&& page.posts@.len() == 0
                        &&& page.is_filtered
                        &&& !page.all_posts_filtered
                        &&& page.sort.0@ == old(self).sort.0@
                        &&& page.sort.1@ == old(self).sort.1@
                        &&& page.ends.0@ == old(self).after@
                        &&& page.ends.1@ == Seq::<char>::empty()
                    }
                } else {
                    &&& a matches Action::Fetch(p) && p@ == old(self).listing@
                    &&& final(self).stage matches Stage::AwaitingPosts(u) && user_read(fetched, u@)
                }
            },
            old(self).stage matches Stage::AwaitingPosts(u) ==> {
                &&& final(self).stage is Finished
                &&& match fetched {
                    Ok(listing) => a matches Action::Render(page) && {
                        &&& page.user@ == u@
                        &&& views(page.posts@) == kept(posts_of(listing), old(self).filters@)
                        &&& !page.is_filtered
                        &&& page.all_posts_filtered == all_filtered(
                            posts_of(listing),
                            old(self).filters@,
                        )
                        &&& page.sort.0@ == old(self).sort.0@
                        &&& page.sort.1@ == old(self).sort.1@
                        &&& page.ends.0@ == old(self).after@
                        &&& page.ends.1@ == after_of(listing)
                    },
                    Err(e) => a == Action::ShowError(e),
                }
            },
    {
        let mut stage = Stage::Finished;
        std::mem::swap(&mut self.stage, &mut stage);
        match stage {
            Stage::AwaitingUser => {
                let user = match &fetched {
                    Ok(res) => parse_user(res),
                    Err(_) => User::default(),
                };
                if is_user_filtered(self.username.as_str(), &self.filters) {
                    let page = UserPage {
                        user,
                        posts: Vec::new(),
                        sort: (self.sort.0.clone(), self.sort.1.clone()),
                        ends: (self.after.clone(), String::new()),
                        is_filtered: true,
                        all_posts_filtered: false,
                    };
                    Action::Render(page)
                } else {
                    self.stage = Stage::AwaitingPosts(user);
                    Action::Fetch(self.listing.clone())
                }
            },
            Stage::AwaitingPosts(user) => match fetched {
                Ok(listing) => {
                    let (mut posts, next) = posts_from_listing(&listing);
                    let all_posts_filtered = filter_posts(&mut posts, &self.filters);
                    let page = UserPage {
                        user,
                        posts,
                        sort: (self.sort.0.clone(), self.sort.1.clone()),
                        ends: (self.after.clone(), next),
                        is_filtered: false,
                        all_posts_filtered,
                    };
                    Action::Render(page)
                },
                Err(e) => Action::ShowError(e),
            },
            // A finished request is never resumed (see `requires`).
            Stage::Finished => Action::Fetch(self.listing.clone()),
        }
    }
}

} // verus!
