use libreddit_user::{Action, FetchError, FetchErrorKind, FilterSet, Json, JsonNumber, Member, ProfileFlow, Stage, UserPage};

fn obj(members: Vec<(&str, Json)>) -> Json {
    Json::Object(
        members
            .into_iter()
            .map(|(k, v)| Member { key: k.to_string(), value: v })
            .collect(),
    )
}

fn s(v: &str) -> Json {
    Json::Str(v.to_string())
}

fn filters(ids: &[&str]) -> FilterSet {
    let mut f = FilterSet::new();
    for id in ids {
        f.insert(id.to_string());
    }
    f
}

fn profile(name: &str) -> Json {
    obj(vec![(
        "data",
        obj(vec![
            ("name", s(name)),
            ("total_karma", Json::Number(JsonNumber { exact: Some(10), nearest: 10 })),
            ("subreddit", obj(vec![("title", s("T"))])),
        ]),
    )])
}

fn listing(items: &[(&str, &str, &str)], after: &str) -> Json {
    let children = items
        .iter()
        .map(|(id, author, community)| {
            obj(vec![("data", obj(vec![("id", s(id)), ("author", s(author)), ("subreddit", s(community))]))])
        })
        .collect();
    obj(vec![("data", obj(vec![("after", s(after)), ("children", Json::Array(children))]))])
}

fn network_error() -> FetchError {
    FetchError { kind: FetchErrorKind::UpstreamUnavailable, message: "connection reset".to_string() }
}

fn fetch_path(a: &Action) -> String {
    match a {
        Action::Fetch(p) => p.clone(),
        _ => panic!("expected a fetch"),
    }
}

fn page(a: Action) -> UserPage {
    match a {
        Action::Render(p) => p,
        _ => panic!("expected a page"),
    }
}

/// Runs a request with the given outcomes of the profile and listing calls,
/// and returns the last action and the addresses that were fetched.
fn run(
    name: Option<&str>,
    query: &str,
    f: FilterSet,
    user: Result<Json, FetchError>,
    posts: Result<Json, FetchError>,
) -> (Action, Vec<String>) {
    let (mut flow, first) = ProfileFlow::start(name, query, f);
    let mut fetched = vec![fetch_path(&first)];
    let second = flow.resume(user);
    if let Action::Fetch(p) = &second {
        fetched.push(p.clone());
        let third = flow.resume(posts);
        assert!(matches!(flow.stage, Stage::Finished));
        return (third, fetched);
    }
    assert!(matches!(flow.stage, Stage::Finished));
    (second, fetched)
}

#[test]
fn start_fetches_profile_first() {
    let (flow, first) = ProfileFlow::start(Some("spez"), "sort=new&t=all&after=t3_x", FilterSet::new());
    assert_eq!(fetch_path(&first), "/user/spez/about.json?raw_json=1");
    assert_eq!(flow.listing, "/user/spez.json?sort=new&t=all&after=t3_x&raw_json=1");
    assert_eq!(flow.sort, ("new".to_string(), "all".to_string()));
    assert_eq!(flow.after, "t3_x");
    assert!(matches!(flow.stage, Stage::AwaitingUser));
}

#[test]
fn unnamed_request_lists_reddit() {
    let (flow, first) = ProfileFlow::start(None, "", FilterSet::new());
    assert_eq!(fetch_path(&first), "/user//about.json?raw_json=1");
    assert_eq!(flow.listing, "/user/reddit.json?&raw_json=1");
    assert_eq!(flow.after, "");
}

#[test]
fn blocked_user_is_never_listed() {
    let (last, fetched) = run(
        Some("reddit"),
        "after=t3_q",
        filters(&["u_reddit"]),
        Ok(profile("reddit")),
        Ok(listing(&[("a", "x", "y")], "t3_z")),
    );
    assert_eq!(fetched, vec!["/user/reddit/about.json?raw_json=1"]);
    let p = page(last);
    assert!(p.is_filtered);
    assert!(!p.all_posts_filtered);
    assert!(p.posts.is_empty());
    assert_eq!(p.user.name, "reddit");
    assert_eq!(p.ends, ("t3_q".to_string(), String::new()));
}

#[test]
fn one_of_three_posts_blocked() {
    let (last, fetched) = run(
        Some("ann"),
        "",
        filters(&["u_bob"]),
        Ok(profile("ann")),
        Ok(listing(&[("1", "ann", "rust"), ("2", "bob", "rust"), ("3", "cat", "rust")], "")),
    );
    assert_eq!(fetched.len(), 2);
    assert_eq!(fetched[1], "/user/ann.json?&raw_json=1");
    let p = page(last);
    let ids: Vec<&str> = p.posts.iter().map(|p| p.id.as_str()).collect();
    assert_eq!(ids, vec!["1", "3"]);
    assert!(!p.all_posts_filtered);
    assert!(!p.is_filtered);
}

#[test]
fn both_posts_in_blocked_community() {
    let (last, _) = run(
        Some("ann"),
        "",
        filters(&["pics"]),
        Ok(profile("ann")),
        Ok(listing(&[("1", "ann", "pics"), ("2", "bob", "pics")], "")),
    );
    let p = page(last);
    assert!(p.posts.is_empty());
    assert!(p.all_posts_filtered);
    assert!(!p.is_filtered);
}

#[test]
fn empty_listing_is_not_all_filtered_on_page() {
    let (last, _) = run(Some("ann"), "", filters(&["pics"]), Ok(profile("ann")), Ok(listing(&[], "")));
    let p = page(last);
    assert!(p.posts.is_empty());
    assert!(!p.all_posts_filtered);
}

#[test]
fn failed_listing_is_an_error_page() {
    let (last, fetched) = run(Some("ann"), "", FilterSet::new(), Ok(profile("ann")), Err(network_error()));
    assert_eq!(fetched.len(), 2);
    match last {
        Action::ShowError(e) => {
            assert!(matches!(e.kind, FetchErrorKind::UpstreamUnavailable));
            assert_eq!(e.message, "connection reset");
        },
        _ => panic!("expected an error page"),
    }
}

#[test]
fn failed_profile_still_lists_posts() {
    let (last, fetched) = run(
        Some("ann"),
        "",
        filters(&["u_bob"]),
        Err(network_error()),
        Ok(listing(&[("1", "ann", "rust"), ("2", "bob", "rust")], "t3_2")),
    );
    assert_eq!(fetched.len(), 2);
    let p = page(last);
    assert_eq!(p.user.name, "");
    assert_eq!(p.user.created, "");
    assert_eq!(p.user.karma, 0);
    let ids: Vec<&str> = p.posts.iter().map(|p| p.id.as_str()).collect();
    assert_eq!(ids, vec!["1"]);
}

#[test]
fn cursors_pass_through_unchanged() {
    let (last, _) = run(
        Some("ann"),
        "sort=top&t=day&after=t1_%2Fodd",
        FilterSet::new(),
        Ok(profile("ann")),
        Ok(listing(&[("1", "ann", "rust")], "t3_next&x")),
    );
    let p = page(last);
    assert_eq!(p.ends, ("t1_%2Fodd".to_string(), "t3_next&x".to_string()));
    assert_eq!(p.sort, ("top".to_string(), "day".to_string()));
}
