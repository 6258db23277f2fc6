use libreddit_user::{
    created_label, escape_html, format_date, format_url, param, parse_user, post_from_json, posts_from_listing,
    Json, JsonNumber, Member,
};

fn obj(members: Vec<(&str, Json)>) -> Json {
    Json::Object(
        members
            .into_iter()
            .map(|(k, v)| Member { key: k.to_string(), value: v })
            .collect(),
    )
}

fn s(v: &str) -> Json {
    Json::Str(v.to_string())
}

fn whole(v: i64) -> Json {
    Json::Number(JsonNumber { exact: Some(v), nearest: v })
}

fn float(nearest: i64) -> Json {
    Json::Number(JsonNumber { exact: None, nearest })
}

#[test]
fn date_is_month_day_year() {
    assert_eq!(format_date(2024, 1, 5), "Jan 05 '24");
    assert_eq!(format_date(1999, 12, 31), "Dec 31 '99");
    assert_eq!(format_date(2005, 7, 14), "Jul 14 '05");
}

#[test]
fn created_label_of_timestamps() {
    assert_eq!(created_label(0), "Jan 01 '70");
    assert_eq!(created_label(1_546_300_800), "Jan 01 '19");
    assert_eq!(created_label(1_704_412_800), "Jan 05 '24");
    assert_eq!(created_label(-86_400), "Dec 31 '69");
}

#[test]
fn created_label_out_of_range_is_epoch() {
    assert_eq!(created_label(i64::MAX), "Jan 01 '70");
}

#[test]
fn escape_replaces_markup() {
    assert_eq!(escape_html("a <b> & c"), "a &lt;b&gt; &amp; c");
    assert_eq!(escape_html(""), "");
    assert_eq!(escape_html("plain é"), "plain é");
}

#[test]
fn format_url_drops_placeholders() {
    assert_eq!(format_url("self"), "");
    assert_eq!(format_url("default"), "");
    assert_eq!(format_url("nsfw"), "");
    assert_eq!(format_url("spoiler"), "");
    assert_eq!(format_url(""), "");
    assert_eq!(format_url("https://example.com/a.png"), "https://example.com/a.png");
}

#[test]
fn param_reads_query() {
    let q = "sort=top&t=week&after=t3_abc";
    assert_eq!(param(q, "sort"), Some("top".to_string()));
    assert_eq!(param(q, "t"), Some("week".to_string()));
    assert_eq!(param(q, "after"), Some("t3_abc".to_string()));
    assert_eq!(param(q, "before"), None);
    assert_eq!(param("", "sort"), None);
    assert_eq!(param("a=1&a=2", "a"), Some("2".to_string()));
    assert_eq!(param("flag&x=", "flag"), Some(String::new()));
    assert_eq!(param("x=a=b", "x"), Some("a=b".to_string()));
}

#[test]
fn profile_fields_read() {
    let res = obj(vec![(
        "data",
        obj(vec![
            ("name", s("spez")),
            ("total_karma", whole(-3)),
            ("created", float(1_704_412_800)),
            (
                "subreddit",
                obj(vec![
                    ("title", s("Tom & Jerry")),
                    ("icon_img", s("https://example.com/i.png")),
                    ("banner_img", s("default")),
                    ("public_description", s("<hi>")),
                ]),
            ),
        ]),
    )]);
    let u = parse_user(&res);
    assert_eq!(u.name, "spez");
    assert_eq!(u.title, "Tom &amp; Jerry");
    assert_eq!(u.icon, "https://example.com/i.png");
    assert_eq!(u.banner, "");
    assert_eq!(u.karma, -3);
    assert_eq!(u.created, "Jan 05 '24");
    assert_eq!(u.description, "&lt;hi&gt;");
}

#[test]
fn profile_without_created_reads_epoch() {
    let res = obj(vec![("data", obj(vec![("name", s("ann"))]))]);
    let u = parse_user(&res);
    assert_eq!(u.created, "Jan 01 '70");
    assert_eq!(u.karma, 0);
    assert_eq!(u.title, "");
    assert_eq!(u.name, "ann");
    let empty = parse_user(&obj(vec![]));
    assert_eq!(empty.name, "");
    assert_eq!(empty.created, "Jan 01 '70");
}

#[test]
fn profile_created_rounded_reads_its_day() {
    let res = obj(vec![("data", obj(vec![("name", s("x")), ("created", float(1_704_412_800))]))]);
    assert_eq!(parse_user(&res).created, "Jan 05 '24");
}

#[test]
fn profile_of_wrong_shape_has_empty_name() {
    let u = parse_user(&Json::Array(vec![whole(1)]));
    assert_eq!(u.name, "");
    assert_eq!(u.created, "Jan 01 '70");
    let u = parse_user(&obj(vec![("data", obj(vec![("name", whole(5)), ("total_karma", float(2))]))]));
    assert_eq!(u.name, "");
    assert_eq!(u.karma, 0);
}

#[test]
fn listing_item_reads_post_or_comment() {
    let item = obj(vec![(
        "data",
        obj(vec![
            ("id", s("t3_1")),
            ("author", s("ann")),
            ("subreddit", s("rust")),
            ("selftext", s("a<b")),
            ("score", whole(42)),
            ("created", float(99)),
            ("thumbnail", s("self")),
        ]),
    )]);
    let p = post_from_json(&item);
    assert_eq!(p.id, "t3_1");
    assert_eq!(p.author, "ann");
    assert_eq!(p.community, "rust");
    assert_eq!(p.body, "a&lt;b");
    assert_eq!(p.score, 42);
    assert_eq!(p.created, 99);
    assert_eq!(p.preview, "");
    let comment = obj(vec![("data", obj(vec![("body", s("hi")), ("selftext", s("no"))]))]);
    assert_eq!(post_from_json(&comment).body, "hi");
}

#[test]
fn listing_reads_posts_in_order_and_cursor() {
    let child = |id: &str| obj(vec![("data", obj(vec![("id", s(id))]))]);
    let listing = obj(vec![(
        "data",
        obj(vec![("after", s("t3_next")), ("children", Json::Array(vec![child("x"), child("y"), child("z")]))]),
    )]);
    let (posts, after) = posts_from_listing(&listing);
    let ids: Vec<&str> = posts.iter().map(|p| p.id.as_str()).collect();
    assert_eq!(ids, vec!["x", "y", "z"]);
    assert_eq!(after, "t3_next");
    let (posts, after) = posts_from_listing(&obj(vec![("data", obj(vec![("after", Json::Null)]))]));
    assert!(posts.is_empty());
    assert_eq!(after, "");
}
