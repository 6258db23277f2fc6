use vstd::prelude::*;

use crate::post::{views, Post, PostView};

verus! {

/// The prefix that turns a user name into its identifier in a filter set.
pub open spec fn user_prefix() -> Seq<char> {
    seq!['u', '_']
}

/// The identifier under which a user is blocked.
pub open spec fn user_id(name: Seq<char>) -> Seq<char> {
    user_prefix() + name
}

/// The identifiers that a reader has blocked: user identifiers (`u_` and the
/// name) and community names.
pub struct FilterSet {
    pub ids: Vec<String>,
}

impl View for FilterSet {
    type V = Set<Seq<char>>;

    open spec fn view(&self) -> Set<Seq<char>> {
        Set::new(|s: Seq<char>| exists|i: int| 0 <= i < self.ids@.len() && #[trigger] self.ids@[i]@ == s)
    }
}

/// A post is blocked when its community or its author's identifier is in `f`.
pub open spec fn blocked(p: PostView, f: Set<Seq<char>>) -> bool {
    f.contains(p.community) || f.contains(user_id(p.author))
}

/// Whether `p` survives the filters `f`.
pub open spec fn survives(f: Set<Seq<char>>) -> spec_fn(PostView) -> bool {
    |p: PostView| !blocked(p, f)
}

/// The posts of `posts` that `f` does not block, in their order.
pub open spec fn kept(posts: Seq<PostView>, f: Set<Seq<char>>) -> Seq<PostView> {
    posts.filter(survives(f))
}

/// Whether filtering removed every post of a listing that had some.
pub open spec fn all_filtered(posts: Seq<PostView>, f: Set<Seq<char>>) -> bool {
    posts.len() > 0 && kept(posts, f).len() == 0
}

impl FilterSet {
    /// An empty filter set.
    pub fn new() -> (r: FilterSet)
        ensures
            r@ == Set::<Seq<char>>::empty(),
    {
        let r = FilterSet { ids: Vec::new() };
        assert(r@ =~= Set::<Seq<char>>::empty());
        r
    }

    /// Adds one identifier.
    pub fn insert(&mut self, id: String)
        ensures
            final(self)@ == old(self)@.insert(id@),
    {
        let ghost before = self.ids@;
        self.ids.push(id);
        assert forall|s: Seq<char>| #[trigger] old(self)@.insert(id@).contains(s) implies self@.contains(s) by {
            if s != id@ {
                let i = choose|i: int| 0 <= i < before.len() && #[trigger] before[i]@ == s;
                assert(self.ids@[i]@ == s);
            } else {
                assert(self.ids@[before.len() as int]@ == s);
            }
        }
        assert(final(self)@ =~= old(self)@.insert(id@));
    }

    /// Whether `id` is in the set.
    pub fn contains(&self, id: &str) -> (r: bool)
        ensures
            r == self@.contains(id@),
    {
        let key = String::from_str(id);
        let mut i: usize = 0;
        while i < self.ids.len()
            invariant
                i <= self.ids@.len(),
                key@ == id@,
                forall|j: int| 0 <= j < i ==> #[trigger] self.ids@[j]@ != id@,
            decreases self.ids@.len() - i,
        {
            if self.ids[i].eq(&key) {
                assert(self.ids@[i as int]@ == id@);
                assert(self@.contains(id@));
                return true;
            }
            i = i + 1;
        }
        false
    }
}

/// Whether the filters block the user `name` itself.
pub open spec fn user_blocked(name: Seq<char>, f: Set<Seq<char>>) -> bool {
    f.contains(user_id(name))
}

/// Filtering a listing that grew by one post at its end.
pub proof fn lemma_kept_push(posts: Seq<PostView>, p: PostView, f: Set<Seq<char>>)
    ensures
        kept(posts.push(p), f) == if blocked(p, f) {
            kept(posts, f)
        } else {
            kept(posts, f).push(p)
        },
{
    reveal(Seq::filter);
    assert(posts.push(p).drop_last() =~= posts);
}

/// The identifier under which the user `name` is blocked.
pub fn user_identifier(name: &str) -> (r: String)
    ensures
        r@ == user_id(name@),
{
    let mut r = String::from_str("u_");
    proof {
        reveal_strlit("u_");
    }
    r.append(name);
    r
}

/// Whether the reader's filters block the user `name` itself.
pub fn is_user_filtered(name: &str, filters: &FilterSet) -> (r: bool)
    ensures
        r == user_blocked(name@, filters@),
{
    let id = user_identifier(name);
    filters.contains(id.as_str())
}

/// Whether the reader's filters block `post`, by its community or its author.
pub fn is_post_filtered(post: &Post, filters: &FilterSet) -> (r: bool)
    ensures
        r == blocked(post@, filters@),
{
    if filters.contains(post.community.as_str()) {
        return true;
    }
    let author = user_identifier(post.author.as_str());
    filters.contains(author.as_str())
}

/// Removes from `posts` every post that `filters` block, keeping the order of
/// the rest. Returns whether posts were there and all of them were removed.
pub fn filter_posts(posts: &mut Vec<Post>, filters: &FilterSet) -> (r: bool)
    ensures
        views(final(posts)@) == kept(views(old(posts)@), filters@),
        r == all_filtered(views(old(posts)@), filters@),
{
    let had_posts = posts.len() > 0;
    let mut rest: Vec<Post> = Vec::new();
    std::mem::swap(posts, &mut rest);
    let ghost all = rest@;
    let n: usize = rest.len();
    let ghost f = filters@;
    let mut i: usize = 0;
    while rest.len() > 0
        invariant
            old(posts)@ == all,
            all.len() == n,
            i <= n,
            i + rest@.len() == n,
            rest@ == all.skip(i as int),
            views(posts@) == kept(views(all.take(i as int)), f),
            f == filters@,
        decreases rest@.len(),
    {
        let post = rest.remove(0);
        proof {
            assert(all.take(i + 1) =~= all.take(i as int).push(post));
            assert(views(all.take(i + 1)) =~= views(all.take(i as int)).push(post@));
            lemma_kept_push(views(all.take(i as int)), post@, f);
        }
        let drop = is_post_filtered(&post, filters);
        if !drop {
            let ghost before = posts@;
            posts.push(post);
            proof {
                assert(views(posts@) =~= views(before).push(post@));
            }
        }
        i = i + 1;
        assert(rest@ =~= all.skip(i as int));
    }
    assert(all.take(i as int) =~= all);
    had_posts && posts.len() == 0
}

/// `a` is `b` with some items left out: each item of `a` stands in `b`, at
/// positions that increase along `a`.
pub open spec fn is_subsequence(a: Seq<PostView>, b: Seq<PostView>) -> bool {
    exists|idx: Seq<int>|
        idx.len() == a.len() && (forall|k: int| 0 <= k < a.len() ==> 0 <= #[trigger] idx[k] < b.len()
            && b[idx[k]] == a[k]) && (forall|k: int, l: int|
            0 <= k < l < a.len() ==> #[trigger] idx[k] < #[trigger] idx[l])
}

/// Where each kept post stood in the listing.
spec fn kept_positions(posts: Seq<PostView>, f: Set<Seq<char>>) -> Seq<int>
    decreases posts.len(),
{
    if posts.len() == 0 {
        Seq::empty()
    } else {
        let rest = kept_positions(posts.drop_last(), f);
        if blocked(posts.last(), f) {
            rest
        } else {
            rest.push(posts.len() - 1)
        }
    }
}

proof fn lemma_kept_positions(posts: Seq<PostView>, f: Set<Seq<char>>)
    ensures
        ({
            let idx = kept_positions(posts, f);
            let k = kept(posts, f);
            &&& idx.len() == k.len()
            &&& forall|j: int| 0 <= j < k.len() ==> 0 <= #[trigger] idx[j] < posts.len() && posts[idx[j]] == k[j]
            &&& forall|j: int, l: int| 0 <= j < l < k.len() ==> #[trigger] idx[j] < #[trigger] idx[l]
        }),
    decreases posts.len(),
{
    if posts.len() > 0 {
        let init = posts.drop_last();
        lemma_kept_positions(init, f);
        assert(init.push(posts.last()) =~= posts);
        lemma_kept_push(init, posts.last(), f);
    }
}

/// Filtering keeps the order of the posts: what it keeps is a subsequence of
/// the listing.
pub proof fn lemma_filter_keeps_order(posts: Seq<PostView>, f: Set<Seq<char>>)
    ensures
        is_subsequence(kept(posts, f), posts),
{
    lemma_kept_positions(posts, f);
    let idx = kept_positions(posts, f);
    assert(idx.len() == kept(posts, f).len());
}

/// Every post that filtering keeps survives the filters.
pub proof fn lemma_kept_survive(posts: Seq<PostView>, f: Set<Seq<char>>)
    ensures
        forall|j: int| 0 <= j < kept(posts, f).len() ==> !blocked(#[trigger] kept(posts, f)[j], f),
    decreases posts.len(),
{
    if posts.len() > 0 {
        let init = posts.drop_last();
        lemma_kept_survive(init, f);
        assert(init.push(posts.last()) =~= posts);
        lemma_kept_push(init, posts.last(), f);
    }
}

/// A listing whose posts all survive the filters is kept whole.
pub proof fn lemma_kept_all(posts: Seq<PostView>, f: Set<Seq<char>>)
    requires
        forall|j: int| 0 <= j < posts.len() ==> !blocked(#[trigger] posts[j], f),
    ensures
        kept(posts, f) == posts,
    decreases posts.len(),
{
    if posts.len() > 0 {
        let init = posts.drop_last();
        assert forall|j: int| 0 <= j < init.len() implies !blocked(#[trigger] init[j], f) by {
            assert(init[j] == posts[j]);
        }
        lemma_kept_all(init, f);
        assert(init.push(posts.last()) =~= posts);
        lemma_kept_push(init, posts.last(), f);
    }
}

/// Filtering twice with the same filters keeps what filtering once kept; the
/// flag of the second pass agrees with the first unless the first removed
/// every post (the second pass then sees an empty listing).
pub proof fn lemma_filter_idempotent(posts: Seq<PostView>, f: Set<Seq<char>>)
    ensures
        kept(kept(posts, f), f) == kept(posts, f),
        !all_filtered(posts, f) ==> all_filtered(kept(posts, f), f) == all_filtered(posts, f),
{
    lemma_kept_survive(posts, f);
    lemma_kept_all(kept(posts, f), f);
}

/// An empty listing is never reported as all filtered; a listing with posts
/// is exactly when none of them survives.
pub proof fn lemma_all_filtered_flag(posts: Seq<PostView>, f: Set<Seq<char>>)
    ensures
        posts.len() == 0 ==> !all_filtered(posts, f),
        all_filtered(posts, f) <==> (posts.len() > 0 && forall|j: int|
            0 <= j < posts.len() ==> blocked(#[trigger] posts[j], f)),
{
    if posts.len() > 0 && kept(posts, f).len() == 0 {
        assert forall|j: int| 0 <= j < posts.len() implies blocked(#[trigger] posts[j], f) by {
            if !blocked(posts[j], f) {
                broadcast use vstd::seq_lib::group_filter_ensures;
                assert(kept(posts, f).contains(posts[j]));
            }
        }
    }
    if posts.len() > 0 && (forall|j: int| 0 <= j < posts.len() ==> blocked(#[trigger] posts[j], f)) {
        lemma_kept_survive(posts, f);
        lemma_kept_positions(posts, f);
        if kept(posts, f).len() > 0 {
            let idx = kept_positions(posts, f);
            assert(posts[idx[0]] == kept(posts, f)[0]);
        }
    }
}

} // verus!
