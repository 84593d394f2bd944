//! The filter evaluator: partial equality predicates over user and post
//! records, combined by logical AND over the fields that are present.

use vstd::prelude::*;
use crate::records::{Post, PostV, User, UserV, posts_view, users_view};

verus! {

/// A partial predicate over users: an absent field matches any value, a
/// present field demands exact equality.
pub struct UserFilter {
    pub id: Option<i32>,
    pub name: Option<String>,
    pub age: Option<i32>,
}

/// The mathematical value of a user filter.
pub ghost struct UserFilterV {
    pub id: Option<int>,
    pub name: Option<Seq<char>>,
    pub age: Option<int>,
}

impl View for UserFilter {
    type V = UserFilterV;

    open spec fn view(&self) -> UserFilterV {
        UserFilterV {
            id: match self.id {
                Some(id) => Some(id as int),
                None => None,
            },
            name: match self.name {
                Some(n) => Some(n@),
                None => None,
            },
            age: match self.age {
                Some(a) => Some(a as int),
                None => None,
            },
        }
    }
}

/// A partial predicate over posts.
pub struct PostFilter {
    pub id: Option<i32>,
    pub title: Option<String>,
    pub content: Option<String>,
    pub author_id: Option<i32>,
}

/// The mathematical value of a post filter.
pub ghost struct PostFilterV {
    pub id: Option<int>,
    pub title: Option<Seq<char>>,
    pub content: Option<Seq<char>>,
    pub author_id: Option<int>,
}

impl View for PostFilter {
    type V = PostFilterV;

    open spec fn view(&self) -> PostFilterV {
        PostFilterV {
            id: match self.id {
                Some(id) => Some(id as int),
                None => None,
            },
            title: match self.title {
                Some(t) => Some(t@),
                None => None,
            },
            content: match self.content {
                Some(c) => Some(c@),
                None => None,
            },
            author_id: match self.author_id {
                Some(a) => Some(a as int),
                None => None,
            },
        }
    }
}

/// A user passes a filter when every present field agrees exactly.
pub open spec fn user_matches(u: UserV, f: UserFilterV) -> bool {
    &&& match f.id {
        Some(id) => u.id == id,
        None => true,
    }
    &&& match f.name {
        Some(n) => u.name == n,
        None => true,
    }
    &&& match f.age {
        Some(a) => u.age == a,
        None => true,
    }
}

/// A post passes a filter when every present field agrees exactly.
pub open spec fn post_matches(p: PostV, f: PostFilterV) -> bool {
    &&& match f.id {
        Some(id) => p.id == id,
        None => true,
    }
    &&& match f.title {
        Some(t) => p.title == t,
        None => true,
    }
    &&& match f.content {
        Some(c) => p.content == c,
        None => true,
    }
    &&& match f.author_id {
        Some(a) => p.author_id == a,
        None => true,
    }
}

/// The user predicate of a filter, as a function value.
pub open spec fn user_pred(f: UserFilterV) -> spec_fn(UserV) -> bool {
    |u: UserV| user_matches(u, f)
}

/// The post predicate of a filter, as a function value.
pub open spec fn post_pred(f: PostFilterV) -> spec_fn(PostV) -> bool {
    |p: PostV| post_matches(p, f)
}

/// The subsequence of users passing the filter, in their original order.
pub open spec fn spec_filter_users(s: Seq<UserV>, f: UserFilterV) -> Seq<UserV> {
    s.filter(user_pred(f))
}

/// The subsequence of posts passing the filter, in their original order.
pub open spec fn spec_filter_posts(s: Seq<PostV>, f: PostFilterV) -> Seq<PostV> {
    s.filter(post_pred(f))
}

/// Whether a user record passes a filter.
pub fn matches_user(u: &User, f: &UserFilter) -> (r: bool)
    ensures
        r == user_matches(u@, f@),
{
    let id_ok = match f.id {
        Some(id) => u.id == id,
        None => true,
    };
    let name_ok = match &f.name {
        Some(n) => u.name == *n,
        None => true,
    };
    let age_ok = match f.age {
        Some(a) => u.age == a,
        None => true,
    };
    id_ok && name_ok && age_ok
}

/// Whether a post record passes a filter.
pub fn matches_post(p: &Post, f: &PostFilter) -> (r: bool)
    ensures
        r == post_matches(p@, f@),
{
    let id_ok = match f.id {
        Some(id) => p.id == id,
        None => true,
    };
    let title_ok = match &f.title {
        Some(t) => p.title == *t,
        None => true,
    };
    let content_ok = match &f.content {
        Some(c) => p.content == *c,
        None => true,
    };
    let author_ok = match f.author_id {
        Some(a) => p.author_id == a,
        None => true,
    };
    id_ok && title_ok && content_ok && author_ok
}

/// Filtering a sequence extended by one element keeps the element exactly
/// when it passes the predicate.
pub proof fn lemma_filter_push<A>(s: Seq<A>, x: A, pred: spec_fn(A) -> bool)
    ensures
        pred(x) ==> s.push(x).filter(pred) == s.filter(pred).push(x),
        !pred(x) ==> s.push(x).filter(pred) == s.filter(pred),
{
    reveal(Seq::filter);
    assert(s.push(x).drop_last() =~= s);
    assert(s.push(x).last() == x);
}

/// A predicate that holds of every element filters nothing out.
pub proof fn lemma_filter_all_true<A>(s: Seq<A>, pred: spec_fn(A) -> bool)
    requires
        forall|i: int| 0 <= i < s.len() ==> pred(#[trigger] s[i]),
    ensures
        s.filter(pred) == s,
    decreases s.len(),
{
    reveal(Seq::filter);
    if s.len() == 0 {
        assert(s.filter(pred) =~= s);
    } else {
        assert(pred(s.last()));
        lemma_filter_all_true(s.drop_last(), pred);
        assert(s.drop_last().push(s.last()) =~= s);
    }
}

/// Filtering is idempotent: every element the first pass keeps passes the
/// predicate, so a second pass with the same predicate keeps them all.
pub proof fn lemma_filter_idempotent<A>(s: Seq<A>, pred: spec_fn(A) -> bool)
    ensures
        s.filter(pred).filter(pred) == s.filter(pred),
{
    broadcast use vstd::seq_lib::group_filter_ensures;

    lemma_filter_all_true(s.filter(pred), pred);
}

/// Filtering users twice with the same criteria yields the same sequence as
/// filtering once.
pub proof fn lemma_user_filter_idempotent(s: Seq<UserV>, f: UserFilterV)
    ensures
        spec_filter_users(spec_filter_users(s, f), f) == spec_filter_users(s, f),
{
    lemma_filter_idempotent(s, user_pred(f));
}

/// Filtering posts twice with the same criteria yields the same sequence as
/// filtering once.
pub proof fn lemma_post_filter_idempotent(s: Seq<PostV>, f: PostFilterV)
    ensures
        spec_filter_posts(spec_filter_posts(s, f), f) == spec_filter_posts(s, f),
{
    lemma_filter_idempotent(s, post_pred(f));
}

/// A user filter with every field absent keeps the whole sequence, in its
/// original order.
pub proof fn lemma_user_filter_absent(s: Seq<UserV>, f: UserFilterV)
    requires
        f.id is None,
        f.name is None,
        f.age is None,
    ensures
        spec_filter_users(s, f) == s,
{
    assert forall|i: int| 0 <= i < s.len() implies user_pred(f)(#[trigger] s[i]) by {}
    lemma_filter_all_true(s, user_pred(f));
}

/// A post filter with every field absent keeps the whole sequence, in its
/// original order.
pub proof fn lemma_post_filter_absent(s: Seq<PostV>, f: PostFilterV)
    requires
        f.id is None,
        f.title is None,
        f.content is None,
        f.author_id is None,
    ensures
        spec_filter_posts(s, f) == s,
{
    assert forall|i: int| 0 <= i < s.len() implies post_pred(f)(#[trigger] s[i]) by {}
    lemma_filter_all_true(s, post_pred(f));
}

/// Narrows a sequence of users to those matching every present filter field,
/// keeping their original order.
pub fn filter_users(users: &Vec<User>, f: &UserFilter) -> (r: Vec<User>)
    ensures
        users_view(r@) == spec_filter_users(users_view(users@), f@),
{
    let mut out: Vec<User> = Vec::new();
    let n = users.len();
    let mut i: usize = 0;
    while i < n
        invariant
            i <= n,
            n == users.len(),
            users_view(out@) == spec_filter_users(
                users_view(users@).subrange(0, i as int),
                f@,
            ),
        decreases n - i,
    {
        let ghost sv = users_view(users@);
        let ghost prefix = sv.subrange(0, i as int);
        proof {
            assert(sv.subrange(0, i as int + 1) =~= prefix.push(sv[i as int]));
            lemma_filter_push(prefix, sv[i as int], user_pred(f@));
            assert(sv[i as int] == users@[i as int]@);
        }
        if matches_user(&users[i], f) {
            let ghost before = out@;
            out.push(users[i].clone());
            proof {
                assert(users_view(out@) =~= users_view(before).push(users@[i as int]@));
            }
        }
        i = i + 1;
    }
    proof {
        assert(users_view(users@).subrange(0, n as int) =~= users_view(users@));
    }
    out
}

/// Narrows a sequence of posts to those matching every present filter field,
/// keeping their original order.
pub fn filter_posts(posts: &Vec<Post>, f: &PostFilter) -> (r: Vec<Post>)
    ensures
        posts_view(r@) == spec_filter_posts(posts_view(posts@), f@),
{
    let mut out: Vec<Post> = Vec::new();
    let n = posts.len();
    let mut i: usize = 0;
    while i < n
        invariant
            i <= n,
            n == posts.len(),
            posts_view(out@) == spec_filter_posts(
                posts_view(posts@).subrange(0, i as int),
                f@,
            ),
        decreases n - i,
    {
        let ghost sv = posts_view(posts@);
        let ghost prefix = sv.subrange(0, i as int);
        proof {
            assert(sv.subrange(0, i as int + 1) =~= prefix.push(sv[i as int]));
            lemma_filter_push(prefix, sv[i as int], post_pred(f@));
            assert(sv[i as int] == posts@[i as int]@);
        }
        if matches_post(&posts[i], f) {
            let ghost before = out@;
            out.push(posts[i].clone());
            proof {
                assert(posts_view(out@) =~= posts_view(before).push(posts@[i as int]@));
            }
        }
        i = i + 1;
    }
    proof {
        assert(posts_view(posts@).subrange(0, n as int) =~= posts_view(posts@));
    }
    out
}

} // verus!
