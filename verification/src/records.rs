//! The fixed in-memory record store: user and post records, their
//! mathematical views, and exact lookup by id.

use vstd::prelude::*;
use vstd::string::StringExecFns;
use crate::errors::Error;

verus! {

/// A user record.
#[derive(Debug, PartialEq)]
pub struct User {
    pub id: i32,
    pub name: String,
    pub age: i32,
    pub bio: Option<String>,
}

/// The mathematical value of a user record.
pub ghost struct UserV {
    pub id: int,
    pub name: Seq<char>,
    pub age: int,
    pub bio: Option<Seq<char>>,
}

impl View for User {
    type V = UserV;

    open spec fn view(&self) -> UserV {
        UserV {
            id: self.id as int,
            name: self.name@,
            age: self.age as int,
            bio: match self.bio {
                Some(b) => Some(b@),
                None => None,
            },
        }
    }
}

impl Clone for User {
    fn clone(&self) -> (r: Self)
        ensures
            r@ == self@,
    {
        User {
            id: self.id,
            name: self.name.clone(),
            age: self.age,
            bio: match &self.bio {
                Some(b) => Some(b.clone()),
                None => None,
            },
        }
    }
}

/// A post record.
#[derive(Debug, PartialEq)]
pub struct Post {
    pub id: i32,
    pub title: String,
    pub content: String,
    pub author_id: i32,
}

/// The mathematical value of a post record.
pub ghost struct PostV {
    pub id: int,
    pub title: Seq<char>,
    pub content: Seq<char>,
    pub author_id: int,
}

impl View for Post {
    type V = PostV;

    open spec fn view(&self) -> PostV {
        PostV {
            id: self.id as int,
            title: self.title@,
            content: self.content@,
            author_id: self.author_id as int,
        }
    }
}

impl Clone for Post {
    fn clone(&self) -> (r: Self)
        ensures
            r@ == self@,
    {
        Post {
            id: self.id,
            title: self.title.clone(),
            content: self.content.clone(),
            author_id: self.author_id,
        }
    }
}

/// The views of a sequence of user records.
pub open spec fn users_view(s: Seq<User>) -> Seq<UserV> {
    s.map_values(|u: User| u@)
}

/// The views of a sequence of post records.
pub open spec fn posts_view(s: Seq<Post>) -> Seq<PostV> {
    s.map_values(|p: Post| p@)
}

/// The canonical user data, in declaration order.
pub open spec fn spec_users() -> Seq<UserV> {
    seq![
        UserV { id: 1, name: "Alice"@, age: 25, bio: Some("I am a software developer"@) },
        UserV { id: 2, name: "Bob"@, age: 30, bio: None },
        UserV { id: 3, name: "Charlie"@, age: 35, bio: Some("I am a data scientist"@) },
        UserV { id: 4, name: "David"@, age: 40, bio: None },
        UserV { id: 5, name: "Eve"@, age: 45, bio: Some("I am a security analyst"@) },
        UserV {
            id: 6,
            name: "Another Alice"@,
            age: 25,
            bio: Some("I am also a software developer"@),
        },
    ]
}

/// The canonical post data, in declaration order.
pub open spec fn spec_posts() -> Seq<PostV> {
    seq![
        PostV { id: 1, title: "Post 1"@, content: "Content of post 1"@, author_id: 1 },
        PostV { id: 2, title: "Post 2"@, content: "Content of post 2"@, author_id: 2 },
        PostV { id: 3, title: "Post 3"@, content: "Content of post 3"@, author_id: 3 },
        PostV { id: 4, title: "Post 4"@, content: "Content of post 4"@, author_id: 4 },
        PostV { id: 5, title: "Post 5"@, content: "Content of post 5"@, author_id: 5 },
        PostV { id: 6, title: "Post 6"@, content: "Content of post 6"@, author_id: 1 },
        PostV { id: 7, title: "Post 7"@, content: "Content of post 7"@, author_id: 2 },
        PostV { id: 8, title: "Post 8"@, content: "Content of post 8"@, author_id: 3 },
        PostV { id: 9, title: "Post 9"@, content: "Content of post 9"@, author_id: 4 },
    ]
}

/// The ordered sequence of all user records.
pub fn list_users() -> (r: Vec<User>)
    ensures
        users_view(r@) == spec_users(),
{
    let mut users: Vec<User> = Vec::new();
    users.push(
        User {
            id: 1,
            name: String::from_str("Alice"),
            age: 25,
            bio: Some(String::from_str("I am a software developer")),
        },
    );
    users.push(User { id: 2, name: String::from_str("Bob"), age: 30, bio: None });
    users.push(
        User {
            id: 3,
            name: String::from_str("Charlie"),
            age: 35,
            bio: Some(String::from_str("I am a data scientist")),
        },
    );
    users.push(User { id: 4, name: String::from_str("David"), age: 40, bio: None });
    users.push(
        User {
            id: 5,
            name: String::from_str("Eve"),
            age: 45,
            bio: Some(String::from_str("I am a security analyst")),
        },
    );
    users.push(
        User {
            id: 6,
            name: String::from_str("Another Alice"),
            age: 25,
            bio: Some(String::from_str("I am also a software developer")),
        },
    );
    proof {
        assert(users_view(users@) =~~= spec_users());
    }
    users
}

/// The ordered sequence of all post records.
pub fn list_posts() -> (r: Vec<Post>)
    ensures
        posts_view(r@) == spec_posts(),
{
    let mut posts: Vec<Post> = Vec::new();
    posts.push(
        Post {
            id: 1,
            title: String::from_str("Post 1"),
            content: String::from_str("Content of post 1"),
            author_id: 1,
        },
    );
    posts.push(
        Post {
            id: 2,
            title: String::from_str("Post 2"),
            content: String::from_str("Content of post 2"),
            author_id: 2,
        },
    );
    posts.push(
        Post {
            id: 3,
            title: String::from_str("Post 3"),
            content: String::from_str("Content of post 3"),
            author_id: 3,
        },
    );
    posts.push(
        Post {
            id: 4,
            title: String::from_str("Post 4"),
            content: String::from_str("Content of post 4"),
            author_id: 4,
        },
    );
    posts.push(
        Post {
            id: 5,
            title: String::from_str("Post 5"),
            content: String::from_str("Content of post 5"),
            author_id: 5,
        },
    );
    posts.push(
        Post {
            id: 6,
            title: String::from_str("Post 6"),
            content: String::from_str("Content of post 6"),
            author_id: 1,
        },
    );
    posts.push(
        Post {
            id: 7,
            title: String::from_str("Post 7"),
            content: String::from_str("Content of post 7"),
            author_id: 2,
        },
    );
    posts.push(
        Post {
            id: 8,
            title: String::from_str("Post 8"),
            content: String::from_str("Content of post 8"),
            author_id: 3,
        },
    );
    posts.push(
        Post {
            id: 9,
            title: String::from_str("Post 9"),
            content: String::from_str("Content of post 9"),
            author_id: 4,
        },
    );
    proof {
        assert(posts_view(posts@) =~~= spec_posts());
    }
    posts
}

/// The id identifies a user: no two records of the store share one.
pub proof fn lemma_user_ids_unique()
    ensures
        forall|i: int, j: int|
            0 <= i < j < spec_users().len() ==> spec_users()[i].id != spec_users()[j].id,
{
}

/// The id identifies a post: no two records of the store share one.
pub proof fn lemma_post_ids_unique()
    ensures
        forall|i: int, j: int|
            0 <= i < j < spec_posts().len() ==> spec_posts()[i].id != spec_posts()[j].id,
{
}

/// The first record with the given id, if any.
pub open spec fn spec_find_user(s: Seq<UserV>, id: int) -> Option<UserV>
    decreases s.len(),
{
    if s.len() == 0 {
        None
    } else if s[0].id == id {
        Some(s[0])
    } else {
        spec_find_user(s.drop_first(), id)
    }
}

/// The first post with the given id, if any.
pub open spec fn spec_find_post(s: Seq<PostV>, id: int) -> Option<PostV>
    decreases s.len(),
{
    if s.len() == 0 {
        None
    } else if s[0].id == id {
        Some(s[0])
    } else {
        spec_find_post(s.drop_first(), id)
    }
}

/// Exact lookup of a user by id in the store; the id that fails to match is
/// reported in the error.
pub fn get_user_by_id(id: i32) -> (r: Result<User, Error>)
    ensures
        match r {
            Ok(u) => spec_find_user(spec_users(), id as int) == Some(u@),
            Err(e) => {
                &&& spec_find_user(spec_users(), id as int) is None
                &&& e == Error::UserNotFound(id)
            },
        },
{
    let users = list_users();
    let n = users.len();
    proof {
        assert(spec_users().skip(0) =~= spec_users());
    }
    let mut i: usize = 0;
    while i < n
        invariant
            i <= n,
            n == users.len(),
            users_view(users@) == spec_users(),
            spec_find_user(spec_users(), id as int) == spec_find_user(
                spec_users().skip(i as int),
                id as int,
            ),
        decreases n - i,
    {
        let ghost rest = spec_users().skip(i as int);
        proof {
            assert(rest[0] == spec_users()[i as int]);
            assert(users_view(users@)[i as int] == users@[i as int]@);
        }
        if users[i].id == id {
            let u = users[i].clone();
            proof {
                assert(spec_find_user(rest, id as int) == Some(rest[0]));
            }
            return Ok(u);
        }
        proof {
            assert(spec_find_user(rest, id as int) == spec_find_user(rest.drop_first(), id as int));
            assert(rest.drop_first() =~= spec_users().skip(i as int + 1));
        }
        i = i + 1;
    }
    proof {
        assert(spec_users().skip(n as int).len() == 0);
    }
    Err(Error::UserNotFound(id))
}

/// Exact lookup of a post by id in the store; the id that fails to match is
/// reported in the error.
pub fn get_post_by_id(id: i32) -> (r: Result<Post, Error>)
    ensures
        match r {
            Ok(p) => spec_find_post(spec_posts(), id as int) == Some(p@),
            Err(e) => {
                &&& spec_find_post(spec_posts(), id as int) is None
                &&& e == Error::PostNotFound(id)
            },
        },
{
    let posts = list_posts();
    let n = posts.len();
    proof {
        assert(spec_posts().skip(0) =~= spec_posts());
    }
    let mut i: usize = 0;
    while i < n
        invariant
            i <= n,
            n == posts.len(),
            posts_view(posts@) == spec_posts(),
            spec_find_post(spec_posts(), id as int) == spec_find_post(
                spec_posts().skip(i as int),
                id as int,
            ),
        decreases n - i,
    {
        let ghost rest = spec_posts().skip(i as int);
        proof {
            assert(rest[0] == spec_posts()[i as int]);
            assert(posts_view(posts@)[i as int] == posts@[i as int]@);
        }
        if posts[i].id == id {
            let p = posts[i].clone();
            proof {
                assert(spec_find_post(rest, id as int) == Some(rest[0]));
            }
            return Ok(p);
        }
        proof {
            assert(spec_find_post(rest, id as int) == spec_find_post(rest.drop_first(), id as int));
            assert(rest.drop_first() =~= spec_posts().skip(i as int + 1));
        }
        i = i + 1;
    }
    proof {
        assert(spec_posts().skip(n as int).len() == 0);
    }
    Err(Error::PostNotFound(id))
}

} // verus!
