//! Domain errors and their mapping to HTTP status codes, error labels and
//! human-readable detail messages.

use vstd::prelude::*;
use vstd::string::StringExecFns;

verus! {

/// An application-level failure, one variant per kind.
#[derive(Debug)]
pub enum Error {
    /// A random-number request whose minimum exceeds its maximum
    /// (also used for a missing static asset).
    InvalidRange(String),
    /// No user in the store has the requested id.
    UserNotFound(i32),
    /// No post in the store has the requested id.
    PostNotFound(i32),
}

/// The character for a single decimal digit.
pub open spec fn spec_digit_char(d: int) -> char {
    if d == 0 {
        '0'
    } else if d == 1 {
        '1'
    } else if d == 2 {
        '2'
    } else if d == 3 {
        '3'
    } else if d == 4 {
        '4'
    } else if d == 5 {
        '5'
    } else if d == 6 {
        '6'
    } else if d == 7 {
        '7'
    } else if d == 8 {
        '8'
    } else {
        '9'
    }
}

/// The decimal digit string of a natural number, most significant digit first.
pub open spec fn spec_nat_string(n: nat) -> Seq<char>
    decreases n,
{
    if n < 10 {
        seq![spec_digit_char(n as int)]
    } else {
        spec_nat_string(n / 10).push(spec_digit_char((n % 10) as int))
    }
}

/// The decimal string of an integer: a minus sign before the digits when it
/// is negative.
pub open spec fn spec_int_string(n: int) -> Seq<char> {
    if n < 0 {
        seq!['-'] + spec_nat_string((-n) as nat)
    } else {
        spec_nat_string(n as nat)
    }
}

fn digit_str(d: u32) -> (r: &'static str)
    requires
        d < 10,
    ensures
        r@ == seq![spec_digit_char(d as int)],
{
    let r: &'static str = if d == 0 {
        "0"
    } else if d == 1 {
        "1"
    } else if d == 2 {
        "2"
    } else if d == 3 {
        "3"
    } else if d == 4 {
        "4"
    } else if d == 5 {
        "5"
    } else if d == 6 {
        "6"
    } else if d == 7 {
        "7"
    } else if d == 8 {
        "8"
    } else {
        "9"
    };
    proof {
        reveal_strlit("0");
        reveal_strlit("1");
        reveal_strlit("2");
        reveal_strlit("3");
        reveal_strlit("4");
        reveal_strlit("5");
        reveal_strlit("6");
        reveal_strlit("7");
        reveal_strlit("8");
        reveal_strlit("9");
        assert(r@ =~= seq![spec_digit_char(d as int)]);
    }
    r
}

fn u32_to_string(n: u32) -> (r: String)
    ensures
        r@ == spec_nat_string(n as nat),
    decreases n,
{
    if n < 10 {
        String::from_str(digit_str(n))
    } else {
        let mut s = u32_to_string(n / 10);
        s.append(digit_str(n % 10));
        proof {
            assert(s@ =~= spec_nat_string((n / 10) as nat).push(
                spec_digit_char((n % 10) as int),
            ));
        }
        s
    }
}

/// Renders an integer in decimal, as `format!("{}", n)` would.
pub fn i32_to_string(n: i32) -> (r: String)
    ensures
        r@ == spec_int_string(n as int),
{
    if n >= 0 {
        u32_to_string(n as u32)
    } else {
        let wide: i64 = n as i64;
        let magnitude: u32 = (-wide) as u32;
        let digits = u32_to_string(magnitude);
        let r = String::from_str("-").concat(digits.as_str());
        proof {
            reveal_strlit("-");
            assert(r@ =~= spec_int_string(n as int));
        }
        r
    }
}

/// The detail message for a user id that was not found.
pub open spec fn spec_user_not_found_details(id: int) -> Seq<char> {
    "User with id "@ + spec_int_string(id) + " not found"@
}

/// The detail message for a post id that was not found.
pub open spec fn spec_post_not_found_details(id: int) -> Seq<char> {
    "Post with id "@ + spec_int_string(id) + " not found"@
}

/// The detail message for a random-number request whose minimum exceeds its
/// maximum.
pub open spec fn spec_invalid_range_details() -> Seq<char> {
    "Minimum value cannot be greater than maximum value."@
}

impl Error {
    /// The HTTP status code this error maps to: 400 for an invalid range,
    /// 404 for a failed lookup.
    pub fn http_status(&self) -> (s: u16)
        ensures
            s == self.spec_http_status(),
    {
        match self {
            Error::InvalidRange(_) => 400,
            Error::UserNotFound(_) => 404,
            Error::PostNotFound(_) => 404,
        }
    }

    /// The status code of each error kind.
    pub open spec fn spec_http_status(&self) -> u16 {
        match self {
            Error::InvalidRange(_) => 400u16,
            Error::UserNotFound(_) => 404u16,
            Error::PostNotFound(_) => 404u16,
        }
    }

    /// The short label of the JSON error envelope.
    pub fn label(&self) -> (r: String)
        ensures
            r@ == self.spec_label(),
    {
        match self {
            Error::InvalidRange(_) => String::from_str("Invalid range"),
            Error::UserNotFound(_) => String::from_str("User not found"),
            Error::PostNotFound(_) => String::from_str("Post not found"),
        }
    }

    /// The label of each error kind.
    pub open spec fn spec_label(&self) -> Seq<char> {
        match self {
            Error::InvalidRange(_) => "Invalid range"@,
            Error::UserNotFound(_) => "User not found"@,
            Error::PostNotFound(_) => "Post not found"@,
        }
    }

    /// The detail message of the JSON error envelope.
    pub fn details(&self) -> (r: String)
        ensures
            r@ == self.spec_details(),
    {
        match self {
            Error::InvalidRange(d) => d.clone(),
            Error::UserNotFound(id) => {
                String::from_str("User with id ").concat(i32_to_string(*id).as_str()).concat(
                    " not found",
                )
            },
            Error::PostNotFound(id) => {
                String::from_str("Post with id ").concat(i32_to_string(*id).as_str()).concat(
                    " not found",
                )
            },
        }
    }

    /// The detail message of each error kind.
    pub open spec fn spec_details(&self) -> Seq<char> {
        match self {
            Error::InvalidRange(d) => d@,
            Error::UserNotFound(id) => spec_user_not_found_details(*id as int),
            Error::PostNotFound(id) => spec_post_not_found_details(*id as int),
        }
    }
}

} // verus!
