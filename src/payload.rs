//! Payloads that requests carry in and responses carry out.
//!
//! Identifiers are the 128 bits of a UUID; timestamps are seconds since the
//! Unix epoch.

use vstd::prelude::*;

verus! {

/// Default response for routes that do not return a specific data structure.
pub struct DefaultResponse {
    pub response: String,
}

/// Request payload of a password reset request, and the pending new email of
/// an email change.
#[derive(Clone)]
pub struct Email {
    pub email: String,
}

/// New user data for user registration, pending until it is confirmed.
#[derive(Clone)]
pub struct NewUser {
    pub username: String,
    pub password: String,
    pub email: String,
}

/// User profile data
pub struct UserProfile {
    pub username: String,
    pub email: String,
    pub email_notifications: bool,
}

/// Superposable picture names
#[derive(Clone, Copy, PartialEq, Eq, Structural, Debug)]
pub enum Superposable {
    Chic,
    Cry,
    Honk,
    Rage,
    Sad,
    Smirk,
    Stoned,
    Sweat,
}

/// Picture data
pub struct Picture {
    pub picture_id: u128,
    pub account_id: u128,
    pub superposable: Superposable,
    pub creation_ts: i64,
    pub author: String,
    pub like_count: i64,
    pub dislike_count: i64,
    pub comment_count: i64,
    pub liked: Option<bool>,
    pub disliked: Option<bool>,
}

/// Picture ID
#[derive(Clone, Copy, PartialEq, Eq, Structural, Debug)]
pub struct PictureId {
    pub picture_id: u128,
}

/// Comment data
pub struct Comment {
    pub picture_id: u128,
    pub account_id: u128,
    pub creation_ts: i64,
    pub content: String,
    pub author: String,
}

/// An account instance from the 'accounts' table.
pub struct Account {
    pub account_id: u128,
    pub email: String,
    pub username: String,
    pub password_hash: String,
    pub email_notifications: bool,
}

/// A picture row, with its counts and the requesting user's like.
pub struct DbPicture {
    pub picture_id: u128,
    pub account_id: u128,
    pub superposable: Superposable,
    pub creation_ts: i64,
    pub author: String,
    pub like_count: i64,
    pub dislike_count: i64,
    pub comment_count: i64,
    pub liked: Option<bool>,
    pub disliked: Option<bool>,
}

/// A comment row, with its author's name.
pub struct DbComment {
    pub picture_id: u128,
    pub account_id: u128,
    pub creation_ts: i64,
    pub content: String,
    pub author: String,
}

/// A comment posted on a picture.
pub struct PictureComment {
    pub picture_id: u128,
    pub comment: String,
}

/// A like (or dislike) set on a picture.
#[derive(Clone, Copy, PartialEq, Eq, Structural, Debug)]
pub struct PictureLike {
    pub picture_id: u128,
    pub like: bool,
}

/// A page of one user's pictures.
pub struct UserPicturePage {
    pub username: String,
    pub index: u32,
    pub count: u32,
}

/// Changes to a user account; `None` leaves a field as it is.
pub struct UserChanges {
    pub username: Option<String>,
    pub password: Option<String>,
    pub email: Option<String>,
    pub email_notifications: Option<bool>,
}

/// Login credentials.
pub struct Credentials {
    pub username: String,
    pub password: String,
}

/// Reset token to be sent to the user
#[derive(Clone, Copy, PartialEq, Eq, Structural, Debug)]
pub struct ResetToken {
    pub reset_token: u128,
}

/// Request payload containing the new password for a password reset
pub struct PasswordReset {
    pub reset_token: u128,
    pub password: String,
}

/// Pending password reset: the account whose password may be reset.
#[derive(Clone, Copy, PartialEq, Eq, Structural, Debug)]
pub struct Request {
    pub account_id: u128,
}

impl<'a> From<&'a DbPicture> for Picture {
    /// The picture as sent to clients, from its row.
    fn from(row: &'a DbPicture) -> (r: Picture)
        ensures
            r == picture_of(row),
    {
        Picture {
            picture_id: row.picture_id,
            account_id: row.account_id,
            superposable: row.superposable,
            creation_ts: row.creation_ts,
            author: row.author.clone(),
            like_count: row.like_count,
            dislike_count: row.dislike_count,
            comment_count: row.comment_count,
            liked: row.liked,
            disliked: row.disliked,
        }
    }
}

/// The picture that a row describes.
pub open spec fn picture_of(row: &DbPicture) -> Picture {
    Picture {
        picture_id: row.picture_id,
        account_id: row.account_id,
        superposable: row.superposable,
        creation_ts: row.creation_ts,
        author: row.author,
        like_count: row.like_count,
        dislike_count: row.dislike_count,
        comment_count: row.comment_count,
        liked: row.liked,
        disliked: row.disliked,
    }
}

impl<'a> vstd::std_specs::convert::FromSpecImpl<&'a DbPicture> for Picture {
    open spec fn obeys_from_spec() -> bool {
        true
    }

    open spec fn from_spec(row: &'a DbPicture) -> Picture {
        picture_of(row)
    }
}

/// Every superposable, in order.
pub open spec fn superposable_list() -> Seq<Superposable> {
    seq![
        Superposable::Chic,
        Superposable::Cry,
        Superposable::Honk,
        Superposable::Rage,
        Superposable::Sad,
        Superposable::Smirk,
        Superposable::Stoned,
        Superposable::Sweat,
    ]
}

impl Superposable {
    /// Position of the picture in the list of superposables, which orders them.
    pub open spec fn rank(self) -> int {
        match self {
            Superposable::Chic => 0,
            Superposable::Cry => 1,
            Superposable::Honk => 2,
            Superposable::Rage => 3,
            Superposable::Sad => 4,
            Superposable::Smirk => 5,
            Superposable::Stoned => 6,
            Superposable::Sweat => 7,
        }
    }

    /// Lowercase name of the picture: its file name and its name in URLs.
    pub open spec fn spec_name(self) -> Seq<char> {
        match self {
            Superposable::Chic => "chic"@,
            Superposable::Cry => "cry"@,
            Superposable::Honk => "honk"@,
            Superposable::Rage => "rage"@,
            Superposable::Sad => "sad"@,
            Superposable::Smirk => "smirk"@,
            Superposable::Stoned => "stoned"@,
            Superposable::Sweat => "sweat"@,
        }
    }

    /// Every superposable, in order.
    pub fn all() -> (r: Vec<Superposable>)
        ensures
            r@ == superposable_list(),
            r@.len() == 8,
            forall|i: int| 0 <= i < 8 ==> (#[trigger] r@[i]).rank() == i,
    {
        vec![
            Superposable::Chic,
            Superposable::Cry,
            Superposable::Honk,
            Superposable::Rage,
            Superposable::Sad,
            Superposable::Smirk,
            Superposable::Stoned,
            Superposable::Sweat,
        ]
    }

    /// Lowercase name of the picture.
    pub fn name(&self) -> (r: &'static str)
        ensures
            r@ == self.spec_name(),
    {
        match self {
            Superposable::Chic => "chic",
            Superposable::Cry => "cry",
            Superposable::Honk => "honk",
            Superposable::Rage => "rage",
            Superposable::Sad => "sad",
            Superposable::Smirk => "smirk",
            Superposable::Stoned => "stoned",
            Superposable::Sweat => "sweat",
        }
    }

    /// The superposable of the given name, or the name back if there is none.
    pub fn from_param(param: &str) -> (r: Result<Superposable, String>)
        ensures
            match r {
                Ok(s) => s.spec_name() == param@,
                Err(p) => p@ == param@ && forall|s: Superposable| s.spec_name() != param@,
            },
    {
        let wanted = param.to_owned();
        let all = Superposable::all();
        let mut i: usize = 0;
        while i < all.len()
            invariant
                all@.len() == 8,
                forall|j: int| 0 <= j < 8 ==> (#[trigger] all@[j]).rank() == j,
                wanted@ == param@,
                i <= 8,
                forall|s: Superposable| s.rank() < i ==> s.spec_name() != param@,
            decreases 8 - i,
        {
            let candidate = all[i];
            if candidate.name().to_owned() == wanted {
                return Ok(candidate);
            }
            i = i + 1;
        }
        Err(wanted)
    }
}

/// `r` holds each superposable of `filter` once, in order.
pub open spec fn normalized(filter: Seq<Superposable>, r: Seq<Superposable>) -> bool {
    &&& forall|s: Superposable| r.contains(s) <==> filter.contains(s)
    &&& forall|i: int, j: int| 0 <= i < j < r.len() ==> (#[trigger] r[i]).rank() < (#[trigger] r[j]).rank()
}

/// The superposables of a filter, each once and in order.
pub fn normalize(filter: &Vec<Superposable>) -> (r: Vec<Superposable>)
    ensures
        normalized(filter@, r@),
{
    let all = Superposable::all();
    let mut r: Vec<Superposable> = Vec::new();
    let mut i: usize = 0;
    while i < all.len()
        invariant
            all@.len() == 8,
            forall|j: int| 0 <= j < 8 ==> (#[trigger] all@[j]).rank() == j,
            i <= 8,
            forall|s: Superposable| r@.contains(s) <==> (filter@.contains(s) && s.rank() < i),
            forall|a: int, b: int| 0 <= a < b < r@.len() ==> (#[trigger] r@[a]).rank() < (#[trigger] r@[b]).rank(),
            forall|a: int| 0 <= a < r@.len() ==> (#[trigger] r@[a]).rank() < i,
        decreases 8 - i,
    {
        let candidate = all[i];
        let mut present = false;
        let mut k: usize = 0;
        while k < filter.len()
            invariant
                present <==> exists|j: int| 0 <= j < k && filter@[j] == candidate,
                k <= filter@.len(),
            decreases filter@.len() - k,
        {
            if filter[k] == candidate {
                present = true;
            }
            k = k + 1;
        }
        let ghost before = r@;
        if present {
            r.push(candidate);
            assert forall|s: Superposable| r@.contains(s) <==> (filter@.contains(s) && s.rank() < i + 1) by {
                if s == candidate {
                    assert(r@[before.len() as int] == s);
                }
                if r@.contains(s) && s != candidate {
                    let a = choose|a: int| 0 <= a < r@.len() && r@[a] == s;
                    assert(before[a] == s);
                }
                if filter@.contains(s) && s.rank() < i {
                    assert(before.contains(s));
                    let a = choose|a: int| 0 <= a < before.len() && before[a] == s;
                    assert(r@[a] == s);
                }
            }
        } else {
            assert forall|s: Superposable| r@.contains(s) <==> (filter@.contains(s) && s.rank() < i + 1) by {
                if filter@.contains(s) && s == candidate {
                    let j = choose|j: int| 0 <= j < filter@.len() && filter@[j] == s;
                }
            }
        }
        i = i + 1;
    }
    r
}

/// The filter of a page of pictures, each superposable once and in order;
/// `None` for a page of no pictures, which needs no query.
pub fn pictures_filter(count: u32, filter: &Vec<Superposable>) -> (r: Option<Vec<Superposable>>)
    ensures
        count == 0 ==> r is None,
        count != 0 ==> (r matches Some(v) && normalized(filter@, v@)),
{
    if count == 0 {
        return None;
    }
    Some(normalize(filter))
}

} // verus!
