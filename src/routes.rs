//! Route-level logic that does not wait on the database.

pub mod comment;
pub mod confirm;
pub mod email;
pub mod login;
pub mod logout;
pub mod picture;
pub mod register;
pub mod reset;
pub mod user;

use crate::ids::{hyphenated, hyphenated_text};
use crate::payload::{superposable_list, Superposable};
use crate::token::Token;
use vstd::prelude::*;
use vstd::string::StringExecFns;

verus! {

/// CORS preflight handler: nothing to do beyond answering.
pub fn options() {
}

/// Attaches the CORS headers to responses.
pub struct Cors;

impl Cors {
    /// The headers that let the front end at `front_link` call the api with
    /// its credentials.
    pub fn headers(&self, front_link: &str) -> (r: Vec<(String, String)>)
        ensures
            r@.len() == 4,
            r@[0].0@ == "Access-Control-Allow-Origin"@ && r@[0].1@ == front_link@,
            r@[1].0@ == "Access-Control-Allow-Methods"@ && r@[1].1@ == "GET, POST, PUT, DELETE"@,
            r@[2].0@ == "Access-Control-Allow-Headers"@ && r@[2].1@ == "Content-Type"@,
            r@[3].0@ == "Access-Control-Allow-Credentials"@ && r@[3].1@ == "true"@,
    {
        let mut r: Vec<(String, String)> = Vec::new();
        r.push(("Access-Control-Allow-Origin".to_owned(), front_link.to_owned()));
        r.push(("Access-Control-Allow-Methods".to_owned(), "GET, POST, PUT, DELETE".to_owned()));
        r.push(("Access-Control-Allow-Headers".to_owned(), "Content-Type".to_owned()));
        r.push(("Access-Control-Allow-Credentials".to_owned(), "true".to_owned()));
        r
    }
}

/// The names of the superposable pictures, in order.
pub fn superposables() -> (r: Vec<String>)
    ensures
        r@.len() == 8,
        forall|i: int| 0 <= i < 8 ==> (#[trigger] r@[i])@ == superposable_list()[i].spec_name(),
{
    let all = Superposable::all();
    let mut r: Vec<String> = Vec::new();
    let mut i: usize = 0;
    while i < all.len()
        invariant
            all@ == superposable_list(),
            i <= 8,
            r@.len() == i,
            forall|j: int| 0 <= j < i ==> (#[trigger] r@[j])@ == superposable_list()[j].spec_name(),
        decreases 8 - i,
    {
        let name = all[i].name().to_owned();
        r.push(name);
        i = i + 1;
    }
    r
}

/// `prefix`, then `quoted` between single quotes, then `suffix`.
pub open spec fn quote(prefix: Seq<char>, quoted: Seq<char>, suffix: Seq<char>) -> Seq<char> {
    prefix + seq!['\''] + quoted + seq!['\''] + suffix
}

/// Text made of `prefix`, `quoted` between single quotes, and `suffix`.
pub fn quote_text(prefix: &str, quoted: &str, suffix: &str) -> (r: String)
    ensures
        r@ == quote(prefix@, quoted@, suffix@),
{
    let mut text = prefix.to_owned();
    text.append("'");
    text.append(quoted);
    text.append("'");
    text.append(suffix);
    proof {
        reveal_strlit("'");
    }
    assert(text@ =~= quote(prefix@, quoted@, suffix@));
    text
}

/// The link to `page` of the front end at `front` that carries `token`.
pub open spec fn token_link(front: Seq<char>, page: Seq<char>, token: u128) -> Seq<char> {
    front + seq!['/'] + page + "?token="@ + hyphenated(token)
}

/// The link to `page` of the front end at `front` that carries `token`.
pub fn link(front: &str, page: &str, token: &Token) -> (r: String)
    ensures
        r@ == token_link(front@, page@, token.token),
{
    let mut text = front.to_owned();
    text.append("/");
    text.append(page);
    text.append("?token=");
    let id = hyphenated_text(token.token);
    text.append(id.as_str());
    proof {
        reveal_strlit("/");
    }
    assert(text@ =~= token_link(front@, page@, token.token));
    text
}

} // verus!
