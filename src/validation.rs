//! Validation of usernames, passwords and email addresses.
//!
//! Each rule is a regular expression of the regex crate. The expressions are
//! compiled once, into `Patterns`, and then checked against each input.

use regex::Regex;
use vstd::prelude::*;
use vstd::utf8::encode_utf8;

verus! {

#[verifier::external_type_specification]
#[verifier::external_body]
pub struct ExRegex(Regex);

/// Whether the regular expression `pattern`, in the regex crate's syntax,
/// matches somewhere in `text`.
pub uninterp spec fn regex_matches(pattern: Seq<char>, text: Seq<char>) -> bool;

/// Username is simply a string of six to sixty-four word characters.
pub const USERNAME_REGEX: &'static str = "^\\w{6,64}$";

/// Password must contain one lowercase letter, one uppercase letter, a digit,
/// a special character and must be at least 8 characters long.
pub const PASSWORD_LOWER_REGEX: &'static str = "[a-z]+";

pub const PASSWORD_UPPER_REGEX: &'static str = "[A-Z]+";

pub const PASSWORD_DIGIT_REGEX: &'static str = "\\d+";

pub const PASSWORD_SPECIAL_REGEX: &'static str = "\\W+";

pub const PASSWORD_LENGTH_REGEX: &'static str = ".{8,}";

/// HTML5 email regex. The email address must only contain alphanumeric and
/// non whitespace special characters for the first part, an '@' symbol and a
/// domain name.
pub const EMAIL_REGEX: &'static str = "^[a-zA-Z0-9.!#$%&\u{2019}*+/=?^_`{|}~-]+@[a-zA-Z0-9-]+(?:\\.[a-zA-Z0-9-]+)*$";

/// Longest accepted email address, in bytes.
pub const EMAIL_MAX_BYTES: usize = 256;

/// A compiled regular expression, with the text it was compiled from.
pub struct Pattern {
    source: String,
    compiled: Regex,
}

impl Pattern {
    /// The text the expression was compiled from.
    pub closed spec fn source(&self) -> Seq<char> {
        self.source@
    }
}

/// Whether the regex crate compiles `source`: it is valid syntax and its
/// compiled form stays within the crate's default size limit.
pub uninterp spec fn regex_compiles(source: Seq<char>) -> bool;

/// Relies on regex::Regex::new: compiles `source`, or fails on an invalid or
/// too large expression.
#[verifier::external_body]
fn compile(source: &str) -> (r: Option<Pattern>)
    ensures
        r matches Some(p) ==> p.source() == source@,
        r is Some <==> regex_compiles(source@),
{
    match Regex::new(source) {
        Ok(compiled) => Some(Pattern { source: source.to_owned(), compiled }),
        Err(_) => None,
    }
}

/// Relies on regex::Regex::is_match: whether the expression matches somewhere
/// in `text`.
#[verifier::external_body]
fn is_match(pattern: &Pattern, text: &str) -> (r: bool)
    ensures
        r == regex_matches(pattern.source(), text@),
{
    pattern.compiled.is_match(text)
}

/// The compiled validation rules.
pub struct Patterns {
    username: Pattern,
    lower: Pattern,
    upper: Pattern,
    digit: Pattern,
    special: Pattern,
    length: Pattern,
    email: Pattern,
}

impl Patterns {
    /// Each rule is compiled from its expression.
    pub closed spec fn wf(&self) -> bool {
        &&& self.username.source() == USERNAME_REGEX@
        &&& self.lower.source() == PASSWORD_LOWER_REGEX@
        &&& self.upper.source() == PASSWORD_UPPER_REGEX@
        &&& self.digit.source() == PASSWORD_DIGIT_REGEX@
        &&& self.special.source() == PASSWORD_SPECIAL_REGEX@
        &&& self.length.source() == PASSWORD_LENGTH_REGEX@
        &&& self.email.source() == EMAIL_REGEX@
    }

    /// Compiles the rules; `None` if one of the expressions does not compile.
    pub fn new() -> (r: Option<Patterns>)
        ensures
            r matches Some(p) ==> p.wf(),
            r is Some <==> (regex_compiles(USERNAME_REGEX@) && regex_compiles(PASSWORD_LOWER_REGEX@)
                && regex_compiles(PASSWORD_UPPER_REGEX@) && regex_compiles(PASSWORD_DIGIT_REGEX@)
                && regex_compiles(PASSWORD_SPECIAL_REGEX@) && regex_compiles(PASSWORD_LENGTH_REGEX@)
                && regex_compiles(EMAIL_REGEX@)),
    {
        let username = compile(USERNAME_REGEX)?;
        let lower = compile(PASSWORD_LOWER_REGEX)?;
        let upper = compile(PASSWORD_UPPER_REGEX)?;
        let digit = compile(PASSWORD_DIGIT_REGEX)?;
        let special = compile(PASSWORD_SPECIAL_REGEX)?;
        let length = compile(PASSWORD_LENGTH_REGEX)?;
        let email = compile(EMAIL_REGEX)?;
        Some(Patterns { username, lower, upper, digit, special, length, email })
    }
}

/// The message of the first password rule that `text` breaks, if any.
pub open spec fn password_problem(text: Seq<char>) -> Option<Seq<char>> {
    if !regex_matches(PASSWORD_LOWER_REGEX@, text) {
        Some("password must contain at least one lower case letter"@)
    } else if !regex_matches(PASSWORD_UPPER_REGEX@, text) {
        Some("password must contain at least one upper case letter"@)
    } else if !regex_matches(PASSWORD_DIGIT_REGEX@, text) {
        Some("password must contain at least one digit"@)
    } else if !regex_matches(PASSWORD_SPECIAL_REGEX@, text) {
        Some("password must contain at least one special character"@)
    } else if !regex_matches(PASSWORD_LENGTH_REGEX@, text) {
        Some("password must be at least eight characters long"@)
    } else {
        None
    }
}

/// The message for a username that is not a word of 6 to 64 characters.
pub open spec fn username_problem(name: Seq<char>) -> Option<Seq<char>> {
    if regex_matches(USERNAME_REGEX@, name) {
        None
    } else {
        Some("username must be a word of 6 to 64 characters long"@)
    }
}

/// The message for an address that does not look like an email, or whose
/// UTF-8 encoding is longer than `EMAIL_MAX_BYTES`.
pub open spec fn email_problem(address: Seq<char>) -> Option<Seq<char>> {
    if regex_matches(EMAIL_REGEX@, address) && encode_utf8(address).len() <= EMAIL_MAX_BYTES as int {
        None
    } else {
        Some("invalid email format"@)
    }
}

/// `r` accepts when `problem` is `None`, and otherwise refuses with it.
pub open spec fn verdict(r: Result<(), String>, problem: Option<Seq<char>>) -> bool {
    match problem {
        None => r is Ok,
        Some(message) => r matches Err(m) && m@ == message,
    }
}

/// Check that the given username is a valid string
pub fn username(patterns: &Patterns, name: &str) -> (r: Result<(), String>)
    requires
        patterns.wf(),
    ensures
        verdict(r, username_problem(name@)),
{
    if !is_match(&patterns.username, name) {
        return Err("username must be a word of 6 to 64 characters long".to_owned());
    }
    Ok(())
}

/// Check that the password is long and strong enough
pub fn password(patterns: &Patterns, text: &str) -> (r: Result<(), String>)
    requires
        patterns.wf(),
    ensures
        verdict(r, password_problem(text@)),
{
    if !is_match(&patterns.lower, text) {
        return Err("password must contain at least one lower case letter".to_owned());
    }
    if !is_match(&patterns.upper, text) {
        return Err("password must contain at least one upper case letter".to_owned());
    }
    if !is_match(&patterns.digit, text) {
        return Err("password must contain at least one digit".to_owned());
    }
    if !is_match(&patterns.special, text) {
        return Err("password must contain at least one special character".to_owned());
    }
    if !is_match(&patterns.length, text) {
        return Err("password must be at least eight characters long".to_owned());
    }
    Ok(())
}

/// Check that the email actually looks like an email
pub fn email(patterns: &Patterns, address: &str) -> (r: Result<(), String>)
    requires
        patterns.wf(),
    ensures
        verdict(r, email_problem(address@)),
{
    if !is_match(&patterns.email, address) || address.as_bytes().len() > EMAIL_MAX_BYTES {
        return Err("invalid email format".to_owned());
    }
    Ok(())
}

} // verus!
