//! The password rules: 8 to 20 bytes long, with at least one uppercase
//! letter, one lowercase letter and one numeric character.

use vstd::prelude::*;
use vstd::string::*;
use vstd::utf8::encode_utf8;

verus! {

/// Whether the character has the Unicode `Uppercase` property
/// (what `char::is_uppercase` returns).
pub uninterp spec fn unicode_uppercase(c: char) -> bool;

/// Whether the character has the Unicode `Lowercase` property
/// (what `char::is_lowercase` returns).
pub uninterp spec fn unicode_lowercase(c: char) -> bool;

/// Whether the character is numeric in Unicode's sense
/// (what `char::is_numeric` returns).
pub uninterp spec fn unicode_numeric(c: char) -> bool;

/// Calls `char::is_uppercase`; claimed: the result is the named property.
#[verifier::external_body]
fn char_is_uppercase(c: char) -> (res: bool)
    ensures
        res == unicode_uppercase(c),
{
    c.is_uppercase()
}

/// Calls `char::is_lowercase`; claimed: the result is the named property.
#[verifier::external_body]
fn char_is_lowercase(c: char) -> (res: bool)
    ensures
        res == unicode_lowercase(c),
{
    c.is_lowercase()
}

/// Calls `char::is_numeric`; claimed: the result is the named property.
#[verifier::external_body]
fn char_is_numeric(c: char) -> (res: bool)
    ensures
        res == unicode_numeric(c),
{
    c.is_numeric()
}

/// Some character of `s` has the property `p`.
pub open spec fn has_char_where(s: Seq<char>, p: spec_fn(char) -> bool) -> bool {
    exists|i: int| 0 <= i < s.len() && p(#[trigger] s[i])
}

/// Some character of `s` is uppercase.
pub open spec fn has_uppercase(s: Seq<char>) -> bool {
    has_char_where(s, |c: char| unicode_uppercase(c))
}

/// Some character of `s` is lowercase.
pub open spec fn has_lowercase(s: Seq<char>) -> bool {
    has_char_where(s, |c: char| unicode_lowercase(c))
}

/// Some character of `s` is numeric.
pub open spec fn has_numeric(s: Seq<char>) -> bool {
    has_char_where(s, |c: char| unicode_numeric(c))
}

/// Appending a character adds exactly that character to those searched.
proof fn lemma_has_char_push(s: Seq<char>, c: char, p: spec_fn(char) -> bool)
    ensures
        has_char_where(s.push(c), p) == (has_char_where(s, p) || p(c)),
{
    let t = s.push(c);
    if has_char_where(t, p) && !p(c) {
        let j = choose|j: int| 0 <= j < t.len() && p(#[trigger] t[j]);
        assert(t[j] == s[j]);
    }
    if has_char_where(s, p) {
        let j = choose|j: int| 0 <= j < s.len() && p(#[trigger] s[j]);
        assert(t[j] == s[j]);
    }
    assert(t[s.len() as int] == c);
}

/// The length rule, over the UTF-8 encoded length in bytes.
pub open spec fn password_length_ok(password: Seq<char>) -> bool {
    8 <= encode_utf8(password).len() <= 20
}

/// Every character takes at least one byte once UTF-8 encoded.
pub proof fn lemma_encoded_len_at_least_chars(s: Seq<char>)
    ensures
        encode_utf8(s).len() >= s.len(),
    decreases s.len(),
{
    if s.len() > 0 {
        lemma_encoded_len_at_least_chars(s.drop_first());
    }
}

/// The character-class rule.
pub open spec fn password_format_ok(s: Seq<char>) -> bool {
    has_uppercase(s) && has_lowercase(s) && has_numeric(s)
}

/// A rule that a field broke: a short code and a message for the user.
#[derive(Clone, Debug)]
pub struct FieldError {
    pub code: String,
    pub message: String,
}

pub open spec fn length_code() -> Seq<char> {
    "Length"@
}

pub open spec fn length_message() -> Seq<char> {
    "Password must be 8-20 characters long"@
}

pub open spec fn format_code() -> Seq<char> {
    "format"@
}

pub open spec fn format_message() -> Seq<char> {
    "Password must contain as least one uppercase, one lowercase, and number"@
}

/// Checks a password against the rules. The length rule is checked first:
/// a password of the wrong length is refused for its length whatever
/// characters it holds.
pub fn validate_password(password: &str) -> (res: Result<(), FieldError>)
    ensures
        !password_length_ok(password@) ==> (res matches Err(e) && e.code@ == length_code()
            && e.message@ == length_message()),
        password_length_ok(password@) && !password_format_ok(password@) ==> (res matches Err(e)
            && e.code@ == format_code() && e.message@ == format_message()),
        res is Ok <==> password_length_ok(password@) && password_format_ok(password@),
        res is Ok <==> (8 <= encode_utf8(password@).len() <= 20 && (exists|i: int|
            0 <= i < password@.len() && unicode_uppercase(#[trigger] password@[i])) && (exists|i: int|
            0 <= i < password@.len() && unicode_lowercase(#[trigger] password@[i])) && (exists|i: int|
            0 <= i < password@.len() && unicode_numeric(#[trigger] password@[i]))),
{
    let n = password.unicode_len();
    let mut has_upper = false;
    let mut has_lower = false;
    let mut has_digit = false;
    let mut i: usize = 0;
    while i < n
        invariant
            n == password@.len(),
            i <= n,
            has_upper == has_uppercase(password@.take(i as int)),
            has_lower == has_lowercase(password@.take(i as int)),
            has_digit == has_numeric(password@.take(i as int)),
        decreases n - i,
    {
        let c = password.get_char(i);
        let up = char_is_uppercase(c);
        let low = char_is_lowercase(c);
        let num = char_is_numeric(c);
        let ghost prev = password@.take(i as int);
        let ghost next = password@.take(i + 1);
        assert(next =~= prev.push(c));
        assert(next[i as int] == c);
        proof {
            lemma_has_char_push(prev, c, |c: char| unicode_uppercase(c));
            lemma_has_char_push(prev, c, |c: char| unicode_lowercase(c));
            lemma_has_char_push(prev, c, |c: char| unicode_numeric(c));
        }
        has_upper = has_upper || up;
        has_lower = has_lower || low;
        has_digit = has_digit || num;
        i = i + 1;
    }
    assert(password@.take(n as int) =~= password@);
    let byte_len = password.as_bytes().len();
    let is_valid_length = byte_len >= 8 && byte_len <= 20;
    if !is_valid_length {
        return Err(
            FieldError { code: "Length".to_owned(), message: "Password must be 8-20 characters long".to_owned() },
        );
    }
    if !has_upper || !has_lower || !has_digit {
        return Err(
            FieldError {
                code: "format".to_owned(),
                message: "Password must contain as least one uppercase, one lowercase, and number".to_owned(),
            },
        );
    }
    Ok(())
}

} // verus!
