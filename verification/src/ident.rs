//! Session identifiers: a fixed prefix followed by a token of eight
//! upper-case hexadecimal characters drawn at random.

use crate::text::push_char;
use vstd::prelude::*;
use vstd::string::*;

verus! {

/// Lower-case hexadecimal digit.
pub open spec fn is_lower_hex(c: char) -> bool {
    ('0' <= c && c <= '9') || ('a' <= c && c <= 'f')
}

/// Upper-case hexadecimal digit.
pub open spec fn is_upper_hex(c: char) -> bool {
    ('0' <= c && c <= '9') || ('A' <= c && c <= 'F')
}

/// The upper-case form of an ASCII letter; every other character is itself.
pub open spec fn upper(c: char) -> char {
    if 'a' <= c && c <= 'z' {
        ((c as u8 - 32) as u8) as char
    } else {
        c
    }
}

/// Number of characters in a token.
pub open spec fn token_len() -> nat {
    8
}

/// A token: eight upper-case hexadecimal digits.
pub open spec fn is_token(t: Seq<char>) -> bool {
    t.len() == token_len() && forall|i: int| 0 <= i < t.len() ==> is_upper_hex(#[trigger] t[i])
}

/// The token cut from a longer text: its first eight characters (all of
/// them where it has fewer), each in upper case.
pub open spec fn token_of(text: Seq<char>) -> Seq<char> {
    Seq::new(
        if text.len() < token_len() {
            text.len()
        } else {
            token_len()
        },
        |i: int| upper(text[i]),
    )
}

/// The prefix that every session identifier starts with.
pub open spec fn id_prefix() -> Seq<char> {
    "ver_local_"@
}

/// The identifier built from a token.
pub open spec fn id_of_token(token: Seq<char>) -> Seq<char> {
    id_prefix() + token
}

/// Draws a random version-4 UUID with `uuid::Uuid::new_v4` and renders it
/// with its `Display` impl. Whatever was drawn, the text is the hyphenated
/// form: 36 characters, of which the first eight are lower-case hexadecimal
/// digits. Nothing is claimed of which digits they are. The draw panics
/// where the operating system hands out no random bytes.
#[verifier::external_body]
fn draw_uuid_text() -> (text: String)
    ensures
        text@.len() == 36,
        forall|i: int| 0 <= i < 8 ==> is_lower_hex(#[trigger] text@[i]),
{
    uuid::Uuid::new_v4().to_string()
}

/// Upper-case form of one character, ASCII letters only.
pub fn to_upper(c: char) -> (u: char)
    ensures
        u == upper(c),
{
    if 'a' <= c && c <= 'z' {
        ((c as u8) - 32) as char
    } else {
        c
    }
}

/// Cuts a token from `text`.
pub fn token_from_text(text: &str) -> (token: String)
    ensures
        token@ == token_of(text@),
{
    let n: usize = text.unicode_len();
    let take: usize = if n < 8 { n } else { 8 };
    let mut token = String::new();
    let mut i: usize = 0;
    while i < take
        invariant
            i <= take,
            take as nat == token_of(text@).len(),
            take <= text@.len(),
            token@ == token_of(text@).subrange(0, i as int),
        decreases take - i,
    {
        let c = text.get_char(i);
        push_char(&mut token, to_upper(c));
        i += 1;
        assert(token@ =~= token_of(text@).subrange(0, i as int));
    }
    assert(token@ =~= token_of(text@));
    token
}

/// Draws a fresh random token.
pub fn fresh_token() -> (token: String)
    ensures
        is_token(token@),
{
    let text = draw_uuid_text();
    let token = token_from_text(text.as_str());
    assert forall|i: int| 0 <= i < token@.len() implies is_upper_hex(#[trigger] token@[i]) by {
        assert(is_lower_hex(text@[i]));
    }
    token
}

/// Builds the session identifier that carries `token`.
pub fn session_id(token: &str) -> (id: String)
    ensures
        id@ == id_of_token(token@),
{
    let mut id = String::from_str("ver_local_");
    id.append(token);
    id
}

} // verus!
