//! Request guards: each turns one raw header value into a validated value, or
//! into the error that rejects the request.
use vstd::prelude::*;
use crate::error::ApiError;
use crate::hex_codec::{decode_32, decode_any, encode_32, hex_decode, hex_encode, is_hex};

verus! {

/// An authentication key: 32 raw bytes, written as 64 hex digits.
#[derive(Clone, Copy)]
pub struct AuthKey(pub [u8; 32]);

/// The key that a user rotates to; parsed as an `AuthKey` is, but a type of its
/// own so that the two cannot be swapped.
#[derive(Clone, Copy)]
pub struct NewAuthKey(pub [u8; 32]);

/// An e-mail address that passed the structural check.
#[derive(Clone)]
pub struct Email(pub String);

/// A vault: opaque hex text, kept as it was given.
#[derive(Clone)]
pub struct Vault(pub String);

/// How many times `c` occurs in `s`.
pub open spec fn count_char(s: Seq<char>, c: char) -> nat
    decreases s.len(),
{
    if s.len() == 0 {
        0
    } else {
        count_char(s.drop_last(), c) + if s.last() == c { 1nat } else { 0nat }
    }
}

/// How many dots follow the last `@` of `s` (all of its dots if it has none).
pub open spec fn dots_after_at(s: Seq<char>) -> nat
    decreases s.len(),
{
    if s.len() == 0 {
        0
    } else if s.last() == '@' {
        0
    } else {
        dots_after_at(s.drop_last()) + if s.last() == '.' { 1nat } else { 0nat }
    }
}

/// An address splits on `@` into two pieces, and the piece after the `@` splits
/// on `.` into two pieces.
pub open spec fn is_valid_email(s: Seq<char>) -> bool {
    count_char(s, '@') == 1 && dots_after_at(s) == 1
}

/// What a key header yields: its 32 bytes when it is 64 hex digits.
pub open spec fn key_header_ok(s: Seq<char>) -> bool {
    s.len() == 64 && is_hex(s)
}

impl AuthKey {
    /// The key as stored: 64 lowercase hex digits.
    pub open spec fn hex(&self) -> Seq<char> {
        hex_encode(self.0@)
    }

    /// Validates the `x-auth-key` header.
    pub fn from_header(header: Option<&str>) -> (r: Result<AuthKey, ApiError>)
        ensures
            header is None ==> r == Err::<AuthKey, ApiError>(ApiError::AuthKeyMissing),
            header matches Some(s) ==> (r is Ok <==> key_header_ok(s@)),
            header matches Some(s) ==> (!key_header_ok(s@) ==> r == Err::<AuthKey, ApiError>(ApiError::AuthKeyInvalid)),
            header matches Some(s) ==> (r matches Ok(k) ==> k.0@ == hex_decode(s@)),
    {
        match header {
            None => Err(ApiError::AuthKeyMissing),
            Some(s) => match decode_32(s) {
                Ok(bytes) => Ok(AuthKey(bytes)),
                Err(_) => Err(ApiError::AuthKeyInvalid),
            },
        }
    }

    /// The key as stored: 64 lowercase hex digits.
    pub fn to_hex(&self) -> (r: String)
        ensures
            r@ == self.hex(),
    {
        encode_32(&self.0)
    }
}

impl NewAuthKey {
    /// The key as stored: 64 lowercase hex digits.
    pub open spec fn hex(&self) -> Seq<char> {
        hex_encode(self.0@)
    }

    /// Validates the `x-new-auth-key` header.
    pub fn from_header(header: Option<&str>) -> (r: Result<NewAuthKey, ApiError>)
        ensures
            header is None ==> r == Err::<NewAuthKey, ApiError>(ApiError::AuthKeyMissing),
            header matches Some(s) ==> (r is Ok <==> key_header_ok(s@)),
            header matches Some(s) ==> (!key_header_ok(s@) ==> r == Err::<NewAuthKey, ApiError>(ApiError::AuthKeyInvalid)),
            header matches Some(s) ==> (r matches Ok(k) ==> k.0@ == hex_decode(s@)),
    {
        match header {
            None => Err(ApiError::AuthKeyMissing),
            Some(s) => match decode_32(s) {
                Ok(bytes) => Ok(NewAuthKey(bytes)),
                Err(_) => Err(ApiError::AuthKeyInvalid),
            },
        }
    }

    /// The key as stored: 64 lowercase hex digits.
    pub fn to_hex(&self) -> (r: String)
        ensures
            r@ == self.hex(),
    {
        encode_32(&self.0)
    }
}

impl Email {
    /// Validates the `x-email` header; a valid address is kept unchanged.
    pub fn from_header(header: Option<&str>) -> (r: Result<Email, ApiError>)
        ensures
            header is None ==> r == Err::<Email, ApiError>(ApiError::EmailMissing),
            header matches Some(s) ==> (r is Ok <==> is_valid_email(s@)),
            header matches Some(s) ==> (!is_valid_email(s@) ==> r == Err::<Email, ApiError>(ApiError::EmailInvalid)),
            header matches Some(s) ==> (r matches Ok(e) ==> e.0@ == s@),
    {
        match header {
            None => Err(ApiError::EmailMissing),
            Some(s) => {
                if is_email(s) {
                    Ok(Email(s.to_owned()))
                } else {
                    Err(ApiError::EmailInvalid)
                }
            },
        }
    }
}

/// Whether `s` passes the structural e-mail check.
pub fn is_email(s: &str) -> (r: bool)
    ensures
        r == is_valid_email(s@),
{
    let n = s.unicode_len();
    let mut ats: usize = 0;
    let mut dots: usize = 0;
    let mut i: usize = 0;
    while i < n
        invariant
            n == s@.len(),
            i <= n,
            ats == count_char(s@.subrange(0, i as int), '@'),
            dots == dots_after_at(s@.subrange(0, i as int)),
            ats <= i,
            dots <= i,
        decreases n - i,
    {
        let c = s.get_char(i);
        assert(s@.subrange(0, i + 1).drop_last() == s@.subrange(0, i as int));
        if c == '@' {
            ats = ats + 1;
            dots = 0;
        } else if c == '.' {
            dots = dots + 1;
        }
        i = i + 1;
    }
    assert(s@.subrange(0, n as int) == s@);
    ats == 1 && dots == 1
}

impl Vault {
    /// Validates the `x-vault` header: it must decode as hex; the text itself is
    /// what is kept.
    pub fn from_header(header: Option<&str>) -> (r: Result<Vault, ApiError>)
        ensures
            header is None ==> r == Err::<Vault, ApiError>(ApiError::VaultMissing),
            header matches Some(s) ==> (r is Ok <==> is_hex(s@)),
            header matches Some(s) ==> (!is_hex(s@) ==> r == Err::<Vault, ApiError>(ApiError::VaultInvalid)),
            header matches Some(s) ==> (r matches Ok(v) ==> v.0@ == s@),
    {
        match header {
            None => Err(ApiError::VaultMissing),
            Some(s) => match decode_any(s) {
                Ok(_) => Ok(Vault(s.to_owned())),
                Err(_) => Err(ApiError::VaultInvalid),
            },
        }
    }
}

} // verus!
