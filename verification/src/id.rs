//! Typed, sortable, globally unique identifiers.
//!
//! An identifier is a 128-bit time-ordered token tagged at the type level
//! with its entity kind. Its canonical string form is `"{prefix}-{token}"`,
//! where the prefix is the kind's fixed string and the token is rendered as
//! 26 Crockford base32 digits by the `ulid` crate.

use vstd::prelude::*;
use vstd::string::StringExecFns;
use core::marker::PhantomData;
use crate::EntityType;

verus! {

/// The 26-character Crockford base32 rendering of a token, as produced by
/// the `ulid` crate. A function of the token alone.
pub uninterp spec fn ulid_chars(token: u128) -> Seq<char>;

/// What the `ulid` crate's base32 decoder returns for a string: the decoded
/// token, or nothing when the string is not a valid rendering. A function of
/// the string alone.
pub uninterp spec fn ulid_decode(s: Seq<char>) -> Option<u128>;

/// Relies on `ulid::Ulid::new`: a fresh token drawn from the current time
/// and a random source. Nothing is assumed about the value.
#[verifier::external_body]
fn fresh_token() -> u128 {
    ulid::Ulid::new().0
}

/// Relies on the `Display` impl of `ulid::Ulid`: 26 Crockford base32
/// digits, drawn from an alphabet that does not contain `'-'`, and a
/// function of the token alone.
#[verifier::external_body]
fn encode_token(token: u128) -> (r: String)
    ensures
        r@ == ulid_chars(token),
        r@.len() == 26,
        forall|i: int| 0 <= i < r@.len() ==> r@[i] != '-',
{
    format!("{}", ulid::Ulid(token))
}

/// Relies on `ulid::Ulid::from_string`: base32 decoding is a function of
/// the string alone, and decoding the canonical rendering of a token gives
/// that token back.
#[verifier::external_body]
fn decode_token(s: &str) -> (r: Option<u128>)
    ensures
        r == ulid_decode(s@),
        forall|t: u128| s@ == ulid_chars(t) ==> r == Some(t),
{
    match ulid::Ulid::from_string(s) {
        Ok(u) => Some(u.0),
        Err(_) => None,
    }
}

/// Relies on `str::split_once`: the parts strictly before and strictly
/// after the first `'-'`, or nothing when the string holds no `'-'`.
#[verifier::external_body]
fn split_at_dash(s: &str) -> (r: Option<(String, String)>)
    ensures
        match r {
            Some(parts) => {
                &&& s@ == parts.0@ + seq!['-'] + parts.1@
                &&& !parts.0@.contains('-')
            },
            None => !s@.contains('-'),
        },
{
    match s.split_once('-') {
        Some((a, b)) => Some((a.to_string(), b.to_string())),
        None => None,
    }
}

/// Why a string failed to parse as an identifier.
#[derive(Clone, Copy, Debug, PartialEq, Eq, Structural)]
pub enum ParseIdError {
    /// The string holds no `'-'` separator.
    InvalidFormat,
    /// The part before the first `'-'` is not this kind's prefix.
    WrongPrefix,
    /// The part after the first `'-'` does not decode as a token.
    InvalidUlid,
}

/// A unique identifier for an entity of kind `K`.
#[derive(Debug)]
pub struct Id<K> {
    /// The raw 128-bit time-ordered token.
    pub token: u128,
    pub marker: PhantomData<K>,
}

impl<K> Clone for Id<K> {
    fn clone(&self) -> (r: Id<K>)
        ensures
            r == *self,
    {
        Id { token: self.token, marker: PhantomData }
    }
}

impl<K> Copy for Id<K> {

}

impl<K> PartialEq for Id<K> {
    fn eq(&self, other: &Id<K>) -> (r: bool)
    {
        self.token == other.token
    }
}

impl<K> vstd::std_specs::cmp::PartialEqSpecImpl for Id<K> {
    open spec fn obeys_eq_spec() -> bool {
        true
    }

    open spec fn eq_spec(&self, other: &Id<K>) -> bool {
        self.token == other.token
    }
}

/// Two identifiers of one kind are equal exactly when their tokens are.
pub proof fn lemma_id_eq<K>(a: Id<K>, b: Id<K>)
    ensures
        (a == b) <==> a.token == b.token,
{
}

/// The executable `==` of identifiers agrees with mathematical equality.
pub proof fn lemma_id_obeys_eq<K>()
    ensures
        crate::vecs::eq_is_spec_eq::<Id<K>>(),
{
    assert forall|a: Id<K>, b: Id<K>| #[trigger]
        vstd::std_specs::cmp::PartialEqSpec::eq_spec(&a, &b) <==> a == b by {
        lemma_id_eq(a, b);
    }
}

/// The canonical string form of the identifier of kind `K` with this token.
pub open spec fn spec_id_str<K: EntityType>(token: u128) -> Seq<char> {
    K::spec_prefix() + seq!['-'] + ulid_chars(token)
}

/// What parsing a string as an identifier of kind `K` yields: the string is
/// split at its first `'-'`; the left part must be the kind's prefix and
/// the right part must decode as a token.
pub open spec fn spec_parse_id<K: EntityType>(s: Seq<char>) -> Result<Id<K>, ParseIdError> {
    match s.index_of_first('-') {
        None => Err(ParseIdError::InvalidFormat),
        Some(i) => {
            if s.subrange(0, i) != K::spec_prefix() {
                Err(ParseIdError::WrongPrefix)
            } else {
                match ulid_decode(s.subrange(i + 1, s.len() as int)) {
                    Some(t) => Ok(Id { token: t, marker: PhantomData }),
                    None => Err(ParseIdError::InvalidUlid),
                }
            }
        },
    }
}

/// A sequence of the shape `p + "-" + rest` with `p` free of dashes has its
/// first dash exactly after `p`, so splitting there recovers `p` and `rest`.
proof fn lemma_first_dash(p: Seq<char>, rest: Seq<char>)
    requires
        forall|i: int| 0 <= i < p.len() ==> p[i] != '-',
    ensures
        (p + seq!['-'] + rest).index_of_first('-') == Some(p.len() as int),
        (p + seq!['-'] + rest).subrange(0, p.len() as int) == p,
        (p + seq!['-'] + rest).subrange(p.len() as int + 1, (p + seq!['-'] + rest).len() as int)
            == rest,
{
    let s = p + seq!['-'] + rest;
    assert(s[p.len() as int] == '-');
    assert(s.contains('-'));
    s.index_of_first_ensures('-');
    let i = s.index_of_first('-').unwrap();
    if i < p.len() {
        assert(s[i] == p[i]);
        assert(false);
    }
    assert(i == p.len());
    assert(s.subrange(0, p.len() as int) =~= p);
    assert(s.subrange(p.len() as int + 1, s.len() as int) =~= rest);
}

/// Parsing rejects, with `WrongPrefix`, any string whose dash-free leading
/// part is the prefix of a different kind.
pub proof fn lemma_wrong_prefix<K: EntityType>(p: Seq<char>, rest: Seq<char>)
    requires
        forall|i: int| 0 <= i < p.len() ==> p[i] != '-',
        p != K::spec_prefix(),
    ensures
        spec_parse_id::<K>(p + seq!['-'] + rest) == Err::<Id<K>, ParseIdError>(
            ParseIdError::WrongPrefix,
        ),
{
    lemma_first_dash(p, rest);
}

/// Parsing the canonical string form of a token of kind `K` succeeds and
/// gives that token back, provided decoding inverts the rendering (which
/// the decoder's contract supplies at every call).
pub proof fn lemma_id_round_trip<K: EntityType>(t: u128)
    requires
        ulid_chars(t).len() == 26,
        forall|i: int| 0 <= i < ulid_chars(t).len() ==> #[trigger] ulid_chars(t)[i] != '-',
        ulid_decode(ulid_chars(t)) == Some(t),
    ensures
        spec_parse_id::<K>(spec_id_str::<K>(t)) == Ok::<Id<K>, ParseIdError>(
            Id::<K> { token: t, marker: PhantomData },
        ),
{
    K::prefix_wf();
    lemma_first_dash(K::spec_prefix(), ulid_chars(t));
}

impl<K: EntityType> Id<K> {
    /// A fresh identifier whose token comes from a monotonic
    /// time-and-randomness source.
    pub fn new() -> Id<K> {
        Id { token: fresh_token(), marker: PhantomData }
    }

    /// The identifier of kind `K` carrying the given token.
    pub fn from_token(token: u128) -> (r: Id<K>)
        ensures
            r == (Id::<K> { token, marker: PhantomData }),
    {
        Id { token, marker: PhantomData }
    }

    /// The canonical string form, `"{prefix}-{token}"`: the kind's prefix,
    /// the separator, and the token as 26 characters none of which is the
    /// separator.
    #[allow(clippy::inherent_to_string)]
    pub fn to_string(&self) -> (r: String)
        ensures
            r@ == spec_id_str::<K>(self.token),
            r@.len() == K::spec_prefix().len() + 27,
            forall|i: int| K::spec_prefix().len() + 1 <= i < r@.len() ==> r@[i] != '-',
    {
        let mut s: String = K::prefix().to_owned();
        s.append("-");
        let tok = encode_token(self.token);
        s.append(tok.as_str());
        proof {
            reveal_strlit("-");
            assert("-"@ =~= seq!['-']);
            let plen = K::spec_prefix().len() as int;
            let full = spec_id_str::<K>(self.token);
            assert forall|i: int| plen + 1 <= i < full.len() implies full[i] != '-' by {
                assert(full[i] == ulid_chars(self.token)[i - plen - 1]);
            }
        }
        s
    }

    /// Parse the canonical string form back into an identifier.
    ///
    /// Splits at the first `'-'`; the left part must equal this kind's
    /// prefix and the right part must decode as a token. Parsing the
    /// output of [`Id::to_string`] gives the identifier back, whichever
    /// token it holds.
    pub fn parse(s: &str) -> (r: Result<Id<K>, ParseIdError>)
        ensures
            r == spec_parse_id::<K>(s@),
            forall|t: u128| s@ == spec_id_str::<K>(t) ==> r == Ok::<Id<K>, ParseIdError>(
                Id::<K> { token: t, marker: PhantomData },
            ),
    {
        match split_at_dash(s) {
            None => {
                proof {
                    s@.index_of_first_ensures('-');
                    assert forall|t: u128| s@ != spec_id_str::<K>(t) by {
                        K::prefix_wf();
                        if s@ == spec_id_str::<K>(t) {
                            assert(s@[K::spec_prefix().len() as int] == '-');
                            assert(s@.contains('-'));
                        }
                    }
                }
                Err(ParseIdError::InvalidFormat)
            },
            Some((left, right)) => {
                proof {
                    assert forall|i: int| 0 <= i < left@.len() implies left@[i] != '-' by {
                        if left@[i] == '-' {
                            assert(left@.contains('-'));
                        }
                    }
                    lemma_first_dash(left@, right@);
                }
                let expected: String = K::prefix().to_owned();
                if !left.eq(&expected) {
                    proof {
                        K::prefix_wf();
                        assert forall|t: u128| s@ != spec_id_str::<K>(t) by {
                            if s@ == spec_id_str::<K>(t) {
                                lemma_first_dash(K::spec_prefix(), ulid_chars(t));
                                assert(left@ == K::spec_prefix());
                            }
                        }
                    }
                    Err(ParseIdError::WrongPrefix)
                } else {
                    let decoded = decode_token(right.as_str());
                    proof {
                        assert forall|t: u128| s@ == spec_id_str::<K>(t) implies right@
                            == ulid_chars(t) by {
                            K::prefix_wf();
                            lemma_first_dash(K::spec_prefix(), ulid_chars(t));
                        }
                    }
                    match decoded {
                        Some(t) => Ok(Id { token: t, marker: PhantomData }),
                        None => Err(ParseIdError::InvalidUlid),
                    }
                }
            },
        }
    }
}

} // verus!
