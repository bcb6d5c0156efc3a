//! Signed, time-limited bearer tokens that carry identity claims.
//!
//! Signing, the compact serialisation and the signature check are the work
//! of the `jsonwebtoken` crate. This module decides what goes into a token,
//! what a decoded token must hold to be believed, and when it has expired.

use jsonwebtoken::errors::ErrorKind;
use jsonwebtoken::{decode, encode, Algorithm, DecodingKey, EncodingKey, Header, Validation};
use serde_json::Value;
use vstd::prelude::*;

use crate::clock::{clock_reading, unix_now, CLOCK_LIMIT};
use crate::text::text_eq;

verus! {

/// The facts that a token states of its bearer.
#[derive(Debug, Clone)]
pub struct Claims {
    /// The identity's id.
    pub sub: String,
    /// The identity's e-mail address.
    pub email: String,
    /// The moment the token stops being valid, in seconds since the epoch.
    pub exp: usize,
}

/// `Claims` as plain values.
pub struct ClaimsView {
    pub sub: Seq<char>,
    pub email: Seq<char>,
    pub exp: usize,
}

impl View for Claims {
    type V = ClaimsView;

    open spec fn view(&self) -> ClaimsView {
        ClaimsView { sub: self.sub@, email: self.email@, exp: self.exp }
    }
}

/// Why a token is not believed.
#[derive(Debug, Clone, Copy, PartialEq, Eq)]
pub enum TokenError {
    /// The string is no token, or its claims lack a subject, an e-mail
    /// address or an expiry.
    MalformedToken,
    /// The signature was not made with this service's key.
    InvalidSignature,
    /// The expiry has been reached.
    Expired,
}

/// Why no token was issued.
#[derive(Debug, Clone, Copy, PartialEq, Eq)]
pub enum IssueError {
    /// The expiry would lie before the epoch or beyond what `Claims` holds.
    ExpiryOutOfRange,
    /// The signer reported a failure.
    SigningFailed,
}

/// One member of a token's claims object: its name, its text where the
/// value is a string, and its number where the value is an integer from 0 to
/// `u64::MAX`.
#[derive(Debug, Clone)]
pub struct ClaimField {
    pub name: String,
    pub text: Option<String>,
    pub number: Option<u64>,
}

/// A member of a claims object as plain values: the name, the text, the
/// number.
pub type Member = (Seq<char>, Option<Seq<char>>, Option<u64>);

impl DeepView for ClaimField {
    type V = Member;

    open spec fn deep_view(&self) -> Self::V {
        (
            self.name@,
            match self.text {
                Some(t) => Some(t@),
                None => None,
            },
            self.number,
        )
    }
}

/// What `jsonwebtoken::encode` makes, with the default header (HS256) and
/// the key `secret`, of the claims object whose members are `texts`, as
/// strings, followed by `numbers`, as integers: the compact serialisation,
/// or `None` where it reports an error.
pub uninterp spec fn hs256_signing(
    texts: Seq<(Seq<char>, Seq<char>)>,
    numbers: Seq<(Seq<char>, u64)>,
    secret: Seq<u8>,
) -> Option<Seq<char>>;

/// What `jsonwebtoken::decode` makes of `token` with the key `secret`, when
/// it checks the HS256 signature and nothing of the claims: the members of
/// the claims object in their order, or the reason for refusing the token,
/// which is `InvalidSignature` or `MalformedToken`.
pub uninterp spec fn hs256_decoding(token: Seq<char>, secret: Seq<u8>) -> Result<
    Seq<(Seq<char>, Option<Seq<char>>, Option<u64>)>,
    TokenError,
>;

/// Whether `text` has a `.` at the position `i`.
pub open spec fn dot_at(text: Seq<char>, i: int) -> bool {
    0 <= i < text.len() && text[i] == '.'
}

/// Whether `token` has its dots at `i` and `j` and nowhere else, with
/// something before, between and behind them.
pub open spec fn parted_at(token: Seq<char>, i: int, j: int) -> bool {
    &&& 0 < i && i + 1 < j && j + 1 < token.len()
    &&& dot_at(token, i)
    &&& dot_at(token, j)
    &&& forall|k: int| #[trigger] dot_at(token, k) ==> k == i || k == j
}

/// Whether `token` is made of three parts with a `.` between them: it has
/// two dots and no more, and something stands before, between and behind
/// them.
pub open spec fn three_parts(token: Seq<char>) -> bool {
    exists|i: int, j: int| parted_at(token, i, j)
}

/// The position of the last `.` in `text`, or -1 where it has none.
pub open spec fn last_dot(text: Seq<char>) -> int
    decreases text.len(),
{
    if text.len() == 0 {
        -1
    } else if text.last() == '.' {
        text.len() - 1
    } else {
        last_dot(text.drop_last())
    }
}

/// Whether `other` is `token` with another signature: the two are the same
/// up to their last `.`, which stands at the same place, and differ behind
/// it.
pub open spec fn same_but_signature(token: Seq<char>, other: Seq<char>) -> bool {
    let cut = last_dot(token);
    cut >= 0 && last_dot(other) == cut && other.take(cut + 1) == token.take(cut + 1) && other
        != token
}

/// Whether decoding with the key `secret` refuses, for its signature, every
/// string that is `token` with another signature.
pub open spec fn refuses_other_signatures(token: Seq<char>, secret: Seq<u8>) -> bool {
    forall|other: Seq<char>|
        same_but_signature(token, other) ==> #[trigger] hs256_decoding(other, secret) == Err::<
            Seq<Member>,
            TokenError,
        >(TokenError::InvalidSignature)
}

/// The members that a claims object has when it is built from `texts`
/// followed by `numbers`.
pub open spec fn members_of(
    texts: Seq<(Seq<char>, Seq<char>)>,
    numbers: Seq<(Seq<char>, u64)>,
) -> Seq<Member> {
    Seq::new(
        texts.len() + numbers.len(),
        |i: int|
            if i < texts.len() {
                (texts[i].0, Some(texts[i].1), None::<u64>)
            } else {
                (
                    numbers[i - texts.len()].0,
                    None::<Seq<char>>,
                    Some(numbers[i - texts.len()].1),
                )
            },
    )
}

/// Whether no two of `members` share a name.
pub open spec fn names_distinct(
    members: Seq<Member>,
) -> bool {
    forall|i: int, j: int| 0 <= i < j < members.len() ==> members[i].0 != members[j].0
}

/// The first of `members`, from position `start` on, that is named `name`.
pub open spec fn member_from(
    members: Seq<Member>,
    name: Seq<char>,
    start: int,
) -> Option<Member>
    decreases members.len() - start,
{
    if start < 0 || start >= members.len() {
        None
    } else if members[start].0 == name {
        Some(members[start])
    } else {
        member_from(members, name, start + 1)
    }
}

/// The text of the first member named `name`, if that member is a string.
pub open spec fn text_of(
    members: Seq<Member>,
    name: Seq<char>,
) -> Option<Seq<char>> {
    match member_from(members, name, 0) {
        Some(member) => member.1,
        None => None,
    }
}

/// The number of the first member named `name`, if that member is an
/// integer from 0 to `u64::MAX`.
pub open spec fn number_of(
    members: Seq<Member>,
    name: Seq<char>,
) -> Option<u64> {
    match member_from(members, name, 0) {
        Some(member) => member.2,
        None => None,
    }
}

/// The claims that `members` state: a string `sub`, a string `email` and an
/// integer `exp` that fits `Claims`. Other members are passed over.
pub open spec fn claims_of(
    members: Seq<Member>,
) -> Option<ClaimsView> {
    match (text_of(members, "sub"@), text_of(members, "email"@), number_of(members, "exp"@)) {
        (Some(sub), Some(email), Some(exp)) => if exp <= usize::MAX {
            Some(ClaimsView { sub, email, exp: exp as usize })
        } else {
            None
        },
        _ => None,
    }
}

/// The string members that `claims` are written with.
pub open spec fn claim_texts(claims: ClaimsView) -> Seq<(Seq<char>, Seq<char>)> {
    seq![("sub"@, claims.sub), ("email"@, claims.email)]
}

/// The integer members that `claims` are written with.
pub open spec fn claim_numbers(claims: ClaimsView) -> Seq<(Seq<char>, u64)> {
    seq![("exp"@, claims.exp as u64)]
}

/// What verification answers at the moment `now`, given what decoding made
/// of the token: the decoder's refusal; `MalformedToken` where the members
/// state no claims; `Expired` where the expiry is not after `now`; else the
/// claims.
pub open spec fn verify_result(
    decoded: Result<Seq<Member>, TokenError>,
    now: i64,
) -> Result<ClaimsView, TokenError> {
    match decoded {
        Err(e) => Err(e),
        Ok(members) => match claims_of(members) {
            None => Err(TokenError::MalformedToken),
            Some(claims) => if claims.exp <= now {
                Err(TokenError::Expired)
            } else {
                Ok(claims)
            },
        },
    }
}

/// The error type of the `jsonwebtoken` crate.
#[verifier::external_type_specification]
#[verifier::external_body]
pub struct ExJwtError(jsonwebtoken::errors::Error);

/// Calls `jsonwebtoken::encode` with `Header::default()` and
/// `EncodingKey::from_secret(secret)` on a `serde_json::Map` that holds
/// `texts` as strings and then `numbers` as integers, inserted in that
/// order.
///
/// The outcome is named, success and failure alike. Claimed besides:
/// - The call succeeds. `encode` fails where the key is of another family
///   than the header's algorithm, where the header or the claims cannot be
///   written as JSON, or where signing fails. Here the key is a secret and
///   the algorithm HS256, the claims are strings and integers under string
///   names, and HMAC signing returns no error.
/// - The token is three parts of base64url text with a `.` between them,
///   which has no `.` itself: header, claims, signature.
/// - With the same key the decoder refuses, for its signature, every string
///   that differs from the token behind the last `.` alone: it reads the same
///   header, signs the same two parts anew, and finds that the third is not
///   what it signed.
/// - Where all names differ, decoding the token with the same key gives
///   these members back in this order. The decoder re-signs the first two
///   parts and finds the third; JSON text keeps strings and integers of this
///   range as they are; and `serde_json` is built with `preserve_order`, so
///   that an object keeps its members in the order of insertion.
#[verifier::external_body]
fn encode_hs256(texts: &Vec<(String, String)>, numbers: &Vec<(String, u64)>, secret: &[u8]) -> (r:
    Result<String, jsonwebtoken::errors::Error>)
    ensures
        r is Ok,
        match r {
            Ok(token) => {
                &&& hs256_signing(texts.deep_view(), numbers.deep_view(), secret@) == Some(token@)
                &&& three_parts(token@)
                &&& forall|other: Seq<char>|
                    same_but_signature(token@, other) ==> #[trigger] hs256_decoding(
                        other,
                        secret@,
                    ) == Err::<Seq<Member>, TokenError>(TokenError::InvalidSignature)
                &&& names_distinct(members_of(texts.deep_view(), numbers.deep_view()))
                    ==> hs256_decoding(token@, secret@) == Ok::<Seq<Member>, TokenError>(
                    members_of(texts.deep_view(), numbers.deep_view()),
                )
            },
            Err(_) => hs256_signing(texts.deep_view(), numbers.deep_view(), secret@).is_none(),
        },
{
    let mut object = serde_json::Map::new();
    for (name, text) in texts {
        object.insert(name.clone(), Value::from(text.as_str()));
    }
    for (name, number) in numbers {
        object.insert(name.clone(), Value::from(*number));
    }
    encode(&Header::default(), &object, &EncodingKey::from_secret(secret))
}

/// Calls `jsonwebtoken::decode` on `token` with
/// `DecodingKey::from_secret(secret)` and a `Validation` for HS256 that
/// checks the signature and leaves the claims alone, and hands out each
/// member of the claims object with what `Value::as_str` and
/// `Value::as_u64` give for it.
///
/// The outcome is named. Of the crate's error kinds `InvalidSignature`
/// becomes `TokenError::InvalidSignature` and every other one
/// `TokenError::MalformedToken`.
#[verifier::external_body]
fn decode_hs256(token: &str, secret: &[u8]) -> (r: Result<Vec<ClaimField>, TokenError>)
    ensures
        match r {
            Ok(fields) => hs256_decoding(token@, secret@) == Ok::<
                Seq<Member>,
                TokenError,
            >(fields.deep_view()),
            Err(e) => e != TokenError::Expired && hs256_decoding(token@, secret@) == Err::<
                Seq<Member>,
                TokenError,
            >(e),
        },
{
    let mut rules = Validation::new(Algorithm::HS256);
    rules.validate_exp = false;
    rules.validate_aud = false;
    rules.required_spec_claims.clear();
    let key = DecodingKey::from_secret(secret);
    match decode::<serde_json::Map<String, Value>>(token, &key, &rules) {
        Ok(data) => Ok(data.claims.into_iter().map(|(name, v)| ClaimField {
            text: v.as_str().map(|s| s.to_owned()), number: v.as_u64(), name }).collect()),
        Err(e) => Err(match e.kind() {
            ErrorKind::InvalidSignature => TokenError::InvalidSignature,
            _ => TokenError::MalformedToken,
        }),
    }
}

/// The position of the first of `fields` that is named `name`.
pub fn find_member(fields: &Vec<ClaimField>, name: &str) -> (found: Option<usize>)
    ensures
        match found {
            Some(i) => i < fields.len() && member_from(fields.deep_view(), name@, 0) == Some(
                fields.deep_view()[i as int],
            ),
            None => member_from(fields.deep_view(), name@, 0).is_none(),
        },
{
    let mut i: usize = 0;
    while i < fields.len()
        invariant
            i <= fields.len(),
            fields.deep_view().len() == fields.len(),
            member_from(fields.deep_view(), name@, 0) == member_from(
                fields.deep_view(),
                name@,
                i as int,
            ),
        decreases fields.len() - i,
    {
        assert(fields.deep_view()[i as int].0 == fields[i as int].name@);
        if text_eq(fields[i].name.as_str(), name) {
            return Some(i);
        }
        i += 1;
    }
    None
}

/// Reads the claims that the members of a decoded token state.
///
/// `None` where `sub` or `email` is missing or no string, or where `exp` is
/// missing, no integer of the range, or too large for `Claims`.
pub fn claims_from_fields(fields: &Vec<ClaimField>) -> (claims: Option<Claims>)
    ensures
        match claims {
            Some(c) => claims_of(fields.deep_view()) == Some(c@),
            None => claims_of(fields.deep_view()).is_none(),
        },
{
    let ghost members = fields.deep_view();
    let sub = match find_member(fields, "sub") {
        Some(i) => {
            assert(members[i as int].1 == fields[i as int].deep_view().1);
            match &fields[i].text {
                Some(text) => text.clone(),
                None => return None,
            }
        },
        None => return None,
    };
    let email = match find_member(fields, "email") {
        Some(i) => {
            assert(members[i as int].1 == fields[i as int].deep_view().1);
            match &fields[i].text {
                Some(text) => text.clone(),
                None => return None,
            }
        },
        None => return None,
    };
    let exp = match find_member(fields, "exp") {
        Some(i) => {
            assert(members[i as int].2 == fields[i as int].deep_view().2);
            match fields[i].number {
                Some(number) => number,
                None => return None,
            }
        },
        None => return None,
    };
    if exp > usize::MAX as u64 {
        return None;
    }
    Some(Claims { sub, email, exp: exp as usize })
}

/// A verification result as plain values.
pub open spec fn result_view(r: Result<Claims, TokenError>) -> Result<ClaimsView, TokenError> {
    match r {
        Ok(claims) => Ok(claims@),
        Err(e) => Err(e),
    }
}

/// What a decoder returned, as plain values.
pub open spec fn decoded_view(decoded: Result<Vec<ClaimField>, TokenError>) -> Result<
    Seq<Member>,
    TokenError,
> {
    match decoded {
        Ok(fields) => Ok(fields.deep_view()),
        Err(e) => Err(e),
    }
}

/// Decides, at the moment `now`, whether what decoding made of a token is
/// believed.
///
/// The decoder's refusal stands. Members that state no claims make the token
/// malformed. Claims whose expiry is not after `now` have expired. Other
/// claims are returned as they are.
pub fn check_decoded(decoded: Result<Vec<ClaimField>, TokenError>, now: i64) -> (r: Result<
    Claims,
    TokenError,
>)
    ensures
        result_view(r) == verify_result(decoded_view(decoded), now),
{
    match decoded {
        Err(e) => Err(e),
        Ok(fields) => match claims_from_fields(&fields) {
            None => Err(TokenError::MalformedToken),
            Some(claims) => {
                if now >= 0 && claims.exp as u64 <= now as u64 {
                    Err(TokenError::Expired)
                } else {
                    Ok(claims)
                }
            },
        },
    }
}

/// The members that `claims` are written with, as `encode_hs256` takes them.
pub fn claim_fields(claims: &Claims) -> (fields: (Vec<(String, String)>, Vec<(String, u64)>))
    ensures
        fields.0.deep_view() == claim_texts(claims@),
        fields.1.deep_view() == claim_numbers(claims@),
{
    let mut texts: Vec<(String, String)> = Vec::new();
    texts.push(("sub".to_owned(), claims.sub.clone()));
    texts.push(("email".to_owned(), claims.email.clone()));
    let mut numbers: Vec<(String, u64)> = Vec::new();
    numbers.push(("exp".to_owned(), claims.exp as u64));
    assert(texts.deep_view() =~= claim_texts(claims@));
    assert(numbers.deep_view() =~= claim_numbers(claims@));
    (texts, numbers)
}

/// The members of the claims object that `claims` are written as.
pub open spec fn claim_members(claims: ClaimsView) -> Seq<Member> {
    members_of(claim_texts(claims), claim_numbers(claims))
}

/// The members that claims are written as have three different names, and
/// reading them gives the claims back.
pub proof fn lemma_claims_round_trip(claims: ClaimsView)
    ensures
        names_distinct(claim_members(claims)),
        claims_of(claim_members(claims)) == Some(claims),
{
    reveal_strlit("sub");
    reveal_strlit("email");
    reveal_strlit("exp");
    let members = claim_members(claims);
    assert("sub"@[0] == 's' && "email"@[0] == 'e' && "exp"@[1] == 'x' && "email"@[1] == 'm');
    assert(members[0].0 == "sub"@);
    assert(members[1].0 == "email"@);
    assert(members[2].0 == "exp"@);
    assert(member_from(members, "sub"@, 0) == Some(members[0]));
    assert(member_from(members, "email"@, 1) == Some(members[1]));
    assert(member_from(members, "email"@, 0) == Some(members[1]));
    assert(member_from(members, "exp"@, 2) == Some(members[2]));
    assert(member_from(members, "exp"@, 1) == Some(members[2]));
    assert(member_from(members, "exp"@, 0) == Some(members[2]));
    assert(claims.exp as u64 as usize == claims.exp);
}

/// What signing `claims` with `secret` answers: the token that the signer
/// makes of their members, or `SigningFailed` where it makes none.
pub open spec fn signing_result(claims: ClaimsView, secret: Seq<u8>) -> Result<
    Seq<char>,
    IssueError,
> {
    match hs256_signing(claim_texts(claims), claim_numbers(claims), secret) {
        Some(token) => Ok(token),
        None => Err(IssueError::SigningFailed),
    }
}

/// What holds of the result `r` of signing `claims` with `secret`: it is
/// the signer's, which is a token of three parts; the token decodes under
/// the same key to the members of these claims; and the same token with
/// another signature is refused.
pub open spec fn sign_outcome(
    claims: ClaimsView,
    secret: Seq<u8>,
    r: Result<Seq<char>, IssueError>,
) -> bool {
    &&& r is Ok
    &&& r == signing_result(claims, secret)
    &&& r matches Ok(token) ==> three_parts(token) && refuses_other_signatures(token, secret)
        && hs256_decoding(token, secret) == Ok::<Seq<Member>, TokenError>(claim_members(claims))
}

/// An issuing result as plain values.
pub open spec fn issued_view(r: Result<String, IssueError>) -> Result<Seq<char>, IssueError> {
    match r {
        Ok(token) => Ok(token@),
        Err(e) => Err(e),
    }
}

/// What issuing answers, given what the signer returned: the token, or
/// `SigningFailed` for a failure of whatever kind.
pub fn signed_or_error<E>(signed: Result<String, E>) -> (r: Result<String, IssueError>)
    ensures
        match signed {
            Ok(token) => r == Ok::<String, IssueError>(token),
            Err(_) => r == Err::<String, IssueError>(IssueError::SigningFailed),
        },
{
    match signed {
        Ok(token) => Ok(token),
        Err(_) => Err(IssueError::SigningFailed),
    }
}

/// Signs `claims` with `secret`.
pub fn sign_claims(claims: &Claims, secret: &[u8]) -> (r: Result<String, IssueError>)
    ensures
        sign_outcome(claims@, secret@, issued_view(r)),
{
    let (texts, numbers) = claim_fields(claims);
    proof {
        lemma_claims_round_trip(claims@);
    }
    signed_or_error(encode_hs256(&texts, &numbers, secret))
}

/// The expiry of a token issued at `now` that lives for `lifetime` seconds,
/// where `Claims` can hold it.
pub open spec fn expiry_after(now: i64, lifetime: i64) -> Option<usize> {
    if 0 <= now + lifetime <= i64::MAX && now + lifetime <= usize::MAX {
        Some((now + lifetime) as usize)
    } else {
        None
    }
}

/// Computes `expiry_after`.
pub fn expiry(now: i64, lifetime: i64) -> (exp: Option<usize>)
    ensures
        exp == expiry_after(now, lifetime),
{
    match now.checked_add(lifetime) {
        Some(sum) => {
            if sum < 0 || sum as u64 > usize::MAX as u64 {
                None
            } else {
                Some(sum as usize)
            }
        },
        None => None,
    }
}

/// Issues and verifies tokens with one secret key and one lifetime.
pub struct TokenService {
    secret: Vec<u8>,
    lifetime: i64,
}

impl TokenService {
    #[verifier::type_invariant]
    spec fn positive_lifetime(&self) -> bool {
        self.lifetime > 0
    }

    /// The key that tokens are signed with.
    pub closed spec fn secret(&self) -> Seq<u8> {
        self.secret@
    }

    /// The seconds that a token lives.
    pub closed spec fn lifetime(&self) -> i64 {
        self.lifetime
    }

    /// Whether the lifetime is positive, as it is of every service made by
    /// `new`.
    pub open spec fn wf(&self) -> bool {
        self.lifetime() > 0
    }

    /// A service that signs with `secret` and issues tokens that live for
    /// `lifetime` seconds. A lifetime that is not positive is refused.
    pub fn new(secret: &[u8], lifetime: i64) -> (service: Option<TokenService>)
        ensures
            service is Some <==> lifetime > 0,
            service matches Some(s) ==> s.wf() && s.secret() == secret@ && s.lifetime()
                == lifetime,
    {
        if lifetime > 0 {
            Some(TokenService { secret: vstd::slice::slice_to_vec(secret), lifetime })
        } else {
            None
        }
    }

    /// What issuing a token for `subject` and `email` at the moment `now`
    /// may return.
    ///
    /// Where the expiry cannot be held, `ExpiryOutOfRange`. Otherwise the
    /// result is that of signing the claims with the expiry
    /// `now + lifetime`: the signer's token.
    pub open spec fn issue_outcome(
        &self,
        subject: Seq<char>,
        email: Seq<char>,
        now: i64,
        r: Result<Seq<char>, IssueError>,
    ) -> bool {
        match expiry_after(now, self.lifetime()) {
            None => r == Err::<Seq<char>, IssueError>(IssueError::ExpiryOutOfRange),
            Some(exp) => sign_outcome(ClaimsView { sub: subject, email, exp }, self.secret(), r),
        }
    }

    /// Whether a token's lifetime fits on top of every reading of the clock,
    /// so that its expiry can always be held.
    pub open spec fn always_issues(&self) -> bool {
        self.lifetime() + CLOCK_LIMIT <= i64::MAX && self.lifetime() + CLOCK_LIMIT <= usize::MAX
    }

    /// What issuing a token for `subject` and `email` may return: what
    /// `issue_outcome` admits at some reading of the clock.
    pub open spec fn issue_now(
        &self,
        subject: Seq<char>,
        email: Seq<char>,
        r: Result<Seq<char>, IssueError>,
    ) -> bool {
        exists|now: i64| clock_reading(now) && #[trigger] self.issue_outcome(subject, email, now, r)
    }

    /// Issues a token for `subject` and `email` as if the clock showed
    /// `now`.
    pub fn issue_at(&self, subject: &str, email: &str, now: i64) -> (r: Result<
        String,
        IssueError,
    >)
        ensures
            self.issue_outcome(subject@, email@, now, issued_view(r)),
    {
        let exp = match expiry(now, self.lifetime) {
            Some(exp) => exp,
            None => return Err(IssueError::ExpiryOutOfRange),
        };
        let claims = Claims { sub: subject.to_owned(), email: email.to_owned(), exp };
        sign_claims(&claims, self.secret.as_slice())
    }

    /// Issues a token for `subject` and `email` that expires one lifetime
    /// after the clock's present reading. A service whose lifetime fits on
    /// top of every reading always issues one.
    pub fn issue(&self, subject: &str, email: &str) -> (r: Result<String, IssueError>)
        ensures
            self.issue_now(subject@, email@, issued_view(r)),
            self.always_issues() ==> r is Ok,
    {
        proof {
            use_type_invariant(self);
        }
        let now = unix_now();
        self.issue_at(subject, email, now)
    }

    /// Verifies `token` as if the clock showed `now`: the structure and the
    /// signature first, then the claims, then the expiry.
    pub fn verify_at(&self, token: &str, now: i64) -> (r: Result<Claims, TokenError>)
        ensures
            result_view(r) == verify_result(hs256_decoding(token@, self.secret()), now),
    {
        let decoded = decode_hs256(token, self.secret.as_slice());
        check_decoded(decoded, now)
    }

    /// Verifies `token` against the clock's present reading.
    pub fn verify(&self, token: &str) -> (r: Result<Claims, TokenError>)
        ensures
            exists|now: i64|
                result_view(r) == verify_result(hs256_decoding(token@, self.secret()), now),
    {
        let now = unix_now();
        self.verify_at(token, now)
    }
}

/// Issues a token for the user `user_id` with the address `email`, which
/// expires one lifetime after the clock's present reading. A service whose
/// lifetime fits on top of every reading always issues one.
pub fn create_jwt(service: &TokenService, user_id: &str, email: &str) -> (r: Result<
    String,
    IssueError,
>)
    ensures
        service.issue_now(user_id@, email@, issued_view(r)),
        service.always_issues() ==> r is Ok,
{
    service.issue(user_id, email)
}

/// A token issued at `now` and verified at `later`, before its lifetime has
/// passed, is believed: verification returns the subject and the e-mail
/// address it was issued for, and an expiry after `later`.
pub proof fn lemma_issue_then_verify(
    service: TokenService,
    subject: Seq<char>,
    email: Seq<char>,
    now: i64,
    later: i64,
    token: Seq<char>,
)
    requires
        service.wf(),
        service.issue_outcome(subject, email, now, Ok(token)),
        later < now + service.lifetime(),
    ensures
        verify_result(hs256_decoding(token, service.secret()), later) matches Ok(claims)
            && claims.sub == subject && claims.email == email && claims.exp == now
            + service.lifetime() && claims.exp > later,
{
    let exp = expiry_after(now, service.lifetime())->0;
    lemma_claims_round_trip(ClaimsView { sub: subject, email, exp });
}

/// A token issued at `now` is believed when it is verified at that same
/// moment.
pub proof fn lemma_issue_then_verify_at_once(
    service: TokenService,
    subject: Seq<char>,
    email: Seq<char>,
    now: i64,
    token: Seq<char>,
)
    requires
        service.wf(),
        service.issue_outcome(subject, email, now, Ok(token)),
    ensures
        verify_result(hs256_decoding(token, service.secret()), now) matches Ok(claims)
            && claims.sub == subject && claims.email == email && claims.exp > now,
{
    lemma_issue_then_verify(service, subject, email, now, now, token);
}

/// A token whose signature and claims are in order is refused as `Expired`
/// from the moment of its expiry on.
pub proof fn lemma_expired_is_refused(
    members: Seq<Member>,
    claims: ClaimsView,
    now: i64,
)
    requires
        claims_of(members) == Some(claims),
        claims.exp <= now,
    ensures
        verify_result(
            Ok::<Seq<Member>, TokenError>(members),
            now,
        ) == Err::<ClaimsView, TokenError>(TokenError::Expired),
{
}

/// A token that the service issued is refused as `Expired` once its
/// lifetime has passed.
pub proof fn lemma_issued_token_expires(
    service: TokenService,
    subject: Seq<char>,
    email: Seq<char>,
    now: i64,
    later: i64,
    token: Seq<char>,
)
    requires
        service.wf(),
        service.issue_outcome(subject, email, now, Ok(token)),
        later >= now + service.lifetime(),
    ensures
        verify_result(hs256_decoding(token, service.secret()), later) == Err::<
            ClaimsView,
            TokenError,
        >(TokenError::Expired),
{
    let exp = expiry_after(now, service.lifetime())->0;
    lemma_claims_round_trip(ClaimsView { sub: subject, email, exp });
}

/// Verification succeeds only on these three conditions together: the
/// decoder accepts structure and signature, the members state claims, and
/// the expiry lies after `now`.
pub proof fn lemma_verified_means_valid(
    decoded: Result<Seq<Member>, TokenError>,
    now: i64,
)
    ensures
        verify_result(decoded, now) is Ok <==> (decoded matches Ok(members) && claims_of(
            members,
        ) matches Some(claims) && claims.exp > now),
        verify_result(decoded, now) matches Ok(claims) ==> claims_of(decoded->Ok_0) == Some(
            claims,
        ),
{
}

/// Issuing succeeds exactly where the expiry can be held, and then the token
/// is what the signer makes of the claims. Where it fails, the cause is the
/// expiry.
pub proof fn lemma_issue_is_the_signers(
    service: TokenService,
    subject: Seq<char>,
    email: Seq<char>,
    now: i64,
    r: Result<Seq<char>, IssueError>,
)
    requires
        service.issue_outcome(subject, email, now, r),
    ensures
        r is Ok <==> expiry_after(now, service.lifetime()) is Some,
        r is Ok <==> (expiry_after(now, service.lifetime()) matches Some(exp) && hs256_signing(
            claim_texts(ClaimsView { sub: subject, email, exp }),
            claim_numbers(ClaimsView { sub: subject, email, exp }),
            service.secret(),
        ) is Some),
        r matches Ok(token) ==> signing_result(
            ClaimsView { sub: subject, email, exp: (now + service.lifetime()) as usize },
            service.secret(),
        ) == Ok::<Seq<char>, IssueError>(token),
        r matches Err(cause) ==> cause == IssueError::ExpiryOutOfRange,
{
}

/// A service whose lifetime fits on top of every reading of the clock
/// always issues a token: no reading makes the expiry too large to hold.
pub proof fn lemma_always_issues(
    service: TokenService,
    subject: Seq<char>,
    email: Seq<char>,
    r: Result<Seq<char>, IssueError>,
)
    requires
        service.wf(),
        service.always_issues(),
        service.issue_now(subject, email, r),
    ensures
        r is Ok,
{
}

/// No `.` stands behind the last one.
pub proof fn lemma_no_dot_behind_the_last(text: Seq<char>, k: int)
    requires
        0 <= k < text.len(),
        last_dot(text) < k,
    ensures
        text[k] != '.',
    decreases text.len(),
{
    if text.last() == '.' {
        assert(last_dot(text) == text.len() - 1);
    } else if k < text.len() - 1 {
        assert(last_dot(text) == last_dot(text.drop_last()));
        lemma_no_dot_behind_the_last(text.drop_last(), k);
        assert(text.drop_last()[k] == text[k]);
    } else {
        assert(text[k] == text.last());
    }
}

/// Two texts with their dots at the same places have their last `.` at the
/// same place.
pub proof fn lemma_same_dots_same_last(a: Seq<char>, b: Seq<char>)
    requires
        a.len() == b.len(),
        forall|i: int| 0 <= i < a.len() ==> (a[i] == '.') == (b[i] == '.'),
    ensures
        last_dot(a) == last_dot(b),
    decreases a.len(),
{
    if a.len() > 0 && a.last() != '.' {
        lemma_same_dots_same_last(a.drop_last(), b.drop_last());
    }
}

/// A token that the service issued is refused with `InvalidSignature`,
/// whatever the clock shows, once one character of its signature is
/// replaced by another one that is no `.`.
pub proof fn lemma_altered_signature_is_invalid(
    service: TokenService,
    subject: Seq<char>,
    email: Seq<char>,
    now: i64,
    token: Seq<char>,
    altered: Seq<char>,
    k: int,
    later: i64,
)
    requires
        service.issue_outcome(subject, email, now, Ok(token)),
        last_dot(token) < k < token.len(),
        altered == token.update(k, altered[k]),
        altered[k] != token[k],
        altered[k] != '.',
    ensures
        three_parts(token),
        last_dot(token) > 0,
        verify_result(hs256_decoding(altered, service.secret()), later) == Err::<
            ClaimsView,
            TokenError,
        >(TokenError::InvalidSignature),
{
    let exp = expiry_after(now, service.lifetime())->0;
    let claims = ClaimsView { sub: subject, email, exp };
    assert(sign_outcome(claims, service.secret(), Ok(token)));
    let (i, j) = choose|i: int, j: int| parted_at(token, i, j);
    lemma_last_dot_is_a_dot(token, j);
    lemma_no_dot_behind_the_last(token, k);
    assert forall|p: int| 0 <= p < token.len() implies (token[p] == '.') == (altered[p]
        == '.') by {}
    lemma_same_dots_same_last(token, altered);
    let cut = last_dot(token);
    assert(altered.take(cut + 1) =~= token.take(cut + 1));
    assert(same_but_signature(token, altered));
}

/// The last `.` of a text stands at or behind every `.` of it.
pub proof fn lemma_last_dot_is_a_dot(text: Seq<char>, j: int)
    requires
        dot_at(text, j),
    ensures
        last_dot(text) >= j,
        dot_at(text, last_dot(text)),
    decreases text.len(),
{
    if text.last() != '.' {
        lemma_last_dot_is_a_dot(text.drop_last(), j);
    }
}

} // verus!
