//! The session token: the claims it carries, their JSON payload, and the
//! signed token around it.
use vstd::prelude::*;
use crate::decimal::{decimal, digits, is_digit, lemma_digits, numeral_at, push_decimal, read_decimal};
use crate::models::Role;
use jsonwebtoken::errors::ErrorKind;
use jsonwebtoken::{Algorithm, DecodingKey, EncodingKey, Header, Validation};
use serde_json::value::RawValue;

verus! {

/// What a valid session token says: who, in which role, until when (Unix seconds).
#[derive(Clone, Copy, Debug, PartialEq, Eq, Structural)]
pub struct Claims {
    pub employee_id: i32,
    pub role: Role,
    pub expires_at: i64,
}

/// Why a token was not accepted.
#[derive(Clone, Copy, Debug, PartialEq, Eq, Structural)]
pub enum TokenFault {
    /// The signature does not verify against the secret.
    InvalidSignature,
    /// The token has expired.
    Expired,
    /// The token or its payload cannot be read.
    Malformed,
}

/// The ASCII bytes of a role's word.
pub open spec fn role_bytes(r: Role) -> Seq<u8> {
    match r {
        // teacher
        Role::Teacher => seq![116u8, 101, 97, 99, 104, 101, 114],
        // principal
        Role::Principal => seq![112u8, 114, 105, 110, 99, 105, 112, 97, 108],
    }
}

// `{"eid":`
pub open spec fn head_bytes() -> Seq<u8> {
    seq![123u8, 34, 101, 105, 100, 34, 58]
}

// `,"r":"`
pub open spec fn role_key_bytes() -> Seq<u8> {
    seq![44u8, 34, 114, 34, 58, 34]
}

// `","exp":`
pub open spec fn exp_key_bytes() -> Seq<u8> {
    seq![34u8, 44, 34, 101, 120, 112, 34, 58]
}

// `}`
pub open spec fn tail_bytes() -> Seq<u8> {
    seq![125u8]
}

/// The JSON payload of the claims: `{"eid":<id>,"r":"<role>","exp":<unix seconds>}`.
pub open spec fn payload(c: Claims) -> Seq<u8> {
    head_bytes() + decimal(c.employee_id as int) + role_key_bytes() + role_bytes(c.role)
        + exp_key_bytes() + decimal(c.expires_at as int) + tail_bytes()
}

/// Whether a text is standard base64, as a signing secret is configured.
pub uninterp spec fn base64_secret(text: Seq<char>) -> bool;

/// Relies on jsonwebtoken's EncodingKey::from_base64_secret: it decodes
/// standard base64, or fails.
#[verifier::external_body]
fn is_base64_secret(text: &str) -> (r: bool)
    ensures
        r == base64_secret(text@),
{
    EncodingKey::from_base64_secret(text).is_ok()
}

/// The signing secret of the process, kept as the base64 text it was
/// configured with; loaded once at startup and only read after.
pub struct Secret {
    text: String,
}

impl View for Secret {
    type V = Seq<char>;

    closed spec fn view(&self) -> Seq<char> {
        self.text@
    }
}

impl Secret {
    #[verifier::type_invariant]
    spec fn inv(&self) -> bool {
        base64_secret(self.text@)
    }

    /// The secret configured as `text`, if it is base64.
    pub fn from_base64(text: String) -> (r: Option<Secret>)
        ensures
            r is Some <==> base64_secret(text@),
            r matches Some(s) ==> s@ == text@,
    {
        if is_base64_secret(text.as_str()) {
            Some(Secret { text })
        } else {
            None
        }
    }

    /// The base64 text of the secret.
    pub fn text(&self) -> (r: &str)
        ensures
            r@ == self@,
            base64_secret(r@),
    {
        proof {
            use_type_invariant(self);
        }
        self.text.as_str()
    }
}

/// The payload of some claims.
pub open spec fn is_payload(p: Seq<u8>) -> bool {
    exists|c: Claims| p == payload(c)
}

fn push_role(out: &mut Vec<u8>, r: Role)
    ensures
        final(out)@ == old(out)@ + role_bytes(r),
{
    match r {
        Role::Teacher => {
            out.push(116);
            out.push(101);
            out.push(97);
            out.push(99);
            out.push(104);
            out.push(101);
            out.push(114);
        },
        Role::Principal => {
            out.push(112);
            out.push(114);
            out.push(105);
            out.push(110);
            out.push(99);
            out.push(105);
            out.push(112);
            out.push(97);
            out.push(108);
        },
    }
    assert(final(out)@ =~= old(out)@ + role_bytes(r));
}

/// The JSON payload of the claims.
pub fn encode_payload(c: &Claims) -> (r: Vec<u8>)
    ensures
        r@ == payload(*c),
{
    let mut out: Vec<u8> = Vec::new();
    out.push(123);
    out.push(34);
    out.push(101);
    out.push(105);
    out.push(100);
    out.push(34);
    out.push(58);
    assert(out@ =~= head_bytes());
    push_decimal(&mut out, c.employee_id as i64);
    out.push(44);
    out.push(34);
    out.push(114);
    out.push(34);
    out.push(58);
    out.push(34);
    assert(out@ =~= head_bytes() + decimal(c.employee_id as int) + role_key_bytes());
    push_role(&mut out, c.role);
    out.push(34);
    out.push(44);
    out.push(34);
    out.push(101);
    out.push(120);
    out.push(112);
    out.push(34);
    out.push(58);
    assert(out@ =~= head_bytes() + decimal(c.employee_id as int) + role_key_bytes() + role_bytes(
        c.role,
    ) + exp_key_bytes());
    push_decimal(&mut out, c.expires_at);
    out.push(125);
    assert(out@ =~= payload(*c));
    out
}

fn same_bytes(a: &[u8], b: &[u8]) -> (r: bool)
    ensures
        r == (a@ == b@),
{
    if a.len() != b.len() {
        return false;
    }
    let mut i: usize = 0;
    while i < a.len()
        invariant
            a@.len() == b@.len(),
            i <= a@.len(),
            a@.subrange(0, i as int) == b@.subrange(0, i as int),
        decreases a@.len() - i,
    {
        if a[i] != b[i] {
            return false;
        }
        assert(a@.subrange(0, i + 1) =~= a@.subrange(0, i as int).push(a@[i as int]));
        assert(b@.subrange(0, i + 1) =~= b@.subrange(0, i as int).push(b@[i as int]));
        i = i + 1;
    }
    assert(a@ =~= a@.subrange(0, i as int));
    assert(b@ =~= b@.subrange(0, i as int));
    true
}

/// Where the parts of the payload of `c` stand in `p`.
spec fn layout_holds(c: Claims, p: Seq<u8>) -> bool {
    let d1 = decimal(c.employee_id as int);
    let rb = role_bytes(c.role);
    let d2 = decimal(c.expires_at as int);
    let q: int = 7 + d1.len() as int + 6;
    let s: int = q + rb.len() as int + 8;
    &&& p.len() == s + d2.len() + 1
    &&& numeral_at(p, 7, c.employee_id as int)
    &&& p[q] == rb[0]
    &&& numeral_at(p, s, c.expires_at as int)
}

proof fn lemma_payload_layout(c: Claims)
    ensures
        layout_holds(c, payload(c)),
{
    let p = payload(c);
    let d1 = decimal(c.employee_id as int);
    let rb = role_bytes(c.role);
    let d2 = decimal(c.expires_at as int);
    let q: int = 7 + d1.len() as int + 6;
    let s: int = q + rb.len() as int + 8;
    assert(p.subrange(7, 7 + d1.len() as int) =~= d1);
    assert(p[7 + d1.len() as int] == 44);
    assert(p[q] == rb[0]);
    assert(p.subrange(s, s + d2.len() as int) =~= d2);
    assert(p[s + d2.len() as int] == 125);
}

/// Reads claims back from a payload. Exactly the payloads of claims are read,
/// each as the claims it was made from.
pub fn decode_payload(b: &[u8]) -> (r: Option<Claims>)
    ensures
        r matches Some(c) ==> b@ == payload(c),
        forall|c: Claims| #[trigger] payload(c) == b@ ==> r == Some(c),
{
    proof {
        assert forall|c2: Claims| #[trigger] payload(c2) == b@ implies layout_holds(c2, b@) by {
            lemma_payload_layout(c2);
        }
    }
    let (eid, p) = match read_decimal(b, 7) {
        Some(x) => x,
        None => return None,
    };
    if eid < -2147483648 || eid > 2147483647 {
        return None;
    }
    if b.len() - p <= 6 {
        return None;
    }
    let q = p + 6;
    let (role, role_len) = if b[q] == 116 {
        (Role::Teacher, 7usize)
    } else if b[q] == 112 {
        (Role::Principal, 9usize)
    } else {
        return None;
    };
    if b.len() - q <= role_len + 8 {
        return None;
    }
    let s = q + role_len + 8;
    let (exp, _) = match read_decimal(b, s) {
        Some(x) => x,
        None => return None,
    };
    if exp < -9223372036854775808 || exp > 9223372036854775807 {
        return None;
    }
    let c = Claims { employee_id: eid as i32, role, expires_at: exp as i64 };
    let encoded = encode_payload(&c);
    proof {
        assert forall|c2: Claims| #[trigger] payload(c2) == b@ implies c == c2 && encoded@ == b@ by {
            lemma_payload_layout(c2);
        }
    }
    if same_bytes(encoded.as_slice(), b) {
        Some(c)
    } else {
        None
    }
}

/// The token that signs a payload with a secret (its base64 text).
pub uninterp spec fn signed_token(payload: Seq<u8>, secret: Seq<char>) -> Seq<char>;

/// What checking a token's signature against a secret (its base64 text)
/// yields: its payload, or why not.
pub uninterp spec fn opened_token(token: Seq<char>, secret: Seq<char>) -> Result<Seq<u8>, TokenFault>;

/// Relies on jsonwebtoken::encode with the default header (HS256) and the
/// HMAC key that EncodingKey::from_base64_secret makes of `secret`. The payload is handed over as serde_json's
/// RawValue, which serializes its JSON text unchanged. Neither call fails on
/// a JSON payload and an HMAC key.
#[verifier::external_body]
fn sign_payload(payload: Vec<u8>, secret: &str) -> (r: String)
    requires
        is_payload(payload@),
        base64_secret(secret@),
    ensures
        r@ == signed_token(payload@, secret@),
{
    let text = String::from_utf8(payload).unwrap();
    let raw = RawValue::from_string(text).unwrap();
    let key = EncodingKey::from_base64_secret(secret).unwrap();
    jsonwebtoken::encode(&Header::default(), &raw, &key).unwrap()
}

/// Relies on jsonwebtoken::decode with the HS256 key that
/// DecodingKey::from_base64_secret makes of `secret` (the same base64 decoding
/// as EncodingKey's), with
/// no registered claim required and expiry left to the caller; the payload
/// comes back as serde_json's RawValue, its JSON text unchanged. A token that
/// `jsonwebtoken::encode` made from the payload of claims with the same secret
/// verifies and gives that payload back; its `exp` is read as an unsigned
/// number, so it must not be negative.
#[verifier::external_body]
fn open_token(token: &str, secret: &str) -> (r: Result<Vec<u8>, TokenFault>)
    requires
        base64_secret(secret@),
    ensures
        r is Ok ==> opened_token(token@, secret@) == Ok::<Seq<u8>, TokenFault>(r->Ok_0@),
        r is Err ==> opened_token(token@, secret@) == Err::<Seq<u8>, TokenFault>(r->Err_0),
        forall|c: Claims|
            0 <= c.expires_at && token@ == #[trigger] signed_token(payload(c), secret@) ==> r is Ok
                && r->Ok_0@ == payload(c),
{
    let mut validation = Validation::new(Algorithm::HS256);
    validation.validate_exp = false;
    validation.required_spec_claims.clear();
    let key = DecodingKey::from_base64_secret(secret).unwrap();
    match jsonwebtoken::decode::<Box<RawValue>>(token, &key, &validation) {
        Ok(data) => Ok(data.claims.get().as_bytes().to_vec()),
        Err(e) => match e.kind() {
            ErrorKind::InvalidSignature => Err(TokenFault::InvalidSignature),
            _ => Err(TokenFault::Malformed),
        },
    }
}

/// Signs the claims with the secret.
pub fn encode_token(claims: &Claims, secret: &Secret) -> (r: String)
    ensures
        r@ == signed_token(payload(*claims), secret@),
{
    sign_payload(encode_payload(claims), secret.text())
}

/// What decoding a token at time `now` yields.
pub open spec fn decoded(token: Seq<char>, secret: Seq<char>, now: i64) -> Result<Claims, TokenFault> {
    match opened_token(token, secret) {
        Err(f) => Err(f),
        Ok(p) => if is_payload(p) {
            let c = choose|c: Claims| payload(c) == p;
            if c.expires_at < now {
                Err(TokenFault::Expired)
            } else {
                Ok(c)
            }
        } else {
            Err(TokenFault::Malformed)
        },
    }
}

/// Checks the token's signature against the secret, reads its claims, and
/// refuses them once `now` is past their expiry. A token signed from claims
/// with the same secret decodes to those claims until they expire, and as
/// expired after.
pub fn decode_token(token: &str, secret: &Secret, now: i64) -> (r: Result<Claims, TokenFault>)
    ensures
        r == decoded(token@, secret@, now),
        forall|c: Claims|
            0 <= c.expires_at && token@ == #[trigger] signed_token(payload(c), secret@) ==> r == (if c.expires_at
                < now {
                Err::<Claims, TokenFault>(TokenFault::Expired)
            } else {
                Ok(c)
            }),
{
    let p = match open_token(token, secret.text()) {
        Ok(p) => p,
        Err(f) => return Err(f),
    };
    match decode_payload(p.as_slice()) {
        None => Err(TokenFault::Malformed),
        Some(c) => {
            proof {
                let e = choose|e: Claims| payload(e) == p@;
                assert(payload(c) == p@);
                assert(e == c);
            }
            if c.expires_at < now {
                Err(TokenFault::Expired)
            } else {
                Ok(c)
            }
        },
    }
}

} // verus!
