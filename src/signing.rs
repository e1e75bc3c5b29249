//! Signed request forms: protocol fields, the encoded access token and its
//! digest.
use vstd::prelude::*;
use vstd::string::StringSliceAdditionalSpecFns;
use crate::decimal::{hex_char, lower_hex, lower_hex_spec};

verus! {

/// A request form: field names and values, in the order they are sent.
pub type Form = Vec<(String, String)>;

/// The text of each field of a form.
pub open spec fn form_view(f: Seq<(String, String)>) -> Seq<(Seq<char>, Seq<char>)> {
    f.map_values(|p: (String, String)| (p.0@, p.1@))
}

/// An ASCII letter or digit.
pub open spec fn is_ascii_alphanumeric(b: u8) -> bool {
    (48 <= b && b <= 57) || (65 <= b && b <= 90) || (97 <= b && b <= 122)
}

/// The character of an upper-case hexadecimal digit.
pub open spec fn upper_hex_char(d: nat) -> char {
    if d < 10 { hex_char(d) }
    else if d == 10 { 'A' }
    else if d == 11 { 'B' }
    else if d == 12 { 'C' }
    else if d == 13 { 'D' }
    else if d == 14 { 'E' }
    else { 'F' }
}

/// Percent-encoding of bytes where only ASCII letters and digits stand for
/// themselves; every other byte becomes '%' and two upper-case hex digits.
pub open spec fn percent_encoded_spec(b: Seq<u8>) -> Seq<char>
    decreases b.len(),
{
    if b.len() == 0 {
        Seq::empty()
    } else {
        percent_encoded_spec(b.drop_last()) + (if is_ascii_alphanumeric(b.last()) {
            seq![b.last() as char]
        } else {
            seq!['%', upper_hex_char((b.last() / 16) as nat), upper_hex_char((b.last() % 16) as nat)]
        })
    }
}

/// The MD5 digest of a byte sequence.
pub uninterp spec fn md5_of(data: Seq<u8>) -> Seq<u8>;

/// Relies on percent_encoding::utf8_percent_encode with the NON_ALPHANUMERIC
/// set: each byte of the UTF-8 text that is not an ASCII letter or digit is
/// written as '%' and two upper-case hex digits, the others stay.
#[verifier::external_body]
fn percent_encode(s: &str) -> (r: String)
    ensures
        r@ == percent_encoded_spec(s.spec_bytes()),
{
    percent_encoding::utf8_percent_encode(s, percent_encoding::NON_ALPHANUMERIC).to_string()
}

/// Relies on md5::compute: the 16-byte MD5 digest of the data.
#[verifier::external_body]
fn md5_digest(data: &[u8]) -> (r: Vec<u8>)
    ensures
        r@ == md5_of(data@),
        r@.len() == 16,
{
    md5::compute(data).0.to_vec()
}

/// The bytes that precede the token in the signed text: "rwxkj:" in ASCII.
pub open spec fn sign_prefix() -> Seq<u8> {
    seq![114u8, 119u8, 120u8, 107u8, 106u8, 58u8]
}

/// The signature of an access token: the lower-case hex MD5 digest of
/// "rwxkj:" followed by the raw token.
pub open spec fn signature_spec(token: Seq<u8>) -> Seq<char> {
    lower_hex_spec(md5_of(sign_prefix() + token))
}

/// Signature of the raw (not encoded) access token.
pub fn sign_token(token: &str) -> (r: String)
    ensures
        r@ == signature_spec(token.spec_bytes()),
{
    let mut text: Vec<u8> = vec![114u8, 119u8, 120u8, 107u8, 106u8, 58u8];
    let raw = token.as_bytes();
    let mut i: usize = 0;
    while i < raw.len()
        invariant
            i <= raw@.len(),
            raw@ == token.spec_bytes(),
            text@ == sign_prefix() + raw@.subrange(0, i as int),
        decreases raw@.len() - i,
    {
        text.push(raw[i]);
        proof {
            assert(sign_prefix() + raw@.subrange(0, i + 1) =~= (sign_prefix() + raw@.subrange(0, i as int)).push(raw@[i as int]));
        }
        i = i + 1;
    }
    assert(raw@.subrange(0, raw@.len() as int) =~= raw@);
    let digest = md5_digest(text.as_slice());
    lower_hex(digest.as_slice())
}

/// Percent-encoded form of the access token, as it is sent.
pub fn encode_token(token: &str) -> (r: String)
    ensures
        r@ == percent_encoded_spec(token.spec_bytes()),
{
    percent_encode(token)
}

/// The protocol fields appended to every request: site, action, protocol
/// version, encoded token and signature.
pub open spec fn protocol_fields(sn: Seq<char>, action: Seq<char>, token: Seq<u8>) -> Seq<(Seq<char>, Seq<char>)> {
    seq![
        ("SN"@, sn),
        ("Method"@, action),
        ("V"@, "2.0"@),
        ("Token"@, percent_encoded_spec(token)),
        ("Md5"@, signature_spec(token)),
    ]
}

/// The value of the first field of a form with the given name.
pub open spec fn form_field(f: Seq<(Seq<char>, Seq<char>)>, key: Seq<char>) -> Option<Seq<char>>
    decreases f.len(),
{
    if f.len() == 0 {
        None
    } else if f[0].0 == key {
        Some(f[0].1)
    } else {
        form_field(f.drop_first(), key)
    }
}

/// The first field named `key` is the one at `i` where no earlier field has
/// that name.
pub proof fn lemma_form_field_at(f: Seq<(Seq<char>, Seq<char>)>, key: Seq<char>, i: int)
    requires
        0 <= i < f.len(),
        f[i].0 == key,
        forall|j: int| 0 <= j < i ==> f[j].0 != key,
    ensures
        form_field(f, key) == Some(f[i].1),
    decreases i,
{
    if i > 0 {
        assert(f[0].0 != key);
        lemma_form_field_at(f.drop_first(), key, i - 1);
    }
}

/// The "Md5" field of every request is the signature of the raw token, the
/// same for every site and action, whatever form the encoded "Token" takes.
pub proof fn signature_of_raw_token(sn: Seq<char>, action: Seq<char>, token: Seq<u8>)
    ensures
        form_field(protocol_fields(sn, action, token), "Md5"@) == Some(signature_spec(token)),
        form_field(protocol_fields(sn, action, token), "Token"@) == Some(percent_encoded_spec(token)),
        signature_spec(token) == lower_hex_spec(md5_of(sign_prefix() + token)),
{
    reveal_strlit("SN");
    reveal_strlit("Method");
    reveal_strlit("V");
    reveal_strlit("Token");
    reveal_strlit("Md5");
    let f = protocol_fields(sn, action, token);
    assert forall|j: int| 0 <= j < 3 implies f[j].0 != "Token"@ by {
        assert(f[j].0.len() != "Token"@.len());
    }
    assert forall|j: int| 0 <= j < 4 implies f[j].0 != "Md5"@ by {
        assert(f[j].0.len() != "Md5"@.len());
    }
    lemma_form_field_at(f, "Token"@, 3);
    lemma_form_field_at(f, "Md5"@, 4);
}

/// The form sent for an action: the given fields followed by the protocol
/// fields, with the token encoded under "Token" and the signature of the raw
/// token under "Md5".
pub fn signed_form(fields: &Form, sn: &str, action: &str, token: &str) -> (r: Form)
    ensures
        form_view(r@) == form_view(fields@) + protocol_fields(sn@, action@, token.spec_bytes()),
{
    let mut form: Form = Vec::new();
    let mut i: usize = 0;
    while i < fields.len()
        invariant
            i <= fields@.len(),
            form@ == fields@.subrange(0, i as int),
        decreases fields@.len() - i,
    {
        let k = fields[i].0.clone();
        let v = fields[i].1.clone();
        form.push((k, v));
        assert(form@ =~= fields@.subrange(0, i + 1));
        i = i + 1;
    }
    assert(fields@.subrange(0, fields@.len() as int) =~= fields@);
    let encoded = encode_token(token);
    let signature = sign_token(token);
    let ghost base = form_view(form@);
    form.push((String::from_str("SN"), String::from_str(sn)));
    form.push((String::from_str("Method"), String::from_str(action)));
    form.push((String::from_str("V"), String::from_str("2.0")));
    form.push((String::from_str("Token"), encoded));
    form.push((String::from_str("Md5"), signature));
    assert(form_view(form@) =~= base + protocol_fields(sn@, action@, token.spec_bytes()));
    form
}

} // verus!
