use vstd::prelude::*;
use vstd::string::{StringExecFns, StringSliceAdditionalSpecFns};

verus! {

/// The CRC-32C (Castagnoli) checksum of `data`.
pub uninterp spec fn crc32c_of(data: Seq<u8>) -> u32;

/// The MIME type guessed from the extension of `path`.
pub uninterp spec fn mime_of(path: Seq<char>) -> Seq<char>;

/// The SHA-256 digest of `data`.
pub uninterp spec fn sha256_of(data: Seq<u8>) -> Seq<u8>;

/// Relies on `crc32c::crc32c`: the CRC-32C checksum of the bytes.
#[verifier::external_body]
fn crc32c_checksum(data: &[u8]) -> (r: u32)
    ensures
        r == crc32c_of(data@),
{
    crc32c::crc32c(data)
}

/// Relies on `mime_guess::from_path(..).first_or_octet_stream()`: the first
/// MIME type known for the extension, else `application/octet-stream`.
#[verifier::external_body]
pub(crate) fn get_content_type(file_path: &str) -> (r: String)
    ensures
        r@ == mime_of(file_path@),
{
    mime_guess::from_path(file_path).first_or_octet_stream().to_string()
}

/// Relies on `sha2::Sha256::digest`: the 32-byte SHA-256 digest.
#[verifier::external_body]
fn sha256_digest(data: &[u8]) -> (r: Vec<u8>)
    ensures
        r@ == sha256_of(data@),
        r@.len() == 32,
{
    <sha2::Sha256 as sha2::Digest>::digest(data).to_vec()
}

/// The four bytes of `v`, most significant first.
pub open spec fn be_bytes(v: u32) -> Seq<u8> {
    seq![
        (v / 0x1000000) as u8,
        (v / 0x10000 % 0x100) as u8,
        (v / 0x100 % 0x100) as u8,
        (v % 0x100) as u8,
    ]
}

/// The symbol of the standard base64 alphabet for a value below 64.
pub open spec fn b64_symbol(v: int) -> char {
    if v < 26 {
        (65 + v) as char
    } else if v < 52 {
        (97 + v - 26) as char
    } else if v < 62 {
        (48 + v - 52) as char
    } else if v == 62 {
        '+'
    } else {
        '/'
    }
}

/// The value of a symbol of the standard base64 alphabet; -1 for any other char.
pub open spec fn b64_value(c: char) -> int {
    if 'A' <= c <= 'Z' {
        c as int - 65
    } else if 'a' <= c <= 'z' {
        c as int - 97 + 26
    } else if '0' <= c <= '9' {
        c as int - 48 + 52
    } else if c == '+' {
        62
    } else if c == '/' {
        63
    } else {
        -1
    }
}

/// Base64 with the standard alphabet and `=` padding: each three bytes
/// become four symbols of six bits each; a last group of one or two bytes is
/// padded to four symbols.
pub open spec fn base64_standard(b: Seq<u8>) -> Seq<char>
    decreases b.len(),
{
    if b.len() == 0 {
        seq![]
    } else {
        let x0 = b[0] as int;
        let x1 = if b.len() > 1 { b[1] as int } else { 0 };
        let x2 = if b.len() > 2 { b[2] as int } else { 0 };
        let c0 = b64_symbol(x0 / 4);
        let c1 = b64_symbol((x0 % 4) * 16 + x1 / 16);
        let c2 = b64_symbol((x1 % 16) * 4 + x2 / 64);
        let c3 = b64_symbol(x2 % 64);
        if b.len() == 1 {
            seq![c0, c1, '=', '=']
        } else if b.len() == 2 {
            seq![c0, c1, c2, '=']
        } else {
            seq![c0, c1, c2, c3] + base64_standard(b.skip(3))
        }
    }
}

/// Decoding of padded standard base64, four symbols at a time.
pub open spec fn base64_decoded(s: Seq<char>) -> Seq<u8>
    decreases s.len(),
{
    if s.len() < 4 {
        seq![]
    } else {
        let v0 = b64_value(s[0]);
        let v1 = b64_value(s[1]);
        let v2 = b64_value(s[2]);
        let v3 = b64_value(s[3]);
        let b0 = (v0 * 4 + v1 / 16) as u8;
        let b1 = ((v1 % 16) * 16 + v2 / 4) as u8;
        let b2 = ((v2 % 4) * 64 + v3) as u8;
        if s[2] == '=' {
            seq![b0]
        } else if s[3] == '=' {
            seq![b0, b1]
        } else {
            seq![b0, b1, b2] + base64_decoded(s.skip(4))
        }
    }
}

/// The checksum field of a probe: base64 of the big-endian CRC-32C.
pub open spec fn crc32c_field_of(crc: u32) -> Seq<char> {
    base64_standard(be_bytes(crc))
}

/// Each value below 64 has a symbol, which is no padding and reads back as
/// the value.
proof fn lemma_symbol_value(v: int)
    requires
        0 <= v < 64,
    ensures
        b64_value(b64_symbol(v)) == v,
        b64_symbol(v) != '=',
{
}

/// One group of three bytes reads back from its four symbols.
proof fn lemma_group(x0: int, x1: int, x2: int)
    requires
        0 <= x0 < 256,
        0 <= x1 < 256,
        0 <= x2 < 256,
    ensures
        ({
            let v0 = x0 / 4;
            let v1 = (x0 % 4) * 16 + x1 / 16;
            let v2 = (x1 % 16) * 4 + x2 / 64;
            let v3 = x2 % 64;
            &&& 0 <= v0 < 64 && 0 <= v1 < 64 && 0 <= v2 < 64 && 0 <= v3 < 64
            &&& v0 * 4 + v1 / 16 == x0
            &&& (v1 % 16) * 16 + v2 / 4 == x1
            &&& (v2 % 4) * 64 + v3 == x2
        }),
{
    assert(x0 / 4 * 4 + x0 % 4 == x0) by (nonlinear_arith)
        requires 0 <= x0;
    assert(x1 / 16 * 16 + x1 % 16 == x1) by (nonlinear_arith)
        requires 0 <= x1;
    assert(x2 / 64 * 64 + x2 % 64 == x2) by (nonlinear_arith)
        requires 0 <= x2;
}

/// Decoding undoes standard base64: for every byte sequence `b`,
/// `base64_decoded(base64_standard(b)) == b`.
pub proof fn lemma_base64_round_trip(b: Seq<u8>)
    ensures
        base64_decoded(base64_standard(b)) == b,
    decreases b.len(),
{
    if b.len() > 0 {
        let x0 = b[0] as int;
        let x1 = if b.len() > 1 { b[1] as int } else { 0 };
        let x2 = if b.len() > 2 { b[2] as int } else { 0 };
        lemma_group(x0, x1, x2);
        let v0 = x0 / 4;
        let v1 = (x0 % 4) * 16 + x1 / 16;
        let v2 = (x1 % 16) * 4 + x2 / 64;
        let v3 = x2 % 64;
        lemma_symbol_value(v0);
        lemma_symbol_value(v1);
        lemma_symbol_value(v2);
        lemma_symbol_value(v3);
        let e = base64_standard(b);
        if b.len() == 1 {
            assert(base64_decoded(e) =~= b);
        } else if b.len() == 2 {
            assert(base64_decoded(e) =~= b);
        } else {
            lemma_base64_round_trip(b.skip(3));
            assert(e.skip(4) =~= base64_standard(b.skip(3)));
            assert(base64_decoded(e) =~= b);
        }
    }
}

/// The checksum field of a probe decodes to exactly four bytes, the
/// big-endian CRC-32C of the content: for every byte sequence `data`.
pub proof fn lemma_crc32c_field_round_trip(data: Seq<u8>)
    ensures
        base64_decoded(crc32c_field_of(crc32c_of(data))) == be_bytes(crc32c_of(data)),
        base64_decoded(crc32c_field_of(crc32c_of(data))).len() == 4,
{
    lemma_base64_round_trip(be_bytes(crc32c_of(data)));
}

/// Relies on `base64::engine::general_purpose::STANDARD.encode`: standard
/// alphabet with padding. Its length is computed with overflow checks, so
/// the input is bounded.
#[verifier::external_body]
fn base64_encode(b: &[u8]) -> (r: String)
    requires
        b@.len() <= usize::MAX / 2,
    ensures
        r@ == base64_standard(b@),
{
    base64::Engine::encode(&base64::engine::general_purpose::STANDARD, b)
}

/// The four bytes of `v`, most significant first.
pub fn to_be_bytes(v: u32) -> (r: Vec<u8>)
    ensures
        r@ == be_bytes(v),
{
    let r = vec![
        (v / 0x1000000) as u8,
        (v / 0x10000 % 0x100) as u8,
        (v / 0x100 % 0x100) as u8,
        (v % 0x100) as u8,
    ];
    assert(r@ =~= be_bytes(v));
    r
}

/// The probe's checksum field for checksum `crc`.
pub fn crc32c_field(crc: u32) -> (r: String)
    ensures
        r@ == crc32c_field_of(crc),
{
    let bytes = to_be_bytes(crc);
    base64_encode(bytes.as_slice())
}

/// The probe's checksum field for file content `data`: CRC-32C, big-endian,
/// base64.
pub fn compute_crc32c_hash(data: &[u8]) -> (r: String)
    ensures
        r@ == crc32c_field_of(crc32c_of(data@)),
{
    crc32c_field(crc32c_checksum(data))
}

/// The lowercase hex digit of a value below 16.
pub open spec fn hex_digit(v: int) -> char {
    if v < 10 {
        (48 + v) as char
    } else {
        (97 + v - 10) as char
    }
}

/// Two lowercase hex digits per byte, high nibble first.
pub open spec fn lower_hex_of(b: Seq<u8>) -> Seq<char>
    decreases b.len(),
{
    if b.len() == 0 {
        seq![]
    } else {
        lower_hex_of(b.drop_last()) + seq![hex_digit(b.last() as int / 16), hex_digit(b.last() as int % 16)]
    }
}

/// Lowercase hex has two digits per byte.
proof fn lemma_lower_hex_len(b: Seq<u8>)
    ensures
        lower_hex_of(b).len() == 2 * b.len(),
    decreases b.len(),
{
    if b.len() > 0 {
        lemma_lower_hex_len(b.drop_last());
    }
}

/// `bytes` in lowercase hex.
pub fn lower_hex(bytes: &[u8]) -> (r: String)
    ensures
        r@ == lower_hex_of(bytes@),
{
    let digits = "0123456789abcdef";
    proof {
        reveal_strlit("0123456789abcdef");
        assert(digits@.len() == 16);
        assert forall|v: int| 0 <= v < 16 implies #[trigger] digits@[v] == hex_digit(v) by {
            assert(digits@ == seq!['0', '1', '2', '3', '4', '5', '6', '7', '8', '9', 'a', 'b', 'c', 'd', 'e', 'f']);
        }
    }
    let mut out = String::new();
    let mut i: usize = 0;
    while i < bytes.len()
        invariant
            i <= bytes@.len(),
            digits@ == "0123456789abcdef"@,
            digits@.len() == 16,
            forall|v: int| 0 <= v < 16 ==> #[trigger] digits@[v] == hex_digit(v),
            out@ == lower_hex_of(bytes@.take(i as int)),
        decreases bytes@.len() - i,
    {
        let hi = (bytes[i] / 16) as usize;
        let lo = (bytes[i] % 16) as usize;
        assert(bytes@.take(i + 1).drop_last() =~= bytes@.take(i as int));
        let h = digits.substring_char(hi, hi + 1);
        let l = digits.substring_char(lo, lo + 1);
        assert(h@ =~= seq![hex_digit(hi as int)]);
        assert(l@ =~= seq![hex_digit(lo as int)]);
        out.append(h);
        out.append(l);
        assert(out@ =~= lower_hex_of(bytes@.take(i + 1)));
        i = i + 1;
    }
    assert(bytes@.take(bytes@.len() as int) =~= bytes@);
    out
}

/// A device fingerprint: the SHA-256 digest of the machine identifier, in
/// lowercase hex.
pub fn device_fingerprint(machine_id: &str) -> (r: String)
    ensures
        r@ == lower_hex_of(sha256_of(machine_id.spec_bytes())),
        r@.len() == 64,
{
    let digest = sha256_digest(machine_id.as_bytes());
    proof {
        lemma_lower_hex_len(digest@);
    }
    lower_hex(digest.as_slice())
}

} // verus!
