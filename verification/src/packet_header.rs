//! The header of a server packet of the world protocol: its decryption, and the body size and
//! opcode that the decrypted bytes give.
use vstd::prelude::*;
use wow_srp::wrath_header::ClientDecrypterHalf;

verus! {

/// The half of the header cipher of wow_srp that decrypts what the server sends.
#[verifier::external_type_specification]
#[verifier::external_body]
pub struct ExClientDecrypterHalf(wow_srp::wrath_header::ClientDecrypterHalf);

/// `ClientDecrypterHalf::decrypt` of wow_srp on the four bytes that start a header. The cipher is a
/// stream cipher whose state is hidden in the decrypter and moves on with every byte, so nothing is
/// stated of the bytes that come out, nor of the decrypter afterwards.
#[verifier::external_body]
fn decrypt_header(decrypter: &mut ClientDecrypterHalf, raw: [u8; 4]) -> (h: [u8; 4]) {
    let mut buf = raw;
    decrypter.decrypt(&mut buf);
    buf
}

/// `ClientDecrypterHalf::decrypt` of wow_srp on the fifth byte of a large header; as for
/// `decrypt_header`, nothing is stated of the byte that comes out.
#[verifier::external_body]
fn decrypt_byte(decrypter: &mut ClientDecrypterHalf, raw: u8) -> (b: u8) {
    let mut buf = [raw];
    decrypter.decrypt(&mut buf);
    buf[0]
}

/// A header whose first byte has the high bit set has a fifth byte (the size takes three bytes).
pub open spec fn large_header(first_byte: u8) -> bool {
    first_byte >= 0x80
}

/// Whether the header has a fifth byte.
pub fn is_large_header(first_byte: u8) -> (r: bool)
    ensures
        r == large_header(first_byte),
{
    let high = first_byte & 0x80;
    assert(high != 0 <==> first_byte >= 0x80) by (bit_vector)
        requires
            high == first_byte & 0x80,
    ;
    high != 0
}

/// `a - b`, or 0 where that is negative.
pub open spec fn saturating_sub(a: int, b: int) -> int {
    if a >= b {
        a - b
    } else {
        0
    }
}

/// The body size and the opcode of a four byte header: a big endian size that counts the
/// two opcode bytes, and a little endian opcode.
pub fn small_header_size_and_opcode(header: [u8; 4]) -> (r: (u32, u16))
    ensures
        r.0 == saturating_sub(header[0] * 256 + header[1], 2),
        r.1 == header[2] + header[3] * 256,
{
    let size: u16 = (header[0] as u16) * 256 + (header[1] as u16);
    let body = if size >= 2 {
        size - 2
    } else {
        0
    };
    let opcode: u16 = (header[2] as u16) + (header[3] as u16) * 256;
    (body as u32, opcode)
}

/// The body size and the opcode of a five byte header (`last_byte` being the fifth): a three
/// byte big endian size without the high bit that counts the two opcode bytes and one more,
/// and a little endian opcode from the fourth and fifth byte.
pub fn large_header_size_and_opcode(header: [u8; 4], last_byte: u8) -> (r: (u32, u16))
    ensures
        r.0 == saturating_sub((header[0] % 128) * 65536 + header[1] * 256 + header[2], 3),
        r.1 == header[3] + last_byte * 256,
{
    let h0 = header[0];
    let low = h0 & 0x7F;
    assert(low == h0 % 128) by (bit_vector)
        requires
            low == h0 & 0x7F,
    ;
    let size: u32 = (low as u32) * 65536 + (header[1] as u32) * 256 + (header[2] as u32);
    let body = if size >= 3 {
        size - 3
    } else {
        0
    };
    let opcode: u16 = (header[3] as u16) + (last_byte as u16) * 256;
    (body, opcode)
}

/// Decrypts the first four bytes of a server header. Returns the decrypted bytes and, where the
/// header has no fifth byte, its body size and opcode; `None` where a fifth byte follows, which
/// `decrypt_server_header_end` takes.
pub fn decrypt_server_header_start(decrypter: &mut ClientDecrypterHalf, raw: [u8; 4]) -> (r: (
    [u8; 4],
    Option<(u32, u16)>,
))
    ensures
        r.1 is None <==> large_header(r.0[0]),
        r.1 matches Some(fields) ==> fields.0 == saturating_sub(r.0[0] * 256 + r.0[1], 2)
            && fields.1 == r.0[2] + r.0[3] * 256,
{
    let header = decrypt_header(decrypter, raw);
    if is_large_header(header[0]) {
        (header, None)
    } else {
        (header, Some(small_header_size_and_opcode(header)))
    }
}

/// Decrypts the fifth byte of a large server header, whose first four decrypted bytes are `header`.
/// Returns the decrypted byte and the body size and opcode of the header.
pub fn decrypt_server_header_end(decrypter: &mut ClientDecrypterHalf, header: [u8; 4], raw: u8) -> (r: (
    u8,
    (u32, u16),
))
    ensures
        r.1.0 == saturating_sub((header[0] % 128) * 65536 + header[1] * 256 + header[2], 3),
        r.1.1 == header[3] + r.0 * 256,
{
    let last = decrypt_byte(decrypter, raw);
    (last, large_header_size_and_opcode(header, last))
}

} // verus!
