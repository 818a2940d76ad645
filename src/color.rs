use vstd::prelude::*;

verus! {

/// The lowercase hexadecimal digit of `n`, for `n < 16`.
pub open spec fn hex_digit(n: int) -> char {
    seq!['0', '1', '2', '3', '4', '5', '6', '7', '8', '9', 'a', 'b', 'c', 'd', 'e', 'f'][n]
}

/// `bytes` written as lowercase hexadecimal, two digits per byte, high half
/// first.
pub open spec fn hex_of(bytes: Seq<u8>) -> Seq<char>
    decreases bytes.len(),
{
    if bytes.len() == 0 {
        Seq::empty()
    } else {
        let b = bytes.last() as int;
        hex_of(bytes.drop_last()) + seq![hex_digit(b / 16), hex_digit(b % 16)]
    }
}

/// Relies on hex::encode: it writes each byte as two lowercase hexadecimal
/// digits, high half first, in the order of the bytes.
#[verifier::external_body]
fn encode_hex(bytes: &Vec<u8>) -> (r: String)
    ensures
        r@ == hex_of(bytes@),
{
    hex::encode(bytes)
}

/// The six hexadecimal digits of the grey whose red, green and blue
/// components are all `level`: the colour a cell of that level is drawn in.
pub fn gray_hex(level: u8) -> (r: String)
    ensures
        r@ == hex_of(seq![level, level, level]),
{
    let rgb: Vec<u8> = vec![level, level, level];
    assert(rgb@ =~= seq![level, level, level]);
    encode_hex(&rgb)
}

} // verus!
