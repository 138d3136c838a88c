use vstd::prelude::*;

verus! {

/// The identity of a board, read once when the board is detected.
#[derive(Debug)]
pub struct Ident {
    pub manufacturer: String,
    pub board: String,
    pub firmware: u32,
}

/// The text that `String::from_utf8_lossy` makes of a byte string.
pub uninterp spec fn utf8_lossy(b: Seq<u8>) -> Seq<char>;

/// Relies on `String::from_utf8_lossy`: the bytes read as UTF-8, with each
/// invalid sequence replaced; the text depends on the bytes alone.
#[verifier::external_body]
fn text_lossy(b: &Vec<u8>) -> (r: String)
    ensures
        r@ == utf8_lossy(b@),
        b@.len() == 0 ==> r@.len() == 0,
{
    String::from_utf8_lossy(b.as_slice()).into_owned()
}

impl Ident {
    /// The identity made of the firmware version and the raw manufacturer
    /// and board names, as the board sent them.
    pub fn from_parts(firmware: u32, manufacturer: &Vec<u8>, board: &Vec<u8>) -> (r: Ident)
        ensures
            r.firmware == firmware,
            r.manufacturer@ == utf8_lossy(manufacturer@),
            r.board@ == utf8_lossy(board@),
    {
        Ident { manufacturer: text_lossy(manufacturer), board: text_lossy(board), firmware }
    }
}

/// The character of the decimal digit `d`.
pub open spec fn digit(d: nat) -> char {
    (48 + d) as char
}

/// The decimal digits of `n`, without leading zeros.
pub open spec fn decimal(n: nat) -> Seq<char>
    decreases n,
{
    if n < 10 {
        seq![digit(n)]
    } else {
        decimal(n / 10).push(digit(n % 10))
    }
}

/// The text of a firmware version number `major * 1000000 + minor * 1000 + patch`:
/// `major.minor.patch`.
pub open spec fn version_text(ver: u32) -> Seq<char> {
    decimal((ver / 1_000_000) as nat) + seq!['.'] + decimal((ver / 1000 % 1000) as nat) + seq!['.']
        + decimal((ver % 1000) as nat)
}

/// Relies on `format!` with `{}` on `u32`: each number in decimal without
/// leading zeros, the three joined by dots.
#[verifier::external_body]
fn dotted(a: u32, b: u32, c: u32) -> (r: String)
    ensures
        r@ == decimal(a as nat) + seq!['.'] + decimal(b as nat) + seq!['.'] + decimal(c as nat),
{
    format!("{}.{}.{}", a, b, c)
}

/// The text of a firmware version number, as `major.minor.patch`.
#[allow(non_snake_case)]
pub fn version_as_String(ver: u32) -> (r: String)
    ensures
        r@ == version_text(ver),
{
    dotted(ver / 1_000_000, ver / 1000 % 1000, ver % 1000)
}

} // verus!
