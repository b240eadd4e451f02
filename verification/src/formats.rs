//! Stored forms that other crates define: the 16 bytes of a decimal, its
//! mantissa at another scale, the text of an identifier and of a URL. Each
//! form has a name here; what it is byte for byte is those crates' matter.

use rust_decimal::Decimal;
use url::Url;
use uuid::Uuid;
use vstd::prelude::*;

verus! {

/// The largest magnitude of a decimal's mantissa: 96 bits.
pub const MAX_MANTISSA: i128 = 0xffff_ffff_ffff_ffff_ffff_ffff;

/// The largest scale of a decimal.
pub const MAX_SCALE: u32 = 28;

/// Whether `mantissa` and `scale` make a decimal.
pub open spec fn decimal_parts_ok(mantissa: int, scale: nat) -> bool {
    -MAX_MANTISSA <= mantissa <= MAX_MANTISSA && scale <= MAX_SCALE
}

/// The 16 bytes that `Decimal::serialize` gives for the decimal of this
/// sign, magnitude and scale.
pub uninterp spec fn decimal_bytes(negative: bool, magnitude: int, scale: nat) -> Seq<u8>;

/// The sign, magnitude and scale of the decimal that `Decimal::deserialize`
/// makes of 16 bytes.
pub uninterp spec fn decimal_parsed(bytes: Seq<u8>) -> (bool, int, nat);

/// The mantissa that the decimal of this mantissa and scale has after
/// `Decimal::rescale` to `target`.
pub uninterp spec fn rescaled_mantissa(mantissa: int, scale: nat, target: nat) -> int;

/// Ten to the power `n`.
pub open spec fn pow10(n: nat) -> nat
    decreases n,
{
    if n == 0 {
        1
    } else {
        10 * pow10((n - 1) as nat)
    }
}

/// A mantissa after its last `digits` digits were shed, `digits` being at
/// least one: the magnitude loses them and goes up by one where the first
/// digit shed is 5 or more; the sign stays.
pub open spec fn shed_digits(mantissa: int, digits: nat) -> int {
    let magnitude = if mantissa < 0 {
        -mantissa
    } else {
        mantissa
    };
    let kept = magnitude / pow10(digits) as int;
    let first_shed = (magnitude / pow10((digits - 1) as nat) as int) % 10;
    let rounded = if first_shed >= 5 {
        kept + 1
    } else {
        kept
    };
    if mantissa < 0 {
        -rounded
    } else {
        rounded
    }
}

/// The hyphenated text that `Uuid` displays the identifier of these 128
/// bits as.
pub uninterp spec fn uuid_text(bits: u128) -> Seq<char>;

/// The 128 bits of the identifier that `Uuid::parse_str` reads from a text,
/// where it reads one.
pub uninterp spec fn uuid_parsed(text: Seq<char>) -> Option<u128>;

/// The serialization of the URL that `Url::parse` reads from a text, where
/// it reads one.
pub uninterp spec fn url_parsed(text: Seq<char>) -> Option<Seq<char>>;

/// `Decimal::try_from_i128_with_scale` on the magnitude, `set_sign_negative`,
/// then `serialize`: 16 bytes, flags first, then the magnitude's three
/// words; `deserialize` reads the same sign, magnitude and scale back from
/// them.
#[verifier::external_body]
pub(crate) fn decimal_to_bytes(negative: bool, magnitude: u128, scale: u32) -> (bytes: Vec<u8>)
    requires
        decimal_parts_ok(magnitude as int, scale as nat),
    ensures
        bytes@ == decimal_bytes(negative, magnitude as int, scale as nat),
        bytes@.len() == 16,
        decimal_parsed(bytes@) == (negative, magnitude as int, scale as nat),
{
    match Decimal::try_from_i128_with_scale(magnitude as i128, scale) {
        Ok(mut decimal) => {
            decimal.set_sign_negative(negative);
            decimal.serialize().to_vec()
        },
        Err(_) => Vec::new(),
    }
}

/// `Decimal::deserialize`, then `is_sign_negative`, `mantissa` and `scale`:
/// the magnitude has at most 96 bits, and a scale above 28 is brought down
/// to 28.
#[verifier::external_body]
pub(crate) fn decimal_from_bytes(bytes: &Vec<u8>) -> (parts: (bool, u128, u32))
    requires
        bytes@.len() == 16,
    ensures
        (parts.0, parts.1 as int, parts.2 as nat) == decimal_parsed(bytes@),
        decimal_parts_ok(parts.1 as int, parts.2 as nat),
{
    let mut array = [0u8; 16];
    array.copy_from_slice(bytes.as_slice());
    let decimal = Decimal::deserialize(array);
    (decimal.is_sign_negative(), decimal.mantissa().unsigned_abs(), decimal.scale())
}

/// `Decimal::try_from_i128_with_scale`, `rescale`, then `mantissa`: the
/// mantissa still has at most 96 bits. At its own scale the decimal is left
/// as it is. Towards a smaller scale the digits beyond it are shed, the
/// first of them deciding the rounding. (Towards a larger scale zeros are
/// appended as far as 96 bits hold them; of that only the name speaks.)
#[verifier::external_body]
pub(crate) fn decimal_rescaled(mantissa: i128, scale: u32, target: u32) -> (r: i128)
    requires
        decimal_parts_ok(mantissa as int, scale as nat),
        target <= MAX_SCALE,
    ensures
        r as int == rescaled_mantissa(mantissa as int, scale as nat, target as nat),
        -MAX_MANTISSA <= r <= MAX_MANTISSA,
        target == scale ==> r == mantissa,
        target < scale ==> r as int == shed_digits(mantissa as int, (scale - target) as nat),
{
    match Decimal::try_from_i128_with_scale(mantissa, scale) {
        Ok(mut decimal) => {
            decimal.rescale(target);
            decimal.mantissa()
        },
        Err(_) => 0,
    }
}

/// `Uuid::from_u128`, then `to_string`: the hyphenated form of 36
/// characters, which `parse_str` reads back as the same identifier.
#[verifier::external_body]
pub(crate) fn uuid_to_text(bits: u128) -> (text: String)
    ensures
        text@ == uuid_text(bits),
        text@.len() == 36,
        uuid_parsed(text@) == Some(bits),
{
    Uuid::from_u128(bits).to_string()
}

/// `Uuid::parse_str`, then `as_u128`; a text that is no identifier gives
/// nothing.
#[verifier::external_body]
pub(crate) fn uuid_from_text(text: &str) -> (bits: Option<u128>)
    ensures
        bits == uuid_parsed(text@),
{
    match Uuid::parse_str(text) {
        Ok(uuid) => Some(uuid.as_u128()),
        Err(_) => None,
    }
}

/// `Url::parse`, then `to_string`; a text that is no URL gives nothing.
#[verifier::external_body]
pub(crate) fn url_from_text(text: &str) -> (r: Option<String>)
    ensures
        match r {
            Some(url) => url_parsed(text@) == Some(url@),
            None => url_parsed(text@) is None,
        },
{
    match Url::parse(text) {
        Ok(url) => Some(url.to_string()),
        Err(_) => None,
    }
}

} // verus!
