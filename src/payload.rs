//! The pieces of the business payloads that the tool computes itself: the
//! fee asset of a cross-chain message, the committee threshold, the call
//! bytes given in hex and the hex form of a dry-run envelope.
use vstd::prelude::*;
use vstd::string::StringSliceAdditionalSpecFns;
use vstd::string::StringExecFns;

verus! {

/// One DOT in base units (10 decimals).
pub const DOT_DECIMALS: u128 = 10_000_000_000;

/// One NODL in base units (11 decimals).
pub const NODL_DECIMALS: u128 = 100_000_000_000;

/// The parachain id of the Nodle chain.
pub const NODLE_PARA_ID: u32 = 2026;

/// The fee quota of a new sponsorship pot.
pub const POT_FEE_QUOTA: u128 = 123 * NODL_DECIMALS;

/// The reserve quota of a new sponsorship pot.
pub const POT_RESERVE_QUOTA: u128 = 9 * NODL_DECIMALS;

/// The fee quota of each registered user.
pub const USER_FEE_QUOTA: u128 = 43 * NODL_DECIMALS;

/// The reserve quota of each registered user.
pub const USER_RESERVE_QUOTA: u128 = 7 * NODL_DECIMALS;

/// A step inside a location.
#[derive(Clone, Copy, Debug, PartialEq, Eq, Structural)]
pub enum Junction {
    Parachain(u32),
}

/// The interior of a location.
#[derive(Clone, Copy, Debug, PartialEq, Eq, Structural)]
pub enum Junctions {
    Here,
    X1(Junction),
}

/// A location relative to the current chain.
#[derive(Clone, Copy, Debug, PartialEq, Eq, Structural)]
pub struct MultiLocation {
    pub parents: u8,
    pub interior: Junctions,
}

/// How an asset is named.
#[derive(Clone, Copy, Debug, PartialEq, Eq, Structural)]
pub enum AssetId {
    Concrete(MultiLocation),
}

/// How much of an asset.
#[derive(Clone, Copy, Debug, PartialEq, Eq, Structural)]
pub enum Fungibility {
    Fungible(u128),
}

/// An amount of an asset.
#[derive(Clone, Copy, Debug, PartialEq, Eq, Structural)]
pub struct MultiAsset {
    pub id: AssetId,
    pub fun: Fungibility,
}

/// The chain's native asset, in the given amount, to pay the fees of a
/// cross-chain message with.
pub fn build_fee_asset(amount: u128) -> (res: MultiAsset)
    ensures
        res == (MultiAsset {
            id: AssetId::Concrete(MultiLocation { parents: 0, interior: Junctions::Here }),
            fun: Fungibility::Fungible(amount),
        }),
{
    MultiAsset {
        id: AssetId::Concrete(MultiLocation { parents: 0, interior: Junctions::Here }),
        fun: Fungibility::Fungible(amount),
    }
}

/// Where the surplus of a cross-chain message is deposited: the Nodle
/// parachain, seen from the relay chain.
pub fn surplus_beneficiary() -> (res: MultiLocation)
    ensures
        res == (MultiLocation { parents: 0, interior: Junctions::X1(Junction::Parachain(NODLE_PARA_ID)) }),
{
    MultiLocation { parents: 0, interior: Junctions::X1(Junction::Parachain(NODLE_PARA_ID)) }
}

/// The number of votes that a proposal of a committee of `members` needs: a
/// strict majority.
pub fn committee_threshold(members: usize) -> (res: usize)
    ensures
        res == members / 2 + 1,
        2 * res > members,
{
    members / 2 + 1
}

/// The lowercase hex digit of a value below 16.
pub open spec fn hex_digit(v: u8) -> char {
    if v < 10 {
        (v + 48) as char
    } else {
        (v + 87) as char
    }
}

/// Lowercase hex, two digits per byte, high nibble first.
pub open spec fn hex_of(b: Seq<u8>) -> Seq<char>
    decreases b.len(),
{
    if b.len() == 0 {
        Seq::empty()
    } else {
        hex_of(b.drop_last()) + seq![hex_digit(b.last() / 16), hex_digit(b.last() % 16)]
    }
}

/// The value of a hex digit of either case.
pub open spec fn hex_value(c: u8) -> Option<u8> {
    if 48 <= c <= 57 {
        Some((c - 48) as u8)
    } else if 97 <= c <= 102 {
        Some((c - 87) as u8)
    } else if 65 <= c <= 70 {
        Some((c - 55) as u8)
    } else {
        None
    }
}

/// The bytes that a hex text of even length spells, or `None` when a
/// character is no hex digit.
pub open spec fn hex_bytes(s: Seq<u8>) -> Option<Seq<u8>>
    decreases s.len(),
{
    if s.len() < 2 {
        Some(Seq::empty())
    } else {
        match (hex_bytes(s.subrange(0, s.len() - 2)), hex_value(s[s.len() - 2]), hex_value(
            s[s.len() - 1],
        )) {
            (Some(init), Some(hi), Some(lo)) => Some(init.push((hi * 16 + lo) as u8)),
            _ => None,
        }
    }
}

/// Relies on `hex::encode`: lowercase hex, two digits per byte.
#[verifier::external_body]
fn hex_encode(b: &[u8]) -> (res: String)
    ensures
        res@ == hex_of(b@),
{
    hex::encode(b)
}

#[verifier::external_type_specification]
#[verifier::external_body]
pub struct ExFromHexError(hex::FromHexError);

/// Relies on `hex::decode`: a text of odd length is refused; otherwise each
/// pair of hex digits of either case gives one byte, and any other
/// character is refused.
#[verifier::external_body]
fn hex_decode(s: &[u8]) -> (res: Result<Vec<u8>, hex::FromHexError>)
    ensures
        s@.len() % 2 == 1 ==> res is Err,
        s@.len() % 2 == 0 ==> (res is Ok <==> hex_bytes(s@) is Some),
        res matches Ok(v) ==> hex_bytes(s@) == Some(v@),
{
    hex::decode(s)
}

/// Why the hex text of a call was refused.
#[derive(Clone, Copy, Debug, PartialEq, Eq, Structural)]
pub enum TransactError {
    /// The text has an odd number of characters.
    OddLength,
    /// A character is no hex digit.
    InvalidHexCharacter,
}

/// The call bytes that a hex text (without `0x`) spells.
pub fn decode_transact(hex_call: &str) -> (res: Result<Vec<u8>, TransactError>)
    ensures
        hex_call.spec_bytes().len() % 2 == 1 <==> res == Err::<Vec<u8>, TransactError>(
            TransactError::OddLength,
        ),
        hex_call.spec_bytes().len() % 2 == 0 ==> match hex_bytes(hex_call.spec_bytes()) {
            Some(v) => res matches Ok(r) && r@ == v,
            None => res == Err::<Vec<u8>, TransactError>(TransactError::InvalidHexCharacter),
        },
{
    let bytes = hex_call.as_bytes();
    if bytes.len() % 2 == 1 {
        return Err(TransactError::OddLength);
    }
    match hex_decode(bytes) {
        Ok(v) => Ok(v),
        Err(_) => Err(TransactError::InvalidHexCharacter),
    }
}

/// The `0x`-prefixed lowercase hex form of an envelope, as a dry run shows it.
pub fn envelope_hex(envelope: &[u8]) -> (res: String)
    ensures
        res@ == seq!['0', 'x'] + hex_of(envelope@),
{
    let digits = hex_encode(envelope);
    let prefix = "0x".to_owned();
    proof {
        reveal_strlit("0x");
    }
    prefix.concat(digits.as_str())
}

} // verus!
