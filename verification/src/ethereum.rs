//! Models of the Ethereum values the explorer reads (addresses, 32-byte
//! hashes, 256-bit amounts), and the calls into `ethers` that parse and
//! render them.

use vstd::prelude::*;
use crate::text::{decimal, digit_char, pow10, zero_padded};

verus! {

/// A 20-byte account address, as `ethers::types::H160` holds it.
#[derive(Clone, Copy, Debug)]
pub struct Address {
    pub bytes: [u8; 20],
}

/// A 32-byte hash, as `ethers::types::H256` holds it.
#[derive(Clone, Copy, Debug)]
pub struct Hash32 {
    pub bytes: [u8; 32],
}

/// A 256-bit unsigned amount, as `ethers::types::U256` holds it: four
/// 64-bit limbs, least significant first.
#[derive(Clone, Copy, Debug)]
pub struct Amount {
    pub limbs: [u64; 4],
}

impl View for Address {
    type V = Seq<u8>;

    open spec fn view(&self) -> Seq<u8> {
        self.bytes@
    }
}

impl View for Hash32 {
    type V = Seq<u8>;

    open spec fn view(&self) -> Seq<u8> {
        self.bytes@
    }
}

pub open spec fn limb_base() -> nat {
    0x1_0000_0000_0000_0000nat
}

impl View for Amount {
    type V = nat;

    open spec fn view(&self) -> nat {
        self.limbs[0] as nat + limb_base() * (self.limbs[1] as nat + limb_base() * (self.limbs[2]
            as nat + limb_base() * self.limbs[3] as nat))
    }
}

impl Address {
    /// Whether two addresses hold the same bytes.
    pub fn same(&self, other: &Address) -> (res: bool)
        ensures
            res == (self@ == other@),
    {
        let mut i: usize = 0;
        while i < 20
            invariant
                0 <= i <= 20,
                forall|j: int| 0 <= j < i ==> self.bytes[j] == other.bytes[j],
            decreases 20 - i,
        {
            if self.bytes[i] != other.bytes[i] {
                assert(self@[i as int] != other@[i as int]);
                return false;
            }
            i = i + 1;
        }
        assert(self@ =~= other@);
        true
    }
}

/// The characters that the hexadecimal parser of `H160` skips.
pub open spec fn is_hex_space(c: char) -> bool {
    c == ' ' || c == '\r' || c == '\n' || c == '\t'
}

pub open spec fn is_hex_digit(c: char) -> bool {
    ('0' <= c && c <= '9') || ('a' <= c && c <= 'f') || ('A' <= c && c <= 'F')
}

pub open spec fn hex_digit_value(c: char) -> int {
    if '0' <= c && c <= '9' {
        c as int - '0' as int
    } else if 'a' <= c && c <= 'f' {
        c as int - 'a' as int + 10
    } else {
        c as int - 'A' as int + 10
    }
}

/// The input with one leading `0x` taken off, where it has one.
pub open spec fn without_0x(s: Seq<char>) -> Seq<char> {
    if s.len() >= 2 && s[0] == '0' && s[1] == 'x' {
        s.skip(2)
    } else {
        s
    }
}

/// The characters of the input that the hexadecimal parser reads.
pub open spec fn hex_body(s: Seq<char>) -> Seq<char> {
    without_0x(s).filter(|c: char| !is_hex_space(c))
}

/// What `"...".parse::<H160>()` gives: after an optional `0x` and with
/// blanks dropped, exactly 40 hexadecimal digits of either case, read two
/// by two, big endian.
pub open spec fn spec_parse_address(s: Seq<char>) -> Option<Seq<u8>> {
    let d = hex_body(s);
    if d.len() == 40 && (forall|i: int| 0 <= i < 40 ==> is_hex_digit(#[trigger] d[i])) {
        Some(
            Seq::new(
                20,
                |i: int| (hex_digit_value(d[2 * i]) * 16 + hex_digit_value(d[2 * i + 1])) as u8,
            ),
        )
    } else {
        None
    }
}

/// Two lower-case hexadecimal digits of a byte.
pub open spec fn byte_hex(b: u8) -> Seq<char> {
    seq![digit_char((b / 16) as nat), digit_char((b % 16) as nat)]
}

/// The `Display` rendering of a fixed-size hash (`H160`, `H256`): `0x`,
/// the first two bytes in hexadecimal, an ellipsis, the last two bytes.
pub open spec fn short_hex(bytes: Seq<u8>) -> Seq<char> {
    seq!['0', 'x'] + byte_hex(bytes[0]) + byte_hex(bytes[1]) + seq!['\u{2026}'] + byte_hex(
        bytes[bytes.len() - 2],
    ) + byte_hex(bytes[bytes.len() - 1])
}

/// What `ethers::utils::format_units(amount, units)` returns for a `U256`
/// amount and units below 78: the integer part, a dot, and the remainder
/// padded with zeros to `units` digits.
pub open spec fn spec_format_units(amount: nat, units: nat) -> Seq<char> {
    decimal(amount / pow10(units)) + seq!['.'] + zero_padded(decimal(amount % pow10(units)), units)
}

/// Calls `str::parse::<ethers::types::H160>()` (the `FromStr` of
/// `fixed-hash`): strips one `0x`, skips blanks, and decodes exactly 40
/// hexadecimal digits; `None` stands for its error.
#[verifier::external_body]
pub(crate) fn parse_address(s: &str) -> (res: Option<Address>)
    ensures
        match res {
            Some(a) => spec_parse_address(s@) == Some(a@),
            None => spec_parse_address(s@) is None,
        },
{
    match s.parse::<ethers::types::H160>() {
        Ok(h) => Some(Address { bytes: h.0 }),
        Err(_) => None,
    }
}

/// Calls `Display` of `ethers::types::H160` (through `to_string`): the
/// abbreviated form `0xabcd…ef01`.
#[verifier::external_body]
pub(crate) fn address_to_string(a: &Address) -> (res: String)
    ensures
        res@ == short_hex(a@),
{
    ethers::types::H160(a.bytes).to_string()
}

/// Calls `Display` of `ethers::types::H256`: the abbreviated form
/// `0xabcd…ef01`.
#[verifier::external_body]
pub(crate) fn hash_to_string(h: &Hash32) -> (res: String)
    ensures
        res@ == short_hex(h@),
{
    ethers::types::H256(h.bytes).to_string()
}

/// Calls `Display` of `ethers::types::U256`: the amount in decimal.
#[verifier::external_body]
pub(crate) fn amount_to_string(v: &Amount) -> (res: String)
    ensures
        res@ == decimal(v@),
{
    ethers::types::U256(v.limbs).to_string()
}

/// Calls `Display` of `ethers::types::U64`: the number in decimal.
#[verifier::external_body]
pub(crate) fn block_number_to_string(n: u64) -> (res: String)
    ensures
        res@ == decimal(n as nat),
{
    ethers::types::U64([n]).to_string()
}

/// Calls `ethers::utils::format_units` on a `U256` amount with `i32`
/// units.  The units are turned into `u32` by `as`, so a negative value
/// becomes at least `2^31`; the call fails exactly when that is 78 or
/// more, and otherwise renders the amount as `spec_format_units` says.
#[verifier::external_body]
pub(crate) fn format_units(amount: &Amount, units: i32) -> (res: Option<String>)
    ensures
        match res {
            Some(s) => 0 <= units < 78 && s@ == spec_format_units(amount@, units as nat),
            None => !(0 <= units < 78),
        },
{
    match ethers::utils::format_units(ethers::types::U256(amount.limbs), units) {
        Ok(s) => Some(s),
        Err(_) => None,
    }
}

} // verus!
