//! Session identifiers and the two textual forms in which they appear:
//! in the name of the channel between the two processes, and in the name of
//! the file that backs a crash dump.

use vstd::prelude::*;

verus! {

/// A 128-bit identifier of one run of the monitored application.
#[derive(Clone, Copy, Debug, PartialEq, Eq, Structural)]
pub struct SessionId(pub u128);

/// The sixteen lower-case hexadecimal digits, in order of value.
pub open spec fn hex_digits() -> Seq<char> {
    seq!['0', '1', '2', '3', '4', '5', '6', '7', '8', '9', 'a', 'b', 'c', 'd', 'e', 'f']
}

/// Whether `c` is a lower-case hexadecimal digit.
pub open spec fn is_hex_digit(c: char) -> bool {
    hex_digits().contains(c)
}

/// The `width` least significant hexadecimal digits of `value`, most
/// significant first.
pub open spec fn hex(value: nat, width: nat) -> Seq<char>
    decreases width,
{
    if width == 0 {
        Seq::empty()
    } else {
        hex(value / 16, (width - 1) as nat).push(hex_digits()[(value % 16) as int])
    }
}

/// Sixteen to the power `n`.
pub open spec fn pow16(n: nat) -> nat
    decreases n,
{
    if n == 0 {
        1
    } else {
        16 * pow16((n - 1) as nat)
    }
}

/// The simple form of an identifier: its 32 hexadecimal digits.
pub open spec fn simple_text(id: SessionId) -> Seq<char> {
    hex(id.0 as nat, 32)
}

/// The 32 digits `digits` in groups of 8, 4, 4, 4 and 12, separated by `-`.
pub open spec fn hyphenate(digits: Seq<char>) -> Seq<char> {
    digits.subrange(0, 8) + seq!['-'] + digits.subrange(8, 12) + seq!['-'] + digits.subrange(
        12,
        16,
    ) + seq!['-'] + digits.subrange(16, 20) + seq!['-'] + digits.subrange(20, 32)
}

/// The hyphenated form of an identifier, 36 characters long.
pub open spec fn hyphenated_text(id: SessionId) -> Seq<char> {
    hyphenate(simple_text(id))
}

/// Whether `value` is laid out as a random (version 4) identifier: the
/// version field holds 4 and the variant field starts with the bits `10`.
pub open spec fn is_version_4(value: u128) -> bool {
    (value >> 76) & 0xf == 4 && (value >> 62) & 0x3 == 2
}

/// Trusted: `uuid::Uuid::new_v4`, read back with `Uuid::as_u128`. The value
/// is random, so the contract claims only the fixed version and variant
/// fields that `new_v4` masks in. `new_v4` panics where the operating
/// system yields no random bytes.
#[verifier::external_body]
fn random_v4() -> (value: u128)
    ensures
        is_version_4(value),
{
    uuid::Uuid::new_v4().as_u128()
}

/// Trusted: the `Display` form of `uuid::fmt::Simple`, on the identifier
/// that `Uuid::from_u128` makes of `value`: 32 lower-case hexadecimal digits,
/// most significant first.
#[verifier::external_body]
fn format_simple(value: u128) -> (text: String)
    ensures
        text@ == hex(value as nat, 32),
{
    uuid::Uuid::from_u128(value).simple().to_string()
}

/// Trusted: the `Display` form of `uuid::Uuid`, on the identifier that
/// `Uuid::from_u128` makes of `value`: the 32 lower-case digits of the simple
/// form with `-` after the 8th, 12th, 16th and 20th.
#[verifier::external_body]
fn format_hyphenated(value: u128) -> (text: String)
    ensures
        text@ == hyphenate(hex(value as nat, 32)),
{
    uuid::Uuid::from_u128(value).to_string()
}

impl SessionId {
    /// Draws a fresh random identifier.
    pub fn random() -> (id: SessionId)
        ensures
            is_version_4(id.0),
    {
        SessionId(random_v4())
    }

    /// The identifier as 32 hexadecimal digits.
    pub fn simple(&self) -> (text: String)
        ensures
            text@ == simple_text(*self),
    {
        format_simple(self.0)
    }

    /// The identifier in groups of 8, 4, 4, 4 and 12 hexadecimal digits.
    pub fn hyphenated(&self) -> (text: String)
        ensures
            text@ == hyphenated_text(*self),
    {
        format_hyphenated(self.0)
    }
}

/// `hex(value, width)` has `width` characters, each a hexadecimal digit.
pub proof fn lemma_hex_shape(value: nat, width: nat)
    ensures
        hex(value, width).len() == width,
        forall|i: int| 0 <= i < width ==> is_hex_digit(#[trigger] hex(value, width)[i]),
    decreases width,
{
    if width > 0 {
        let init = hex(value / 16, (width - 1) as nat);
        lemma_hex_shape(value / 16, (width - 1) as nat);
        assert forall|i: int| 0 <= i < width implies is_hex_digit(
            #[trigger] hex(value, width)[i],
        ) by {
            if i < width - 1 {
                assert(hex(value, width)[i] == init[i]);
            } else {
                assert(hex(value, width)[i] == hex_digits()[(value % 16) as int]);
            }
        }
    }
}

/// Two numbers below `16^width` with the same `width` digits are equal.
pub proof fn lemma_hex_injective(a: nat, b: nat, width: nat)
    requires
        a < pow16(width),
        b < pow16(width),
        hex(a, width) == hex(b, width),
    ensures
        a == b,
    decreases width,
{
    if width > 0 {
        let init_a = hex(a / 16, (width - 1) as nat);
        let init_b = hex(b / 16, (width - 1) as nat);
        let last_a = hex_digits()[(a % 16) as int];
        let last_b = hex_digits()[(b % 16) as int];
        assert(init_a.push(last_a).drop_last() == init_a);
        assert(init_b.push(last_b).drop_last() == init_b);
        assert(init_a.push(last_a).last() == init_b.push(last_b).last());
        lemma_hex_injective(a / 16, b / 16, (width - 1) as nat);
    }
}

/// Distinct identifiers have distinct simple forms.
pub proof fn lemma_simple_text_injective(a: SessionId, b: SessionId)
    requires
        simple_text(a) == simple_text(b),
    ensures
        a == b,
{
    assert(pow16(32) == 0x1_0000_0000_0000_0000_0000_0000_0000_0000) by {
        reveal_with_fuel(pow16, 33);
    }
    lemma_hex_injective(a.0 as nat, b.0 as nat, 32);
}

} // verus!
