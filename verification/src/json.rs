//! JSON documents, parsed by `serde_json`.
//!
//! [`Json`] mirrors `serde_json::Value` with plain fields, so that the logic
//! which reads a document is verified against the document's structure.

use vstd::prelude::*;
use vstd::arithmetic::power2::pow2;
use vstd::arithmetic::power2::lemma_pow2_unfold;
use crate::text::same_text;

verus! {

#[verifier::external_type_specification]
#[verifier::external_body]
pub struct ExValue(serde_json::Value);

#[verifier::external_type_specification]
#[verifier::external_body]
pub struct ExNumber(serde_json::Number);

/// A JSON number, as `serde_json` classifies it.
#[derive(Debug, Clone, Copy, PartialEq, Eq)]
pub enum JsonNumber {
    /// An integer from zero to `u64::MAX`.
    Unsigned(u64),
    /// An integer below zero.
    Signed(i64),
    /// Any other number, as the bits of an IEEE 754 double.
    Real { bits: u64 },
}

/// A JSON document.
#[derive(Debug, PartialEq, Eq)]
pub enum Json {
    Null,
    Bool(bool),
    Number(JsonNumber),
    Text(String),
    Array(Vec<Json>),
    /// The members of an object, each name once.
    Object(Vec<(String, Json)>),
}

/// What `serde_json` makes of `text`: the document, or the message of its
/// parse error.
pub uninterp spec fn json_document(text: Seq<char>) -> Result<Json, Seq<char>>;

/// Classifies a `serde_json::Number`: unsigned where `Number::as_u64` gives it,
/// else signed where `Number::as_i64` does, else the bits of `Number::as_f64`.
#[verifier::external_body]
fn number_of_value(number: &serde_json::Number) -> JsonNumber {
    match (number.as_u64(), number.as_i64()) {
        (Some(u), _) => JsonNumber::Unsigned(u),
        (None, Some(i)) => JsonNumber::Signed(i),
        (None, None) => JsonNumber::Real { bits: number.as_f64().map_or(0, |x| x.to_bits()) },
    }
}

/// Converts a `serde_json::Value`, variant by variant, the members of an object
/// in the order in which its map yields them.
#[verifier::external_body]
fn json_of_value(value: &serde_json::Value) -> Json {
    match value {
        serde_json::Value::Null => Json::Null,
        serde_json::Value::Bool(b) => Json::Bool(*b),
        serde_json::Value::Number(n) => Json::Number(number_of_value(n)),
        serde_json::Value::String(s) => Json::Text(s.clone()),
        serde_json::Value::Array(items) => Json::Array(items.iter().map(json_of_value).collect()),
        serde_json::Value::Object(members) => Json::Object(
            members.iter().map(|(k, v)| (k.clone(), json_of_value(v))).collect(),
        ),
    }
}

/// `serde_json::from_str` at the type `serde_json::Value`: the result is
/// [`json_document`] of the text, the error given by its message.
#[verifier::external_body]
pub(crate) fn parse_document(text: &str) -> (r: Result<Json, String>)
    ensures
        document_view(r) == json_document(text@),
{
    match serde_json::from_str::<serde_json::Value>(text) {
        Ok(value) => Ok(json_of_value(&value)),
        Err(e) => Err(e.to_string()),
    }
}

/// The view of what [`parse_document`] returns.
pub open spec fn document_view(parsed: Result<Json, String>) -> Result<Json, Seq<char>> {
    match parsed {
        Ok(document) => Ok(document),
        Err(message) => Err(message@),
    }
}

/// The value of the first member of `members` named `key`.
pub open spec fn member(members: Seq<(String, Json)>, key: Seq<char>) -> Option<Json>
    decreases members.len(),
{
    if members.len() == 0 {
        None
    } else if members[0].0@ == key {
        Some(members[0].1)
    } else {
        member(members.skip(1), key)
    }
}

/// Two to the 52nd power: the weight of a double's hidden bit.
pub open spec fn hidden_bit() -> nat {
    0x10_0000_0000_0000
}

/// The whole part of the double with the given bits, for a finite double that is
/// not negative; zero for any other.
pub open spec fn real_whole_part(bits: u64) -> nat {
    let exponent = (bits as nat / hidden_bit()) % 0x800;
    let mantissa = hidden_bit() + bits as nat % hidden_bit();
    if bits >= 0x8000_0000_0000_0000 || exponent == 0x7ff || exponent < 1023 {
        0
    } else if exponent >= 1075 {
        mantissa * pow2((exponent - 1075) as nat)
    } else {
        mantissa / pow2((1075 - exponent) as nat)
    }
}

/// `n`, or `u64::MAX` where `n` is larger.
pub open spec fn clamp_u64(n: nat) -> u64 {
    if n > u64::MAX {
        u64::MAX
    } else {
        n as u64
    }
}

/// Two to the power `k`.
pub fn power_of_two(k: u32) -> (r: u64)
    requires
        k < 64,
    ensures
        r == pow2(k as nat),
        r >= 1,
{
    let mut r: u64 = 1;
    let mut i: u32 = 0;
    proof {
        vstd::arithmetic::power2::lemma2_to64();
    }
    while i < k
        invariant
            i <= k < 64,
            r == pow2(i as nat),
            r >= 1,
        decreases k - i,
    {
        proof {
            lemma_pow2_unfold((i + 1) as nat);
            vstd::arithmetic::power2::lemma_pow2_strictly_increases((i + 1) as nat, 64);
            vstd::arithmetic::power2::lemma2_to64();
        }
        r = r * 2;
        i += 1;
    }
    r
}

/// The whole part of a double, given by its bits, clamped to `u64`.
pub fn whole_part(bits: u64) -> (r: u64)
    ensures
        r == clamp_u64(real_whole_part(bits)),
{
    let exponent: u64 = (bits / 0x10_0000_0000_0000) % 0x800;
    let mantissa: u64 = 0x10_0000_0000_0000 + bits % 0x10_0000_0000_0000;
    if bits >= 0x8000_0000_0000_0000 || exponent == 0x7ff || exponent < 1023 {
        0
    } else if exponent >= 1075 {
        let shift: u64 = exponent - 1075;
        if shift >= 12 {
            proof {
                vstd::arithmetic::power2::lemma2_to64();
                if shift > 12 {
                    vstd::arithmetic::power2::lemma_pow2_strictly_increases(12, shift as nat);
                }
                assert(mantissa * pow2(shift as nat) >= 0x10_0000_0000_0000 * 4096) by (nonlinear_arith)
                    requires
                        mantissa >= 0x10_0000_0000_0000,
                        pow2(shift as nat) >= 4096,
                ;
            }
            u64::MAX
        } else {
            let factor = power_of_two(shift as u32);
            proof {
                vstd::arithmetic::power2::lemma2_to64();
                if shift < 11 {
                    vstd::arithmetic::power2::lemma_pow2_strictly_increases(shift as nat, 11);
                }
                assert(mantissa * factor <= 0x1f_ffff_ffff_ffff * 2048) by (nonlinear_arith)
                    requires
                        mantissa <= 0x1f_ffff_ffff_ffff,
                        factor <= 2048,
                ;
            }
            mantissa * factor
        }
    } else {
        let shift: u64 = 1075 - exponent;
        let divisor = power_of_two(shift as u32);
        mantissa / divisor
    }
}

impl Json {
    /// The value of the member named `key`, where `self` is an object that has
    /// one.
    pub open spec fn field(self, key: Seq<char>) -> Option<Json> {
        match self {
            Json::Object(members) => member(members@, key),
            _ => None,
        }
    }

    /// The text of a string.
    pub open spec fn text(self) -> Option<Seq<char>> {
        match self {
            Json::Text(s) => Some(s@),
            _ => None,
        }
    }

    /// The integer of a number from zero to `u64::MAX`.
    pub open spec fn unsigned(self) -> Option<u64> {
        match self {
            Json::Number(JsonNumber::Unsigned(u)) => Some(u),
            _ => None,
        }
    }

    /// A number in whole units: itself where it is an unsigned integer, zero
    /// where it is negative, else the whole part of the double.
    pub open spec fn whole(self) -> Option<u64> {
        match self {
            Json::Number(JsonNumber::Unsigned(u)) => Some(u),
            Json::Number(JsonNumber::Signed(_)) => Some(0),
            Json::Number(JsonNumber::Real { bits }) => Some(clamp_u64(real_whole_part(bits))),
            _ => None,
        }
    }

    /// The items of an array.
    pub open spec fn items(self) -> Option<Seq<Json>> {
        match self {
            Json::Array(items) => Some(items@),
            _ => None,
        }
    }

    /// Looks up a member of an object by name.
    pub fn get(&self, key: &str) -> (r: Option<&Json>)
        ensures
            r.is_some() == self.field(key@).is_some(),
            r matches Some(j) ==> self.field(key@) == Some(*j),
    {
        match self {
            Json::Object(members) => {
                let mut i: usize = 0;
                assert(members@.skip(0) =~= members@);
                while i < members.len()
                    invariant
                        i <= members.len(),
                        self.field(key@) == member(members@.skip(i as int), key@),
                    decreases members.len() - i,
                {
                    assert(members@.skip(i as int)[0] == members@[i as int]);
                    if same_text(members[i].0.as_str(), key) {
                        return Some(&members[i].1);
                    }
                    assert(members@.skip(i as int).skip(1) =~= members@.skip(i + 1));
                    i += 1;
                }
                None
            },
            _ => None,
        }
    }

    /// The text of a string.
    pub fn as_text(&self) -> (r: Option<&String>)
        ensures
            r.is_some() == self.text().is_some(),
            r matches Some(s) ==> self.text() == Some(s@),
    {
        match self {
            Json::Text(s) => Some(s),
            _ => None,
        }
    }

    /// The integer of a number from zero to `u64::MAX`.
    pub fn as_unsigned(&self) -> (r: Option<u64>)
        ensures
            r == self.unsigned(),
    {
        match self {
            Json::Number(JsonNumber::Unsigned(u)) => Some(*u),
            _ => None,
        }
    }

    /// A number in whole units.
    pub fn as_whole(&self) -> (r: Option<u64>)
        ensures
            r == self.whole(),
    {
        match self {
            Json::Number(JsonNumber::Unsigned(u)) => Some(*u),
            Json::Number(JsonNumber::Signed(_)) => Some(0),
            Json::Number(JsonNumber::Real { bits }) => Some(whole_part(*bits)),
            _ => None,
        }
    }

    /// The items of an array.
    pub fn as_array(&self) -> (r: Option<&Vec<Json>>)
        ensures
            r.is_some() == self.items().is_some(),
            r matches Some(v) ==> self.items() == Some(v@),
    {
        match self {
            Json::Array(items) => Some(items),
            _ => None,
        }
    }

    /// Whether this is `null`.
    pub fn is_null(&self) -> (r: bool)
        ensures
            r == (self is Null),
    {
        match self {
            Json::Null => true,
            _ => false,
        }
    }
}

} // verus!
