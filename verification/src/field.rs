//! Zero-copy field value view (RFC 7011 6, 7).
//!
//! A [`FieldValue`] borrows its data bytes from the input buffer. Typed
//! accessors interpret those bytes in network byte order.

use vstd::prelude::*;
use vstd::string::StringSliceAdditionalSpecFns;
use vstd::utf8::valid_utf8;
use crate::util::be_value;

verus! {

/// `256` raised to the power `n`: one more than the largest value that `n`
/// bytes can encode.
pub open spec fn pow256(n: nat) -> nat
    decreases n,
{
    if n == 0 {
        1
    } else {
        pow256((n - 1) as nat) * 256
    }
}

/// The big-endian value of `n` bytes is below `256^n`.
pub proof fn lemma_be_value_bound(s: Seq<u8>)
    ensures
        be_value(s) < pow256(s.len()),
    decreases s.len(),
{
    if s.len() > 0 {
        lemma_be_value_bound(s.drop_last());
        let v = be_value(s.drop_last());
        let p = pow256((s.len() - 1) as nat);
        assert(v * 256 + s.last() < p * 256) by (nonlinear_arith)
            requires
                v < p,
                s.last() < 256,
        ;
    }
}

/// Read the first `n` bytes of `data` as a big-endian integer (`n <= 16`).
fn be_prefix_value(data: &[u8], n: usize) -> (r: u128)
    requires
        n <= 16,
        n <= data@.len(),
    ensures
        r == be_value(data@.take(n as int)),
{
    let mut v: u128 = 0;
    let mut i: usize = 0;
    proof {
        assert(pow256(16) == 0x1_0000_0000_0000_0000_0000_0000_0000_0000) by { reveal_with_fuel(pow256, 17); }
    }
    while i < n
        invariant
            i <= n <= 16,
            n <= data@.len(),
            v == be_value(data@.take(i as int)),
            pow256(16) == 0x1_0000_0000_0000_0000_0000_0000_0000_0000,
        decreases n - i,
    {
        proof {
            lemma_be_value_bound(data@.take(i as int));
            lemma_pow256_mono(i as nat, 15);
            assert(data@.take(i + 1).drop_last() =~= data@.take(i as int));
            assert(v * 256 + 255 < pow256(16)) by (nonlinear_arith)
                requires
                    v < pow256(i as nat),
                    pow256(i as nat) <= pow256(15),
                    pow256(16) == pow256(15) * 256,
            ;
        }
        v = v * 256 + data[i] as u128;
        i = i + 1;
    }
    v
}

/// Powers of 256 grow with the exponent.
pub proof fn lemma_pow256_mono(a: nat, b: nat)
    requires
        a <= b,
    ensures
        pow256(a) <= pow256(b),
        pow256(b) >= 1,
    decreases b,
{
    if b > 0 {
        if a < b {
            lemma_pow256_mono(a, (b - 1) as nat);
        } else {
            lemma_pow256_mono((b - 1) as nat, (b - 1) as nat);
        }
    }
}

/// `core::str::from_utf8`: the bytes viewed as a string slice when they are
/// valid UTF-8.
///
/// Claims: the result is `Some` exactly when the bytes are valid UTF-8 (as
/// vstd's `valid_utf8` defines it), and then the string's bytes are the
/// input bytes.
#[verifier::external_body]
fn str_from_utf8<'a>(bytes: &'a [u8]) -> (r: Option<&'a str>)
    ensures
        r is Some <==> valid_utf8(bytes@),
        r matches Some(s) ==> s.spec_bytes() == bytes@,
{
    core::str::from_utf8(bytes).ok()
}

/// A zero-copy view of a single IPFIX field value.
#[derive(Debug, Clone, Copy, PartialEq, Eq)]
#[non_exhaustive]
pub struct FieldValue<'a> {
    /// The Information Element identifier (low 15 bits of the IE ID word).
    pub information_element_id: u16,
    /// Enterprise Number, present for enterprise-specific IEs.
    pub enterprise_number: Option<u32>,
    /// The raw bytes of this field value, in network byte order.
    pub data: &'a [u8],
}

impl<'a> FieldValue<'a> {
    /// Construct a field value from its components.
    pub fn new(information_element_id: u16, enterprise_number: Option<u32>, data: &'a [u8]) -> (r: Self)
        ensures
            r.information_element_id == information_element_id,
            r.enterprise_number == enterprise_number,
            r.data@ == data@,
    {
        FieldValue { information_element_id, enterprise_number, data }
    }

    /// The field as a `u8`; `None` unless the data is exactly 1 byte.
    pub fn as_u8(&self) -> (r: Option<u8>)
        ensures
            self.data@.len() == 1 ==> r == Some(self.data@[0]),
            self.data@.len() != 1 ==> r is None,
    {
        if self.data.len() == 1 {
            Some(self.data[0])
        } else {
            None
        }
    }

    /// The field as a big-endian `u16`; `None` unless the data is exactly
    /// 2 bytes.
    pub fn as_u16(&self) -> (r: Option<u16>)
        ensures
            self.data@.len() == 2 ==> r == Some(be_value(self.data@) as u16),
            self.data@.len() != 2 ==> r is None,
    {
        if self.data.len() == 2 {
            let v = be_prefix_value(self.data, 2);
            proof {
                assert(self.data@.take(2) =~= self.data@);
                lemma_be_value_bound(self.data@);
                assert(pow256(2) == 0x1_0000) by { reveal_with_fuel(pow256, 3); }
            }
            Some(v as u16)
        } else {
            None
        }
    }

    /// The field as a big-endian `u32`; `None` unless the data is exactly
    /// 4 bytes.
    pub fn as_u32(&self) -> (r: Option<u32>)
        ensures
            self.data@.len() == 4 ==> r == Some(be_value(self.data@) as u32),
            self.data@.len() != 4 ==> r is None,
    {
        if self.data.len() == 4 {
            let v = be_prefix_value(self.data, 4);
            proof {
                assert(self.data@.take(4) =~= self.data@);
                lemma_be_value_bound(self.data@);
                assert(pow256(4) == 0x1_0000_0000) by { reveal_with_fuel(pow256, 5); }
            }
            Some(v as u32)
        } else {
            None
        }
    }

    /// The field as a big-endian `u64`; `None` unless the data is exactly
    /// 8 bytes.
    pub fn as_u64(&self) -> (r: Option<u64>)
        ensures
            self.data@.len() == 8 ==> r == Some(be_value(self.data@) as u64),
            self.data@.len() != 8 ==> r is None,
    {
        if self.data.len() == 8 {
            let v = be_prefix_value(self.data, 8);
            proof {
                assert(self.data@.take(8) =~= self.data@);
                lemma_be_value_bound(self.data@);
                assert(pow256(8) == 0x1_0000_0000_0000_0000) by { reveal_with_fuel(pow256, 9); }
            }
            Some(v as u64)
        } else {
            None
        }
    }

    /// The field as a big-endian `u128`; `None` unless the data is exactly
    /// 16 bytes.
    pub fn as_u128(&self) -> (r: Option<u128>)
        ensures
            self.data@.len() == 16 ==> r == Some(be_value(self.data@) as u128),
            self.data@.len() != 16 ==> r is None,
    {
        if self.data.len() == 16 {
            let v = be_prefix_value(self.data, 16);
            proof {
                assert(self.data@.take(16) =~= self.data@);
            }
            Some(v)
        } else {
            None
        }
    }

    /// The field as a UTF-8 string slice; `None` if the bytes are not valid
    /// UTF-8.
    pub fn as_str(&self) -> (r: Option<&'a str>)
        ensures
            r is Some <==> valid_utf8(self.data@),
            r matches Some(s) ==> s.spec_bytes() == self.data@,
    {
        str_from_utf8(self.data)
    }

    /// Returns `true` if this is an enterprise-specific IE.
    pub fn is_enterprise(&self) -> (r: bool)
        ensures
            r == self.enterprise_number is Some,
    {
        self.enterprise_number.is_some()
    }
}

} // verus!
