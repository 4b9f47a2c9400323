use vstd::prelude::*;

use crate::errors::{ConfigDetail, Error};

verus! {

/// Number of bytes in a symmetric key.
pub const KEY_LEN: usize = 32;

/// Byte buffer backing a symmetric key.
pub type KeyBytes = [u8; KEY_LEN];

/// An ordered sequence of symmetric keys; insertion order is meaningful
/// to callers (for example, unwrap attempts are made in order).
pub type KeySet = Vec<SymmKey>;

/// A symmetric key of exactly `KEY_LEN` bytes. The all-zero value is the
/// reserved sentinel that stands for "no key set".
#[derive(Debug, Clone, Copy)]
pub struct SymmKey {
    pub bytes: KeyBytes,
}

impl SymmKey {
    /// The key is the all-zero sentinel.
    pub open spec fn is_zero(self) -> bool {
        forall|i: int| 0 <= i < self.bytes@.len() ==> self.bytes@[i] == 0u8
    }

    /// Whether this key is the "no key set" sentinel.
    pub fn is_empty(&self) -> (r: bool)
        ensures
            r == self.is_zero(),
    {
        let mut i: usize = 0;
        while i < KEY_LEN
            invariant
                i <= KEY_LEN,
                forall|j: int| 0 <= j < i ==> self.bytes@[j] == 0u8,
            decreases KEY_LEN - i,
        {
            if self.bytes[i] != 0u8 {
                return false;
            }
            i = i + 1;
        }
        true
    }

    /// Builds a key from a byte buffer. A buffer of any length other than
    /// `KEY_LEN` is rejected rather than truncated or padded: downstream
    /// cryptographic code depends on the fixed length holding.
    pub fn from_vec(v: Vec<u8>) -> (r: Result<Self, Error>)
        ensures
            match r {
                Ok(k) => v@.len() == KEY_LEN && k.bytes@ == v@,
                Err(e) => v@.len() != KEY_LEN && (e matches Error::Configuration(
                    ConfigDetail::BadKeyLength { expected: KEY_LEN, actual: a },
                ) && a == v@.len()),
            },
    {
        if v.len() != KEY_LEN {
            let n = v.len();
            Err(Error::Configuration(ConfigDetail::BadKeyLength { expected: KEY_LEN, actual: n }))
        } else {
            let mut b: KeyBytes = [0u8; KEY_LEN];
            let mut i: usize = 0;
            while i < KEY_LEN
                invariant
                    i <= KEY_LEN,
                    v@.len() == KEY_LEN,
                    forall|j: int| 0 <= j < i ==> b@[j] == v@[j],
                decreases KEY_LEN - i,
            {
                b[i] = v[i];
                i = i + 1;
            }
            proof {
                assert(b@ =~= v@);
            }
            Ok(SymmKey { bytes: b })
        }
    }
}

impl Default for SymmKey {
    /// The default key is the all-zero sentinel.
    fn default() -> (k: Self)
        ensures
            k.is_zero(),
    {
        SymmKey { bytes: [0u8; KEY_LEN] }
    }
}

/// Any key whose bytes are a given buffer is the sentinel exactly when
/// that buffer is all zero: telling a key apart from the sentinel depends
/// on the buffer value alone.
pub proof fn lemma_key_zero_iff_buffer_zero(k: SymmKey, v: Seq<u8>)
    requires
        k.bytes@ == v,
    ensures
        k.is_zero() <==> (forall|i: int| 0 <= i < v.len() ==> v[i] == 0u8),
{
}

} // verus!
