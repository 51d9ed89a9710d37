//! Virtual machine key flags.

use vstd::prelude::*;

verus! {

broadcast use vstd::seq_lib::lemma_seq_contains_after_push;

/// A mask of the sixteen hexadecimal keys: bit `k` is set while key `k`
/// (a value in `0..=15`) is pressed.
#[derive(Clone, Copy, Debug, PartialEq, Eq, Structural)]
pub struct VmKey {
    pub bits: u16,
}

/// The single-bit mask that stands for key code `key`, or the empty mask
/// when `key` names no hexadecimal key.
pub open spec fn key_mask_of(key: u8) -> u16 {
    if key < 16 {
        (1u16 << (key as u16)) as u16
    } else {
        0u16
    }
}

/// The key code named by a single-bit mask, or `0xff` when the mask does
/// not hold exactly one named key.
pub open spec fn key_code_of(bits: u16) -> u8 {
    if bits == 0x0001 {
        0u8
    } else if bits == 0x0002 {
        1u8
    } else if bits == 0x0004 {
        2u8
    } else if bits == 0x0008 {
        3u8
    } else if bits == 0x0010 {
        4u8
    } else if bits == 0x0020 {
        5u8
    } else if bits == 0x0040 {
        6u8
    } else if bits == 0x0080 {
        7u8
    } else if bits == 0x0100 {
        8u8
    } else if bits == 0x0200 {
        9u8
    } else if bits == 0x0400 {
        10u8
    } else if bits == 0x0800 {
        11u8
    } else if bits == 0x1000 {
        12u8
    } else if bits == 0x2000 {
        13u8
    } else if bits == 0x4000 {
        14u8
    } else if bits == 0x8000 {
        15u8
    } else {
        0xffu8
    }
}

/// True when the key named by `code` is down in the key mask `keys`:
/// every bit of the code's mask is set. A code that names no key has the
/// empty mask, which any key mask contains.
pub open spec fn key_down(keys: u16, code: u8) -> bool {
    keys & key_mask_of(code) == key_mask_of(code)
}

/// Converting a key code below 16 to its mask and back yields the code again.
pub proof fn lemma_key_code_roundtrip(key: u8)
    by (bit_vector)
    requires
        key < 16,
    ensures
        key_code_of(key_mask_of(key)) == key,
{
}

impl VmKey {
    /// True when the mask holds key code `key`.
    pub open spec fn spec_pressed(self, key: u8) -> bool {
        key < 16 && (self.bits >> (key as u16)) & 1 == 1
    }

    /// Creates an empty key mask.
    pub fn empty() -> (r: Self)
        ensures
            r.bits == 0,
    {
        VmKey { bits: 0 }
    }

    /// True when every key of `other` is in this mask.
    pub fn contains(&self, other: VmKey) -> (r: bool)
        ensures
            r == (self.bits & other.bits == other.bits),
    {
        self.bits & other.bits == other.bits
    }

    /// Adds the keys of `other` to this mask.
    pub fn insert(&mut self, other: VmKey)
        ensures
            final(self).bits == old(self).bits | other.bits,
    {
        self.bits = self.bits | other.bits;
    }

    /// Removes the keys of `other` from this mask.
    pub fn remove(&mut self, other: VmKey)
        ensures
            final(self).bits == old(self).bits & !other.bits,
    {
        self.bits = self.bits & !other.bits;
    }

    /// Gets the list of activated keys in the given key mask, as key codes
    /// in ascending order.
    pub fn to_vec(self) -> (r: Vec<u8>)
        ensures
            forall|i: int| 0 <= i < r@.len() ==> self.spec_pressed(#[trigger] r@[i]),
            forall|key: u8| self.spec_pressed(key) ==> r@.contains(key),
            forall|i: int, j: int| 0 <= i < j < r@.len() ==> r@[i] < r@[j],
    {
        let mut keys: Vec<u8> = Vec::new();
        let mut k: u8 = 0;
        while k < 16
            invariant
                k <= 16,
                forall|i: int| 0 <= i < keys@.len() ==> self.spec_pressed(#[trigger] keys@[i]),
                forall|i: int| 0 <= i < keys@.len() ==> #[trigger] keys@[i] < k,
                forall|key: u8| key < k && self.spec_pressed(key) ==> keys@.contains(key),
                forall|i: int, j: int| 0 <= i < j < keys@.len() ==> keys@[i] < keys@[j],
            decreases 16 - k,
        {
            if (self.bits >> (k as u16)) & 1 == 1 {
                keys.push(k);
            }
            k = k + 1;
        }
        keys
    }
}

impl Default for VmKey {
    /// Creates an empty key mask.
    fn default() -> (r: Self)
        ensures
            r.bits == 0,
    {
        VmKey { bits: 0 }
    }
}

impl From<u8> for VmKey {
    /// The mask holding the named key alone, or the empty mask when `key`
    /// names no hexadecimal key.
    fn from(key: u8) -> (r: Self) {
        if key < 16 {
            VmKey { bits: 1u16 << (key as u16) }
        } else {
            VmKey { bits: 0 }
        }
    }
}

impl vstd::std_specs::convert::FromSpecImpl<u8> for VmKey {
    open spec fn obeys_from_spec() -> bool {
        true
    }

    open spec fn from_spec(key: u8) -> Self {
        VmKey { bits: key_mask_of(key) }
    }
}

impl From<VmKey> for u8 {
    /// The code of the single key in the mask, or `0xff` when the mask does
    /// not hold exactly one key.
    fn from(key: VmKey) -> (r: Self) {
        if key.bits == 0x0001 {
            0
        } else if key.bits == 0x0002 {
            1
        } else if key.bits == 0x0004 {
            2
        } else if key.bits == 0x0008 {
            3
        } else if key.bits == 0x0010 {
            4
        } else if key.bits == 0x0020 {
            5
        } else if key.bits == 0x0040 {
            6
        } else if key.bits == 0x0080 {
            7
        } else if key.bits == 0x0100 {
            8
        } else if key.bits == 0x0200 {
            9
        } else if key.bits == 0x0400 {
            10
        } else if key.bits == 0x0800 {
            11
        } else if key.bits == 0x1000 {
            12
        } else if key.bits == 0x2000 {
            13
        } else if key.bits == 0x4000 {
            14
        } else if key.bits == 0x8000 {
            15
        } else {
            0xff
        }
    }
}

impl vstd::std_specs::convert::FromSpecImpl<VmKey> for u8 {
    open spec fn obeys_from_spec() -> bool {
        true
    }

    open spec fn from_spec(key: VmKey) -> Self {
        key_code_of(key.bits)
    }
}

} // verus!
