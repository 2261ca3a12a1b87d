use vstd::prelude::*;

verus! {

/// A 32-byte account address.
#[derive(Clone, Copy, Debug)]
pub struct Pubkey {
    pub bytes: [u8; 32],
}

impl View for Pubkey {
    type V = Seq<u8>;

    open spec fn view(&self) -> Seq<u8> {
        self.bytes@
    }
}

/// The all-zero address, used as "no address".
pub open spec fn zero_key() -> Seq<u8> {
    Seq::new(32, |i: int| 0u8)
}

impl Pubkey {
    pub fn new(bytes: [u8; 32]) -> (r: Pubkey)
        ensures
            r@ == bytes@,
    {
        Pubkey { bytes }
    }

    /// The all-zero address.
    pub fn zero() -> (r: Pubkey)
        ensures
            r@ == zero_key(),
    {
        let r = Pubkey { bytes: [0u8; 32] };
        assert(r@ =~= zero_key());
        r
    }

    /// Whether every byte is zero.
    pub fn is_zero(&self) -> (r: bool)
        ensures
            r == (self@ == zero_key()),
    {
        let mut i: usize = 0;
        while i < 32
            invariant
                0 <= i <= 32,
                self@.len() == 32,
                forall|j: int| 0 <= j < i ==> self@[j] == 0,
            decreases 32 - i,
        {
            if self.bytes[i] != 0 {
                assert(self@[i as int] != zero_key()[i as int]);
                return false;
            }
            i = i + 1;
        }
        assert(self@ =~= zero_key());
        true
    }

    /// Byte-wise equality of two addresses.
    pub fn same(&self, other: &Pubkey) -> (r: bool)
        ensures
            r == (self@ == other@),
    {
        let mut i: usize = 0;
        while i < 32
            invariant
                0 <= i <= 32,
                self@.len() == 32,
                other@.len() == 32,
                forall|j: int| 0 <= j < i ==> self@[j] == other@[j],
            decreases 32 - i,
        {
            if self.bytes[i] != other.bytes[i] {
                return false;
            }
            i = i + 1;
        }
        assert(self@ =~= other@);
        true
    }
}

/// The 32 bytes of `data` starting at `offset`, if `data` is long enough.
pub open spec fn field_at(data: Seq<u8>, offset: int) -> Option<Seq<u8>> {
    if 0 <= offset && offset + 32 <= data.len() {
        Some(data.subrange(offset, offset + 32))
    } else {
        None
    }
}

/// Whether the 32-byte field of raw account `data` at `offset` exists and holds `key`.
pub fn field_is(data: &Vec<u8>, offset: usize, key: &Pubkey) -> (r: bool)
    ensures
        r == (field_at(data@, offset as int) == Some(key@)),
{
    if data.len() < 32 || offset > data.len() - 32 {
        return false;
    }
    let mut i: usize = 0;
    while i < 32
        invariant
            0 <= i <= 32,
            offset + 32 <= data.len(),
            key@.len() == 32,
            forall|j: int| 0 <= j < i ==> data@[offset + j] == key@[j],
        decreases 32 - i,
    {
        if data[offset + i] != key.bytes[i] {
            assert(data@.subrange(offset as int, offset + 32)[i as int] != key@[i as int]);
            return false;
        }
        i = i + 1;
    }
    assert(data@.subrange(offset as int, offset + 32) =~= key@);
    true
}

/// Little-endian signed 32-bit integer from four bytes.
pub open spec fn le_i32(b0: u8, b1: u8, b2: u8, b3: u8) -> int {
    let u = b0 + 256 * b1 + 65536 * b2 + 16777216 * b3;
    if u >= 0x8000_0000 {
        u - 0x1_0000_0000
    } else {
        u
    }
}

/// The little-endian `i32` of `data` at `offset`, if `data` is long enough.
pub open spec fn i32_at(data: Seq<u8>, offset: int) -> Option<int> {
    if 0 <= offset && offset + 4 <= data.len() {
        Some(le_i32(data[offset], data[offset + 1], data[offset + 2], data[offset + 3]))
    } else {
        None
    }
}

/// Reads the little-endian `i32` of raw account `data` at `offset`.
pub fn read_i32_le(data: &Vec<u8>, offset: usize) -> (r: Option<i32>)
    ensures
        r matches Some(v) ==> i32_at(data@, offset as int) == Some(v as int),
        r is None ==> i32_at(data@, offset as int) is None,
{
    if data.len() < 4 || offset > data.len() - 4 {
        return None;
    }
    let u: i64 = data[offset] as i64 + 256 * (data[offset + 1] as i64) + 65536 * (
    data[offset + 2] as i64) + 16777216 * (data[offset + 3] as i64);
    let v: i64 = if u >= 0x8000_0000 {
        u - 0x1_0000_0000
    } else {
        u
    };
    Some(v as i32)
}

} // verus!
