use vstd::prelude::*;

verus! {

/// The 32-bit rolling hash of the Fast Note Sync Obsidian plugin (`h = (h << 5) - h + unit`
/// in JavaScript's wrapping 32-bit arithmetic), continued from `h` over a
/// sequence of code units.
pub open spec fn rolling_from(h: i32, units: Seq<int>) -> i32
    decreases units.len(),
{
    if units.len() == 0 {
        h
    } else {
        (31 * rolling_from(h, units.drop_last()) + units.last()) as i32
    }
}

/// The rolling hash of `units`, started from zero.
pub open spec fn rolling_hash(units: Seq<int>) -> i32 {
    rolling_from(0i32, units)
}

/// The bytes of `b` as code units.
pub open spec fn byte_units(b: Seq<u8>) -> Seq<int> {
    b.map_values(|x: u8| x as int)
}

/// Law: hashing in two pieces is hashing the concatenation.
pub proof fn lemma_rolling_concat(h: i32, a: Seq<int>, b: Seq<int>)
    ensures
        rolling_from(rolling_from(h, a), b) == rolling_from(h, a + b),
    decreases b.len(),
{
    if b.len() == 0 {
        assert(a + b =~= a);
    } else {
        lemma_rolling_concat(h, a, b.drop_last());
        assert((a + b).drop_last() =~= a + b.drop_last());
        assert((a + b).last() == b.last());
    }
}

/// Law: the units of concatenated bytes are the concatenated units.
pub proof fn lemma_byte_units_concat(a: Seq<u8>, b: Seq<u8>)
    ensures
        byte_units(a + b) == byte_units(a) + byte_units(b),
{
    assert(byte_units(a + b) =~= byte_units(a) + byte_units(b));
}

/// One step of the rolling hash in wrapping `i32` arithmetic.
pub fn rolling_step(h: i32, unit: u16) -> (r: i32)
    ensures
        r == (31 * h + unit) as i32,
{
    let x = unit as i32;
    let r = h.wrapping_shl(5).wrapping_sub(h).wrapping_add(x);
    assert(h.wrapping_shl(5).wrapping_sub(h).wrapping_add(x) == (31 * h + x) as i32) by (bit_vector)
        requires
            0 <= x <= 65535,
    ;
    r
}

/// A rolling hash over bytes fed in one or more pieces.
pub struct RollingByteHash {
    value: i32,
}

impl RollingByteHash {
    pub closed spec fn value(&self) -> i32 {
        self.value
    }

    /// A hash that has seen no bytes.
    pub fn new() -> (r: Self)
        ensures
            r.value() == 0,
    {
        RollingByteHash { value: 0 }
    }

    /// Feeds `bytes`, in order, into the hash.
    pub fn update(&mut self, bytes: &[u8])
        ensures
            final(self).value() == rolling_from(old(self).value(), byte_units(bytes@)),
    {
        let ghost start = self.value;
        let mut i: usize = 0;
        while i < bytes.len()
            invariant
                i <= bytes@.len(),
                self.value == rolling_from(start, byte_units(bytes@.take(i as int))),
            decreases bytes@.len() - i,
        {
            assert(byte_units(bytes@.take(i + 1)).drop_last() =~= byte_units(bytes@.take(i as int)));
            self.value = rolling_step(self.value, bytes[i] as u16);
            i = i + 1;
        }
        assert(bytes@.take(bytes@.len() as int) =~= bytes@);
    }

    /// The hash of everything fed so far.
    pub fn finish(self) -> (r: i32)
        ensures
            r == self.value(),
    {
        self.value
    }
}

impl Default for RollingByteHash {
    fn default() -> (r: Self)
        ensures
            r.value() == 0,
    {
        RollingByteHash::new()
    }
}

} // verus!
