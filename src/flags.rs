//! Sprite flags: eight on/off bits for each sprite.
use vstd::prelude::*;

verus! {

/// Whether bit `n` of `b` is set.
pub open spec fn flag_bit(b: u8, n: u8) -> bool {
    (b >> n) & 1u8 == 1u8
}

/// `b` with bit `n` set to `value`.
pub open spec fn with_flag(b: u8, n: u8, value: bool) -> u8 {
    if value {
        b | (1u8 << n)
    } else {
        b & !(1u8 << n)
    }
}

/// Setting a flag gives it the value asked for and leaves the other seven as they were.
pub proof fn law_set_flag(b: u8, n: u8, value: bool)
    requires
        n < 8,
    ensures
        flag_bit(with_flag(b, n, value), n) == value,
        forall|k: u8| k < 8 && k != n ==> #[trigger] flag_bit(with_flag(b, n, value), k) == flag_bit(b, k),
{
    if value {
        assert(((b | (1u8 << n)) >> n) & 1u8 == 1u8) by (bit_vector)
            requires
                n < 8,
        ;
        assert forall|k: u8| k < 8 && k != n implies #[trigger] flag_bit(with_flag(b, n, value), k) == flag_bit(b, k) by {
            assert((((b | (1u8 << n)) >> k) & 1u8 == 1u8) == ((b >> k) & 1u8 == 1u8)) by (bit_vector)
                requires
                    n < 8,
                    k < 8,
                    k != n,
            ;
        }
    } else {
        assert(((b & !(1u8 << n)) >> n) & 1u8 != 1u8) by (bit_vector)
            requires
                n < 8,
        ;
        assert forall|k: u8| k < 8 && k != n implies #[trigger] flag_bit(with_flag(b, n, value), k) == flag_bit(b, k) by {
            assert((((b & !(1u8 << n)) >> k) & 1u8 == 1u8) == ((b >> k) & 1u8 == 1u8)) by (bit_vector)
                requires
                    n < 8,
                    k < 8,
                    k != n,
            ;
        }
    }
}

/// The flag byte of each sprite.
#[derive(Debug)]
pub struct Flags {
    bits: Vec<u8>,
}

impl View for Flags {
    type V = Seq<u8>;

    closed spec fn view(&self) -> Seq<u8> {
        self.bits@
    }
}

impl Flags {
    /// Flags for `count` sprites, all off.
    pub fn new(count: usize) -> (r: Flags)
        ensures
            r@ == Seq::new(count as nat, |i: int| 0u8),
    {
        let mut bits: Vec<u8> = Vec::new();
        let mut i: usize = 0;
        while i < count
            invariant
                i <= count,
                bits@ == Seq::new(i as nat, |j: int| 0u8),
            decreases count - i,
        {
            bits.push(0);
            i = i + 1;
        }
        Flags { bits }
    }

    /// Flags holding the flag byte `bits[i]` for sprite `i`.
    pub fn from_bits(bits: Vec<u8>) -> (r: Flags)
        ensures
            r@ == bits@,
    {
        Flags { bits }
    }

    /// The flag bytes, one per sprite.
    pub fn bits(&self) -> (r: &[u8])
        ensures
            r@ == self@,
    {
        self.bits.as_slice()
    }

    /// Number of sprites with flags.
    pub fn len(&self) -> (r: usize)
        ensures
            r == self@.len(),
    {
        self.bits.len()
    }

    /// Flag `n` of sprite `sprite`.
    pub fn fget_n(&self, sprite: usize, n: u8) -> (r: bool)
        requires
            sprite < self@.len(),
            n < 8,
        ensures
            r == flag_bit(self@[sprite as int], n),
    {
        (self.bits[sprite] >> n) & 1 == 1
    }

    /// Sets flag `n` of sprite `sprite` to `value`.
    pub fn fset(&mut self, sprite: usize, n: u8, value: bool)
        requires
            sprite < old(self)@.len(),
            n < 8,
        ensures
            final(self)@ == old(self)@.update(sprite as int, with_flag(old(self)@[sprite as int], n, value)),
    {
        let b = self.bits[sprite];
        let nb = if value {
            b | (1u8 << n)
        } else {
            b & !(1u8 << n)
        };
        self.bits.set(sprite, nb);
    }
}

} // verus!
