//! A packed array of bits, the working storage of the prime sieves.

use vstd::prelude::*;

verus! {

/// Whether bit `k` of `byte` is set.
pub open spec fn bit_of(byte: u8, k: u8) -> bool {
    byte & (1u8 << k) != 0
}

/// No bit of the byte zero is set.
proof fn lemma_bit_of_zero(k: u8)
    by (bit_vector)
    requires
        k < 8,
    ensures
        0u8 & (1u8 << k) == 0,
{
}

/// Every bit of the byte `0xff` is set.
proof fn lemma_bit_of_ones(k: u8)
    by (bit_vector)
    requires
        k < 8,
    ensures
        0xffu8 & (1u8 << k) != 0,
{
}

/// Toggling bit `k` of a byte changes bit `k` and no other.
proof fn lemma_bit_of_flip(byte: u8, k: u8, j: u8)
    by (bit_vector)
    requires
        k < 8,
        j < 8,
    ensures
        ((byte ^ (1u8 << k)) & (1u8 << j) != 0) == ((byte & (1u8 << j) != 0) != (j == k)),
{
}

/// A fixed-size set of bits addressed by the indices `0..=size`.
///
/// The view of a `Bitset` is the sequence of its `size + 1` bits.
pub struct Bitset {
    data: Vec<u8>,
    size: usize,
}

impl View for Bitset {
    type V = Seq<bool>;

    closed spec fn view(&self) -> Seq<bool> {
        Seq::new(
            (self.size + 1) as nat,
            |i: int| bit_of(self.data@[i / 8], (i % 8) as u8),
        )
    }
}

impl Bitset {
    /// The storage is large enough to hold every addressable bit.
    pub closed spec fn wf(&self) -> bool {
        self.data@.len() == self.size / 8 + 1
    }

    /// The largest addressable index.
    pub closed spec fn spec_size(&self) -> nat {
        self.size as nat
    }

    /// The view has one entry per addressable index.
    pub proof fn lemma_view_len(&self)
        ensures
            self@.len() == self.spec_size() + 1,
            self.spec_size() <= usize::MAX,
    {
    }

    /// A set of `size + 1` bits, all of them clear.
    pub fn new(size: usize) -> (b: Bitset)
        ensures
            b.wf(),
            b.spec_size() == size,
            b@.len() == size + 1,
            forall|i: int| 0 <= i <= size ==> !#[trigger] b@[i],
    {
        let bytes: usize = size / 8 + 1;
        let mut data: Vec<u8> = Vec::new();
        let mut n: usize = 0;
        while n < bytes
            invariant
                n <= bytes,
                data@.len() == n,
                forall|j: int| 0 <= j < n ==> #[trigger] data@[j] == 0u8,
            decreases bytes - n,
        {
            data.push(0u8);
            n = n + 1;
        }
        let b = Bitset { data, size };
        assert forall|i: int| 0 <= i <= size implies !#[trigger] b@[i] by {
            lemma_bit_of_zero((i % 8) as u8);
        }
        b
    }

    /// Sets every bit.
    pub fn one(&mut self)
        requires
            old(self).wf(),
        ensures
            final(self).wf(),
            final(self).spec_size() == old(self).spec_size(),
            final(self)@.len() == old(self)@.len(),
            forall|i: int| 0 <= i < final(self)@.len() ==> #[trigger] final(self)@[i],
    {
        let n: usize = self.data.len();
        let mut k: usize = 0;
        while k < n
            invariant
                k <= n,
                n == self.data@.len(),
                self.size == old(self).size,
                self.wf(),
                forall|j: int| 0 <= j < k ==> #[trigger] self.data@[j] == 0xffu8,
            decreases n - k,
        {
            self.data.set(k, 0xffu8);
            k = k + 1;
        }
        assert forall|i: int| 0 <= i < self@.len() implies #[trigger] self@[i] by {
            lemma_bit_of_ones((i % 8) as u8);
        }
    }

    /// The bit at `pos`.
    pub fn read(&self, pos: usize) -> (bit: bool)
        requires
            self.wf(),
            pos <= self.spec_size(),
        ensures
            bit == self@[pos as int],
    {
        let k: u8 = (pos % 8) as u8;
        self.data[pos / 8] & (1u8 << k) != 0
    }

    /// Toggles the bit at `pos` and leaves every other bit as it was.
    pub fn flip(&mut self, pos: usize)
        requires
            old(self).wf(),
            pos <= old(self).spec_size(),
        ensures
            final(self).wf(),
            final(self).spec_size() == old(self).spec_size(),
            final(self)@ == old(self)@.update(pos as int, !old(self)@[pos as int]),
    {
        let k: u8 = (pos % 8) as u8;
        let byte: u8 = self.data[pos / 8];
        self.data.set(pos / 8, byte ^ (1u8 << k));
        proof {
            let before = old(self)@;
            let after = self@;
            assert forall|i: int| 0 <= i < after.len() implies after[i] == before.update(
                pos as int,
                !before[pos as int],
            )[i] by {
                if i / 8 == pos / 8 {
                    lemma_bit_of_flip(byte, k, (i % 8) as u8);
                }
            }
            assert(after =~= before.update(pos as int, !before[pos as int]));
        }
    }

    /// Gives the bit at `pos` the value `value` and leaves every other bit as
    /// it was.
    pub fn set(&mut self, pos: usize, value: bool)
        requires
            old(self).wf(),
            pos <= old(self).spec_size(),
        ensures
            final(self).wf(),
            final(self).spec_size() == old(self).spec_size(),
            final(self)@ == old(self)@.update(pos as int, value),
    {
        if self.read(pos) != value {
            self.flip(pos);
        }
        assert(self@ =~= old(self)@.update(pos as int, value));
    }

    /// The indices of the set bits, in ascending order.
    pub fn collect_true_indices(&self) -> (res: Vec<u64>)
        requires
            self.wf(),
        ensures
            res@ == set_indices(self@, self@.len() as int),
    {
        let mut res: Vec<u64> = Vec::new();
        let mut i: usize = 0;
        while i < self.size
            invariant
                self.wf(),
                i <= self.size,
                res@ == set_indices(self@, i as int),
            decreases self.size - i,
        {
            if self.read(i) {
                res.push(i as u64);
            }
            i = i + 1;
            reveal_with_fuel(set_indices, 2);
        }
        if self.read(i) {
            res.push(i as u64);
        }
        reveal_with_fuel(set_indices, 2);
        res
    }
}

/// The indices below `n` at which `bits` holds `true`, in ascending order.
pub open spec fn set_indices(bits: Seq<bool>, n: int) -> Seq<u64>
    decreases n,
{
    if n <= 0 {
        Seq::empty()
    } else if bits[n - 1] {
        set_indices(bits, n - 1).push((n - 1) as u64)
    } else {
        set_indices(bits, n - 1)
    }
}

/// `set_indices(bits, n)` holds exactly the indices below `n` whose bit is
/// set, in strictly ascending order.
pub proof fn lemma_set_indices(bits: Seq<bool>, n: int)
    requires
        0 <= n <= bits.len(),
        n <= u64::MAX + 1,
    ensures
        set_indices(bits, n).len() <= n,
        forall|i: int|
            0 <= i < set_indices(bits, n).len() ==> (#[trigger] set_indices(bits, n)[i]) < n
                && bits[set_indices(bits, n)[i] as int],
        forall|i: int, j: int|
            0 <= i < j < set_indices(bits, n).len() ==> set_indices(bits, n)[i] < set_indices(
                bits,
                n,
            )[j],
        forall|k: int|
            0 <= k < n && bits[k] ==> set_indices(bits, n).contains(#[trigger] (k as u64)),
    decreases n,
{
    if n > 0 {
        lemma_set_indices(bits, n - 1);
        let prev = set_indices(bits, n - 1);
        let cur = set_indices(bits, n);
        assert forall|k: int| 0 <= k < n && bits[k] implies cur.contains(#[trigger] (k as u64)) by {
            if k < n - 1 {
                let i = choose|i: int| 0 <= i < prev.len() && prev[i] == k as u64;
                assert(cur[i] == k as u64);
            } else {
                assert(cur[cur.len() - 1] == k as u64);
            }
        }
    }
}

} // verus!
