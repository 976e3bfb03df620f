use vstd::prelude::*;
use vstd::arithmetic::div_mod::{lemma_breakdown, lemma_div_denominator, lemma_div_pos_is_pos};

use super::{DRAM_BASE, DRAM_SIZE};

verus! {

/// `256^n`: the number of values that `n` bytes can hold.
pub open spec fn pow256(n: nat) -> nat
    decreases n,
{
    if n == 0 {
        1
    } else {
        256 * pow256((n - 1) as nat)
    }
}

/// The number made of the `n` bytes of `s` that start at `start`, least significant first.
pub open spec fn le_value(s: Seq<u8>, start: int, n: nat) -> nat
    decreases n,
{
    if n == 0 {
        0
    } else {
        s[start] as nat + 256 * le_value(s, start + 1, (n - 1) as nat)
    }
}

/// Byte `j` of `v`, counting from the least significant one.
pub open spec fn byte_of(v: u64, j: nat) -> u8 {
    ((v as nat / pow256(j)) % 256) as u8
}

/// `s` with the low `n` bytes of `v` written at `start`, least significant first.
pub open spec fn write_le(s: Seq<u8>, start: int, n: nat, v: u64) -> Seq<u8> {
    Seq::new(
        s.len(),
        |k: int|
            if start <= k < start + n {
                byte_of(v, (k - start) as nat)
            } else {
                s[k]
            },
    )
}

/// The access widths, in bits, that loads and stores support.
pub open spec fn valid_size(size: u64) -> bool {
    size == 8 || size == 16 || size == 32 || size == 64
}

/// The low `size` bits of `v`.
pub open spec fn low_bits(v: u64, size: u64) -> nat {
    v as nat % pow256((size / 8) as nat)
}

/// The initial DRAM contents for an image: the image at offset 0, zero elsewhere.
/// Bytes of the image beyond the end of DRAM have no address and are left out.
pub open spec fn dram_image(code: Seq<u8>) -> Seq<u8> {
    Seq::new(DRAM_SIZE as nat, |i: int| if i < code.len() { code[i] } else { 0u8 })
}

pub proof fn lemma_pow256_positive(n: nat)
    ensures
        pow256(n) > 0,
    decreases n,
{
    if n > 0 {
        lemma_pow256_positive((n - 1) as nat);
    }
}

pub proof fn lemma_pow256_monotonic(m: nat, n: nat)
    requires
        m <= n,
    ensures
        pow256(m) <= pow256(n),
    decreases n,
{
    if m < n {
        lemma_pow256_monotonic(m, (n - 1) as nat);
    }
}

pub proof fn lemma_pow256_eight()
    ensures
        pow256(8) == 0x1_0000_0000_0000_0000,
        pow256(4) == 0x1_0000_0000,
        pow256(2) == 0x1_0000,
        pow256(1) == 0x100,
{
    reveal_with_fuel(pow256, 9);
}

/// A little-endian value of `n` bytes is below `256^n`.
pub proof fn lemma_le_value_bound(s: Seq<u8>, start: int, n: nat)
    ensures
        le_value(s, start, n) < pow256(n),
    decreases n,
{
    if n > 0 {
        lemma_le_value_bound(s, start + 1, (n - 1) as nat);
    }
}

/// Reading back `n` bytes just written from `v` gives `v` modulo `256^n`
/// (stated for the suffix that starts `k` bytes in).
proof fn lemma_le_value_write_le_from(s: Seq<u8>, start: int, n: nat, v: u64, k: nat)
    requires
        0 <= start,
        start + n <= s.len(),
        k <= n,
    ensures
        le_value(write_le(s, start, n, v), start + k, (n - k) as nat) == (v as nat / pow256(k))
            % pow256((n - k) as nat),
    decreases n - k,
{
    let w = write_le(s, start, n, v);
    let m = (n - k) as nat;
    lemma_pow256_positive(k);
    if m == 0 {
        assert(pow256(0) == 1);
    } else {
        lemma_le_value_write_le_from(s, start, n, v, k + 1);
        let x = v as nat / pow256(k);
        lemma_pow256_positive((m - 1) as nat);
        lemma_div_pos_is_pos(v as int, pow256(k) as int);
        assert(w[start + k] == byte_of(v, k));
        assert(v as nat / pow256(k + 1) == x / 256) by {
            lemma_div_denominator(v as int, pow256(k) as int, 256);
            assert(pow256(k + 1) == 256 * pow256(k));
            assert(pow256(k) * 256 == 256 * pow256(k)) by (nonlinear_arith);
        }
        assert(x % (256 * pow256((m - 1) as nat)) == 256 * ((x / 256) % pow256((m - 1) as nat))
            + x % 256) by {
            lemma_breakdown(x as int, 256, pow256((m - 1) as nat) as int);
        }
        assert(pow256(m) == 256 * pow256((m - 1) as nat));
        assert(((x % 256) as u8) as nat == x % 256);
    }
}

/// Reading back the `n` bytes just written from `v` gives `v` modulo `256^n`.
pub proof fn lemma_le_value_write_le(s: Seq<u8>, start: int, n: nat, v: u64)
    requires
        0 <= start,
        start + n <= s.len(),
    ensures
        le_value(write_le(s, start, n, v), start, n) == v as nat % pow256(n),
{
    lemma_le_value_write_le_from(s, start, n, v, 0);
    assert(pow256(0) == 1);
    assert(v as nat / 1 == v as nat);
}

/// Guest memory: a fixed-size byte array whose first byte sits at `DRAM_BASE`.
pub struct Dram {
    data: Vec<u8>,
}

impl View for Dram {
    type V = Seq<u8>;

    closed spec fn view(&self) -> Seq<u8> {
        self.data@
    }
}

impl Dram {
    /// DRAM always holds exactly `DRAM_SIZE` bytes.
    pub open spec fn wf(&self) -> bool {
        self@.len() == DRAM_SIZE
    }

    /// Zeroed DRAM with `code` copied in at offset 0.
    pub fn new(code: Vec<u8>) -> (r: Dram)
        ensures
            r.wf(),
            r@ == dram_image(code@),
    {
        let size: usize = DRAM_SIZE as usize;
        let mut data: Vec<u8> = vec![0u8; size];
        let n: usize = if code.len() < size {
            code.len()
        } else {
            size
        };
        let mut i: usize = 0;
        while i < n
            invariant
                n <= size,
                n <= code.len(),
                size == DRAM_SIZE,
                data@.len() == size,
                i <= n,
                forall|k: int| 0 <= k < i ==> data@[k] == code@[k],
                forall|k: int| i <= k < size ==> data@[k] == 0u8,
            decreases n - i,
        {
            data.set(i, code[i]);
            i = i + 1;
        }
        let r = Dram { data };
        assert(r@ =~= dram_image(code@));
        r
    }

    /// Reads `size / 8` bytes at guest address `addr`, little-endian.
    pub fn load(&self, addr: u64, size: u64) -> (r: u64)
        requires
            self.wf(),
            valid_size(size),
            DRAM_BASE <= addr,
            addr - DRAM_BASE + size / 8 <= DRAM_SIZE,
        ensures
            r == le_value(self@, addr - DRAM_BASE, (size / 8) as nat),
    {
        let n: usize = (size / 8) as usize;
        let off: usize = (addr - DRAM_BASE) as usize;
        let mut v: u64 = 0;
        let mut i: usize = n;
        proof {
            lemma_pow256_eight();
        }
        while i > 0
            invariant
                n <= 8,
                i <= n,
                off + n <= self@.len(),
                self.wf(),
                pow256(8) == 0x1_0000_0000_0000_0000,
                v == le_value(self@, off + i, (n - i) as nat),
            decreases i,
        {
            proof {
                lemma_le_value_bound(self@, off + i, (n - i) as nat);
                lemma_pow256_monotonic((n - i + 1) as nat, 8);
                assert(pow256((n - i + 1) as nat) == 256 * pow256((n - i) as nat));
            }
            i = i - 1;
            v = v * 256 + self.data[off + i] as u64;
        }
        v
    }

    /// Writes the low `size / 8` bytes of `value` at guest address `addr`, little-endian.
    pub fn store(&mut self, addr: u64, size: u64, value: u64)
        requires
            old(self).wf(),
            valid_size(size),
            DRAM_BASE <= addr,
            addr - DRAM_BASE + size / 8 <= DRAM_SIZE,
        ensures
            final(self).wf(),
            final(self)@ == write_le(old(self)@, addr - DRAM_BASE, (size / 8) as nat, value),
    {
        let n: usize = (size / 8) as usize;
        let off: usize = (addr - DRAM_BASE) as usize;
        let mut w: u64 = value;
        let mut i: usize = 0;
        assert(value as nat / pow256(0) == value as nat) by {
            assert(pow256(0) == 1);
        }
        while i < n
            invariant
                n <= 8,
                i <= n,
                off + n <= self@.len(),
                self@.len() == old(self)@.len(),
                self.wf(),
                w as nat == value as nat / pow256(i as nat),
                forall|k: int| 0 <= k < self@.len() ==> #[trigger] self@[k] == write_le(
                    old(self)@,
                    off as int,
                    i as nat,
                    value,
                )[k],
            decreases n - i,
        {
            proof {
                lemma_pow256_positive(i as nat);
                lemma_div_denominator(value as int, pow256(i as nat) as int, 256);
                assert(pow256(i as nat) * 256 == pow256((i + 1) as nat));
            }
            self.data.set(off + i, (w % 256) as u8);
            w = w / 256;
            i = i + 1;
        }
        assert(self@ =~= write_le(old(self)@, addr - DRAM_BASE, (size / 8) as nat, value));
    }
}

} // verus!
