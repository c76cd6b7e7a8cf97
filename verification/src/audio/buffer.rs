//! Single-producer / single-consumer PCM ring buffer.
//!
//! The buffer is the only data path between an audio producer (test signal,
//! file playback, capture) and the spectrum analyser. Indices run freely and
//! are reduced modulo the power-of-two capacity with a bit mask; index
//! wrap-around at `usize::MAX` is harmless. When the buffer is full the
//! samples that do not fit are dropped, so the analyser always sees the
//! freshest data that was accepted.

use vstd::arithmetic::div_mod::{lemma_fundamental_div_mod, lemma_mod_mod, lemma_mod_multiples_vanish};
use vstd::arithmetic::power2::{lemma2_to64, lemma2_to64_rest, lemma_pow2_adds, lemma_pow2_pos, pow2};
use vstd::bits::{lemma_usize_low_bits_mask_is_mod, low_bits_mask};
use vstd::prelude::*;

verus! {

/// Size of the space in which the free-running indices live (`usize::MAX + 1`).
pub open spec fn index_space() -> int {
    usize::MAX as int + 1
}

/// Slot of the free-running index `i` in a buffer of `cap` slots.
pub open spec fn slot_of(i: int, cap: int) -> int {
    i % cap
}

/// `n` is a power of two.
pub open spec fn is_power_of_two(n: int) -> bool {
    exists|k: nat| pow2(k) == n
}

/// The capacity a buffer asked for `requested` samples gets: the least power
/// of two that is at least `max(requested, 4)`.
pub open spec fn rounded_capacity(requested: int, cap: int) -> bool {
    let want = if requested < 4 { 4 } else { requested };
    &&& is_power_of_two(cap)
    &&& want <= cap
    &&& cap < 2 * want
}

/// A request that already is a power of two of at least 4 is met exactly.
pub proof fn law_power_of_two_request_is_exact(requested: int, cap: int)
    requires
        rounded_capacity(requested, cap),
        requested >= 4,
        is_power_of_two(requested),
    ensures
        cap == requested,
{
    let kc = choose|k: nat| pow2(k) == cap;
    let kr = choose|k: nat| pow2(k) == requested;
    if kc > kr {
        lemma_pow2_adds(kr, (kc - kr) as nat);
        lemma_pow2_adds(1, (kc - kr - 1) as nat);
        lemma_pow2_pos((kc - kr - 1) as nat);
        lemma_pow2_pos(kr);
        lemma2_to64();
        assert(kr + (kc - kr) as nat == kc);
        assert(1 + (kc - kr - 1) as nat == (kc - kr) as nat);
        assert(pow2((kc - kr) as nat) >= 2) by (nonlinear_arith)
            requires
                pow2((kc - kr) as nat) == pow2(1) * pow2((kc - kr - 1) as nat),
                pow2(1) == 2,
                pow2((kc - kr - 1) as nat) > 0,
        ;
        assert(cap >= 2 * requested) by (nonlinear_arith)
            requires
                cap == pow2(kr) * pow2((kc - kr) as nat),
                requested == pow2(kr),
                pow2((kc - kr) as nat) >= 2,
                pow2(kr) > 0,
        ;
    } else if kc < kr {
        vstd::arithmetic::power2::lemma_pow2_strictly_increases(kc, kr);
    }
}

/// Samples a write accepts: all offered ones when they fit, otherwise as
/// many as there is room for.
pub open spec fn accepted_count(pending: int, cap: int, offered: int) -> int {
    if offered <= cap - pending {
        offered
    } else {
        cap - pending
    }
}

/// Pending samples after offering `s` to a buffer of capacity `cap` holding `v`.
pub open spec fn after_write<T>(v: Seq<T>, cap: int, s: Seq<T>) -> Seq<T> {
    v + s.take(accepted_count(v.len() as int, cap, s.len() as int))
}

/// Samples a read moves: as many as are pending, at most `room`.
pub open spec fn read_count(pending: int, room: int) -> int {
    if room <= pending {
        room
    } else {
        pending
    }
}

/// Destination after reading from a buffer holding `v` into `out`.
pub open spec fn read_out<T>(v: Seq<T>, out: Seq<T>) -> Seq<T> {
    let k = read_count(v.len() as int, out.len() as int);
    v.take(k) + out.skip(k)
}

/// Pending samples after reading from a buffer holding `v` into `room` slots.
pub open spec fn after_read<T>(v: Seq<T>, room: int) -> Seq<T> {
    v.skip(read_count(v.len() as int, room))
}

/// Lock-free-style ring buffer of samples (single producer, single consumer).
///
/// Its contents are the samples written and not yet read, oldest first.
pub struct PcmRingBuffer<T> {
    buf: Vec<T>,
    mask: usize,
    write: usize,
    read: usize,
    log2_cap: Ghost<nat>,
}

impl<T> View for PcmRingBuffer<T> {
    type V = Seq<T>;

    /// The pending samples, oldest first.
    open spec fn view(&self) -> Seq<T> {
        self.contents()
    }
}

/// Distinct offsets below the modulus land in distinct slots.
proof fn lemma_distinct_slots(base: int, a: int, b: int, cap: int)
    requires
        0 < cap,
        0 <= a < b < cap,
    ensures
        (base + a) % cap != (base + b) % cap,
{
    lemma_fundamental_div_mod(base + a, cap);
    lemma_fundamental_div_mod(base + b, cap);
    let qa = (base + a) / cap;
    let qb = (base + b) / cap;
    if (base + a) % cap == (base + b) % cap {
        assert(cap * (qb - qa) == b - a) by (nonlinear_arith)
            requires
                base + a == cap * qa + (base + a) % cap,
                base + b == cap * qb + (base + b) % cap,
                (base + a) % cap == (base + b) % cap,
        ;
        assert(false) by (nonlinear_arith)
            requires
                cap * (qb - qa) == b - a,
                0 < b - a < cap,
        ;
    }
}

/// `2^BITS` is the index space.
proof fn lemma_index_space_pow2()
    ensures
        pow2(usize::BITS as nat) == index_space(),
{
    lemma2_to64();
    lemma2_to64_rest();
}

/// Every power of two below `2^BITS` fits in half of the index space.
proof fn lemma_pow2_fits(k: nat)
    requires
        k < usize::BITS,
    ensures
        pow2(k) <= usize::MAX / 2 + 1,
        pow2(k) > 0,
{
    let rest = (usize::BITS - k) as nat;
    lemma_pow2_adds(k, rest);
    lemma_index_space_pow2();
    lemma_pow2_pos(k);
    lemma_pow2_pos(rest);
    assert(k + rest == usize::BITS as nat);
    if rest == 1 {
        lemma2_to64();
    } else {
        lemma_pow2_adds(1, (rest - 1) as nat);
        assert(1 + (rest - 1) as nat == rest);
        lemma2_to64();
        lemma_pow2_pos((rest - 1) as nat);
        assert(pow2(rest) >= 2) by (nonlinear_arith)
            requires
                pow2(rest) == pow2(1) * pow2((rest - 1) as nat),
                pow2(1) == 2,
                pow2((rest - 1) as nat) > 0,
        ;
    }
    assert(pow2(k) * 2 <= index_space()) by (nonlinear_arith)
        requires
            pow2(k) * pow2(rest) == index_space(),
            pow2(rest) >= 2,
            pow2(k) > 0,
    ;
}

/// Reducing a wrapped index modulo a power-of-two capacity gives the same
/// slot as reducing the unwrapped one.
proof fn lemma_wrap_slot(x: int, k: nat)
    requires
        k < usize::BITS,
    ensures
        (x % index_space()) % (pow2(k) as int) == x % (pow2(k) as int),
        (x - index_space()) % (pow2(k) as int) == x % (pow2(k) as int),
{
    let rest = (usize::BITS - k) as nat;
    lemma_pow2_adds(k, rest);
    lemma_index_space_pow2();
    lemma_pow2_pos(k);
    lemma_pow2_pos(rest);
    assert(k + rest == usize::BITS as nat);
    assert(pow2(k) * pow2(rest) == index_space());
    lemma_mod_mod(x, pow2(k) as int, pow2(rest) as int);
    lemma_mod_multiples_vanish(-(pow2(rest) as int), x, pow2(k) as int);
    assert((pow2(k) as int) * (-(pow2(rest) as int)) == -index_space()) by (nonlinear_arith)
        requires
            pow2(k) * pow2(rest) == index_space(),
    ;
}

impl<T> PcmRingBuffer<T> {
    /// Number of pending samples (distance from the read to the write index).
    pub closed spec fn pending(&self) -> nat {
        self.write.wrapping_sub(self.read) as nat
    }

    /// Capacity in samples.
    pub closed spec fn spec_capacity(&self) -> nat {
        self.mask as nat + 1
    }

    /// Slot that holds the sample at free-running index `i`.
    closed spec fn slot(&self, i: int) -> int {
        slot_of(i, self.spec_capacity() as int)
    }

    /// The pending samples, oldest first.
    pub closed spec fn contents(&self) -> Seq<T> {
        Seq::new(self.pending(), |k: int| self.buf@[self.slot(self.read + k)])
    }

    /// Internal consistency: power-of-two capacity, at most a full buffer
    /// pending, and storage that is filled in order until it first wraps.
    pub closed spec fn wf(&self) -> bool {
        let cap = self.mask + 1;
        &&& 2 <= self.log2_cap@ < usize::BITS
        &&& cap == pow2(self.log2_cap@)
        &&& self.buf.len() <= cap
        &&& self.buf.len() < cap ==> (self.write == self.buf.len() && self.read <= self.write)
        &&& self.pending() <= cap
    }

    proof fn lemma_mask_is_slot(&self, x: usize)
        requires
            2 <= self.log2_cap@ < usize::BITS,
            self.mask + 1 == pow2(self.log2_cap@),
        ensures
            x & self.mask == self.slot(x as int),
    {
        lemma_usize_low_bits_mask_is_mod(x, self.log2_cap@);
        lemma_pow2_fits(self.log2_cap@);
        assert(low_bits_mask(self.log2_cap@) as usize == self.mask);
        assert(pow2(self.log2_cap@) as usize == self.mask + 1);
    }
}

impl<T: Copy> PcmRingBuffer<T> {
    /// Creates a buffer holding at least `capacity` samples; the capacity is
    /// rounded up to a power of two, and is never below 4.
    pub fn new(capacity: usize) -> (ring: Self)
        requires
            capacity <= usize::MAX / 2 + 1,
        ensures
            ring.wf(),
            rounded_capacity(capacity as int, ring.spec_capacity() as int),
            ring@ == Seq::<T>::empty(),
    {
        let want: usize = if capacity < 4 { 4 } else { capacity };
        let mut cap: usize = 4;
        let ghost mut k: nat = 2;
        proof {
            lemma2_to64();
        }
        while cap < want
            invariant
                4 <= want <= usize::MAX / 2 + 1,
                cap == pow2(k),
                2 <= k,
                k < usize::BITS,
                4 <= cap,
                cap == 4 || cap < 2 * want,
            decreases usize::MAX - cap,
        {
            proof {
                lemma_pow2_adds(k, 1);
                lemma2_to64();
                if k + 1 >= usize::BITS {
                    lemma_pow2_fits(k);
                    assert(false);
                }
            }
            cap = cap * 2;
            proof {
                k = k + 1;
            }
        }
        proof {
            assert(pow2(k) == cap);
        }
        let ring = PcmRingBuffer {
            buf: Vec::new(),
            mask: cap - 1,
            write: 0,
            read: 0,
            log2_cap: Ghost(k),
        };
        assert(ring@ =~= Seq::<T>::empty());
        ring
    }

    /// Capacity in samples.
    pub fn capacity(&self) -> (c: usize)
        requires
            self.wf(),
        ensures
            c == self.spec_capacity(),
    {
        proof {
            lemma_pow2_fits(self.log2_cap@);
        }
        self.mask + 1
    }

    /// Producer side: appends as many of `samples` as fit and returns how many
    /// were accepted; the rest are dropped.
    pub fn write(&mut self, samples: &[T]) -> (n: usize)
        requires
            old(self).wf(),
        ensures
            final(self).wf(),
            final(self).spec_capacity() == old(self).spec_capacity(),
            n == accepted_count(
                old(self)@.len() as int,
                old(self).spec_capacity() as int,
                samples@.len() as int,
            ),
            final(self)@ == after_write(old(self)@, old(self).spec_capacity() as int, samples@),
    {
        let w = self.write;
        let r = self.read;
        let used = w.wrapping_sub(r);
        let free = self.capacity() - used;
        let n = if samples.len() < free { samples.len() } else { free };
        let ghost old_view = self@;
        let ghost cap = self.spec_capacity() as int;
        let ghost old_len = old_view.len() as int;
        proof {
            // the write index sits `old_len` slots after the read index
            if w < r {
                lemma_wrap_slot(r + old_len, self.log2_cap@);
            }
            assert(slot_of(w as int, cap) == slot_of(r + old_len, cap));
            assert forall|j: int| 0 <= j < old_len implies #[trigger] slot_of(r + j, cap) < self.buf.len() by {
                if self.buf.len() < cap {
                    vstd::arithmetic::div_mod::lemma_small_mod((r + j) as nat, cap as nat);
                } else {
                    vstd::arithmetic::div_mod::lemma_mod_bound(r + j, cap);
                }
            }
        }
        let mut i: usize = 0;
        while i < n
            invariant
                2 <= self.log2_cap@ < usize::BITS,
                self.mask + 1 == pow2(self.log2_cap@),
                self.buf.len() <= cap,
                self.write == w,
                self.read == r,
                self.mask + 1 == cap,
                old_len == self.pending(),
                old_len <= cap,
                old_len + n <= cap,
                i <= n,
                n <= samples@.len(),
                slot_of(w as int, cap) == slot_of(r + old_len, cap),
                self.buf.len() < cap ==> w + i == self.buf.len(),
                self.buf.len() < cap ==> r <= w,
                forall|j: int|
                    0 <= j < old_len ==> #[trigger] self.buf@[slot_of(r + j, cap)] == old_view[j],
                forall|j: int|
                    0 <= j < old_len + i ==> #[trigger] slot_of(r + j, cap) < self.buf.len(),
                forall|j: int|
                    0 <= j < i ==> #[trigger] self.buf@[slot_of(r + old_len + j, cap)] == samples@[j],
            decreases n - i,
        {
            let pos = w.wrapping_add(i);
            let p = pos & self.mask;
            proof {
                self.lemma_mask_is_slot(pos);
                if w + i > usize::MAX {
                    lemma_wrap_slot(w + i, self.log2_cap@);
                }
                assert(slot_of(w + i, cap) == slot_of(r + old_len + i, cap)) by {
                    lemma_fundamental_div_mod(w as int, cap);
                    lemma_mod_multiples_vanish(w as int / cap, i as int, cap);
                    lemma_fundamental_div_mod(r + old_len, cap);
                    lemma_mod_multiples_vanish((r + old_len) / cap, i as int, cap);
                    lemma_mod_multiples_vanish(w as int / cap, (w as int % cap) + i, cap);
                    assert(w + i == cap * (w as int / cap) + (w as int % cap + i));
                    assert(r + old_len + i == cap * ((r + old_len) / cap) + ((r + old_len) % cap + i));
                    lemma_mod_multiples_vanish((r + old_len) / cap, (r + old_len) % cap + i, cap);
                }
                assert forall|j: int| 0 <= j < old_len implies #[trigger] slot_of(r + j, cap) != p by {
                    lemma_distinct_slots(r as int, j, old_len + i, cap);
                }
                assert forall|j: int| 0 <= j < i implies #[trigger] slot_of(r + old_len + j, cap) != p by {
                    lemma_distinct_slots(r as int, old_len + j, old_len + i, cap);
                    assert(r + (old_len + j) == r + old_len + j);
                }
            }
            let ghost before = self.buf@;
            proof {
                if self.buf.len() < cap {
                    vstd::arithmetic::div_mod::lemma_small_mod((w + i) as nat, cap as nat);
                    assert(p == self.buf.len());
                }
                vstd::arithmetic::div_mod::lemma_mod_bound(w + i, cap);
            }
            if p < self.buf.len() {
                self.buf.set(p, samples[i]);
            } else {
                proof {
                    if self.buf.len() == cap {
                        assert(p < cap);
                    }
                    assert(w + i < cap);
                    assert(p == w + i) by {
                        vstd::arithmetic::div_mod::lemma_small_mod((w + i) as nat, cap as nat);
                    }
                }
                self.buf.push(samples[i]);
            }
            proof {
                assert(self.buf@[p as int] == samples@[i as int]);
                assert(slot_of(r + old_len + i, cap) == p);
                assert forall|j: int| 0 <= j < old_len + i + 1 implies #[trigger] slot_of(r + j, cap) < self.buf.len() by {
                    if j < old_len + i {
                        assert(slot_of(r + j, cap) < before.len());
                    } else {
                        assert(r + j == r + old_len + i);
                    }
                }
                assert forall|j: int| 0 <= j < i + 1 implies #[trigger] self.buf@[slot_of(r + old_len + j, cap)] == samples@[j] by {
                    if j < i {
                        assert(slot_of(r + old_len + j, cap) != p);
                        assert(r + (old_len + j) == r + old_len + j);
                        assert(slot_of(r + (old_len + j), cap) < before.len());
                        assert(before[slot_of(r + old_len + j, cap)] == samples@[j]);
                    }
                }
            }
            i = i + 1;
        }
        self.write = w.wrapping_add(n);
        proof {
            let cap_k = self.log2_cap@;
            assert(self.pending() == old_len + n);
            if self.buf.len() < cap {
                assert(w + n == self.buf.len());
            }
            let new_view = self@;
            let expected = old_view + samples@.take(n as int);
            assert(new_view.len() == expected.len());
            assert forall|j: int| 0 <= j < new_view.len() implies new_view[j] == expected[j] by {
                if j < old_len {
                } else {
                    let jj = j - old_len;
                    assert(r + old_len + jj == r + j);
                }
            }
            assert(new_view =~= expected);
        }
        n
    }

    /// Consumer side: moves up to `out.len()` pending samples, oldest first,
    /// into the front of `out` and returns how many were moved.
    pub fn read_into(&mut self, out: &mut [T]) -> (n: usize)
        requires
            old(self).wf(),
        ensures
            final(self).wf(),
            final(self).spec_capacity() == old(self).spec_capacity(),
            n == read_count(old(self)@.len() as int, old(out)@.len() as int),
            final(out)@ == read_out(old(self)@, old(out)@),
            final(self)@ == after_read(old(self)@, old(out)@.len() as int),
    {
        let w = self.write;
        let r = self.read;
        let avail = w.wrapping_sub(r);
        let n = if out.len() < avail { out.len() } else { avail };
        let ghost old_view = self@;
        let ghost old_out = out@;
        let ghost cap = self.spec_capacity() as int;
        let mut i: usize = 0;
        while i < n
            invariant
                self.wf(),
                self.write == w,
                self.read == r,
                self@ == old_view,
                self.mask + 1 == cap,
                n <= old_view.len(),
                n <= old_out.len(),
                out@.len() == old_out.len(),
                i <= n,
                forall|j: int| 0 <= j < i ==> #[trigger] out@[j] == old_view[j],
                forall|j: int| i <= j < old_out.len() ==> #[trigger] out@[j] == old_out[j],
            decreases n - i,
        {
            let pos = r.wrapping_add(i);
            let p = pos & self.mask;
            proof {
                self.lemma_mask_is_slot(pos);
                if r + i > usize::MAX {
                    lemma_wrap_slot(r + i, self.log2_cap@);
                }
                assert(p == slot_of(r + i, cap));
                if self.buf.len() < cap {
                    assert(r + i < w);
                    vstd::arithmetic::div_mod::lemma_small_mod((r + i) as nat, cap as nat);
                }
            }
            out[i] = self.buf[p];
            i = i + 1;
        }
        self.read = r.wrapping_add(n);
        proof {
            assert(self.pending() == old_view.len() - n);
            let new_view = self@;
            let expected = old_view.skip(n as int);
            assert forall|j: int| 0 <= j < new_view.len() implies new_view[j] == expected[j] by {
                let pos = r + n + j;
                if r + n > usize::MAX {
                    lemma_wrap_slot(pos, self.log2_cap@);
                    assert(self.read + j == pos - index_space());
                }
            }
            assert(new_view =~= expected);
            assert(out@ =~= old_view.take(n as int) + old_out.skip(n as int));
        }
        n
    }

    /// Number of samples waiting to be read.
    pub fn available(&self) -> (n: usize)
        requires
            self.wf(),
        ensures
            n == self@.len(),
    {
        self.write.wrapping_sub(self.read)
    }

    /// Consumer side: drops every pending sample.
    pub fn clear(&mut self)
        requires
            old(self).wf(),
        ensures
            final(self).wf(),
            final(self).spec_capacity() == old(self).spec_capacity(),
            final(self)@ == Seq::<T>::empty(),
    {
        self.read = self.write;
        assert(self@ =~= Seq::<T>::empty());
    }
}

impl<T> PcmRingBuffer<T> {
    /// The buffer never holds more samples than its capacity.
    pub proof fn law_never_overfull(&self)
        requires
            self.wf(),
        ensures
            self@.len() <= self.spec_capacity(),
            is_power_of_two(self.spec_capacity() as int),
            self.spec_capacity() >= 4,
    {
        lemma2_to64();
        lemma_pow2_adds(2, (self.log2_cap@ - 2) as nat);
        lemma_pow2_pos((self.log2_cap@ - 2) as nat);
        assert(pow2(self.log2_cap@) >= 4) by (nonlinear_arith)
            requires
                pow2(self.log2_cap@) == pow2(2) * pow2((self.log2_cap@ - 2) as nat),
                pow2(2) == 4,
                pow2((self.log2_cap@ - 2) as nat) > 0,
        ;
        assert(2 + (self.log2_cap@ - 2) as nat == self.log2_cap@);
    }
}

/// Samples come out in the order they went in: writing `s` into an empty
/// buffer of capacity `cap` and then reading into `out` hands back the first
/// accepted samples of `s` and leaves the rest pending; a write that fits
/// and a read with room for it round-trip exactly and empty the buffer.
pub proof fn law_write_then_read_fifo<T>(cap: int, s: Seq<T>, out: Seq<T>)
    requires
        cap >= 0,
    ensures
        ({
            let held = after_write(Seq::<T>::empty(), cap, s);
            let k = read_count(held.len() as int, out.len() as int);
            &&& held == s.take(accepted_count(0, cap, s.len() as int))
            &&& read_out(held, out).take(k) == s.take(k)
            &&& after_read(held, out.len() as int) == held.skip(k)
            &&& (s.len() <= cap && s.len() <= out.len()) ==> (read_out(held, out).take(
                s.len() as int,
            ) == s && after_read(held, out.len() as int).len() == 0)
        }),
{
    let held = after_write(Seq::<T>::empty(), cap, s);
    assert(held =~= s.take(accepted_count(0, cap, s.len() as int)));
    let k = read_count(held.len() as int, out.len() as int);
    assert(read_out(held, out).take(k) =~= s.take(k));
    assert(after_read(held, out.len() as int) =~= held.skip(k));
    if s.len() <= cap && s.len() <= out.len() {
        assert(read_out(held, out).take(s.len() as int) =~= s);
    }
}

/// A full buffer accepts nothing and keeps its contents; an empty one
/// gives nothing and leaves the destination as it was.
pub proof fn law_full_drops_empty_gives_nothing<T>(v: Seq<T>, cap: int, s: Seq<T>, out: Seq<T>)
    requires
        v.len() == cap,
    ensures
        accepted_count(v.len() as int, cap, s.len() as int) == 0,
        after_write(v, cap, s) == v,
        read_count(0, out.len() as int) == 0,
        read_out(Seq::<T>::empty(), out) == out,
{
    assert(after_write(v, cap, s) =~= v);
    assert(read_out(Seq::<T>::empty(), out) =~= out);
}

} // verus!
