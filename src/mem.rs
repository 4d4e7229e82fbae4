//! Bank windows: a range of addresses split into equal windows, each of
//! which shows one page of a larger backing store.

use vstd::prelude::*;

verus! {

/// The number of zero bits below the lowest set bit of `w`.
pub open spec fn low_zero_bits(w: nat) -> nat
    decreases w,
{
    if w == 0 || w % 2 == 1 {
        0
    } else {
        1 + low_zero_bits(w / 2)
    }
}

/// What a bank layout is: its fixed geometry and the page each window shows.
pub struct MembankView {
    pub size: usize,
    pub window: usize,
    pub shift: usize,
    pub mask: usize,
    pub page_count: usize,
    pub banks: Seq<usize>,
}

impl MembankView {
    pub open spec fn wf(self) -> bool {
        &&& self.window > 0
        &&& self.shift <= 16
        &&& self.page_count >= 1
        &&& self.mask == self.page_count - 1
    }

    /// The window that `addr` falls in.
    pub open spec fn get_bank(self, addr: u16) -> usize {
        ((addr as usize) & self.size) >> self.shift
    }

    /// Where `addr` lands in the backing store: the page shown in its window,
    /// plus its offset inside the window.
    pub open spec fn translate(self, addr: u16) -> usize {
        let slot = self.get_bank(addr);
        let offset = (addr as usize) & ((self.window - 1) as usize);
        if slot < self.banks.len() {
            self.banks[slot as int] | offset
        } else {
            offset
        }
    }

    /// The layout after window `slot` is set to show page `bank`.
    pub open spec fn set(self, slot: int, bank: usize) -> MembankView {
        if 0 <= slot < self.banks.len() {
            MembankView { banks: self.banks.update(slot, (bank & self.mask) << self.shift), ..self }
        } else {
            self
        }
    }

    /// The number of the last page of the store.
    pub open spec fn last(self) -> usize {
        (self.page_count - 1) as usize
    }
}

pub struct Membank {
    pub start: usize,
    pub end: usize,
    pub size: usize,
    pub window: usize,
    pub shift: usize,
    pub mask: usize,
    pub banks: Vec<usize>,
    pub page_count: usize,
}

impl View for Membank {
    type V = MembankView;

    open spec fn view(&self) -> MembankView {
        MembankView {
            size: self.size,
            window: self.window,
            shift: self.shift,
            mask: self.mask,
            page_count: self.page_count,
            banks: self.banks@,
        }
    }
}

impl Membank {
    /// Splits `start..=end` into windows of `window` bytes over a store of
    /// `capacity` bytes; window `i` first shows page `i`.
    pub fn new(start: usize, end: usize, capacity: usize, window: usize) -> (r: Membank)
        requires
            start <= end,
            end <= 0xFFFF,
            0 < window <= 0x1_0000,
        ensures
            r@.wf(),
            r.start == start,
            r.end == end,
            r.size == end - start,
            r.window == window,
            r.shift == low_zero_bits(window as nat),
            r.page_count == (if capacity / window >= 1 { capacity / window } else { 1 }),
            r.banks@.len() == (end - start + 1) / (window as int),
            forall|i: int| 0 <= i < r.banks@.len() ==> r.banks@[i] == i * window,
    {
        let size = end - start;
        let count = (size + 1) / window;
        let mut banks: Vec<usize> = Vec::new();
        let mut i: usize = 0;
        while i < count
            invariant
                count == (size + 1) / (window as int),
                window > 0,
                size < usize::MAX,
                i <= count,
                banks@.len() == i,
                forall|j: int| 0 <= j < i ==> banks@[j] == j * window,
            decreases count - i,
        {
            proof {
                vstd::arithmetic::div_mod::lemma_fundamental_div_mod((size + 1) as int, window as int);
                vstd::arithmetic::mul::lemma_mul_inequality(i as int, (count - 1) as int, window as int);
                vstd::arithmetic::mul::lemma_mul_is_commutative(count as int, window as int);
                vstd::arithmetic::mul::lemma_mul_is_distributive_sub(window as int, count as int, 1);
            }
            banks.push(i * window);
            i = i + 1;
        }
        let mut shift: usize = 0;
        let mut w: usize = window;
        while w % 2 == 0
            invariant
                w > 0,
                shift + low_zero_bits(w as nat) == low_zero_bits(window as nat),
                shift + w <= window,
            decreases w,
        {
            w = w / 2;
            shift = shift + 1;
        }
        proof {
            vstd::arithmetic::power2::lemma2_to64();
            lemma_low_zero_bits_bound(window as nat, 16);
        }
        let page_count: usize = if capacity / window >= 1 { capacity / window } else { 1 };
        Membank { start, end, size, window, shift, mask: page_count - 1, banks, page_count }
    }

    /// Shows page `bank` (reduced to the pages that exist) in window `slot`.
    pub fn set(&mut self, slot: usize, bank: usize)
        requires
            old(self)@.wf(),
            slot < old(self).banks@.len(),
        ensures
            final(self)@ == old(self)@.set(slot as int, bank),
            final(self).start == old(self).start,
            final(self).end == old(self).end,
    {
        let v = (bank & self.mask) << self.shift;
        self.banks.set(slot, v);
    }

    /// The number of the last page of the store.
    pub fn last(&self) -> (r: usize)
        requires
            self@.wf(),
        ensures
            r == self@.last(),
    {
        self.page_count - 1
    }

    pub fn get_bank(&self, addr: u16) -> (r: usize)
        requires
            self@.wf(),
        ensures
            r == self@.get_bank(addr),
    {
        ((addr as usize) & self.size) >> self.shift
    }

    pub fn translate(&self, addr: u16) -> (r: usize)
        requires
            self@.wf(),
        ensures
            r == self@.translate(addr),
    {
        let slot = self.get_bank(addr);
        let offset = (addr as usize) & (self.window - 1);
        if slot < self.banks.len() {
            self.banks[slot] | offset
        } else {
            offset
        }
    }
}

/// The shifts of the window sizes that the mappers use.
pub proof fn lemma_window_shifts()
    ensures
        low_zero_bits(0x400) == 10,
        low_zero_bits(0x2000) == 13,
{
    assert(low_zero_bits(1) == 0);
    assert(low_zero_bits(2) == 1);
    assert(low_zero_bits(4) == 2);
    assert(low_zero_bits(8) == 3);
    assert(low_zero_bits(16) == 4);
    assert(low_zero_bits(32) == 5);
    assert(low_zero_bits(64) == 6);
    assert(low_zero_bits(128) == 7);
    assert(low_zero_bits(256) == 8);
    assert(low_zero_bits(512) == 9);
    assert(low_zero_bits(1024) == 10);
    assert(low_zero_bits(2048) == 11);
    assert(low_zero_bits(4096) == 12);
    assert(low_zero_bits(8192) == 13);
}

proof fn lemma_low_zero_bits_bound(w: nat, k: nat)
    requires
        0 < w <= vstd::arithmetic::power2::pow2(k),
    ensures
        low_zero_bits(w) <= k,
    decreases k,
{
    if w % 2 == 0 {
        if k == 0 {
            vstd::arithmetic::power2::lemma2_to64();
        } else {
            vstd::arithmetic::power2::lemma_pow2_unfold(k);
            lemma_low_zero_bits_bound(w / 2, (k - 1) as nat);
        }
    }
}

} // verus!
