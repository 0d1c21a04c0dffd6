//! One level of a hierarchical timer wheel: 64 slots, each holding the
//! timeouts that expire within the time range of the slot, and a bitmap of
//! the occupied slots.

use vstd::prelude::*;

verus! {

/// Number of slots in one wheel.
pub const SLOTS_CNT: u64 = 64;

/// Highest level whose range still fits in a `u64`.
pub const MAX_LEVEL: u8 = 9;

/// Whether bit `i` of `occ` is set.
pub open spec fn bit(occ: u64, i: u64) -> bool {
    (occ >> i) & 1u64 == 1u64
}

/// `x` rotated right by `n` bits (`n < 64`).
pub open spec fn rotr(x: u64, n: u64) -> u64 {
    if n == 0 {
        x
    } else {
        (x >> n) | (x << ((64 - n) as u64))
    }
}

/// Bit `k` of `x` rotated right by `n` is bit `(n + k) % 64` of `x`.
proof fn lemma_rotr_bit(x: u64, n: u64, k: u64)
    requires
        n < 64,
        k < 64,
    ensures
        bit(rotr(x, n), k) == bit(x, ((n + k) % 64) as u64),
{
    if n == 0 {
        assert(k < 64 ==> (k % 64) == k) by (bit_vector);
    } else {
        assert(0 < n < 64 && k < 64 ==> ((((x >> n) | (x << ((64 - n) as u64))) >> k) & 1u64 == 1u64) == (((x >> (((n + k) % 64) as u64)) & 1u64) == 1u64)) by (bit_vector);
    }
}


/// 64 to the power of `level`: the time range of one slot at `level`.
pub open spec fn range_of(level: nat) -> nat
    decreases level,
{
    if level == 0 {
        1
    } else {
        64 * range_of((level - 1) as nat)
    }
}

/// The range of one slot, for every level up to [`MAX_LEVEL`]: the range of
/// the whole wheel times a whole number is 2^64.
proof fn lemma_range_table(level: nat)
    requires
        level <= 9,
    ensures
        range_of(level) > 0,
        64 * range_of(level) <= 0x1000_0000_0000_0000,
        (64 * range_of(level)) * (16 * range_of((9 - level) as nat)) == 0x1_0000_0000_0000_0000nat,
{
    reveal_with_fuel(range_of, 11);
    assert(range_of(0) == 1);
    assert(range_of(1) == 0x40);
    assert(range_of(2) == 0x1000);
    assert(range_of(3) == 0x4_0000);
    assert(range_of(4) == 0x100_0000);
    assert(range_of(5) == 0x4000_0000);
    assert(range_of(6) == 0x10_0000_0000);
    assert(range_of(7) == 0x400_0000_0000);
    assert(range_of(8) == 0x1_0000_0000_0000);
    assert(range_of(9) == 0x40_0000_0000_0000nat);
    if level == 0 {
        assert((64 * 1nat) * (16 * 0x40_0000_0000_0000nat) == 0x1_0000_0000_0000_0000nat) by (nonlinear_arith);
    } else if level == 1 {
        assert((64 * 0x40nat) * (16 * 0x1_0000_0000_0000nat) == 0x1_0000_0000_0000_0000nat) by (nonlinear_arith);
    } else if level == 2 {
        assert((64 * 0x1000nat) * (16 * 0x400_0000_0000nat) == 0x1_0000_0000_0000_0000nat) by (nonlinear_arith);
    } else if level == 3 {
        assert((64 * 0x4_0000nat) * (16 * 0x10_0000_0000nat) == 0x1_0000_0000_0000_0000nat) by (nonlinear_arith);
    } else if level == 4 {
        assert((64 * 0x100_0000nat) * (16 * 0x4000_0000nat) == 0x1_0000_0000_0000_0000nat) by (nonlinear_arith);
    } else if level == 5 {
        assert((64 * 0x4000_0000nat) * (16 * 0x100_0000nat) == 0x1_0000_0000_0000_0000nat) by (nonlinear_arith);
    } else if level == 6 {
        assert((64 * 0x10_0000_0000nat) * (16 * 0x4_0000nat) == 0x1_0000_0000_0000_0000nat) by (nonlinear_arith);
    } else if level == 7 {
        assert((64 * 0x400_0000_0000nat) * (16 * 0x1000nat) == 0x1_0000_0000_0000_0000nat) by (nonlinear_arith);
    } else if level == 8 {
        assert((64 * 0x1_0000_0000_0000nat) * (16 * 0x40nat) == 0x1_0000_0000_0000_0000nat) by (nonlinear_arith);
    } else {
        assert((64 * 0x40_0000_0000_0000nat) * (16 * 1nat) == 0x1_0000_0000_0000_0000nat) by (nonlinear_arith);
    }
}

/// The first occupied slot, looking from slot `c + k` onwards (cyclically) up to the end of one turn.
pub open spec fn scan(occ: u64, c: u64, k: u64) -> Option<u64>
    decreases 64 - k,
{
    if k >= 64 {
        None
    } else if bit(occ, ((c + k) % 64) as u64) {
        Some(((c + k) % 64) as u64)
    } else {
        scan(occ, c, (k + 1) as u64)
    }
}

/// The slot of the first occupied slot at or after slot `c`, cyclically; `None` when no slot is occupied.
pub open spec fn first_occupied(occ: u64, c: u64) -> Option<u64> {
    scan(occ, c, 0)
}

/// When the bits before offset `t` are clear and the bit at `t` is set, the scan stops at `t`.
proof fn lemma_scan_stops(occ: u64, c: u64, k: u64, t: u64)
    requires
        c < 64,
        k <= t < 64,
        bit(occ, ((c + t) % 64) as u64),
        forall|j: u64| k <= j < t ==> !bit(occ, #[trigger] ((c + j) % 64) as u64),
    ensures
        scan(occ, c, k) == Some(((c + t) % 64) as u64),
    decreases t - k,
{
    if k < t {
        assert(!bit(occ, ((c + k) % 64) as u64));
        lemma_scan_stops(occ, c, (k + 1) as u64, t);
    }
}

/// An empty bitmap has no occupied slot.
proof fn lemma_scan_empty(c: u64, k: u64)
    requires
        k <= 64,
    ensures
        scan(0, c, k) is None,
    decreases 64 - k,
{
    if k < 64 {
        let i = ((c + k) % 64) as u64;
        assert((0u64 >> i) & 1u64 == 0u64) by (bit_vector);
        lemma_scan_empty(c, (k + 1) as u64);
    }
}

/// A scan result is an occupied slot.
proof fn lemma_scan_found(occ: u64, c: u64, k: u64)
    ensures
        scan(occ, c, k) matches Some(s) ==> s < 64 && bit(occ, s),
    decreases 64 - k,
{
    if k < 64 && !bit(occ, ((c + k) % 64) as u64) {
        lemma_scan_found(occ, c, (k + 1) as u64);
    }
}

/// Setting and clearing bit `s`, seen bit by bit.
proof fn lemma_bit_update(occ: u64, s: u64, i: u64)
    requires
        s < 64,
        i < 64,
    ensures
        bit(occ | (1u64 << s), i) == (bit(occ, i) || i == s),
        bit(occ & !(1u64 << s), i) == (bit(occ, i) && i != s),
{
    assert(s < 64 && i < 64 ==> ((((occ | (1u64 << s)) >> i) & 1u64 == 1u64) == (((occ >> i) & 1u64 == 1u64) || i == s))) by (bit_vector);
    assert(s < 64 && i < 64 ==> ((((occ & !(1u64 << s)) >> i) & 1u64 == 1u64) == (((occ >> i) & 1u64 == 1u64) && i != s))) by (bit_vector);
}

/// A scan that has an occupied slot ahead of it finds one.
proof fn lemma_scan_some(occ: u64, c: u64, k: u64, t: u64)
    requires
        k <= t < 64,
        bit(occ, ((c + t) % 64) as u64),
    ensures
        scan(occ, c, k) is Some,
    decreases t - k,
{
    if k < t && !bit(occ, ((c + k) % 64) as u64) {
        lemma_scan_some(occ, c, (k + 1) as u64, t);
    }
}

/// Once a slot is marked occupied, the wheel has a next occupied slot from
/// wherever it is looked at, and that slot is occupied.
pub proof fn law_occupied_slot_is_found(occ: u64, s: u64, c: u64)
    requires
        s < 64,
        c < 64,
    ensures
        first_occupied(occ | (1u64 << s), c) is Some,
        first_occupied(occ | (1u64 << s), c) matches Some(n) ==> bit(occ | (1u64 << s), n),
{
    let t = ((s + 64 - c) % 64) as u64;
    assert(((c + t) % 64) as u64 == s);
    lemma_bit_update(occ, s, s);
    lemma_scan_some(occ | (1u64 << s), c, 0, t);
    lemma_scan_found(occ | (1u64 << s), c, 0);
}

/// When the next occupied slot is due: where the slot starts in the wheel
/// turn that contains `now`.
pub struct ExpireInfo {
    /// The level of the wheel.
    pub level: u8,
    /// The occupied slot.
    pub slot_id: u8,
    /// The time at which the slot starts.
    pub deadline: u64,
}

/// One level of the timer wheel, holding entries of type `D`.
pub struct TimeWheel<D> {
    slots: Vec<Vec<D>>,
    occupied_slots: u64,
    level: u8,
}

impl<D> TimeWheel<D> {
    /// The entries of slot `i`, oldest first.
    pub closed spec fn entries(&self, i: int) -> Seq<D> {
        self.slots@[i]@
    }

    /// The bitmap of occupied slots; bit `i` stands for slot `i`.
    pub closed spec fn occupied(&self) -> u64 {
        self.occupied_slots
    }

    /// The level of the wheel.
    pub closed spec fn level_spec(&self) -> u8 {
        self.level
    }

    /// The time range one slot covers.
    pub open spec fn slot_range_spec(&self) -> nat {
        range_of(self.level_spec() as nat)
    }

    /// The time range the whole wheel covers.
    pub open spec fn level_range_spec(&self) -> nat {
        64 * range_of(self.level_spec() as nat)
    }

    /// The start of the wheel turn that contains `now`.
    pub open spec fn wheel_start(&self, now: u64) -> int {
        (now as int / self.level_range_spec() as int) * self.level_range_spec() as int
    }

    /// The slot of the next occupied slot as seen at time `now`.
    pub open spec fn next_slot(&self, now: u64) -> Option<u64> {
        first_occupied(self.occupied(), ((now as int / self.slot_range_spec() as int) % 64) as u64)
    }

    /// The wheel has 64 slots, a level whose range fits, and a bit set exactly for the non-empty slots.
    pub closed spec fn wf(&self) -> bool {
        &&& self.slots@.len() == 64
        &&& self.level <= MAX_LEVEL
        &&& forall|i: u64| i < 64 ==> (bit(self.occupied_slots, i) <==> #[trigger] self.slots@[i as int]@.len() > 0)
    }

    /// An empty wheel at `level`.
    pub fn new(level: u8) -> (r: Self)
        requires
            level <= MAX_LEVEL,
        ensures
            r.wf(),
            r.level_spec() == level,
            r.occupied() == 0,
            forall|i: int| 0 <= i < 64 ==> r.entries(i).len() == 0,
    {
        let mut slots: Vec<Vec<D>> = Vec::new();
        let mut i: u64 = 0;
        while i < SLOTS_CNT
            invariant
                i <= 64,
                slots@.len() == i,
                forall|j: int| 0 <= j < i ==> #[trigger] slots@[j]@.len() == 0,
            decreases 64 - i,
        {
            slots.push(Vec::new());
            i = i + 1;
        }
        let r = TimeWheel { slots, occupied_slots: 0, level };
        proof {
            assert forall|i: u64| i < 64 implies (bit(r.occupied_slots, i) <==> #[trigger] r.slots@[i as int]@.len() > 0) by {
                assert((0u64 >> i) & 1u64 == 0u64) by (bit_vector);
            }
        }
        r
    }

    /// The level of the wheel.
    pub fn level(&self) -> (r: u8)
        ensures
            r == self.level_spec(),
    {
        self.level
    }

    /// The time range one slot covers: 64 to the power of the level.
    pub fn slot_range(&self) -> (r: u64)
        requires
            self.wf(),
        ensures
            r == self.slot_range_spec(),
    {
        proof {
            lemma_range_table(self.level as nat);
        }
        let mut r: u64 = 1;
        let mut i: u8 = 0;
        while i < self.level
            invariant
                i <= self.level,
                self.level <= MAX_LEVEL,
                r == range_of(i as nat),
            decreases self.level - i,
        {
            proof {
                lemma_range_table(i as nat);
            }
            r = r * 64;
            i = i + 1;
        }
        r
    }

    /// The time range the whole wheel covers.
    pub fn level_range(&self) -> (r: u64)
        requires
            self.wf(),
        ensures
            r == self.level_range_spec(),
    {
        proof {
            lemma_range_table(self.level as nat);
        }
        self.slot_range() * SLOTS_CNT
    }

    /// Whether a timeout `to_go` away from now falls within this wheel.
    pub fn is_in_wheel_range(&self, to_go: u64) -> (r: bool)
        requires
            self.wf(),
        ensures
            r == (to_go < self.level_range_spec()),
    {
        to_go < self.level_range()
    }

    /// The next occupied slot at or after the slot that `now` falls in, going
    /// round the wheel; `None` when no slot is occupied.
    pub fn next_occupied_slot(&self, now: u64) -> (r: Option<u8>)
        requires
            self.wf(),
        ensures
            r matches Some(s) ==> self.next_slot(now) == Some(s as u64),
            r is None ==> self.next_slot(now) is None,
    {
        let occupied = self.occupied_slots;
        let range = self.slot_range();
        proof {
            lemma_range_table(self.level as nat);
        }
        let curr = ((now / range) % SLOTS_CNT) as u64;
        if occupied == 0 {
            proof {
                lemma_scan_empty(curr, 0);
            }
            return None;
        }
        let x: u64 = if curr == 0 { occupied } else { (occupied >> curr) | (occupied << (64 - curr)) };
        proof {
            assert(x == rotr(occupied, curr));
            assert(x != 0) by {
                vstd::std_specs::bits::axiom_u64_trailing_zeros(occupied);
                let i = occupied.trailing_zeros() as u64;
                let k = ((i + 64 - curr) % 64) as u64;
                lemma_rotr_bit(occupied, curr, k);
                assert(((curr + k) % 64) as u64 == i);
                assert((0u64 >> k) & 1u64 == 0u64) by (bit_vector);
            }
        }
        let tz = x.trailing_zeros();
        proof {
            vstd::std_specs::bits::axiom_u64_trailing_zeros(x);
            assert(tz < 64);
            lemma_rotr_bit(occupied, curr, tz as u64);
            assert forall|j: u64| 0 <= j < tz implies !bit(occupied, #[trigger] ((curr + j) % 64) as u64) by {
                lemma_rotr_bit(occupied, curr, j);
                assert((x >> j) & 1u64 == 0u64);
            }
            lemma_scan_stops(occupied, curr, 0, tz as u64);
        }
        let next = ((tz as u64 + curr) % SLOTS_CNT) as u8;
        Some(next)
    }

    /// When the next occupied slot is due: the start of that slot within the
    /// wheel turn that contains `now`.
    pub fn next_expiration(&self, now: u64) -> (r: Option<ExpireInfo>)
        requires
            self.wf(),
            self.next_slot(now) matches Some(s) ==> self.wheel_start(now) + s * self.slot_range_spec() >= now,
        ensures
            self.next_slot(now) is None ==> r is None,
            self.next_slot(now) matches Some(s) ==> r matches Some(info) && {
                &&& info.level == self.level_spec()
                &&& info.slot_id == s
                &&& info.deadline == self.wheel_start(now) + s * self.slot_range_spec()
                &&& info.deadline >= now
            },
    {
        let next = match self.next_occupied_slot(now) {
            Some(s) => s,
            None => {
                return None;
            },
        };
        let wheel_range = self.level_range();
        let slot_range = self.slot_range();
        proof {
            lemma_range_table(self.level as nat);
            lemma_scan_found(self.occupied_slots, ((now as int / self.slot_range_spec() as int) % 64) as u64, 0);
            let lr = wheel_range as int;
            let q = now as int / lr;
            let m = now as int % lr;
            let k = 16 * range_of((9 - self.level) as nat) as int;
            let sr = slot_range as int;
            let n = next as int;
            vstd::arithmetic::div_mod::lemma_fundamental_div_mod(now as int, lr);
            vstd::arithmetic::div_mod::lemma_mod_bound(now as int, lr);
            assert(lr * k == 0x1_0000_0000_0000_0000int);
            assert(now as int == q * lr + m) by {
                vstd::arithmetic::mul::lemma_mul_is_commutative(q, lr);
            }
            assert(q >= 0) by {
                vstd::arithmetic::div_mod::lemma_div_pos_is_pos(now as int, lr);
            }
            // The wheel turn containing `now` ends within the range of `u64`.
            assert(q * lr + lr <= 0x1_0000_0000_0000_0000int) by (nonlinear_arith)
                requires
                    now as int == q * lr + m,
                    0 <= m < lr,
                    q >= 0,
                    lr * k == 0x1_0000_0000_0000_0000int,
                    now < 0x1_0000_0000_0000_0000int,
            {
                if q >= k {
                    assert(q * lr >= k * lr);
                }
            }
            assert(n * sr < lr) by (nonlinear_arith)
                requires
                    0 <= n < 64,
                    sr > 0,
                    lr == 64 * sr,
            {}
            assert(n * sr >= 0) by (nonlinear_arith)
                requires
                    0 <= n,
                    sr > 0,
            {}
            assert(q * lr >= 0) by (nonlinear_arith)
                requires
                    q >= 0,
                    lr > 0,
            {}
        }
        let wheel_start = now - now % wheel_range;
        let slot_deadline = wheel_start + next as u64 * slot_range;
        Some(ExpireInfo { level: self.level, slot_id: next, deadline: slot_deadline })
    }

    /// Takes all entries out of the slot of `info` and marks it free. The
    /// entries come newest first.
    pub fn aquire_slot(&mut self, info: &ExpireInfo) -> (r: Vec<D>)
        requires
            old(self).wf(),
            info.level == old(self).level_spec(),
            info.slot_id < 64,
        ensures
            final(self).wf(),
            final(self).level_spec() == old(self).level_spec(),
            final(self).occupied() == old(self).occupied() & !(1u64 << info.slot_id),
            r@ == old(self).entries(info.slot_id as int).reverse(),
            final(self).entries(info.slot_id as int).len() == 0,
            forall|i: int| 0 <= i < 64 && i != info.slot_id ==> final(self).entries(i) == old(self).entries(i),
    {
        let sid = info.slot_id as usize;
        self.occupied_slots = self.occupied_slots & !(1u64 << info.slot_id);
        let mut taken: Vec<D> = Vec::new();
        std::mem::swap(&mut taken, &mut self.slots[sid]);
        let ghost orig = taken@;
        let mut out: Vec<D> = Vec::new();
        while taken.len() > 0
            invariant
                orig.len() == taken@.len() + out@.len(),
                taken@ == orig.take(taken@.len() as int),
                out@ == orig.skip(taken@.len() as int).reverse(),
            decreases taken.len(),
        {
            let ghost before = taken@;
            let x = taken.pop().unwrap();
            out.push(x);
            proof {
                assert(taken@ =~= orig.take(taken@.len() as int));
                assert(out@ =~= orig.skip(taken@.len() as int).reverse());
            }
        }
        proof {
            assert(orig.skip(0) =~= orig);
            assert forall|i: u64| i < 64 implies (bit(self.occupied_slots, i) <==> #[trigger] self.slots@[i as int]@.len() > 0) by {
                lemma_bit_update(old(self).occupied_slots, info.slot_id as u64, i);
            }
        }
        out
    }

    /// Puts `data` into the slot for a timeout at `expire_at`, seen from `now`,
    /// when it falls within this wheel. Otherwise `data` is handed back.
    pub fn register_wakeup_on_timeout(&mut self, now: u64, expire_at: u64, data: D) -> (r: Result<(), D>)
        requires
            old(self).wf(),
            now <= expire_at,
        ensures
            final(self).wf(),
            final(self).level_spec() == old(self).level_spec(),
            expire_at - now >= old(self).level_range_spec() ==> r == Err::<(), D>(data) && final(self).occupied()
                == old(self).occupied() && forall|i: int| 0 <= i < 64 ==> final(self).entries(i) == old(self).entries(i),
            expire_at - now < old(self).level_range_spec() ==> {
                let s = ((expire_at - now) as int / old(self).slot_range_spec() as int);
                &&& r is Ok
                &&& 0 <= s < 64
                &&& final(self).occupied() == old(self).occupied() | (1u64 << (s as u64))
                &&& final(self).entries(s) == old(self).entries(s).push(data)
                &&& forall|i: int| 0 <= i < 64 && i != s ==> final(self).entries(i) == old(self).entries(i)
            },
    {
        let expire_in = expire_at - now;
        if !self.is_in_wheel_range(expire_in) {
            return Err(data);
        }
        let range = self.slot_range();
        proof {
            lemma_range_table(self.level as nat);
            assert((expire_in as int) / (range as int) < 64) by {
                vstd::arithmetic::mul::lemma_mul_is_commutative(64, range as int);
                vstd::arithmetic::div_mod::lemma_multiply_divide_lt(expire_in as int, range as int, 64);
            }
        }
        let slot_id = expire_in / range;
        self.occupied_slots = self.occupied_slots | (1u64 << slot_id);
        self.slots[slot_id as usize].push(data);
        proof {
            assert forall|i: u64| i < 64 implies (bit(self.occupied_slots, i) <==> #[trigger] self.slots@[i as int]@.len() > 0) by {
                lemma_bit_update(old(self).occupied_slots, slot_id, i);
            }
        }
        Ok(())
    }
}

/// What a slot hands out is what was registered into it, newest first: an
/// entry registered into a slot comes out first when the slot is acquired,
/// followed by what the slot held before.
pub proof fn law_acquire_returns_registered<D>(entries: Seq<D>, d: D)
    ensures
        entries.push(d).reverse()[0] == d,
        entries.push(d).reverse().drop_first() == entries.reverse(),
{
    assert(entries.push(d).reverse().drop_first() =~= entries.reverse());
}

} // verus!
