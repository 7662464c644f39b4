//! Iterator: a way to walk through the items of a collection one after the
//! other without knowing how the collection holds them.
//!
//! A `CustomList` is walked with a `Fibonacci` cursor, which yields the
//! Fibonacci numbers.

use vstd::prelude::*;

verus! {

/// The Fibonacci numbers: 0, 1, 1, 2, 3, 5, ...
pub open spec fn fib(n: nat) -> nat
    decreases n,
{
    if n == 0 {
        0
    } else if n == 1 {
        1
    } else {
        fib((n - 1) as nat) + fib((n - 2) as nat)
    }
}

/// The object to iterate over.
pub struct CustomList {
    pub fib: Fibonacci,
    pub name: String,
}

impl CustomList {
    /// Turns the list into the cursor that walks it.
    pub fn into_iter(self) -> (r: Fibonacci)
        ensures
            r == self.fib,
    {
        self.fib
    }
}

/// A cursor over a sequence in which every item is the sum of the two
/// before it.
pub struct Fibonacci {
    pub current: u32,
    pub next: u32,
}

impl Fibonacci {
    /// Whether the cursor stands at the `k`-th Fibonacci number.
    pub open spec fn stands_at(&self, k: nat) -> bool {
        self.current == fib(k) && self.next == fib(k + 1)
    }

    /// Moves one step on and yields the item reached. The sum of the two
    /// items that the cursor holds must fit.
    pub fn next(&mut self) -> (r: Option<u32>)
        requires
            old(self).current + old(self).next <= u32::MAX,
        ensures
            r == Some(old(self).next),
            final(self).current == old(self).next,
            final(self).next == old(self).current + old(self).next,
            forall|k: nat| old(self).stands_at(k) ==> final(self).stands_at(k + 1),
    {
        let new_next = self.current + self.next;

        self.current = self.next;
        self.next = new_next;

        Some(self.current)
    }
}

/// The Fibonacci numbers never decrease.
pub proof fn lemma_fib_monotonic(i: nat, j: nat)
    requires
        i <= j,
    ensures
        fib(i) <= fib(j),
    decreases j,
{
    if i < j {
        lemma_fib_monotonic(i, (j - 1) as nat);
        if j >= 2 {
            assert(fib(j) == fib((j - 1) as nat) + fib((j - 2) as nat));
        }
    }
}

/// The 47th Fibonacci number is the last one that fits.
pub proof fn lemma_fib_47()
    ensures
        fib(47) == 2_971_215_073,
        fib(47) <= u32::MAX < fib(48),
{
    assert(fib(0) == 0);
    assert(fib(1) == 1);
    assert(fib(2) == 1);
    assert(fib(3) == 2);
    assert(fib(4) == 3);
    assert(fib(5) == 5);
    assert(fib(6) == 8);
    assert(fib(7) == 13);
    assert(fib(8) == 21);
    assert(fib(9) == 34);
    assert(fib(10) == 55);
    assert(fib(11) == 89);
    assert(fib(12) == 144);
    assert(fib(13) == 233);
    assert(fib(14) == 377);
    assert(fib(15) == 610);
    assert(fib(16) == 987);
    assert(fib(17) == 1_597);
    assert(fib(18) == 2_584);
    assert(fib(19) == 4_181);
    assert(fib(20) == 6_765);
    assert(fib(21) == 10_946);
    assert(fib(22) == 17_711);
    assert(fib(23) == 28_657);
    assert(fib(24) == 46_368);
    assert(fib(25) == 75_025);
    assert(fib(26) == 121_393);
    assert(fib(27) == 196_418);
    assert(fib(28) == 317_811);
    assert(fib(29) == 514_229);
    assert(fib(30) == 832_040);
    assert(fib(31) == 1_346_269);
    assert(fib(32) == 2_178_309);
    assert(fib(33) == 3_524_578);
    assert(fib(34) == 5_702_887);
    assert(fib(35) == 9_227_465);
    assert(fib(36) == 14_930_352);
    assert(fib(37) == 24_157_817);
    assert(fib(38) == 39_088_169);
    assert(fib(39) == 63_245_986);
    assert(fib(40) == 102_334_155);
    assert(fib(41) == 165_580_141);
    assert(fib(42) == 267_914_296);
    assert(fib(43) == 433_494_437);
    assert(fib(44) == 701_408_733);
    assert(fib(45) == 1_134_903_170);
    assert(fib(46) == 1_836_311_903);
    assert(fib(47) == 2_971_215_073);
    assert(fib(48) == 4_807_526_976);
}

/// A cursor that stands at one of the first 46 Fibonacci numbers may move
/// on: a cursor that starts at zero and one yields the numbers from the
/// first to the 46th.
pub proof fn lemma_first_steps_fit(cursor: Fibonacci, k: nat)
    requires
        cursor.stands_at(k),
        k <= 45,
    ensures
        cursor.current + cursor.next <= u32::MAX,
{
    lemma_fib_47();
    lemma_fib_monotonic(k + 2, 47);
    assert(fib(k + 2) == fib(k + 1) + fib(k));
}

} // verus!
