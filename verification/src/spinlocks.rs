//! Hardware spinlock pool: 32 independently addressable lock lines.
//!
//! Each line is one 32-bit register. Reading it is the hardware's atomic
//! test-and-acquire primitive: a nonzero result means the reader now holds
//! the line, zero means someone else does. Writing a nonzero value releases
//! the line. `SpinlockPool` models the register bank; `Spinlock<N>` is the
//! typed, index-validated acquisition token on top of it.

use vstd::prelude::*;
use crate::gpio::SIO_BASE;
use crate::Valid;

verus! {

/// Offset of the first spinlock register within the single-cycle I/O block.
pub const SPINLOCK_BASE_OFFSET: usize = 0x100;

/// Number of hardware lock lines.
pub const SPINLOCK_COUNT: usize = 32;

/// Address offset of lock line `spinlock_num`'s register: the lines sit 4
/// bytes apart from a fixed base.
pub fn spinlock_offset(spinlock_num: usize) -> (r: usize)
    requires
        spinlock_num < SPINLOCK_COUNT,
    ensures
        r == SPINLOCK_BASE_OFFSET + spinlock_num * 4,
        SIO_BASE + r <= usize::MAX,
{
    SPINLOCK_BASE_OFFSET + spinlock_num * 4
}

/// The spinlock register bank. `lines[n]` is true when line `n` is free
/// (its register reads nonzero), false while some holder owns it. Out of
/// reset every line is free.
pub struct SpinlockPool {
    pub lines: Vec<bool>,
}

/// State of the pool after one successful acquisition of line `n`.
pub open spec fn acquire_transition(lines: Seq<bool>, n: int) -> Seq<bool> {
    lines.update(n, false)
}

/// State of the pool after line `n` is released.
pub open spec fn release_transition(lines: Seq<bool>, n: int) -> Seq<bool> {
    lines.update(n, true)
}

impl SpinlockPool {
    /// One register per lock line.
    pub open spec fn wf(self) -> bool {
        self.lines@.len() == SPINLOCK_COUNT
    }

    /// Line `n` is currently free.
    pub open spec fn line_free(self, n: int) -> bool {
        self.lines@[n]
    }

    /// The bank as it comes out of reset: every line free.
    pub fn new() -> (r: SpinlockPool)
        ensures
            r.wf(),
            forall|n: int| 0 <= n < SPINLOCK_COUNT ==> #[trigger] r.lines@[n],
    {
        let mut lines: Vec<bool> = Vec::new();
        let mut i: usize = 0;
        while i < SPINLOCK_COUNT
            invariant
                i <= SPINLOCK_COUNT,
                lines@.len() == i,
                forall|n: int| 0 <= n < i ==> lines@[n],
            decreases SPINLOCK_COUNT - i,
        {
            lines.push(true);
            i = i + 1;
        }
        SpinlockPool { lines }
    }

    /// A read of lock line `n`'s register: the hardware's atomic
    /// test-and-acquire. A nonzero result is itself the acquisition; zero
    /// means the line was already held and nothing changed.
    pub fn read_lock_register(&mut self, n: usize) -> (r: u32)
        requires
            old(self).wf(),
            n < SPINLOCK_COUNT,
        ensures
            final(self).wf(),
            old(self).line_free(n as int) ==> r != 0 && final(self).lines@
                == acquire_transition(old(self).lines@, n as int),
            !old(self).line_free(n as int) ==> r == 0 && final(self).lines@ == old(self).lines@,
    {
        if self.lines[n] {
            self.lines.set(n, false);
            1
        } else {
            0
        }
    }

    /// A write to lock line `n`'s register: any nonzero value relinquishes
    /// the line; by convention holders write 1.
    pub fn write_lock_register(&mut self, n: usize, value: u32)
        requires
            old(self).wf(),
            n < SPINLOCK_COUNT,
        ensures
            final(self).wf(),
            value != 0 ==> final(self).lines@ == release_transition(old(self).lines@, n as int),
            value == 0 ==> final(self).lines@ == old(self).lines@,
    {
        if value != 0 {
            self.lines.set(n, true);
        }
    }
}

/// An acquisition token for lock line `N`. A token exists only as the result
/// of a successful `try_claim`, and `release` consumes it, so a live token is
/// the proof of ownership and no token can release its line twice.
pub struct Spinlock<const N: usize>;

impl<const N: usize> Spinlock<N> where Spinlock<N>: Valid {
    /// Non-blocking acquisition attempt on line `N`: returns a token exactly
    /// when the line was free, and reports contention with `None` without
    /// ever blocking. No other line changes.
    pub fn try_claim(pool: &mut SpinlockPool) -> (r: Option<Spinlock<N>>)
        requires
            old(pool).wf(),
            N < SPINLOCK_COUNT,
        ensures
            final(pool).wf(),
            r is Some <==> old(pool).line_free(N as int),
            r is Some ==> final(pool).lines@ == acquire_transition(old(pool).lines@, N as int),
            r is None ==> final(pool).lines@ == old(pool).lines@,
    {
        let claimed: u32 = pool.read_lock_register(N);
        if claimed > 0 {
            Some(Spinlock)
        } else {
            None
        }
    }

    /// Releases line `N`, consuming the token: after the call the line is
    /// free again and every other line is untouched.
    pub fn release(self, pool: &mut SpinlockPool)
        requires
            old(pool).wf(),
            N < SPINLOCK_COUNT,
        ensures
            final(pool).wf(),
            final(pool).lines@ == release_transition(old(pool).lines@, N as int),
    {
        pool.write_lock_register(N, 1);
    }
}

/// Law: the acquire/release round trip. On a free line, acquisition leaves
/// the line held (so a second attempt while the token is live finds it held
/// and, by `try_claim`'s contract, returns nothing), releasing it makes it
/// free again, and no other line is disturbed at any point.
pub proof fn lemma_spinlock_round_trip(lines: Seq<bool>, n: int)
    requires
        lines.len() == SPINLOCK_COUNT,
        0 <= n < SPINLOCK_COUNT,
        lines[n],
    ensures
        !acquire_transition(lines, n)[n],
        release_transition(acquire_transition(lines, n), n)[n],
        forall|m: int|
            0 <= m < SPINLOCK_COUNT && m != n ==> release_transition(
                acquire_transition(lines, n),
                n,
            )[m] == lines[m],
{
}

/// Law: releasing a line that is already free leaves the pool exactly as a
/// single release would, so a stray extra release transition cannot corrupt
/// the state seen by a later, independent acquirer of the same line. (The
/// token API never reaches this situation: `release` consumes the token, so
/// a second release of the same token is not expressible.)
pub proof fn lemma_release_idempotent(lines: Seq<bool>, n: int)
    requires
        lines.len() == SPINLOCK_COUNT,
        0 <= n < SPINLOCK_COUNT,
    ensures
        release_transition(release_transition(lines, n), n) =~= release_transition(lines, n),
        release_transition(lines, n)[n],
{
}

impl Valid for Spinlock<0> {
}

impl Valid for Spinlock<1> {
}

impl Valid for Spinlock<2> {
}

impl Valid for Spinlock<3> {
}

impl Valid for Spinlock<4> {
}

impl Valid for Spinlock<5> {
}

impl Valid for Spinlock<6> {
}

impl Valid for Spinlock<7> {
}

impl Valid for Spinlock<8> {
}

impl Valid for Spinlock<9> {
}

impl Valid for Spinlock<10> {
}

impl Valid for Spinlock<11> {
}

impl Valid for Spinlock<12> {
}

impl Valid for Spinlock<13> {
}

impl Valid for Spinlock<14> {
}

impl Valid for Spinlock<15> {
}

impl Valid for Spinlock<16> {
}

impl Valid for Spinlock<17> {
}

impl Valid for Spinlock<18> {
}

impl Valid for Spinlock<19> {
}

impl Valid for Spinlock<20> {
}

impl Valid for Spinlock<21> {
}

impl Valid for Spinlock<22> {
}

impl Valid for Spinlock<23> {
}

impl Valid for Spinlock<24> {
}

impl Valid for Spinlock<25> {
}

impl Valid for Spinlock<26> {
}

impl Valid for Spinlock<27> {
}

impl Valid for Spinlock<28> {
}

impl Valid for Spinlock<29> {
}

impl Valid for Spinlock<30> {
}

impl Valid for Spinlock<31> {
}

} // verus!
