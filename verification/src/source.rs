//! Clock sources, and the counter that tells mock clocks apart.

use std::cmp::Ordering;
use vstd::prelude::*;
use vstd::std_specs::cmp::PartialOrdSpecImpl;

verus! {

/// The clock an instant was read from.
#[derive(Debug, Clone, Copy, Hash, PartialEq, Eq, Ord, Structural)]
pub enum ClockSource {
    /// The platform's monotonic timer, of which there is one.
    Std,
    /// A mock clock, told apart from every other by its identity.
    Mock(u64),
}

impl ClockSource {
    /// The order of sources: the platform's timer before every mock clock,
    /// and mock clocks by identity.
    pub open spec fn precedes(self, other: ClockSource) -> bool {
        match (self, other) {
            (ClockSource::Std, ClockSource::Mock(_)) => true,
            (ClockSource::Mock(a), ClockSource::Mock(b)) => a < b,
            _ => false,
        }
    }
}

/// `<`, `<=`, `>` and `>=` on sources, by [`ClockSource::precedes`].
impl PartialOrd for ClockSource {
    fn partial_cmp(&self, other: &ClockSource) -> (r: Option<Ordering>) {
        match (*self, *other) {
            (ClockSource::Std, ClockSource::Std) => Some(Ordering::Equal),
            (ClockSource::Std, ClockSource::Mock(_)) => Some(Ordering::Less),
            (ClockSource::Mock(_), ClockSource::Std) => Some(Ordering::Greater),
            (ClockSource::Mock(a), ClockSource::Mock(b)) => {
                if a < b {
                    Some(Ordering::Less)
                } else if a > b {
                    Some(Ordering::Greater)
                } else {
                    Some(Ordering::Equal)
                }
            },
        }
    }
}

impl PartialOrdSpecImpl for ClockSource {
    open spec fn obeys_partial_cmp_spec() -> bool {
        true
    }

    open spec fn partial_cmp_spec(&self, other: &ClockSource) -> Option<Ordering> {
        if self.precedes(*other) {
            Some(Ordering::Less)
        } else if other.precedes(*self) {
            Some(Ordering::Greater)
        } else {
            Some(Ordering::Equal)
        }
    }
}

/// Hands out the identities of mock clocks, one per clock, counting up from
/// zero and starting over only after `u64::MAX`.
///
/// A program that wants all its mock clocks told apart keeps one counter and
/// makes every mock clock from it.
#[derive(Debug)]
pub struct ClockIds {
    next: u64,
}

impl View for ClockIds {
    type V = u64;

    /// The identity that the next mock clock will receive.
    closed spec fn view(&self) -> u64 {
        self.next
    }
}

impl ClockIds {
    /// The identity handed out `n` allocations after `first` was.
    pub open spec fn id_after(first: u64, n: nat) -> u64 {
        ((first + n) % 0x1_0000_0000_0000_0000) as u64
    }

    /// A counter that has handed out nothing yet.
    pub fn new() -> (ids: ClockIds)
        ensures
            ids@ == 0,
    {
        ClockIds { next: 0 }
    }

    /// Hands out the next identity.
    pub fn allocate(&mut self) -> (id: u64)
        ensures
            id == old(self)@,
            final(self)@ == Self::id_after(old(self)@, 1),
    {
        let id: u64 = self.next;
        self.next = if id == u64::MAX {
            0
        } else {
            id + 1
        };
        id
    }

    /// Allocations add up: `j` allocations after the `i`-th is the `i + j`-th.
    pub proof fn lemma_id_after_add(first: u64, i: nat, j: nat)
        ensures
            Self::id_after(Self::id_after(first, i), j) == Self::id_after(first, i + j),
    {
        let m = 0x1_0000_0000_0000_0000int;
        // ((first + i) % m + j) % m == (first + i + j) % m
        vstd::arithmetic::div_mod::lemma_add_mod_noop_right(j as int, (first + i) as int, m);
    }

    /// No identity is handed out twice within `2^64` allocations: the `i`-th
    /// and the `j`-th identity after `first` differ whenever `i` and `j` do and
    /// lie less than `2^64` apart.
    pub proof fn lemma_ids_distinct(first: u64, i: nat, j: nat)
        requires
            i < j < i + 0x1_0000_0000_0000_0000,
        ensures
            Self::id_after(first, i) != Self::id_after(first, j),
            ClockSource::Mock(Self::id_after(first, i)) != ClockSource::Mock(
                Self::id_after(first, j),
            ),
    {
        let m = 0x1_0000_0000_0000_0000int;
        let a = (first + i) as int;
        let b = (first + j) as int;
        if a % m == b % m {
            vstd::arithmetic::div_mod::lemma_fundamental_div_mod(a, m);
            vstd::arithmetic::div_mod::lemma_fundamental_div_mod(b, m);
            let qa = a / m;
            let qb = b / m;
            assert(b - a == m * qb - m * qa);
            assert(m * qb - m * qa == m * (qb - qa)) by (nonlinear_arith);
            assert(0 < b - a < m);
            assert(false) by (nonlinear_arith)
                requires
                    0 < m * (qb - qa) < m,
                    m > 0,
            ;
        }
    }
}

} // verus!
