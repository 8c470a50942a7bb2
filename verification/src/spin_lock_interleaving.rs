//! The spin lock of [`crate::spin_lock`] under contention.
//!
//! Several parties share one lock around a counter. Each of them, a given
//! number of times over, takes the lock, reads the counter, writes back what
//! it read plus one, and releases the lock. Every one of these is an atomic
//! step of its own, and the steps of the parties come in any order. A party
//! that finds the lock taken has spun once and tries again when its turn
//! comes next.

use crate::spin_lock::LockState;
use vstd::prelude::*;

verus! {

/// Where a party stands in a round.
pub enum Position {
    /// Not holding the lock: before a round, or spinning.
    Outside,
    /// Holding the lock, the counter not yet read.
    Inside,
    /// Holding the lock and the value read from the counter.
    Loaded(int),
    /// Holding the lock, the counter written.
    Stored,
}

/// One party.
pub struct Party {
    /// Where it stands.
    pub position: Position,
    /// How many rounds it has yet to finish.
    pub rounds_left: nat,
}

/// A lock around a counter and the parties that contend for it.
pub struct Contention {
    /// The lock and the counter behind it.
    pub lock: LockState<int>,
    /// The parties.
    pub parties: Seq<Party>,
}

/// The rounds that `parties` have yet to finish, all together.
pub open spec fn rounds_left(parties: Seq<Party>) -> nat
    decreases parties.len(),
{
    if parties.len() == 0 {
        0
    } else {
        rounds_left(parties.drop_last()) + parties.last().rounds_left
    }
}

impl Contention {
    /// A free lock around a counter at zero, and `parties` parties with
    /// `rounds` rounds before each.
    pub open spec fn start(parties: nat, rounds: nat) -> Self {
        Contention {
            lock: LockState::free(0),
            parties: Seq::new(
                parties,
                |i: int| Party { position: Position::Outside, rounds_left: rounds },
            ),
        }
    }

    /// Whether `who` is a party with a step to take.
    pub open spec fn enabled(self, who: int) -> bool {
        &&& 0 <= who < self.parties.len()
        &&& self.parties[who].position is Outside ==> self.parties[who].rounds_left > 0
    }

    /// Party `who` put at `position`.
    pub open spec fn moved(self, who: int, position: Position) -> Seq<Party> {
        self.parties.update(who, Party { position, ..self.parties[who] })
    }

    /// The state after the next step of party `who`. A party that has
    /// nothing left to do, and a number that names no party, change nothing.
    pub open spec fn step(self, who: int) -> Self {
        if !self.enabled(who) {
            self
        } else {
            match self.parties[who].position {
                // `swap(true)`: the lock is taken by whoever finds it free
                Position::Outside => if self.lock.locked {
                    self
                } else {
                    Contention {
                        lock: self.lock.acquire(),
                        parties: self.moved(who, Position::Inside),
                    }
                },
                Position::Inside => Contention {
                    parties: self.moved(who, Position::Loaded(self.lock.value)),
                    ..self
                },
                Position::Loaded(value) => Contention {
                    lock: self.lock.write(value + 1),
                    parties: self.moved(who, Position::Stored),
                },
                // `store(false)`: the round is over
                Position::Stored => Contention {
                    lock: self.lock.release(),
                    parties: self.parties.update(
                        who,
                        Party {
                            position: Position::Outside,
                            rounds_left: (self.parties[who].rounds_left - 1) as nat,
                        },
                    ),
                },
            }
        }
    }

    /// The state after the parties named in `schedule` have taken one step
    /// each, in that order.
    pub open spec fn after(self, schedule: Seq<int>) -> Self
        decreases schedule.len(),
    {
        if schedule.len() == 0 {
            self
        } else {
            self.after(schedule.drop_last()).step(schedule.last())
        }
    }

    /// Whether every party has finished its rounds.
    pub open spec fn finished(self) -> bool {
        forall|i: int| 0 <= i < self.parties.len() ==> (#[trigger] self.parties[i]).rounds_left == 0
    }

    /// Whether the lock is held by party `who`.
    pub open spec fn holds(self, who: int) -> bool {
        0 <= who < self.parties.len() && !(self.parties[who].position is Outside)
    }

    /// Mutual exclusion and what it buys: at most one party holds the lock,
    /// the flag is set exactly while one does, and the counter has counted
    /// the `total` rounds but those yet to be finished.
    pub open spec fn inv(self, total: nat) -> bool {
        &&& forall|i: int, j: int| self.holds(i) && self.holds(j) ==> i == j
        &&& self.lock.locked <==> exists|i: int| self.holds(i)
        &&& forall|i: int| #[trigger]
            self.holds(i) ==> self.parties[i].rounds_left > 0 && match self.parties[i].position {
                Position::Loaded(value) => value == self.lock.value && self.lock.value
                    + rounds_left(self.parties) == total,
                Position::Stored => self.lock.value + rounds_left(self.parties) == total + 1,
                _ => self.lock.value + rounds_left(self.parties) == total,
            }
        &&& !self.lock.locked ==> self.lock.value + rounds_left(self.parties) == total
    }

    /// Every step keeps the invariant.
    pub proof fn lemma_step_keeps_invariant(self, total: nat, who: int)
        requires
            self.inv(total),
        ensures
            self.step(who).inv(total),
    {
        let next = self.step(who);
        if self.enabled(who) {
            lemma_rounds_left_update(self.parties, who, next.parties[who]);
            match self.parties[who].position {
                Position::Outside => {
                    if !self.lock.locked {
                        assert(next.holds(who));
                        assert forall|i: int| next.holds(i) implies i == who by {
                            if i != who {
                                assert(self.holds(i));
                            }
                        }
                    }
                },
                Position::Stored => {
                    assert(self.holds(who));
                    assert forall|i: int| !next.holds(i) by {
                        if next.holds(i) {
                            assert(self.holds(i));
                        }
                    }
                },
                _ => {
                    assert(self.holds(who));
                    assert(next.holds(who));
                    assert forall|i: int| next.holds(i) implies i == who by {
                        if i != who {
                            assert(self.holds(i));
                        }
                    }
                },
            }
        }
    }

    /// The invariant holds all along every schedule.
    pub proof fn lemma_schedule_keeps_invariant(parties: nat, rounds: nat, schedule: Seq<int>)
        ensures
            Self::start(parties, rounds).after(schedule).inv(parties * rounds),
        decreases schedule.len(),
    {
        let start = Self::start(parties, rounds);
        if schedule.len() == 0 {
            lemma_rounds_left_at_start(parties, rounds);
            assert(forall|i: int| !start.holds(i));
        } else {
            Self::lemma_schedule_keeps_invariant(parties, rounds, schedule.drop_last());
            start.after(schedule.drop_last()).lemma_step_keeps_invariant(
                parties * rounds,
                schedule.last(),
            );
        }
    }
}

/// Changing one party changes the sum by what that party changed by.
proof fn lemma_rounds_left_update(parties: Seq<Party>, who: int, party: Party)
    requires
        0 <= who < parties.len(),
    ensures
        rounds_left(parties.update(who, party)) == rounds_left(parties) - parties[who].rounds_left
            + party.rounds_left,
    decreases parties.len(),
{
    if who == parties.len() - 1 {
        assert(parties.update(who, party).drop_last() =~= parties.drop_last());
    } else {
        assert(parties.update(who, party).drop_last() =~= parties.drop_last().update(who, party));
        lemma_rounds_left_update(parties.drop_last(), who, party);
    }
}

/// Without a round left to anybody, the sum is zero.
proof fn lemma_rounds_left_when_finished(parties: Seq<Party>)
    requires
        forall|i: int| 0 <= i < parties.len() ==> (#[trigger] parties[i]).rounds_left == 0,
    ensures
        rounds_left(parties) == 0,
    decreases parties.len(),
{
    if parties.len() > 0 {
        assert forall|i: int| 0 <= i < parties.drop_last().len() implies (
        #[trigger] parties.drop_last()[i]).rounds_left == 0 by {
            assert(parties.drop_last()[i] == parties[i]);
        }
        lemma_rounds_left_when_finished(parties.drop_last());
    }
}

/// At the start every party has all its rounds before it.
proof fn lemma_rounds_left_at_start(parties: nat, rounds: nat)
    ensures
        rounds_left(Contention::start(parties, rounds).parties) == parties * rounds,
    decreases parties,
{
    let all = Contention::start(parties, rounds).parties;
    if parties == 0 {
        assert(parties * rounds == 0) by (nonlinear_arith)
            requires
                parties == 0,
        ;
    } else {
        let fewer = (parties - 1) as nat;
        assert(all.drop_last() =~= Contention::start(fewer, rounds).parties);
        lemma_rounds_left_at_start(fewer, rounds);
        assert(fewer * rounds + rounds == parties * rounds) by (nonlinear_arith)
            requires
                fewer + 1 == parties,
        ;
    }
}

/// Under every schedule at most one party holds the lock at a time.
pub proof fn law_mutual_exclusion(parties: nat, rounds: nat, schedule: Seq<int>, i: int, j: int)
    requires
        Contention::start(parties, rounds).after(schedule).holds(i),
        Contention::start(parties, rounds).after(schedule).holds(j),
    ensures
        i == j,
        Contention::start(parties, rounds).after(schedule).lock.locked,
{
    Contention::lemma_schedule_keeps_invariant(parties, rounds, schedule);
}

/// No update is lost: under every schedule, once every party has finished
/// its rounds, the counter holds the number of parties times the number of
/// rounds, and the lock is free.
pub proof fn law_counter_counts_every_round(parties: nat, rounds: nat, schedule: Seq<int>)
    requires
        Contention::start(parties, rounds).after(schedule).finished(),
    ensures
        Contention::start(parties, rounds).after(schedule).lock.value == parties * rounds,
        !Contention::start(parties, rounds).after(schedule).lock.locked,
{
    let end = Contention::start(parties, rounds).after(schedule);
    Contention::lemma_schedule_keeps_invariant(parties, rounds, schedule);
    lemma_rounds_left_when_finished(end.parties);
    if end.lock.locked {
        let i = choose|i: int| end.holds(i);
        assert(end.holds(i));
        assert(end.parties[i].rounds_left == 0);
    }
}

/// Nobody waits for ever on account of the lock alone: under every schedule,
/// as long as some party has a round left, some party has a step to take
/// that changes the state.
pub proof fn law_some_party_can_move(parties: nat, rounds: nat, schedule: Seq<int>)
    requires
        !Contention::start(parties, rounds).after(schedule).finished(),
    ensures
        exists|who: int|
            Contention::start(parties, rounds).after(schedule).enabled(who) && (
            #[trigger] Contention::start(parties, rounds).after(schedule).step(who))
                != Contention::start(parties, rounds).after(schedule),
{
    let now = Contention::start(parties, rounds).after(schedule);
    Contention::lemma_schedule_keeps_invariant(parties, rounds, schedule);
    if now.lock.locked {
        let who = choose|i: int| now.holds(i);
        assert(now.holds(who));
        assert(now.enabled(who));
        assert(now.step(who).parties[who] != now.parties[who]);
    } else {
        let who = choose|i: int|
            0 <= i < now.parties.len() && (#[trigger] now.parties[i]).rounds_left != 0;
        assert(!now.holds(who));
        assert(now.enabled(who));
        assert(now.step(who).lock.locked);
    }
}

} // verus!
