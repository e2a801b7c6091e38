//! The membership batch: a team's new memberships are inserted one by one in
//! a single transaction, which is committed only if every insert took effect.
use vstd::prelude::*;
use crate::error::VaderError;

verus! {

/// The failure an insert reports: an error of the store, or no row inserted,
/// which means the team is not there.
pub open spec fn insert_failure(inserted: Result<u64, VaderError>) -> Option<VaderError> {
    match inserted {
        Ok(rows) => if rows == 0 {
            Some(VaderError::TeamNotFound)
        } else {
            None
        },
        Err(e) => Some(e),
    }
}

/// The first failure among the inserts reported so far.
pub open spec fn first_failure(seen: Seq<Result<u64, VaderError>>) -> Option<VaderError>
    decreases seen.len(),
{
    if seen.len() == 0 {
        None
    } else {
        match first_failure(seen.drop_last()) {
            Some(e) => Some(e),
            None => insert_failure(seen.last()),
        }
    }
}

/// What the transaction does next.
#[derive(Clone, Copy, Debug, PartialEq, Eq, Structural)]
pub enum BatchAction {
    /// Insert this membership.
    Insert { team_id: u128, user_id: u128 },
    /// Roll back every insert of the batch and report the error.
    Rollback(VaderError),
    /// Commit the batch.
    Commit,
}

/// The action that follows the store's answers to the first inserts of a
/// batch of memberships of `team_id`.
pub open spec fn batch_action(
    team_id: u128,
    listed: Seq<u128>,
    answers: Seq<Result<u64, VaderError>>,
) -> BatchAction {
    match first_failure(answers) {
        Some(e) => BatchAction::Rollback(e),
        None => if answers.len() < listed.len() {
            BatchAction::Insert { team_id, user_id: listed[answers.len() as int] }
        } else {
            BatchAction::Commit
        },
    }
}

/// A batch in progress: the memberships to insert and the store's answers.
pub struct MemberBatch {
    team_id: u128,
    members: Vec<u128>,
    /// The number of inserts that took effect.
    done: usize,
    /// The first failure reported, if any.
    failed: Option<VaderError>,
    /// The store's answers to each insert, in order.
    seen: Ghost<Seq<Result<u64, VaderError>>>,
}

impl MemberBatch {
    #[verifier::type_invariant]
    spec fn consistent(&self) -> bool {
        &&& self.failed == first_failure(self.seen@)
        &&& self.done <= self.members@.len()
        &&& (self.failed is None ==> self.seen@.len() == self.done)
        &&& self.seen@.len() <= self.members@.len()
    }

    pub closed spec fn team(&self) -> u128 {
        self.team_id
    }

    /// The users to make members, in order.
    pub closed spec fn listed(&self) -> Seq<u128> {
        self.members@
    }

    /// The store's answers so far, in order.
    pub closed spec fn answers(&self) -> Seq<Result<u64, VaderError>> {
        self.seen@
    }

    pub open spec fn action_after(&self) -> BatchAction {
        batch_action(self.team(), self.listed(), self.answers())
    }

    pub fn new(team_id: u128, members: Vec<u128>) -> (r: MemberBatch)
        ensures
            r.team() == team_id,
            r.listed() == members@,
            r.answers().len() == 0,
    {
        MemberBatch { team_id, members, done: 0, failed: None, seen: Ghost(Seq::empty()) }
    }

    /// The next step of the transaction: roll back after any failure, insert
    /// the next membership, or commit once every insert took effect.
    pub fn next_action(&self) -> (r: BatchAction)
        ensures
            r == self.action_after(),
            self.answers().len() <= self.listed().len(),
    {
        proof {
            use_type_invariant(self);
        }
        match self.failed {
            Some(e) => BatchAction::Rollback(e),
            None => if self.done < self.members.len() {
                BatchAction::Insert { team_id: self.team_id, user_id: self.members[self.done] }
            } else {
                BatchAction::Commit
            },
        }
    }

    /// Records the store's answer to the insert that `next_action` asked for:
    /// the number of rows inserted, or the error.
    pub fn record(&mut self, inserted: Result<u64, VaderError>)
        requires
            old(self).action_after() is Insert,
        ensures
            final(self).team() == old(self).team(),
            final(self).listed() == old(self).listed(),
            final(self).answers() == old(self).answers().push(inserted),
    {
        proof {
            use_type_invariant(&*self);
        }
        let ghost s0 = self.seen@;
        let n = self.members.len();
        assert(self.done < n);
        assert(s0.push(inserted).drop_last() =~= s0);
        let (done, failed) = match inserted {
            Ok(rows) => if rows == 0 {
                (self.done, Some(VaderError::TeamNotFound))
            } else {
                (self.done + 1, None)
            },
            Err(e) => (self.done, Some(e)),
        };
        let mut taken = MemberBatch::new(0, Vec::new());
        std::mem::swap(&mut taken, self);
        let MemberBatch { team_id, members, .. } = taken;
        *self = MemberBatch { team_id, members, done, failed, seen: Ghost(s0.push(inserted)) };
    }
}

/// A failure stays: once an insert has failed, the transaction rolls back
/// whatever is reported afterwards.
pub proof fn failure_is_final(seen: Seq<Result<u64, VaderError>>, more: Seq<Result<u64, VaderError>>)
    requires
        first_failure(seen) is Some,
    ensures
        first_failure(seen + more) == first_failure(seen),
    decreases more.len(),
{
    if more.len() > 0 {
        failure_is_final(seen, more.drop_last());
        assert((seen + more).drop_last() =~= seen + more.drop_last());
    }
}

/// The batch is atomic: the transaction commits exactly when every listed
/// membership was inserted without failure, and rolls back, with the first
/// failure, as soon as one insert failed. (A batch never holds more answers
/// than memberships: see `MemberBatch::next_action`.)
pub proof fn batch_is_atomic(
    team_id: u128,
    listed: Seq<u128>,
    answers: Seq<Result<u64, VaderError>>,
)
    requires
        answers.len() <= listed.len(),
    ensures
        batch_action(team_id, listed, answers) == BatchAction::Commit <==> (answers.len()
            == listed.len() && forall|i: int|
            0 <= i < answers.len() ==> #[trigger] insert_failure(answers[i]) is None),
        (exists|i: int| 0 <= i < answers.len() && #[trigger] insert_failure(answers[i]) is Some)
            ==> batch_action(team_id, listed, answers) is Rollback,
{
    no_failure_iff_all_succeed(answers);
}

/// No failure among the answers exactly when each answer is a success.
pub proof fn no_failure_iff_all_succeed(seen: Seq<Result<u64, VaderError>>)
    ensures
        first_failure(seen) is None <==> forall|i: int|
            0 <= i < seen.len() ==> #[trigger] insert_failure(seen[i]) is None,
    decreases seen.len(),
{
    if seen.len() > 0 {
        let front = seen.drop_last();
        no_failure_iff_all_succeed(front);
        if first_failure(seen) is None {
            assert forall|i: int| 0 <= i < seen.len() implies #[trigger] insert_failure(
                seen[i],
            ) is None by {
                if i < seen.len() - 1 {
                    assert(seen[i] == front[i]);
                }
            }
        }
        if forall|i: int| 0 <= i < seen.len() ==> #[trigger] insert_failure(seen[i]) is None {
            assert forall|i: int| 0 <= i < front.len() implies #[trigger] insert_failure(
                front[i],
            ) is None by {
                assert(front[i] == seen[i]);
                assert(insert_failure(seen[i]) is None);
            }
            assert(insert_failure(seen[seen.len() - 1]) is None);
        }
    }
}

} // verus!
