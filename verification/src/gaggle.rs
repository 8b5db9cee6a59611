//! A distributed load test: a Manager waits for its Workers, takes those
//! that run the same load test, and gives each its share of the users.

use crate::fingerprint::fingerprint_accepted;
use vstd::prelude::*;

verus! {

/// How many users the Worker at `index` runs, of `workers` Workers that
/// run `users` users together: each an equal part, and the first Workers
/// one more where the users do not divide evenly.
pub open spec fn share_count(users: nat, workers: nat, index: nat) -> nat {
    if workers == 0 || index >= workers {
        0
    } else {
        users / workers + if index < users % workers {
            1nat
        } else {
            0nat
        }
    }
}

/// The position of the first user of the Worker at `index`: the users
/// are dealt out to the Workers in the order of the Workers.
pub open spec fn share_start(users: nat, workers: nat, index: nat) -> nat {
    if workers == 0 {
        0
    } else {
        index * (users / workers) + if index < users % workers {
            index
        } else {
            users % workers
        }
    }
}

/// The shares of the Workers follow one another and take up all users:
/// the share of a Worker starts where the share of the Worker before it
/// ends, the first share starts with the first user, and the last share
/// ends with the last.
pub proof fn lemma_shares_partition(users: nat, workers: nat, index: nat)
    requires
        workers > 0,
        index < workers,
    ensures
        share_start(users, workers, 0) == 0,
        share_start(users, workers, index + 1) == share_start(users, workers, index) + share_count(
            users,
            workers,
            index,
        ),
        share_start(users, workers, workers) == users,
        share_start(users, workers, index) + share_count(users, workers, index) <= users,
{
    let part = users / workers;
    let rest = users % workers;
    vstd::arithmetic::div_mod::lemma_fundamental_div_mod(users as int, workers as int);
    assert(users == workers * part + rest);
    assert((index + 1) * part == index * part + part) by (nonlinear_arith);
    assert(index * part <= workers * part) by (nonlinear_arith)
        requires
            index <= workers,
    ;
    assert((index + 1) * part <= workers * part) by (nonlinear_arith)
        requires
            index + 1 <= workers,
    ;
}

/// The users of the Worker at `index`: the position of its first user and
/// their number; none where there is no such Worker.
pub fn worker_share(users: usize, workers: u16, index: u16) -> (r: Option<(usize, usize)>)
    ensures
        match r {
            Some((start, count)) => index < workers && start == share_start(
                users as nat,
                workers as nat,
                index as nat,
            ) && count == share_count(users as nat, workers as nat, index as nat),
            None => index >= workers,
        },
{
    if index >= workers {
        return None;
    }
    let part: usize = users / (workers as usize);
    let rest: usize = users % (workers as usize);
    proof {
        lemma_shares_partition(users as nat, workers as nat, index as nat);
        assert(index * part <= workers * part) by (nonlinear_arith)
            requires
                index <= workers,
        ;
        vstd::arithmetic::div_mod::lemma_fundamental_div_mod(users as int, workers as int);
    }
    let extra: usize = if (index as usize) < rest {
        index as usize
    } else {
        rest
    };
    let start: usize = (index as usize) * part + extra;
    let count: usize = if (index as usize) < rest {
        part + 1
    } else {
        part
    };
    Some((start, count))
}

/// What a Manager does with a Worker that asks to join.
#[derive(Clone, Copy, Debug, PartialEq, Eq, Structural)]
pub enum JoinOutcome {
    /// The Worker is taken, at this place among the Workers.
    Accepted(u16),
    /// The Worker runs another load test.
    WrongFingerprint,
    /// All Workers that were expected have joined.
    Full,
}

/// What a Manager that expects `expected` Workers, of which `joined` have
/// joined, does with one more: it takes no more than it expects, and none
/// that runs another load test unless the check is switched off.
pub open spec fn spec_join(
    expected: u16,
    joined: u16,
    manager_hash: u64,
    worker_hash: u64,
    no_hash_check: bool,
) -> JoinOutcome {
    if joined >= expected {
        JoinOutcome::Full
    } else if !(no_hash_check || manager_hash == worker_hash) {
        JoinOutcome::WrongFingerprint
    } else {
        JoinOutcome::Accepted(joined)
    }
}

/// Decides about a Worker that asks to join.
pub fn join_worker(
    expected: u16,
    joined: u16,
    manager_hash: u64,
    worker_hash: u64,
    no_hash_check: bool,
) -> (r: JoinOutcome)
    ensures
        r == spec_join(expected, joined, manager_hash, worker_hash, no_hash_check),
{
    if joined >= expected {
        JoinOutcome::Full
    } else if !fingerprint_accepted(manager_hash, worker_hash, no_hash_check) {
        JoinOutcome::WrongFingerprint
    } else {
        JoinOutcome::Accepted(joined)
    }
}

} // verus!
