//! The fingerprint of a load test: a 64-bit hash of the definitions of its
//! task sets and tasks, in their order. Two processes that were given the
//! same definitions compute the same fingerprint.

use crate::goose::{GooseTask, GooseTaskSet};
use vstd::bytes::{spec_u64_to_le_bytes, u64_to_le_bytes};
use vstd::prelude::*;
use vstd::string::StrSliceExecFns;
use vstd::utf8::encode_utf8;

verus! {

/// The value that the hash starts from.
pub const HASH_OFFSET: u64 = 0xcbf2_9ce4_8422_2325;

/// The factor by which the hash is multiplied for each byte.
pub const HASH_PRIME: u64 = 0x0000_0100_0000_01b3;

/// The hash after one more byte: the byte is mixed into the lowest bits,
/// and the result is multiplied by the prime, kept to 64 bits.
pub open spec fn hash_step(hash: u64, byte: u8) -> u64 {
    (((hash ^ (byte as u64)) as int * HASH_PRIME as int) % 0x1_0000_0000_0000_0000) as u64
}

/// The hash of a sequence of bytes (the 64-bit FNV-1a hash).
pub open spec fn hash_of(bytes: Seq<u8>) -> u64
    decreases bytes.len(),
{
    if bytes.len() == 0 {
        HASH_OFFSET
    } else {
        hash_step(hash_of(bytes.drop_last()), bytes.last())
    }
}

/// A number as eight bytes, the lowest first.
pub open spec fn number_bytes(n: usize) -> Seq<u8> {
    spec_u64_to_le_bytes(n as u64)
}

/// A flag as one byte.
pub open spec fn flag_bytes(b: bool) -> Seq<u8> {
    if b {
        seq![1u8]
    } else {
        seq![0u8]
    }
}

/// A text as bytes: the number of bytes of its UTF-8 form, and these
/// bytes.
pub open spec fn text_bytes(s: Seq<char>) -> Seq<u8> {
    number_bytes(encode_utf8(s).len() as usize) + encode_utf8(s)
}

/// The definition of a task as bytes: its name, weight and sequence, and
/// whether it runs when a user starts or stops.
pub open spec fn task_bytes(task: GooseTask) -> Seq<u8> {
    text_bytes(task.name@) + number_bytes(task.weight) + number_bytes(task.sequence) + flag_bytes(
        task.on_start,
    ) + flag_bytes(task.on_stop)
}

/// The definitions of a list of tasks as bytes, in their order.
pub open spec fn tasks_bytes(tasks: Seq<GooseTask>) -> Seq<u8>
    decreases tasks.len(),
{
    if tasks.len() == 0 {
        Seq::empty()
    } else {
        tasks_bytes(tasks.drop_last()) + task_bytes(tasks.last())
    }
}

/// An optional host as bytes.
pub open spec fn host_bytes(host: Option<String>) -> Seq<u8> {
    match host {
        Some(h) => flag_bytes(true) + text_bytes(h@),
        None => flag_bytes(false),
    }
}

/// The definition of a task set as bytes: its name, weight, wait times
/// and host, the number of its tasks, and its tasks.
pub open spec fn task_set_bytes(task_set: GooseTaskSet) -> Seq<u8> {
    text_bytes(task_set.name@) + number_bytes(task_set.weight) + number_bytes(task_set.min_wait)
        + number_bytes(task_set.max_wait) + host_bytes(task_set.host) + number_bytes(
        task_set.tasks@.len() as usize,
    ) + tasks_bytes(task_set.tasks@)
}

/// The definitions of a list of task sets as bytes, in their order.
pub open spec fn definition_bytes(task_sets: Seq<GooseTaskSet>) -> Seq<u8>
    decreases task_sets.len(),
{
    if task_sets.len() == 0 {
        Seq::empty()
    } else {
        definition_bytes(task_sets.drop_last()) + task_set_bytes(task_sets.last())
    }
}

/// The fingerprint of a load test.
pub open spec fn spec_fingerprint(task_sets: Seq<GooseTaskSet>) -> u64 {
    hash_of(definition_bytes(task_sets))
}

/// The hash of a sequence of bytes.
pub fn hash_bytes(bytes: &Vec<u8>) -> (hash: u64)
    ensures
        hash == hash_of(bytes@),
{
    let mut hash: u64 = HASH_OFFSET;
    let mut i: usize = 0;
    while i < bytes.len()
        invariant
            i <= bytes.len(),
            hash == hash_of(bytes@.take(i as int)),
        decreases bytes.len() - i,
    {
        proof {
            assert(bytes@.take(i + 1).drop_last() =~= bytes@.take(i as int));
            assert(bytes@.take(i + 1).last() == bytes@[i as int]);
        }
        let mixed: u64 = hash ^ (bytes[i] as u64);
        assert(mixed as int * HASH_PRIME as int <= u128::MAX) by (nonlinear_arith)
            requires
                0 <= mixed <= 0xffff_ffff_ffff_ffff,
                HASH_PRIME == 0x0000_0100_0000_01b3,
        ;
        let wide: u128 = mixed as u128 * HASH_PRIME as u128;
        hash = (wide % 0x1_0000_0000_0000_0000) as u64;
        i = i + 1;
    }
    assert(bytes@.take(bytes.len() as int) =~= bytes@);
    hash
}

/// Appends bytes to a buffer.
pub fn push_bytes(buffer: &mut Vec<u8>, bytes: &Vec<u8>)
    ensures
        final(buffer)@ == old(buffer)@ + bytes@,
{
    let mut i: usize = 0;
    assert(buffer@ =~= old(buffer)@ + bytes@.take(0));
    while i < bytes.len()
        invariant
            i <= bytes.len(),
            buffer@ == old(buffer)@ + bytes@.take(i as int),
        decreases bytes.len() - i,
    {
        buffer.push(bytes[i]);
        i = i + 1;
        assert(buffer@ =~= old(buffer)@ + bytes@.take(i as int));
    }
    assert(bytes@.take(bytes.len() as int) =~= bytes@);
}

/// Appends a number to a buffer.
pub fn push_number(buffer: &mut Vec<u8>, n: usize)
    ensures
        final(buffer)@ == old(buffer)@ + number_bytes(n),
{
    let bytes = u64_to_le_bytes(n as u64);
    push_bytes(buffer, &bytes);
}

/// Appends a flag to a buffer.
pub fn push_flag(buffer: &mut Vec<u8>, b: bool)
    ensures
        final(buffer)@ == old(buffer)@ + flag_bytes(b),
{
    if b {
        buffer.push(1u8);
    } else {
        buffer.push(0u8);
    }
    assert(buffer@ =~= old(buffer)@ + flag_bytes(b));
}

/// Appends a text to a buffer.
pub fn push_text(buffer: &mut Vec<u8>, s: &str)
    ensures
        final(buffer)@ == old(buffer)@ + text_bytes(s@),
{
    let bytes = s.as_bytes_vec();
    push_number(buffer, bytes.len());
    push_bytes(buffer, &bytes);
    assert(buffer@ =~= old(buffer)@ + text_bytes(s@));
}

/// Appends the definition of a task to a buffer.
pub fn push_task(buffer: &mut Vec<u8>, task: &GooseTask)
    ensures
        final(buffer)@ == old(buffer)@ + task_bytes(*task),
{
    push_text(buffer, task.name.as_str());
    push_number(buffer, task.weight);
    push_number(buffer, task.sequence);
    push_flag(buffer, task.on_start);
    push_flag(buffer, task.on_stop);
    assert(buffer@ =~= old(buffer)@ + task_bytes(*task));
}

/// Appends the definition of a task set to a buffer.
pub fn push_task_set(buffer: &mut Vec<u8>, task_set: &GooseTaskSet)
    ensures
        final(buffer)@ == old(buffer)@ + task_set_bytes(*task_set),
{
    push_text(buffer, task_set.name.as_str());
    push_number(buffer, task_set.weight);
    push_number(buffer, task_set.min_wait);
    push_number(buffer, task_set.max_wait);
    match &task_set.host {
        Some(host) => {
            push_flag(buffer, true);
            push_text(buffer, host.as_str());
        },
        None => {
            push_flag(buffer, false);
        },
    }
    push_number(buffer, task_set.tasks.len());
    let ghost head = buffer@;
    assert(head =~= old(buffer)@ + text_bytes(task_set.name@) + number_bytes(task_set.weight)
        + number_bytes(task_set.min_wait) + number_bytes(task_set.max_wait) + host_bytes(
        task_set.host,
    ) + number_bytes(task_set.tasks@.len() as usize));
    let mut i: usize = 0;
    assert(buffer@ =~= head + tasks_bytes(task_set.tasks@.take(0)));
    while i < task_set.tasks.len()
        invariant
            i <= task_set.tasks.len(),
            buffer@ == head + tasks_bytes(task_set.tasks@.take(i as int)),
        decreases task_set.tasks.len() - i,
    {
        proof {
            assert(task_set.tasks@.take(i + 1).drop_last() =~= task_set.tasks@.take(i as int));
            assert(task_set.tasks@.take(i + 1).last() == task_set.tasks@[i as int]);
        }
        push_task(buffer, &task_set.tasks[i]);
        i = i + 1;
        assert(buffer@ =~= head + tasks_bytes(task_set.tasks@.take(i as int)));
    }
    assert(task_set.tasks@.take(task_set.tasks.len() as int) =~= task_set.tasks@);
    assert(buffer@ =~= old(buffer)@ + task_set_bytes(*task_set));
}

/// The fingerprint of a load test: the hash of the definitions of its task
/// sets, in their order.
pub fn fingerprint(task_sets: &Vec<GooseTaskSet>) -> (hash: u64)
    ensures
        hash == spec_fingerprint(task_sets@),
{
    let mut buffer: Vec<u8> = Vec::new();
    let mut i: usize = 0;
    assert(buffer@ =~= definition_bytes(task_sets@.take(0)));
    while i < task_sets.len()
        invariant
            i <= task_sets.len(),
            buffer@ == definition_bytes(task_sets@.take(i as int)),
        decreases task_sets.len() - i,
    {
        proof {
            assert(task_sets@.take(i + 1).drop_last() =~= task_sets@.take(i as int));
            assert(task_sets@.take(i + 1).last() == task_sets@[i as int]);
        }
        push_task_set(&mut buffer, &task_sets[i]);
        i = i + 1;
    }
    assert(task_sets@.take(task_sets.len() as int) =~= task_sets@);
    hash_bytes(&buffer)
}

/// Whether a Worker with fingerprint `worker_hash` may join a Manager with
/// fingerprint `manager_hash`: the two have to agree unless the check is
/// switched off.
pub fn fingerprint_accepted(manager_hash: u64, worker_hash: u64, no_hash_check: bool) -> (r: bool)
    ensures
        r == (no_hash_check || manager_hash == worker_hash),
{
    no_hash_check || manager_hash == worker_hash
}

/// What a task set is defined by: its name, weight, wait times and host,
/// and for each of its tasks the name, the weight, the sequence and
/// whether it runs when a user starts or stops.
pub open spec fn same_task(a: GooseTask, b: GooseTask) -> bool {
    &&& a.name@ == b.name@
    &&& a.weight == b.weight
    &&& a.sequence == b.sequence
    &&& a.on_start == b.on_start
    &&& a.on_stop == b.on_stop
}

/// Two task sets have the same definition.
pub open spec fn same_task_set(a: GooseTaskSet, b: GooseTaskSet) -> bool {
    &&& a.name@ == b.name@
    &&& a.weight == b.weight
    &&& a.min_wait == b.min_wait
    &&& a.max_wait == b.max_wait
    &&& crate::hosts::option_text(a.host) == crate::hosts::option_text(b.host)
    &&& a.tasks@.len() == b.tasks@.len()
    &&& forall|i: int| 0 <= i < a.tasks@.len() ==> same_task(a.tasks@[i], b.tasks@[i])
}

/// Two load tests have the same definitions, in the same order.
pub open spec fn same_definitions(a: Seq<GooseTaskSet>, b: Seq<GooseTaskSet>) -> bool {
    &&& a.len() == b.len()
    &&& forall|i: int| 0 <= i < a.len() ==> same_task_set(a[i], b[i])
}

/// Lists of tasks with the same definitions give the same bytes.
pub proof fn lemma_same_tasks_bytes(a: Seq<GooseTask>, b: Seq<GooseTask>)
    requires
        a.len() == b.len(),
        forall|i: int| 0 <= i < a.len() ==> same_task(a[i], b[i]),
    ensures
        tasks_bytes(a) == tasks_bytes(b),
    decreases a.len(),
{
    if a.len() > 0 {
        assert(same_task(a[a.len() - 1], b[b.len() - 1]));
        assert forall|i: int| 0 <= i < a.drop_last().len() implies same_task(
            a.drop_last()[i],
            b.drop_last()[i],
        ) by {
            assert(same_task(a[i], b[i]));
        }
        lemma_same_tasks_bytes(a.drop_last(), b.drop_last());
    }
}

/// The fingerprint depends on the definitions alone: load tests with the
/// same definitions of task sets and tasks, in the same order, have the
/// same fingerprint, whatever else their state holds.
pub proof fn lemma_fingerprint_of_definitions(a: Seq<GooseTaskSet>, b: Seq<GooseTaskSet>)
    requires
        same_definitions(a, b),
    ensures
        spec_fingerprint(a) == spec_fingerprint(b),
{
    lemma_same_definition_bytes(a, b);
}

/// Load tests with the same definitions give the same bytes.
pub proof fn lemma_same_definition_bytes(a: Seq<GooseTaskSet>, b: Seq<GooseTaskSet>)
    requires
        same_definitions(a, b),
    ensures
        definition_bytes(a) == definition_bytes(b),
    decreases a.len(),
{
    if a.len() > 0 {
        assert(same_task_set(a[a.len() - 1], b[b.len() - 1]));
        lemma_same_tasks_bytes(a.last().tasks@, b.last().tasks@);
        assert forall|i: int| 0 <= i < a.drop_last().len() implies same_task_set(
            a.drop_last()[i],
            b.drop_last()[i],
        ) by {
            assert(same_task_set(a[i], b[i]));
        }
        lemma_same_definition_bytes(a.drop_last(), b.drop_last());
    }
}

} // verus!
