//! Planning the workload: weights reduced by their greatest common
//! divisor and spread out into sequences of task and task set indices.

use crate::goose::{GooseTask, GooseTaskSet};
use crate::util::{divides, gcd, lemma_gcd_divides, lemma_gcd_greatest, spec_gcd};
use vstd::arithmetic::div_mod::lemma_fundamental_div_mod;
use vstd::prelude::*;

verus! {

/// The three plans of a task set.
#[derive(Clone, Copy, Debug, PartialEq, Eq, Structural)]
pub enum StepClass {
    /// The tasks that run once when a user starts.
    OnStart,
    /// The tasks that a user repeats until it is told to stop.
    Main,
    /// The tasks that run once when a user stops.
    OnStop,
}

/// Whether a task belongs to a plan. A task may run both when a user
/// starts and when it stops; a task that does neither is a main task.
pub open spec fn in_class(task: GooseTask, class: StepClass) -> bool {
    match class {
        StepClass::OnStart => task.on_start,
        StepClass::OnStop => task.on_stop,
        StepClass::Main => !task.on_start && !task.on_stop,
    }
}

/// The greatest common divisor of a list of weights; zero for no weights.
pub open spec fn weights_gcd(weights: Seq<usize>) -> nat
    decreases weights.len(),
{
    if weights.len() == 0 {
        0
    } else {
        spec_gcd(weights_gcd(weights.drop_last()), weights.last() as nat)
    }
}

/// The weights of the tasks of a task set.
pub open spec fn task_weights(tasks: Seq<GooseTask>) -> Seq<usize> {
    Seq::new(tasks.len(), |i: int| tasks[i].weight)
}

/// The weights of the task sets of a load test.
pub open spec fn task_set_weights(task_sets: Seq<GooseTaskSet>) -> Seq<usize> {
    Seq::new(task_sets.len(), |i: int| task_sets[i].weight)
}

/// Every weight is at least 1.
pub open spec fn weights_valid(weights: Seq<usize>) -> bool {
    forall|i: int| 0 <= i < weights.len() ==> weights[i] >= 1
}

/// `n` copies of `x`.
pub open spec fn repeated(x: usize, n: nat) -> Seq<usize> {
    Seq::new(n, |i: int| x)
}

/// One bucket of a plan: the tasks of the plan that have the given
/// sequence, in the order of their definition, each written as often as
/// its weight divided by `g` says.
pub open spec fn expanded(tasks: Seq<GooseTask>, g: nat, class: StepClass, sequence: usize) -> Seq<
    usize,
>
    decreases tasks.len(),
{
    if tasks.len() == 0 {
        Seq::empty()
    } else {
        let task = tasks.last();
        expanded(tasks.drop_last(), g, class, sequence) + if in_class(task, class) && task.sequence
            == sequence {
            repeated(task.tasks_index, task.weight as nat / g)
        } else {
            Seq::empty()
        }
    }
}

/// A task of the plan has this sequence, which is not zero.
pub open spec fn has_sequence(tasks: Seq<GooseTask>, class: StepClass, sequence: usize) -> bool {
    sequence > 0 && exists|i: int|
        0 <= i < tasks.len() && in_class(#[trigger] tasks[i], class) && tasks[i].sequence
            == sequence
}

/// Each element is smaller than every later one.
pub open spec fn increasing(s: Seq<usize>) -> bool {
    forall|i: int, j: int| 0 <= i < j < s.len() ==> s[i] < s[j]
}

/// `order` lists the sequences of a plan, each once, smallest first.
pub open spec fn is_sequence_order(
    tasks: Seq<GooseTask>,
    class: StepClass,
    order: Seq<usize>,
) -> bool {
    &&& increasing(order)
    &&& forall|s: usize| order.contains(s) <==> has_sequence(tasks, class, s)
}

/// The sequences of a plan, each once, smallest first.
pub open spec fn sequence_order(tasks: Seq<GooseTask>, class: StepClass) -> Seq<usize> {
    choose|order: Seq<usize>| is_sequence_order(tasks, class, order)
}

/// The bucket of the tasks without a sequence, which ends a plan. The plan
/// of the main tasks has it only where it holds a task.
pub open spec fn last_buckets(tasks: Seq<GooseTask>, g: nat, class: StepClass) -> Seq<Seq<usize>> {
    if class == StepClass::Main && expanded(tasks, g, class, 0).len() == 0 {
        Seq::empty()
    } else {
        seq![expanded(tasks, g, class, 0)]
    }
}

/// A plan: one bucket for each sequence, by ascending sequence, followed
/// by the bucket of the tasks without a sequence.
pub open spec fn spec_plan(tasks: Seq<GooseTask>, g: nat, class: StepClass) -> Seq<Seq<usize>> {
    let order = sequence_order(tasks, class);
    Seq::new(order.len(), |i: int| expanded(tasks, g, class, order[i])) + last_buckets(
        tasks,
        g,
        class,
    )
}

/// The buckets of a vector of vectors.
pub open spec fn buckets(plan: Vec<Vec<usize>>) -> Seq<Seq<usize>> {
    Seq::new(plan@.len(), |i: int| plan@[i]@)
}

/// The task sets of a load test, each written as often as its weight
/// divided by the greatest common divisor of all weights says.
pub open spec fn weighted_sets(weights: Seq<usize>, g: nat) -> Seq<usize>
    decreases weights.len(),
{
    if weights.len() == 0 {
        Seq::empty()
    } else {
        weighted_sets(weights.drop_last(), g) + repeated(
            (weights.len() - 1) as usize,
            weights.last() as nat / g,
        )
    }
}

/// The greatest common divisor of a list of weights that are all at least
/// 1 divides each of them.
pub proof fn lemma_weights_gcd_divides(weights: Seq<usize>, i: int)
    requires
        weights_valid(weights),
        0 <= i < weights.len(),
    ensures
        divides(weights_gcd(weights), weights[i] as nat),
    decreases weights.len(),
{
    let rest = weights.drop_last();
    let g = weights_gcd(weights);
    lemma_gcd_divides(weights_gcd(rest), weights.last() as nat);
    if i < weights.len() - 1 {
        lemma_weights_gcd_divides(rest, i);
        // g divides the divisor of the rest, which divides weights[i]
        let h = weights_gcd(rest);
        lemma_divides_transitive(g, h, weights[i] as nat);
    }
}

/// Divisibility passes on: a divisor of a divisor of `n` divides `n`.
pub proof fn lemma_divides_transitive(a: nat, b: nat, n: nat)
    requires
        divides(a, b),
        divides(b, n),
    ensures
        divides(a, n),
{
    let x = b as int / a as int;
    let y = n as int / b as int;
    lemma_fundamental_div_mod(b as int, a as int);
    lemma_fundamental_div_mod(n as int, b as int);
    assert(b == a * x);
    assert(n == b * y);
    assert(n == a * (x * y)) by {
        vstd::arithmetic::mul::lemma_mul_is_associative(a as int, x, y);
    }
    assert((a * (x * y)) % (a as int) == 0) by {
        vstd::arithmetic::mul::lemma_mul_is_commutative(a as int, x * y);
        vstd::arithmetic::div_mod::lemma_mod_multiples_basic(x * y, a as int);
    }
}

/// Every number that divides all weights divides their greatest common
/// divisor.
pub proof fn lemma_weights_gcd_greatest(weights: Seq<usize>, d: nat)
    requires
        weights.len() > 0,
        forall|i: int| 0 <= i < weights.len() ==> divides(d, #[trigger] weights[i] as nat),
    ensures
        divides(d, weights_gcd(weights)),
    decreases weights.len(),
{
    let rest = weights.drop_last();
    assert(divides(d, weights[weights.len() - 1] as nat));
    if rest.len() == 0 {
        assert(weights_gcd(rest) == 0);
        assert(divides(d, 0nat));
    } else {
        assert forall|i: int| 0 <= i < rest.len() implies divides(d, #[trigger] rest[i] as nat) by {
            assert(rest[i] == weights[i]);
        }
        lemma_weights_gcd_greatest(rest, d);
    }
    lemma_gcd_greatest(weights_gcd(rest), weights.last() as nat, d);
}

/// Reduced weights stand in the ratio of the declared weights: for any two
/// weights of a list, each divided by the greatest common divisor of the
/// list, the reduced weight of the first times the second weight equals
/// the reduced weight of the second times the first weight.
pub proof fn lemma_reduced_ratio(weights: Seq<usize>, i: int, j: int)
    requires
        weights_valid(weights),
        0 <= i < weights.len(),
        0 <= j < weights.len(),
    ensures
        (weights[i] as nat / weights_gcd(weights)) * weights[j] == (weights[j] as nat / weights_gcd(
            weights,
        )) * weights[i],
        (weights[i] as nat / weights_gcd(weights)) * weights_gcd(weights) == weights[i],
{
    let g = weights_gcd(weights) as int;
    lemma_weights_gcd_divides(weights, i);
    lemma_weights_gcd_divides(weights, j);
    let a = weights[i] as int / g;
    let b = weights[j] as int / g;
    lemma_fundamental_div_mod(weights[i] as int, g);
    lemma_fundamental_div_mod(weights[j] as int, g);
    assert(weights[i] == g * a);
    assert(weights[j] == g * b);
    assert(a * (g * b) == b * (g * a)) by (nonlinear_arith);
    assert(a * g == g * a) by (nonlinear_arith);
}

/// Two lists of the same numbers, each smallest first, are the same list.
pub proof fn lemma_increasing_unique(a: Seq<usize>, b: Seq<usize>)
    requires
        increasing(a),
        increasing(b),
        forall|x: usize| a.contains(x) <==> b.contains(x),
    ensures
        a == b,
    decreases a.len(),
{
    if a.len() == 0 {
        if b.len() > 0 {
            assert(b.contains(b[0]));
            assert(a.contains(b[0]));
        }
        assert(a =~= b);
    } else {
        assert(a.contains(a.last()));
        assert(b.contains(a.last()));
        assert(b.len() > 0);
        assert(b.contains(b.last()));
        assert(a.contains(b.last()));
        let ia = choose|i: int| 0 <= i < a.len() && a[i] == b.last();
        let ib = choose|i: int| 0 <= i < b.len() && b[i] == a.last();
        assert(a.last() == b.last()) by {
            if ia < a.len() - 1 {
                assert(a[ia] < a[a.len() - 1]);
            }
            if ib < b.len() - 1 {
                assert(b[ib] < b[b.len() - 1]);
            }
        }
        let ra = a.drop_last();
        let rb = b.drop_last();
        assert forall|x: usize| ra.contains(x) <==> rb.contains(x) by {
            if ra.contains(x) {
                let i = choose|i: int| 0 <= i < ra.len() && ra[i] == x;
                assert(a[i] == x);
                assert(a[i] < a[a.len() - 1]);
                assert(a.contains(x));
                assert(b.contains(x));
                let j = choose|j: int| 0 <= j < b.len() && b[j] == x;
                assert(j < b.len() - 1);
                assert(rb[j] == x);
            }
            if rb.contains(x) {
                let i = choose|i: int| 0 <= i < rb.len() && rb[i] == x;
                assert(b[i] == x);
                assert(b[i] < b[b.len() - 1]);
                assert(b.contains(x));
                assert(a.contains(x));
                let j = choose|j: int| 0 <= j < a.len() && a[j] == x;
                assert(j < a.len() - 1);
                assert(ra[j] == x);
            }
        }
        lemma_increasing_unique(ra, rb);
        assert(a =~= ra.push(a.last()));
        assert(b =~= rb.push(b.last()));
    }
}

/// A list of sequences, smallest first, with one more sequence in its
/// place, unless the list holds it.
pub open spec fn with_sequence(order: Seq<usize>, sequence: usize) -> Seq<usize>
    decreases order.len(),
{
    if order.len() == 0 || order.last() < sequence {
        order.push(sequence)
    } else if order.last() == sequence {
        order
    } else {
        with_sequence(order.drop_last(), sequence).push(order.last())
    }
}

/// The sequences of a plan, gathered task by task.
pub open spec fn gathered_sequences(tasks: Seq<GooseTask>, class: StepClass) -> Seq<usize>
    decreases tasks.len(),
{
    if tasks.len() == 0 {
        Seq::empty()
    } else {
        let rest = gathered_sequences(tasks.drop_last(), class);
        let task = tasks.last();
        if in_class(task, class) && task.sequence > 0 {
            with_sequence(rest, task.sequence)
        } else {
            rest
        }
    }
}

/// A list with one more element at its end holds that element and what
/// the list holds.
pub proof fn lemma_pushed_contains(s: Seq<usize>, x: usize, y: usize)
    ensures
        s.push(x).contains(y) <==> (s.contains(y) || y == x),
{
    let longer = s.push(x);
    if longer.contains(y) {
        let i = choose|i: int| 0 <= i < longer.len() && longer[i] == y;
        if i < s.len() {
            assert(s[i] == y);
        }
    }
    if s.contains(y) {
        let i = choose|i: int| 0 <= i < s.len() && s[i] == y;
        assert(longer[i] == y);
    }
    if y == x {
        assert(longer[s.len() as int] == y);
    }
}

/// A sequence put in its place leaves the list smallest first, and the
/// list then holds what it held and that sequence.
pub proof fn lemma_with_sequence(order: Seq<usize>, sequence: usize)
    requires
        increasing(order),
    ensures
        increasing(with_sequence(order, sequence)),
        forall|s: usize|
            with_sequence(order, sequence).contains(s) <==> (order.contains(s) || s == sequence),
    decreases order.len(),
{
    let result = with_sequence(order, sequence);
    if order.len() == 0 || order.last() < sequence {
        assert forall|i: int, j: int| 0 <= i < j < result.len() implies result[i] < result[j] by {
            if j == order.len() && i < order.len() - 1 {
                assert(order[i] < order[order.len() - 1]);
            }
        }
        assert forall|s: usize| result.contains(s) <==> (order.contains(s) || s == sequence) by {
            lemma_pushed_contains(order, sequence, s);
        }
    } else if order.last() == sequence {
        assert(order[order.len() - 1] == sequence);
    } else {
        let rest = order.drop_last();
        let inner = with_sequence(rest, sequence);
        lemma_with_sequence(rest, sequence);
        assert forall|s: usize| rest.contains(s) implies s < order.last() && order.contains(s) by {
            let k = choose|k: int| 0 <= k < rest.len() && rest[k] == s;
            assert(order[k] == s);
            assert(order[k] < order[order.len() - 1]);
        }
        assert forall|i: int, j: int| 0 <= i < j < result.len() implies result[i] < result[j] by {
            if j == inner.len() {
                assert(inner.contains(inner[i]));
                assert(rest.contains(inner[i]) || inner[i] == sequence);
            }
        }
        assert forall|s: usize| result.contains(s) <==> (order.contains(s) || s == sequence) by {
            lemma_pushed_contains(inner, order.last(), s);
            assert(inner.contains(s) <==> (rest.contains(s) || s == sequence));
            if order.contains(s) && s != order.last() {
                let k = choose|k: int| 0 <= k < order.len() && order[k] == s;
                assert(k < rest.len());
                assert(rest[k] == s);
                assert(rest.contains(s));
            }
            if rest.contains(s) {
                assert(order.contains(s));
            }
            if s == order.last() {
                assert(order[order.len() - 1] == s);
                assert(order.contains(s));
            }
        }
    }
}

/// The sequences of a plan, gathered task by task, are its sequences,
/// each once, smallest first.
pub proof fn lemma_gathered_sequences(tasks: Seq<GooseTask>, class: StepClass)
    ensures
        is_sequence_order(tasks, class, gathered_sequences(tasks, class)),
    decreases tasks.len(),
{
    let order = gathered_sequences(tasks, class);
    if tasks.len() == 0 {
        assert forall|s: usize| order.contains(s) <==> has_sequence(tasks, class, s) by {}
    } else {
        let before = tasks.drop_last();
        let rest = gathered_sequences(before, class);
        let task = tasks.last();
        lemma_gathered_sequences(before, class);
        if in_class(task, class) && task.sequence > 0 {
            lemma_with_sequence(rest, task.sequence);
        }
        assert forall|s: usize| order.contains(s) <==> has_sequence(tasks, class, s) by {
            assert(rest.contains(s) <==> has_sequence(before, class, s));
            if has_sequence(before, class, s) {
                let i = choose|i: int|
                    0 <= i < before.len() && in_class(#[trigger] before[i], class)
                        && before[i].sequence == s;
                assert(tasks[i] == before[i]);
            }
            if has_sequence(tasks, class, s) {
                let i = choose|i: int|
                    0 <= i < tasks.len() && in_class(#[trigger] tasks[i], class)
                        && tasks[i].sequence == s;
                if i < before.len() {
                    assert(before[i] == tasks[i]);
                } else {
                    assert(tasks[i] == task);
                }
            }
            if in_class(task, class) && task.sequence == s && s > 0 {
                assert(tasks[tasks.len() - 1] == task);
            }
        }
    }
}

/// Every plan has an order of its sequences: the list that stands behind
/// the plan holds each sequence of the plan once, smallest first, and
/// nothing else.
pub proof fn lemma_sequence_order(tasks: Seq<GooseTask>, class: StepClass)
    ensures
        is_sequence_order(tasks, class, sequence_order(tasks, class)),
{
    lemma_gathered_sequences(tasks, class);
}

/// Where each task stands in a plan: a task with a sequence stands in the
/// bucket of its sequence, which comes before the buckets of all larger
/// sequences and before the bucket of the tasks without a sequence, and
/// the plan has a bucket for no other sequence.
pub proof fn lemma_plan_buckets(tasks: Seq<GooseTask>, g: nat, class: StepClass)
    ensures
        is_sequence_order(tasks, class, sequence_order(tasks, class)),
        spec_plan(tasks, g, class).len() == sequence_order(tasks, class).len() + last_buckets(
            tasks,
            g,
            class,
        ).len(),
        forall|i: int|
            0 <= i < sequence_order(tasks, class).len() ==> #[trigger] spec_plan(tasks, g, class)[i]
                == expanded(tasks, g, class, sequence_order(tasks, class)[i]),
        last_buckets(tasks, g, class).len() == 1 ==> spec_plan(tasks, g, class).last() == expanded(
            tasks,
            g,
            class,
            0,
        ),
        forall|k: int|
            0 <= k < tasks.len() && in_class(#[trigger] tasks[k], class) && tasks[k].sequence > 0
                ==> sequence_order(tasks, class).contains(tasks[k].sequence),
{
    lemma_sequence_order(tasks, class);
    let order = sequence_order(tasks, class);
    assert forall|k: int|
        0 <= k < tasks.len() && in_class(#[trigger] tasks[k], class) && tasks[k].sequence
            > 0 implies order.contains(tasks[k].sequence) by {
        assert(has_sequence(tasks, class, tasks[k].sequence));
    }
}

/// The greatest common divisor of the weights of the tasks of a task set.
pub fn tasks_gcd(tasks: &Vec<GooseTask>) -> (g: usize)
    ensures
        g == weights_gcd(task_weights(tasks@)),
{
    let mut u: usize = 0;
    let mut i: usize = 0;
    while i < tasks.len()
        invariant
            i <= tasks.len(),
            u == weights_gcd(task_weights(tasks@.take(i as int))),
        decreases tasks.len() - i,
    {
        proof {
            let now = task_weights(tasks@.take(i + 1));
            assert(now.drop_last() =~= task_weights(tasks@.take(i as int)));
            assert(now.last() == tasks@[i as int].weight);
        }
        u = gcd(u, tasks[i].weight);
        i = i + 1;
    }
    assert(tasks@.take(tasks.len() as int) =~= tasks@);
    u
}

/// The greatest common divisor of the weights of the task sets of a load
/// test.
pub fn task_sets_gcd(task_sets: &Vec<GooseTaskSet>) -> (g: usize)
    ensures
        g == weights_gcd(task_set_weights(task_sets@)),
{
    let mut u: usize = 0;
    let mut i: usize = 0;
    while i < task_sets.len()
        invariant
            i <= task_sets.len(),
            u == weights_gcd(task_set_weights(task_sets@.take(i as int))),
        decreases task_sets.len() - i,
    {
        proof {
            let now = task_set_weights(task_sets@.take(i + 1));
            assert(now.drop_last() =~= task_set_weights(task_sets@.take(i as int)));
            assert(now.last() == task_sets@[i as int].weight);
        }
        u = gcd(u, task_sets[i].weight);
        i = i + 1;
    }
    assert(task_sets@.take(task_sets.len() as int) =~= task_sets@);
    u
}

/// Whether a task belongs to a plan.
pub fn task_in_class(task: &GooseTask, class: StepClass) -> (r: bool)
    ensures
        r == in_class(*task, class),
{
    match class {
        StepClass::OnStart => task.on_start,
        StepClass::OnStop => task.on_stop,
        StepClass::Main => !task.on_start && !task.on_stop,
    }
}

/// Appends `n` copies of `x`.
pub fn push_repeated(bucket: &mut Vec<usize>, x: usize, n: usize)
    ensures
        final(bucket)@ == old(bucket)@ + repeated(x, n as nat),
{
    let mut i: usize = 0;
    assert(bucket@ =~= old(bucket)@ + repeated(x, 0));
    while i < n
        invariant
            i <= n,
            bucket@ == old(bucket)@ + repeated(x, i as nat),
        decreases n - i,
    {
        bucket.push(x);
        i = i + 1;
        assert(bucket@ =~= old(bucket)@ + repeated(x, i as nat));
    }
}

/// One bucket of a plan.
pub fn expand_bucket(tasks: &Vec<GooseTask>, g: usize, class: StepClass, sequence: usize) -> (bucket:
    Vec<usize>)
    requires
        g > 0,
    ensures
        bucket@ == expanded(tasks@, g as nat, class, sequence),
{
    let mut bucket: Vec<usize> = Vec::new();
    let mut i: usize = 0;
    while i < tasks.len()
        invariant
            g > 0,
            i <= tasks.len(),
            bucket@ == expanded(tasks@.take(i as int), g as nat, class, sequence),
        decreases tasks.len() - i,
    {
        proof {
            assert(tasks@.take(i + 1).drop_last() =~= tasks@.take(i as int));
            assert(tasks@.take(i + 1).last() == tasks@[i as int]);
        }
        let task = &tasks[i];
        if task_in_class(task, class) && task.sequence == sequence {
            push_repeated(&mut bucket, task.tasks_index, task.weight / g);
        } else {
            assert(bucket@ + Seq::<usize>::empty() =~= bucket@);
        }
        i = i + 1;
    }
    assert(tasks@.take(tasks.len() as int) =~= tasks@);
    bucket
}

/// The smallest sequence of a plan that is larger than `after`.
pub fn next_sequence(tasks: &Vec<GooseTask>, class: StepClass, after: usize) -> (r: Option<usize>)
    ensures
        match r {
            Some(s) => s > after && has_sequence(tasks@, class, s) && forall|t: usize|
                t > after && has_sequence(tasks@, class, t) ==> s <= t,
            None => forall|t: usize| t > after ==> !has_sequence(tasks@, class, t),
        },
{
    let mut best: Option<usize> = None;
    let mut i: usize = 0;
    while i < tasks.len()
        invariant
            i <= tasks.len(),
            match best {
                Some(s) => s > after && has_sequence(tasks@, class, s) && forall|k: int|
                    0 <= k < i && in_class(#[trigger] tasks@[k], class) && tasks@[k].sequence
                        > after ==> s <= tasks@[k].sequence,
                None => forall|k: int|
                    0 <= k < i && in_class(#[trigger] tasks@[k], class) ==> tasks@[k].sequence
                        <= after,
            },
        decreases tasks.len() - i,
    {
        let task = &tasks[i];
        if task_in_class(task, class) && task.sequence > after {
            let better = match best {
                Some(s) => task.sequence < s,
                None => true,
            };
            if better {
                best = Some(task.sequence);
            }
        }
        i = i + 1;
    }
    best
}

/// One of the three plans of a task set.
pub fn class_plan(tasks: &Vec<GooseTask>, g: usize, class: StepClass) -> (plan: Vec<Vec<usize>>)
    requires
        g > 0,
    ensures
        buckets(plan) == spec_plan(tasks@, g as nat, class),
{
    let mut plan: Vec<Vec<usize>> = Vec::new();
    let ghost mut order: Seq<usize> = Seq::empty();
    let mut after: usize = 0;
    let mut more = true;
    while more
        invariant
            g > 0,
            increasing(order),
            forall|s: usize| order.contains(s) <==> (has_sequence(tasks@, class, s) && s <= after),
            more || forall|s: usize| has_sequence(tasks@, class, s) ==> s <= after,
            plan@.len() == order.len(),
            buckets(plan) == Seq::new(
                order.len(),
                |i: int| expanded(tasks@, g as nat, class, order[i]),
            ),
        decreases usize::MAX - after, if more { 1int } else { 0int },
    {
        match next_sequence(tasks, class, after) {
            Some(s) => {
                let bucket = expand_bucket(tasks, g, class, s);
                let ghost before = order;
                let ghost old_plan = buckets(plan);
                plan.push(bucket);
                proof {
                    order = order.push(s);
                    assert forall|i: int, j: int| 0 <= i < j < order.len() implies order[i]
                        < order[j] by {
                        if j == order.len() - 1 {
                            assert(before.contains(before[i]));
                        }
                    }
                    assert forall|x: usize| order.contains(x) <==> (has_sequence(tasks@, class, x)
                        && x <= s) by {
                        if order.contains(x) {
                            let i = choose|i: int| 0 <= i < order.len() && order[i] == x;
                            if i < before.len() {
                                assert(before.contains(before[i]));
                            }
                        }
                        if has_sequence(tasks@, class, x) && x <= s {
                            if x == s {
                                assert(order[order.len() - 1] == x);
                            } else {
                                assert(x <= after);
                                assert(before.contains(x));
                                let i = choose|i: int| 0 <= i < before.len() && before[i] == x;
                                assert(order[i] == x);
                            }
                        }
                    }
                    assert(buckets(plan) =~= Seq::new(
                        order.len(),
                        |i: int| expanded(tasks@, g as nat, class, order[i]),
                    )) by {
                        assert forall|i: int| 0 <= i < order.len() implies buckets(plan)[i]
                            == expanded(tasks@, g as nat, class, order[i]) by {
                            if i < before.len() {
                                assert(buckets(plan)[i] == old_plan[i]);
                                assert(old_plan[i] == expanded(
                                    tasks@,
                                    g as nat,
                                    class,
                                    before[i],
                                ));
                            }
                        }
                    }
                }
                after = s;
            },
            None => {
                more = false;
            },
        }
    }
    proof {
        assert(is_sequence_order(tasks@, class, order));
        lemma_increasing_unique(order, sequence_order(tasks@, class));
    }
    let last = expand_bucket(tasks, g, class, 0);
    let ghost sequenced = buckets(plan);
    if last.len() > 0 {
        plan.push(last);
        assert(buckets(plan) =~= sequenced + seq![last@]);
    } else {
        match class {
            StepClass::Main => {
                assert(sequenced + Seq::<Seq<usize>>::empty() =~= sequenced);
            },
            _ => {
                plan.push(last);
                assert(buckets(plan) =~= sequenced + seq![last@]);
            },
        }
    }
    plan
}

/// Returns the three plans of a task set: the tasks that run when a user
/// starts, the tasks that it repeats, and the tasks that run when it
/// stops. Each plan is a list of buckets, one for each sequence by
/// ascending sequence and a last one for the tasks without a sequence; in
/// a bucket each task stands as often as its weight, divided by the
/// greatest common divisor of the weights of all tasks of the task set,
/// says.
pub fn weight_tasks(task_set: &GooseTaskSet) -> (plans: (
    Vec<Vec<usize>>,
    Vec<Vec<usize>>,
    Vec<Vec<usize>>,
))
    requires
        weights_valid(task_weights(task_set.tasks@)),
    ensures
        buckets(plans.0) == spec_plan(
            task_set.tasks@,
            weights_gcd(task_weights(task_set.tasks@)),
            StepClass::OnStart,
        ),
        buckets(plans.1) == spec_plan(
            task_set.tasks@,
            weights_gcd(task_weights(task_set.tasks@)),
            StepClass::Main,
        ),
        buckets(plans.2) == spec_plan(
            task_set.tasks@,
            weights_gcd(task_weights(task_set.tasks@)),
            StepClass::OnStop,
        ),
{
    let u = tasks_gcd(&task_set.tasks);
    // Without a task there is nothing to divide; any divisor will do.
    let g: usize = if task_set.tasks.len() == 0 {
        1
    } else {
        u
    };
    proof {
        let weights = task_weights(task_set.tasks@);
        if task_set.tasks.len() > 0 {
            lemma_weights_gcd_divides(weights, 0);
        } else {
            lemma_plan_of_nothing(u as nat, 1, StepClass::OnStart);
            lemma_plan_of_nothing(u as nat, 1, StepClass::Main);
            lemma_plan_of_nothing(u as nat, 1, StepClass::OnStop);
            assert(task_set.tasks@ =~= Seq::<GooseTask>::empty());
        }
    }
    let weighted_on_start_tasks = class_plan(&task_set.tasks, g, StepClass::OnStart);
    let weighted_tasks = class_plan(&task_set.tasks, g, StepClass::Main);
    let weighted_on_stop_tasks = class_plan(&task_set.tasks, g, StepClass::OnStop);
    (weighted_on_start_tasks, weighted_tasks, weighted_on_stop_tasks)
}

/// The plan of no tasks does not depend on the divisor.
pub proof fn lemma_plan_of_nothing(g: nat, h: nat, class: StepClass)
    ensures
        spec_plan(Seq::<GooseTask>::empty(), g, class) == spec_plan(
            Seq::<GooseTask>::empty(),
            h,
            class,
        ),
{
    let tasks = Seq::<GooseTask>::empty();
    let order = sequence_order(tasks, class);
    assert(Seq::new(order.len(), |i: int| expanded(tasks, g, class, order[i])) =~= Seq::new(
        order.len(),
        |i: int| expanded(tasks, h, class, order[i]),
    ));
}

/// How often `x` stands in a list.
pub open spec fn occurrences(s: Seq<usize>, x: usize) -> nat {
    s.to_multiset().count(x)
}

/// `n` copies of `x` hold `x` exactly `n` times, and nothing else.
pub proof fn lemma_repeated_occurrences(x: usize, n: nat, y: usize)
    ensures
        occurrences(repeated(x, n), y) == if x == y {
            n
        } else {
            0
        },
    decreases n,
{
    broadcast use vstd::seq_lib::group_to_multiset_ensures;

    if n == 0 {
        assert(repeated(x, 0) =~= Seq::<usize>::empty());
    } else {
        lemma_repeated_occurrences(x, (n - 1) as nat, y);
        assert(repeated(x, n) =~= repeated(x, (n - 1) as nat).push(x));
    }
}

/// Each task stands in its place: the index it carries is its position.
pub open spec fn indices_in_place(tasks: Seq<GooseTask>) -> bool {
    forall|k: int| 0 <= k < tasks.len() ==> (#[trigger] tasks[k]).tasks_index == k
}

/// In a bucket each task of the bucket stands exactly as often as its
/// weight divided by the divisor says, and no other index occurs.
pub proof fn lemma_expanded_occurrences(
    tasks: Seq<GooseTask>,
    g: nat,
    class: StepClass,
    sequence: usize,
    x: usize,
)
    requires
        indices_in_place(tasks),
    ensures
        occurrences(expanded(tasks, g, class, sequence), x) == if x < tasks.len() && in_class(
            tasks[x as int],
            class,
        ) && tasks[x as int].sequence == sequence {
            tasks[x as int].weight as nat / g
        } else {
            0
        },
    decreases tasks.len(),
{
    broadcast use vstd::seq_lib::group_to_multiset_ensures;

    if tasks.len() == 0 {
    } else {
        let rest = tasks.drop_last();
        let task = tasks.last();
        assert forall|k: int| 0 <= k < rest.len() implies (#[trigger] rest[k]).tasks_index == k by {
            assert(rest[k] == tasks[k]);
        }
        lemma_expanded_occurrences(rest, g, class, sequence, x);
        let tail = if in_class(task, class) && task.sequence == sequence {
            repeated(task.tasks_index, task.weight as nat / g)
        } else {
            Seq::empty()
        };
        vstd::seq_lib::lemma_multiset_commutative(expanded(rest, g, class, sequence), tail);
        if in_class(task, class) && task.sequence == sequence {
            lemma_repeated_occurrences(task.tasks_index, task.weight as nat / g, x);
        }
        assert(task.tasks_index == tasks.len() - 1);
        if x < rest.len() {
            assert(rest[x as int] == tasks[x as int]);
        }
    }
}

/// In a bucket of a plan the tasks stand in the ratio of their declared
/// weights: for two tasks `i` and `j` of the bucket, the number of times
/// `i` occurs times the weight of `j` equals the number of times `j`
/// occurs times the weight of `i`.
pub proof fn lemma_bucket_ratio(
    tasks: Seq<GooseTask>,
    class: StepClass,
    sequence: usize,
    i: usize,
    j: usize,
)
    requires
        indices_in_place(tasks),
        weights_valid(task_weights(tasks)),
        i < tasks.len(),
        j < tasks.len(),
        in_class(tasks[i as int], class) && tasks[i as int].sequence == sequence,
        in_class(tasks[j as int], class) && tasks[j as int].sequence == sequence,
    ensures
        occurrences(expanded(tasks, weights_gcd(task_weights(tasks)), class, sequence), i)
            * tasks[j as int].weight == occurrences(
            expanded(tasks, weights_gcd(task_weights(tasks)), class, sequence),
            j,
        ) * tasks[i as int].weight,
{
    let g = weights_gcd(task_weights(tasks));
    lemma_expanded_occurrences(tasks, g, class, sequence, i);
    lemma_expanded_occurrences(tasks, g, class, sequence, j);
    lemma_reduced_ratio(task_weights(tasks), i as int, j as int);
}

/// In the list of weighted task sets each task set stands exactly as
/// often as its weight divided by the divisor says.
pub proof fn lemma_weighted_sets_occurrences(weights: Seq<usize>, g: nat, x: usize)
    requires
        weights.len() <= usize::MAX,
    ensures
        occurrences(weighted_sets(weights, g), x) == if x < weights.len() {
            weights[x as int] as nat / g
        } else {
            0
        },
    decreases weights.len(),
{
    broadcast use vstd::seq_lib::group_to_multiset_ensures;

    if weights.len() > 0 {
        let rest = weights.drop_last();
        lemma_weighted_sets_occurrences(rest, g, x);
        let tail = repeated((weights.len() - 1) as usize, weights.last() as nat / g);
        vstd::seq_lib::lemma_multiset_commutative(weighted_sets(rest, g), tail);
        lemma_repeated_occurrences((weights.len() - 1) as usize, weights.last() as nat / g, x);
        if x < rest.len() {
            assert(rest[x as int] == weights[x as int]);
        }
    }
}

/// In the list of weighted task sets the task sets stand in the ratio of
/// their declared weights.
pub proof fn lemma_weighted_sets_ratio(weights: Seq<usize>, i: usize, j: usize)
    requires
        weights_valid(weights),
        weights.len() <= usize::MAX,
        i < weights.len(),
        j < weights.len(),
    ensures
        occurrences(weighted_sets(weights, weights_gcd(weights)), i) * weights[j as int]
            == occurrences(weighted_sets(weights, weights_gcd(weights)), j) * weights[i as int],
{
    let g = weights_gcd(weights);
    lemma_weighted_sets_occurrences(weights, g, i);
    lemma_weighted_sets_occurrences(weights, g, j);
    lemma_reduced_ratio(weights, i as int, j as int);
}

/// Every entry of the list of weighted task sets is the position of a
/// task set, and with weights of at least 1 the list is not empty unless
/// there is no task set.
pub proof fn lemma_weighted_sets_entries(weights: Seq<usize>, g: nat)
    requires
        weights.len() <= usize::MAX,
        g > 0,
    ensures
        forall|k: int|
            0 <= k < weighted_sets(weights, g).len() ==> (#[trigger] weighted_sets(weights, g)[k])
                < weights.len(),
        weights.len() > 0 && weights.last() >= g ==> weighted_sets(weights, g).len() > 0,
    decreases weights.len(),
{
    if weights.len() > 0 {
        let rest = weights.drop_last();
        lemma_weighted_sets_entries(rest, g);
        let all = weighted_sets(weights, g);
        assert forall|k: int| 0 <= k < all.len() implies (#[trigger] all[k]) < weights.len() by {
            let head = weighted_sets(rest, g);
            let tail = repeated((weights.len() - 1) as usize, weights.last() as nat / g);
            assert(all == head + tail);
            if k < head.len() {
                assert(all[k] == head[k]);
                assert(head[k] < rest.len());
            } else {
                assert(all[k] == tail[k - head.len()]);
            }
        }
        if weights.last() >= g {
            assert(weights.last() as nat / g >= 1) by (nonlinear_arith)
                requires
                    g > 0,
                    weights.last() >= g,
            ;
        }
    }
}

/// The list of weighted task sets: each task set stands as often as its
/// weight divided by the divisor says, in the order of the task sets.
pub fn weight_task_sets(task_sets: &Vec<GooseTaskSet>, g: usize) -> (weighted: Vec<usize>)
    requires
        g > 0,
    ensures
        weighted@ == weighted_sets(task_set_weights(task_sets@), g as nat),
{
    let mut weighted: Vec<usize> = Vec::new();
    let mut i: usize = 0;
    while i < task_sets.len()
        invariant
            g > 0,
            i <= task_sets.len(),
            weighted@ == weighted_sets(task_set_weights(task_sets@.take(i as int)), g as nat),
        decreases task_sets.len() - i,
    {
        proof {
            let now = task_set_weights(task_sets@.take(i + 1));
            assert(now.drop_last() =~= task_set_weights(task_sets@.take(i as int)));
            assert(now.last() == task_sets@[i as int].weight);
        }
        push_repeated(&mut weighted, i, task_sets[i].weight / g);
        i = i + 1;
    }
    assert(task_sets@.take(task_sets.len() as int) =~= task_sets@);
    weighted
}

} // verus!
