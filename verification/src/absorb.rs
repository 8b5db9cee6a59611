//! What a Manager does with the metrics that its Workers send: the
//! summaries of each request and each task are merged into its own. The
//! metrics of all requests, seen as a map from the method and the name of
//! a request to its summary, merge like their summaries: in any order and
//! in any grouping.

use crate::aggregate::spec_merge_codes;
use crate::goose::{GooseMethod, GooseRequest};
use crate::metrics::{GooseMetrics, GooseTaskMetric};
use crate::record::{find_by_name, request_position, requests_distinct};
use crate::summary::{
    empty_summary, lemma_merge_associative, lemma_merge_commutative, lemma_merge_empty,
    spec_merge, Summary,
};
use vstd::prelude::*;

verus! {

/// What is kept for the requests of one method and one name.
pub struct RequestTotals {
    /// The summary of the requests.
    pub summary: Summary,
    /// How often each status code was returned.
    pub codes: Map<u16, usize>,
}

/// The totals of no request.
pub open spec fn no_totals() -> RequestTotals {
    RequestTotals { summary: empty_summary(), codes: Map::empty() }
}

/// The totals of two processes for the same requests, merged.
pub open spec fn merge_totals(a: RequestTotals, b: RequestTotals) -> RequestTotals {
    RequestTotals {
        summary: spec_merge(a.summary, b.summary),
        codes: spec_merge_codes(a.codes, b.codes),
    }
}

/// The request metrics of a process: for each method and name, the
/// totals of its requests.
pub type Aggregate = Map<(GooseMethod, Seq<char>), RequestTotals>;

/// The totals that an aggregate holds for a method and a name; those of
/// no request where it holds none.
pub open spec fn totals_in(a: Aggregate, key: (GooseMethod, Seq<char>)) -> RequestTotals {
    if a.contains_key(key) {
        a[key]
    } else {
        no_totals()
    }
}

/// Two aggregates merged: every method and name of either, with the
/// totals of both.
pub open spec fn merge_aggregates(a: Aggregate, b: Aggregate) -> Aggregate {
    Map::new(
        |key: (GooseMethod, Seq<char>)| a.contains_key(key) || b.contains_key(key),
        |key: (GooseMethod, Seq<char>)| merge_totals(totals_in(a, key), totals_in(b, key)),
    )
}

/// The totals of a summary of requests.
pub open spec fn totals_of(request: GooseRequest) -> RequestTotals {
    RequestTotals { summary: request.summary(), codes: request.status_code_counts@ }
}

/// The aggregate that a list of summaries stands for.
pub open spec fn aggregate_of(requests: Seq<GooseRequest>) -> Aggregate {
    Map::new(
        |key: (GooseMethod, Seq<char>)|
            request_position(requests, key.0, key.1, 0) < requests.len(),
        |key: (GooseMethod, Seq<char>)|
            totals_of(requests[request_position(requests, key.0, key.1, 0)]),
    )
}

/// Merging totals does not depend on their order or their grouping, and
/// the totals of no request change nothing.
pub proof fn lemma_totals_laws(a: RequestTotals, b: RequestTotals, c: RequestTotals)
    ensures
        merge_totals(no_totals(), a) == a,
        merge_totals(a, no_totals()) == a,
        merge_totals(a, b) == merge_totals(b, a),
        merge_totals(merge_totals(a, b), c) == merge_totals(a, merge_totals(b, c)),
{
    lemma_merge_empty(a.summary);
    lemma_merge_commutative(a.summary, b.summary);
    lemma_merge_associative(a.summary, b.summary, c.summary);
    assert(spec_merge_codes(Map::empty(), a.codes) =~= a.codes);
    assert(spec_merge_codes(a.codes, Map::empty()) =~= a.codes);
    assert(spec_merge_codes(a.codes, b.codes) =~= spec_merge_codes(b.codes, a.codes));
    assert(spec_merge_codes(spec_merge_codes(a.codes, b.codes), c.codes) =~= spec_merge_codes(
        a.codes,
        spec_merge_codes(b.codes, c.codes),
    ));
}

/// Merging the empty aggregate with an aggregate gives that aggregate.
pub proof fn lemma_aggregate_merge_empty(a: Aggregate)
    ensures
        merge_aggregates(Map::empty(), a) == a,
        merge_aggregates(a, Map::empty()) == a,
{
    assert forall|key: (GooseMethod, Seq<char>)| a.contains_key(key) implies merge_totals(
        no_totals(),
        a[key],
    ) == a[key] && merge_totals(a[key], no_totals()) == a[key] by {
        lemma_totals_laws(a[key], no_totals(), no_totals());
    }
    assert(merge_aggregates(Map::empty(), a) =~= a);
    assert(merge_aggregates(a, Map::empty()) =~= a);
}

/// Merging aggregates does not depend on their order.
pub proof fn lemma_aggregate_merge_commutative(a: Aggregate, b: Aggregate)
    ensures
        merge_aggregates(a, b) == merge_aggregates(b, a),
{
    assert forall|key: (GooseMethod, Seq<char>)|
        merge_totals(totals_in(a, key), totals_in(b, key)) == merge_totals(
            totals_in(b, key),
            totals_in(a, key),
        ) by {
        lemma_totals_laws(totals_in(a, key), totals_in(b, key), no_totals());
    }
    assert(merge_aggregates(a, b) =~= merge_aggregates(b, a));
}

/// Merging three aggregates does not depend on which two are merged
/// first.
pub proof fn lemma_aggregate_merge_associative(a: Aggregate, b: Aggregate, c: Aggregate)
    ensures
        merge_aggregates(merge_aggregates(a, b), c) == merge_aggregates(a, merge_aggregates(b, c)),
{
    assert forall|key: (GooseMethod, Seq<char>)|
        merge_totals(merge_totals(totals_in(a, key), totals_in(b, key)), totals_in(c, key))
            == merge_totals(totals_in(a, key), merge_totals(totals_in(b, key), totals_in(c, key))) by {
        lemma_totals_laws(totals_in(a, key), totals_in(b, key), totals_in(c, key));
    }
    assert forall|key: (GooseMethod, Seq<char>)|
        totals_in(merge_aggregates(a, b), key) == merge_totals(
            totals_in(a, key),
            totals_in(b, key),
        ) by {
        lemma_totals_laws(no_totals(), no_totals(), no_totals());
    }
    assert forall|key: (GooseMethod, Seq<char>)|
        totals_in(merge_aggregates(b, c), key) == merge_totals(
            totals_in(b, key),
            totals_in(c, key),
        ) by {
        lemma_totals_laws(no_totals(), no_totals(), no_totals());
    }
    assert(merge_aggregates(merge_aggregates(a, b), c) =~= merge_aggregates(
        a,
        merge_aggregates(b, c),
    ));
}

/// The totals that a list of summaries holds for a method and a name.
pub open spec fn totals_at(
    requests: Seq<GooseRequest>,
    key: (GooseMethod, Seq<char>),
) -> RequestTotals {
    totals_in(aggregate_of(requests), key)
}

/// Whether a list of summaries has one for a method and a name.
pub open spec fn has_request(requests: Seq<GooseRequest>, key: (GooseMethod, Seq<char>)) -> bool {
    request_position(requests, key.0, key.1, 0) < requests.len()
}

/// The method and the name of a summary.
pub open spec fn key_of(request: GooseRequest) -> (GooseMethod, Seq<char>) {
    (request.method, request.path@)
}

/// The position of a method and a name in a list is the position of the
/// first summary with them, or the length of the list.
pub proof fn lemma_position(requests: Seq<GooseRequest>, key: (GooseMethod, Seq<char>), from: int)
    requires
        0 <= from <= requests.len(),
    ensures
        from <= request_position(requests, key.0, key.1, from) <= requests.len(),
        request_position(requests, key.0, key.1, from) < requests.len() ==> key_of(
            requests[request_position(requests, key.0, key.1, from)],
        ) == key,
        forall|i: int|
            from <= i < request_position(requests, key.0, key.1, from) ==> key_of(requests[i])
                != key,
    decreases requests.len() - from,
{
    if from < requests.len() && key_of(requests[from]) != key {
        lemma_position(requests, key, from + 1);
    }
}

/// The position of a method and a name is where the first summary with
/// them stands.
pub proof fn lemma_position_is(
    requests: Seq<GooseRequest>,
    key: (GooseMethod, Seq<char>),
    from: int,
    at: int,
)
    requires
        0 <= from <= at <= requests.len(),
        forall|i: int| from <= i < at ==> key_of(requests[i]) != key,
        at < requests.len() ==> key_of(requests[at]) == key,
    ensures
        request_position(requests, key.0, key.1, from) == at,
    decreases at - from,
{
    if from < at {
        lemma_position_is(requests, key, from + 1, at);
    }
}

/// Two lists of summaries with the same methods and names at the same
/// places have the same positions.
pub proof fn lemma_position_of_keys(
    a: Seq<GooseRequest>,
    b: Seq<GooseRequest>,
    key: (GooseMethod, Seq<char>),
)
    requires
        a.len() == b.len(),
        forall|i: int| 0 <= i < a.len() ==> key_of(a[i]) == key_of(b[i]),
    ensures
        request_position(a, key.0, key.1, 0) == request_position(b, key.0, key.1, 0),
{
    lemma_position(a, key, 0);
    let at = request_position(a, key.0, key.1, 0);
    assert forall|i: int| 0 <= i < at implies key_of(b[i]) != key by {
        assert(key_of(a[i]) != key);
    }
    lemma_position_is(b, key, 0, at);
}

/// The position of a method and a name in a list with one more summary at
/// its end.
pub proof fn lemma_position_pushed(
    requests: Seq<GooseRequest>,
    added: GooseRequest,
    key: (GooseMethod, Seq<char>),
)
    ensures
        request_position(requests.push(added), key.0, key.1, 0) == if request_position(
            requests,
            key.0,
            key.1,
            0,
        ) < requests.len() {
            request_position(requests, key.0, key.1, 0)
        } else if key_of(added) == key {
            requests.len() as int
        } else {
            requests.len() as int + 1
        },
{
    lemma_position(requests, key, 0);
    let at = request_position(requests, key.0, key.1, 0);
    let longer = requests.push(added);
    assert forall|i: int| 0 <= i < at implies key_of(longer[i]) != key by {
        assert(longer[i] == requests[i]);
    }
    if at < requests.len() {
        assert(longer[at] == requests[at]);
        lemma_position_is(longer, key, 0, at);
    } else if key_of(added) == key {
        lemma_position_is(longer, key, 0, requests.len() as int);
    } else {
        lemma_position_is(longer, key, 0, requests.len() as int + 1);
    }
}

/// `after` is `before` with the summary `other` merged into the summary at
/// `position`.
pub open spec fn merged_at(
    before: Seq<GooseRequest>,
    after: Seq<GooseRequest>,
    position: int,
    other: GooseRequest,
) -> bool {
    &&& after.len() == before.len()
    &&& forall|i: int| 0 <= i < before.len() && i != position ==> after[i] == before[i]
    &&& key_of(after[position]) == key_of(before[position])
    &&& totals_of(after[position]) == merge_totals(totals_of(before[position]), totals_of(other))
}

/// The metrics `current` hold what `start` and the summaries `seen` hold
/// together.
pub open spec fn absorbed(
    start: Seq<GooseRequest>,
    seen: Seq<GooseRequest>,
    current: Seq<GooseRequest>,
) -> bool {
    &&& requests_distinct(current)
    &&& forall|key: (GooseMethod, Seq<char>)|
        #[trigger] has_request(current, key) <==> (has_request(start, key) || has_request(
            seen,
            key,
        ))
    &&& forall|key: (GooseMethod, Seq<char>)|
        #[trigger] totals_at(current, key) == merge_totals(
            totals_at(start, key),
            totals_at(seen, key),
        )
}

/// `after` is `before` with the summary `incoming` taken in: merged into
/// the summary of its method and name, or added at the end where there is
/// none.
pub open spec fn taken_in(
    before: Seq<GooseRequest>,
    after: Seq<GooseRequest>,
    incoming: GooseRequest,
) -> bool {
    let position = request_position(before, incoming.method, incoming.path@, 0);
    if position < before.len() {
        merged_at(before, after, position, incoming)
    } else {
        &&& after.len() == before.len() + 1
        &&& forall|i: int| 0 <= i < before.len() ==> after[i] == before[i]
        &&& key_of(after[before.len() as int]) == key_of(incoming)
        &&& totals_of(after[before.len() as int]) == totals_of(incoming)
    }
}

/// Metrics that hold what `start` and `seen` hold together, with one more
/// summary taken in, hold what `start` and `seen` with that summary hold
/// together.
pub proof fn lemma_absorb_step(
    start: Seq<GooseRequest>,
    seen: Seq<GooseRequest>,
    incoming: GooseRequest,
    before: Seq<GooseRequest>,
    after: Seq<GooseRequest>,
)
    requires
        absorbed(start, seen, before),
        !has_request(seen, key_of(incoming)),
        taken_in(before, after, incoming),
    ensures
        absorbed(start, seen.push(incoming), after),
{
    let now = seen.push(incoming);
    let incoming_key = key_of(incoming);
    let position = request_position(before, incoming.method, incoming.path@, 0);
    lemma_position(before, incoming_key, 0);
    assert forall|key: (GooseMethod, Seq<char>)|
        step_holds(start, now, after, key) by {
        lemma_position_pushed(seen, incoming, key);
        lemma_position(seen, key, 0);
        lemma_position(before, key, 0);
        assert(has_request(before, key) <==> (has_request(start, key) || has_request(seen, key)));
        assert(totals_at(before, key) == merge_totals(
            totals_at(start, key),
            totals_at(seen, key),
        ));
        lemma_totals_laws(totals_at(start, key), totals_of(incoming), no_totals());
        if position < before.len() {
            assert forall|i: int| 0 <= i < before.len() implies key_of(before[i]) == key_of(
                after[i],
            ) by {
                if i != position {
                    assert(after[i] == before[i]);
                }
            }
            lemma_position_of_keys(before, after, key);
            let at = request_position(before, key.0, key.1, 0);
            if key == incoming_key {
                assert(at == position);
                assert(totals_at(seen, key) == no_totals());
                assert(totals_at(now, key) == totals_of(incoming));
            } else {
                if at < before.len() {
                    assert(at != position);
                    assert(after[at] == before[at]);
                }
                assert(totals_at(now, key) == totals_at(seen, key));
            }
        } else {
            let added = after[before.len() as int];
            assert(after =~= before.push(added));
            lemma_position_pushed(before, added, key);
            let at = request_position(before, key.0, key.1, 0);
            if key == incoming_key {
                assert(!has_request(before, key));
                assert(!has_request(start, key));
                assert(totals_at(start, key) == no_totals());
                assert(totals_at(now, key) == totals_of(incoming));
                assert(totals_at(after, key) == totals_of(added));
                lemma_totals_laws(totals_of(incoming), no_totals(), no_totals());
            } else {
                if at < before.len() {
                    assert(after[at] == before[at]);
                }
                assert(totals_at(now, key) == totals_at(seen, key));
            }
        }
    }
    assert forall|a: int, b: int| 0 <= a < b < after.len() implies !(after[a].method
        == after[b].method && after[a].path@ == after[b].path@) by {
        if position < before.len() {
            if a != position {
                assert(after[a] == before[a]);
            }
            if b != position {
                assert(after[b] == before[b]);
            }
            assert(key_of(after[a]) == key_of(before[a]));
            assert(key_of(after[b]) == key_of(before[b]));
        } else if b == before.len() {
            assert(after[a] == before[a]);
            assert(key_of(before[a]) != incoming_key);
        } else {
            assert(after[a] == before[a]);
            assert(after[b] == before[b]);
        }
    }
    assert forall|key: (GooseMethod, Seq<char>)|
        #[trigger] has_request(after, key) <==> (has_request(start, key) || has_request(
            now,
            key,
        )) by {
        assert(step_holds(start, now, after, key));
    }
    assert forall|key: (GooseMethod, Seq<char>)|
        #[trigger] totals_at(after, key) == merge_totals(
            totals_at(start, key),
            totals_at(now, key),
        ) by {
        assert(step_holds(start, now, after, key));
    }
}

/// The metrics `current` hold for one method and name what `start` and
/// `seen` hold together.
pub open spec fn step_holds(
    start: Seq<GooseRequest>,
    seen: Seq<GooseRequest>,
    current: Seq<GooseRequest>,
    key: (GooseMethod, Seq<char>),
) -> bool {
    &&& has_request(current, key) <==> (has_request(start, key) || has_request(seen, key))
    &&& totals_at(current, key) == merge_totals(totals_at(start, key), totals_at(seen, key))
}

/// Metrics hold what they and no summaries hold together.
pub proof fn lemma_absorb_start(start: Seq<GooseRequest>)
    requires
        requests_distinct(start),
    ensures
        absorbed(start, Seq::empty(), start),
{
    assert forall|key: (GooseMethod, Seq<char>)|
        #[trigger] totals_at(start, key) == merge_totals(
            totals_at(start, key),
            totals_at(Seq::empty(), key),
        ) by {
        lemma_totals_laws(totals_at(start, key), no_totals(), no_totals());
    }
}

/// Metrics that hold what two lists of summaries hold together stand for
/// the merged aggregate.
pub proof fn lemma_absorb_end(
    start: Seq<GooseRequest>,
    other: Seq<GooseRequest>,
    end: Seq<GooseRequest>,
)
    requires
        absorbed(start, other, end),
    ensures
        aggregate_of(end) == merge_aggregates(aggregate_of(start), aggregate_of(other)),
{
    assert forall|key: (GooseMethod, Seq<char>)|
        aggregate_of(end).contains_key(key) <==> merge_aggregates(
            aggregate_of(start),
            aggregate_of(other),
        ).contains_key(key) by {
        assert(has_request(end, key) <==> (has_request(start, key) || has_request(other, key)));
    }
    assert forall|key: (GooseMethod, Seq<char>)|
        aggregate_of(end).contains_key(key) implies aggregate_of(end)[key] == merge_aggregates(
            aggregate_of(start),
            aggregate_of(other),
        )[key] by {
        assert(totals_at(end, key) == merge_totals(totals_at(start, key), totals_at(other, key)));
        assert(has_request(end, key));
    }
    assert(aggregate_of(end) =~= merge_aggregates(aggregate_of(start), aggregate_of(other)));
}

/// Two summaries are of the same request: they agree on the method, the
/// name and the fingerprint of the load test.
pub open spec fn same_request(first: GooseRequest, second: GooseRequest) -> bool {
    &&& first.method == second.method
    &&& first.path@ == second.path@
    &&& first.load_test_hash == second.load_test_hash
}

/// The summaries of `other` for which `start` has none, in their order.
pub open spec fn newcomers(start: Seq<GooseRequest>, other: Seq<GooseRequest>) -> Seq<
    GooseRequest,
>
    decreases other.len(),
{
    if other.len() == 0 {
        Seq::empty()
    } else if has_request(start, key_of(other.last())) {
        newcomers(start, other.drop_last())
    } else {
        newcomers(start, other.drop_last()).push(other.last())
    }
}

/// The summaries `current` are those of `start`, each at its place and
/// of the same request as before, followed by one for each summary of
/// `other` for which `start` has none, in the order of `other`.
pub open spec fn places_kept(
    start: Seq<GooseRequest>,
    other: Seq<GooseRequest>,
    current: Seq<GooseRequest>,
) -> bool {
    &&& current.len() == start.len() + newcomers(start, other).len()
    &&& forall|i: int| 0 <= i < start.len() ==> same_request(#[trigger] current[i], start[i])
    &&& forall|k: int|
        0 <= k < newcomers(start, other).len() ==> same_request(
            current[start.len() + k],
            #[trigger] newcomers(start, other)[k],
        )
}

/// Two summaries are of the same task: they agree on the task set and the
/// task, by place and by name.
pub open spec fn same_task(first: GooseTaskMetric, second: GooseTaskMetric) -> bool {
    &&& first.taskset_index == second.taskset_index
    &&& first.taskset_name == second.taskset_name
    &&& first.task_index == second.task_index
    &&& first.task_name == second.task_name
}

/// Merges the summaries of the tasks of one task set of another process
/// into these, place by place. Each summary stays that of its task.
pub fn merge_task_set(set: &mut Vec<GooseTaskMetric>, incoming: &Vec<GooseTaskMetric>)
    ensures
        final(set)@.len() == old(set)@.len(),
        forall|k: int|
            0 <= k < old(set)@.len() ==> same_task(#[trigger] final(set)@[k], old(set)@[k]),
        forall|k: int|
            incoming@.len() <= k < old(set)@.len() ==> #[trigger] final(set)@[k] == old(set)@[k],
        forall|k: int|
            0 <= k < old(set)@.len() ==> (#[trigger] final(set)@[k]).summary() == if k
                < incoming@.len() {
                spec_merge(old(set)@[k].summary(), incoming@[k].summary())
            } else {
                old(set)@[k].summary()
            },
{
    let mut k: usize = 0;
    while k < set.len() && k < incoming.len()
        invariant
            set@.len() == old(set)@.len(),
            k <= set@.len(),
            k <= incoming@.len(),
            forall|b: int| k <= b < set@.len() ==> set@[b] == old(set)@[b],
            forall|b: int| 0 <= b < k ==> same_task(#[trigger] set@[b], old(set)@[b]),
            forall|b: int|
                0 <= b < k ==> (#[trigger] set@[b]).summary() == spec_merge(
                    old(set)@[b].summary(),
                    incoming@[b].summary(),
                ),
        decreases set@.len() - k,
    {
        let task = &mut set[k];
        task.merge(&incoming[k]);
        k = k + 1;
    }
}

impl GooseMetrics {
    /// Merges the request metrics of another process into these: a
    /// summary goes into the summary of its method and name, and is added
    /// at the end where there is none, with the fingerprint that it came
    /// with. Seen as aggregates, the metrics afterwards are the two
    /// merged; the summaries that were there keep their places.
    pub fn merge_requests(&mut self, other: &Vec<GooseRequest>)
        requires
            requests_distinct(old(self).requests@),
            requests_distinct(other@),
        ensures
            aggregate_of(final(self).requests@) == merge_aggregates(
                aggregate_of(old(self).requests@),
                aggregate_of(other@),
            ),
            requests_distinct(final(self).requests@),
            places_kept(old(self).requests@, other@, final(self).requests@),
            *final(self) == (GooseMetrics { requests: final(self).requests, ..*old(self) }),
    {
        let ghost start = self.requests@;
        let mut j: usize = 0;
        proof {
            lemma_absorb_start(start);
            assert(other@.take(0) =~= Seq::<GooseRequest>::empty());
        }
        while j < other.len()
            invariant
                j <= other.len(),
                requests_distinct(other@),
                *self == (GooseMetrics { requests: self.requests, ..*old(self) }),
                absorbed(start, other@.take(j as int), self.requests@),
                places_kept(start, other@.take(j as int), self.requests@),
            decreases other.len() - j,
        {
            let incoming = &other[j];
            let ghost before = self.requests@;
            let ghost seen = other@.take(j as int);
            let position = find_by_name(&self.requests, incoming.method, incoming.path.as_str());
            if position < self.requests.len() {
                let request = &mut self.requests[position];
                request.merge(incoming, true);
            } else {
                let mut request = GooseRequest::new(
                    incoming.path.as_str(),
                    incoming.method,
                    incoming.load_test_hash,
                );
                request.merge(incoming, true);
                proof {
                    lemma_totals_laws(totals_of(*incoming), no_totals(), no_totals());
                }
                self.requests.push(request);
            }
            proof {
                let incoming_key = key_of(*incoming);
                lemma_position(seen, incoming_key, 0);
                if has_request(seen, incoming_key) {
                    let at = request_position(seen, incoming_key.0, incoming_key.1, 0);
                    assert(seen[at] == other@[at]);
                    assert(key_of(other@[at]) == key_of(other@[j as int]));
                }
                assert(taken_in(before, self.requests@, *incoming));
                let after = self.requests@;
                let now = other@.take(j + 1);
                assert(now.drop_last() =~= seen);
                assert(now.last() == *incoming);
                assert(has_request(before, incoming_key) <==> has_request(start, incoming_key));
                let known = newcomers(start, seen);
                let found = newcomers(start, now);
                assert forall|i: int| 0 <= i < start.len() implies same_request(
                    #[trigger] after[i],
                    start[i],
                ) by {
                    assert(same_request(before[i], start[i]));
                    assert(same_request(after[i], before[i]));
                }
                assert forall|k: int| 0 <= k < found.len() implies same_request(
                    after[start.len() + k],
                    #[trigger] found[k],
                ) by {
                    if k < known.len() {
                        assert(found[k] == known[k]);
                        assert(same_request(before[start.len() + k], known[k]));
                        assert(same_request(after[start.len() + k], before[start.len() + k]));
                    }
                }
                lemma_absorb_step(start, seen, *incoming, before, self.requests@);
                assert(other@.take(j + 1) =~= seen.push(*incoming));
            }
            j = j + 1;
        }
        proof {
            assert(other@.take(other@.len() as int) =~= other@);
            assert(other@.take(other.len() as int) == other@);
            lemma_absorb_end(start, other@, self.requests@);
        }
    }

    /// Merges the task metrics of another process into these: the summary
    /// of each task goes into the summary at its place, which stays that
    /// of its task; a summary whose place is not there is dropped.
    pub fn merge_tasks(&mut self, other: &Vec<Vec<GooseTaskMetric>>)
        ensures
            final(self).tasks@.len() == old(self).tasks@.len(),
            forall|i: int|
                0 <= i < old(self).tasks@.len() ==> (#[trigger] final(self).tasks@[i])@.len()
                    == old(self).tasks@[i]@.len(),
            forall|i: int, k: int|
                0 <= i < old(self).tasks@.len() && 0 <= k < old(self).tasks@[i]@.len()
                    ==> same_task(#[trigger] final(self).tasks@[i]@[k], old(self).tasks@[i]@[k]),
            forall|i: int|
                other@.len() <= i < old(self).tasks@.len() ==> #[trigger] final(self).tasks@[i]
                    == old(self).tasks@[i],
            forall|i: int, k: int|
                0 <= i < old(self).tasks@.len() && 0 <= k < old(self).tasks@[i]@.len() ==> (
                #[trigger] final(self).tasks@[i]@[k]).summary() == if i < other@.len() && k
                    < other@[i]@.len() {
                    spec_merge(old(self).tasks@[i]@[k].summary(), other@[i]@[k].summary())
                } else {
                    old(self).tasks@[i]@[k].summary()
                },
            *final(self) == (GooseMetrics { tasks: final(self).tasks, ..*old(self) }),
    {
        let mut i: usize = 0;
        while i < self.tasks.len() && i < other.len()
            invariant
                self.tasks@.len() == old(self).tasks@.len(),
                i <= self.tasks@.len(),
                i <= other@.len(),
                *self == (GooseMetrics { tasks: self.tasks, ..*old(self) }),
                forall|a: int|
                    0 <= a < old(self).tasks@.len() ==> (#[trigger] self.tasks@[a])@.len() == old(
                        self,
                    ).tasks@[a]@.len(),
                forall|a: int| i <= a < old(self).tasks@.len() ==> self.tasks@[a] == old(
                    self,
                ).tasks@[a],
                forall|a: int, k: int|
                    0 <= a < old(self).tasks@.len() && 0 <= k < old(self).tasks@[a]@.len()
                        ==> same_task(#[trigger] self.tasks@[a]@[k], old(self).tasks@[a]@[k]),
                forall|a: int, k: int|
                    0 <= a < i && 0 <= k < old(self).tasks@[a]@.len() ==> (
                    #[trigger] self.tasks@[a]@[k]).summary() == if a < other@.len() && k
                        < other@[a]@.len() {
                        spec_merge(old(self).tasks@[a]@[k].summary(), other@[a]@[k].summary())
                    } else {
                        old(self).tasks@[a]@[k].summary()
                    },
            decreases self.tasks@.len() - i,
        {
            let ghost before = self.tasks@;
            merge_task_set(&mut self.tasks[i], &other[i]);
            proof {
                assert forall|a: int, k: int|
                    0 <= a < old(self).tasks@.len() && 0 <= k < old(
                        self,
                    ).tasks@[a]@.len() implies same_task(
                    #[trigger] self.tasks@[a]@[k],
                    old(self).tasks@[a]@[k],
                ) by {
                    if a != i {
                        assert(self.tasks@[a] == before[a]);
                    } else {
                        assert(same_task(before[a]@[k], old(self).tasks@[a]@[k]));
                    }
                }
                assert forall|a: int, k: int|
                    0 <= a < i + 1 && 0 <= k < old(self).tasks@[a]@.len() implies (
                #[trigger] self.tasks@[a]@[k]).summary() == if a < other@.len() && k
                    < other@[a]@.len() {
                    spec_merge(old(self).tasks@[a]@[k].summary(), other@[a]@[k].summary())
                } else {
                    old(self).tasks@[a]@[k].summary()
                } by {
                    if a < i {
                        assert(self.tasks@[a] == before[a]);
                    } else {
                        assert(before[a] == old(self).tasks@[a]);
                    }
                }
            }
            i = i + 1;
        }
    }
}

} // verus!
