//! Discovery: adapter selection, the projection of adapter events into
//! peripheral lookups, and the projection of property fetches into a stream
//! of property records.

use vstd::prelude::*;

use crate::errors::Error;

verus! {

/// Picks the radio the core will own for the life of the process: the first
/// adapter of the platform's enumeration, or `AdapterNotFound` when the
/// enumeration is empty.
pub fn select_first_adapter(available: usize) -> (r: Result<usize, Error>)
    ensures
        available == 0 ==> r == Err::<usize, Error>(Error::AdapterNotFound),
        available > 0 ==> r == Ok::<usize, Error>(0usize),
{
    if available == 0 {
        Err(Error::AdapterNotFound)
    } else {
        Ok(0)
    }
}

/// An adapter-level occurrence, tagged by kind, carrying the identifier of
/// the peripheral it concerns. `I` is the platform's identifier type, opaque
/// to the projection. Kinds the core never reads are folded into `Other`.
#[derive(Clone, Debug, PartialEq, Eq, Structural)]
pub enum DiscoveryEvent<I> {
    DeviceDiscovered { id: I },
    DeviceUpdated { id: I },
    DeviceConnected { id: I },
    DeviceDisconnected { id: I },
    Other,
}

/// The identifier an event carries forward into a peripheral lookup: only a
/// "device updated" event projects, every other kind is dropped.
pub open spec fn spec_project_event<I>(event: DiscoveryEvent<I>) -> Option<I> {
    match event {
        DiscoveryEvent::DeviceUpdated { id } => Some(id),
        _ => None,
    }
}

/// The event projector's decision for one adapter event: the peripheral
/// identifier to resolve when the event is "device updated", and nothing -
/// no emission, no side effect - for an event of any other kind.
pub fn project_event<I>(event: DiscoveryEvent<I>) -> (r: Option<I>)
    ensures
        r == spec_project_event(event),
{
    match event {
        DiscoveryEvent::DeviceUpdated { id } => Some(id),
        _ => None,
    }
}

/// Every identifier the event projector carries forward over a finite
/// stretch of the adapter stream, in order: the identifiers of the "device
/// updated" events.
pub open spec fn projected_ids<I>(events: Seq<DiscoveryEvent<I>>) -> Seq<I>
    decreases events.len(),
{
    if events.len() == 0 {
        Seq::empty()
    } else {
        let prefix = projected_ids(events.drop_last());
        match spec_project_event(events.last()) {
            Some(id) => prefix.push(id),
            None => prefix,
        }
    }
}

/// The event projector over a finite, simulated stretch of the adapter
/// stream: carries forward exactly the identifiers of the "device updated"
/// events, in the order the platform delivered them.
pub fn project_events<I>(events: Vec<DiscoveryEvent<I>>) -> (r: Vec<I>)
    ensures
        r@ == projected_ids(events@),
{
    let ghost all = events@;
    let mut rest = events;
    let mut out: Vec<I> = Vec::new();
    let ghost mut done: Seq<DiscoveryEvent<I>> = Seq::empty();
    while rest.len() > 0
        invariant
            all == done + rest@,
            out@ == projected_ids(done),
        decreases rest@.len(),
    {
        let next = rest.remove(0);
        let ghost taken = next;
        match project_event(next) {
            Some(id) => out.push(id),
            None => {},
        }
        proof {
            assert(done.push(taken).drop_last() =~= done);
            done = done.push(taken);
            assert(done + rest@ =~= all);
        }
    }
    proof {
        assert(done =~= all);
    }
    out
}

/// The event projector emits in order and item by item: what a stretch
/// followed by another stretch carries forward is what the first carries
/// forward followed by what the second does.
pub proof fn lemma_projected_ids_append<I>(a: Seq<DiscoveryEvent<I>>, b: Seq<DiscoveryEvent<I>>)
    ensures
        projected_ids(a + b) == projected_ids(a) + projected_ids(b),
    decreases b.len(),
{
    if b.len() == 0 {
        assert(a + b =~= a);
        assert(projected_ids(a) + projected_ids(b) =~= projected_ids(a));
    } else {
        lemma_projected_ids_append(a, b.drop_last());
        assert((a + b).drop_last() =~= a + b.drop_last());
        match spec_project_event(b.last()) {
            Some(id) => {
                assert(projected_ids(a) + projected_ids(b.drop_last()).push(id)
                    =~= (projected_ids(a) + projected_ids(b.drop_last())).push(id));
            },
            None => {},
        }
    }
}

/// An adapter event of any kind but "device updated" contributes nothing to
/// the peripheral stream, and the stream does not terminate on its account:
/// the projection of the surrounding stretch is exactly the projection with
/// the ignored event left out.
pub proof fn lemma_ignored_event_emits_nothing<I>(
    before: Seq<DiscoveryEvent<I>>,
    dropped: DiscoveryEvent<I>,
    after: Seq<DiscoveryEvent<I>>,
)
    requires
        !(dropped is DeviceUpdated),
    ensures
        projected_ids(before + seq![dropped] + after) == projected_ids(before + after),
{
    lemma_projected_ids_append(before + seq![dropped], after);
    lemma_projected_ids_append(before, seq![dropped]);
    lemma_projected_ids_append(before, after);
    assert(seq![dropped].drop_last() =~= Seq::<DiscoveryEvent<I>>::empty());
    assert(projected_ids(Seq::<DiscoveryEvent<I>>::empty()) =~= Seq::<I>::empty());
    assert(seq![dropped].last() == dropped);
    assert(projected_ids(seq![dropped]) =~= Seq::<I>::empty());
    assert(projected_ids(before) + Seq::<I>::empty() =~= projected_ids(before));
}

/// A snapshot of the advertisement fields the core reads: the optional local
/// name, as bytes. Recomputed on every fetch; it has no lifetime of its own.
#[derive(Clone, Debug, PartialEq, Eq)]
pub struct PeripheralProps {
    pub local_name: Option<Vec<u8>>,
}

/// The outcome of one property fetch against a peripheral handle.
#[derive(Clone, Debug, PartialEq, Eq)]
pub enum FetchOutcome {
    /// The fetch succeeded and yielded a present snapshot.
    Fetched(PeripheralProps),
    /// The fetch succeeded but the platform had no snapshot for the handle.
    Missing,
    /// The platform call itself failed; the embedding holds the error.
    Failed,
}

/// What the properties projector emits for one fetch outcome: the snapshot
/// when the fetch yielded one, nothing otherwise.
pub open spec fn spec_properties_step(outcome: FetchOutcome) -> Option<PeripheralProps> {
    match outcome {
        FetchOutcome::Fetched(props) => Some(props),
        _ => None,
    }
}

/// The properties projector's decision for one peripheral handle: emit the
/// fetched snapshot, or drop the item silently when the fetch failed or came
/// back empty. Dropping never terminates the stream; the projector goes on
/// with the next handle.
pub fn properties_step(outcome: FetchOutcome) -> (r: Option<PeripheralProps>)
    ensures
        r == spec_properties_step(outcome),
{
    match outcome {
        FetchOutcome::Fetched(props) => Some(props),
        _ => None,
    }
}

/// Everything the properties projector emits over a finite stretch of fetch
/// outcomes, in order: the snapshots of the successful fetches.
pub open spec fn projected_props(outcomes: Seq<FetchOutcome>) -> Seq<PeripheralProps>
    decreases outcomes.len(),
{
    if outcomes.len() == 0 {
        Seq::empty()
    } else {
        let prefix = projected_props(outcomes.drop_last());
        match outcomes.last() {
            FetchOutcome::Fetched(props) => prefix.push(props),
            _ => prefix,
        }
    }
}

/// The properties projector over a finite, simulated stretch of the handle
/// stream: emits exactly the snapshots of the successful fetches, in the
/// order the platform delivered them.
pub fn project_properties(outcomes: Vec<FetchOutcome>) -> (r: Vec<PeripheralProps>)
    ensures
        r@ == projected_props(outcomes@),
{
    let ghost all = outcomes@;
    let mut rest = outcomes;
    let mut out: Vec<PeripheralProps> = Vec::new();
    let ghost mut done: Seq<FetchOutcome> = Seq::empty();
    while rest.len() > 0
        invariant
            all == done + rest@,
            out@ == projected_props(done),
        decreases rest@.len(),
    {
        let next = rest.remove(0);
        let ghost taken = next;
        match properties_step(next) {
            Some(props) => out.push(props),
            None => {},
        }
        proof {
            assert(done.push(taken).drop_last() =~= done);
            done = done.push(taken);
            assert(all == done + rest@) by {
                assert(done + rest@ =~= all);
            }
        }
    }
    proof {
        assert(done =~= all);
    }
    out
}

/// The projection emits in order and item by item: what a stretch followed by
/// another stretch emits is what the first emits followed by what the second
/// emits.
pub proof fn lemma_projected_props_append(a: Seq<FetchOutcome>, b: Seq<FetchOutcome>)
    ensures
        projected_props(a + b) == projected_props(a) + projected_props(b),
    decreases b.len(),
{
    if b.len() == 0 {
        assert(a + b =~= a);
        assert(projected_props(a) + projected_props(b) =~= projected_props(a));
    } else {
        lemma_projected_props_append(a, b.drop_last());
        assert((a + b).drop_last() =~= a + b.drop_last());
        match b.last() {
            FetchOutcome::Fetched(props) => {
                assert(projected_props(a) + projected_props(b.drop_last()).push(props)
                    =~= (projected_props(a) + projected_props(b.drop_last())).push(props));
            },
            _ => {},
        }
    }
}

/// A peripheral handle whose property fetch fails, or yields no snapshot,
/// contributes nothing to the properties stream, and the stream does not
/// terminate on its account: the projection of the surrounding stretch is
/// exactly the projection with the offending item left out.
pub proof fn lemma_failed_fetch_emits_nothing(
    before: Seq<FetchOutcome>,
    dropped: FetchOutcome,
    after: Seq<FetchOutcome>,
)
    requires
        !(dropped is Fetched),
    ensures
        projected_props(before + seq![dropped] + after) == projected_props(before + after),
{
    lemma_projected_props_append(before + seq![dropped], after);
    lemma_projected_props_append(before, seq![dropped]);
    lemma_projected_props_append(before, after);
    assert(seq![dropped].drop_last() =~= Seq::<FetchOutcome>::empty());
    assert(projected_props(Seq::<FetchOutcome>::empty()) =~= Seq::<PeripheralProps>::empty());
    assert(seq![dropped].last() == dropped);
    assert(projected_props(seq![dropped]) =~= Seq::<PeripheralProps>::empty());
    assert(projected_props(before) + Seq::<PeripheralProps>::empty()
        =~= projected_props(before));
}

} // verus!
