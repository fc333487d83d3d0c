//! The subscriber registry: which connections wait for change notifications.
//!
//! The registry does not hold the connections themselves. It knows each
//! subscriber by a number that it hands out at subscription and never hands out
//! again; whoever owns the connections keeps them under those numbers. One
//! registry is shared by the accepting side, which subscribes, and the watching
//! side, which broadcasts; the owner guards it with a single lock and holds that
//! lock from the moment a broadcast is planned until it is settled.

use vstd::prelude::*;
use vstd::utf8::encode_utf8;
use crate::reload::{update_frame_bytes, UPDATE_FRAME};

verus! {

/// How long a write to one subscriber may take during a broadcast, in
/// milliseconds. A write that takes longer counts as failed, so that one stuck
/// subscriber cannot hold up the others.
pub const WRITE_TIMEOUT_MILLIS: u64 = 1000;

/// The registry of subscribers.
#[derive(Debug)]
pub struct Registry {
    subscribers: Vec<u64>,
    issued: u64,
}

/// A registry as a mathematical value.
pub struct RegistryView {
    /// The subscribers, in the order in which they subscribed.
    pub subscribers: Seq<u64>,
    /// How many numbers have been handed out so far.
    pub issued: nat,
}

/// The test that a subscriber passes when its write did not fail.
pub open spec fn survives(failed: Seq<u64>) -> spec_fn(u64) -> bool {
    |id: u64| !failed.contains(id)
}

impl RegistryView {
    /// The registry's invariant: no subscriber is listed twice, and every
    /// subscriber's number has been handed out.
    pub open spec fn wf(self) -> bool {
        &&& self.subscribers.no_duplicates()
        &&& forall|i: int| 0 <= i < self.subscribers.len() ==> self.subscribers[i] < self.issued
    }

    /// Whether `id` is subscribed.
    pub open spec fn contains(self, id: u64) -> bool {
        self.subscribers.contains(id)
    }

    /// Whether `id` was a subscriber once and has been dropped.
    pub open spec fn retired(self, id: u64) -> bool {
        id < self.issued && !self.subscribers.contains(id)
    }

    /// The registry after one more subscription: the newcomer gets the next
    /// number and stands last.
    pub open spec fn subscribed(self) -> RegistryView {
        RegistryView {
            subscribers: self.subscribers.push(self.issued as u64),
            issued: self.issued + 1,
        }
    }

    /// The registry after a broadcast in which the writes to `failed` failed:
    /// those are gone, all others stay, in their order.
    pub open spec fn settled(self, failed: Seq<u64>) -> RegistryView {
        RegistryView {
            subscribers: self.subscribers.filter(survives(failed)),
            issued: self.issued,
        }
    }
}

impl View for Registry {
    type V = RegistryView;

    closed spec fn view(&self) -> RegistryView {
        RegistryView { subscribers: self.subscribers@, issued: self.issued as nat }
    }
}

/// What the watcher reports.
#[derive(Clone, Copy, Debug, PartialEq, Eq, Structural)]
pub enum WatchEvent {
    /// The served files have changed; a burst of changes is reported once.
    Changed,
    /// The watcher itself has failed.
    Failed,
}

/// What to do about a report of the watcher.
#[derive(Debug, PartialEq, Eq)]
pub enum WatchAction {
    /// Write `frame` to each of `targets` and flush, once each, then settle the
    /// registry with those to which the write or the flush failed.
    Broadcast { frame: Vec<u8>, targets: Vec<u64> },
    /// Report the failure and carry on: the server keeps serving.
    Report,
}

/// A watcher action as a mathematical value.
pub enum WatchActionView {
    Broadcast { frame: Seq<u8>, targets: Seq<u64> },
    Report,
}

impl View for WatchAction {
    type V = WatchActionView;

    open spec fn view(&self) -> WatchActionView {
        match self {
            WatchAction::Broadcast { frame, targets } => WatchActionView::Broadcast {
                frame: frame@,
                targets: targets@,
            },
            WatchAction::Report => WatchActionView::Report,
        }
    }
}

impl RegistryView {
    /// The rule of the watching side: a change is broadcast to every
    /// subscriber of that moment, a failure of the watcher is only reported.
    pub open spec fn on_watch_event(self, event: WatchEvent) -> WatchActionView {
        match event {
            WatchEvent::Changed => WatchActionView::Broadcast {
                frame: encode_utf8(UPDATE_FRAME@),
                targets: self.subscribers,
            },
            WatchEvent::Failed => WatchActionView::Report,
        }
    }
}

/// Filtering keeps a sequence free of duplicates.
pub proof fn lemma_filter_no_duplicates<A>(s: Seq<A>, pred: spec_fn(A) -> bool)
    requires
        s.no_duplicates(),
    ensures
        s.filter(pred).no_duplicates(),
    decreases s.len(),
{
    reveal(Seq::filter);
    if s.len() > 0 {
        let rest = s.drop_last();
        lemma_filter_no_duplicates(rest, pred);
        if pred(s.last()) {
            if rest.filter(pred).contains(s.last()) {
                rest.lemma_filter_contains_rev(pred, s.last());
                let i = choose|i: int| 0 <= i < rest.len() && rest[i] == s.last();
                assert(s[i] == s[s.len() - 1]);
            }
        }
    }
}

/// Whether `id` occurs in `ids`.
fn holds(ids: &Vec<u64>, id: u64) -> (found: bool)
    ensures
        found == ids@.contains(id),
{
    let mut i: usize = 0;
    while i < ids.len()
        invariant
            i <= ids.len(),
            forall|k: int| 0 <= k < i ==> ids@[k] != id,
        decreases ids.len() - i,
    {
        if ids[i] == id {
            return true;
        }
        i = i + 1;
    }
    false
}

impl Registry {
    #[verifier::type_invariant]
    spec fn inv(self) -> bool {
        self@.wf()
    }

    /// A registry without subscribers.
    pub fn new() -> (registry: Registry)
        ensures
            registry@ == (RegistryView { subscribers: Seq::empty(), issued: 0 }),
            registry@.wf(),
    {
        Registry { subscribers: Vec::new(), issued: 0 }
    }

    /// The number of subscribers.
    pub fn len(&self) -> (count: usize)
        ensures
            count == self@.subscribers.len(),
    {
        self.subscribers.len()
    }

    /// Whether there is no subscriber.
    pub fn is_empty(&self) -> (empty: bool)
        ensures
            empty == (self@.subscribers.len() == 0),
    {
        self.subscribers.len() == 0
    }

    /// Whether `id` is subscribed.
    pub fn contains(&self, id: u64) -> (found: bool)
        ensures
            found == self@.contains(id),
    {
        holds(&self.subscribers, id)
    }

    /// The subscribers, in the order in which they subscribed, each once.
    pub fn subscribers(&self) -> (ids: Vec<u64>)
        ensures
            ids@ == self@.subscribers,
            ids@.no_duplicates(),
    {
        proof {
            use_type_invariant(self);
        }
        self.subscribers.clone()
    }

    /// Subscribes a connection and returns the number under which the owner is
    /// to keep it. The number has never been handed out before. The only way to
    /// fail is to run out of numbers; then nothing changes.
    pub fn subscribe(&mut self) -> (id: Option<u64>)
        ensures
            old(self)@.issued < u64::MAX ==> id == Some(old(self)@.issued as u64) && final(self)@
                == old(self)@.subscribed(),
            old(self)@.issued >= u64::MAX ==> id is None && final(self)@ == old(self)@,
            final(self)@.wf(),
    {
        proof {
            use_type_invariant(&*self);
        }
        if self.issued == u64::MAX {
            return None;
        }
        let id: u64 = self.issued;
        let mut subscribers: Vec<u64> = Vec::new();
        std::mem::swap(&mut subscribers, &mut self.subscribers);
        subscribers.push(id);
        *self = Registry { subscribers, issued: id + 1 };
        Some(id)
    }

    /// What to do about a report of the watcher. A change is to be broadcast to
    /// every subscriber of this moment, each exactly once; the registry itself
    /// changes only when the broadcast is settled.
    pub fn on_watch_event(&self, event: WatchEvent) -> (action: WatchAction)
        ensures
            action@ == self@.on_watch_event(event),
            self@.wf(),
    {
        proof {
            use_type_invariant(self);
        }
        match event {
            WatchEvent::Changed => WatchAction::Broadcast {
                frame: update_frame_bytes(),
                targets: self.subscribers.clone(),
            },
            WatchEvent::Failed => WatchAction::Report,
        }
    }

    /// Settles a broadcast: drops every subscriber in `failed`, the ones whose
    /// write or flush failed, and keeps all others in their order. Returns the
    /// numbers that were dropped, so that the owner can close their connections.
    pub fn settle(&mut self, failed: &Vec<u64>) -> (dropped: Vec<u64>)
        ensures
            final(self)@ == old(self)@.settled(failed@),
            final(self)@.wf(),
            dropped@ == old(self)@.subscribers.filter(|id: u64| failed@.contains(id)),
    {
        proof {
            use_type_invariant(&*self);
        }
        let ghost before = self.subscribers@;
        let ghost keep = survives(failed@);
        let ghost go = |id: u64| failed@.contains(id);
        let mut kept: Vec<u64> = Vec::new();
        let mut dropped: Vec<u64> = Vec::new();
        let mut i: usize = 0;
        proof {
            reveal(Seq::filter);
            assert(before.take(0) =~= Seq::<u64>::empty());
        }
        while i < self.subscribers.len()
            invariant
                i <= self.subscribers.len(),
                self.subscribers@ == before,
                keep == survives(failed@),
                go == (|id: u64| failed@.contains(id)),
                kept@ == before.take(i as int).filter(keep),
                dropped@ == before.take(i as int).filter(go),
            decreases self.subscribers.len() - i,
        {
            let id: u64 = self.subscribers[i];
            proof {
                reveal(Seq::filter);
                assert(before.take(i + 1).drop_last() =~= before.take(i as int));
                assert(before.take(i + 1).last() == id);
            }
            if holds(failed, id) {
                dropped.push(id);
            } else {
                kept.push(id);
            }
            i = i + 1;
        }
        proof {
            assert(before.take(i as int) =~= before);
            lemma_filter_no_duplicates(before, keep);
            assert forall|k: int| 0 <= k < kept@.len() implies kept@[k] < self.issued by {
                assert(kept@.contains(kept@[k]));
                before.lemma_filter_contains_rev(keep, kept@[k]);
            }
        }
        self.subscribers = kept;
        dropped
    }
}

/// One change to a registry.
pub enum RegistryOp {
    /// A connection subscribes.
    Subscribe,
    /// A broadcast is settled; the writes to `failed` failed.
    Settle { failed: Seq<u64> },
}

impl RegistryView {
    /// The registry after `op`. A subscription that finds no number left
    /// changes nothing.
    pub open spec fn apply(self, op: RegistryOp) -> RegistryView {
        match op {
            RegistryOp::Subscribe => if self.issued < u64::MAX {
                self.subscribed()
            } else {
                self
            },
            RegistryOp::Settle { failed } => self.settled(failed),
        }
    }

    /// The registry after all of `ops`, first to last.
    pub open spec fn run(self, ops: Seq<RegistryOp>) -> RegistryView
        decreases ops.len(),
    {
        if ops.len() == 0 {
            self
        } else {
            self.run(ops.drop_last()).apply(ops.last())
        }
    }
}

/// Every change keeps the registry well formed, and keeps out whoever was
/// dropped before.
pub proof fn lemma_apply_keeps_order(registry: RegistryView, op: RegistryOp, id: u64)
    requires
        registry.wf(),
    ensures
        registry.apply(op).wf(),
        registry.issued <= registry.apply(op).issued,
        registry.retired(id) ==> registry.apply(op).retired(id),
{
    match op {
        RegistryOp::Subscribe => {
            if registry.issued < u64::MAX {
                let after = registry.subscribed();
                assert forall|i: int, j: int|
                    0 <= i < after.subscribers.len() && 0 <= j < after.subscribers.len() && i
                        != j implies after.subscribers[i] != after.subscribers[j] by {
                    if i < registry.subscribers.len() {
                        assert(after.subscribers[i] == registry.subscribers[i]);
                    }
                    if j < registry.subscribers.len() {
                        assert(after.subscribers[j] == registry.subscribers[j]);
                    }
                }
                if registry.retired(id) && after.subscribers.contains(id) {
                    let i = choose|i: int|
                        0 <= i < after.subscribers.len() && after.subscribers[i] == id;
                    if i < registry.subscribers.len() {
                        assert(registry.subscribers[i] == id);
                    }
                }
            }
        },
        RegistryOp::Settle { failed } => {
            let keep = survives(failed);
            let after = registry.settled(failed);
            lemma_filter_no_duplicates(registry.subscribers, keep);
            assert forall|i: int| 0 <= i < after.subscribers.len() implies after.subscribers[i]
                < after.issued by {
                assert(after.subscribers.contains(after.subscribers[i]));
                registry.subscribers.lemma_filter_contains_rev(keep, after.subscribers[i]);
            }
            if after.subscribers.contains(id) {
                registry.subscribers.lemma_filter_contains_rev(keep, id);
            }
        },
    }
}

/// The registry stays well formed whatever happens to it.
pub proof fn lemma_run_keeps_wf(registry: RegistryView, ops: Seq<RegistryOp>)
    requires
        registry.wf(),
    ensures
        registry.run(ops).wf(),
    decreases ops.len(),
{
    if ops.len() > 0 {
        lemma_run_keeps_wf(registry, ops.drop_last());
        lemma_apply_keeps_order(registry.run(ops.drop_last()), ops.last(), 0);
    }
}

/// A subscriber that has been dropped stays out for good: no later
/// subscription and no later broadcast brings its number back.
pub proof fn lemma_retired_stays_out(registry: RegistryView, ops: Seq<RegistryOp>, id: u64)
    requires
        registry.wf(),
        registry.retired(id),
    ensures
        registry.run(ops).retired(id),
    decreases ops.len(),
{
    if ops.len() > 0 {
        lemma_run_keeps_wf(registry, ops.drop_last());
        lemma_retired_stays_out(registry, ops.drop_last(), id);
        lemma_apply_keeps_order(registry.run(ops.drop_last()), ops.last(), id);
    }
}

/// Settling a broadcast drops exactly the subscribers whose write failed: each
/// of them is gone, and every other subscriber is still there.
pub proof fn lemma_settle_drops_exactly_failed(registry: RegistryView, failed: Seq<u64>, id: u64)
    ensures
        failed.contains(id) ==> !registry.settled(failed).contains(id),
        registry.contains(id) && !failed.contains(id) ==> registry.settled(failed).contains(id),
        registry.settled(failed).contains(id) ==> registry.contains(id),
{
    let keep = survives(failed);
    let after = registry.settled(failed);
    if after.contains(id) {
        registry.subscribers.lemma_filter_contains_rev(keep, id);
    }
    if registry.contains(id) && !failed.contains(id) {
        let i = choose|i: int| 0 <= i < registry.subscribers.len() && registry.subscribers[i] == id;
        registry.subscribers.lemma_filter_contains(keep, i);
    }
}

/// A subscriber whose connection has failed is out of every later broadcast
/// within one cycle: once the broadcast that met the failure is settled, no
/// broadcast targets it again, whatever happens to the registry in between,
/// while the subscribers whose write went through are targeted by the next
/// broadcast as before.
pub proof fn lemma_failed_subscriber_leaves_broadcasts(
    registry: RegistryView,
    failed: Seq<u64>,
    id: u64,
    other: u64,
    ops: Seq<RegistryOp>,
)
    requires
        registry.wf(),
        registry.contains(id),
        failed.contains(id),
        registry.contains(other),
        !failed.contains(other),
    ensures
        registry.settled(failed).run(ops).on_watch_event(WatchEvent::Changed)
            matches WatchActionView::Broadcast { targets, .. } && !targets.contains(id),
        registry.settled(failed).on_watch_event(WatchEvent::Changed)
            matches WatchActionView::Broadcast { targets, .. } && targets.contains(other),
{
    let after = registry.settled(failed);
    lemma_settle_drops_exactly_failed(registry, failed, id);
    lemma_settle_drops_exactly_failed(registry, failed, other);
    lemma_apply_keeps_order(registry, RegistryOp::Settle { failed }, id);
    let i = choose|i: int| 0 <= i < registry.subscribers.len() && registry.subscribers[i] == id;
    assert(registry.subscribers[i] < registry.issued);
    assert(after.retired(id));
    lemma_retired_stays_out(after, ops, id);
}

/// A broadcast reaches every subscriber of its moment exactly once, with the
/// update frame, and nobody else: not a subscriber dropped earlier, and not one
/// that subscribes while the broadcast is under way.
pub proof fn lemma_broadcast_reaches_each_once(registry: RegistryView, id: u64)
    requires
        registry.wf(),
    ensures
        ({
            &&& registry.on_watch_event(WatchEvent::Changed)
                matches WatchActionView::Broadcast { frame, targets }
            &&& frame == encode_utf8(UPDATE_FRAME@)
            &&& targets.no_duplicates()
            &&& targets.contains(id) == registry.contains(id)
            &&& registry.issued < u64::MAX ==> !targets.contains(registry.issued as u64)
        }),
{
    if registry.issued < u64::MAX && registry.subscribers.contains(registry.issued as u64) {
        let i = choose|i: int|
            0 <= i < registry.subscribers.len() && registry.subscribers[i]
                == registry.issued as u64;
        assert(registry.subscribers[i] < registry.issued);
    }
}

} // verus!
