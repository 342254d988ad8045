//! The queue of updates waiting for a sync, and the decisions of the one task that
//! drains it: when a cycle starts, what it takes, and when the task may sleep.
use crate::editor::update_views;
use crate::path::{ComponentView, ProjectPath};
use crate::update::{
    classify_event_path, event_path_update, is_relevant, is_relevant_spec, ChangeKind, EventPath,
    Update, UpdateView,
};
use vstd::prelude::*;

verus! {

/// One debounced filesystem event: its kind and the paths it names.
#[derive(Debug)]
pub struct RawEvent {
    pub kind: ChangeKind,
    pub paths: Vec<EventPath>,
}

/// The updates that the paths of one event produce, in order.
pub open spec fn paths_updates(root: Seq<ComponentView>, ps: Seq<EventPath>) -> Seq<UpdateView>
    decreases ps.len(),
{
    if ps.len() == 0 {
        Seq::empty()
    } else {
        let prev = paths_updates(root, ps.drop_last());
        match event_path_update(root, ps.last()) {
            Some(u) => prev.push(u),
            None => prev,
        }
    }
}

/// The updates that one event produces: none where its kind carries no change.
pub open spec fn event_updates(root: Seq<ComponentView>, e: RawEvent) -> Seq<UpdateView> {
    if is_relevant_spec(e.kind) {
        paths_updates(root, e.paths@)
    } else {
        Seq::empty()
    }
}

/// The updates that a batch of events produces, in delivery order.
pub open spec fn batch_updates(root: Seq<ComponentView>, es: Seq<RawEvent>) -> Seq<UpdateView>
    decreases es.len(),
{
    if es.len() == 0 {
        Seq::empty()
    } else {
        batch_updates(root, es.drop_last()) + event_updates(root, es.last())
    }
}

/// Updates waiting for the sync task, and whether a sync cycle is running.
#[derive(Debug)]
pub struct PendingUpdates {
    queue: Vec<Update>,
    syncing: bool,
}

impl PendingUpdates {
    /// The updates waiting, oldest first.
    pub closed spec fn pending(&self) -> Seq<UpdateView> {
        update_views(self.queue@)
    }

    /// Whether a sync cycle is running.
    pub closed spec fn is_syncing(&self) -> bool {
        self.syncing
    }

    /// An empty queue, with no cycle running.
    pub fn new() -> (r: PendingUpdates)
        ensures
            r.pending() == Seq::<UpdateView>::empty(),
            !r.is_syncing(),
    {
        let r = PendingUpdates { queue: Vec::new(), syncing: false };
        assert(update_views(r.queue@) =~= Seq::<UpdateView>::empty());
        r
    }

    /// The number of updates waiting.
    pub fn len(&self) -> (r: usize)
        ensures
            r == self.pending().len(),
    {
        self.queue.len()
    }

    /// Whether a cycle is running.
    pub fn syncing(&self) -> (r: bool)
        ensures
            r == self.is_syncing(),
    {
        self.syncing
    }

    fn push_update(&mut self, u: Update)
        ensures
            final(self).pending() == old(self).pending().push(u@),
            final(self).is_syncing() == old(self).is_syncing(),
    {
        let ghost prev = self.queue@;
        self.queue.push(u);
        assert(update_views(self.queue@) =~= update_views(prev).push(u@));
    }

    /// Classifies the events of one debounced batch against the project root `root`
    /// and queues what they produce. Returns whether the sync task is to be woken:
    /// once for the batch, and only where the queue grew.
    pub fn enqueue_batch(&mut self, root: &ProjectPath, events: &Vec<RawEvent>) -> (wake: bool)
        ensures
            final(self).pending() == old(self).pending() + batch_updates(root@, events@),
            final(self).is_syncing() == old(self).is_syncing(),
            wake == (batch_updates(root@, events@).len() > 0),
    {
        let start = self.queue.len();
        let mut i: usize = 0;
        while i < events.len()
            invariant
                i <= events.len(),
                start == old(self).pending().len(),
                self.is_syncing() == old(self).is_syncing(),
                self.pending() == old(self).pending() + batch_updates(
                    root@,
                    events@.subrange(0, i as int),
                ),
            decreases events.len() - i,
        {
            let ghost before = self.pending();
            proof {
                assert(events@.subrange(0, i + 1).drop_last() =~= events@.subrange(0, i as int));
            }
            let event = &events[i];
            if is_relevant(event.kind) {
                let mut j: usize = 0;
                while j < event.paths.len()
                    invariant
                        j <= event.paths.len(),
                        self.is_syncing() == old(self).is_syncing(),
                        self.pending() == before + paths_updates(
                            root@,
                            event.paths@.subrange(0, j as int),
                        ),
                    decreases event.paths.len() - j,
                {
                    proof {
                        assert(event.paths@.subrange(0, j + 1).drop_last() =~= event.paths@.subrange(
                            0,
                            j as int,
                        ));
                    }
                    let ep = &event.paths[j];
                    let rel = EventPath { path: ep.path.duplicate(), is_dir: ep.is_dir, is_file: ep.is_file };
                    proof {
                        assert(event_path_update(root@, rel) == event_path_update(root@, *ep));
                    }
                    match classify_event_path(root, rel) {
                        Some(u) => {
                            self.push_update(u);
                            assert(self.pending() =~= before + paths_updates(
                                root@,
                                event.paths@.subrange(0, j + 1),
                            ));
                        },
                        None => {},
                    }
                    j = j + 1;
                }
                assert(event.paths@.subrange(0, event.paths@.len() as int) =~= event.paths@);
                assert(self.pending() =~= old(self).pending() + batch_updates(
                    root@,
                    events@.subrange(0, i + 1),
                ));
            } else {
                assert(self.pending() =~= old(self).pending() + batch_updates(
                    root@,
                    events@.subrange(0, i + 1),
                ));
            }
            i = i + 1;
        }
        assert(events@.subrange(0, events@.len() as int) =~= events@);
        self.queue.len() > start
    }

    /// Takes every waiting update, leaving the queue empty.
    fn take_all(&mut self) -> (r: Vec<Update>)
        ensures
            update_views(r@) == old(self).pending(),
            final(self).pending() == Seq::<UpdateView>::empty(),
            final(self).is_syncing() == old(self).is_syncing(),
    {
        let mut r: Vec<Update> = Vec::new();
        r.append(&mut self.queue);
        assert(r@ =~= old(self).queue@);
        assert(update_views(self.queue@) =~= Seq::<UpdateView>::empty());
        r
    }

    /// The sync task was woken. Where no cycle runs and updates wait, a cycle starts
    /// with all of them; otherwise nothing happens: an empty queue never leads to a
    /// remote call, and a running cycle looks at the queue again when it ends.
    pub fn on_wake(&mut self) -> (r: Option<Vec<Update>>)
        ensures
            old(self).is_syncing() || old(self).pending().len() == 0 ==> {
                &&& r.is_none()
                &&& final(self).pending() == old(self).pending()
                &&& final(self).is_syncing() == old(self).is_syncing()
            },
            !old(self).is_syncing() && old(self).pending().len() > 0 ==> {
                &&& r.is_some()
                &&& update_views(r.unwrap()@) == old(self).pending()
                &&& final(self).pending() == Seq::<UpdateView>::empty()
                &&& final(self).is_syncing()
            },
    {
        if self.syncing || self.queue.len() == 0 {
            None
        } else {
            let batch = self.take_all();
            self.syncing = true;
            Some(batch)
        }
    }

    /// The running cycle ended, well or not. Updates queued meanwhile start the next
    /// cycle at once, without another wake; with none, the task goes back to waiting.
    pub fn on_cycle_finished(&mut self) -> (r: Option<Vec<Update>>)
        ensures
            old(self).pending().len() == 0 ==> {
                &&& r.is_none()
                &&& final(self).pending() == old(self).pending()
                &&& !final(self).is_syncing()
            },
            old(self).pending().len() > 0 ==> {
                &&& r.is_some()
                &&& update_views(r.unwrap()@) == old(self).pending()
                &&& final(self).pending() == Seq::<UpdateView>::empty()
                &&& final(self).is_syncing()
            },
    {
        if self.queue.len() == 0 {
            self.syncing = false;
            None
        } else {
            let batch = self.take_all();
            self.syncing = true;
            Some(batch)
        }
    }
}

/// Access, metadata-only and unnamed events add nothing to what a batch queues,
/// wherever they stand in it.
pub proof fn lemma_ignored_kinds_add_nothing(
    root: Seq<ComponentView>,
    before: Seq<RawEvent>,
    e: RawEvent,
    after: Seq<RawEvent>,
)
    requires
        !is_relevant_spec(e.kind),
    ensures
        batch_updates(root, before.push(e) + after) == batch_updates(root, before + after),
    decreases after.len(),
{
    if after.len() == 0 {
        assert(before.push(e) + after =~= before.push(e));
        assert(before.push(e).drop_last() =~= before);
        assert(before + after =~= before);
    } else {
        lemma_ignored_kinds_add_nothing(root, before, e, after.drop_last());
        assert((before.push(e) + after).drop_last() =~= before.push(e) + after.drop_last());
        assert((before + after).drop_last() =~= before + after.drop_last());
    }
}

} // verus!
