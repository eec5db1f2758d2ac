//! Where the task selector stands in the work-item hierarchy: the parent
//! whose children it lists, and the parents above it to go back to.
use vstd::prelude::*;

use crate::config::WorkItem;

verus! {

/// The task selector's place in the hierarchy. `current` is the work item
/// whose children are listed (`None` for a session without one); `above`
/// holds the parents that were drilled through, the nearest last.
pub struct Hierarchy {
    pub current: Option<WorkItem>,
    pub above: Vec<Option<WorkItem>>,
}

/// The mathematical value of a `Hierarchy`.
pub struct HierarchyView {
    pub current: Option<WorkItem>,
    pub above: Seq<Option<WorkItem>>,
}

impl View for Hierarchy {
    type V = HierarchyView;

    open spec fn view(&self) -> HierarchyView {
        HierarchyView { current: self.current, above: self.above@ }
    }
}

/// The place after drilling into the children of `child`.
pub open spec fn drilled(h: HierarchyView, child: WorkItem) -> HierarchyView {
    HierarchyView { current: Some(child), above: h.above.push(h.current) }
}

/// The place after going back one level; at the top nothing changes.
pub open spec fn went_back(h: HierarchyView) -> HierarchyView {
    if h.above.len() == 0 {
        h
    } else {
        HierarchyView { current: h.above.last(), above: h.above.drop_last() }
    }
}

impl Hierarchy {
    /// The top level: the children of `current`, with nothing above.
    pub fn top(current: Option<WorkItem>) -> (h: Hierarchy)
        ensures
            h@.current == current,
            h@.above == Seq::<Option<WorkItem>>::empty(),
    {
        Hierarchy { current, above: Vec::new() }
    }

    /// Lists the children of `child`, remembering the current parent.
    pub fn drill(&mut self, child: WorkItem)
        ensures
            final(self)@ == drilled(old(self)@, child),
    {
        let prev = self.current.take();
        self.above.push(prev);
        self.current = Some(child);
    }

    /// Goes back to the parent drilled through last; says whether there was
    /// one (at the top the place stays as it is).
    pub fn back(&mut self) -> (went_up: bool)
        ensures
            went_up == (old(self)@.above.len() > 0),
            final(self)@ == went_back(old(self)@),
    {
        match self.above.pop() {
            Some(prev) => {
                self.current = prev;
                true
            },
            None => false,
        }
    }

    /// How many levels below the top the selector stands.
    pub fn depth(&self) -> (n: usize)
        ensures
            n == self@.above.len(),
    {
        self.above.len()
    }

    /// Whether the selector stands below the top level.
    pub fn is_drilled(&self) -> (b: bool)
        ensures
            b == (self@.above.len() > 0),
    {
        self.above.len() > 0
    }
}

/// Going back right after drilling into a child returns to the place the
/// selector stood before.
pub proof fn lemma_back_undoes_drill(h: HierarchyView, child: WorkItem)
    ensures
        went_back(drilled(h, child)) == h,
{
    assert(h.above.push(h.current).drop_last() =~= h.above);
}

/// The place after drilling through `kids` in order.
pub open spec fn drilled_all(h: HierarchyView, kids: Seq<WorkItem>) -> HierarchyView
    decreases kids.len(),
{
    if kids.len() == 0 {
        h
    } else {
        drilled(drilled_all(h, kids.drop_last()), kids.last())
    }
}

/// The place after going back `n` times.
pub open spec fn went_back_times(h: HierarchyView, n: nat) -> HierarchyView
    decreases n,
{
    if n == 0 {
        h
    } else {
        went_back_times(went_back(h), (n - 1) as nat)
    }
}

/// Drilling through any number of children and going back as many times
/// returns to the place the selector started from.
pub proof fn lemma_back_undoes_drills(h: HierarchyView, kids: Seq<WorkItem>)
    ensures
        went_back_times(drilled_all(h, kids), kids.len()) == h,
    decreases kids.len(),
{
    if kids.len() > 0 {
        let before = drilled_all(h, kids.drop_last());
        lemma_back_undoes_drill(before, kids.last());
        lemma_back_undoes_drills(h, kids.drop_last());
    }
}

} // verus!
