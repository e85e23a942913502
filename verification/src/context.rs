use vstd::prelude::*;

use crate::klass_repo::{SharedKlassRepo, StatusView};
use crate::object::ObjView;
use crate::simple_heap::SharedSimpleHeap;

verus! {

/// What a running machine holds: its heap and its classes.
pub struct VmContext {
    heap: SharedSimpleHeap,
    repo: SharedKlassRepo,
}

impl VmContext {
    pub closed spec fn spec_heap(&self) -> SharedSimpleHeap {
        self.heap
    }

    pub closed spec fn spec_repo(&self) -> SharedKlassRepo {
        self.repo
    }

    /// A machine with an empty heap (only the null object) and no classes.
    pub fn of() -> (r: VmContext)
        ensures
            r.spec_heap().wf(),
            r.spec_heap()@ == seq![ObjView::Obj { id: 0, mark: 0, klassid: 0, fields: Seq::empty() }],
            r.spec_repo()@ == Map::<Seq<char>, StatusView>::empty(),
    {
        VmContext { heap: SharedSimpleHeap::of(), repo: SharedKlassRepo::of() }
    }

    /// The classes, for reading and changing.
    pub fn get_repo(&mut self) -> (r: &mut SharedKlassRepo)
        ensures
            *r == old(self).spec_repo(),
            final(self).spec_repo() == *final(r),
            final(self).spec_heap() == old(self).spec_heap(),
    {
        &mut self.repo
    }

    /// The heap, for reading and changing.
    pub fn get_heap(&mut self) -> (r: &mut SharedSimpleHeap)
        ensures
            *r == old(self).spec_heap(),
            final(self).spec_heap() == *final(r),
            final(self).spec_repo() == old(self).spec_repo(),
    {
        &mut self.heap
    }
}

} // verus!
