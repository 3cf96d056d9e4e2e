//! The stack of the machine: operand values and frame markers in one
//! sequence.
//!
//! A frame marker records where a call came from and which marker was the
//! last one before it, so the markers on the stack form a chain that starts
//! at the top frame. What lies above the top frame are the operands of the
//! call that is running.

use crate::pl::bytecode::{PlInstructionPointer, PlPosition};
use crate::pv::private::{lemma_clones_are_equal, PvpArray};
use crate::pv::{Pv, PvValue};
use vstd::prelude::*;

verus! {

/// A frame marker.
#[derive(Debug)]
pub struct PlStackFrame {
    pub(crate) retaddr: PlInstructionPointer,
    pub(crate) lastframe: isize,
}

/// What the stack holds in one place.
#[derive(Debug)]
pub enum PlStackElement {
    Value(Pv),
    Frame(PlStackFrame),
}

/// What a stack element stands for: an operand, or a frame marker with the
/// position to return to and the index of the marker before it (-1 where
/// there is none).
pub enum PlEntry {
    Value(PvValue),
    Frame { retaddr: PlPosition, lastframe: int },
}

impl View for PlStackElement {
    type V = PlEntry;

    open(crate) spec fn view(&self) -> PlEntry {
        match self {
            PlStackElement::Value(v) => PlEntry::Value(v@),
            PlStackElement::Frame(f) => PlEntry::Frame {
                retaddr: f.retaddr@,
                lastframe: f.lastframe as int,
            },
        }
    }
}

impl Clone for PlStackFrame {
    fn clone(&self) -> (r: Self)
        ensures
            r == *self,
    {
        PlStackFrame { retaddr: self.retaddr.clone(), lastframe: self.lastframe }
    }
}

impl Clone for PlStackElement {
    fn clone(&self) -> (r: Self)
        ensures
            r == *self,
    {
        match self {
            PlStackElement::Value(v) => PlStackElement::Value(v.clone()),
            PlStackElement::Frame(f) => PlStackElement::Frame(f.clone()),
        }
    }
}

/// What each of `items` stands for.
pub open spec fn entries_of(items: Seq<PlStackElement>) -> Seq<PlEntry> {
    items.map_values(|e: PlStackElement| e@)
}

/// Whether the frame markers among `entries` are exactly the chain that
/// starts at index `top`: `top` is -1 and there is no marker, or `top` is the
/// index of a marker, nothing above it is one, and the markers below it are
/// the chain that starts at the index it records.
pub open spec fn linked(entries: Seq<PlEntry>, top: int) -> bool
    decreases entries.len(),
{
    if top == -1 {
        forall|i: int| 0 <= i < entries.len() ==> entries[i] is Value
    } else {
        &&& 0 <= top < entries.len()
        &&& entries[top] matches PlEntry::Frame { lastframe, .. }
        &&& -1 <= lastframe < top
        &&& linked(entries.take(top), lastframe)
        &&& forall|i: int| top < i < entries.len() ==> entries[i] is Value
    }
}

/// What a stack stands for: its entries from the bottom up, and the index of
/// the top frame marker, -1 where no frame is active.
pub struct PlStackView {
    pub entries: Seq<PlEntry>,
    pub topframe: int,
}

impl PlStackView {
    /// Whether the top frame index and the markers agree.
    pub open spec fn wf(self) -> bool {
        linked(self.entries, self.topframe)
    }

    /// Whether there is an operand on top.
    pub open spec fn has_top(self) -> bool {
        self.entries.len() > 0 && self.entries.last() is Value
    }

    /// The stack with `value` pushed.
    pub open spec fn push(self, value: PvValue) -> PlStackView {
        PlStackView { entries: self.entries.push(PlEntry::Value(value)), topframe: self.topframe }
    }

    /// The stack with a frame marker pushed that returns to `retaddr`.
    pub open spec fn push_frame(self, retaddr: PlPosition) -> PlStackView {
        PlStackView {
            entries: self.entries.push(PlEntry::Frame { retaddr, lastframe: self.topframe }),
            topframe: self.entries.len() as int,
        }
    }

    /// The stack without its top operand.
    pub open spec fn pop(self) -> PlStackView {
        PlStackView { entries: self.entries.drop_last(), topframe: self.topframe }
    }

    /// The stack cut back to below its top frame marker; the stack itself
    /// where no frame is active.
    pub open spec fn pop_frame(self) -> PlStackView {
        if self.topframe == -1 {
            self
        } else {
            PlStackView {
                entries: self.entries.take(self.topframe),
                topframe: self.entries[self.topframe]->lastframe,
            }
        }
    }

    /// The position that the top frame marker returns to, where a frame is
    /// active.
    pub open spec fn return_address(self) -> Option<PlPosition> {
        if self.topframe == -1 {
            None
        } else {
            Some(self.entries[self.topframe]->retaddr)
        }
    }
}

/// Pushing an operand keeps the markers and the top frame index in
/// agreement.
pub proof fn lemma_push_linked(s: PlStackView, value: PvValue)
    requires
        s.wf(),
    ensures
        s.push(value).wf(),
{
    if s.topframe != -1 {
        assert(s.push(value).entries.take(s.topframe) == s.entries.take(s.topframe));
    }
}

/// Pushing a frame marker keeps them in agreement.
pub proof fn lemma_push_frame_linked(s: PlStackView, retaddr: PlPosition)
    requires
        s.wf(),
    ensures
        s.push_frame(retaddr).wf(),
{
    assert(s.push_frame(retaddr).entries.take(s.entries.len() as int) == s.entries);
}

/// Popping an operand keeps them in agreement.
pub proof fn lemma_pop_linked(s: PlStackView)
    requires
        s.wf(),
        s.has_top(),
    ensures
        s.pop().wf(),
        s.topframe < s.entries.len() - 1,
{
    if s.topframe != -1 {
        assert(s.pop().entries.take(s.topframe) == s.entries.take(s.topframe));
    }
}

/// Popping a frame keeps them in agreement.
pub proof fn lemma_pop_frame_linked(s: PlStackView)
    requires
        s.wf(),
    ensures
        s.pop_frame().wf(),
{
}

/// The stack of the machine.
#[derive(Debug)]
pub struct PlStack {
    pub(crate) data: PvpArray<PlStackElement>,
    pub(crate) topframe: isize,
}

impl View for PlStack {
    type V = PlStackView;

    open(crate) spec fn view(&self) -> PlStackView {
        PlStackView { entries: entries_of(self.data@), topframe: self.topframe as int }
    }
}

impl PlStack {
    /// The empty stack, with no frame active.
    pub fn new() -> (r: Self)
        ensures
            r@.entries == Seq::<PlEntry>::empty(),
            r@.topframe == -1,
            r@.wf(),
    {
        let r = PlStack { data: PvpArray::<PlStackElement>::new_empty(), topframe: -1 };
        proof {
            assert(r@.entries =~= Seq::<PlEntry>::empty());
        }
        r
    }

    /// The number of entries.
    pub fn len(&self) -> (n: usize)
        ensures
            n == self@.entries.len(),
    {
        self.data.len()
    }

    /// Pushes the operand `other`.
    pub fn push(&mut self, other: Pv)
        requires
            old(self)@.wf(),
            old(self)@.entries.len() < usize::MAX,
        ensures
            final(self)@ == old(self)@.push(other@),
            final(self)@.wf(),
    {
        let ghost before = self.data@;
        self.data.append(PlStackElement::Value(other));
        proof {
            let n = before.len() as int;
            lemma_clones_are_equal(before, self.data@.take(n));
            assert(self.data@ =~= before.push(PlStackElement::Value(other)));
            assert(self@.entries =~= old(self)@.push(other@).entries);
            lemma_push_linked(old(self)@, other@);
        }
    }

    /// Pushes a frame marker that returns to `retaddr` and makes it the top
    /// frame.
    pub fn push_frame(&mut self, retaddr: PlInstructionPointer)
        requires
            old(self)@.wf(),
            old(self)@.entries.len() <= isize::MAX,
        ensures
            final(self)@ == old(self)@.push_frame(retaddr@),
            final(self)@.wf(),
    {
        let ghost before = self.data@;
        let topframe = self.data.len();
        let frame = PlStackElement::Frame(PlStackFrame { retaddr, lastframe: self.topframe });
        self.data.append(frame);
        self.topframe = topframe as isize;
        proof {
            let n = before.len() as int;
            lemma_clones_are_equal(before, self.data@.take(n));
            assert(self.data@ =~= before.push(frame));
            assert(self@.entries =~= old(self)@.push_frame(retaddr@).entries);
            lemma_push_frame_linked(old(self)@, retaddr@);
        }
    }

    /// Drops the operand on top.
    pub fn pop(&mut self)
        requires
            old(self)@.wf(),
            old(self)@.has_top(),
        ensures
            final(self)@ == old(self)@.pop(),
            final(self)@.wf(),
    {
        let ghost before = self.data@;
        self.data.pop();
        proof {
            lemma_clones_are_equal(before.drop_last(), self.data@);
            assert(self@.entries =~= old(self)@.pop().entries);
            lemma_pop_linked(old(self)@);
        }
    }

    /// Drops the top frame marker and all above it, makes the marker before
    /// it the top frame and returns the position the dropped marker held.
    /// Where no frame is active, nothing changes and `None` is returned.
    pub fn pop_frame(&mut self) -> (r: Option<PlInstructionPointer>)
        requires
            old(self)@.wf(),
        ensures
            final(self)@ == old(self)@.pop_frame(),
            final(self)@.wf(),
            match r {
                Some(retaddr) => Some(retaddr@) == old(self)@.return_address(),
                None => old(self)@.return_address() is None,
            },
    {
        if self.topframe == -1 {
            return None;
        }
        let ghost before = self.data@;
        proof {
            assert(entries_of(before)[self.topframe as int] == before[self.topframe as int]@);
        }
        let index = self.topframe as usize;
        let element = self.data.get(index);
        match element {
            PlStackElement::Frame(frame) => {
                let above = self.data.len() - index;
                self.data.popn(above);
                self.topframe = frame.lastframe;
                proof {
                    lemma_clones_are_equal(before.take(index as int), self.data@);
                    assert(self@.entries =~= old(self)@.pop_frame().entries);
                    lemma_pop_frame_linked(old(self)@);
                }
                Some(frame.retaddr)
            },
            PlStackElement::Value(_) => vstd::pervasive::unreached(),
        }
    }

    /// The operand on top, sharing its storage with the one on the stack.
    pub fn top(&self) -> (r: Pv)
        requires
            self@.has_top(),
        ensures
            PlEntry::Value(r@) == self@.entries.last(),
    {
        match self.topelement() {
            PlStackElement::Value(v) => v,
            PlStackElement::Frame(_) => vstd::pervasive::unreached(),
        }
    }

    /// The entry on top.
    pub fn topelement(&self) -> (r: PlStackElement)
        requires
            self@.entries.len() > 0,
        ensures
            r@ == self@.entries.last(),
    {
        self.data.get(self.data.len() - 1)
    }
}

impl Clone for PlStack {
    /// The same stack, sharing its storage with this one until either is
    /// written to.
    fn clone(&self) -> (r: Self)
        ensures
            r == *self,
    {
        PlStack { data: self.data.clone(), topframe: self.topframe }
    }
}

}
