//! The call stack: the frame of the call that is running, and those of
//! its callers.

use vstd::prelude::*;
use crate::args::Args;
use crate::heap::Heap;
use crate::key::{Key, KeyId};
use crate::object::{Kind, Object, Value, ValueView};
use crate::store::CellView;

verus! {

/// The frames of the calls that are running, the innermost last.
#[derive(Debug)]
pub struct Binding {
    frames: Vec<Object>,
}

impl View for Binding {
    type V = Seq<Object>;

    closed spec fn view(&self) -> Seq<Object> {
        self.frames@
    }
}

/// The attributes that a frame starts with: the list of the positional
/// arguments under `__args__`, and the receiver, where there is one, under
/// `__this__`.
pub open spec fn frame_attrs(this: Option<Object>, list: Object) -> Map<KeyId, Object> {
    let with_args = Map::<KeyId, Object>::empty().insert(KeyId::Name("__args__"@), list);
    match this {
        Some(o) => with_args.insert(KeyId::Name("__this__"@), o),
        None => with_args,
    }
}

impl Binding {
    /// Every frame names one of `len` cells.
    pub open spec fn within(&self, len: nat) -> bool {
        forall|i: int| 0 <= i < self@.len() ==> (#[trigger] self@[i]).id < len
    }

    /// A call stack without frames.
    pub fn new() -> (b: Binding)
        ensures
            b@ == Seq::<Object>::empty(),
    {
        Binding { frames: Vec::new() }
    }

    /// How many calls are running.
    pub fn depth(&self) -> (n: usize)
        ensures
            n == self@.len(),
    {
        self.frames.len()
    }

    /// The frame of the innermost call that is running.
    pub fn current(&self) -> (frame: Option<Object>)
        ensures
            frame == if self@.len() > 0 {
                Some(self@.last())
            } else {
                None
            },
    {
        if self.frames.len() > 0 {
            Some(self.frames[self.frames.len() - 1])
        } else {
            None
        }
    }

    /// Enters a call: makes a list object of the positional arguments and
    /// a frame object that has it and the receiver as attributes, and puts
    /// the frame on the stack.
    pub fn new_stackframe(&mut self, heap: &mut Heap, args: &Args) -> (frame: Object)
        requires
            old(heap).wf(),
            args.within(old(heap)@.len()),
            old(self).within(old(heap)@.len()),
        ensures
            final(heap).wf(),
            final(heap).mappings() == old(heap).mappings(),
            final(self)@ == old(self)@.push(frame),
            final(self).within(final(heap)@.len()),
            frame.id == old(heap)@.len() + 1,
            final(heap)@ == old(heap)@.push(
                CellView {
                    value: ValueView::List(args.args@),
                    attrs: Map::empty(),
                    parents: old(heap).mappings().parents_for(Kind::List),
                },
            ).push(
                CellView {
                    value: ValueView::Pristine,
                    attrs: frame_attrs(args.this, Object { id: old(heap)@.len() as usize }),
                    parents: old(heap).mappings().parents_for(Kind::Pristine),
                },
            ),
    {
        let ghost before = heap@;
        let list = heap.new_object(Value::List(args.args.clone()));
        let frame = heap.new_object(Value::Pristine);
        heap.set_attr(frame, &Key::Literal("__args__"), list);
        match args.this {
            Some(this) => {
                heap.set_attr(frame, &Key::Literal("__this__"), this);
            },
            None => {},
        }
        let ghost stack = self.frames@;
        self.frames.push(frame);
        proof {
            assert(heap@ =~= before.push(
                CellView {
                    value: ValueView::List(args.args@),
                    attrs: Map::empty(),
                    parents: heap.mappings().parents_for(Kind::List),
                },
            ).push(
                CellView {
                    value: ValueView::Pristine,
                    attrs: frame_attrs(args.this, list),
                    parents: heap.mappings().parents_for(Kind::Pristine),
                },
            ));
            assert forall|i: int| 0 <= i < self@.len() implies (#[trigger] self@[i]).id
                < heap@.len() by {
                if i < stack.len() {
                    assert(self@[i] == stack[i]);
                    assert(old(self)@[i].id < before.len());
                } else {
                    assert(self@[i] == frame);
                }
            }
        }
        frame
    }

    /// Leaves the innermost call: takes its frame off the stack and hands
    /// it back. `None` where no call is running.
    pub fn leave(&mut self) -> (frame: Option<Object>)
        ensures
            match frame {
                Some(f) => old(self)@.len() > 0 && f == old(self)@.last()
                    && final(self)@ == old(self)@.drop_last(),
                None => old(self)@.len() == 0 && final(self)@ == old(self)@,
            },
    {
        self.frames.pop()
    }
}

} // verus!
