//! The compute pass: its bind-group layout, and what each run of the pass
//! dispatches and copies.
use vstd::prelude::*;
use crate::bindings::{slot_in, BindingTable};

verus! {

/// Number of 32-bit values that the compute pass writes.
pub const OUTPUT_WORDS: usize = 6;

/// Size in bytes of the output buffer and of the staging buffer.
pub const OUTPUT_BYTES: u64 = 24;

/// Workgroups dispatched along the first axis.
pub const WORKGROUPS_X: u32 = 6;

/// Name of the output buffer's parameter in the shader.
pub open spec fn output_name() -> Seq<char> {
    "outputBuffer"@
}

/// One storage-buffer entry of the bind-group layout.
#[derive(Clone, Copy, Debug, PartialEq, Eq, Structural)]
pub struct LayoutEntry {
    pub binding: u32,
    pub min_binding_size: u64,
}

/// A dispatch of the compute program with the output buffer at `slot`.
#[derive(Clone, Copy, Debug, PartialEq, Eq, Structural)]
pub struct Dispatch {
    pub slot: u32,
    pub workgroups: u32,
}

/// What one run of the compute pass does.
#[derive(Clone, Copy, Debug, PartialEq, Eq, Structural)]
pub struct PassPlan {
    /// The dispatch, when the program is ready and its output is bound.
    pub dispatch: Option<Dispatch>,
    /// The program is ready but no slot is known for the output buffer: the
    /// dispatch is skipped and the condition is reported.
    pub unresolved: bool,
    /// Bytes copied from the output buffer into the staging buffer.
    pub copy_bytes: u64,
}

/// The layout of the pass: one storage entry per name in `table`, in table
/// order, each the size of the output buffer.
pub fn layout_entries(table: &BindingTable) -> (r: Vec<LayoutEntry>)
    ensures
        r@.len() == table@.len(),
        forall|i: int| 0 <= i < r@.len() ==> (#[trigger] r@[i]).binding == table@[i].1
            && r@[i].min_binding_size == OUTPUT_BYTES,
{
    let slots = table.slots();
    let mut out: Vec<LayoutEntry> = Vec::with_capacity(slots.len());
    let mut i: usize = 0;
    while i < slots.len()
        invariant
            slots@ == table@.map_values(|p: (Seq<char>, u32)| p.1),
            i <= slots@.len(),
            out@.len() == i,
            forall|k: int| 0 <= k < i ==> (#[trigger] out@[k]).binding == table@[k].1
                && out@[k].min_binding_size == OUTPUT_BYTES,
        decreases slots@.len() - i,
    {
        out.push(LayoutEntry { binding: slots[i], min_binding_size: OUTPUT_BYTES });
        i = i + 1;
    }
    out
}

/// What a run of the compute pass does. With no pipeline set up yet, or
/// with the output buffer or the staging buffer not created yet, it does
/// nothing (`None`): the pass is skipped, which is no failure. Otherwise it
/// always copies the output buffer into the
/// staging buffer, and before that dispatches the program when the program
/// is ready and the output buffer's slot is known; a ready program whose
/// output slot is unknown is reported and not dispatched.
pub fn plan_pass(
    has_pipeline: bool,
    buffers_ready: bool,
    program_ready: bool,
    table: &BindingTable,
) -> (r: Option<PassPlan>)
    requires
        table.wf(),
    ensures
        !(has_pipeline && buffers_ready) ==> r is None,
        has_pipeline && buffers_ready ==> r == Some(PassPlan {
            dispatch: if program_ready && slot_in(table@, output_name()) is Some {
                Some(Dispatch { slot: slot_in(table@, output_name())->Some_0, workgroups: WORKGROUPS_X })
            } else {
                None
            },
            unresolved: program_ready && slot_in(table@, output_name()) is None,
            copy_bytes: OUTPUT_BYTES,
        }),
{
    if !has_pipeline || !buffers_ready {
        return None;
    }
    let name = "outputBuffer".to_owned();
    proof {
        reveal_strlit("outputBuffer");
    }
    let mut dispatch: Option<Dispatch> = None;
    let mut unresolved = false;
    if program_ready {
        match table.get(&name) {
            Some(slot) => {
                dispatch = Some(Dispatch { slot, workgroups: WORKGROUPS_X });
            },
            None => {
                unresolved = true;
            },
        }
    }
    Some(PassPlan { dispatch, unresolved, copy_bytes: OUTPUT_BYTES })
}

} // verus!
