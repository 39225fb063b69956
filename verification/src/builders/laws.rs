//! Laws of the two-pass encoding discipline.
//!
//! The theorems here quantify over whole serialization routines,
//! abstracted as sequences of [`ScribeOp`].  The builders' methods
//! promise exactly the [`len_step`] and [`ser_step`] transitions these
//! theorems fold, so what is proved of the folds holds of any caller
//! that drives the builders through the same calls in both passes.

use crate::builders::two_pass::len_enabled;
use crate::builders::two_pass::len_init;
use crate::builders::two_pass::len_run;
use crate::builders::two_pass::len_run_enabled;
use crate::builders::two_pass::len_step;
use crate::builders::two_pass::lost_run;
use crate::builders::two_pass::lost_step;
use crate::builders::two_pass::opens_count;
use crate::builders::two_pass::opens_fields;
use crate::builders::two_pass::ops_wf;
use crate::builders::two_pass::ser_enabled;
use crate::builders::two_pass::ser_init;
use crate::builders::two_pass::ser_run;
use crate::builders::two_pass::ser_run_enabled;
use crate::builders::two_pass::ser_step;
use crate::builders::two_pass::LenFrame;
use crate::builders::two_pass::LenPass;
use crate::builders::two_pass::ScribeOp;
use crate::builders::two_pass::SerPass;
use crate::wire::model::varint_len;
use vstd::prelude::*;

verus! {

/// The sum of the snapshots held by the open regions.
pub open spec fn sum_saved(stack: Seq<LenFrame>) -> int
    decreases stack.len(),
{
    if stack.len() == 0 {
        0
    } else {
        sum_saved(stack.drop_last()) + stack.last().saved
    }
}

/// The widths of the length prefixes still owed for the open regions,
/// read from the recorded lengths they will settle into.
pub open spec fn promised(stack: Seq<LenFrame>, lens: Seq<(u32, int)>) -> int
    decreases stack.len(),
{
    if stack.len() == 0 {
        0
    } else {
        promised(stack.drop_last(), lens) + varint_len(lens[stack.last().idx].1 as nat)
    }
}

/// Whether some open region's length lives in slot `j`.
pub open spec fn idx_in_stack(stack: Seq<LenFrame>, j: int) -> bool {
    exists|k: int| 0 <= k < stack.len() && (#[trigger] stack[k]).idx == j
}

/// Internal order of a measurement-pass state: the open regions hold
/// distinct, in-range slots in opening order.
pub open spec fn len_inv(st: LenPass) -> bool {
    &&& forall|k: int| 0 <= k < st.stack.len() ==> 0 <= (#[trigger] st.stack[k]).idx
        < st.lens.len()
    &&& forall|k1: int, k2: int|
        0 <= k1 < k2 < st.stack.len() ==> (#[trigger] st.stack[k1]).idx < (
        #[trigger] st.stack[k2]).idx
}

/// One accepted operation preserves the measurement pass's internal
/// order.
pub proof fn lemma_len_step_inv(st: LenPass, op: ScribeOp)
    requires
        len_inv(st),
        len_enabled(st, op),
    ensures
        len_inv(len_step(st, op)),
{
    let st1 = len_step(st, op);
    match op {
        ScribeOp::Open { field, packed } => {
            assert(forall|k: int|
                0 <= k < st.stack.len() ==> st1.stack[k] == (#[trigger] st.stack[k]));
            assert(st1.stack[st1.stack.len() - 1].idx == st.lens.len());
        },
        ScribeOp::Close { field, packed } => {
            assert(forall|k: int|
                0 <= k < st1.stack.len() ==> st1.stack[k] == (#[trigger] st.stack[k]));
        },
        _ => {},
    }
}

/// The lockstep relation between the two passes: the serialization
/// cursor sits exactly past the slots the measurement pass has
/// reserved, and the measurement pass keeps its internal order.
pub open spec fn passes_inv(st_len: LenPass, st_ser: SerPass) -> bool {
    &&& st_ser.next == st_len.lens.len()
    &&& len_inv(st_len)
}

/// The measurement pass reserves one slot per open, and never renames a
/// slot's field number.
pub proof fn lemma_lens_monotone(st: LenPass, ops: Seq<ScribeOp>)
    requires
        len_run_enabled(st, ops),
        len_inv(st),
    ensures
        opens_count(ops) >= 0,
        len_run(st, ops).lens.len() == st.lens.len() + opens_count(ops),
        forall|j: int|
            0 <= j < st.lens.len() ==> (#[trigger] len_run(st, ops).lens[j]).0 == st.lens[j].0,
    decreases ops.len(),
{
    if ops.len() > 0 {
        let st1 = len_step(st, ops[0]);
        lemma_len_step_inv(st, ops[0]);
        lemma_lens_monotone(st1, ops.skip(1));
        match ops[0] {
            ScribeOp::Close { .. } => {
                let fr = st.stack.last();
                assert(st.stack[st.stack.len() - 1] == fr);
                assert(0 <= fr.idx < st.lens.len());
                assert(forall|j: int|
                    0 <= j < st.lens.len() ==> (#[trigger] st1.lens[j]).0 == st.lens[j].0);
            },
            _ => {},
        }
    }
}

/// A slot not owned by any open region is never written again.
pub proof fn lemma_slot_stable(st: LenPass, ops: Seq<ScribeOp>, j: int)
    requires
        len_run_enabled(st, ops),
        len_inv(st),
        0 <= j < st.lens.len(),
        !idx_in_stack(st.stack, j),
    ensures
        len_run(st, ops).lens[j] == st.lens[j],
    decreases ops.len(),
{
    if ops.len() > 0 {
        let st1 = len_step(st, ops[0]);
        lemma_len_step_inv(st, ops[0]);
        match ops[0] {
            ScribeOp::Open { field, packed } => {
                assert(!idx_in_stack(st1.stack, j)) by {
                    assert(forall|k: int|
                        0 <= k < st.stack.len() ==> st1.stack[k] == (#[trigger] st.stack[k]));
                };
                assert(st1.lens[j] == st.lens[j]);
            },
            ScribeOp::Close { field, packed } => {
                let fr = st.stack.last();
                assert(st.stack[st.stack.len() - 1] == fr);
                assert(0 <= fr.idx < st.lens.len());
                assert(fr.idx != j) by {
                    assert(st.stack[st.stack.len() - 1].idx == fr.idx);
                };
                assert(!idx_in_stack(st1.stack, j)) by {
                    assert(forall|k: int|
                        0 <= k < st1.stack.len() ==> st1.stack[k] == (#[trigger] st.stack[k]));
                };
                assert(st1.lens[j] == st.lens[j]);
            },
            _ => {},
        }
        lemma_slot_stable(st1, ops.skip(1), j);
    }
}

/// The measurement pass records the opens' field numbers, in opening
/// order: slot `k` past the starting slots carries the `k`-th open's
/// field number.
pub proof fn lemma_recorded_fields(st: LenPass, ops: Seq<ScribeOp>)
    requires
        len_run_enabled(st, ops),
        len_inv(st),
    ensures
        opens_fields(ops).len() == opens_count(ops),
        len_run(st, ops).lens.len() == st.lens.len() + opens_fields(ops).len(),
        forall|k: int|
            0 <= k < opens_fields(ops).len() ==> (#[trigger] len_run(st, ops).lens[st.lens.len()
                + k]).0 == opens_fields(ops)[k],
    decreases ops.len(),
{
    lemma_lens_monotone(st, ops);
    if ops.len() > 0 {
        let st1 = len_step(st, ops[0]);
        lemma_len_step_inv(st, ops[0]);
        lemma_recorded_fields(st1, ops.skip(1));
        match ops[0] {
            ScribeOp::Open { field, packed } => {
                lemma_lens_monotone(st1, ops.skip(1));
                assert(st1.lens[st.lens.len() as int].0 == field);
                assert(len_run(st, ops).lens[st.lens.len() as int].0 == field);
                assert(opens_fields(ops)[0] == field);
                assert forall|k: int| 0 <= k < opens_fields(ops).len() implies (#[trigger] len_run(
                    st,
                    ops,
                ).lens[st.lens.len() + k]).0 == opens_fields(ops)[k] by {
                    if k > 0 {
                        assert(opens_fields(ops)[k] == opens_fields(ops.skip(1))[k - 1]);
                        assert(len_run(st1, ops.skip(1)).lens[st1.lens.len() + (k - 1)].0
                            == opens_fields(ops.skip(1))[k - 1]);
                    }
                }
            },
            _ => {},
        }
    }
}

/// One pass of the lockstep simulation: running both passes over the
/// same routine keeps them related, the serialization pass accepts
/// every operation, consumes one recorded length per open, and its
/// output grows by exactly the change in the measurement pass's
/// accounted total plus what that pass forgets at top-level closes.
pub proof fn lemma_sim(st_len: LenPass, st_ser: SerPass, ops: Seq<ScribeOp>)
    requires
        ops_wf(ops),
        len_run_enabled(st_len, ops),
        passes_inv(st_len, st_ser),
    ensures
        ser_run_enabled(st_ser, len_run(st_len, ops).lens, ops),
        ser_run(st_ser, len_run(st_len, ops).lens, ops).next == st_ser.next + opens_count(ops),
        passes_inv(len_run(st_len, ops), ser_run(st_ser, len_run(st_len, ops).lens, ops)),
        ser_run(st_ser, len_run(st_len, ops).lens, ops).emitted - st_ser.emitted == (len_run(
            st_len,
            ops,
        ).cur + sum_saved(len_run(st_len, ops).stack) + promised(
            len_run(st_len, ops).stack,
            len_run(st_len, ops).lens,
        )) - (st_len.cur + sum_saved(st_len.stack) + promised(
            st_len.stack,
            len_run(st_len, ops).lens,
        )) + lost_run(st_len, ops),
    decreases ops.len(),
{
    let fin = len_run(st_len, ops);
    if ops.len() > 0 {
        let op = ops[0];
        let st1 = len_step(st_len, op);
        let ss1 = ser_step(st_ser, fin.lens, op);
        assert(ops_wf(ops.skip(1))) by {
            assert(forall|i: int|
                0 <= i < ops.skip(1).len() ==> ops.skip(1)[i] == (#[trigger] ops[i + 1]));
        };
        assert(fin == len_run(st1, ops.skip(1)));
        lemma_len_step_inv(st_len, op);
        match op {
            ScribeOp::Scalar { field, code, payload } => {
                assert(passes_inv(st1, ss1));
                lemma_sim(st1, ss1, ops.skip(1));
            },
            ScribeOp::PackedItem { payload } => {
                assert(passes_inv(st1, ss1));
                lemma_sim(st1, ss1, ops.skip(1));
            },
            ScribeOp::Open { field, packed } => {
                let newfr = LenFrame {
                    saved: st_len.cur + crate::builders::two_pass::tag_len_of(field),
                    packed,
                    idx: st_len.lens.len() as int,
                    field,
                };
                assert(st1.stack == st_len.stack.push(newfr));
                assert(st1.lens == st_len.lens.push((field, 0)));
                // The new slot keeps its field number to the end.
                lemma_lens_monotone(st1, ops.skip(1));
                assert(fin.lens[st_ser.next as int].0 == field);
                assert(ser_enabled(st_ser, fin.lens, op));
                // The new frame's slot is fresh and in range.
                assert(passes_inv(st1, ss1)) by {
                    assert(forall|k: int|
                        0 <= k < st_len.stack.len() ==> st1.stack[k] == (#[trigger] st_len.stack[k]));
                    assert(st1.stack[st1.stack.len() - 1] == newfr);
                };
                // Sums over the pushed frame.
                assert(sum_saved(st1.stack) == sum_saved(st_len.stack) + newfr.saved) by {
                    assert(st1.stack.drop_last() =~= st_len.stack);
                };
                assert(promised(st1.stack, fin.lens) == promised(st_len.stack, fin.lens)
                    + varint_len(fin.lens[newfr.idx].1 as nat)) by {
                    assert(st1.stack.drop_last() =~= st_len.stack);
                };
                lemma_sim(st1, ss1, ops.skip(1));
            },
            ScribeOp::Close { field, packed } => {
                let fr = st_len.stack.last();
                let stack1 = st_len.stack.drop_last();
                assert(st1.stack == stack1);
                assert(st1.lens == st_len.lens.update(fr.idx, (st_len.lens[fr.idx].0, st_len.cur)));
                assert(st_len.stack[st_len.stack.len() - 1] == fr);
                assert(0 <= fr.idx < st_len.lens.len());
                // The slot just written is final: no remaining frame owns it.
                assert(!idx_in_stack(st1.stack, fr.idx)) by {
                    assert(forall|k: int|
                        0 <= k < st1.stack.len() ==> st1.stack[k] == (#[trigger] st_len.stack[k]));
                };
                lemma_slot_stable(st1, ops.skip(1), fr.idx);
                assert(fin.lens[fr.idx].1 == st_len.cur);
                assert(passes_inv(st1, ss1)) by {
                    assert(forall|k: int|
                        0 <= k < st1.stack.len() ==> st1.stack[k] == (#[trigger] st_len.stack[k]));
                };
                // Sums over the popped frame.
                assert(sum_saved(st_len.stack) == sum_saved(stack1) + fr.saved);
                assert(promised(st_len.stack, fin.lens) == promised(stack1, fin.lens) + varint_len(
                    fin.lens[fr.idx].1 as nat,
                ));
                // The remaining frames promise the same prefixes in both
                // measurements of the unchanged final lengths.
                lemma_sim(st1, ss1, ops.skip(1));
                if st_len.stack.len() == 1 {
                    assert(lost_step(st_len, op) == fr.saved + varint_len(st_len.cur as nat));
                } else {
                    assert(lost_step(st_len, op) == 0);
                }
            },
        }
    }
}

/// Pass agreement: a routine the measurement pass accepts is accepted
/// by the serialization pass against the recorded lengths, each open
/// consumes the recorded length reserved for it, and the cursor ends at
/// one past the last slot exactly when every open has run.  When the
/// routine also closes every region it opens, the bytes the
/// serialization pass emits are the measurement pass's top-level total
/// plus what that pass forgot at each top-level close.
pub proof fn lemma_passes_agree(ops: Seq<ScribeOp>)
    requires
        ops_wf(ops),
        len_run_enabled(len_init(), ops),
    ensures
        ser_run_enabled(ser_init(), len_run(len_init(), ops).lens, ops),
        ser_run(ser_init(), len_run(len_init(), ops).lens, ops).next == opens_count(ops),
        ser_run(ser_init(), len_run(len_init(), ops).lens, ops).next == len_run(
            len_init(),
            ops,
        ).lens.len(),
        forall|k: int|
            0 <= k < opens_fields(ops).len() ==> (#[trigger] len_run(len_init(), ops).lens[k]).0
                == opens_fields(ops)[k],
        len_run(len_init(), ops).stack.len() == 0 ==> ser_run(
            ser_init(),
            len_run(len_init(), ops).lens,
            ops,
        ).emitted == len_run(len_init(), ops).cur + lost_run(len_init(), ops),
{
    lemma_sim(len_init(), ser_init(), ops);
    lemma_lens_monotone(len_init(), ops);
    lemma_recorded_fields(len_init(), ops);
    assert forall|k: int| 0 <= k < opens_fields(ops).len() implies (#[trigger] len_run(
        len_init(),
        ops,
    ).lens[k]).0 == opens_fields(ops)[k] by {
        assert(len_run(len_init(), ops).lens[len_init().lens.len() + k].0 == opens_fields(ops)[k]);
    }
}

/// Sum invariant for flat routines: when a routine opens no region, the
/// serialization pass emits exactly as many bytes as the measurement
/// pass's accumulator reports.
pub proof fn lemma_flat_routine_sum(ops: Seq<ScribeOp>)
    requires
        ops_wf(ops),
        forall|i: int| 0 <= i < ops.len() ==> !((#[trigger] ops[i]) is Open) && !(ops[i] is Close),
    ensures
        len_run_enabled(len_init(), ops),
        ser_run(ser_init(), len_run(len_init(), ops).lens, ops).emitted == len_run(
            len_init(),
            ops,
        ).cur,
{
    lemma_flat_enabled_lost(len_init(), ops);
    lemma_passes_agree(ops);
}

/// A routine without opens or closes is always accepted and forgets
/// nothing, and leaves the stack as it found it.
proof fn lemma_flat_enabled_lost(st: LenPass, ops: Seq<ScribeOp>)
    requires
        forall|i: int| 0 <= i < ops.len() ==> !((#[trigger] ops[i]) is Open) && !(ops[i] is Close),
    ensures
        len_run_enabled(st, ops),
        lost_run(st, ops) == 0,
        len_run(st, ops).stack == st.stack,
    decreases ops.len(),
{
    if ops.len() > 0 {
        let st1 = len_step(st, ops[0]);
        assert(forall|i: int|
            0 <= i < ops.skip(1).len() ==> ops.skip(1)[i] == (#[trigger] ops[i + 1]));
        lemma_flat_enabled_lost(st1, ops.skip(1));
    }
}

} // verus!
