//! Model of the two-pass encoding discipline.
//!
//! A caller's serialization routine is abstracted as a sequence of
//! [`ScribeOp`]: scalar field writes, region opens and closes, and packed
//! items.  [`len_step`] is what one operation does to the measurement
//! pass, [`ser_step`] what it does to the serialization pass; the
//! builders' methods promise exactly these transitions.  The laws over
//! whole routines are proved in the laws module.

use crate::wire::model::tag_value;
use crate::wire::model::varint_len;
use vstd::prelude::*;

verus! {

/// One call of a serialization routine against a scribe, reduced to what
/// the two passes see: the field number, the wire-type code, and the
/// payload bytes that follow the tag.
pub enum ScribeOp {
    /// A scalar field write; `payload` holds everything after the tag
    /// (for strings and bytes, the length prefix and the contents).
    Scalar { field: u32, code: u32, payload: Seq<u8> },
    /// Opening a length-delimited region: a sub-message or a packed
    /// field.
    Open { field: u32, packed: bool },
    /// Closing the innermost open region.
    Close { field: u32, packed: bool },
    /// One tag-less item inside an open packed region.
    PackedItem { payload: Seq<u8> },
}

/// A payload of `n` zero bytes: the canonical stand-in for a payload the
/// measurement pass only knows the width of.
pub open spec fn zero_bytes(n: nat) -> Seq<u8> {
    Seq::new(n, |i: int| 0u8)
}

/// The byte length of the tag carrying a field number; it does not
/// depend on the wire-type code.
pub open spec fn tag_len_of(f: u32) -> int {
    varint_len(tag_value(f, 0) as nat) as int
}

/// One in-flight region of the measurement pass.
pub struct LenFrame {
    /// The enclosing region's partial sum, including this region's tag,
    /// snapshotted when the region was opened.
    pub saved: int,
    /// Whether the region is a packed field rather than a sub-message.
    pub packed: bool,
    /// The slot of the region's length in the recorded lengths.
    pub idx: int,
    /// The field number the region was opened under.
    pub field: u32,
}

/// State of the measurement pass: the running partial sum of the
/// innermost open region, the recorded `(field, length)` pairs, and the
/// stack of open regions.
pub struct LenPass {
    pub cur: int,
    pub lens: Seq<(u32, int)>,
    pub stack: Seq<LenFrame>,
}

/// State of the serialization pass: how many bytes it has emitted and
/// how many recorded lengths it has consumed.
pub struct SerPass {
    pub emitted: int,
    pub next: int,
}

/// The measurement pass before any operation.
pub open spec fn len_init() -> LenPass {
    LenPass { cur: 0, lens: Seq::empty(), stack: Seq::empty() }
}

/// The serialization pass before any operation.
pub open spec fn ser_init() -> SerPass {
    SerPass { emitted: 0, next: 0 }
}

/// Whether an operation names a field number and wire-type code the
/// format allows.
pub open spec fn op_wf(op: ScribeOp) -> bool {
    match op {
        ScribeOp::Scalar { field, code, .. } => field <= 0x1FFF_FFFF && code < 8,
        ScribeOp::Open { field, .. } => field <= 0x1FFF_FFFF,
        ScribeOp::Close { field, .. } => field <= 0x1FFF_FFFF,
        ScribeOp::PackedItem { .. } => true,
    }
}

/// Whether every operation of a routine is well formed.
pub open spec fn ops_wf(ops: Seq<ScribeOp>) -> bool {
    forall|i: int| 0 <= i < ops.len() ==> op_wf(#[trigger] ops[i])
}

/// Whether the measurement pass accepts an operation: a close must match
/// the innermost open region in field number and kind.
pub open spec fn len_enabled(st: LenPass, op: ScribeOp) -> bool {
    match op {
        ScribeOp::Close { field, packed } => st.stack.len() > 0 && st.stack.last().field == field
            && st.stack.last().packed == packed,
        _ => true,
    }
}

/// What one operation does to the measurement pass.
///
/// A scalar adds its tag width and payload width to the running sum.  An
/// open snapshots the enclosing sum (tag included) into a new frame,
/// reserves a zeroed slot among the recorded lengths, and restarts the
/// sum.  A close stores the finished sum into the region's slot and
/// restores the enclosing sum, now also counting the length prefix whose
/// width has just become known; when no region remains open the sum is
/// simply left as it is.
pub open spec fn len_step(st: LenPass, op: ScribeOp) -> LenPass {
    match op {
        ScribeOp::Scalar { field, code, payload } => LenPass {
            cur: st.cur + tag_len_of(field) + payload.len(),
            lens: st.lens,
            stack: st.stack,
        },
        ScribeOp::PackedItem { payload } => LenPass {
            cur: st.cur + payload.len(),
            lens: st.lens,
            stack: st.stack,
        },
        ScribeOp::Open { field, packed } => LenPass {
            cur: 0,
            lens: st.lens.push((field, 0)),
            stack: st.stack.push(
                LenFrame {
                    saved: st.cur + tag_len_of(field),
                    packed,
                    idx: st.lens.len() as int,
                    field,
                },
            ),
        },
        ScribeOp::Close { field, packed } => {
            let fr = st.stack.last();
            let stack1 = st.stack.drop_last();
            LenPass {
                cur: if stack1.len() > 0 {
                    fr.saved + varint_len(st.cur as nat) + st.cur
                } else {
                    st.cur
                },
                lens: st.lens.update(fr.idx, (st.lens[fr.idx].0, st.cur)),
                stack: stack1,
            }
        },
    }
}

/// Whether the serialization pass accepts an operation against the
/// recorded lengths: an open must find its own field number at the
/// cursor.
pub open spec fn ser_enabled(st: SerPass, lens: Seq<(u32, int)>, op: ScribeOp) -> bool {
    match op {
        ScribeOp::Open { field, .. } => st.next < lens.len() && lens[st.next].0 == field,
        _ => true,
    }
}

/// What one operation does to the serialization pass: a scalar emits its
/// tag and payload, an open emits its tag and the recorded length as a
/// varint and advances the cursor, a close emits nothing.
pub open spec fn ser_step(st: SerPass, lens: Seq<(u32, int)>, op: ScribeOp) -> SerPass {
    match op {
        ScribeOp::Scalar { field, code, payload } => SerPass {
            emitted: st.emitted + tag_len_of(field) + payload.len(),
            next: st.next,
        },
        ScribeOp::PackedItem { payload } => SerPass {
            emitted: st.emitted + payload.len(),
            next: st.next,
        },
        ScribeOp::Open { field, .. } => SerPass {
            emitted: st.emitted + tag_len_of(field) + varint_len(lens[st.next].1 as nat),
            next: st.next + 1,
        },
        ScribeOp::Close { .. } => st,
    }
}

/// The measurement pass folded over a whole routine.
pub open spec fn len_run(st: LenPass, ops: Seq<ScribeOp>) -> LenPass
    decreases ops.len(),
{
    if ops.len() == 0 {
        st
    } else {
        len_run(len_step(st, ops[0]), ops.skip(1))
    }
}

/// Whether the measurement pass accepts a whole routine.
pub open spec fn len_run_enabled(st: LenPass, ops: Seq<ScribeOp>) -> bool
    decreases ops.len(),
{
    ops.len() == 0 || (len_enabled(st, ops[0]) && len_run_enabled(len_step(st, ops[0]), ops.skip(1)))
}

/// The serialization pass folded over a whole routine.
pub open spec fn ser_run(st: SerPass, lens: Seq<(u32, int)>, ops: Seq<ScribeOp>) -> SerPass
    decreases ops.len(),
{
    if ops.len() == 0 {
        st
    } else {
        ser_run(ser_step(st, lens, ops[0]), lens, ops.skip(1))
    }
}

/// Whether the serialization pass accepts a whole routine.
pub open spec fn ser_run_enabled(st: SerPass, lens: Seq<(u32, int)>, ops: Seq<ScribeOp>) -> bool
    decreases ops.len(),
{
    ops.len() == 0 || (ser_enabled(st, lens, ops[0]) && ser_run_enabled(
        ser_step(st, lens, ops[0]),
        lens,
        ops.skip(1),
    ))
}

/// The number of region opens in a routine.
pub open spec fn opens_count(ops: Seq<ScribeOp>) -> int
    decreases ops.len(),
{
    if ops.len() == 0 {
        0
    } else {
        (if ops[0] is Open {
            1int
        } else {
            0int
        }) + opens_count(ops.skip(1))
    }
}

/// The field numbers of a routine's region opens, in order.
pub open spec fn opens_fields(ops: Seq<ScribeOp>) -> Seq<u32>
    decreases ops.len(),
{
    if ops.len() == 0 {
        Seq::empty()
    } else {
        match ops[0] {
            ScribeOp::Open { field, .. } => seq![field] + opens_fields(ops.skip(1)),
            _ => opens_fields(ops.skip(1)),
        }
    }
}

/// What the measurement pass forgets: at a close that empties the stack,
/// the enclosing partial sum and the length prefix's width are dropped
/// rather than folded into the accumulator.
pub open spec fn lost_step(st: LenPass, op: ScribeOp) -> int {
    match op {
        ScribeOp::Close { .. } => if st.stack.len() == 1 {
            st.stack.last().saved + varint_len(st.cur as nat)
        } else {
            0
        },
        _ => 0,
    }
}

/// The total amount the measurement pass forgets over a routine.
pub open spec fn lost_run(st: LenPass, ops: Seq<ScribeOp>) -> int
    decreases ops.len(),
{
    if ops.len() == 0 {
        0
    } else {
        lost_step(st, ops[0]) + lost_run(len_step(st, ops[0]), ops.skip(1))
    }
}

/// The measurement pass only reads a scalar payload's length, never its
/// contents.
pub proof fn lemma_len_step_scalar_payload(st: LenPass, f: u32, c1: u32, c2: u32, p1: Seq<u8>, p2: Seq<u8>)
    requires
        p1.len() == p2.len(),
    ensures
        len_step(st, ScribeOp::Scalar { field: f, code: c1, payload: p1 }) == len_step(
            st,
            ScribeOp::Scalar { field: f, code: c2, payload: p2 },
        ),
        len_step(st, ScribeOp::PackedItem { payload: p1 }) == len_step(
            st,
            ScribeOp::PackedItem { payload: p2 },
        ),
{
}

} // verus!
