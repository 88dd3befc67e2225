//! The safety rules around one native conversion engine instance: how the
//! result of opening it is judged, when it must be released, and how the
//! bytes of a conversion are accounted for.
//!
//! The native engine itself is an opaque external resource reached over a
//! foreign-function boundary; nothing here calls it. This module fixes the
//! decisions the caller of that boundary must make: the exact sentinel that
//! marks a failed open, the release-at-most-once rule, the spare capacity a
//! buffered conversion must reserve, and the exact bytes an append-style
//! conversion leaves in the caller's buffer.

use vstd::prelude::*;

use crate::error::OpenCCError;

verus! {

/// The pointer-sized value by which the native engine signals a failed open.
/// It is a specific out-of-range sentinel, not a null pointer: a null result
/// counts as a usable handle.
pub const OPEN_FAILURE_SENTINEL: usize = usize::MAX;

/// The wrapper's record of one native engine instance: the opaque handle as
/// a pointer-sized integer, and whether the instance was already released.
pub struct EngineHandle {
    raw: usize,
    closed: bool,
}

impl EngineHandle {
    /// The opaque native handle value.
    pub closed spec fn id(self) -> usize {
        self.raw
    }

    /// Whether the instance has been released.
    pub closed spec fn is_closed(self) -> bool {
        self.closed
    }

    /// A well-formed handle never wraps the failure sentinel.
    pub open spec fn wf(self) -> bool {
        self.id() != OPEN_FAILURE_SENTINEL
    }

    /// Judge what the native open returned: exactly the sentinel value is a
    /// failed open, every other value (a null pointer included) is a usable,
    /// not yet released handle.
    pub fn from_open_result(raw: usize) -> (r: Result<EngineHandle, OpenCCError>)
        ensures
            raw == OPEN_FAILURE_SENTINEL <==> r is Err,
            r is Err ==> r->Err_0 == OpenCCError::ConfigLoad,
            r is Ok ==> r->Ok_0.id() == raw && !r->Ok_0.is_closed() && r->Ok_0.wf(),
    {
        if raw == OPEN_FAILURE_SENTINEL {
            Err(OpenCCError::ConfigLoad)
        } else {
            Ok(EngineHandle { raw, closed: false })
        }
    }

    /// The opaque native handle value, for handing back across the boundary.
    pub fn raw(&self) -> (r: usize)
        ensures
            r == self.id(),
    {
        self.raw
    }

    /// Whether the native close call is still owed: only an instance that
    /// was never released, and whose handle is not null, must be closed.
    pub fn needs_close(&self) -> (r: bool)
        ensures
            r == (!self.is_closed() && self.id() != 0),
    {
        !self.closed && self.raw != 0
    }

    /// Record that the native close call was made. After this,
    /// `needs_close` never answers true again, so release happens at most
    /// once.
    pub fn mark_closed(&mut self)
        ensures
            final(self).is_closed(),
            final(self).id() == old(self).id(),
    {
        self.closed = true;
    }
}

/// The spare capacity a buffered conversion must reserve beyond the existing
/// content: twice the input's byte length, a conservative bound on how far
/// conversion can expand the text. Answers nothing when that bound does not
/// fit in a machine word.
pub fn append_spare_capacity(input_len: usize) -> (r: Option<usize>)
    ensures
        r is Some <==> 2 * input_len <= usize::MAX,
        r is Some ==> r->Some_0 == 2 * input_len,
{
    if input_len <= usize::MAX / 2 {
        Some(input_len * 2)
    } else {
        None
    }
}

/// The logical length of the caller's buffer after the native engine wrote
/// `written` bytes behind its `existing` bytes. Answers nothing when the sum
/// does not fit in a machine word.
pub fn appended_length(existing: usize, written: usize) -> (r: Option<usize>)
    ensures
        r is Some <==> existing + written <= usize::MAX,
        r is Some ==> r->Some_0 == existing + written,
{
    existing.checked_add(written)
}

/// Take ownership of a conversion result that the native engine allocated:
/// the owned copy holds exactly the bytes the engine produced, so the native
/// allocation can then be released.
pub fn own_output(chunk: &[u8]) -> (r: Vec<u8>)
    ensures
        r@ == chunk@,
{
    let mut out: Vec<u8> = Vec::new();
    let mut i: usize = 0;
    while i < chunk.len()
        invariant
            i <= chunk@.len(),
            out@ == chunk@.subrange(0, i as int),
        decreases chunk@.len() - i,
    {
        out.push(chunk[i]);
        i = i + 1;
    }
    proof {
        assert(out@ =~= chunk@);
    }
    out
}

/// Append one conversion result behind the existing content of the caller's
/// buffer: afterwards the buffer holds exactly its old bytes followed by the
/// chunk. This is the whole effect an append-style conversion has on the
/// destination.
pub fn append_chunk(dest: &mut Vec<u8>, chunk: &[u8])
    ensures
        final(dest)@ == old(dest)@ + chunk@,
{
    let ghost dest0: Seq<u8> = dest@;
    let mut i: usize = 0;
    while i < chunk.len()
        invariant
            i <= chunk@.len(),
            dest@ == dest0 + chunk@.subrange(0, i as int),
        decreases chunk@.len() - i,
    {
        dest.push(chunk[i]);
        proof {
            assert(dest@ =~= dest0 + chunk@.subrange(0, i + 1));
        }
        i = i + 1;
    }
    proof {
        assert(dest0 + chunk@.subrange(0, chunk@.len() as int) =~= dest0 + chunk@);
    }
}

/// Appending an empty conversion result leaves the destination unchanged;
/// in particular an empty destination stays empty.
pub proof fn lemma_append_empty_chunk(dest: Seq<u8>, chunk: Seq<u8>)
    requires
        chunk.len() == 0,
    ensures
        dest + chunk == dest,
{
    assert(dest + chunk =~= dest);
}

/// Accumulating two conversion results one after the other leaves the same
/// buffer as appending their concatenation at once: streaming many small
/// conversions into one buffer yields the concatenation of all results.
pub proof fn lemma_append_accumulates(dest: Seq<u8>, first: Seq<u8>, second: Seq<u8>)
    ensures
        (dest + first) + second == dest + (first + second),
{
    assert((dest + first) + second =~= dest + (first + second));
}

} // verus!
