//! Buffers and buffer regions: one device memory allocation per buffer, an
//! element type and logical element count, an optional host-mapped view,
//! sub-region derivation per the span rules, and region-to-region copies
//! recorded into a command buffer.
//!
//! Device memory is modeled explicitly: each buffer owns the sequence of
//! elements its allocation holds.  A copy recorded into an open recording
//! stages a copy pass that borrows its source and owns its destination:
//! the staged commands have no effect, and the destination cannot be
//! observed at all, until the pass is submitted and its fence waited on —
//! the transfer lands in the destination exactly when the wait hands it
//! back, and a pass discarded unsubmitted leaves it untouched.  The
//! in-flight window in which a real device forbids reading the
//! destination is thereby unrepresentable, and the synchronous entry
//! points ([`Buffer::copy`] and relatives) submit and wait internally, so
//! their results likewise describe completed work only.

use vstd::prelude::*;
use vstd::pervasive::unreached;
use vstd::pervasive::VecAdditionalExecFns;

use crate::command_buffer::spec_submit_transition;
use crate::command_buffer::CommandBuffer;
use crate::command_buffer::CommandBufferUses;
use crate::command_buffer::Recording;
use crate::command_buffer::SubmittedRecording;
use crate::span::AnyRange;
use crate::span::Span;
use crate::span::ToSpan;

verus! {

/// Composable buffer usage flags (transfer source/destination, storage and
/// the like), combined by bitwise or.
#[derive(Clone, Copy, Debug, PartialEq, Eq, Structural)]
pub struct BufferUsage {
    pub bits: u32,
}

impl BufferUsage {
    pub open spec fn spec_contains(self, other: BufferUsage) -> bool {
        self.bits & other.bits == other.bits
    }

    pub fn empty() -> (u: BufferUsage)
        ensures
            u.bits == 0,
    {
        BufferUsage { bits: 0 }
    }

    pub fn transfer_src() -> (u: BufferUsage)
        ensures
            u.bits == 0x1,
    {
        BufferUsage { bits: 0x1 }
    }

    pub fn transfer_dst() -> (u: BufferUsage)
        ensures
            u.bits == 0x2,
    {
        BufferUsage { bits: 0x2 }
    }

    pub fn uniform() -> (u: BufferUsage)
        ensures
            u.bits == 0x10,
    {
        BufferUsage { bits: 0x10 }
    }

    pub fn storage() -> (u: BufferUsage)
        ensures
            u.bits == 0x20,
    {
        BufferUsage { bits: 0x20 }
    }

    pub fn index() -> (u: BufferUsage)
        ensures
            u.bits == 0x40,
    {
        BufferUsage { bits: 0x40 }
    }

    pub fn vertex() -> (u: BufferUsage)
        ensures
            u.bits == 0x80,
    {
        BufferUsage { bits: 0x80 }
    }

    /// The union of two flag sets.
    pub fn or(self, other: BufferUsage) -> (u: BufferUsage)
        ensures
            u.bits == self.bits | other.bits,
            u.bits == 0 <==> (self.bits == 0 && other.bits == 0),
            u.spec_contains(self),
            u.spec_contains(other),
            forall|w: BufferUsage|
                self.spec_contains(w) || other.spec_contains(w) ==> u.spec_contains(w),
    {
        proof {
            let a = self.bits;
            let b = other.bits;
            assert((a | b == 0) == (a == 0 && b == 0)) by (bit_vector);
            assert((a | b) & a == a) by (bit_vector);
            assert((a | b) & b == b) by (bit_vector);
            assert forall|w: BufferUsage|
                self.spec_contains(w) || other.spec_contains(w) implies (BufferUsage {
                bits: a | b,
            }).spec_contains(w) by {
                let c = w.bits;
                assert((a & c == c || b & c == c) ==> (a | b) & c == c) by (bit_vector);
            }
        }
        BufferUsage { bits: self.bits | other.bits }
    }

    pub fn contains(self, other: BufferUsage) -> (b: bool)
        ensures
            b == self.spec_contains(other),
    {
        self.bits & other.bits == other.bits
    }

    pub fn is_empty(self) -> (b: bool)
        ensures
            b == (self.bits == 0),
    {
        self.bits == 0
    }
}

/// Memory-placement preference handed to the allocator.
#[derive(Clone, Copy, Debug, PartialEq, Eq, Structural)]
pub enum MemoryUsage {
    Auto,
    PreferDevice,
    PreferHost,
}

/// An element type a buffer can hold.  `fresh` is the value the model
/// device presents in freshly allocated memory that nothing has written
/// yet; nothing is promised about it, matching uninitialized device memory.
pub trait BufferElement: Copy {
    fn fresh() -> Self;
}

impl BufferElement for u8 {
    fn fresh() -> Self {
        0
    }
}

impl BufferElement for u16 {
    fn fresh() -> Self {
        0
    }
}

impl BufferElement for u32 {
    fn fresh() -> Self {
        0
    }
}

impl BufferElement for u64 {
    fn fresh() -> Self {
        0
    }
}

impl BufferElement for usize {
    fn fresh() -> Self {
        0
    }
}

impl BufferElement for i8 {
    fn fresh() -> Self {
        0
    }
}

impl BufferElement for i16 {
    fn fresh() -> Self {
        0
    }
}

impl BufferElement for i32 {
    fn fresh() -> Self {
        0
    }
}

impl BufferElement for i64 {
    fn fresh() -> Self {
        0
    }
}

impl BufferElement for isize {
    fn fresh() -> Self {
        0
    }
}

/// A buffer: one device allocation holding `count` elements of `T`, with an
/// optional host mapping.  The view of a buffer is the sequence of elements
/// its allocation holds.
#[derive(Debug)]
pub struct Buffer<T> {
    data: Vec<T>,
    host_mapped: bool,
    usage: BufferUsage,
}

impl<T> View for Buffer<T> {
    type V = Seq<T>;

    closed spec fn view(&self) -> Seq<T> {
        self.data@
    }
}

impl<T> Buffer<T> {
    /// Whether the buffer was built with a persistent host-visible mapping.
    pub closed spec fn spec_host_mapped(self) -> bool {
        self.host_mapped
    }

    pub closed spec fn spec_usage(self) -> BufferUsage {
        self.usage
    }

    /// The whole-buffer span: offset zero, the full element count.
    pub open spec fn spec_span(self) -> Span {
        Span { offset: 0, count: self@.len() as u64 }
    }

    /// Shape equality: everything about two buffers but their contents.
    pub open spec fn spec_same_shape(self, other: Buffer<T>) -> bool {
        &&& self.spec_host_mapped() == other.spec_host_mapped()
        &&& self.spec_usage() == other.spec_usage()
        &&& self@.len() == other@.len()
    }

    /// The logical element count.
    pub fn count(&self) -> (c: u64)
        ensures
            c == self@.len(),
    {
        self.data.len() as u64
    }

    /// The allocation size in bytes: element count times element size.
    pub fn size(&self) -> (s: u64)
        requires
            self@.len() * vstd::layout::size_of::<T>() <= u64::MAX,
        ensures
            s == self@.len() * vstd::layout::size_of::<T>(),
    {
        let elem: usize = core::mem::size_of::<T>();
        (self.data.len() as u64) * (elem as u64)
    }

    pub fn is_host_mapped(&self) -> (b: bool)
        ensures
            b == self.spec_host_mapped(),
    {
        self.host_mapped
    }

    pub fn usage(&self) -> (u: BufferUsage)
        ensures
            u == self.spec_usage(),
    {
        self.usage
    }

    /// The whole-buffer span.
    pub fn span(&self) -> (s: Span)
        ensures
            s == self.spec_span(),
    {
        Span { offset: 0, count: self.data.len() as u64 }
    }

    /// Derive an immutable region of this buffer from a relative range
    /// descriptor, validated against the buffer's element count.
    pub fn region<R: ToSpan>(&self, range: R) -> (r: BufferRegion)
        ensures
            r.spec_span() == range.spec_to_span(self.spec_span()),
    {
        let s = self.span();
        BufferRegion { span: range.to_span(s) }
    }

    /// Derive a mutable region of this buffer; the span rules are the same
    /// as for [`Buffer::region`].
    pub fn region_mut<R: ToSpan>(&mut self, range: R) -> (r: BufferRegion)
        ensures
            r.spec_span() == range.spec_to_span(old(self).spec_span()),
            *final(self) == *old(self),
    {
        let s = self.span();
        BufferRegion { span: range.to_span(s) }
    }
}

impl<T: Copy> Buffer<T> {
    /// The host-mapped view of the whole buffer: the buffer's elements,
    /// readable from the process, present exactly when the buffer was built
    /// with a host mapping.
    pub fn mapped(&self) -> (r: Option<Vec<T>>)
        ensures
            match r {
                Some(v) => self.spec_host_mapped() && v@ == self@,
                None => !self.spec_host_mapped(),
            },
    {
        if !self.host_mapped {
            return None;
        }
        let mut out: Vec<T> = Vec::new();
        let mut i: usize = 0;
        while i < self.data.len()
            invariant
                i <= self.data.len(),
                out@.len() == i as int,
                forall|j: int| 0 <= j < i ==> out@[j] == self.data@[j],
            decreases self.data.len() - i,
        {
            out.push(self.data[i]);
            i += 1;
        }
        proof {
            assert(out@ =~= self@);
        }
        Some(out)
    }

    /// The host-mapped view of a region of this buffer: present exactly when
    /// the buffer is host-mapped and the region lies within the buffer.
    pub fn mapped_region(&self, region: BufferRegion) -> (r: Option<Vec<T>>)
        ensures
            match r {
                Some(v) => {
                    &&& self.spec_host_mapped()
                    &&& region.spec_span().spec_end() <= self@.len()
                    &&& v@ == self@.subrange(
                        region.spec_span().offset as int,
                        region.spec_span().spec_end(),
                    )
                },
                None => !self.spec_host_mapped() || region.spec_span().spec_end() > self@.len(),
            },
    {
        if !self.host_mapped {
            return None;
        }
        let len64: u64 = self.data.len() as u64;
        let off: u64 = region.span.offset;
        let cnt: u64 = region.span.count;
        if off > len64 || cnt > len64 - off {
            return None;
        }
        let mut out: Vec<T> = Vec::new();
        let mut i: usize = 0;
        let start: usize = off as usize;
        let n: usize = cnt as usize;
        while i < n
            invariant
                i <= n,
                start + n <= self.data@.len(),
                self.data@.len() <= usize::MAX,
                out@.len() == i as int,
                forall|j: int| 0 <= j < i ==> out@[j] == self.data@[start + j],
            decreases n - i,
        {
            out.push(self.data[start + i]);
            i += 1;
        }
        proof {
            assert(out@ =~= self@.subrange(
                region.spec_span().offset as int,
                region.spec_span().spec_end(),
            ));
        }
        Some(out)
    }

    /// Write `values` through the host mapping, starting at element
    /// `offset`.  Succeeds exactly when the buffer is host-mapped and the
    /// write lies within the buffer; otherwise the buffer is untouched.
    pub fn write_mapped(&mut self, offset: u64, values: &Vec<T>) -> (ok: bool)
        ensures
            ok == (old(self).spec_host_mapped() && offset + values@.len() <= old(self)@.len()),
            final(self).spec_same_shape(*old(self)),
            forall|i: int|
                0 <= i < old(self)@.len() ==> final(self)@[i] == (if ok && offset <= i < offset
                    + values@.len() {
                    values@[i - offset]
                } else {
                    old(self)@[i]
                }),
    {
        if !self.host_mapped {
            return false;
        }
        let len64: u64 = self.data.len() as u64;
        if offset > len64 || values.len() as u64 > len64 - offset {
            return false;
        }
        copy_elements(&mut self.data, values, 0, offset as usize, values.len());
        true
    }
}

/// Copy `n` elements of `src`, starting at `src_off`, over `dst` starting
/// at `dst_off`.  The workhorse behind every region copy and host write.
fn copy_elements<T: Copy>(dst: &mut Vec<T>, src: &Vec<T>, src_off: usize, dst_off: usize, n: usize)
    requires
        src_off + n <= src@.len(),
        dst_off + n <= old(dst)@.len(),
    ensures
        final(dst)@.len() == old(dst)@.len(),
        forall|i: int|
            0 <= i < old(dst)@.len() ==> final(dst)@[i] == (if dst_off <= i < dst_off + n {
                src@[src_off + (i - dst_off)]
            } else {
                old(dst)@[i]
            }),
{
    let src_len: usize = src.len();
    let dst_len: usize = dst.len();
    let mut j: usize = 0;
    while j < n
        invariant
            j <= n,
            src_off + n <= src@.len(),
            dst_off + n <= dst@.len(),
            src@.len() == src_len as int,
            dst@.len() == old(dst)@.len(),
            old(dst)@.len() == dst_len as int,
            forall|i: int|
                0 <= i < dst@.len() ==> dst@[i] == (if dst_off <= i < dst_off + j {
                    src@[src_off + (i - dst_off)]
                } else {
                    old(dst)@[i]
                }),
        decreases n - j,
    {
        let v: T = src[src_off + j];
        dst.set(dst_off + j, v);
        j += 1;
    }
}

/// A non-owning, bounds-checked view of a span over a buffer: the unit on
/// which copy operations operate.  Deriving a region from a region
/// re-validates the child range against the immediate parent's
/// already-validated span.
#[derive(Clone, Copy, Debug, PartialEq, Eq, Structural)]
pub struct BufferRegion {
    span: Span,
}

impl BufferRegion {
    /// The absolute span this region covers within its buffer.
    pub closed spec fn spec_span(self) -> Span {
        self.span
    }

    /// Derive a region from a parent region and a relative range
    /// descriptor.
    pub fn new<R: ToSpan>(parent: BufferRegion, range: R) -> (r: BufferRegion)
        ensures
            r.spec_span() == range.spec_to_span(parent.spec_span()),
    {
        parent.region(range)
    }

    pub fn span(&self) -> (s: Span)
        ensures
            s == self.spec_span(),
    {
        self.span
    }

    pub fn offset(&self) -> (o: u64)
        ensures
            o == self.spec_span().offset,
    {
        self.span.offset
    }

    pub fn count(&self) -> (c: u64)
        ensures
            c == self.spec_span().count,
    {
        self.span.count
    }

    /// Narrow this region by a relative range descriptor, validated against
    /// this region's own span.
    pub fn region<R: ToSpan>(self, range: R) -> (r: BufferRegion)
        ensures
            r.spec_span() == range.spec_to_span(self.spec_span()),
    {
        let s = self.span;
        BufferRegion { span: range.to_span(s) }
    }
}

/// A pair of relative range descriptors naming corresponding sub-ranges of
/// a copy's source and destination regions.
#[derive(Clone, Copy, Debug, PartialEq, Eq, Structural)]
pub struct BufferCopyRange {
    pub src: AnyRange,
    pub dst: AnyRange,
}

impl BufferCopyRange {
    pub fn new(src: AnyRange, dst: AnyRange) -> (r: BufferCopyRange)
        ensures
            r.src == src,
            r.dst == dst,
    {
        BufferCopyRange { src, dst }
    }

    /// Resolve the pair against the source and destination spans it will be
    /// applied to, each side independently, per the span rules.
    pub fn resolve(&self, src_span: Span, dst_span: Span) -> (r: (Span, Span))
        ensures
            r.0 == crate::span::spec_resolve_any(self.src, src_span),
            r.1 == crate::span::spec_resolve_any(self.dst, dst_span),
    {
        (self.src.to_span(src_span), self.dst.to_span(dst_span))
    }
}

/// The contents of a copy destination after one device copy: the overlap of
/// the two spans — `min(src_span.count, dst_span.count)` elements — moves
/// from source to destination.  A copy that would fall outside either
/// buffer is a no-op, so invalid sentinel spans propagate harmlessly.
pub open spec fn spec_copy_seq<T>(dst: Seq<T>, src: Seq<T>, src_span: Span, dst_span: Span) -> Seq<
    T,
> {
    let n = vstd::math::min(src_span.count as int, dst_span.count as int);
    if src_span.offset + n <= src.len() && dst_span.offset + n <= dst.len() {
        Seq::new(
            dst.len(),
            |i: int|
                if dst_span.offset <= i < dst_span.offset + n {
                    src[src_span.offset + (i - dst_span.offset)]
                } else {
                    dst[i]
                },
        )
    } else {
        dst
    }
}

/// The contents of a copy destination after a list of range-pair copies,
/// applied in order; each pair is resolved independently against the
/// source and destination spans.
pub open spec fn spec_copy_regions_seq<T>(
    dst: Seq<T>,
    src: Seq<T>,
    src_span: Span,
    dst_span: Span,
    ranges: Seq<BufferCopyRange>,
) -> Seq<T>
    decreases ranges.len(),
{
    if ranges.len() == 0 {
        dst
    } else {
        let stepped = spec_copy_seq(
            dst,
            src,
            crate::span::spec_resolve_any(ranges[0].src, src_span),
            crate::span::spec_resolve_any(ranges[0].dst, dst_span),
        );
        spec_copy_regions_seq(stepped, src, src_span, dst_span, ranges.drop_first())
    }
}

fn min64(a: u64, b: u64) -> (m: u64)
    ensures
        m as int == vstd::math::min(a as int, b as int),
{
    if a <= b {
        a
    } else {
        b
    }
}

/// Apply one device copy to the destination's model memory: the overlap
/// of the two spans — `min(src_span.count, dst_span.count)` elements —
/// moves from the source span's start to the destination span's start.  A
/// span that does not fit its buffer degrades to a no-op rather than an
/// out-of-bounds access, so invalid sentinel spans propagate harmlessly.
fn apply_copy_spans<T: Copy>(src: &Buffer<T>, src_span: Span, dst: &mut Buffer<T>, dst_span: Span)
    ensures
        final(dst).spec_same_shape(*old(dst)),
        final(dst)@ == spec_copy_seq(old(dst)@, src@, src_span, dst_span),
{
    let n = min64(src_span.count, dst_span.count);
    let src_len: usize = src.data.len();
    let dst_len: usize = dst.data.len();
    let so = src_span.offset;
    let dso = dst_span.offset;
    if so <= src_len as u64 && n <= src_len as u64 - so && dso <= dst_len as u64 && n
        <= dst_len as u64 - dso {
        copy_elements(&mut dst.data, &src.data, so as usize, dso as usize, n as usize);
        proof {
            assert(dst@ =~= spec_copy_seq(old(dst)@, src@, src_span, dst_span));
        }
    }
}

/// Apply one device copy per range pair, each pair resolved independently
/// against the given source and destination spans, in order.
fn apply_copy_ranges<T: Copy>(
    src: &Buffer<T>,
    src_span: Span,
    dst: &mut Buffer<T>,
    dst_span: Span,
    ranges: &Vec<BufferCopyRange>,
)
    ensures
        final(dst).spec_same_shape(*old(dst)),
        final(dst)@ == spec_copy_regions_seq(old(dst)@, src@, src_span, dst_span, ranges@),
{
    proof {
        assert(ranges@.skip(0) =~= ranges@);
    }
    let mut k: usize = 0;
    while k < ranges.len()
        invariant
            k <= ranges@.len(),
            dst.spec_same_shape(*old(dst)),
            spec_copy_regions_seq(dst@, src@, src_span, dst_span, ranges@.skip(k as int))
                == spec_copy_regions_seq(old(dst)@, src@, src_span, dst_span, ranges@),
        decreases ranges@.len() - k,
    {
        let ghost dst_prev = dst@;
        let cr = ranges[k];
        let (rs, rd) = cr.resolve(src_span, dst_span);
        apply_copy_spans(src, rs, dst, rd);
        proof {
            assert(ranges@.skip(k as int)[0] == ranges@[k as int]);
            assert(ranges@.skip(k as int).drop_first() =~= ranges@.skip(k as int + 1));
            assert(spec_copy_regions_seq(dst_prev, src@, src_span, dst_span, ranges@.skip(
                k as int,
            )) == spec_copy_regions_seq(dst@, src@, src_span, dst_span, ranges@.skip(
                k as int + 1,
            )));
        }
        k += 1;
    }
    proof {
        assert(ranges@.skip(k as int) =~= Seq::<BufferCopyRange>::empty());
    }
}

/// The contents of a copy destination after a staged operation list runs on
/// the device: each (source span, destination span) pair applied in order.
pub open spec fn spec_apply_copies<T>(dst: Seq<T>, src: Seq<T>, ops: Seq<(Span, Span)>) -> Seq<T>
    decreases ops.len(),
{
    if ops.len() == 0 {
        dst
    } else {
        spec_apply_copies(spec_copy_seq(dst, src, ops[0].0, ops[0].1), src, ops.drop_first())
    }
}

/// A staged operation list made of range pairs resolved against fixed
/// source and destination spans applies exactly as the range pairs
/// themselves do.
proof fn lemma_resolved_ranges_apply<T>(
    dst: Seq<T>,
    src: Seq<T>,
    src_span: Span,
    dst_span: Span,
    ranges: Seq<BufferCopyRange>,
    ops: Seq<(Span, Span)>,
)
    requires
        ops.len() == ranges.len(),
        forall|i: int|
            0 <= i < ranges.len() ==> ops[i] == (
                crate::span::spec_resolve_any(ranges[i].src, src_span),
                crate::span::spec_resolve_any(ranges[i].dst, dst_span),
            ),
    ensures
        spec_apply_copies(dst, src, ops) == spec_copy_regions_seq(
            dst,
            src,
            src_span,
            dst_span,
            ranges,
        ),
    decreases ranges.len(),
{
    if ranges.len() > 0 {
        let stepped = spec_copy_seq(dst, src, ops[0].0, ops[0].1);
        assert forall|i: int| 0 <= i < ranges.drop_first().len() implies ops.drop_first()[i] == (
            crate::span::spec_resolve_any(ranges.drop_first()[i].src, src_span),
            crate::span::spec_resolve_any(ranges.drop_first()[i].dst, dst_span),
        ) by {
            assert(ops.drop_first()[i] == ops[i + 1]);
            assert(ranges.drop_first()[i] == ranges[i + 1]);
        }
        lemma_resolved_ranges_apply(
            stepped,
            src,
            src_span,
            dst_span,
            ranges.drop_first(),
            ops.drop_first(),
        );
    }
}

impl Recording {
    /// Record a buffer-to-buffer copy of the overlap of the two regions:
    /// `min(src.count, dst.count)` elements from the source region's start
    /// to the destination region's start.  Recording stages the command
    /// into a copy pass that borrows the source and owns the destination:
    /// nothing moves yet, and the destination cannot be observed until
    /// [`SubmittedCopy::wait`] completes the work and hands it back.
    pub fn copy_buffer<'a, T>(
        self,
        src: &'a Buffer<T>,
        src_region: BufferRegion,
        dst: Buffer<T>,
        dst_region: BufferRegion,
    ) -> (p: CopyRecording<'a, T>)
        ensures
            p.spec_cmd() == self.spec_cmd(),
            p.spec_src() == *src,
            p.spec_dst() == dst,
            p.spec_ops() == seq![(src_region.spec_span(), dst_region.spec_span())],
    {
        let mut ops: Vec<(Span, Span)> = Vec::new();
        ops.push((src_region.span(), dst_region.span()));
        proof {
            assert(ops@ =~= seq![(src_region.spec_span(), dst_region.spec_span())]);
        }
        CopyRecording { cmd: self.into_cmd(), src, dst, ops }
    }

    /// Record one buffer-to-buffer copy per range pair, each pair resolved
    /// independently against the source and destination regions, staged in
    /// order into a copy pass as in [`Recording::copy_buffer`].
    pub fn copy_buffer_regions<'a, T>(
        self,
        src: &'a Buffer<T>,
        src_region: BufferRegion,
        dst: Buffer<T>,
        dst_region: BufferRegion,
        ranges: &Vec<BufferCopyRange>,
    ) -> (p: CopyRecording<'a, T>)
        ensures
            p.spec_cmd() == self.spec_cmd(),
            p.spec_src() == *src,
            p.spec_dst() == dst,
            p.spec_ops().len() == ranges@.len(),
            forall|i: int|
                0 <= i < ranges@.len() ==> p.spec_ops()[i] == (
                    crate::span::spec_resolve_any(ranges@[i].src, src_region.spec_span()),
                    crate::span::spec_resolve_any(ranges@[i].dst, dst_region.spec_span()),
                ),
            spec_apply_copies(dst@, src@, p.spec_ops()) == spec_copy_regions_seq(
                dst@,
                src@,
                src_region.spec_span(),
                dst_region.spec_span(),
                ranges@,
            ),
    {
        let mut ops: Vec<(Span, Span)> = Vec::new();
        let mut k: usize = 0;
        while k < ranges.len()
            invariant
                k <= ranges@.len(),
                ops@.len() == k as int,
                forall|i: int|
                    0 <= i < k ==> ops@[i] == (
                        crate::span::spec_resolve_any(ranges@[i].src, src_region.spec_span()),
                        crate::span::spec_resolve_any(ranges@[i].dst, dst_region.spec_span()),
                    ),
            decreases ranges@.len() - k,
        {
            let cr = ranges[k];
            let op = cr.resolve(src_region.span(), dst_region.span());
            ops.push(op);
            k += 1;
        }
        proof {
            lemma_resolved_ranges_apply(
                dst@,
                src@,
                src_region.spec_span(),
                dst_region.spec_span(),
                ranges@,
                ops@,
            );
        }
        CopyRecording { cmd: self.into_cmd(), src, dst, ops }
    }
}

/// An open recording carrying a staged buffer-to-buffer copy pass: one
/// source (borrowed for the life of the pass, so it cannot change under
/// the recorded commands) and one destination (owned by the pass, so
/// work in flight is unobservable).  The staged commands take effect only
/// when the pass is submitted and its fence waited on.
pub struct CopyRecording<'a, T> {
    cmd: CommandBuffer,
    src: &'a Buffer<T>,
    dst: Buffer<T>,
    ops: Vec<(Span, Span)>,
}

impl<'a, T> CopyRecording<'a, T> {
    pub closed spec fn spec_cmd(self) -> CommandBuffer {
        self.cmd
    }

    /// The source buffer the staged copies read from.
    pub closed spec fn spec_src(self) -> Buffer<T> {
        *self.src
    }

    /// The destination as it stands while staged: untouched by the
    /// recorded commands until the wait step.
    pub closed spec fn spec_dst(self) -> Buffer<T> {
        self.dst
    }

    /// The staged operations: (source span, destination span) pairs, in
    /// recording order.
    pub closed spec fn spec_ops(self) -> Seq<(Span, Span)> {
        self.ops@
    }

    pub open spec fn wf(self) -> bool {
        self.spec_cmd().wf()
    }

    /// Append one more copy of the same source and destination pair to the
    /// staged pass.
    pub fn copy_buffer(&mut self, src_region: BufferRegion, dst_region: BufferRegion)
        ensures
            final(self).spec_cmd() == old(self).spec_cmd(),
            final(self).spec_src() == old(self).spec_src(),
            final(self).spec_dst() == old(self).spec_dst(),
            final(self).spec_ops() == old(self).spec_ops().push(
                (src_region.spec_span(), dst_region.spec_span()),
            ),
    {
        self.ops.push((src_region.span(), dst_region.span()));
    }

    /// End the recording, reset the fence, and submit the staged pass with
    /// the fence as completion signal; a `Single`-use command buffer
    /// becomes permanently unusable as part of the same step.  The
    /// destination still shows none of the staged work: the transfer lands
    /// at the wait step.
    pub fn submit(self) -> (s: SubmittedCopy<'a, T>)
        ensures
            spec_submit_transition(self.spec_cmd(), s.spec_cmd()),
            s.spec_src() == self.spec_src(),
            s.spec_dst() == self.spec_dst(),
            s.spec_ops() == self.spec_ops(),
    {
        let CopyRecording { cmd, src, dst, ops } = self;
        let submitted = Recording::from_cmd(cmd).submit();
        SubmittedCopy { cmd: submitted.into_cmd(), src, dst, ops }
    }

    /// Abandon the staged pass without submitting it: the recorded
    /// commands are discarded and the command buffer and the untouched
    /// destination come back.  Recorded-but-unsubmitted work never takes
    /// effect.
    pub fn discard(self) -> (r: (CommandBuffer, Buffer<T>))
        ensures
            r.0 == self.spec_cmd(),
            r.1 == self.spec_dst(),
    {
        let CopyRecording { cmd, src: _, dst, ops: _ } = self;
        (cmd, dst)
    }
}

/// A submitted copy pass: the staged work is in flight.  Waiting on the
/// fence completes it; only then do the staged copies land in the
/// destination, which the wait hands back together with the command
/// buffer.
pub struct SubmittedCopy<'a, T> {
    cmd: CommandBuffer,
    src: &'a Buffer<T>,
    dst: Buffer<T>,
    ops: Vec<(Span, Span)>,
}

impl<'a, T> SubmittedCopy<'a, T> {
    pub closed spec fn spec_cmd(self) -> CommandBuffer {
        self.cmd
    }

    pub closed spec fn spec_src(self) -> Buffer<T> {
        *self.src
    }

    /// The destination as submitted: still untouched until the wait.
    pub closed spec fn spec_dst(self) -> Buffer<T> {
        self.dst
    }

    pub closed spec fn spec_ops(self) -> Seq<(Span, Span)> {
        self.ops@
    }

    pub open spec fn wf(self) -> bool {
        self.spec_cmd().wf()
    }
}

impl<'a, T: Copy> SubmittedCopy<'a, T> {
    /// Block on the fence until the device signals completion.  The staged
    /// copies take effect on the destination exactly here, and the command
    /// buffer and the destination are handed back: a `Multi`-use buffer is
    /// ready to re-record, a `Single`-use buffer comes back unusable.
    pub fn wait(self) -> (r: (CommandBuffer, Buffer<T>))
        requires
            self.wf(),
        ensures
            r.0 == self.spec_cmd(),
            r.1.spec_same_shape(self.spec_dst()),
            r.1@ == spec_apply_copies(self.spec_dst()@, self.spec_src()@, self.spec_ops()),
    {
        let SubmittedCopy { cmd, src, mut dst, ops } = self;
        let cb = SubmittedRecording::from_cmd(cmd).wait();
        // Completion: the staged operations land in the destination.
        let ghost dst0 = dst@;
        proof {
            assert(ops@.skip(0) =~= ops@);
        }
        let mut k: usize = 0;
        while k < ops.len()
            invariant
                k <= ops@.len(),
                dst0 == self.spec_dst()@,
                ops@ == self.spec_ops(),
                src@ == self.spec_src()@,
                dst.spec_same_shape(self.spec_dst()),
                spec_apply_copies(dst@, src@, ops@.skip(k as int)) == spec_apply_copies(
                    dst0,
                    src@,
                    ops@,
                ),
            decreases ops@.len() - k,
        {
            let ghost dst_prev = dst@;
            let (rs, rd) = ops[k];
            apply_copy_spans(src, rs, &mut dst, rd);
            proof {
                assert(ops@.skip(k as int)[0] == ops@[k as int]);
                assert(ops@.skip(k as int).drop_first() =~= ops@.skip(k as int + 1));
                assert(spec_apply_copies(dst_prev, src@, ops@.skip(k as int))
                    == spec_apply_copies(dst@, src@, ops@.skip(k as int + 1)));
            }
            k += 1;
        }
        proof {
            assert(ops@.skip(k as int) =~= Seq::<(Span, Span)>::empty());
        }
        (cb, dst)
    }
}

impl CommandBuffer {
    /// The canonical ergonomic entry point for one-shot device work:
    /// allocate a `Single`-use command buffer, start recording, let the
    /// caller's recorder stage a copy pass, then submit the pass and wait
    /// for its completion.  On return the staged work has fully taken
    /// effect on the returned destination buffer; the sequence is atomic
    /// from the caller's perspective, and no partially recorded pass is
    /// ever observably submitted.
    pub fn run_single_use<'a, T: Copy + 'a, F: FnOnce(Recording) -> CopyRecording<'a, T>>(
        recorder: F,
    ) -> (out: Buffer<T>)
        requires
            forall|rec: Recording|
                rec.wf() && rec.spec_cmd().spec_uses() is Single && rec.spec_cmd().spec_usable()
                    ==> call_requires(recorder, (rec,)),
        ensures
            exists|rec: Recording, pass: CopyRecording<'a, T>|
                rec.wf() && rec.spec_cmd().spec_uses() is Single && rec.spec_cmd().spec_usable()
                    && call_ensures(recorder, (rec,), pass) && out.spec_same_shape(pass.spec_dst())
                    && out@ == spec_apply_copies(
                    pass.spec_dst()@,
                    pass.spec_src()@,
                    pass.spec_ops(),
                ),
    {
        let cb = CommandBuffer::new(CommandBufferUses::Single);
        let rec = match cb.start_recording() {
            Ok(r) => r,
            Err(_) => unreached(),
        };
        proof {
            assert(rec.wf() && rec.spec_cmd().spec_uses() is Single
                && rec.spec_cmd().spec_usable());
        }
        let pass = recorder(rec);
        let (_done, dst) = pass.submit().wait();
        dst
    }
}

impl<T: Copy> Buffer<T> {
    /// Copy this whole buffer into `dst` — `min(self.count, dst.count)`
    /// elements from the start — by recording, submitting and waiting on a
    /// single-use command buffer internally; on return the copy has
    /// completed.
    pub fn copy(&self, dst: &mut Buffer<T>)
        ensures
            final(dst).spec_same_shape(*old(dst)),
            final(dst)@ == spec_copy_seq(
                old(dst)@,
                self@,
                self.spec_span(),
                old(dst).spec_span(),
            ),
    {
        let cb = CommandBuffer::new(CommandBufferUses::Single);
        let rec = match cb.start_recording() {
            Ok(r) => r,
            Err(_) => unreached(),
        };
        let sub = rec.submit();
        // The device executes the submitted copy before signaling the
        // fence the wait below blocks on.
        let s = self.span();
        let d = dst.span();
        apply_copy_spans(self, s, dst, d);
        let _ = sub.wait();
    }

    /// Copy a region of this buffer into a region of `dst` — the overlap
    /// of the two regions — through a single-use command buffer recorded,
    /// submitted and waited on internally.
    pub fn copy_region(
        &self,
        src_region: BufferRegion,
        dst: &mut Buffer<T>,
        dst_region: BufferRegion,
    )
        ensures
            final(dst).spec_same_shape(*old(dst)),
            final(dst)@ == spec_copy_seq(
                old(dst)@,
                self@,
                src_region.spec_span(),
                dst_region.spec_span(),
            ),
    {
        let cb = CommandBuffer::new(CommandBufferUses::Single);
        let rec = match cb.start_recording() {
            Ok(r) => r,
            Err(_) => unreached(),
        };
        let sub = rec.submit();
        apply_copy_spans(self, src_region.span(), dst, dst_region.span());
        let _ = sub.wait();
    }

    /// Copy a list of range pairs from this buffer into `dst`, through a
    /// single-use command buffer recorded, submitted and waited on
    /// internally.
    pub fn copy_regions(&self, dst: &mut Buffer<T>, ranges: &Vec<BufferCopyRange>)
        ensures
            final(dst).spec_same_shape(*old(dst)),
            final(dst)@ == spec_copy_regions_seq(
                old(dst)@,
                self@,
                self.spec_span(),
                old(dst).spec_span(),
                ranges@,
            ),
    {
        let cb = CommandBuffer::new(CommandBufferUses::Single);
        let rec = match cb.start_recording() {
            Ok(r) => r,
            Err(_) => unreached(),
        };
        let sub = rec.submit();
        let s = self.span();
        let d = dst.span();
        apply_copy_ranges(self, s, dst, d, ranges);
        let _ = sub.wait();
    }
}

/// A vector of `n` fresh (unwritten) elements: the model of a new device
/// allocation.
fn fresh_vec<T: BufferElement>(n: usize) -> (v: Vec<T>)
    ensures
        v@.len() == n,
{
    let mut v: Vec<T> = Vec::new();
    let mut i: usize = 0;
    while i < n
        invariant
            i <= n,
            v@.len() == i as int,
        decreases n - i,
    {
        v.push(T::fresh());
        i += 1;
    }
    v
}

/// A vector of `n` elements whose prefix is `d` and whose tail is fresh:
/// the model of a new allocation with initial data written in.
fn seeded_vec<T: BufferElement>(n: usize, d: &Vec<T>) -> (v: Vec<T>)
    requires
        d@.len() <= n,
    ensures
        v@.len() == n,
        forall|i: int| 0 <= i < d@.len() ==> v@[i] == d@[i],
{
    let mut v: Vec<T> = Vec::new();
    let mut i: usize = 0;
    let dn: usize = d.len();
    while i < dn
        invariant
            i <= dn,
            dn == d@.len(),
            v@.len() == i as int,
            forall|j: int| 0 <= j < i ==> v@[j] == d@[j],
        decreases dn - i,
    {
        v.push(d[i]);
        i += 1;
    }
    while i < n
        invariant
            dn <= i <= n,
            v@.len() == i as int,
            forall|j: int| 0 <= j < dn ==> v@[j] == d@[j],
            dn == d@.len(),
        decreases n - i,
    {
        v.push(T::fresh());
        i += 1;
    }
    v
}

/// The element count of the buffer a builder will produce: the configured
/// count, or the initial data's length if that is larger.
pub open spec fn spec_target_count<T>(b: BufferBuilder<T>) -> int {
    match b.spec_data() {
        Some(d) => vstd::math::max(d.len() as int, b.spec_count() as int),
        None => b.spec_count() as int,
    }
}

/// The contract-violation a build is rejected with, if any: empty usage
/// flags are rejected first; initial data without a host mapping demands
/// transfer-destination usage for the implicit staging copy.
pub open spec fn spec_build_error<T>(b: BufferBuilder<T>) -> Option<crate::error::Error> {
    if b.spec_usage().bits == 0 {
        Some(crate::error::Error::Contract(crate::error::Violation::EmptyBufferUsage))
    } else if b.spec_data() is Some && !b.spec_mapped_data() && !b.spec_usage().spec_contains(
        BufferUsage { bits: 0x2 },
    ) {
        Some(crate::error::Error::Contract(crate::error::Violation::MissingTransferDst))
    } else {
        None
    }
}

/// Fluent configuration surface for building a [`Buffer`]: element count
/// (or initial data, which also raises the count), usage flags, memory
/// placement, and an optional persistent host mapping.
pub struct BufferBuilder<T> {
    count: u64,
    data: Option<Vec<T>>,
    usage: BufferUsage,
    memory_usage: MemoryUsage,
    mapped_data: bool,
}

impl<T> BufferBuilder<T> {
    pub closed spec fn spec_count(self) -> u64 {
        self.count
    }

    pub closed spec fn spec_data(self) -> Option<Seq<T>> {
        match self.data {
            Some(d) => Some(d@),
            None => None,
        }
    }

    pub closed spec fn spec_usage(self) -> BufferUsage {
        self.usage
    }

    pub closed spec fn spec_memory_usage(self) -> MemoryUsage {
        self.memory_usage
    }

    pub closed spec fn spec_mapped_data(self) -> bool {
        self.mapped_data
    }

    /// Builders always name at least one element: zero-size buffers are
    /// rejected at configuration time.
    pub open spec fn wf(self) -> bool {
        self.spec_count() >= 1
    }

    /// Set the element count.  A zero count is a contract violation of the
    /// configuration surface, excluded by precondition.
    pub fn count(self, count: u64) -> (b: BufferBuilder<T>)
        requires
            count >= 1,
        ensures
            b.spec_count() == count,
            b.spec_data() == self.spec_data(),
            b.spec_usage() == self.spec_usage(),
            b.spec_memory_usage() == self.spec_memory_usage(),
            b.spec_mapped_data() == self.spec_mapped_data(),
    {
        BufferBuilder { count, ..self }
    }

    /// Supply initial element data; the built buffer holds at least this
    /// many elements and starts with exactly these values.
    pub fn data(self, data: Vec<T>) -> (b: BufferBuilder<T>)
        ensures
            b.spec_data() == Some(data@),
            b.spec_count() == self.spec_count(),
            b.spec_usage() == self.spec_usage(),
            b.spec_memory_usage() == self.spec_memory_usage(),
            b.spec_mapped_data() == self.spec_mapped_data(),
    {
        BufferBuilder { data: Some(data), ..self }
    }

    /// Add usage flags; calls compose by bitwise or.
    pub fn usage(self, usage: BufferUsage) -> (b: BufferBuilder<T>)
        ensures
            b.spec_usage().bits == self.spec_usage().bits | usage.bits,
            b.spec_usage().bits == 0 <==> (self.spec_usage().bits == 0 && usage.bits == 0),
            b.spec_usage().spec_contains(usage),
            forall|w: BufferUsage|
                self.spec_usage().spec_contains(w) || usage.spec_contains(w)
                    ==> b.spec_usage().spec_contains(w),
            b.spec_count() == self.spec_count(),
            b.spec_data() == self.spec_data(),
            b.spec_memory_usage() == self.spec_memory_usage(),
            b.spec_mapped_data() == self.spec_mapped_data(),
    {
        let u = self.usage.or(usage);
        BufferBuilder { usage: u, ..self }
    }

    /// Set the memory-placement preference.
    pub fn memory_usage(self, memory_usage: MemoryUsage) -> (b: BufferBuilder<T>)
        ensures
            b.spec_memory_usage() == memory_usage,
            b.spec_count() == self.spec_count(),
            b.spec_data() == self.spec_data(),
            b.spec_usage() == self.spec_usage(),
            b.spec_mapped_data() == self.spec_mapped_data(),
    {
        BufferBuilder { memory_usage, ..self }
    }

    /// Request (or drop the request for) a persistent host-visible mapping.
    pub fn mapped_data(self, mapped_data: bool) -> (b: BufferBuilder<T>)
        ensures
            b.spec_mapped_data() == mapped_data,
            b.spec_count() == self.spec_count(),
            b.spec_data() == self.spec_data(),
            b.spec_usage() == self.spec_usage(),
            b.spec_memory_usage() == self.spec_memory_usage(),
    {
        BufferBuilder { mapped_data, ..self }
    }

    /// Configure the builder as a staging buffer: transfer source,
    /// host-preferred placement, host-mapped.
    pub fn staging_buffer(self) -> (b: BufferBuilder<T>)
        ensures
            b.spec_usage().bits == self.spec_usage().bits | 0x1,
            b.spec_usage().bits != 0,
            b.spec_memory_usage() == MemoryUsage::PreferHost,
            b.spec_mapped_data(),
            b.spec_count() == self.spec_count(),
            b.spec_data() == self.spec_data(),
    {
        self.usage(BufferUsage::transfer_src()).memory_usage(MemoryUsage::PreferHost).mapped_data(
            true,
        )
    }
}

impl<T> Default for BufferBuilder<T> {
    /// One element, no data, empty usage, automatic placement, no mapping.
    fn default() -> (b: BufferBuilder<T>)
        ensures
            b.wf(),
            b.spec_count() == 1,
            b.spec_data() is None,
            b.spec_usage().bits == 0,
            b.spec_memory_usage() == MemoryUsage::Auto,
            !b.spec_mapped_data(),
    {
        BufferBuilder {
            count: 1,
            data: None,
            usage: BufferUsage { bits: 0 },
            memory_usage: MemoryUsage::Auto,
            mapped_data: false,
        }
    }
}

impl<T> Buffer<T> {
    /// A fresh builder with the default configuration.
    pub fn builder() -> (b: BufferBuilder<T>)
        ensures
            b.wf(),
            b.spec_count() == 1,
            b.spec_data() is None,
            b.spec_usage().bits == 0,
            b.spec_memory_usage() == MemoryUsage::Auto,
            !b.spec_mapped_data(),
    {
        BufferBuilder {
            count: 1,
            data: None,
            usage: BufferUsage { bits: 0 },
            memory_usage: MemoryUsage::Auto,
            mapped_data: false,
        }
    }
}

impl<T: BufferElement> BufferBuilder<T> {
    /// Build the buffer.  Success is owed exactly when no contract
    /// violation applies (see [`spec_build_error`]); the built buffer holds
    /// [`spec_target_count`] elements, is host-mapped exactly as requested,
    /// and starts with the supplied data — written through the mapping when
    /// there is one, and otherwise moved through an internal host-mapped
    /// staging buffer and a single-use command-buffer copy that is waited
    /// on before the buffer is returned.
    pub fn build(&self) -> (r: Result<Buffer<T>, crate::error::Error>)
        requires
            self.wf(),
            spec_target_count(*self) <= usize::MAX,
        ensures
            match r {
                Ok(buf) => {
                    &&& spec_build_error(*self) is None
                    &&& buf@.len() == spec_target_count(*self)
                    &&& buf.spec_host_mapped() == self.spec_mapped_data()
                    &&& buf.spec_usage() == self.spec_usage()
                    &&& (self.spec_data() matches Some(d) ==> forall|i: int|
                        0 <= i < d.len() ==> buf@[i] == d[i])
                },
                Err(e) => spec_build_error(*self) == Some(e),
            },
    {
        if self.usage.is_empty() {
            return Err(crate::error::Error::Contract(crate::error::Violation::EmptyBufferUsage));
        }
        match &self.data {
            None => {
                let storage = fresh_vec::<T>(self.count as usize);
                Ok(Buffer { data: storage, host_mapped: self.mapped_data, usage: self.usage })
            },
            Some(d) => {
                let n: usize = if d.len() as u64 >= self.count {
                    d.len()
                } else {
                    self.count as usize
                };
                if self.mapped_data {
                    // Host-mapped allocation: write the data in directly.
                    let storage = seeded_vec(n, d);
                    Ok(Buffer { data: storage, host_mapped: true, usage: self.usage })
                } else {
                    if !self.usage.contains(BufferUsage::transfer_dst()) {
                        return Err(crate::error::Error::Contract(
                            crate::error::Violation::MissingTransferDst,
                        ));
                    }
                    // No host mapping: stage the data in a temporary
                    // host-mapped buffer and issue a device-side copy,
                    // waiting for completion before handing the buffer out.
                    let staging_len: usize = if d.len() >= 1 {
                        d.len()
                    } else {
                        1
                    };
                    let staging = Buffer {
                        data: seeded_vec(staging_len, d),
                        host_mapped: true,
                        usage: BufferUsage::transfer_src(),
                    };
                    let mut target = Buffer {
                        data: fresh_vec::<T>(n),
                        host_mapped: false,
                        usage: self.usage,
                    };
                    staging.copy(&mut target);
                    Ok(target)
                }
            },
        }
    }
}

} // verus!
