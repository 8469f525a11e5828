//! Asynchronous pixel readback: transfer a rectangular region of a GPU color
//! attachment into host-visible memory without blocking the calling thread.
//!
//! The graphics backend itself (buffers, copy commands, fence objects) lives
//! outside this crate, behind a minimal capability interface: this module
//! holds the state machine and all of its decisions. `schedule_pixels_transfer`
//! validates a request and, when one may be issued, hands back the exact copy
//! command the backend must run; `try_read` decides from a fence poll whether
//! the transfer is resolved. The backend performs the commands and feeds the
//! outcomes back in as plain values.

use vstd::arithmetic::div_mod::lemma_fundamental_div_mod;
use vstd::prelude::*;
use vstd::slice::slice_subrange;
use vstd::slice::slice_to_vec;

verus! {

/// Shape of a GPU image. Only rectangular images can be read back.
#[derive(Clone, Copy, PartialEq, Eq, Structural, Debug)]
pub enum ImageKind {
    Line { length: u32 },
    Rectangle { width: u32, height: u32 },
    Cube { width: u32, height: u32 },
    Volume { width: u32, height: u32, depth: u32 },
}

/// What the readback logic needs to know of one color attachment.
#[derive(Clone, Copy, PartialEq, Eq, Structural, Debug)]
pub struct AttachmentInfo {
    pub kind: ImageKind,
    pub bytes_per_pixel: u32,
}

/// A framebuffer, as the readback logic sees it: its color attachments by index.
pub struct FrameBufferInfo {
    pub attachments: Vec<AttachmentInfo>,
}

/// A sub-rectangle of an attachment, in pixels.
#[derive(Clone, Copy, PartialEq, Eq, Structural, Debug)]
pub struct Region {
    pub x: i32,
    pub y: i32,
    pub width: u32,
    pub height: u32,
}

/// Why a schedule call was rejected. All three are configuration errors,
/// surfaced to the caller before any GPU command is issued.
#[derive(Clone, Copy, PartialEq, Eq, Structural, Debug)]
pub enum ReadbackError {
    NoSuchAttachment,
    NonRectangularImage,
    SizeMismatch,
}

/// The copy command the backend must issue: read the given region of the
/// given color attachment into the transfer buffer, then insert a fence.
#[derive(Clone, Copy, PartialEq, Eq, Structural, Debug)]
pub struct CopyRequest {
    pub attachment_index: u32,
    pub region: Region,
}

/// Outcome of a zero-timeout fence poll, as the backend reports it.
#[derive(Clone, Copy, PartialEq, Eq, Structural, Debug)]
pub enum FenceStatus {
    Signaled,
    TimedOut,
    WaitFailed,
}

/// At most one transfer is outstanding at a time; the state enum makes the
/// invariant visible in the type itself.
#[derive(Clone, Copy, PartialEq, Eq, Structural, Debug)]
pub enum RequestState {
    Idle,
    Pending,
}

/// Owns one transfer buffer sized for `pixel_count` elements of `elem_size`
/// bytes each, and at most one in-flight read request.
pub struct PixelBuffer {
    pixel_count: usize,
    elem_size: usize,
    state: RequestState,
}

/// Mathematical state of a `PixelBuffer`.
pub ghost struct PixelBufferView {
    pub pixel_count: int,
    pub elem_size: int,
    pub pending: bool,
}

impl PixelBufferView {
    /// Byte capacity of the transfer buffer.
    pub open spec fn capacity_bytes(self) -> int {
        self.pixel_count * self.elem_size
    }

    pub open spec fn with_pending(self, pending: bool) -> PixelBufferView {
        PixelBufferView { pixel_count: self.pixel_count, elem_size: self.elem_size, pending }
    }
}

impl View for PixelBuffer {
    type V = PixelBufferView;

    closed spec fn view(&self) -> PixelBufferView {
        PixelBufferView {
            pixel_count: self.pixel_count as int,
            elem_size: self.elem_size as int,
            pending: self.state is Pending,
        }
    }
}

/// A fence poll resolves the transfer when the fence is signaled, and also
/// when the wait itself failed: a failed wait is treated as completion
/// (best-effort drain, callers get whatever bytes are present), never as an
/// error. Only a timeout means "not ready". Whether a failed wait should
/// instead surface as a distinct error is an open question; the contracts
/// keep the choice in this one place.
pub open spec fn fence_resolves(status: FenceStatus) -> bool {
    status is Signaled || status is WaitFailed
}

/// The region a schedule call reads when none is given: the full image.
pub open spec fn full_region(width: u32, height: u32) -> Region {
    Region { x: 0, y: 0, width, height }
}

/// The region a schedule call actually reads.
pub open spec fn effective_region(rect: Option<Region>, width: u32, height: u32) -> Region {
    match rect {
        Option::Some(r) => r,
        Option::None => full_region(width, height),
    }
}

/// Byte size of a region of an attachment.
pub open spec fn region_byte_size(r: Region, bytes_per_pixel: u32) -> int {
    r.width * r.height * bytes_per_pixel
}

/// What a schedule call returns, for every input. While a request is
/// outstanding the call is a silent no-op returning success; otherwise the
/// attachment must exist, be rectangular, and the requested region's byte
/// size must equal the buffer's capacity exactly, or the call fails with the
/// matching configuration error and no copy command is handed out.
pub open spec fn schedule_outcome(
    v: PixelBufferView,
    attachments: Seq<AttachmentInfo>,
    attachment_index: u32,
    rect: Option<Region>,
) -> Result<Option<CopyRequest>, ReadbackError> {
    if v.pending {
        Result::Ok(Option::None)
    } else if attachments.len() <= attachment_index {
        Result::Err(ReadbackError::NoSuchAttachment)
    } else {
        let att = attachments[attachment_index as int];
        match att.kind {
            ImageKind::Rectangle { width, height } => {
                let region = effective_region(rect, width, height);
                if region_byte_size(region, att.bytes_per_pixel) == v.capacity_bytes() {
                    Result::Ok(Option::Some(CopyRequest { attachment_index, region }))
                } else {
                    Result::Err(ReadbackError::SizeMismatch)
                }
            },
            _ => Result::Err(ReadbackError::NonRectangularImage),
        }
    }
}

/// The state after a schedule call: pending exactly when a copy command was
/// handed out or one was already outstanding.
pub open spec fn schedule_transition(
    v: PixelBufferView,
    attachments: Seq<AttachmentInfo>,
    attachment_index: u32,
    rect: Option<Region>,
) -> PixelBufferView {
    match schedule_outcome(v, attachments, attachment_index, rect) {
        Result::Ok(Option::Some(_)) => v.with_pending(true),
        _ => v,
    }
}

/// The state after a fence poll: idle again exactly when a request was
/// outstanding and the poll resolved it.
pub open spec fn poll_transition(v: PixelBufferView, status: FenceStatus) -> PixelBufferView {
    if v.pending && fence_resolves(status) {
        v.with_pending(false)
    } else {
        v
    }
}

impl PixelBuffer {
    /// The buffer's byte capacity fits the machine word; established at
    /// construction and preserved by every call.
    pub open spec fn wf(&self) -> bool {
        self@.capacity_bytes() <= usize::MAX
    }

    /// A buffer sized for `pixel_count` elements of `elem_size` bytes each,
    /// with no request outstanding.
    pub fn new(pixel_count: usize, elem_size: usize) -> (r: PixelBuffer)
        requires
            pixel_count * elem_size <= usize::MAX,
        ensures
            r@ == (PixelBufferView {
                pixel_count: pixel_count as int,
                elem_size: elem_size as int,
                pending: false,
            }),
            r.wf(),
    {
        PixelBuffer { pixel_count, elem_size, state: RequestState::Idle }
    }

    /// True iff an outstanding read request exists.
    pub fn is_request_running(&self) -> (r: bool)
        ensures
            r == self@.pending,
    {
        self.state == RequestState::Pending
    }

    /// The byte capacity of the transfer buffer.
    pub fn capacity_bytes(&self) -> (r: usize)
        requires
            self.wf(),
        ensures
            r == self@.capacity_bytes(),
    {
        self.pixel_count * self.elem_size
    }

    /// Validate a readback request and move to `Pending` when one may be
    /// issued. `Ok(Some(c))` instructs the backend to run the copy command
    /// `c` and insert a fence; `Ok(None)` means a request was already
    /// outstanding and the call was a no-op; on `Err` nothing changed and no
    /// GPU command is issued.
    pub fn schedule_pixels_transfer(
        &mut self,
        framebuffer: &FrameBufferInfo,
        color_buffer_index: u32,
        rect: Option<Region>,
    ) -> (r: Result<Option<CopyRequest>, ReadbackError>)
        requires
            old(self).wf(),
        ensures
            r == schedule_outcome(old(self)@, framebuffer.attachments@, color_buffer_index, rect),
            final(self)@ == schedule_transition(
                old(self)@,
                framebuffer.attachments@,
                color_buffer_index,
                rect,
            ),
            !(r matches Ok(Some(_))) ==> *final(self) == *old(self),
            final(self).wf(),
    {
        if self.state == RequestState::Pending {
            return Result::Ok(Option::None);
        }

        let index = color_buffer_index as usize;
        if framebuffer.attachments.len() <= index {
            return Result::Err(ReadbackError::NoSuchAttachment);
        }
        let attachment = framebuffer.attachments[index];

        match attachment.kind {
            ImageKind::Rectangle { width, height } => {
                let region = match rect {
                    Option::Some(r) => r,
                    Option::None => Region { x: 0, y: 0, width, height },
                };
                proof {
                    assert((region.width as int) * (region.height as int) <= 0xffff_ffff
                        * 0xffff_ffff && (region.width as int) * (region.height as int)
                        * (attachment.bytes_per_pixel as int) <= 0xffff_ffff * 0xffff_ffff
                        * 0xffff_ffff) by (nonlinear_arith)
                        requires
                            0 <= region.width as int <= 0xffff_ffff,
                            0 <= region.height as int <= 0xffff_ffff,
                            0 <= attachment.bytes_per_pixel as int <= 0xffff_ffff,
                    ;
                }
                let requested: u128 = (region.width as u128) * (region.height as u128)
                    * (attachment.bytes_per_pixel as u128);
                let capacity: u128 = (self.pixel_count as u128) * (self.elem_size as u128);
                if requested == capacity {
                    self.state = RequestState::Pending;
                    Result::Ok(Option::Some(CopyRequest {
                        attachment_index: color_buffer_index,
                        region,
                    }))
                } else {
                    Result::Err(ReadbackError::SizeMismatch)
                }
            },
            _ => Result::Err(ReadbackError::NonRectangularImage),
        }
    }

    /// Decide a zero-timeout fence poll, reported by the backend as
    /// `fence_status`. `Some(n)` means the transfer is resolved: the request
    /// is cleared and the backend must now read `n` bytes out of the transfer
    /// buffer and release the fence. `None` means nothing was outstanding or
    /// the fence has not signaled yet; nothing changed.
    pub fn try_read(&mut self, fence_status: FenceStatus) -> (r: Option<usize>)
        requires
            old(self).wf(),
        ensures
            final(self)@ == poll_transition(old(self)@, fence_status),
            old(self)@.pending && fence_resolves(fence_status) ==> r == Option::Some(
                old(self)@.capacity_bytes() as usize,
            ),
            !(old(self)@.pending && fence_resolves(fence_status)) ==> r is None && *final(self)
                == *old(self),
            final(self).wf(),
    {
        match self.state {
            RequestState::Idle => Option::None,
            RequestState::Pending => match fence_status {
                FenceStatus::TimedOut => Option::None,
                _ => {
                    self.state = RequestState::Idle;
                    Option::Some(self.pixel_count * self.elem_size)
                },
            },
        }
    }
}

/// Split the raw bytes read out of the transfer buffer into `elem_size`-byte
/// pixels, in order: the typed view of the transfer buffer's contents that a
/// resolved readback hands to its caller.
pub fn split_into_pixels(data: &[u8], elem_size: usize) -> (r: Vec<Vec<u8>>)
    requires
        0 < elem_size,
        data@.len() as int % (elem_size as int) == 0,
    ensures
        r@.len() == data@.len() as int / (elem_size as int),
        forall|i: int|
            0 <= i < r@.len() ==> r@[i]@ == data@.subrange(
                i * (elem_size as int),
                (i + 1) * (elem_size as int),
            ),
{
    let total = data.len();
    let count = total / elem_size;
    proof {
        lemma_fundamental_div_mod(total as int, elem_size as int);
        assert(total as int == (elem_size as int) * (total as int / (elem_size as int)));
        assert((count as int) * (elem_size as int) == total as int);
    }
    let mut out: Vec<Vec<u8>> = Vec::new();
    let mut i: usize = 0;
    while i < count
        invariant
            0 < elem_size,
            total == data@.len(),
            (count as int) * (elem_size as int) == total as int,
            i <= count,
            out@.len() == i,
            forall|k: int|
                0 <= k < i ==> out@[k]@ == data@.subrange(
                    k * (elem_size as int),
                    (k + 1) * (elem_size as int),
                ),
        decreases count - i,
    {
        proof {
            assert((i as int) * (elem_size as int) + (elem_size as int) <= (count as int) * (
            elem_size as int)) by (nonlinear_arith)
                requires
                    (i as int) < (count as int),
                    0 <= (elem_size as int),
            ;
            assert((i as int + 1) * (elem_size as int) == (i as int) * (elem_size as int) + (
            elem_size as int)) by (nonlinear_arith);
            assert((i as int) * (elem_size as int) >= 0) by (nonlinear_arith)
                requires
                    0 <= (i as int),
                    0 <= (elem_size as int),
            ;
        }
        let start = i * elem_size;
        let chunk = slice_subrange(data, start, start + elem_size);
        out.push(slice_to_vec(chunk));
        i = i + 1;
    }
    out
}

/// Law: a schedule call made while a request is outstanding hands out no
/// second copy command and no second fence, and leaves the buffer unchanged.
pub proof fn lemma_schedule_while_pending_is_noop(
    v: PixelBufferView,
    attachments: Seq<AttachmentInfo>,
    attachment_index: u32,
    rect: Option<Region>,
)
    requires
        v.pending,
    ensures
        schedule_outcome(v, attachments, attachment_index, rect) == Result::<
            Option<CopyRequest>,
            ReadbackError,
        >::Ok(Option::None),
        schedule_transition(v, attachments, attachment_index, rect) == v,
{
}

/// Law: once a poll resolves an outstanding request, the buffer reports no
/// pending request, and a schedule call whose region matches the buffer's
/// capacity is accepted again.
pub proof fn lemma_resolved_request_allows_reschedule(
    v: PixelBufferView,
    status: FenceStatus,
    attachments: Seq<AttachmentInfo>,
    attachment_index: u32,
    rect: Option<Region>,
)
    requires
        v.pending,
        fence_resolves(status),
        attachment_index < attachments.len(),
        attachments[attachment_index as int].kind matches ImageKind::Rectangle { width, height }
            && region_byte_size(
            effective_region(rect, width, height),
            attachments[attachment_index as int].bytes_per_pixel,
        ) == v.capacity_bytes(),
    ensures
        !poll_transition(v, status).pending,
        schedule_outcome(poll_transition(v, status), attachments, attachment_index, rect)
            matches Ok(Some(c)) && c == (CopyRequest {
            attachment_index,
            region: effective_region(
                rect,
                attachments[attachment_index as int].kind->Rectangle_width,
                attachments[attachment_index as int].kind->Rectangle_height,
            ),
        }),
{
}

} // verus!
