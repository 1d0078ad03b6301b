//! Capture orchestration: the frame conversion, the bounded waits on native
//! completions, the choice between the streaming and the legacy capture
//! paths, and the per-context caches of shareable content and of the live
//! stream.  The native calls themselves stay with the caller, which hands the
//! outcomes back here.
use vstd::prelude::*;

use crate::bgra_to_rgba::{convert_bgra_to_rgba_row, converted_pixels, source_index};
use crate::error::XCapError;
use crate::geometry::{display_for, display_for_rect, DisplayRecord, Rect};
use crate::window::{bounds_of, ImplMonitor, ImplWindow, WindowRecord};

verus! {

/// The portable image: `width` × `height` pixels as packed RGBA rows without
/// padding, so its buffer holds exactly `4 * width * height` bytes.
pub struct PortableImage {
    width: u32,
    height: u32,
    data: Vec<u8>,
}

impl PortableImage {
    #[verifier::type_invariant]
    spec fn inv(&self) -> bool {
        self.data@.len() == 4 * ((self.width as int) * (self.height as int))
    }
}

impl View for PortableImage {
    type V = (u32, u32, Seq<u8>);

    closed spec fn view(&self) -> (u32, u32, Seq<u8>) {
        (self.width, self.height, self.data@)
    }
}

impl PortableImage {
    /// An image of the given size over `data`, when its length is exactly
    /// `4 * width * height`.
    pub fn from_raw(width: u32, height: u32, data: Vec<u8>) -> (r: Option<PortableImage>)
        ensures
            r is Some <==> data@.len() == 4 * ((width as int) * (height as int)),
            r matches Some(img) ==> img@ == (width, height, data@),
    {
        proof {
            assert((width as u128) * (height as u128) <= 0xFFFF_FFFF_FFFF_FFFF_FFFF_FFFF) by (nonlinear_arith)
                requires
                    width <= 0xFFFF_FFFFu32,
                    height <= 0xFFFF_FFFFu32,
            ;
        }
        if (data.len() as u128) == 4 * ((width as u128) * (height as u128)) {
            Some(PortableImage { width, height, data })
        } else {
            None
        }
    }

    pub fn width(&self) -> (r: u32)
        ensures
            r == self@.0,
    {
        self.width
    }

    pub fn height(&self) -> (r: u32)
        ensures
            r == self@.1,
    {
        self.height
    }

    /// The packed RGBA bytes: exactly four per pixel.
    pub fn as_raw(&self) -> (r: &[u8])
        ensures
            r@ == self@.2,
            r@.len() == 4 * ((self@.0 as int) * (self@.1 as int)),
    {
        proof {
            use_type_invariant(self);
        }
        self.data.as_slice()
    }

    /// The packed RGBA bytes, taking the image apart.
    pub fn into_raw(self) -> (r: Vec<u8>)
        ensures
            r@ == self@.2,
    {
        self.data
    }
}

/// The layout tag of packed BGRA frames, the only one accepted.
pub const PIXEL_FORMAT_32BGRA: u32 = 0x42475241;

/// The RGBA bytes of the first `rows` rows of a frame: each row starts
/// `bytes_per_row` bytes after the previous one and only its first `width`
/// pixels are read.
pub open spec fn frame_rows(data: Seq<u8>, width: int, bytes_per_row: int, rows: int) -> Seq<u8>
    decreases rows,
{
    if rows <= 0 {
        Seq::empty()
    } else {
        frame_rows(data, width, bytes_per_row, rows - 1) + converted_pixels(
            data,
            (rows - 1) * bytes_per_row,
            width,
        )
    }
}

/// A frame of `height` rows of `width` pixels, `bytes_per_row` apart, fits in
/// `len` bytes, and its sizes fit an image.
pub open spec fn frame_fits(width: int, height: int, bytes_per_row: int, len: int) -> bool {
    &&& 4 * width <= bytes_per_row
    &&& bytes_per_row * height <= len
    &&& width <= u32::MAX
    &&& height <= u32::MAX
}

/// Converting `n + m` pixels gives the conversion of the first `n` followed
/// by that of the next `m`: a split between blocks changes no byte.
pub proof fn lemma_converted_split(d: Seq<u8>, a: int, n: int, m: int)
    requires
        0 <= a,
        0 <= n,
        0 <= m,
        a + 4 * (n + m) <= d.len(),
    ensures
        converted_pixels(d, a, n + m) == converted_pixels(d, a, n) + converted_pixels(d, a + 4 * n, m),
{
    let whole = converted_pixels(d, a, n + m);
    let left = converted_pixels(d, a, n);
    let right = converted_pixels(d, a + 4 * n, m);
    assert forall|j: int| 0 <= j < 4 * (n + m) implies #[trigger] whole[j] == (left + right)[j] by {
        assert(j / 4 == source_index(j) / 4);
        if j < 4 * n {
            assert(left[j] == d[a + source_index(j)]);
        } else {
            let t = j - 4 * n;
            assert(source_index(j) == 4 * n + source_index(t));
            assert(t / 4 == source_index(t) / 4);
            assert(right[t] == d[a + 4 * n + source_index(t)]);
        }
    }
    assert(whole =~= left + right);
}

/// Converting a frame whose rows carry no padding row by row gives the same
/// bytes as converting all its pixels in one pass.
pub proof fn lemma_aligned_rows(d: Seq<u8>, w: int, h: int)
    requires
        0 <= w,
        0 <= h,
        4 * (w * h) <= d.len(),
    ensures
        frame_rows(d, w, 4 * w, h) == converted_pixels(d, 0, w * h),
    decreases h,
{
    if h == 0 {
        assert(w * h == 0) by (nonlinear_arith)
            requires
                h == 0,
        ;
        assert(converted_pixels(d, 0, 0) =~= Seq::<u8>::empty());
    } else {
        let p = w * (h - 1);
        assert(p + w == w * h && 0 <= p <= w * h && (h - 1) * (4 * w) == 4 * p) by (nonlinear_arith)
            requires
                p == w * (h - 1),
                0 <= w,
                1 <= h,
        ;
        lemma_aligned_rows(d, w, h - 1);
        lemma_converted_split(d, 0, p, w);
        assert(frame_rows(d, w, 4 * w, h) == frame_rows(d, w, 4 * w, h - 1) + converted_pixels(
            d,
            (h - 1) * (4 * w),
            w,
        ));
        assert(converted_pixels(d, 0, p + w) == converted_pixels(d, 0, p) + converted_pixels(d, 4 * p, w));
    }
}

/// Converts a BGRA frame into packed RGBA rows without padding: in one pass
/// when the rows are not padded, else row by row.  Fails with
/// `MalformedFrame` when the frame does not fit its buffer.
pub fn frame_to_rgba(data: &[u8], width: usize, height: usize, bytes_per_row: usize) -> (r: Result<
    Vec<u8>,
    XCapError,
>)
    ensures
        frame_fits(width as int, height as int, bytes_per_row as int, data@.len() as int) ==> (r matches Ok(
            v,
        ) && v@ == frame_rows(data@, width as int, bytes_per_row as int, height as int)),
        !frame_fits(width as int, height as int, bytes_per_row as int, data@.len() as int) ==> r
            == Err::<Vec<u8>, XCapError>(XCapError::MalformedFrame),
{
    if width > 0xFFFF_FFFF || height > 0xFFFF_FFFF {
        return Err(XCapError::MalformedFrame);
    }
    proof {
        assert((bytes_per_row as u128) * (height as u128) <= 0xFFFF_FFFF_FFFF_FFFF_FFFF_FFFF_FFFF)
            by (nonlinear_arith)
            requires
                bytes_per_row <= 0xFFFF_FFFF_FFFF_FFFFu64,
                height <= 0xFFFF_FFFFusize,
        ;
    }
    if (width as u128) * 4 > bytes_per_row as u128 || (bytes_per_row as u128) * (height as u128)
        > data.len() as u128 {
        return Err(XCapError::MalformedFrame);
    }
    let ghost d = data@;
    let ghost w = width as int;
    let ghost h = height as int;
    let ghost b = bytes_per_row as int;
    let mut buffer: Vec<u8> = Vec::new();
    if bytes_per_row == width * 4 {
        proof {
            assert(4 * (w * h) == b * h) by (nonlinear_arith)
                requires
                    b == 4 * w,
            ;
            lemma_aligned_rows(d, w, h);
        }
        convert_bgra_to_rgba_row(data, 0, &mut buffer, width * height);
        assert(buffer@ =~= converted_pixels(d, 0, w * h));
    } else {
        let mut row: usize = 0;
        let data_len = data.len();
        assert(buffer@ =~= frame_rows(d, w, b, 0));
        while row < height
            invariant
                d == data@,
                data_len == d.len(),
                w == width,
                h == height,
                b == bytes_per_row,
                row <= height,
                4 * w <= b,
                b * h <= d.len(),
                buffer@ == frame_rows(d, w, b, row as int),
            decreases height - row,
        {
            proof {
                assert(row * b + b <= b * h) by (nonlinear_arith)
                    requires
                        row < h,
                        0 <= b,
                ;
                assert(0 <= row * b) by (nonlinear_arith)
                    requires
                        0 <= row,
                        0 <= b,
                ;
            }
            let start = row * bytes_per_row;
            convert_bgra_to_rgba_row(data, start, &mut buffer, width);
            row = row + 1;
        }
    }
    Ok(buffer)
}

/// The error that a frame in `pixel_format` with the given pixel memory earns,
/// if any, before its bytes are read.
pub open spec fn frame_error(
    pixel_format: u32,
    width: usize,
    height: usize,
    bytes_per_row: usize,
    base: Option<&[u8]>,
) -> Option<XCapError> {
    if pixel_format != PIXEL_FORMAT_32BGRA {
        Some(XCapError::UnsupportedPixelFormat)
    } else {
        match base {
            None => Some(XCapError::NullBaseAddress),
            Some(d) => if frame_fits(width as int, height as int, bytes_per_row as int, d@.len() as int) {
                None
            } else {
                Some(XCapError::MalformedFrame)
            },
        }
    }
}

/// Turns a native frame into an image: only packed BGRA frames with pixel
/// memory that holds their rows are accepted.  Its pixels are those that
/// `frame_to_rgba` gives for the same frame.
pub fn pixel_buffer_to_rgba_image(
    pixel_format: u32,
    width: usize,
    height: usize,
    bytes_per_row: usize,
    base: Option<&[u8]>,
) -> (r: Result<PortableImage, XCapError>)
    ensures
        match frame_error(pixel_format, width, height, bytes_per_row, base) {
            Some(e) => r == Err::<PortableImage, XCapError>(e),
            None => r matches Ok(img) && img@ == (width as u32, height as u32, frame_rows(
                base->Some_0@,
                width as int,
                bytes_per_row as int,
                height as int,
            )),
        },
{
    if pixel_format != PIXEL_FORMAT_32BGRA {
        return Err(XCapError::UnsupportedPixelFormat);
    }
    let data = match base {
        Some(d) => d,
        None => return Err(XCapError::NullBaseAddress),
    };
    image_from_frame(data, width, height, bytes_per_row)
}

fn image_from_frame(data: &[u8], width: usize, height: usize, bytes_per_row: usize) -> (r: Result<
    PortableImage,
    XCapError,
>)
    ensures
        frame_fits(width as int, height as int, bytes_per_row as int, data@.len() as int) ==> (r matches Ok(
            img,
        ) && img@ == (width as u32, height as u32, frame_rows(
            data@,
            width as int,
            bytes_per_row as int,
            height as int,
        ))),
        !frame_fits(width as int, height as int, bytes_per_row as int, data@.len() as int) ==> r
            == Err::<PortableImage, XCapError>(XCapError::MalformedFrame),
{
    let buffer = match frame_to_rgba(data, width, height, bytes_per_row) {
        Ok(v) => v,
        Err(e) => return Err(e),
    };
    proof {
        lemma_frame_rows_len(data@, width as int, bytes_per_row as int, height as int);
        assert(4 * (width as int) * (height as int) == 4 * (width as int * height as int)) by (nonlinear_arith);
    }
    match PortableImage::from_raw(width as u32, height as u32, buffer) {
        Some(img) => Ok(img),
        None => Err(XCapError::ImageBufferTooSmall),
    }
}

proof fn lemma_frame_rows_len(d: Seq<u8>, w: int, b: int, h: int)
    requires
        0 <= w,
        0 <= h,
        4 * w <= b,
        b * h <= d.len(),
    ensures
        frame_rows(d, w, b, h).len() == 4 * (w * h),
    decreases h,
{
    if h == 0 {
        assert(w * h == 0) by (nonlinear_arith)
            requires
                h == 0,
        ;
    } else {
        let q = (h - 1) * b;
        assert(q + b == b * h && 0 <= q && b * (h - 1) == q && 4 * (w * (h - 1)) + 4 * w == 4 * (w
            * h)) by (nonlinear_arith)
            requires
                q == (h - 1) * b,
                1 <= h,
                0 <= b,
        ;
        lemma_frame_rows_len(d, w, b, h - 1);
        assert(converted_pixels(d, q, w).len() == 4 * w);
    }
}

/// The legacy whole-list capture's image: its rows, `bytes_per_row` apart,
/// converted like a streamed frame.  Fails when no pixel data was copied or
/// the rows do not fit it.
pub fn capture_with_cgwindowlist(width: usize, height: usize, bytes_per_row: usize, data: Option<&[u8]>) -> (r: Result<PortableImage, XCapError>)
    ensures
        match frame_error(PIXEL_FORMAT_32BGRA, width, height, bytes_per_row, data) {
            Some(e) => r == Err::<PortableImage, XCapError>(e),
            None => r matches Ok(img) && img@ == (width as u32, height as u32, frame_rows(
                data->Some_0@,
                width as int,
                bytes_per_row as int,
                height as int,
            )),
        },
{
    match data {
        Some(d) => image_from_frame(d, width, height, bytes_per_row),
        None => Err(XCapError::NullBaseAddress),
    }
}

/// Whether the streaming capture facility exists: macOS 12.3 or later.
pub fn is_screencapturekit_available(major: i64, minor: i64) -> (r: bool)
    ensures
        r == (major > 12 || (major == 12 && minor >= 3)),
{
    major > 12 || (major == 12 && minor >= 3)
}

} // verus!

verus! {

/// What one non-blocking receive on a completion channel found.
pub enum Polled<T> {
    Ready(T),
    Empty,
    Disconnected,
}

/// What a bounded wait does after one poll.
pub enum WaitStep<T> {
    /// The completion arrived.
    Done(T),
    /// Nothing yet: yield to other work and poll again.
    Yield,
    /// The wait is over without a completion.
    Failed(XCapError),
}

/// The step of a wait that has run `elapsed_ms` of its `deadline_ms`: past
/// the deadline it times out whatever the poll found.
pub open spec fn wait_outcome<T>(elapsed_ms: u64, deadline_ms: u64, polled: Polled<T>) -> WaitStep<T> {
    if elapsed_ms >= deadline_ms {
        WaitStep::Failed(XCapError::Timeout)
    } else {
        match polled {
            Polled::Ready(v) => WaitStep::Done(v),
            Polled::Empty => WaitStep::Yield,
            Polled::Disconnected => WaitStep::Failed(XCapError::ChannelDisconnected),
        }
    }
}

/// Decides one step of a bounded wait on a native completion.
pub fn wait_step<T>(elapsed_ms: u64, deadline_ms: u64, polled: Polled<T>) -> (r: WaitStep<T>)
    ensures
        r == wait_outcome(elapsed_ms, deadline_ms, polled),
{
    if elapsed_ms >= deadline_ms {
        return WaitStep::Failed(XCapError::Timeout);
    }
    match polled {
        Polled::Ready(v) => WaitStep::Done(v),
        Polled::Empty => WaitStep::Yield,
        Polled::Disconnected => WaitStep::Failed(XCapError::ChannelDisconnected),
    }
}

/// A wait on an operation that never completes yields at every clock reading
/// before its deadline and times out at the first reading at or past it, so
/// it ends no later than the first poll after the deadline.
pub proof fn lemma_wait_ends_at_deadline(readings: Seq<u64>, deadline_ms: u64, k: int)
    requires
        0 <= k < readings.len(),
        readings[k] >= deadline_ms,
        forall|i: int| 0 <= i < k ==> readings[i] < deadline_ms,
    ensures
        forall|i: int|
            0 <= i < k ==> #[trigger] wait_outcome::<()>(readings[i], deadline_ms, Polled::Empty)
                == WaitStep::<()>::Yield,
        wait_outcome::<()>(readings[k], deadline_ms, Polled::Empty) == WaitStep::<()>::Failed(
            XCapError::Timeout,
        ),
{
}

/// What is to be captured: a rectangle in global desktop coordinates, the
/// window to include (0 for none), the native window-list option bits, and
/// the display to use when the caller knows it.
#[derive(Clone, Copy, Debug, PartialEq, Eq)]
pub struct CaptureTarget {
    pub rect: Rect,
    pub window_id: u32,
    pub list_option: u32,
    pub display_id: Option<u32>,
}

/// The display a target is captured from: the one it names, else the one its
/// rectangle is placed on.
pub fn target_display_id(target: &CaptureTarget, displays: &[DisplayRecord], main: &DisplayRecord) -> (r: u32)
    ensures
        match target.display_id {
            Some(d) => r == d,
            None => r == display_for(displays@, *main, target.rect).id,
        },
{
    match target.display_id {
        Some(d) => d,
        None => display_for_rect(displays, main, &target.rect).id,
    }
}

/// The size of the stream for a target: the rectangle's when it has an area,
/// else the whole display's.
pub fn capture_size(rect: &Rect, display_bounds: &Rect) -> (r: (usize, usize))
    ensures
        rect.width > 0 && rect.height > 0 ==> r == (rect.width as usize, rect.height as usize),
        !(rect.width > 0 && rect.height > 0) ==> r == (display_bounds.width as usize,
        display_bounds.height as usize),
{
    if rect.width > 0 && rect.height > 0 {
        (rect.width as usize, rect.height as usize)
    } else {
        (display_bounds.width as usize, display_bounds.height as usize)
    }
}

impl ImplMonitor {
    /// The target that captures the whole monitor with bounds `bounds`.
    pub fn capture_target(&self, bounds: &Rect) -> (r: CaptureTarget)
        ensures
            r == (CaptureTarget {
                rect: *bounds,
                window_id: 0,
                list_option: 0,
                display_id: Some(self.cg_direct_display_id),
            }),
    {
        CaptureTarget { rect: *bounds, window_id: 0, list_option: 0, display_id: Some(self.cg_direct_display_id) }
    }

    /// The target that captures the region at (`x`, `y`) of size
    /// `width` × `height`, relative to the monitor with bounds `bounds`; a
    /// region that does not lie inside the monitor is refused.
    pub fn capture_region_target(&self, bounds: &Rect, x: u32, y: u32, width: u32, height: u32) -> (r: Result<CaptureTarget, XCapError>)
        ensures
            region_inside(*bounds, x, y, width, height) ==> r == Ok::<CaptureTarget, XCapError>(CaptureTarget {
                rect: Rect { x: (bounds.x + x) as i32, y: (bounds.y + y) as i32, width, height },
                window_id: 0,
                list_option: 0,
                display_id: Some(self.cg_direct_display_id),
            }),
            !region_inside(*bounds, x, y, width, height) ==> r == Err::<CaptureTarget, XCapError>(XCapError::InvalidCaptureRegion),
    {
        let inside = (x as u64) + (width as u64) <= bounds.width as u64 && (y as u64) + (height as u64) <= bounds.height as u64;
        let left = bounds.x as i64 + x as i64;
        let top = bounds.y as i64 + y as i64;
        if !inside || left > 0x7FFF_FFFF || top > 0x7FFF_FFFF {
            return Err(XCapError::InvalidCaptureRegion);
        }
        Ok(CaptureTarget {
            rect: Rect { x: left as i32, y: top as i32, width, height },
            window_id: 0,
            list_option: 0,
            display_id: Some(self.cg_direct_display_id),
        })
    }
}

/// The region lies inside the monitor, and its origin inside desktop coordinates.
pub open spec fn region_inside(bounds: Rect, x: u32, y: u32, width: u32, height: u32) -> bool {
    &&& x + width <= bounds.width
    &&& y + height <= bounds.height
    &&& bounds.x + x <= i32::MAX
    &&& bounds.y + y <= i32::MAX
}

/// The native window-list option that captures one window alone.
pub const WINDOW_LIST_INCLUDING_WINDOW: u32 = 8;

impl ImplWindow {
    /// The target that captures this window: its bounds, with the window itself
    /// included and the display left to the rectangle.
    pub fn capture_target(&self, windows: &[WindowRecord]) -> (r: Result<CaptureTarget, XCapError>)
        ensures
            match bounds_of(windows@, self.window_id) {
                Ok(b) => r == Ok::<CaptureTarget, XCapError>(CaptureTarget {
                    rect: b,
                    window_id: self.window_id,
                    list_option: WINDOW_LIST_INCLUDING_WINDOW,
                    display_id: None,
                }),
                Err(e) => r == Err::<CaptureTarget, XCapError>(e),
            },
    {
        let b = match self.bounds(windows) {
            Ok(b) => b,
            Err(e) => return Err(e),
        };
        Ok(CaptureTarget {
            rect: b,
            window_id: self.window_id,
            list_option: WINDOW_LIST_INCLUDING_WINDOW,
            display_id: None,
        })
    }
}

/// Which capture path runs next.
#[derive(Clone, Copy, Debug, PartialEq, Eq)]
pub enum CapturePhase {
    /// The streaming compositor capture.
    Modern,
    /// The legacy whole-list capture.
    Legacy,
    /// The capture has its outcome.
    Finished,
}

/// What the caller performs next for a capture.
#[derive(Clone, Copy, Debug, PartialEq, Eq)]
pub enum CaptureAction {
    RunModern(CaptureTarget),
    RunLegacy(CaptureTarget),
    Finish,
}

/// One capture call: the streaming path first when it is available, the
/// legacy path whenever the streaming one did not yield an image.
pub struct CaptureSession<I> {
    pub target: CaptureTarget,
    pub phase: CapturePhase,
    pub outcome: Option<Result<I, XCapError>>,
}

pub open spec fn session_action<I>(s: CaptureSession<I>) -> CaptureAction {
    match s.phase {
        CapturePhase::Modern => CaptureAction::RunModern(s.target),
        CapturePhase::Legacy => CaptureAction::RunLegacy(s.target),
        CapturePhase::Finished => CaptureAction::Finish,
    }
}

/// The session after the running path reported `outcome`: a streaming failure
/// of any kind passes the same target to the legacy path; a legacy outcome,
/// failure included, is final.
pub open spec fn session_after<I>(s: CaptureSession<I>, outcome: Result<I, XCapError>) -> CaptureSession<I> {
    match s.phase {
        CapturePhase::Modern => match outcome {
            Ok(_) => CaptureSession { target: s.target, phase: CapturePhase::Finished, outcome: Some(outcome) },
            Err(_) => CaptureSession { target: s.target, phase: CapturePhase::Legacy, outcome: None },
        },
        _ => CaptureSession { target: s.target, phase: CapturePhase::Finished, outcome: Some(outcome) },
    }
}

impl<I> CaptureSession<I> {
    pub fn new(target: CaptureTarget, modern_available: bool) -> (r: CaptureSession<I>)
        ensures
            r.target == target,
            r.phase == (if modern_available { CapturePhase::Modern } else { CapturePhase::Legacy }),
            r.outcome is None,
    {
        CaptureSession {
            target,
            phase: if modern_available { CapturePhase::Modern } else { CapturePhase::Legacy },
            outcome: None,
        }
    }

    pub fn next_action(&self) -> (r: CaptureAction)
        ensures
            r == session_action(*self),
    {
        match self.phase {
            CapturePhase::Modern => CaptureAction::RunModern(self.target),
            CapturePhase::Legacy => CaptureAction::RunLegacy(self.target),
            CapturePhase::Finished => CaptureAction::Finish,
        }
    }

    /// Records what the path that `next_action` named reported.
    pub fn record(&mut self, outcome: Result<I, XCapError>)
        requires
            old(self).phase != CapturePhase::Finished,
        ensures
            *final(self) == session_after(*old(self), outcome),
    {
        match self.phase {
            CapturePhase::Modern => match outcome {
                Ok(v) => {
                    self.phase = CapturePhase::Finished;
                    self.outcome = Some(Ok(v));
                },
                Err(_) => {
                    self.phase = CapturePhase::Legacy;
                    self.outcome = None;
                },
            },
            _ => {
                self.phase = CapturePhase::Finished;
                self.outcome = Some(outcome);
            },
        }
    }

    /// The outcome of a finished capture.
    pub fn finish(self) -> (r: Result<I, XCapError>)
        requires
            self.phase == CapturePhase::Finished,
            self.outcome is Some,
        ensures
            r == self.outcome->Some_0,
    {
        self.outcome.unwrap()
    }
}

/// When the streaming path fails in any way, the capture runs the legacy path
/// on the very same target and returns what that path returns.
pub proof fn lemma_fallback_keeps_target<I>(
    target: CaptureTarget,
    failure: XCapError,
    legacy: Result<I, XCapError>,
)
    ensures
        ({
            let s0 = CaptureSession::<I> { target, phase: CapturePhase::Modern, outcome: None };
            let s1 = session_after(s0, Err(failure));
            let s2 = session_after(s1, legacy);
            &&& session_action(s0) == CaptureAction::RunModern(target)
            &&& session_action(s1) == CaptureAction::RunLegacy(target)
            &&& s2.phase == CapturePhase::Finished
            &&& s2.outcome == Some(legacy)
        }),
{
}

} // verus!
