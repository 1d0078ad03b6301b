use vstd::prelude::*;

verus! {

/// Every failure that the library reports.
#[derive(Debug, Clone, PartialEq, Eq)]
pub enum XCapError {
    /// A descriptor block shorter than its fixed 128 bytes.
    EdidTooShort,
    /// A descriptor block whose fixed 8-byte signature does not match.
    InvalidEdidHeader,
    /// No tier could produce a hardware serial number.
    SerialUnavailable,
    /// No tier could produce a display identifier.
    UuidUnavailable,
    /// A window record lacks a field that the operation reads.
    MissingWindowField,
    /// The status indicator of the window server, which is never listed.
    StatusIndicatorWindow,
    /// A window that is not shared with other processes.
    WindowNotShared,
    /// No listed window has the requested identifier.
    WindowNotFound,
    /// No display matches the requested identifier or key.
    DisplayNotFound,
    /// A native frame in another layout than packed BGRA.
    UnsupportedPixelFormat,
    /// A native frame without pixel memory.
    NullBaseAddress,
    /// A native frame whose stride or length cannot hold its rows.
    MalformedFrame,
    /// The image container refused the converted buffer.
    ImageBufferTooSmall,
    /// A bounded wait expired before the native operation completed.
    Timeout,
    /// The sending side of a completion channel went away.
    ChannelDisconnected,
    /// A shared snapshot was left inconsistent by a failed writer.
    StatePoisoned,
    /// A capture region that does not lie inside its monitor.
    InvalidCaptureRegion,
    /// A failure reported by the operating system, with its description.
    Native(String),
}

pub type XCapResult<T> = Result<T, XCapError>;

} // verus!
