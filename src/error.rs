use vstd::prelude::*;

verus! {

/// Errors returned by device handles and the completion bridge.
///
/// Resource-resolution errors (`BdevNotFound`, `GetIoChannel`) abort an open;
/// dispatch errors carry the status the driver returned on submission;
/// failure errors mean the driver accepted the operation and later reported
/// that it failed.
#[derive(Debug, Clone, PartialEq, Eq)]
pub enum CoreError {
    BdevNotFound { name: String },
    GetIoChannel { name: String },
    WriteDispatch { errno: i32, offset: u64, len: usize },
    WriteFailed { offset: u64, len: usize },
    ReadDispatch { errno: i32, offset: u64, len: usize },
    ReadFailed { offset: u64, len: usize },
    ResetDispatch { errno: i32 },
    ResetFailed,
    NvmeAdminDispatch { errno: i32, opcode: u8 },
    NvmeAdminFailed { opcode: u8 },
    /// The calling worker is not the one the operation is bound to.
    WrongCore { current: u32, expected: u32 },
    /// The system clock reads a time before the Unix epoch.
    ClockBeforeEpoch,
}

/// Errors of the aligned buffer allocator.
#[derive(Debug, Clone, Copy, PartialEq, Eq)]
pub enum DmaError {
    /// The requested alignment is not a power of two.
    Alignment { alignment: u64 },
}

/// Errors of the node plugin front end.
#[derive(Debug, Clone, PartialEq, Eq)]
pub enum CSIError {
    Iscsiadm { error: String },
    ExecutableNotFound { execname: String },
    AttachTimeout { secs: u64, nanos: u32 },
    InvalidURI { uristr: String },
    InvalidDevicePath { devpath: String },
    NotFound { value: String },
    Nvmf { error: String },
}

} // verus!
