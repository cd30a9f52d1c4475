use vstd::prelude::*;

verus! {

/// Every failure the library reports. Each variant names the
/// device-facing step that failed; all are terminal to the operation
/// that raised them.
#[derive(Clone, Copy, Debug, PartialEq, Eq, Structural)]
pub enum Error {
    /// No compute platform is available.
    PlatformUnavailable,
    /// The selected platform exposes no device.
    DeviceUnavailable,
    /// Creating the context on the selected device failed.
    ContextCreationFailed,
    /// Creating the profiling-enabled command queue failed.
    QueueCreationFailed,
    /// Creating or building the kernel program failed.
    ProgramBuildFailed,
    /// The device rejected a buffer allocation request.
    BufferAllocationFailed,
    /// The program has no kernel entry point for the element type.
    KernelResolutionFailed,
    /// Enqueueing the kernel dispatch was rejected.
    DispatchFailed,
    /// Releasing a resource during session teardown failed.
    TeardownFailed,
}

} // verus!
