use vstd::prelude::*;

verus! {

/// Every way in which a request to the library can fail.
#[derive(Clone, Copy, Debug, PartialEq, Eq, Structural)]
pub enum ComputeError {
    /// A dimension, a buffer size or a dispatch count is outside what the
    /// backend accepts. Raised before any device work is submitted.
    ConfigError,
    /// No adapter or device could be acquired.
    DeviceUnavailable,
    /// The kernel and the host disagree on the binding slots.
    BindingMismatch,
    /// A byte buffer does not hold a whole number of elements, or not as
    /// many of them as expected.
    DeserializationError,
    /// The device reported an error, or the completion poll timed out,
    /// while the result was read back.
    GpuExecutionFailure,
}

impl ComputeError {
    /// A short description for a human reader.
    pub fn message(&self) -> (text: String)
        ensures
            text@ == Self::message_of(*self)@,
    {
        match self {
            ComputeError::ConfigError => "invalid configuration".to_string(),
            ComputeError::DeviceUnavailable => "no compute device available".to_string(),
            ComputeError::BindingMismatch => "binding slots do not match the kernel".to_string(),
            ComputeError::DeserializationError => "the number of bytes must be a multiple of 4".to_string(),
            ComputeError::GpuExecutionFailure => "failed to run compute on gpu".to_string(),
        }
    }

    /// The text that [`ComputeError::message`] returns for each error.
    pub open spec fn message_of(e: ComputeError) -> &'static str {
        match e {
            ComputeError::ConfigError => "invalid configuration",
            ComputeError::DeviceUnavailable => "no compute device available",
            ComputeError::BindingMismatch => "binding slots do not match the kernel",
            ComputeError::DeserializationError => "the number of bytes must be a multiple of 4",
            ComputeError::GpuExecutionFailure => "failed to run compute on gpu",
        }
    }
}

} // verus!
