use vstd::prelude::*;
use crate::dispatch::DispatchPlan;
use crate::error::ComputeError;
use crate::matrix::{check_operands, decode, operands_match, valid_dimension, Matrix};
use crate::staging::StagedBuffers;

verus! {

/// Where a job stands.
#[derive(Clone, Copy, Debug, PartialEq, Eq, Structural)]
pub enum JobState {
    /// Nothing has been asked of the device yet.
    Initialized,
    /// The buffers are planned and the host has been told to allocate and
    /// bind them.
    BuffersStaged,
    /// The host has been told to record and submit the commands.
    Submitted,
    /// The host has been told to request the mapping and to wait for
    /// the device.
    AwaitingReadback,
    /// The device confirmed the mapping: the result may be read.
    Completed,
    /// The job failed and must not be used again.
    Failed,
}

/// What the host reports to a job after it did its part.
#[derive(Clone, Copy, Debug, PartialEq, Eq)]
pub enum JobEvent {
    /// A device was acquired; its largest single buffer has this many
    /// bytes.
    DeviceReady { max_buffer_size: u64 },
    /// No adapter or device was to be had.
    DeviceMissing,
    /// The buffers are allocated and bound to the pipeline's slots.
    BuffersBound,
    /// The pipeline refused the binding.
    BindingRejected,
    /// The commands are on the queue.
    CommandsSubmitted,
    /// The device confirmed that the landing zone is readable.
    MapSucceeded,
    /// The device reported an error for the mapping.
    MapFailed,
    /// The completion poll timed out.
    PollTimedOut,
}

/// What a job asks of the host next.
#[derive(Clone, Copy, Debug, PartialEq, Eq)]
pub enum JobAction {
    /// Allocate the planned buffers, upload the inputs and bind them.
    StageBuffers,
    /// Record the dispatch, then the copy of the output to the landing
    /// zone, and submit both in one command buffer.
    SubmitCommands,
    /// Request the mapping of the landing zone and poll the device until
    /// its work has retired.
    MapAndPoll,
    /// Read the mapped bytes and hand them to the job.
    ReadBack,
    /// Report this error to the caller.
    Report(ComputeError),
    /// The event does not concern the job as it stands.
    Nothing,
}

/// One multiplication of two square matrices on the device, from the
/// acquisition of the device to the readback of the result.
#[derive(Clone, Copy, Debug, PartialEq, Eq)]
pub struct ComputeJob {
    pub state: JobState,
    pub plan: DispatchPlan,
    pub input_size: usize,
}

impl ComputeJob {
    /// The job's plan is sound and its byte size is that of a square
    /// matrix of the planned problem size.
    pub open spec fn wf(&self) -> bool {
        &&& self.plan.wf()
        &&& valid_dimension(self.plan.problem_size)
        &&& self.input_size == self.plan.problem_size * self.plan.problem_size * 4
    }

    /// A job has ended when it is completed or failed.
    pub open spec fn is_terminal(state: JobState) -> bool {
        state == JobState::Completed || state == JobState::Failed
    }

    /// The state that follows `event`, and what the host is asked to do.
    ///
    /// Each report moves the job one stage on if it is the report that the
    /// stage waits for. A device error or a timeout fails any job that has
    /// not ended. A missing device is reported and leaves the job where
    /// it was. Any other report changes nothing.
    pub open spec fn outcome(&self, event: JobEvent) -> (JobState, JobAction) {
        match (self.state, event) {
            (JobState::Initialized, JobEvent::DeviceReady { max_buffer_size }) => {
                if StagedBuffers::fits(self.input_size as u64, max_buffer_size) {
                    (JobState::BuffersStaged, JobAction::StageBuffers)
                } else {
                    (JobState::Failed, JobAction::Report(ComputeError::ConfigError))
                }
            },
            (JobState::Initialized, JobEvent::DeviceMissing) => (
                JobState::Initialized,
                JobAction::Report(ComputeError::DeviceUnavailable),
            ),
            (JobState::BuffersStaged, JobEvent::BuffersBound) => (
                JobState::Submitted,
                JobAction::SubmitCommands,
            ),
            (JobState::BuffersStaged, JobEvent::BindingRejected) => (
                JobState::Failed,
                JobAction::Report(ComputeError::BindingMismatch),
            ),
            (JobState::Submitted, JobEvent::CommandsSubmitted) => (
                JobState::AwaitingReadback,
                JobAction::MapAndPoll,
            ),
            (JobState::AwaitingReadback, JobEvent::MapSucceeded) => (
                JobState::Completed,
                JobAction::ReadBack,
            ),
            (JobState::Completed, _) => (JobState::Completed, JobAction::Nothing),
            (JobState::Failed, _) => (JobState::Failed, JobAction::Nothing),
            (_, JobEvent::MapFailed) => (
                JobState::Failed,
                JobAction::Report(ComputeError::GpuExecutionFailure),
            ),
            (_, JobEvent::PollTimedOut) => (
                JobState::Failed,
                JobAction::Report(ComputeError::GpuExecutionFailure),
            ),
            (state, _) => (state, JobAction::Nothing),
        }
    }

    /// A job for the product of `a` and `b`, two square matrices of
    /// `problem_size` rows, with workgroups of `tile_size` by `tile_size`
    /// elements.
    ///
    /// Fails with `ConfigError` exactly when the operands do not match the
    /// problem size or no dispatch plan exists for the two sizes.
    pub fn new(a: &Matrix, b: &Matrix, problem_size: usize, tile_size: usize) -> (res: Result<
        ComputeJob,
        ComputeError,
    >)
        ensures
            res is Ok <==> operands_match(a@, b@, problem_size) && DispatchPlan::dispatchable(
                problem_size,
                tile_size,
            ),
            res matches Ok(job) ==> {
                &&& job.state == JobState::Initialized
                &&& job.plan.problem_size == problem_size
                &&& job.plan.tile_size == tile_size
                &&& job.input_size == a@.len() * 4
                &&& job.wf()
            },
            res matches Err(e) ==> e == ComputeError::ConfigError,
    {
        let count: usize = match check_operands(a, b, problem_size) {
            Ok(n) => n,
            Err(_) => {
                return Err(ComputeError::ConfigError);
            },
        };
        let plan = match DispatchPlan::compute(problem_size, tile_size) {
            Ok(p) => p,
            Err(_) => {
                return Err(ComputeError::ConfigError);
            },
        };
        Ok(ComputeJob { state: JobState::Initialized, plan, input_size: count * 4 })
    }

    /// Takes the host's report and says what to do next; the job moves
    /// to the state that [`ComputeJob::outcome`] gives. Plan and sizes
    /// stay as they are.
    pub fn step(&mut self, event: JobEvent) -> (action: JobAction)
        ensures
            (final(self).state, action) == old(self).outcome(event),
            final(self).plan == old(self).plan,
            final(self).input_size == old(self).input_size,
    {
        let (next, action) = match (self.state, event) {
            (JobState::Initialized, JobEvent::DeviceReady { max_buffer_size }) => {
                match StagedBuffers::plan(self.input_size as u64, max_buffer_size) {
                    Ok(_) => (JobState::BuffersStaged, JobAction::StageBuffers),
                    Err(e) => (JobState::Failed, JobAction::Report(e)),
                }
            },
            (JobState::Initialized, JobEvent::DeviceMissing) => (
                JobState::Initialized,
                JobAction::Report(ComputeError::DeviceUnavailable),
            ),
            (JobState::BuffersStaged, JobEvent::BuffersBound) => (
                JobState::Submitted,
                JobAction::SubmitCommands,
            ),
            (JobState::BuffersStaged, JobEvent::BindingRejected) => (
                JobState::Failed,
                JobAction::Report(ComputeError::BindingMismatch),
            ),
            (JobState::Submitted, JobEvent::CommandsSubmitted) => (
                JobState::AwaitingReadback,
                JobAction::MapAndPoll,
            ),
            (JobState::AwaitingReadback, JobEvent::MapSucceeded) => (
                JobState::Completed,
                JobAction::ReadBack,
            ),
            (JobState::Completed, _) => (JobState::Completed, JobAction::Nothing),
            (JobState::Failed, _) => (JobState::Failed, JobAction::Nothing),
            (_, JobEvent::MapFailed) => (
                JobState::Failed,
                JobAction::Report(ComputeError::GpuExecutionFailure),
            ),
            (_, JobEvent::PollTimedOut) => (
                JobState::Failed,
                JobAction::Report(ComputeError::GpuExecutionFailure),
            ),
            (state, _) => (state, JobAction::Nothing),
        };
        self.state = next;
        action
    }

    /// The buffers to allocate for this job on a backend whose largest
    /// single buffer is `max_buffer_size` bytes.
    ///
    /// Fails with `ConfigError` exactly when one of them would be larger
    /// than that.
    pub fn buffers(&self, max_buffer_size: u64) -> (res: Result<StagedBuffers, ComputeError>)
        ensures
            res is Ok <==> StagedBuffers::fits(self.input_size as u64, max_buffer_size),
            res matches Ok(buffers) ==> buffers == StagedBuffers::layout(self.input_size as u64)
                && buffers.wf(),
            res matches Err(e) ==> e == ComputeError::ConfigError,
    {
        StagedBuffers::plan(self.input_size as u64, max_buffer_size)
    }

    /// Decodes the bytes that were read from the landing zone.
    ///
    /// Fails with `GpuExecutionFailure` exactly when the job is not
    /// completed, so nothing is read before the device confirmed the
    /// mapping; otherwise with `DeserializationError` exactly when the
    /// number of bytes is not the byte size of the result, or that size
    /// holds no whole number of elements.
    pub fn read_result(&self, bytes: &[u8]) -> (res: Result<Matrix, ComputeError>)
        ensures
            res is Ok <==> self.state == JobState::Completed && bytes@.len() == self.input_size
                && self.input_size % 4 == 0,
            res matches Ok(m) ==> {
                &&& m@ == decode(bytes@)
                &&& m@.len() * 4 == self.input_size
                &&& self.wf() ==> m@.len() == self.plan.problem_size * self.plan.problem_size
            },
            res matches Err(e) ==> e == (if self.state != JobState::Completed {
                ComputeError::GpuExecutionFailure
            } else {
                ComputeError::DeserializationError
            }),
    {
        if self.state != JobState::Completed {
            return Err(ComputeError::GpuExecutionFailure);
        }
        if bytes.len() != self.input_size {
            return Err(ComputeError::DeserializationError);
        }
        match Matrix::from_bytes(bytes) {
            Ok(m) => Ok(m),
            Err(e) => Err(e),
        }
    }
}

/// A job that has ended stays as it is, whatever is reported to it, and
/// asks for nothing more.
pub proof fn lemma_terminal_states_absorb(job: ComputeJob, event: JobEvent)
    requires
        ComputeJob::is_terminal(job.state),
    ensures
        job.outcome(event) == (job.state, JobAction::Nothing),
{
}

/// The host is told to read the result only on the step that completes the
/// job, and that step is the confirmed mapping of a job that awaited it.
pub proof fn lemma_read_only_on_completion(job: ComputeJob, event: JobEvent)
    ensures
        job.outcome(event).1 == JobAction::ReadBack <==> job.state == JobState::AwaitingReadback
            && event == JobEvent::MapSucceeded,
        job.outcome(event).1 == JobAction::ReadBack ==> job.outcome(event).0
            == JobState::Completed,
        job.outcome(event).0 == JobState::Completed ==> job.state == JobState::Completed
            || job.outcome(event).1 == JobAction::ReadBack,
{
}

/// A configuration error comes only from a job that has not left its
/// first state: before any work is submitted to the device.
pub proof fn lemma_config_error_precedes_submission(job: ComputeJob, event: JobEvent)
    ensures
        job.outcome(event).1 == JobAction::Report(ComputeError::ConfigError) ==> job.state
            == JobState::Initialized,
        job.outcome(event).0 == JobState::Submitted ==> job.state == JobState::Submitted
            || job.state == JobState::BuffersStaged,
{
}

/// A device error or a timeout fails every job that has not ended.
pub proof fn lemma_device_failure_fails(job: ComputeJob, event: JobEvent)
    requires
        !ComputeJob::is_terminal(job.state),
        event == JobEvent::MapFailed || event == JobEvent::PollTimedOut,
    ensures
        job.outcome(event) == (
            JobState::Failed,
            JobAction::Report(ComputeError::GpuExecutionFailure),
        ),
{
}

} // verus!
