use vstd::prelude::*;
use crate::error::ComputeError;
use crate::matrix::{byte_of, encode, Matrix};

verus! {

/// Byte size of the uniform that carries the problem dimension.
pub const DIMENSION_UNIFORM_SIZE: u64 = 8;

/// Binding slot of the first input, as the kernel declares it.
pub const BINDING_INPUT_A: u32 = 0;

/// Binding slot of the second input.
pub const BINDING_INPUT_B: u32 = 1;

/// Binding slot of the output.
pub const BINDING_OUTPUT: u32 = 2;

/// Binding slot of the dimension uniform.
pub const BINDING_DIMENSION: u32 = 3;

/// What a device buffer may be used for.
#[derive(Clone, Copy, Debug, PartialEq, Eq, Structural)]
pub struct BufferUsage {
    /// The kernel reads or writes it as storage.
    pub storage: bool,
    /// The kernel reads it as a uniform.
    pub uniform: bool,
    /// A copy command may read from it.
    pub copy_src: bool,
    /// A copy command may write to it.
    pub copy_dst: bool,
    /// The host may map it for reading.
    pub map_read: bool,
}

/// One device buffer to allocate: its size in bytes, its usage, and the
/// binding slot under which the kernel sees it, if it sees it at all.
#[derive(Clone, Copy, Debug, PartialEq, Eq)]
pub struct BufferPlan {
    pub size: u64,
    pub usage: BufferUsage,
    pub binding: Option<u32>,
}

/// The buffers of one job: two inputs, the output, the dimension uniform
/// and the host-visible landing zone of the result.
#[derive(Clone, Copy, Debug, PartialEq, Eq)]
pub struct StagedBuffers {
    pub input_a: BufferPlan,
    pub input_b: BufferPlan,
    pub output: BufferPlan,
    pub dimension: BufferPlan,
    pub staging: BufferPlan,
}

impl BufferUsage {
    /// Storage that only the kernel touches.
    pub open spec fn kernel_storage() -> BufferUsage {
        BufferUsage {
            storage: true,
            uniform: false,
            copy_src: false,
            copy_dst: false,
            map_read: false,
        }
    }

    /// Storage that the kernel writes and a copy command reads.
    pub open spec fn kernel_output() -> BufferUsage {
        BufferUsage {
            storage: true,
            uniform: false,
            copy_src: true,
            copy_dst: false,
            map_read: false,
        }
    }

    /// A uniform.
    pub open spec fn kernel_uniform() -> BufferUsage {
        BufferUsage {
            storage: false,
            uniform: true,
            copy_src: false,
            copy_dst: false,
            map_read: false,
        }
    }

    /// The target of a copy that the host then maps for reading.
    pub open spec fn readback() -> BufferUsage {
        BufferUsage {
            storage: false,
            uniform: false,
            copy_src: false,
            copy_dst: true,
            map_read: true,
        }
    }
}

impl StagedBuffers {
    /// The buffers of a job whose inputs and output take `input_size`
    /// bytes each.
    pub open spec fn layout(input_size: u64) -> StagedBuffers {
        StagedBuffers {
            input_a: BufferPlan {
                size: input_size,
                usage: BufferUsage::kernel_storage(),
                binding: Some(0u32),
            },
            input_b: BufferPlan {
                size: input_size,
                usage: BufferUsage::kernel_storage(),
                binding: Some(1u32),
            },
            output: BufferPlan {
                size: input_size,
                usage: BufferUsage::kernel_output(),
                binding: Some(2u32),
            },
            dimension: BufferPlan {
                size: 8u64,
                usage: BufferUsage::kernel_uniform(),
                binding: Some(3u32),
            },
            staging: BufferPlan {
                size: input_size,
                usage: BufferUsage::readback(),
                binding: None,
            },
        }
    }

    /// No buffer of the layout is larger than the backend's largest
    /// single buffer.
    pub open spec fn fits(input_size: u64, max_buffer_size: u64) -> bool {
        input_size <= max_buffer_size && 8 <= max_buffer_size
    }

    /// The result can travel from the kernel to the host: the output can be
    /// copied from, the landing zone can be copied to and mapped, both
    /// have one size, and the kernel sees neither the landing zone nor two
    /// buffers under one slot.
    pub open spec fn wf(&self) -> bool {
        &&& self.output.usage.storage && self.output.usage.copy_src
        &&& self.staging.usage.copy_dst && self.staging.usage.map_read
        &&& self.staging.size == self.output.size
        &&& self.input_a.size == self.output.size
        &&& self.input_b.size == self.output.size
        &&& self.input_a.usage.storage && self.input_b.usage.storage
        &&& self.dimension.usage.uniform
        &&& self.input_a.binding == Some(BINDING_INPUT_A)
        &&& self.input_b.binding == Some(BINDING_INPUT_B)
        &&& self.output.binding == Some(BINDING_OUTPUT)
        &&& self.dimension.binding == Some(BINDING_DIMENSION)
        &&& self.staging.binding is None
    }

    /// Plans the buffers of a job whose inputs and output take
    /// `input_size` bytes each, on a backend whose largest single buffer
    /// is `max_buffer_size` bytes.
    ///
    /// Fails with `ConfigError` exactly when one of the buffers would be
    /// larger than that.
    pub fn plan(input_size: u64, max_buffer_size: u64) -> (res: Result<StagedBuffers, ComputeError>)
        ensures
            res is Ok <==> Self::fits(input_size, max_buffer_size),
            res matches Ok(buffers) ==> buffers == Self::layout(input_size) && buffers.wf(),
            res matches Err(e) ==> e == ComputeError::ConfigError,
    {
        if input_size > max_buffer_size || DIMENSION_UNIFORM_SIZE > max_buffer_size {
            return Err(ComputeError::ConfigError);
        }
        let kernel_storage = BufferUsage {
            storage: true,
            uniform: false,
            copy_src: false,
            copy_dst: false,
            map_read: false,
        };
        let kernel_output = BufferUsage {
            storage: true,
            uniform: false,
            copy_src: true,
            copy_dst: false,
            map_read: false,
        };
        let kernel_uniform = BufferUsage {
            storage: false,
            uniform: true,
            copy_src: false,
            copy_dst: false,
            map_read: false,
        };
        let readback = BufferUsage {
            storage: false,
            uniform: false,
            copy_src: false,
            copy_dst: true,
            map_read: true,
        };
        Ok(
            StagedBuffers {
                input_a: BufferPlan {
                    size: input_size,
                    usage: kernel_storage,
                    binding: Some(BINDING_INPUT_A),
                },
                input_b: BufferPlan {
                    size: input_size,
                    usage: kernel_storage,
                    binding: Some(BINDING_INPUT_B),
                },
                output: BufferPlan {
                    size: input_size,
                    usage: kernel_output,
                    binding: Some(BINDING_OUTPUT),
                },
                dimension: BufferPlan {
                    size: DIMENSION_UNIFORM_SIZE,
                    usage: kernel_uniform,
                    binding: Some(BINDING_DIMENSION),
                },
                staging: BufferPlan { size: input_size, usage: readback, binding: None },
            },
        )
    }
}

/// The big-endian byte image of a sequence of words: four bytes per word,
/// most significant first, in the order of the words.
pub open spec fn encode_big(words: Seq<u32>) -> Seq<u8> {
    Seq::new(4 * words.len(), |i: int| byte_of(words[i / 4], 3 - i % 4))
}

/// Byte `k` (0 is the least significant) of the 64-bit number `n`.
pub open spec fn wide_byte_of(n: u64, k: int) -> u8 {
    ((n >> ((8 * k) as u64)) & 0xff) as u8
}

/// The eight bytes of `n`, least significant first.
pub open spec fn wide_image(n: u64) -> Seq<u8> {
    Seq::new(8, |k: int| wide_byte_of(n, k))
}

/// The eight bytes of `n`, most significant first.
pub open spec fn wide_image_big(n: u64) -> Seq<u8> {
    Seq::new(8, |k: int| wide_byte_of(n, 7 - k))
}

/// Copies what `bytemuck::cast_slice` makes of the words: the same memory
/// read as bytes. For 32-bit words and bytes the cast cannot fail, and it
/// gives four bytes per word in the byte order of the machine, which is
/// either little-endian or big-endian.
#[verifier::external_body]
fn words_in_memory(words: &Vec<u32>) -> (bytes: Vec<u8>)
    ensures
        bytes@ == encode(words@) || bytes@ == encode_big(words@),
{
    bytemuck::cast_slice::<u32, u8>(words.as_slice()).to_vec()
}

/// Copies what `bytemuck::bytes_of` makes of a 64-bit number: its eight
/// bytes as they lie in memory, in the byte order of the machine.
#[verifier::external_body]
fn number_in_memory(n: u64) -> (bytes: Vec<u8>)
    ensures
        bytes@ == wide_image(n) || bytes@ == wide_image_big(n),
{
    bytemuck::bytes_of(&n).to_vec()
}

/// The bytes to upload for an input: the elements as they lie in the
/// host's memory, four bytes each, in the host's byte order.
pub fn upload_image(input: &Matrix) -> (bytes: Vec<u8>)
    ensures
        bytes@.len() == 4 * input@.len(),
        bytes@ == encode(input@) || bytes@ == encode_big(input@),
{
    words_in_memory(&input.val)
}

/// The bytes to upload for the dimension uniform: the problem size as a
/// 64-bit number, as it lies in the host's memory.
pub fn dimension_image(problem_size: usize) -> (bytes: Vec<u8>)
    ensures
        bytes@.len() == DIMENSION_UNIFORM_SIZE,
        bytes@ == wide_image(problem_size as u64) || bytes@ == wide_image_big(
            problem_size as u64,
        ),
{
    number_in_memory(problem_size as u64)
}

} // verus!
