//! The calls that one operation of a frame takes, from the command buffer to the submission.

use vstd::prelude::*;

use crate::backend::vulkan::image::VulkanImage;

use super::cmds::{finished, CommandPool, PendingBuffer};
use super::frame::VulkanFrame;
use super::shaders::descriptor;
use super::shaders::{self, BuiltinShader};
use super::{Error, VulkanRenderer};

verus! {

/// What is to be done next for an operation.
#[derive(Clone, Copy, Debug, PartialEq, Eq, Structural)]
pub enum DrawAction {
    /// The number that the timeline has reached is asked for.
    ReadCounter,
    /// A command buffer is allocated and begun.
    BeginBuffer,
    AllocDescriptor(BuiltinShader),
    /// The commands are recorded, and the buffer is ended.
    Record { buffer: u64, descriptor: u64 },
    /// The buffer is submitted; the timeline reaches the number once it is through.
    Submit { buffer: u64, seq: u64 },
}

/// How far an operation got.
#[derive(Clone, Copy, Debug, PartialEq, Eq, Structural)]
pub enum Stage {
    Start,
    CleanedUp,
    Begun { buffer: u64 },
    Described { buffer: u64, descriptor: u64 },
    Recorded { buffer: u64, descriptor: u64, seq: u64 },
    Submitted { seq: u64 },
}

/// An operation of a frame that has something to draw.
#[derive(Clone, Copy, Debug, PartialEq, Eq, Structural)]
pub struct Drawing {
    pub shader: BuiltinShader,
    /// Whether the shader can read the texture; a color needs none.
    pub readable: bool,
    pub stage: Stage,
}

impl Drawing {
    /// Rendering a texture, or painting a color.
    pub fn new(texture: Option<&VulkanImage>) -> (drawing: Drawing)
        ensures
            drawing.stage == Stage::Start,
            match texture {
                Some(image) => drawing.shader == BuiltinShader::Texture && drawing.readable
                    == image.view,
                None => drawing.shader == BuiltinShader::Clear && drawing.readable,
            },
    {
        match texture {
            Some(image) => Drawing {
                shader: BuiltinShader::Texture,
                readable: image.view,
                stage: Stage::Start,
            },
            None => Drawing { shader: BuiltinShader::Clear, readable: true, stage: Stage::Start },
        }
    }

    pub open spec fn spec_action(self) -> Option<DrawAction> {
        match self.stage {
            Stage::Start => Some(DrawAction::ReadCounter),
            Stage::CleanedUp => Some(DrawAction::BeginBuffer),
            Stage::Begun { .. } => Some(DrawAction::AllocDescriptor(self.shader)),
            Stage::Described { buffer, descriptor } => Some(
                DrawAction::Record { buffer, descriptor },
            ),
            Stage::Recorded { buffer, seq, .. } => Some(DrawAction::Submit { buffer, seq }),
            Stage::Submitted { .. } => None,
        }
    }

    /// The operation as far as `stage`.
    pub open spec fn at(self, stage: Stage) -> Drawing {
        Drawing { stage, ..self }
    }

    /// The number of the submission is the last one that the renderer gave out, and nobody
    /// waits for it yet.
    pub open spec fn is_last(self, renderer: VulkanRenderer) -> bool {
        self.stage matches Stage::Recorded { seq, .. } ==> {
            &&& renderer.seq_no == seq
            &&& forall|i: int|
                0 <= i < renderer.cmd_pool.pending_buffers@.len()
                    ==> (#[trigger] renderer.cmd_pool.pending_buffers@[i]).seq < seq
        }
    }

    /// What is to be done next; nothing once the operation is submitted.
    pub fn next_action(&self) -> (action: Option<DrawAction>)
        ensures
            action == self.spec_action(),
    {
        match self.stage {
            Stage::Start => Some(DrawAction::ReadCounter),
            Stage::CleanedUp => Some(DrawAction::BeginBuffer),
            Stage::Begun { .. } => Some(DrawAction::AllocDescriptor(self.shader)),
            Stage::Described { buffer, descriptor } => Some(
                DrawAction::Record { buffer, descriptor },
            ),
            Stage::Recorded { buffer, seq, .. } => Some(DrawAction::Submit { buffer, seq }),
            Stage::Submitted { .. } => None,
        }
    }

    /// The timeline was read: the buffers of submissions that are through are given up, and
    /// returned.
    pub fn counter_read(
        &mut self,
        renderer: &mut VulkanRenderer,
        counter: Result<u64, i32>,
    ) -> (r: Result<Vec<PendingBuffer>, Error>)
        requires
            old(self).stage is Start,
            old(renderer).wf(),
        ensures
            final(renderer).wf(),
            final(renderer).same_device(*old(renderer)),
            final(renderer).seq_no == old(renderer).seq_no,
            match counter {
                Ok(seq) => {
                    let pending = old(renderer).cmd_pool.pending_buffers@;
                    &&& r is Ok
                    &&& r->Ok_0@ == pending.take(finished(pending, seq))
                    &&& final(renderer).cmd_pool.pending_buffers@ == pending.skip(
                        finished(pending, seq),
                    )
                    &&& *final(self) == old(self).at(Stage::CleanedUp)
                },
                Err(code) => {
                    &&& r == Err::<Vec<PendingBuffer>, Error>(Error::SemaphoreError(code))
                    &&& final(renderer).cmd_pool == old(renderer).cmd_pool
                    &&& *final(self) == *old(self)
                },
            },
    {
        let r = renderer.cleanup(counter);
        if r.is_ok() {
            self.stage = Stage::CleanedUp;
        }
        r
    }

    /// A command buffer was asked for.
    pub fn buffer_begun(
        &mut self,
        device_exists: bool,
        allocated: Result<u64, i32>,
        begun: Result<(), i32>,
    ) -> (r: Result<(), Error>)
        requires
            old(self).stage is CleanedUp,
        ensures
            match (device_exists, allocated, begun) {
                (false, _, _) => r == Err::<(), Error>(Error::DeadDevice) && *final(self) == *old(
                    self,
                ),
                (true, Err(code), _) | (true, Ok(_), Err(code)) => r == Err::<(), Error>(
                    Error::CommandBufferError(code),
                ) && *final(self) == *old(self),
                (true, Ok(buffer), Ok(_)) => r == Ok::<(), Error>(()) && *final(self) == old(
                    self,
                ).at(Stage::Begun { buffer }),
            },
    {
        match CommandPool::create_and_begin_buffer(device_exists, allocated, begun) {
            Ok(buffer) => {
                self.stage = Stage::Begun { buffer };
                Ok(())
            },
            Err(error) => Err(error),
        }
    }

    /// A descriptor set was asked for. Once there is one, a texture that shaders cannot read
    /// ends the operation.
    pub fn descriptor_allocated(&mut self, outcome: Result<u64, descriptor::Error>) -> (r: Result<
        (),
        Error,
    >)
        requires
            old(self).stage is Begun,
        ensures
            match outcome {
                Err(error) => r == Err::<(), Error>(
                    Error::PipelineError(shaders::Error::DescriptorSet(error)),
                ) && *final(self) == *old(self),
                Ok(descriptor) => if old(self).readable {
                    r == Ok::<(), Error>(()) && *final(self) == old(self).at(
                        Stage::Described { buffer: old(self).stage->Begun_buffer, descriptor },
                    )
                } else {
                    r == Err::<(), Error>(
                        Error::ImageError(super::ImageError::MissingOrInvalidUsage),
                    ) && *final(self) == *old(self)
                },
            },
    {
        match outcome {
            Err(error) => Err(Error::PipelineError(shaders::Error::DescriptorSet(error))),
            Ok(descriptor) => {
                if !self.readable {
                    return Err(Error::ImageError(super::ImageError::MissingOrInvalidUsage));
                }
                if let Stage::Begun { buffer } = self.stage {
                    self.stage = Stage::Described { buffer, descriptor };
                }
                Ok(())
            },
        }
    }

    /// The commands were recorded: the submission gets its number.
    pub fn recorded(&mut self, renderer: &mut VulkanRenderer, outcome: Result<(), i32>) -> (r: Result<
        (),
        Error,
    >)
        requires
            old(self).stage is Described,
            old(renderer).wf(),
            old(renderer).seq_no < u64::MAX,
        ensures
            final(renderer).wf(),
            final(renderer).same_device(*old(renderer)),
            final(renderer).cmd_pool == old(renderer).cmd_pool,
            final(self).is_last(*final(renderer)),
            match outcome {
                Err(code) => {
                    &&& r == Err::<(), Error>(Error::CommandBufferError(code))
                    &&& final(renderer).seq_no == old(renderer).seq_no
                    &&& *final(self) == *old(self)
                },
                Ok(_) => {
                    &&& r == Ok::<(), Error>(())
                    &&& final(renderer).seq_no == old(renderer).seq_no + 1
                    &&& *final(self) == old(self).at(
                        Stage::Recorded {
                            buffer: old(self).stage->Described_buffer,
                            descriptor: old(self).stage->Described_descriptor,
                            seq: (old(renderer).seq_no + 1) as u64,
                        },
                    )
                },
            },
    {
        match outcome {
            Err(code) => Err(Error::CommandBufferError(code)),
            Ok(_) => {
                let seq: u64 = renderer.next_submission();
                if let Stage::Described { buffer, descriptor } = self.stage {
                    self.stage = Stage::Recorded { buffer, descriptor, seq };
                }
                Ok(())
            },
        }
    }

    /// The buffer was submitted: it is kept with its descriptor set until the submission is
    /// through, and the frame waits for it.
    pub fn submitted(
        &mut self,
        renderer: &mut VulkanRenderer,
        frame: &mut VulkanFrame,
        outcome: Result<(), i32>,
    ) -> (r: Result<(), Error>)
        requires
            old(self).stage is Recorded,
            old(self).is_last(*old(renderer)),
            old(renderer).wf(),
        ensures
            final(renderer).wf(),
            final(renderer).same_device(*old(renderer)),
            final(renderer).seq_no == old(renderer).seq_no,
            match outcome {
                Err(code) => {
                    &&& r == Err::<(), Error>(Error::SubmitError(code))
                    &&& final(renderer).cmd_pool == old(renderer).cmd_pool
                    &&& *final(frame) == *old(frame)
                    &&& *final(self) == *old(self)
                },
                Ok(_) => {
                    let seq = old(self).stage->Recorded_seq;
                    &&& r == Ok::<(), Error>(())
                    &&& final(renderer).cmd_pool.pending_buffers@ == old(
                        renderer,
                    ).cmd_pool.pending_buffers@.push(
                        PendingBuffer {
                            seq,
                            buffer: old(self).stage->Recorded_buffer,
                            descriptor: Some(old(self).stage->Recorded_descriptor),
                        },
                    )
                    &&& *final(frame) == (VulkanFrame { last_sequence: Some(seq), ..*old(frame) })
                    &&& *final(self) == old(self).at(Stage::Submitted { seq })
                },
            },
    {
        if let Stage::Recorded { buffer, descriptor, .. } = self.stage {
            match renderer.submitted(buffer, Some(descriptor), outcome) {
                Ok(seq) => {
                    frame.submitted(seq);
                    self.stage = Stage::Submitted { seq };
                    return Ok(());
                },
                Err(error) => {
                    return Err(error);
                },
            }
        }
        Ok(())
    }
}

/// Nothing is given up before the submission that a frame waits for is through: as long as the
/// timeline has not reached its last submission, the buffer of that submission is kept.
pub proof fn awaited_buffer_is_kept(pending: Seq<PendingBuffer>, frame: VulkanFrame, counter: u64)
    requires
        super::cmds::in_order(pending),
        pending.len() > 0,
        frame.last_sequence == Some(pending.last().seq),
        counter < pending.last().seq,
    ensures
        pending.skip(finished(pending, counter)).contains(pending.last()),
{
    super::cmds::finished_is_prefix(pending, counter);
    super::cmds::cleaning_is_exact(pending, counter, pending.len() - 1);
    let kept = pending.skip(finished(pending, counter));
    assert(kept[kept.len() - 1] == pending.last());
}

/// An operation takes its calls in this order: the timeline is read, a command buffer is begun, a
/// descriptor set for its shader is allocated, the commands are recorded into that buffer with that
/// set, and the buffer is submitted under the number it got. Then nothing is left to be done.
pub proof fn drawing_goes_in_order(drawing: Drawing, buffer: u64, descriptor: u64, seq: u64)
    ensures
        drawing.at(Stage::Start).spec_action() == Some(DrawAction::ReadCounter),
        drawing.at(Stage::CleanedUp).spec_action() == Some(DrawAction::BeginBuffer),
        drawing.at(Stage::Begun { buffer }).spec_action() == Some(
            DrawAction::AllocDescriptor(drawing.shader),
        ),
        drawing.at(Stage::Described { buffer, descriptor }).spec_action() == Some(
            DrawAction::Record { buffer, descriptor },
        ),
        drawing.at(Stage::Recorded { buffer, descriptor, seq }).spec_action() == Some(
            DrawAction::Submit { buffer, seq },
        ),
        drawing.at(Stage::Submitted { seq }).spec_action() is None,
        drawing.at(Stage::Start).shader == drawing.shader,
        drawing.at(Stage::Start).readable == drawing.readable,
{
}

/// A texture is drawn by the texture shader, which has to be able to read it; a color is painted by
/// the color shader, which reads nothing.
pub proof fn drawing_takes_its_shader(texture: Option<&VulkanImage>, drawing: Drawing)
    requires
        call_ensures(Drawing::new, (texture,), drawing),
    ensures
        drawing.shader is Texture <==> texture is Some,
        drawing.shader is Clear <==> texture is None,
        texture matches Some(image) ==> (drawing.readable <==> image.view),
        texture is None ==> drawing.readable,
        drawing.spec_action() == Some(DrawAction::ReadCounter),
{
}

} // verus!
