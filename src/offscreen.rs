//! One offscreen render into an RGBA buffer, as a state machine: create a
//! framebuffer and a texture of the exact size, check completeness, draw,
//! read back, and delete both on every path.

use vstd::prelude::*;

use crate::export::ExportError;

verus! {

/// Which of the two offscreen objects are alive.
#[derive(Clone, Copy, Debug, PartialEq, Eq, Structural)]
pub struct Targets {
    pub framebuffer: bool,
    pub texture: bool,
}

/// One step the caller performs on the graphics context.
#[derive(Clone, Copy, Debug, PartialEq, Eq, Structural)]
pub enum RenderOp {
    /// Create and bind the framebuffer.
    CreateFramebuffer,
    /// Create an RGBA8 texture of the render size and attach it.
    CreateTexture,
    /// Ask whether the framebuffer is complete; a failure means it is not.
    CheckComplete,
    /// Set the viewport to the render size and draw with origin (0, 0).
    Draw,
    /// Read every pixel back, rows in the context's own order. Cannot fail.
    ReadPixels,
    /// Unbind and delete every object named. Cannot fail.
    Release(Targets),
}

/// Where a render stands.
#[derive(Debug)]
pub enum RenderPhase {
    Run(RenderOp),
    /// Nothing is alive any more; `Ok` when the pixels were read.
    Finished(Result<(), ExportError>),
}

/// What became of the pending operation.
#[derive(Clone, Debug)]
pub enum RenderOutcome {
    Done,
    Failed(String),
}

pub struct OffscreenRender {
    pub width: u16,
    pub height: u16,
    pub held: Targets,
    /// The result once known, while the objects are being released.
    pub result: Option<Result<(), ExportError>>,
    pub phase: RenderPhase,
}

pub open spec fn targets(framebuffer: bool, texture: bool) -> Targets {
    Targets { framebuffer, texture }
}

/// The objects alive while `op` is pending, before any release.
pub open spec fn alive_during(op: RenderOp) -> Targets {
    match op {
        RenderOp::CreateFramebuffer => targets(false, false),
        RenderOp::CreateTexture => targets(true, false),
        RenderOp::Release(t) => t,
        _ => targets(true, true),
    }
}

impl OffscreenRender {
    pub open spec fn wf(self) -> bool {
        match self.phase {
            RenderPhase::Run(RenderOp::Release(t)) => t == self.held && self.result is Some,
            RenderPhase::Run(op) => self.held == alive_during(op) && self.result is None,
            RenderPhase::Finished(_) => self.held == targets(false, false) && self.result is None,
        }
    }

    /// The state after the objects are released, or directly when none is.
    pub open spec fn release_then(self, r: Result<(), ExportError>) -> OffscreenRender {
        if self.held == targets(false, false) {
            OffscreenRender { result: None, phase: RenderPhase::Finished(r), ..self }
        } else {
            OffscreenRender {
                result: Some(r),
                phase: RenderPhase::Run(RenderOp::Release(self.held)),
                ..self
            }
        }
    }

    /// The state after the pending operation ended with `outcome`.
    pub open spec fn stepped(self, outcome: RenderOutcome) -> OffscreenRender {
        match self.phase {
            RenderPhase::Run(RenderOp::CreateFramebuffer) => match outcome {
                RenderOutcome::Done => OffscreenRender {
                    held: targets(true, false),
                    phase: RenderPhase::Run(RenderOp::CreateTexture),
                    ..self
                },
                RenderOutcome::Failed(e) => self.release_then(
                    Err(ExportError::CreateFramebuffer(e)),
                ),
            },
            RenderPhase::Run(RenderOp::CreateTexture) => match outcome {
                RenderOutcome::Done => OffscreenRender {
                    held: targets(true, true),
                    phase: RenderPhase::Run(RenderOp::CheckComplete),
                    ..self
                },
                RenderOutcome::Failed(e) => self.release_then(Err(ExportError::CreateTexture(e))),
            },
            RenderPhase::Run(RenderOp::CheckComplete) => match outcome {
                RenderOutcome::Done => OffscreenRender {
                    phase: RenderPhase::Run(RenderOp::Draw),
                    ..self
                },
                RenderOutcome::Failed(_) => self.release_then(
                    Err(ExportError::FramebufferIncomplete),
                ),
            },
            RenderPhase::Run(RenderOp::Draw) => OffscreenRender {
                phase: RenderPhase::Run(RenderOp::ReadPixels),
                ..self
            },
            RenderPhase::Run(RenderOp::ReadPixels) => self.release_then(Ok(())),
            RenderPhase::Run(RenderOp::Release(_)) => OffscreenRender {
                held: targets(false, false),
                result: None,
                phase: RenderPhase::Finished(self.result->Some_0),
                ..self
            },
            RenderPhase::Finished(_) => self,
        }
    }

    /// A render of `width` by `height` pixels, ready to create its framebuffer.
    pub fn new(width: u16, height: u16) -> (r: OffscreenRender)
        ensures
            r.wf(),
            r.width == width,
            r.height == height,
            r.phase == RenderPhase::Run(RenderOp::CreateFramebuffer),
    {
        OffscreenRender {
            width,
            height,
            held: Targets { framebuffer: false, texture: false },
            result: None,
            phase: RenderPhase::Run(RenderOp::CreateFramebuffer),
        }
    }

    fn release_with(&mut self, r: Result<(), ExportError>)
        ensures
            *final(self) == old(self).release_then(r),
    {
        if !self.held.framebuffer && !self.held.texture {
            self.result = None;
            self.phase = RenderPhase::Finished(r);
        } else {
            self.result = Some(r);
            self.phase = RenderPhase::Run(RenderOp::Release(self.held));
        }
    }

    /// Takes the outcome of the pending operation and moves to the next one.
    pub fn advance(&mut self, outcome: RenderOutcome)
        requires
            old(self).wf(),
            old(self).phase is Run,
        ensures
            *final(self) == old(self).stepped(outcome),
            final(self).wf(),
    {
        let op = match &self.phase {
            RenderPhase::Run(op) => *op,
            RenderPhase::Finished(_) => { return; },
        };
        match op {
            RenderOp::CreateFramebuffer => match outcome {
                RenderOutcome::Done => {
                    self.held = Targets { framebuffer: true, texture: false };
                    self.phase = RenderPhase::Run(RenderOp::CreateTexture);
                },
                RenderOutcome::Failed(e) => self.release_with(
                    Err(ExportError::CreateFramebuffer(e)),
                ),
            },
            RenderOp::CreateTexture => match outcome {
                RenderOutcome::Done => {
                    self.held = Targets { framebuffer: true, texture: true };
                    self.phase = RenderPhase::Run(RenderOp::CheckComplete);
                },
                RenderOutcome::Failed(e) => self.release_with(Err(ExportError::CreateTexture(e))),
            },
            RenderOp::CheckComplete => match outcome {
                RenderOutcome::Done => {
                    self.phase = RenderPhase::Run(RenderOp::Draw);
                },
                RenderOutcome::Failed(_) => self.release_with(
                    Err(ExportError::FramebufferIncomplete),
                ),
            },
            RenderOp::Draw => {
                self.phase = RenderPhase::Run(RenderOp::ReadPixels);
            },
            RenderOp::ReadPixels => self.release_with(Ok(())),
            RenderOp::Release(_) => {
                let r = self.result.take().unwrap();
                self.held = Targets { framebuffer: false, texture: false };
                self.phase = RenderPhase::Finished(r);
            },
        }
    }
}

/// The render after the caller reported `outcomes` in turn.
pub open spec fn run_render(r: OffscreenRender, outcomes: Seq<RenderOutcome>) -> OffscreenRender
    decreases outcomes.len(),
{
    if outcomes.len() == 0 {
        r
    } else {
        let prev = run_render(r, outcomes.drop_last());
        if prev.phase is Run {
            prev.stepped(outcomes.last())
        } else {
            prev
        }
    }
}

/// Whatever the outcomes, a finished render holds no object: the texture and
/// the framebuffer are deleted on success and on every failure.
pub proof fn finished_render_holds_nothing(r: OffscreenRender, outcomes: Seq<RenderOutcome>)
    requires
        r.wf(),
    ensures
        run_render(r, outcomes).wf(),
        run_render(r, outcomes).phase is Finished ==> run_render(r, outcomes).held == targets(
            false,
            false,
        ),
    decreases outcomes.len(),
{
    if outcomes.len() > 0 {
        finished_render_holds_nothing(r, outcomes.drop_last());
    }
}

} // verus!
