//! Building a GPU program from a snippet, as a state machine.
//!
//! The machine decides; the caller owns the graphics context. It asks the
//! machine for the pending operation, performs it, and reports the outcome.
//! The first candidate (the snippet's own mode) is tried, then the other one;
//! when both fail the failure carries both diagnostics. Whatever an attempt
//! created is released before the next attempt starts or the build fails.

use vstd::prelude::*;

use crate::source::{
    classify, classify_spec, full_source, full_text, occurs_in, tweet_source, tweet_text,
    vertex_source, vertex_text, Mode, Profile,
};

verus! {

/// The two programmable stages a program links.
#[derive(Clone, Copy, Debug, PartialEq, Eq, Structural)]
pub enum ShaderStage {
    Vertex,
    Fragment,
}

/// A kind of GPU object whose creation may fail.
#[derive(Clone, Copy, Debug, PartialEq, Eq, Structural)]
pub enum GpuObject {
    Program,
    Shader(ShaderStage),
    VertexArray,
}

/// Which objects of the attempt in progress are alive.
#[derive(Clone, Copy, Debug, PartialEq, Eq, Structural)]
pub struct Held {
    pub program: bool,
    pub vertex: bool,
    pub fragment: bool,
}

impl Held {
    pub open spec fn is_empty(self) -> bool {
        !self.program && !self.vertex && !self.fragment
    }
}

pub open spec fn held(program: bool, vertex: bool, fragment: bool) -> Held {
    Held { program, vertex, fragment }
}

/// One step the caller performs on the graphics context.
#[derive(Clone, Copy, Debug, PartialEq, Eq, Structural)]
pub enum GpuOp {
    /// Create an empty program object.
    CreateProgram,
    /// Create a shader object for the stage.
    CreateShader(ShaderStage),
    /// Load the stage's source into its shader and compile it; fails with the log.
    CompileShader(ShaderStage),
    /// Attach both shaders and link; fails with the linker log.
    Link,
    /// Detach both shaders from the program and delete them. Cannot fail.
    DiscardShaders,
    /// Create the vertex-array object that the draw binds.
    CreateVertexArray,
    /// Delete every object named. Cannot fail.
    Release(Held),
}

/// What became of the pending operation.
#[derive(Clone, Debug)]
pub enum Outcome {
    Done,
    /// The operation failed; the text is the context's reason or log.
    Failed(String),
}

/// Why one attempt failed.
#[derive(Clone, Debug)]
pub enum BuildError {
    /// The context could not create an object.
    Create { object: GpuObject, reason: String },
    /// A stage did not compile; the log is the compiler's.
    Compile { stage: ShaderStage, log: String },
    /// The program did not link; the log is the linker's.
    Link { log: String },
}

pub const CREATE_PROGRAM_PREFIX: &'static str = "Cannot create program: ";

pub const CREATE_SHADER_PREFIX: &'static str = "Cannot create shader: ";

pub const CREATE_VERTEX_ARRAY_PREFIX: &'static str = "Cannot create vertex array: ";

pub const COMPILE_PREFIX: &'static str = "Shader compile error:\n";

pub const LINK_PREFIX: &'static str = "Program link error:\n";

pub open spec fn create_prefix(object: GpuObject) -> Seq<char> {
    match object {
        GpuObject::Program => CREATE_PROGRAM_PREFIX@,
        GpuObject::Shader(_) => CREATE_SHADER_PREFIX@,
        GpuObject::VertexArray => CREATE_VERTEX_ARRAY_PREFIX@,
    }
}

impl BuildError {
    /// The text the context gave: the reason or the log.
    pub open spec fn detail(self) -> Seq<char> {
        match self {
            BuildError::Create { reason, .. } => reason@,
            BuildError::Compile { log, .. } => log@,
            BuildError::Link { log } => log@,
        }
    }

    pub open spec fn prefix(self) -> Seq<char> {
        match self {
            BuildError::Create { object, .. } => create_prefix(object),
            BuildError::Compile { .. } => COMPILE_PREFIX@,
            BuildError::Link { .. } => LINK_PREFIX@,
        }
    }

    pub open spec fn text(self) -> Seq<char> {
        self.prefix() + self.detail()
    }

    /// The error as shown to the user.
    pub fn message(&self) -> (r: String)
        ensures
            r@ == self.text(),
    {
        match self {
            BuildError::Create { object, reason } => {
                let mut r = match object {
                    GpuObject::Program => String::from_str(CREATE_PROGRAM_PREFIX),
                    GpuObject::Shader(_) => String::from_str(CREATE_SHADER_PREFIX),
                    GpuObject::VertexArray => String::from_str(CREATE_VERTEX_ARRAY_PREFIX),
                };
                r.append(reason.as_str());
                r
            },
            BuildError::Compile { log, .. } => {
                let mut r = String::from_str(COMPILE_PREFIX);
                r.append(log.as_str());
                r
            },
            BuildError::Link { log } => {
                let mut r = String::from_str(LINK_PREFIX);
                r.append(log.as_str());
                r
            },
        }
    }
}

/// Both attempts failed.
#[derive(Clone, Debug)]
pub struct CompileFailure {
    /// The mode tried first; the second attempt used the other one.
    pub first_mode: Mode,
    pub first: BuildError,
    pub second: BuildError,
}

pub const FULL_FAILED: &'static str = "Full GLSL mode failed:\n";

pub const TWEET_FAILED: &'static str = "Tweet shader mode failed:\n";

pub const FULL_ALSO_FAILED: &'static str = "\n\nFull GLSL mode also failed:\n";

pub const TWEET_ALSO_FAILED: &'static str = "\n\nTweet shader mode also failed:\n";

pub open spec fn first_label(m: Mode) -> Seq<char> {
    match m {
        Mode::Full => FULL_FAILED@,
        Mode::Tweet => TWEET_FAILED@,
    }
}

pub open spec fn second_label(m: Mode) -> Seq<char> {
    match m {
        Mode::Full => FULL_ALSO_FAILED@,
        Mode::Tweet => TWEET_ALSO_FAILED@,
    }
}

impl CompileFailure {
    /// Both diagnostics, each under the name of its mode, the first one first.
    pub open spec fn text(self) -> Seq<char> {
        first_label(self.first_mode) + self.first.text() + second_label(
            self.first_mode.other_spec(),
        ) + self.second.text()
    }

    /// The diagnostic shown to the user.
    pub fn message(&self) -> (r: String)
        ensures
            r@ == self.text(),
    {
        let mut r = match self.first_mode {
            Mode::Full => String::from_str(FULL_FAILED),
            Mode::Tweet => String::from_str(TWEET_FAILED),
        };
        let first = self.first.message();
        r.append(first.as_str());
        match self.first_mode {
            Mode::Full => r.append(TWEET_ALSO_FAILED),
            Mode::Tweet => r.append(FULL_ALSO_FAILED),
        }
        let second = self.second.message();
        r.append(second.as_str());
        r
    }
}

/// Where a build stands.
#[derive(Clone, Debug)]
pub enum Phase {
    /// The caller is to perform this operation and report its outcome.
    Run(GpuOp),
    /// The program and its vertex array exist; the mode is the one that built.
    Built(Mode),
    /// Both modes failed and nothing of either attempt is left alive.
    Failed(CompileFailure),
}

/// The objects alive while `op` is pending, in an attempt that has not failed.
pub open spec fn held_during(op: GpuOp) -> Held {
    match op {
        GpuOp::CreateProgram => held(false, false, false),
        GpuOp::CreateShader(ShaderStage::Vertex) => held(true, false, false),
        GpuOp::CompileShader(ShaderStage::Vertex) => held(true, true, false),
        GpuOp::CreateShader(ShaderStage::Fragment) => held(true, true, false),
        GpuOp::CompileShader(ShaderStage::Fragment) => held(true, true, true),
        GpuOp::Link => held(true, true, true),
        GpuOp::DiscardShaders => held(true, true, true),
        GpuOp::CreateVertexArray => held(true, false, false),
        GpuOp::Release(h) => h,
    }
}

/// The operation that follows `op` when it succeeds; `None` after the last.
pub open spec fn op_after(op: GpuOp) -> Option<GpuOp> {
    match op {
        GpuOp::CreateProgram => Some(GpuOp::CreateShader(ShaderStage::Vertex)),
        GpuOp::CreateShader(s) => Some(GpuOp::CompileShader(s)),
        GpuOp::CompileShader(ShaderStage::Vertex) => Some(
            GpuOp::CreateShader(ShaderStage::Fragment),
        ),
        GpuOp::CompileShader(ShaderStage::Fragment) => Some(GpuOp::Link),
        GpuOp::Link => Some(GpuOp::DiscardShaders),
        GpuOp::DiscardShaders => Some(GpuOp::CreateVertexArray),
        GpuOp::CreateVertexArray => None,
        GpuOp::Release(_) => None,
    }
}

/// Whether `op` can report a failure.
pub open spec fn fallible(op: GpuOp) -> bool {
    !(op is DiscardShaders) && !(op is Release)
}

/// The error that a failure of `op` with text `msg` stands for.
pub open spec fn error_for(op: GpuOp, msg: String) -> BuildError {
    match op {
        GpuOp::CreateProgram => BuildError::Create { object: GpuObject::Program, reason: msg },
        GpuOp::CreateShader(s) => BuildError::Create { object: GpuObject::Shader(s), reason: msg },
        GpuOp::CompileShader(s) => BuildError::Compile { stage: s, log: msg },
        GpuOp::CreateVertexArray => BuildError::Create {
            object: GpuObject::VertexArray,
            reason: msg,
        },
        _ => BuildError::Link { log: msg },
    }
}

/// A build of one snippet in both modes, the preferred one first.
#[derive(Clone, Debug)]
pub struct ProgramBuild {
    /// The mode tried first.
    pub first_mode: Mode,
    pub vertex: String,
    pub tweet: String,
    pub full: String,
    /// 0 while the first mode runs, 1 while the second does.
    pub attempt: u8,
    /// Objects of the current attempt that are alive.
    pub held: Held,
    /// Why the current attempt failed, while its objects are being released.
    pub pending_error: Option<BuildError>,
    /// Why the first attempt failed, once the second runs.
    pub first_error: Option<BuildError>,
    pub phase: Phase,
}

impl ProgramBuild {
    /// The mode of the attempt in progress.
    pub open spec fn mode(self) -> Mode {
        if self.attempt == 0 {
            self.first_mode
        } else {
            self.first_mode.other_spec()
        }
    }

    pub open spec fn wf(self) -> bool {
        &&& self.attempt <= 1
        &&& !(self.phase is Failed) ==> (self.attempt == 0 <==> self.first_error is None)
        &&& match self.phase {
            Phase::Run(GpuOp::Release(h)) => h == self.held && !h.is_empty()
                && self.pending_error is Some,
            Phase::Run(op) => self.held == held_during(op) && self.pending_error is None,
            Phase::Built(m) => m == self.mode() && self.held == held(true, false, false)
                && self.pending_error is None,
            Phase::Failed(f) => self.attempt == 1 && self.held.is_empty()
                && self.pending_error is None && f.first_mode == self.first_mode
                && self.first_error is None,
        }
    }

    /// The state once the current attempt is over and nothing of it is alive.
    pub open spec fn after_release(self, err: BuildError) -> ProgramBuild {
        if self.attempt == 0 {
            ProgramBuild {
                attempt: 1,
                held: held(false, false, false),
                pending_error: None,
                first_error: Some(err),
                phase: Phase::Run(GpuOp::CreateProgram),
                ..self
            }
        } else {
            ProgramBuild {
                held: held(false, false, false),
                pending_error: None,
                first_error: None,
                phase: Phase::Failed(
                    CompileFailure {
                        first_mode: self.first_mode,
                        first: self.first_error->Some_0,
                        second: err,
                    },
                ),
                ..self
            }
        }
    }

    /// The state once the current attempt has failed with `err`.
    pub open spec fn after_failure(self, err: BuildError) -> ProgramBuild {
        if self.held.is_empty() {
            self.after_release(err)
        } else {
            ProgramBuild {
                pending_error: Some(err),
                phase: Phase::Run(GpuOp::Release(self.held)),
                ..self
            }
        }
    }

    /// The state after the pending operation ended with `outcome`.
    pub open spec fn stepped(self, outcome: Outcome) -> ProgramBuild {
        match self.phase {
            Phase::Run(GpuOp::Release(_)) => self.after_release(self.pending_error->Some_0),
            Phase::Run(op) => {
                if outcome is Failed && fallible(op) {
                    self.after_failure(error_for(op, outcome->Failed_0))
                } else {
                    match op_after(op) {
                        Some(next) => ProgramBuild {
                            held: held_during(next),
                            phase: Phase::Run(next),
                            ..self
                        },
                        None => ProgramBuild { phase: Phase::Built(self.mode()), ..self },
                    }
                }
            },
            _ => self,
        }
    }

    /// A build of `snippet` for `profile`, ready to create the first program.
    pub fn new(profile: Profile, snippet: &str) -> (b: ProgramBuild)
        ensures
            b.wf(),
            b.first_mode == classify_spec(snippet@),
            b.vertex@ == vertex_text(profile),
            b.tweet@ == tweet_text(profile, snippet@),
            b.full@ == full_text(profile, snippet@),
            b.attempt == 0,
            b.phase == Phase::Run(GpuOp::CreateProgram),
    {
        ProgramBuild {
            first_mode: classify(snippet),
            vertex: vertex_source(profile),
            tweet: tweet_source(profile, snippet),
            full: full_source(profile, snippet),
            attempt: 0,
            held: Held { program: false, vertex: false, fragment: false },
            pending_error: None,
            first_error: None,
            phase: Phase::Run(GpuOp::CreateProgram),
        }
    }

    /// The mode of the attempt in progress.
    pub fn current_mode(&self) -> (m: Mode)
        requires
            self.wf(),
        ensures
            m == self.mode(),
    {
        if self.attempt == 0 {
            self.first_mode
        } else {
            self.first_mode.other()
        }
    }

    /// The source that the stage compiles in the attempt in progress.
    pub fn stage_source(&self, stage: ShaderStage) -> (r: &String)
        requires
            self.wf(),
        ensures
            stage == ShaderStage::Vertex ==> *r == self.vertex,
            stage == ShaderStage::Fragment && self.mode() == Mode::Tweet ==> *r == self.tweet,
            stage == ShaderStage::Fragment && self.mode() == Mode::Full ==> *r == self.full,
    {
        match stage {
            ShaderStage::Vertex => &self.vertex,
            ShaderStage::Fragment => match self.current_mode() {
                Mode::Tweet => &self.tweet,
                Mode::Full => &self.full,
            },
        }
    }

    fn finish_attempt(&mut self, err: BuildError)
        requires
            old(self).attempt <= 1,
            old(self).attempt == 0 <==> old(self).first_error is None,
        ensures
            *final(self) == old(self).after_release(err),
    {
        self.held = Held { program: false, vertex: false, fragment: false };
        self.pending_error = None;
        if self.attempt == 0 {
            self.attempt = 1;
            self.first_error = Some(err);
            self.phase = Phase::Run(GpuOp::CreateProgram);
        } else {
            let first = self.first_error.take().unwrap();
            self.phase = Phase::Failed(
                CompileFailure { first_mode: self.first_mode, first: first, second: err },
            );
        }
    }

    /// Takes the outcome of the pending operation and moves to the next one.
    pub fn advance(&mut self, outcome: Outcome)
        requires
            old(self).wf(),
            old(self).phase is Run,
        ensures
            *final(self) == old(self).stepped(outcome),
            final(self).wf(),
    {
        let op = match &self.phase {
            Phase::Run(op) => *op,
            _ => { return; },
        };
        match op {
            GpuOp::Release(_) => {
                let err = self.pending_error.take().unwrap();
                self.finish_attempt(err);
                return;
            },
            _ => {},
        }
        let failed = match outcome {
            Outcome::Failed(msg) => match op {
                GpuOp::CreateProgram => Some(
                    BuildError::Create { object: GpuObject::Program, reason: msg },
                ),
                GpuOp::CreateShader(s) => Some(
                    BuildError::Create { object: GpuObject::Shader(s), reason: msg },
                ),
                GpuOp::CompileShader(s) => Some(BuildError::Compile { stage: s, log: msg }),
                GpuOp::Link => Some(BuildError::Link { log: msg }),
                GpuOp::CreateVertexArray => Some(
                    BuildError::Create { object: GpuObject::VertexArray, reason: msg },
                ),
                _ => None,
            },
            Outcome::Done => None,
        };
        match failed {
            Some(err) => {
                if !self.held.program && !self.held.vertex && !self.held.fragment {
                    self.finish_attempt(err);
                } else {
                    self.pending_error = Some(err);
                    self.phase = Phase::Run(GpuOp::Release(self.held));
                }
            },
            None => {
                let next = match op {
                    GpuOp::CreateProgram => GpuOp::CreateShader(ShaderStage::Vertex),
                    GpuOp::CreateShader(s) => GpuOp::CompileShader(s),
                    GpuOp::CompileShader(ShaderStage::Vertex) => GpuOp::CreateShader(
                        ShaderStage::Fragment,
                    ),
                    GpuOp::CompileShader(ShaderStage::Fragment) => GpuOp::Link,
                    GpuOp::Link => GpuOp::DiscardShaders,
                    GpuOp::DiscardShaders => GpuOp::CreateVertexArray,
                    _ => {
                        self.phase = Phase::Built(self.current_mode());
                        return;
                    },
                };
                self.held = match next {
                    GpuOp::CreateShader(ShaderStage::Vertex) => Held {
                        program: true,
                        vertex: false,
                        fragment: false,
                    },
                    GpuOp::CompileShader(ShaderStage::Vertex) | GpuOp::CreateShader(
                        ShaderStage::Fragment,
                    ) => Held { program: true, vertex: true, fragment: false },
                    GpuOp::CreateVertexArray => Held {
                        program: true,
                        vertex: false,
                        fragment: false,
                    },
                    _ => Held { program: true, vertex: true, fragment: true },
                };
                self.phase = Phase::Run(next);
            },
        }
    }
}

/// The build after the caller reported `outcomes` in turn; reports that come
/// once it has ended change nothing.
pub open spec fn run(b: ProgramBuild, outcomes: Seq<Outcome>) -> ProgramBuild
    decreases outcomes.len(),
{
    if outcomes.len() == 0 {
        b
    } else {
        let prev = run(b, outcomes.drop_last());
        if prev.phase is Run {
            prev.stepped(outcomes.last())
        } else {
            prev
        }
    }
}

/// One step keeps a well-formed build well-formed.
pub proof fn stepped_keeps_wf(b: ProgramBuild, outcome: Outcome)
    requires
        b.wf(),
        b.phase is Run,
    ensures
        b.stepped(outcome).wf(),
        b.stepped(outcome).first_mode == b.first_mode,
{
}

/// Whatever the outcomes, a build that ended leaves nothing of a failed
/// attempt alive: after a success only the program is held (its shaders are
/// gone), after a failure nothing is, and a failure names the mode tried
/// first, the snippet's own.
pub proof fn ended_build_holds_no_leftovers(b: ProgramBuild, outcomes: Seq<Outcome>)
    requires
        b.wf(),
    ensures
        run(b, outcomes).wf(),
        run(b, outcomes).first_mode == b.first_mode,
        run(b, outcomes).phase is Built ==> run(b, outcomes).held == held(true, false, false),
        run(b, outcomes).phase is Failed ==> run(b, outcomes).held.is_empty(),
        run(b, outcomes).phase is Failed ==> run(b, outcomes).phase->Failed_0.first_mode
            == b.first_mode,
    decreases outcomes.len(),
{
    if outcomes.len() > 0 {
        ended_build_holds_no_leftovers(b, outcomes.drop_last());
        let prev = run(b, outcomes.drop_last());
        if prev.phase is Run {
            stepped_keeps_wf(prev, outcomes.last());
        }
    }
}

/// A failed first attempt does not end the build: once what it created is
/// released, the other mode is built from the start, and the first error is
/// kept for the final diagnostic. This holds for either preferred mode.
pub proof fn first_failure_tries_other_mode(b: ProgramBuild, msg: String)
    requires
        b.wf(),
        b.attempt == 0,
        b.phase is Run,
        fallible(b.phase->Run_0),
    ensures
        ({
            let s = b.stepped(Outcome::Failed(msg));
            let t = if s.phase is Run && s.phase->Run_0 is Release {
                s.stepped(Outcome::Done)
            } else {
                s
            };
            &&& t.wf()
            &&& t.phase == Phase::Run(GpuOp::CreateProgram)
            &&& t.held.is_empty()
            &&& t.mode() == b.first_mode.other_spec()
            &&& t.first_error == Some(error_for(b.phase->Run_0, msg))
        }),
{
    let s = b.stepped(Outcome::Failed(msg));
    stepped_keeps_wf(b, Outcome::Failed(msg));
    if s.phase is Run && s.phase->Run_0 is Release {
        stepped_keeps_wf(s, Outcome::Done);
    }
}

/// The diagnostic of a failed build holds the text of both attempts, each
/// after the name of its mode.
pub proof fn failure_text_holds_both_logs(f: CompileFailure)
    ensures
        occurs_in(f.first.detail(), f.text()),
        occurs_in(f.second.detail(), f.text()),
        occurs_in(first_label(f.first_mode), f.text()),
        occurs_in(second_label(f.first_mode.other_spec()), f.text()),
{
    let a = first_label(f.first_mode);
    let b = f.first.text();
    let c = second_label(f.first_mode.other_spec());
    let d = f.second.text();
    let t = f.text();
    assert(t == a + b + c + d);
    let i1 = (a.len() + f.first.prefix().len()) as int;
    assert(t.subrange(i1, i1 + f.first.detail().len() as int) =~= f.first.detail());
    let i2 = (a.len() + b.len() + c.len() + f.second.prefix().len()) as int;
    assert(t.subrange(i2, i2 + f.second.detail().len() as int) =~= f.second.detail());
    let i0: int = 0;
    assert(t.subrange(i0, i0 + a.len()) =~= a);
    let i3 = (a.len() + b.len()) as int;
    assert(t.subrange(i3, i3 + c.len() as int) =~= c);
}

} // verus!
