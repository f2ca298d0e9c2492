//! The state the interactive host keeps between ticks: the snippet, the live
//! program, the last error, and at most one export in progress.
//!
//! `P` is the caller's handle to a built program; the library only stores and
//! hands it back, so an export keeps the program it started with even when a
//! recompile replaces the live one.

use vstd::prelude::*;

use crate::export::{
    export_settings, frame_delay, frame_delay_spec, ExportError, ExportSettings, FrameRequest,
};
use crate::program::CompileFailure;

verus! {

/// An export in progress.
pub struct ExportJob<P> {
    /// The program every frame is drawn with.
    pub target: P,
    /// The next frame to render; frames before it have been written.
    pub frame_index: u32,
    pub frame_count: u32,
    pub width: u16,
    pub height: u16,
    pub fps: u32,
}

impl<P> ExportJob<P> {
    pub open spec fn wf(self) -> bool {
        &&& self.fps > 0
        &&& self.frame_index < self.frame_count
    }

    /// The job after one more frame was written, or `None` once the last was.
    pub open spec fn after_frame(self) -> Option<ExportJob<P>> {
        if self.frame_index + 1 < self.frame_count {
            Some(ExportJob { frame_index: (self.frame_index + 1) as u32, ..self })
        } else {
            None
        }
    }

    /// The request for the next frame.
    pub open spec fn request_spec(self) -> FrameRequest {
        FrameRequest {
            index: self.frame_index,
            fps: self.fps,
            width: self.width,
            height: self.height,
            delay: frame_delay_spec(self.fps) as u16,
        }
    }
}

/// The job after `k` frames were written in a row; `None` once it ended.
pub open spec fn after_frames<P>(job: ExportJob<P>, k: nat) -> Option<ExportJob<P>>
    decreases k,
{
    if k == 0 {
        Some(job)
    } else {
        match after_frames(job, (k - 1) as nat) {
            Some(j) => j.after_frame(),
            None => None,
        }
    }
}

/// Where an export stands after a frame.
#[derive(Clone, Copy, Debug, PartialEq, Eq, Structural)]
pub enum Progress {
    /// `written` of `total` frames are out.
    InProgress { written: u32, total: u32 },
    /// Every frame was written.
    Completed { written: u32 },
    /// A frame failed; the frames before it stay written.
    Aborted { written: u32 },
}

/// What a request to start an export came to.
#[derive(Clone, Copy, Debug, PartialEq, Eq, Structural)]
pub enum ExportStart {
    /// An export runs already; nothing changed.
    AlreadyRunning,
    /// No program is built; the error says so.
    NoProgram,
    /// The caller opens the output with these settings, then calls
    /// `begin_export` (or `report_error` if opening failed).
    Open(ExportSettings),
}

/// What the status indicator shows.
#[derive(Clone, Copy, Debug, PartialEq, Eq, Structural)]
pub enum Status {
    Error,
    Exporting,
    Ready,
}

/// What the preview area shows.
#[derive(Clone, Copy, Debug, PartialEq, Eq, Structural)]
pub enum Preview {
    Program,
    Error,
    Blank,
}

pub const NO_PROGRAM_TEXT: &'static str = "No compiled shader to export";

/// The host's state.
pub struct Workbench<P> {
    pub snippet: String,
    /// The snippet differs from what was last loaded or saved.
    pub dirty: bool,
    /// The snippet changed since the last build.
    pub needs_recompile: bool,
    pub last_error: Option<String>,
    /// The live program, if the last build succeeded.
    pub program: Option<P>,
    pub export: Option<ExportJob<P>>,
}

impl<P> Workbench<P> {
    pub open spec fn wf(self) -> bool {
        match self.export {
            Some(job) => job.wf(),
            None => true,
        }
    }

    /// A fresh state around `snippet`, to be built before the first paint.
    pub fn new(snippet: String) -> (w: Workbench<P>)
        ensures
            w.wf(),
            w.snippet == snippet,
            !w.dirty,
            w.needs_recompile,
            w.last_error is None,
            w.program is None,
            w.export is None,
    {
        Workbench {
            snippet,
            dirty: false,
            needs_recompile: true,
            last_error: None,
            program: None,
            export: None,
        }
    }

    /// The editor produced `text`. A change marks the snippet modified, clears
    /// the error and asks for one build.
    pub fn edit(&mut self, text: String)
        requires
            old(self).wf(),
        ensures
            final(self).wf(),
            old(self).snippet@ == text@ ==> *final(self) == *old(self),
            old(self).snippet@ != text@ ==> *final(self) == (Workbench {
                snippet: text,
                dirty: true,
                needs_recompile: true,
                last_error: None,
                ..*old(self)
            }),
    {
        if self.snippet == text {
            return;
        }
        self.snippet = text;
        self.dirty = true;
        self.needs_recompile = true;
        self.last_error = None;
    }

    /// A file was read into the editor.
    pub fn load(&mut self, text: String)
        requires
            old(self).wf(),
        ensures
            final(self).wf(),
            *final(self) == (Workbench {
                snippet: text,
                dirty: false,
                needs_recompile: true,
                last_error: None,
                ..*old(self)
            }),
    {
        self.snippet = text;
        self.dirty = false;
        self.needs_recompile = true;
        self.last_error = None;
    }

    /// The snippet was written to its file.
    pub fn saved(&mut self)
        requires
            old(self).wf(),
        ensures
            final(self).wf(),
            *final(self) == (Workbench { dirty: false, ..*old(self) }),
    {
        self.dirty = false;
    }

    /// Shows `message` as the current error.
    pub fn report_error(&mut self, message: String)
        requires
            old(self).wf(),
        ensures
            final(self).wf(),
            *final(self) == (Workbench { last_error: Some(message), ..*old(self) }),
    {
        self.last_error = Some(message);
    }

    /// Takes the result of a build. A built program replaces the live one; a
    /// failure leaves no live program and shows both diagnostics. Either way
    /// the previous program is handed back for release.
    pub fn install(&mut self, built: Result<P, CompileFailure>) -> (previous: Option<P>)
        requires
            old(self).wf(),
        ensures
            final(self).wf(),
            previous == old(self).program,
            !final(self).needs_recompile,
            final(self).snippet == old(self).snippet,
            final(self).dirty == old(self).dirty,
            final(self).export == old(self).export,
            built is Ok ==> final(self).program == Some(built->Ok_0),
            built is Ok ==> final(self).last_error is None,
            built is Err ==> final(self).program is None && final(self).last_error is Some
                && final(self).last_error->Some_0@ == built->Err_0.text(),
    {
        self.needs_recompile = false;
        match built {
            Ok(p) => {
                self.last_error = None;
                let previous = self.program.take();
                self.program = Some(p);
                previous
            },
            Err(f) => {
                self.last_error = Some(f.message());
                self.program.take()
            },
        }
    }

    /// What the status indicator shows: an error first, then an export.
    pub fn status(&self) -> (s: Status)
        ensures
            s == (if self.last_error is Some {
                Status::Error
            } else if self.export is Some {
                Status::Exporting
            } else {
                Status::Ready
            }),
    {
        if self.last_error.is_some() {
            Status::Error
        } else if self.export.is_some() {
            Status::Exporting
        } else {
            Status::Ready
        }
    }

    /// What the preview shows: the live program, else the error, else nothing.
    pub fn preview(&self) -> (p: Preview)
        ensures
            p == (if self.program is Some {
                Preview::Program
            } else if self.last_error is Some {
                Preview::Error
            } else {
                Preview::Blank
            }),
    {
        if self.program.is_some() {
            Preview::Program
        } else if self.last_error.is_some() {
            Preview::Error
        } else {
            Preview::Blank
        }
    }

    /// A request to start an export. While one runs it changes nothing.
    pub fn request_export(&mut self) -> (r: ExportStart)
        requires
            old(self).wf(),
        ensures
            final(self).wf(),
            old(self).export is Some ==> r == ExportStart::AlreadyRunning && *final(self)
                == *old(self),
            old(self).export is None && old(self).program is None ==> r == ExportStart::NoProgram
                && *final(self) == (Workbench {
                last_error: Some(final(self).last_error->Some_0),
                ..*old(self)
            }) && final(self).last_error is Some && final(self).last_error->Some_0@
                == NO_PROGRAM_TEXT@,
            old(self).export is None && old(self).program is Some ==> r == ExportStart::Open(
                export_settings_spec(),
            ) && *final(self) == *old(self),
    {
        if self.export.is_some() {
            return ExportStart::AlreadyRunning;
        }
        if self.program.is_none() {
            self.last_error = Some(String::from_str(NO_PROGRAM_TEXT));
            return ExportStart::NoProgram;
        }
        ExportStart::Open(export_settings())
    }

    /// Starts the export of `target` with `settings`, at its first frame.
    pub fn begin_export(&mut self, target: P, settings: ExportSettings)
        requires
            old(self).wf(),
            old(self).export is None,
            settings.wf(),
        ensures
            final(self).wf(),
            *final(self) == (Workbench {
                export: Some(
                    ExportJob {
                        target,
                        frame_index: 0,
                        frame_count: settings.frame_count,
                        width: settings.width,
                        height: settings.height,
                        fps: settings.fps,
                    },
                ),
                ..*old(self)
            }),
    {
        self.export = Some(
            ExportJob {
                target,
                frame_index: 0,
                frame_count: settings.frame_count,
                width: settings.width,
                height: settings.height,
                fps: settings.fps,
            },
        );
    }

    /// The frame to render this tick, if an export runs.
    pub fn next_frame(&self) -> (r: Option<FrameRequest>)
        requires
            self.wf(),
        ensures
            self.export is None ==> r is None,
            self.export is Some ==> r == Some(self.export->Some_0.request_spec()),
    {
        match &self.export {
            None => None,
            Some(job) => Some(
                FrameRequest {
                    index: job.frame_index,
                    fps: job.fps,
                    width: job.width,
                    height: job.height,
                    delay: frame_delay(job.fps),
                },
            ),
        }
    }

    /// Takes the outcome of writing the frame of `next_frame`. Success moves to
    /// the next frame and ends the export after the last; a failure ends it,
    /// keeps what was written, and shows the error.
    pub fn frame_written(&mut self, result: Result<(), ExportError>) -> (p: Progress)
        requires
            old(self).wf(),
            old(self).export is Some,
        ensures
            final(self).wf(),
            final(self).snippet == old(self).snippet,
            final(self).program == old(self).program,
            final(self).dirty == old(self).dirty,
            final(self).needs_recompile == old(self).needs_recompile,
            ({
                let job = old(self).export->Some_0;
                match result {
                    Ok(_) => {
                        &&& final(self).export == job.after_frame()
                        &&& final(self).last_error == old(self).last_error
                        &&& p == if job.frame_index + 1 < job.frame_count {
                            Progress::InProgress {
                                written: (job.frame_index + 1) as u32,
                                total: job.frame_count,
                            }
                        } else {
                            Progress::Completed { written: job.frame_count }
                        }
                    },
                    Err(e) => {
                        &&& final(self).export is None
                        &&& final(self).last_error is Some
                        &&& final(self).last_error->Some_0@ == e.text()
                        &&& p == Progress::Aborted { written: job.frame_index }
                    },
                }
            }),
    {
        let job = self.export.take().unwrap();
        match result {
            Ok(()) => {
                let written = job.frame_index + 1;
                if written < job.frame_count {
                    let total = job.frame_count;
                    self.export = Some(ExportJob { frame_index: written, ..job });
                    Progress::InProgress { written, total }
                } else {
                    Progress::Completed { written: job.frame_count }
                }
            },
            Err(e) => {
                self.last_error = Some(e.message());
                Progress::Aborted { written: job.frame_index }
            },
        }
    }
}

/// The settings `export_settings` returns.
pub open spec fn export_settings_spec() -> ExportSettings {
    ExportSettings { width: 512, height: 512, fps: 30, frame_count: 90 }
}

/// An export that starts at its first frame asks for every frame exactly once,
/// in order: after `k` frames were written it asks for frame `k`, sampled at
/// `k / fps` seconds, and it ends exactly when all `frame_count` frames are
/// written.
pub proof fn export_asks_every_frame_once<P>(job: ExportJob<P>)
    requires
        job.wf(),
        job.frame_index == 0,
    ensures
        forall|k: nat|
            k < job.frame_count ==> #[trigger] after_frames(job, k) == Some(
                ExportJob { frame_index: k as u32, ..job },
            ),
        forall|k: nat|
            k < job.frame_count ==> (#[trigger] after_frames(job, k))->Some_0.request_spec().index
                == k,
        after_frames(job, job.frame_count as nat) is None,
{
    assert forall|k: nat| k < job.frame_count implies #[trigger] after_frames(job, k) == Some(
        ExportJob { frame_index: k as u32, ..job },
    ) by {
        after_frames_before_end(job, k);
    }
    assert forall|k: nat| k < job.frame_count implies (#[trigger] after_frames(
        job,
        k,
    ))->Some_0.request_spec().index == k by {
        after_frames_before_end(job, k);
    }
    let n = job.frame_count as nat;
    after_frames_before_end(job, (n - 1) as nat);
}

proof fn after_frames_before_end<P>(job: ExportJob<P>, k: nat)
    requires
        job.wf(),
        job.frame_index == 0,
        k < job.frame_count,
    ensures
        after_frames(job, k) == Some(ExportJob { frame_index: k as u32, ..job }),
    decreases k,
{
    if k > 0 {
        after_frames_before_end(job, (k - 1) as nat);
    }
}

} // verus!
