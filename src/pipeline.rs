use vstd::prelude::*;

use crate::error::{text_view, Failure, ShotError};
use crate::process::{
    collect_output, region_geometry, region_outcome, report_outcome, RunReport, Tool,
};
use crate::session::{Session, SessionView, ShotType};

verus! {

/// Where a capture stands.
#[derive(Clone, Copy, Debug, PartialEq, Eq, Structural)]
pub enum Stage {
    /// No capture has been started.
    Idle,
    /// The window is hidden and the delay runs.
    Delaying,
    /// The pointer hider has been asked for (selection only).
    PointerHidden,
    /// The region tool runs (selection only).
    RegionSelecting,
    /// The capture tool runs.
    Capturing,
    /// The captured bytes are being loaded as an image.
    Decoding,
    /// The image is stored.
    Completed,
    /// The capture failed; the stored image is as it was.
    Failed,
}

/// The settings read when a capture is triggered.
#[derive(Clone, Copy, Debug, PartialEq, Eq, Structural)]
pub struct Config {
    /// Whole seconds to wait before the first tool runs.
    pub delay_seconds: u8,
    /// Whether the capture draws the pointer.
    pub cursor: bool,
}

/// What the caller reports back to the pipeline.
#[derive(Clone, Debug)]
pub enum Event {
    /// Start a capture in `mode` (ignored while one is under way).
    Start { mode: ShotType, config: Config },
    /// A later launch of the program asks for the mode that was started last:
    /// at once when no capture is under way, else when the current one ends.
    Wake { config: Config },
    /// The delay has elapsed.
    DelayElapsed,
    /// The pointer hider runs.
    HiderSpawned,
    /// The pointer hider could not be started.
    HiderFailed { cause: String },
    /// The tool last asked for has finished.
    ToolDone(RunReport),
    /// The captured bytes were loaded as an image of this size.
    ImageLoaded { width: i32, height: i32 },
    /// The captured bytes are not an image.
    ImageRejected { cause: String },
}

/// What the caller is to do next.
#[derive(Clone, Debug)]
pub enum Action {
    /// Hide the window, then wait this many seconds and report `DelayElapsed`.
    Begin { seconds: u8 },
    /// Start the pointer hider and report whether it runs.
    SpawnHider,
    /// Run `tool` with the `command` for these values and report how it ended.
    Run { tool: Tool, geometry: Option<String>, cursor: bool },
    /// Load `captured()` as an image and report its size or the failure.
    LoadImage,
    /// Stop the pointer hider if asked, show the stored image at this size and
    /// clear the error indicator. Then, if `replay` holds, report `Wake`;
    /// else show the window.
    Complete { terminate_hider: bool, width: i32, height: i32, replay: bool },
    /// Stop the pointer hider if asked and show the error. Then, if `replay`
    /// holds, report `Wake`; else show the window.
    Fail { terminate_hider: bool, error: ShotError, replay: bool },
    /// Nothing for now: the event does not apply to the current stage, or a
    /// wake-up was noted for when the capture ends.
    Ignore,
}

pub enum ActionView {
    Begin { seconds: u8 },
    SpawnHider,
    Run { tool: Tool, geometry: Option<Seq<char>>, cursor: bool },
    LoadImage,
    Complete { terminate_hider: bool, width: i32, height: i32, replay: bool },
    Fail { terminate_hider: bool, error: Failure, replay: bool },
    Ignore,
}

impl View for Action {
    type V = ActionView;

    open spec fn view(&self) -> ActionView {
        match self {
            Action::Begin { seconds } => ActionView::Begin { seconds: *seconds },
            Action::SpawnHider => ActionView::SpawnHider,
            Action::Run { tool, geometry, cursor } => ActionView::Run {
                tool: *tool,
                geometry: text_view(*geometry),
                cursor: *cursor,
            },
            Action::LoadImage => ActionView::LoadImage,
            Action::Complete { terminate_hider, width, height, replay } => ActionView::Complete {
                terminate_hider: *terminate_hider,
                width: *width,
                height: *height,
                replay: *replay,
            },
            Action::Fail { terminate_hider, error, replay } => ActionView::Fail {
                terminate_hider: *terminate_hider,
                error: error@,
                replay: *replay,
            },
            Action::Ignore => ActionView::Ignore,
        }
    }
}

/// One capture from trigger to a stored image or a reported failure.
pub struct Pipeline {
    stage: Stage,
    mode: ShotType,
    cursor: bool,
    hider: bool,
    captured: Vec<u8>,
    wake_pending: bool,
}

pub struct PipelineView {
    pub stage: Stage,
    pub mode: ShotType,
    pub cursor: bool,
    /// Whether the pointer hider runs.
    pub hider: bool,
    /// The capture tool's output, while it is being loaded.
    pub captured: Seq<u8>,
    /// A later launch asked for a replay while this capture was under way.
    pub wake_pending: bool,
}

impl View for Pipeline {
    type V = PipelineView;

    closed spec fn view(&self) -> PipelineView {
        PipelineView {
            stage: self.stage,
            mode: self.mode,
            cursor: self.cursor,
            hider: self.hider,
            captured: self.captured@,
            wake_pending: self.wake_pending,
        }
    }
}

/// A capture may start: none is under way.
pub open spec fn ready(stage: Stage) -> bool {
    stage == Stage::Idle || stage == Stage::Completed || stage == Stage::Failed
}

pub open spec fn terminal(stage: Stage) -> bool {
    stage == Stage::Completed || stage == Stage::Failed
}

/// Only a selection passes through the pointer stages, and the pointer hider
/// runs exactly in the stages of a selection that follow its start.
pub open spec fn well_formed(p: PipelineView) -> bool {
    &&& (p.stage == Stage::PointerHidden || p.stage == Stage::RegionSelecting) ==> p.mode
        == ShotType::Selection
    &&& p.hider <==> (p.mode == ShotType::Selection && (p.stage == Stage::RegionSelecting
        || p.stage == Stage::Capturing || p.stage == Stage::Decoding))
    &&& ready(p.stage) ==> !p.wake_pending
}

pub open spec fn ignored(p: PipelineView, s: SessionView) -> (
    PipelineView,
    SessionView,
    ActionView,
) {
    (p, s, ActionView::Ignore)
}

/// The transition into `Failed`: the hider is stopped, the session is kept.
pub open spec fn failed(p: PipelineView, s: SessionView, f: Failure) -> (
    PipelineView,
    SessionView,
    ActionView,
) {
    (
        PipelineView {
            stage: Stage::Failed,
            hider: false,
            captured: Seq::empty(),
            wake_pending: false,
            ..p
        },
        s,
        ActionView::Fail { terminate_hider: p.hider, error: f, replay: p.wake_pending },
    )
}

/// The transition that starts a capture in `mode`: the mode is recorded and
/// the delay begins.
pub open spec fn started(s: SessionView, mode: ShotType, config: Config) -> (
    PipelineView,
    SessionView,
    ActionView,
) {
    (
        PipelineView {
            stage: Stage::Delaying,
            mode,
            cursor: config.cursor,
            hider: false,
            captured: Seq::empty(),
            wake_pending: false,
        },
        SessionView { last_shot: mode, ..s },
        ActionView::Begin { seconds: config.delay_seconds },
    )
}

/// The transition relation of a capture: from a pipeline, a session and an
/// event to the next pipeline, the next session and the action to perform.
pub open spec fn step(p: PipelineView, s: SessionView, e: Event) -> (
    PipelineView,
    SessionView,
    ActionView,
) {
    match e {
        Event::Start { mode, config } => if ready(p.stage) {
            started(s, mode, config)
        } else {
            ignored(p, s)
        },
        Event::Wake { config } => if ready(p.stage) {
            started(s, s.last_shot, config)
        } else {
            (PipelineView { wake_pending: true, ..p }, s, ActionView::Ignore)
        },
        Event::DelayElapsed => if p.stage == Stage::Delaying {
            match p.mode {
                ShotType::Fullscreen => (
                    PipelineView { stage: Stage::Capturing, ..p },
                    s,
                    ActionView::Run { tool: Tool::Capture, geometry: None, cursor: p.cursor },
                ),
                ShotType::Selection => (
                    PipelineView { stage: Stage::PointerHidden, ..p },
                    s,
                    ActionView::SpawnHider,
                ),
            }
        } else {
            ignored(p, s)
        },
        Event::HiderSpawned => if p.stage == Stage::PointerHidden {
            (
                PipelineView { stage: Stage::RegionSelecting, hider: true, ..p },
                s,
                ActionView::Run { tool: Tool::Region, geometry: None, cursor: false },
            )
        } else {
            ignored(p, s)
        },
        Event::HiderFailed { cause } => if p.stage == Stage::PointerHidden {
            failed(p, s, Failure::Spawn { tool: Tool::CursorHider, cause: cause@ })
        } else {
            ignored(p, s)
        },
        Event::ToolDone(report) => if p.stage == Stage::RegionSelecting {
            match report_outcome(Tool::Region, report) {
                Ok(out) => match region_outcome(out) {
                    Ok(g) => (
                        PipelineView { stage: Stage::Capturing, ..p },
                        s,
                        ActionView::Run { tool: Tool::Capture, geometry: Some(g), cursor: p.cursor },
                    ),
                    Err(f) => failed(p, s, f),
                },
                Err(f) => failed(p, s, f),
            }
        } else if p.stage == Stage::Capturing {
            match report_outcome(Tool::Capture, report) {
                Ok(bytes) => (
                    PipelineView { stage: Stage::Decoding, captured: bytes, ..p },
                    s,
                    ActionView::LoadImage,
                ),
                Err(f) => failed(p, s, f),
            }
        } else {
            ignored(p, s)
        },
        Event::ImageLoaded { width, height } => if p.stage == Stage::Decoding {
            (
                PipelineView {
                    stage: Stage::Completed,
                    hider: false,
                    captured: Seq::empty(),
                    wake_pending: false,
                    ..p
                },
                SessionView { image: Some(p.captured), ..s },
                ActionView::Complete {
                    terminate_hider: p.hider,
                    width,
                    height,
                    replay: p.wake_pending,
                },
            )
        } else {
            ignored(p, s)
        },
        Event::ImageRejected { cause } => if p.stage == Stage::Decoding {
            failed(p, s, Failure::InvalidImage { cause: cause@ })
        } else {
            ignored(p, s)
        },
    }
}

/// Every step keeps the pipeline well formed.
pub proof fn lemma_step_well_formed(p: PipelineView, s: SessionView, e: Event)
    requires
        well_formed(p),
    ensures
        well_formed(step(p, s, e).0),
{
}

impl Pipeline {
    /// A pipeline before any capture.
    pub fn new() -> (r: Pipeline)
        ensures
            r@ == (PipelineView {
                stage: Stage::Idle,
                mode: ShotType::Selection,
                cursor: false,
                hider: false,
                captured: Seq::empty(),
                wake_pending: false,
            }),
            well_formed(r@),
    {
        Pipeline {
            stage: Stage::Idle,
            mode: ShotType::Selection,
            cursor: false,
            hider: false,
            captured: Vec::new(),
            wake_pending: false,
        }
    }

    pub fn stage(&self) -> (r: Stage)
        ensures
            r == self@.stage,
    {
        self.stage
    }

    /// The capture tool's output while it is being loaded as an image.
    pub fn captured(&self) -> (r: &Vec<u8>)
        ensures
            r@ == self@.captured,
    {
        &self.captured
    }

    fn fail(&mut self, error: ShotError) -> (a: Action)
        ensures
            final(self)@ == (PipelineView {
                stage: Stage::Failed,
                hider: false,
                captured: Seq::empty(),
                wake_pending: false,
                ..old(self)@
            }),
            a@ == (ActionView::Fail {
                terminate_hider: old(self)@.hider,
                error: error@,
                replay: old(self)@.wake_pending,
            }),
    {
        let terminate_hider = self.hider;
        let replay = self.wake_pending;
        self.stage = Stage::Failed;
        self.hider = false;
        self.captured = Vec::new();
        self.wake_pending = false;
        Action::Fail { terminate_hider, error, replay }
    }

    fn start(&mut self, session: &mut Session, mode: ShotType, config: Config) -> (a: Action)
        ensures
            (final(self)@, final(session)@, a@) == started(old(session)@, mode, config),
    {
        self.stage = Stage::Delaying;
        self.mode = mode;
        self.cursor = config.cursor;
        self.hider = false;
        self.captured = Vec::new();
        self.wake_pending = false;
        session.record_shot(mode);
        Action::Begin { seconds: config.delay_seconds }
    }

    /// Takes one step of the capture on `event`, updates the session as the
    /// step says, and returns what the caller is to do next.
    pub fn handle(&mut self, session: &mut Session, event: Event) -> (a: Action)
        requires
            well_formed(old(self)@),
        ensures
            (final(self)@, final(session)@, a@) == step(old(self)@, old(session)@, event),
            well_formed(final(self)@),
    {
        proof {
            lemma_step_well_formed(self@, session@, event);
        }
        match event {
            Event::Start { mode, config } => {
                if self.stage == Stage::Idle || self.stage == Stage::Completed || self.stage
                    == Stage::Failed {
                    self.start(session, mode, config)
                } else {
                    Action::Ignore
                }
            },
            Event::Wake { config } => {
                if self.stage == Stage::Idle || self.stage == Stage::Completed || self.stage
                    == Stage::Failed {
                    let mode = session.last_shot();
                    self.start(session, mode, config)
                } else {
                    self.wake_pending = true;
                    Action::Ignore
                }
            },
            Event::DelayElapsed => {
                if self.stage == Stage::Delaying {
                    match self.mode {
                        ShotType::Fullscreen => {
                            self.stage = Stage::Capturing;
                            Action::Run { tool: Tool::Capture, geometry: None, cursor: self.cursor }
                        },
                        ShotType::Selection => {
                            self.stage = Stage::PointerHidden;
                            Action::SpawnHider
                        },
                    }
                } else {
                    Action::Ignore
                }
            },
            Event::HiderSpawned => {
                if self.stage == Stage::PointerHidden {
                    self.stage = Stage::RegionSelecting;
                    self.hider = true;
                    Action::Run { tool: Tool::Region, geometry: None, cursor: false }
                } else {
                    Action::Ignore
                }
            },
            Event::HiderFailed { cause } => {
                if self.stage == Stage::PointerHidden {
                    self.fail(ShotError::Spawn { tool: Tool::CursorHider, cause })
                } else {
                    Action::Ignore
                }
            },
            Event::ToolDone(report) => {
                if self.stage == Stage::RegionSelecting {
                    match collect_output(Tool::Region, report) {
                        Ok(out) => match region_geometry(out) {
                            Ok(g) => {
                                self.stage = Stage::Capturing;
                                Action::Run {
                                    tool: Tool::Capture,
                                    geometry: Some(g),
                                    cursor: self.cursor,
                                }
                            },
                            Err(f) => self.fail(f),
                        },
                        Err(f) => self.fail(f),
                    }
                } else if self.stage == Stage::Capturing {
                    match collect_output(Tool::Capture, report) {
                        Ok(bytes) => {
                            self.stage = Stage::Decoding;
                            self.captured = bytes;
                            Action::LoadImage
                        },
                        Err(f) => self.fail(f),
                    }
                } else {
                    Action::Ignore
                }
            },
            Event::ImageLoaded { width, height } => {
                if self.stage == Stage::Decoding {
                    let terminate_hider = self.hider;
                    let replay = self.wake_pending;
                    let mut bytes: Vec<u8> = Vec::new();
                    std::mem::swap(&mut bytes, &mut self.captured);
                    session.replace(bytes);
                    self.stage = Stage::Completed;
                    self.hider = false;
                    self.wake_pending = false;
                    Action::Complete { terminate_hider, width, height, replay }
                } else {
                    Action::Ignore
                }
            },
            Event::ImageRejected { cause } => {
                if self.stage == Stage::Decoding {
                    self.fail(ShotError::InvalidImage { cause })
                } else {
                    Action::Ignore
                }
            },
        }
    }

    /// Answers a later launch of the program: starts the mode that was started
    /// last again, at once when no capture is under way, else when the
    /// current capture ends (its last action then asks for the replay).
    pub fn replay(&mut self, session: &mut Session, config: Config) -> (a: Action)
        requires
            well_formed(old(self)@),
        ensures
            (final(self)@, final(session)@, a@) == step(
                old(self)@,
                old(session)@,
                Event::Wake { config },
            ),
            well_formed(final(self)@),
    {
        self.handle(session, Event::Wake { config })
    }
}

} // verus!
