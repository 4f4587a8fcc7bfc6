use vstd::prelude::*;

use crate::pipeline::{
    ready, step, terminal, well_formed, ActionView, Config, Event, PipelineView, Stage,
};
use crate::process::{ProcessOutput, RunReport};
use crate::session::{SessionView, ShotType};

verus! {

/// The pipeline and session after each of `events` in turn.
pub open spec fn run(p: PipelineView, s: SessionView, events: Seq<Event>) -> (
    PipelineView,
    SessionView,
)
    decreases events.len(),
{
    if events.len() == 0 {
        (p, s)
    } else {
        let (p1, s1, _) = step(p, s, events[0]);
        run(p1, s1, events.drop_first())
    }
}

/// The event may start a capture.
pub open spec fn starts(e: Event) -> bool {
    e is Start || e is Wake
}

/// No event of `events` may start a capture.
pub open spec fn no_start(events: Seq<Event>) -> bool {
    forall|i: int| 0 <= i < events.len() ==> !starts(#[trigger] events[i])
}

proof fn lemma_no_start_tail(events: Seq<Event>)
    requires
        events.len() > 0,
        no_start(events),
    ensures
        !starts(events[0]),
        no_start(events.drop_first()),
{
    assert(!starts(events[0]));
    assert forall|i: int| 0 <= i < events.drop_first().len() implies !starts(
        #[trigger] events.drop_first()[i],
    ) by {
        assert(events.drop_first()[i] == events[i + 1]);
    }
}

/// The event stores the image being loaded.
pub open spec fn completes(p: PipelineView, e: Event) -> bool {
    p.stage == Stage::Decoding && e is ImageLoaded
}

/// The action stops the pointer hider.
pub open spec fn stops_hider(a: ActionView) -> bool {
    match a {
        ActionView::Complete { terminate_hider, .. } => terminate_hider,
        ActionView::Fail { terminate_hider, .. } => terminate_hider,
        _ => false,
    }
}

/// A step writes the stored image only when it completes a capture, and then
/// writes the bytes that were being loaded; nothing else enters `Completed`,
/// and only a capture tool that exits with status 0 starts a load, of its
/// standard output.
pub proof fn lemma_step_image(p: PipelineView, s: SessionView, e: Event)
    ensures
        completes(p, e) ==> step(p, s, e).1.image == Some(p.captured) && step(p, s, e).0.stage
            == Stage::Completed,
        !completes(p, e) ==> step(p, s, e).1.image == s.image,
        p.stage != Stage::Completed && step(p, s, e).0.stage == Stage::Completed ==> completes(
            p,
            e,
        ),
        p.stage != Stage::Decoding && step(p, s, e).0.stage == Stage::Decoding ==> (p.stage
            == Stage::Capturing && (e matches Event::ToolDone(RunReport::Exited(o)) && o.status
            == 0 && step(p, s, e).0.captured == o.stdout@)),
{
}

/// What a step does to the pipeline, which action it asks for, and the mode it
/// records depend on the session only through the mode started last.
pub proof fn lemma_step_ignores_session(p: PipelineView, s: SessionView, t: SessionView, e: Event)
    requires
        s.last_shot == t.last_shot,
    ensures
        step(p, s, e).0 == step(p, t, e).0,
        step(p, s, e).2 == step(p, t, e).2,
        step(p, s, e).1.last_shot == step(p, t, e).1.last_shot,
{
}

proof fn lemma_completed_stays(p: PipelineView, s: SessionView, events: Seq<Event>)
    requires
        p.stage == Stage::Completed,
        no_start(events),
    ensures
        run(p, s, events).0.stage == Stage::Completed,
    decreases events.len(),
{
    if events.len() > 0 {
        let (p1, s1, _) = step(p, s, events[0]);
        lemma_no_start_tail(events);
        lemma_completed_stays(p1, s1, events.drop_first());
    }
}

proof fn lemma_unfinished_keeps_image(p: PipelineView, s: SessionView, events: Seq<Event>)
    requires
        p.stage != Stage::Completed,
        no_start(events),
    ensures
        run(p, s, events).0.stage != Stage::Completed ==> run(p, s, events).1.image == s.image,
    decreases events.len(),
{
    if events.len() > 0 {
        let (p1, s1, _) = step(p, s, events[0]);
        lemma_step_image(p, s, events[0]);
        lemma_no_start_tail(events);
        if completes(p, events[0]) {
            lemma_completed_stays(p1, s1, events.drop_first());
        } else {
            lemma_unfinished_keeps_image(p1, s1, events.drop_first());
        }
    }
}

proof fn lemma_runs_agree(p: PipelineView, s: SessionView, t: SessionView, events: Seq<Event>)
    requires
        s.last_shot == t.last_shot,
    ensures
        run(p, s, events).0 == run(p, t, events).0,
        run(p, s, events).1.last_shot == run(p, t, events).1.last_shot,
        run(p, s, events).1.image == run(p, t, events).1.image || (run(p, s, events).1.image
            == s.image && run(p, t, events).1.image == t.image),
        p.stage != Stage::Completed && run(p, s, events).0.stage == Stage::Completed ==> run(
            p,
            s,
            events,
        ).1.image == run(p, t, events).1.image,
    decreases events.len(),
{
    if events.len() > 0 {
        let e = events[0];
        let (p1, s1, _) = step(p, s, e);
        let (q1, t1, _) = step(p, t, e);
        lemma_step_ignores_session(p, s, t, e);
        lemma_step_image(p, s, e);
        lemma_step_image(p, t, e);
        assert(p1 == q1);
        lemma_runs_agree(p1, s1, t1, events.drop_first());
    }
}

proof fn lemma_run_keeps_last_shot(p: PipelineView, s: SessionView, events: Seq<Event>)
    requires
        no_start(events),
    ensures
        run(p, s, events).1.last_shot == s.last_shot,
    decreases events.len(),
{
    if events.len() > 0 {
        let (p1, s1, _) = step(p, s, events[0]);
        lemma_no_start_tail(events);
        lemma_run_keeps_last_shot(p1, s1, events.drop_first());
    }
}

/// A capture that succeeds stores exactly what the capture tool wrote to its
/// standard output: a capture tool that exits with status 0 moves the pipeline
/// to loading those bytes, and loading them stores them unmodified. By
/// `lemma_step_image` these are the only ways into loading and into
/// `Completed`.
pub proof fn lemma_stored_image_is_capture_output(
    p: PipelineView,
    s: SessionView,
    out: ProcessOutput,
    width: i32,
    height: i32,
)
    requires
        p.stage == Stage::Capturing,
        out.status == 0,
    ensures
        ({
            let (p1, s1, _) = step(p, s, Event::ToolDone(RunReport::Exited(out)));
            &&& p1.stage == Stage::Decoding
            &&& step(p1, s1, Event::ImageLoaded { width, height }).1.image == Some(out.stdout@)
        }),
{
}

/// Two attempts that start in the same mode and meet the same outside results
/// end alike, whatever ran or was stored before them: in the same pipeline
/// state and, when the attempt completes, with the same stored bytes.
pub proof fn lemma_same_outputs_same_image(
    p: PipelineView,
    q: PipelineView,
    s: SessionView,
    t: SessionView,
    events: Seq<Event>,
)
    requires
        ready(p.stage),
        ready(q.stage),
        events.len() > 0,
        events[0] is Start,
    ensures
        run(p, s, events).0 == run(q, t, events).0,
        run(p, s, events).0.stage == Stage::Completed ==> run(p, s, events).1.image == run(
            q,
            t,
            events,
        ).1.image,
{
    let e = events[0];
    let (p1, s1, _) = step(p, s, e);
    let (q1, t1, _) = step(q, t, e);
    assert(p1 == q1);
    lemma_runs_agree(p1, s1, t1, events.drop_first());
}

/// Replaying an attempt that completed, with the same outside results, stores
/// the same bytes again.
pub proof fn lemma_replay_twice_same_image(p: PipelineView, s: SessionView, events: Seq<Event>)
    requires
        ready(p.stage),
        events.len() > 0,
        events[0] is Start,
        run(p, s, events).0.stage == Stage::Completed,
    ensures
        run(run(p, s, events).0, run(p, s, events).1, events).1.image == run(p, s, events).1.image,
{
    let (p1, s1) = run(p, s, events);
    lemma_same_outputs_same_image(p, p1, s, s1, events);
}

/// An attempt that does not complete, wherever it fails, leaves the stored
/// image as it was before the attempt started.
pub proof fn lemma_failed_attempt_keeps_image(p: PipelineView, s: SessionView, events: Seq<Event>)
    requires
        ready(p.stage),
        events.len() > 0,
        events[0] is Start,
        no_start(events.drop_first()),
    ensures
        run(p, s, events).0.stage != Stage::Completed ==> run(p, s, events).1.image == s.image,
{
    let (p1, s1, _) = step(p, s, events[0]);
    lemma_unfinished_keeps_image(p1, s1, events.drop_first());
}

/// The action ends a capture and asks for the owed replay.
pub open spec fn replays(a: ActionView) -> bool {
    match a {
        ActionView::Complete { replay, .. } => replay,
        ActionView::Fail { replay, .. } => replay,
        _ => false,
    }
}

/// The mode that a later launch runs is the one last started, whether that
/// attempt succeeded or failed; once the attempt is over, a wake-up starts it
/// again at once.
pub proof fn lemma_replay_runs_last_started_mode(
    p: PipelineView,
    s: SessionView,
    mode: ShotType,
    config: Config,
    events: Seq<Event>,
    replay: Config,
)
    requires
        ready(p.stage),
        events.len() > 0,
        events[0] == (Event::Start { mode, config }),
        no_start(events.drop_first()),
    ensures
        run(p, s, events).1.last_shot == mode,
        ready(run(p, s, events).0.stage) ==> ({
            let (p2, s2) = run(p, s, events);
            let (p3, _, a) = step(p2, s2, Event::Wake { config: replay });
            p3.mode == mode && p3.stage == Stage::Delaying && a == (ActionView::Begin {
                seconds: replay.delay_seconds,
            })
        }),
{
    let (p1, s1, _) = step(p, s, events[0]);
    lemma_run_keeps_last_shot(p1, s1, events.drop_first());
}

/// A wake-up during a capture changes nothing but the note that a replay is
/// owed: the capture, the session and its last mode go on as they were.
pub proof fn lemma_wake_during_capture(p: PipelineView, s: SessionView, config: Config)
    requires
        !ready(p.stage),
    ensures
        step(p, s, Event::Wake { config }) == (
            PipelineView { wake_pending: true, ..p },
            s,
            ActionView::Ignore,
        ),
{
}

/// An owed replay is kept until the capture ends, and the step that ends the
/// capture asks for it; the wake-up that follows then runs the last mode, as
/// `lemma_replay_runs_last_started_mode` shows.
pub proof fn lemma_owed_replay_is_asked(p: PipelineView, s: SessionView, e: Event)
    requires
        well_formed(p),
        p.wake_pending,
    ensures
        !ready(step(p, s, e).0.stage) ==> step(p, s, e).0.wake_pending,
        ready(step(p, s, e).0.stage) ==> replays(step(p, s, e).2),
{
}

/// A step that ends a capture leaves no pointer hider running, and asks for
/// the hider to be stopped whenever it ran: in a selection that got past
/// starting the hider, also when the region selection itself fails.
pub proof fn lemma_finished_capture_stops_hider(p: PipelineView, s: SessionView, e: Event)
    requires
        well_formed(p),
        !terminal(p.stage),
        terminal(step(p, s, e).0.stage),
    ensures
        !step(p, s, e).0.hider,
        p.hider ==> stops_hider(step(p, s, e).2),
        p.mode == ShotType::Selection && (p.stage == Stage::RegionSelecting || p.stage
            == Stage::Capturing || p.stage == Stage::Decoding) ==> stops_hider(step(p, s, e).2),
{
}

} // verus!
