//! The decisions of a run: what to do next, given what has happened.
//!
//! A run goes from `Start` to `Done`. The caller performs each action and
//! reports how it went as the next event.

use crate::opt::{invocation_of, Invocation, Opt};
use crate::text::texts;
use vstd::prelude::*;

verus! {

/// Where a run stands.
#[derive(Debug, Clone, Copy, PartialEq, Eq)]
pub enum Stage {
    /// Nothing has been done yet.
    Start,
    /// The build directory is being looked at for an earlier build.
    CacheCheck,
    /// The sources are being read.
    Read,
    /// The build directory is being removed.
    Clean,
    /// The build directory is being created.
    Ensure,
    /// The manifest is being written.
    Synthesize,
    /// The sources are being copied.
    Materialize,
    /// The build tool is running.
    Build,
    /// The built program is running.
    Run,
    /// The run is over.
    Done,
}

/// What has happened.
#[derive(Debug, Clone, Copy, PartialEq, Eq)]
pub enum Event {
    /// The run begins.
    Begin,
    /// The build directory was looked at.
    Probed { dir_exists: bool, artifact_exists: bool },
    /// The sources are read.
    SourcesRead,
    /// The build directory is gone.
    Cleaned,
    /// The build directory is there.
    Ensured,
    /// The manifest is written.
    Synthesized,
    /// The sources are copied.
    Materialized,
    /// The build tool ended, with this exit code if it had one.
    Built(Option<i32>),
    /// The built program ended, with this exit code if it had one.
    Ran(Option<i32>),
    /// The last action failed.
    Failed,
}

/// What to do next.
#[derive(Debug, Clone, Copy, PartialEq, Eq)]
pub enum Action {
    /// Look whether the build directory and the built program exist.
    Probe,
    /// Read the sources and take the directives from them.
    Read,
    /// Remove the build directory; that there is none is no failure.
    Clean,
    /// Create the build directory; that it is there already is no failure.
    Ensure,
    /// Write the manifest.
    Synthesize,
    /// Copy the sources.
    Materialize,
    /// Start the build tool.
    Build,
    /// Start the built program.
    Run,
    /// End with this exit code.
    Exit(i32),
    /// End with the error that was met.
    Abort,
}

/// The exit code of a run whose command line cannot be read.
pub open spec fn unread_code() -> i32 {
    0i32
}

/// The exit code for a child process, the build tool or the built program,
/// that ended without one.
pub open spec fn fallback_code() -> i32 {
    -1i32
}

/// The stage and the action with which the pipeline starts.
pub open spec fn pipeline() -> (Stage, Action) {
    (Stage::Read, Action::Read)
}

/// The next stage and the action to perform, for a configuration, a stage
/// and an event.
///
/// With `cached`, an earlier build is looked for first, and the built program
/// is started at once where both the build directory and the program exist.
/// In every other case the whole pipeline runs: the sources are read, then
/// the build directory is removed where `clean` is set, then it is created,
/// the manifest is written, the sources are copied and the build tool is
/// started. A build that ends with a code other than zero ends the run with
/// that code; after a build that ends with zero the program runs, and its
/// code ends the run. A child that ends without a code ends the run with the
/// fallback code. A failure, or an event that does not belong to the stage,
/// aborts.
pub open spec fn next(cached: bool, clean: bool, stage: Stage, event: Event) -> (Stage, Action) {
    match (stage, event) {
        (Stage::Start, Event::Begin) => if cached {
            (Stage::CacheCheck, Action::Probe)
        } else {
            pipeline()
        },
        (Stage::CacheCheck, Event::Probed { dir_exists, artifact_exists }) => if dir_exists
            && artifact_exists {
            (Stage::Run, Action::Run)
        } else {
            pipeline()
        },
        (Stage::Read, Event::SourcesRead) => if clean {
            (Stage::Clean, Action::Clean)
        } else {
            (Stage::Ensure, Action::Ensure)
        },
        (Stage::Clean, Event::Cleaned) => (Stage::Ensure, Action::Ensure),
        (Stage::Ensure, Event::Ensured) => (Stage::Synthesize, Action::Synthesize),
        (Stage::Synthesize, Event::Synthesized) => (Stage::Materialize, Action::Materialize),
        (Stage::Materialize, Event::Materialized) => (Stage::Build, Action::Build),
        (Stage::Build, Event::Built(Some(code))) => if code == 0 {
            (Stage::Run, Action::Run)
        } else {
            (Stage::Done, Action::Exit(code))
        },
        (Stage::Build, Event::Built(None)) => (Stage::Done, Action::Exit(fallback_code())),
        (Stage::Run, Event::Ran(Some(code))) => (Stage::Done, Action::Exit(code)),
        (Stage::Run, Event::Ran(None)) => (Stage::Done, Action::Exit(fallback_code())),
        _ => (Stage::Done, Action::Abort),
    }
}

/// The actions that a run performs from `stage` on, for the events that are
/// reported to it in turn.
pub open spec fn actions_of(cached: bool, clean: bool, stage: Stage, events: Seq<Event>) -> Seq<
    Action,
>
    decreases events.len(),
{
    if events.len() == 0 {
        Seq::empty()
    } else {
        let (then, action) = next(cached, clean, stage, events[0]);
        seq![action] + actions_of(cached, clean, then, events.drop_first())
    }
}

/// Whether an action changes the build directory or what is in it.
pub open spec fn touches(action: Action) -> bool {
    action is Clean || action is Ensure || action is Synthesize || action is Materialize
        || action is Build
}

/// Whether an action is part of the pipeline that ends with the build.
pub open spec fn builds(action: Action) -> bool {
    action is Read || touches(action)
}

/// Whether an action starts a child process.
pub open spec fn spawns(action: Action) -> bool {
    action is Build || action is Run
}

/// Reads the command line for the first time. Where it cannot be read, the
/// run is over before it began: what is returned is the exit code, 0, and
/// nothing is probed, read, written or started.
pub fn begin(args: Vec<String>) -> (r: Result<Invocation, i32>)
    ensures
        match r {
            Ok(inv) => invocation_of(texts(args@)) == Some(inv@),
            Err(code) => invocation_of(texts(args@)) is None && code == unread_code(),
        },
{
    match Opt::parse(args) {
        Ok(inv) => Ok(inv),
        Err(_) => Err(0),
    }
}

/// Decides the next stage and action.
pub fn step(opt: &Opt, stage: Stage, event: Event) -> (r: (Stage, Action))
    ensures
        r == next(opt.cached, opt.clean, stage, event),
{
    match (stage, event) {
        (Stage::Start, Event::Begin) => if opt.cached {
            (Stage::CacheCheck, Action::Probe)
        } else {
            (Stage::Read, Action::Read)
        },
        (Stage::CacheCheck, Event::Probed { dir_exists, artifact_exists }) => if dir_exists
            && artifact_exists {
            (Stage::Run, Action::Run)
        } else {
            (Stage::Read, Action::Read)
        },
        (Stage::Read, Event::SourcesRead) => if opt.clean {
            (Stage::Clean, Action::Clean)
        } else {
            (Stage::Ensure, Action::Ensure)
        },
        (Stage::Clean, Event::Cleaned) => (Stage::Ensure, Action::Ensure),
        (Stage::Ensure, Event::Ensured) => (Stage::Synthesize, Action::Synthesize),
        (Stage::Synthesize, Event::Synthesized) => (Stage::Materialize, Action::Materialize),
        (Stage::Materialize, Event::Materialized) => (Stage::Build, Action::Build),
        (Stage::Build, Event::Built(Some(code))) => if code == 0 {
            (Stage::Run, Action::Run)
        } else {
            (Stage::Done, Action::Exit(code))
        },
        (Stage::Build, Event::Built(None)) => (Stage::Done, Action::Exit(-1)),
        (Stage::Run, Event::Ran(Some(code))) => (Stage::Done, Action::Exit(code)),
        (Stage::Run, Event::Ran(None)) => (Stage::Done, Action::Exit(-1)),
        _ => (Stage::Done, Action::Abort),
    }
}

/// One action is performed for each event.
pub proof fn lemma_actions_len(cached: bool, clean: bool, stage: Stage, events: Seq<Event>)
    ensures
        actions_of(cached, clean, stage, events).len() == events.len(),
    decreases events.len(),
{
    if events.len() > 0 {
        let (then, action) = next(cached, clean, stage, events[0]);
        lemma_actions_len(cached, clean, then, events.drop_first());
    }
}

/// A run that is over stays over: whatever is reported to it, it does
/// nothing but abort.
pub proof fn lemma_done_stays_done(cached: bool, clean: bool, events: Seq<Event>)
    ensures
        forall|i: int|
            0 <= i < actions_of(cached, clean, Stage::Done, events).len() ==> #[trigger] actions_of(
                cached,
                clean,
                Stage::Done,
                events,
            )[i] == Action::Abort,
    decreases events.len(),
{
    if events.len() > 0 {
        lemma_done_stays_done(cached, clean, events.drop_first());
        let all = actions_of(cached, clean, Stage::Done, events);
        let rest = actions_of(cached, clean, Stage::Done, events.drop_first());
        assert(all == seq![Action::Abort] + rest);
        assert forall|i: int| 0 <= i < all.len() implies #[trigger] all[i] == Action::Abort by {
            if i > 0 {
                assert(all[i] == rest[i - 1]);
            }
        }
    }
}

/// Once the built program is started, or the run is over, nothing of the
/// pipeline is performed any more, whatever is reported.
pub proof fn lemma_no_build_after_run(cached: bool, clean: bool, stage: Stage, events: Seq<Event>)
    requires
        stage == Stage::Run || stage == Stage::Done,
    ensures
        forall|i: int|
            0 <= i < actions_of(cached, clean, stage, events).len() ==> !builds(
                #[trigger] actions_of(cached, clean, stage, events)[i],
            ),
    decreases events.len(),
{
    if events.len() > 0 {
        let (then, action) = next(cached, clean, stage, events[0]);
        assert(then == Stage::Done && !builds(action));
        lemma_no_build_after_run(cached, clean, then, events.drop_first());
        let all = actions_of(cached, clean, stage, events);
        let rest = actions_of(cached, clean, then, events.drop_first());
        assert(all == seq![action] + rest);
        assert forall|i: int| 0 <= i < all.len() implies !builds(#[trigger] all[i]) by {
            if i > 0 {
                assert(all[i] == rest[i - 1]);
            }
        }
    }
}

/// A cache hit skips the build: where an earlier build is asked for and the
/// probe finds both the build directory and the built program, the run probes,
/// starts the program, and never reads, cleans, creates, writes, copies or
/// builds, whatever is reported afterwards.
pub proof fn lemma_cache_hit_skips_build(clean: bool, events: Seq<Event>)
    requires
        events.len() >= 2,
        events[0] == Event::Begin,
        events[1] == (Event::Probed { dir_exists: true, artifact_exists: true }),
    ensures
        actions_of(true, clean, Stage::Start, events).len() == events.len(),
        actions_of(true, clean, Stage::Start, events)[0] == Action::Probe,
        actions_of(true, clean, Stage::Start, events)[1] == Action::Run,
        forall|i: int|
            0 <= i < events.len() ==> !builds(
                #[trigger] actions_of(true, clean, Stage::Start, events)[i],
            ),
{
    let rest = events.drop_first();
    let tail = rest.drop_first();
    lemma_actions_len(true, clean, Stage::Start, events);
    lemma_no_build_after_run(true, clean, Stage::Run, tail);
    let all = actions_of(true, clean, Stage::Start, events);
    let after = actions_of(true, clean, Stage::Run, tail);
    assert(actions_of(true, clean, Stage::CacheCheck, rest) == seq![Action::Run] + after);
    assert(all == seq![Action::Probe] + (seq![Action::Run] + after));
    assert forall|i: int| 0 <= i < events.len() implies !builds(#[trigger] all[i]) by {
        if i >= 2 {
            assert(all[i] == after[i - 2]);
        }
    }
}

/// A failed read leaves everything as it was: where reading the sources
/// fails, the run aborts, and whatever is reported afterwards it does nothing
/// but abort. The build directory is neither removed nor created, and no
/// child process is started.
pub proof fn lemma_failed_read_touches_nothing(cached: bool, clean: bool, events: Seq<Event>)
    requires
        events.len() >= 1,
        events[0] == Event::Failed,
    ensures
        forall|i: int|
            0 <= i < actions_of(cached, clean, Stage::Read, events).len() ==> #[trigger] actions_of(
                cached,
                clean,
                Stage::Read,
                events,
            )[i] == Action::Abort,
{
    lemma_done_stays_done(cached, clean, events.drop_first());
    let all = actions_of(cached, clean, Stage::Read, events);
    let rest = actions_of(cached, clean, Stage::Done, events.drop_first());
    assert(all == seq![Action::Abort] + rest);
    assert forall|i: int| 0 <= i < all.len() implies #[trigger] all[i] == Action::Abort by {
        if i > 0 {
            assert(all[i] == rest[i - 1]);
        }
    }
}

/// A run without an earlier build to look for, in which reading the sources
/// fails: it reads, aborts, and does nothing else. The build directory is not
/// touched and no child process is started.
pub proof fn lemma_failed_read_ends_run(clean: bool, events: Seq<Event>)
    requires
        events.len() >= 2,
        events[0] == Event::Begin,
        events[1] == Event::Failed,
    ensures
        actions_of(false, clean, Stage::Start, events).len() == events.len(),
        actions_of(false, clean, Stage::Start, events)[0] == Action::Read,
        forall|i: int|
            1 <= i < events.len() ==> #[trigger] actions_of(false, clean, Stage::Start, events)[i]
                == Action::Abort,
        forall|i: int|
            0 <= i < events.len() ==> !touches(
                #[trigger] actions_of(false, clean, Stage::Start, events)[i],
            ) && !spawns(actions_of(false, clean, Stage::Start, events)[i]),
{
    let rest = events.drop_first();
    lemma_actions_len(false, clean, Stage::Start, events);
    lemma_failed_read_touches_nothing(false, clean, rest);
    let all = actions_of(false, clean, Stage::Start, events);
    let after = actions_of(false, clean, Stage::Read, rest);
    assert(all == seq![Action::Read] + after);
    assert forall|i: int| 1 <= i < events.len() implies #[trigger] all[i] == Action::Abort by {
        assert(all[i] == after[i - 1]);
    }
    assert forall|i: int| 0 <= i < events.len() implies !touches(#[trigger] all[i]) && !spawns(
        all[i],
    ) by {
        if i >= 1 {
            assert(all[i] == Action::Abort);
        }
    }
}

/// The build directory is touched only after the sources were read: the
/// pipeline starts with reading, and from there the first step that is no
/// abort comes with the report that the sources are read.
pub proof fn lemma_read_comes_first(cached: bool, clean: bool, stage: Stage, event: Event)
    ensures
        touches(next(cached, clean, stage, event).1) ==> stage != Stage::Start && stage
            != Stage::CacheCheck,
        stage == Stage::Read && event != Event::SourcesRead ==> next(cached, clean, stage, event)
            == (Stage::Done, Action::Abort),
        stage == Stage::Read && event == Event::SourcesRead ==> next(cached, clean, stage, event)
            == if clean {
            (Stage::Clean, Action::Clean)
        } else {
            (Stage::Ensure, Action::Ensure)
        },
{
}

/// A child process that ends without an exit code ends the run with the
/// fallback code, the same for the build tool and for the built program, and
/// after a build that ended so the program is not started.
pub proof fn lemma_child_without_code(cached: bool, clean: bool)
    ensures
        next(cached, clean, Stage::Build, Event::Built(None)) == (
            Stage::Done,
            Action::Exit(fallback_code()),
        ),
        next(cached, clean, Stage::Run, Event::Ran(None)) == (
            Stage::Done,
            Action::Exit(fallback_code()),
        ),
        fallback_code() < 0,
{
}

/// A run without an earlier build to use and without cleaning, in which
/// every step succeeds: it reads, creates the directory, writes the manifest,
/// copies the sources and builds; after a build that ends with zero it starts
/// the program, and the program's exit code ends the run.
pub proof fn lemma_full_run(code: i32)
    ensures
        actions_of(
            false,
            false,
            Stage::Start,
            seq![
                Event::Begin,
                Event::SourcesRead,
                Event::Ensured,
                Event::Synthesized,
                Event::Materialized,
                Event::Built(Some(0i32)),
                Event::Ran(Some(code)),
            ],
        ) == seq![
            Action::Read,
            Action::Ensure,
            Action::Synthesize,
            Action::Materialize,
            Action::Build,
            Action::Run,
            Action::Exit(code),
        ],
{
    let e6 = seq![Event::Ran(Some(code))];
    let e5 = seq![Event::Built(Some(0i32))] + e6;
    let e4 = seq![Event::Materialized] + e5;
    let e3 = seq![Event::Synthesized] + e4;
    let e2 = seq![Event::Ensured] + e3;
    let e1 = seq![Event::SourcesRead] + e2;
    let e0 = seq![Event::Begin] + e1;
    lemma_from_ensure(false, code);
    assert(e1.drop_first() =~= e2);
    assert(e0.drop_first() =~= e1);
    assert(actions_of(false, false, Stage::Read, e1) =~= seq![Action::Ensure] + actions_of(
        false,
        false,
        Stage::Ensure,
        e2,
    ));
    assert(e0 =~= seq![
        Event::Begin,
        Event::SourcesRead,
        Event::Ensured,
        Event::Synthesized,
        Event::Materialized,
        Event::Built(Some(0i32)),
        Event::Ran(Some(code)),
    ]);
    assert(actions_of(false, false, Stage::Start, e0) =~= seq![
        Action::Read,
        Action::Ensure,
        Action::Synthesize,
        Action::Materialize,
        Action::Build,
        Action::Run,
        Action::Exit(code),
    ]);
}

/// From the creation of the build directory on, a run in which every step
/// succeeds writes, copies, builds and runs, and ends with the program's
/// exit code.
pub proof fn lemma_from_ensure(clean: bool, code: i32)
    ensures
        actions_of(
            false,
            clean,
            Stage::Ensure,
            seq![Event::Ensured] + (seq![Event::Synthesized] + (seq![Event::Materialized] + (
            seq![Event::Built(Some(0i32))] + seq![Event::Ran(Some(code))]))),
        ) == seq![
            Action::Synthesize,
            Action::Materialize,
            Action::Build,
            Action::Run,
            Action::Exit(code),
        ],
{
    let e6 = seq![Event::Ran(Some(code))];
    let e5 = seq![Event::Built(Some(0i32))] + e6;
    let e4 = seq![Event::Materialized] + e5;
    let e3 = seq![Event::Synthesized] + e4;
    let e2 = seq![Event::Ensured] + e3;
    assert(e6.drop_first() =~= Seq::<Event>::empty());
    assert(e5.drop_first() =~= e6);
    assert(e4.drop_first() =~= e5);
    assert(e3.drop_first() =~= e4);
    assert(e2.drop_first() =~= e3);
    assert(actions_of(false, clean, Stage::Done, Seq::<Event>::empty()) =~= Seq::<Action>::empty());
    assert(actions_of(false, clean, Stage::Run, e6) =~= seq![Action::Exit(code)]);
    assert(actions_of(false, clean, Stage::Build, e5) =~= seq![Action::Run, Action::Exit(code)]);
    assert(actions_of(false, clean, Stage::Materialize, e4) =~= seq![
        Action::Build,
        Action::Run,
        Action::Exit(code),
    ]);
    assert(actions_of(false, clean, Stage::Synthesize, e3) =~= seq![
        Action::Materialize,
        Action::Build,
        Action::Run,
        Action::Exit(code),
    ]);
    assert(actions_of(false, clean, Stage::Ensure, e2) =~= seq![
        Action::Synthesize,
        Action::Materialize,
        Action::Build,
        Action::Run,
        Action::Exit(code),
    ]);
}

/// A build that ends with a code other than zero ends the run with that
/// code, and the program is not started.
pub proof fn lemma_failed_build_ends_run(cached: bool, clean: bool, code: i32)
    requires
        code != 0,
    ensures
        next(cached, clean, Stage::Build, Event::Built(Some(code))) == (
            Stage::Done,
            Action::Exit(code),
        ),
{
}

} // verus!
