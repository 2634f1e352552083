use vstd::prelude::*;

pub mod config;
pub mod event;
pub mod shell;

use crate::config::EmbeddingContext;
use crate::event::{Disposition, PlatformEvent};
use crate::shell::{Phase, Shell, StartupFailure};

verus! {

/// The complete lifecycle from process entry: the OS hands over its argument
/// list and the platform delivers a trace of events. The arguments play no
/// part in what follows; the outcome is a function of the embedding context
/// and the event trace alone.
pub open spec fn spec_run(
    ctx: EmbeddingContext,
    os_args: Seq<String>,
    events: Seq<PlatformEvent>,
) -> Result<Shell, StartupFailure> {
    match Shell::spec_launch(ctx) {
        Ok(s) => Ok(s.spec_drive(events)),
        Err(f) => Err(f),
    }
}

/// Bootstrap the application and run its event loop over a trace of platform
/// events: construct the runtime builder with default configuration,
/// materialize the embedding context (fatal on failure, before any window is
/// created), install the no-op event callback, and dispatch events in order
/// until the trace is exhausted. OS-supplied arguments are ignored.
pub fn run(
    ctx: EmbeddingContext,
    os_args: &Vec<String>,
    events: &Vec<PlatformEvent>,
) -> (r: Result<Shell, StartupFailure>)
    ensures
        r == spec_run(ctx, os_args@, events@),
        r is Ok <==> ctx.is_launchable(),
{
    match Shell::launch(ctx) {
        Ok(mut sh) => {
            sh.drive(events);
            Ok(sh)
        },
        Err(f) => Err(f),
    }
}

/// Successful launch: a launchable embedding context (existing bundled-asset
/// root with a resolvable entry document) yields a running shell with exactly
/// one top-level window; it does not terminate immediately.
pub proof fn lemma_successful_launch(ctx: EmbeddingContext)
    requires
        ctx.is_launchable(),
    ensures
        Shell::spec_launch(ctx) matches Ok(s) && s.phase is Running && s.open_windows == 1
            && s.exit_code is None,
{
}

/// Startup failure: a context whose bundled-asset root does not exist never
/// launches; the outcome is the fatal failure and no shell, hence no window,
/// is created.
pub proof fn lemma_startup_failure(ctx: EmbeddingContext)
    requires
        !ctx.bundle_root_exists,
    ensures
        Shell::spec_launch(ctx) == Err::<Shell, StartupFailure>(StartupFailure::MissingBundleRoot),
{
}

/// No side-channel mutation: launching from identical embedding contexts
/// yields identical shells — same phase, window count, title, icons, handler
/// — every time; the bootstrap is deterministic in its inputs.
pub proof fn lemma_no_side_channel_mutation(c1: EmbeddingContext, c2: EmbeddingContext)
    requires
        c1 == c2,
    ensures
        Shell::spec_launch(c1) == Shell::spec_launch(c2),
{
}

/// Event pass-through: the installed callback does not intercept the close
/// of the last window; default platform handling terminates the shell with
/// exit code 0.
pub proof fn lemma_event_pass_through(s: Shell)
    requires
        s.wf(),
        s.phase is Running,
        s.open_windows == 1,
    ensures
        s.handler.spec_dispatch(PlatformEvent::CloseRequested) is PassThrough,
        s.spec_step(PlatformEvent::CloseRequested).phase is Terminated,
        s.spec_step(PlatformEvent::CloseRequested).exit_code == Some(0u32),
{
}

/// Argument independence: runs from the same embedding context over the same
/// event trace have the same outcome, whatever OS-level arguments the
/// process received.
pub proof fn lemma_argument_independence(
    ctx: EmbeddingContext,
    args1: Seq<String>,
    args2: Seq<String>,
    events: Seq<PlatformEvent>,
)
    ensures
        spec_run(ctx, args1, events) == spec_run(ctx, args2, events),
{
}

/// `Terminated` is absorbing: once a shell has terminated, no trace of
/// events changes it.
pub proof fn lemma_terminated_absorbing(s: Shell, events: Seq<PlatformEvent>)
    requires
        s.phase is Terminated,
    ensures
        s.spec_drive(events) == s,
    decreases events.len(),
{
    if events.len() > 0 {
        lemma_terminated_absorbing(s, events.skip(1));
    }
}

} // verus!
