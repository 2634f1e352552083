use vstd::prelude::*;

use crate::config::{BuilderSettings, EmbeddingContext};
use crate::event::{Disposition, EventHandler, PlatformEvent};

verus! {

/// Phase of the shell lifecycle. The process starts uninitialized, runs the
/// event loop after a successful launch, and is terminated afterwards;
/// `Terminated` is absorbing.
#[derive(Clone, Copy, Debug, PartialEq, Eq, Structural)]
pub enum Phase {
    Uninitialized,
    Running,
    Terminated,
}

/// The only modeled failure: the embedding context could not be
/// materialized. It is fatal; there is no retry path.
#[derive(Clone, Copy, Debug, PartialEq, Eq, Structural)]
pub enum StartupFailure {
    /// The bundled-asset root does not exist.
    MissingBundleRoot,
    /// The root exists but no entry document resolves inside it.
    UnresolvableEntryDocument,
}

impl StartupFailure {
    /// The descriptive text for this failure.
    pub open spec fn spec_message(self) -> Seq<char> {
        match self {
            StartupFailure::MissingBundleRoot => "error while building the application: bundled asset root not found"@,
            StartupFailure::UnresolvableEntryDocument => "error while building the application: entry document not resolvable"@,
        }
    }

    /// Human-readable fatal message for the process's error stream.
    pub fn message(&self) -> (m: &'static str)
        ensures
            m@ == self.spec_message(),
    {
        match self {
            StartupFailure::MissingBundleRoot => "error while building the application: bundled asset root not found",
            StartupFailure::UnresolvableEntryDocument => "error while building the application: entry document not resolvable",
        }
    }
}

/// The native application shell: the one runtime handle the process owns,
/// together with the window state the host runtime keeps for it. It is
/// created by `launch`, owned exclusively by its caller, and never mutated
/// again once terminated.
#[derive(Clone, Debug, PartialEq, Eq)]
pub struct Shell {
    /// Lifecycle phase.
    pub phase: Phase,
    /// Settings the runtime builder was constructed from.
    pub settings: BuilderSettings,
    /// Number of top-level windows currently open.
    pub open_windows: u32,
    /// Title of the top-level window, taken from the embedding context.
    pub window_title: String,
    /// Icon resources attached at launch, taken from the embedding context.
    pub icon_ids: Vec<u64>,
    /// The installed shell-level event callback.
    pub handler: EventHandler,
    /// Exit code, present exactly once the shell has terminated.
    pub exit_code: Option<u32>,
}

impl Shell {
    /// Well-formedness of the lifecycle state: a running shell has at least
    /// one window and no exit code yet; an exit code exists exactly in the
    /// terminated phase.
    pub open spec fn wf(self) -> bool {
        &&& self.phase is Running ==> self.open_windows >= 1
        &&& self.phase is Uninitialized ==> self.open_windows == 0
        &&& self.phase is Terminated <==> self.exit_code is Some
    }

    /// The shell state right after a successful launch: running, built from
    /// default settings, with exactly one top-level window showing the
    /// bundle's entry document, and the no-op callback installed.
    pub open spec fn spec_launched(ctx: EmbeddingContext) -> Shell {
        Shell {
            phase: Phase::Running,
            settings: BuilderSettings { custom_commands: 0, custom_plugins: 0, custom_menu: false },
            open_windows: 1,
            window_title: ctx.window_title,
            icon_ids: ctx.icon_ids,
            handler: EventHandler::NoOp,
            exit_code: None,
        }
    }

    /// What materializing the embedding context yields: a running shell for
    /// a launchable context, and otherwise the startup failure naming what
    /// could not be resolved.
    pub open spec fn spec_launch(ctx: EmbeddingContext) -> Result<Shell, StartupFailure> {
        if !ctx.bundle_root_exists {
            Err(StartupFailure::MissingBundleRoot)
        } else if !ctx.entry_document_resolvable {
            Err(StartupFailure::UnresolvableEntryDocument)
        } else {
            Ok(Shell::spec_launched(ctx))
        }
    }

    /// Construct the runtime builder with default settings, materialize the
    /// embedding context and obtain the application handle bound to one
    /// top-level window; a context whose bundle cannot be resolved fails
    /// fatally before any window is created.
    pub fn launch(ctx: EmbeddingContext) -> (r: Result<Shell, StartupFailure>)
        ensures
            r == Self::spec_launch(ctx),
            r is Ok <==> ctx.is_launchable(),
            (r matches Ok(s) ==> s.wf() && s.phase is Running && s.open_windows == 1),
    {
        let settings = BuilderSettings::default();
        if !ctx.bundle_root_exists {
            Err(StartupFailure::MissingBundleRoot)
        } else if !ctx.entry_document_resolvable {
            Err(StartupFailure::UnresolvableEntryDocument)
        } else {
            Ok(Shell {
                phase: Phase::Running,
                settings,
                open_windows: 1,
                window_title: ctx.window_title,
                icon_ids: ctx.icon_ids,
                handler: EventHandler::NoOp,
                exit_code: None,
            })
        }
    }

    /// The shell after one event is dispatched: the installed callback is
    /// consulted first (the no-op handler passes everything through), then
    /// default platform handling applies. Closing the last window or an
    /// explicit quit terminates with exit code 0; any other event leaves the
    /// shell unchanged, and a shell that is not running never changes.
    pub open spec fn spec_step(self, event: PlatformEvent) -> Shell {
        if self.phase is Running {
            match event {
                PlatformEvent::CloseRequested => {
                    if self.open_windows <= 1 {
                        Shell { phase: Phase::Terminated, open_windows: 0, exit_code: Some(0u32), ..self }
                    } else {
                        Shell { open_windows: (self.open_windows - 1) as u32, ..self }
                    }
                },
                PlatformEvent::ExitRequested => {
                    Shell { phase: Phase::Terminated, open_windows: 0, exit_code: Some(0u32), ..self }
                },
                _ => self,
            }
        } else {
            self
        }
    }

    /// Dispatch one platform event to the shell's callback and apply default
    /// platform handling to whatever it passes through.
    pub fn step(&mut self, event: &PlatformEvent)
        requires
            old(self).wf(),
        ensures
            *final(self) == old(self).spec_step(*event),
            final(self).wf(),
    {
        let disposition = self.handler.dispatch(event);
        match disposition {
            Disposition::PassThrough => {},
        }
        if self.phase == Phase::Running {
            match event {
                PlatformEvent::CloseRequested => {
                    if self.open_windows <= 1 {
                        self.phase = Phase::Terminated;
                        self.open_windows = 0;
                        self.exit_code = Some(0);
                    } else {
                        self.open_windows = self.open_windows - 1;
                    }
                },
                PlatformEvent::ExitRequested => {
                    self.phase = Phase::Terminated;
                    self.open_windows = 0;
                    self.exit_code = Some(0);
                },
                _ => {},
            }
        }
    }

    /// The shell after a whole trace of events is dispatched in order.
    pub open spec fn spec_drive(self, events: Seq<PlatformEvent>) -> Shell
        decreases events.len(),
    {
        if events.len() == 0 {
            self
        } else {
            self.spec_step(events[0]).spec_drive(events.skip(1))
        }
    }

    /// Dispatching a trace and then one more event is the same as
    /// dispatching the trace extended by that event.
    pub proof fn lemma_drive_snoc(self, events: Seq<PlatformEvent>, event: PlatformEvent)
        ensures
            self.spec_drive(events.push(event)) == self.spec_drive(events).spec_step(event),
        decreases events.len(),
    {
        if events.len() == 0 {
            assert(events.push(event).skip(1) =~= Seq::<PlatformEvent>::empty());
            assert(self.spec_step(event).spec_drive(Seq::<PlatformEvent>::empty())
                == self.spec_step(event));
        } else {
            assert(events.push(event).skip(1) =~= events.skip(1).push(event));
            self.spec_step(events[0]).lemma_drive_snoc(events.skip(1), event);
            assert(self.spec_drive(events)
                == self.spec_step(events[0]).spec_drive(events.skip(1)));
        }
    }

    /// Run the event loop over a trace of platform events, dispatching each
    /// one in order until the trace is exhausted.
    pub fn drive(&mut self, events: &Vec<PlatformEvent>)
        requires
            old(self).wf(),
        ensures
            *final(self) == old(self).spec_drive(events@),
            final(self).wf(),
    {
        let mut i: usize = 0;
        while i < events.len()
            invariant
                i <= events@.len(),
                self.wf(),
                *self == old(self).spec_drive(events@.take(i as int)),
            decreases events@.len() - i,
        {
            let event = events[i];
            self.step(&event);
            proof {
                old(self).lemma_drive_snoc(events@.take(i as int), events@[i as int]);
                assert(events@.take(i as int).push(events@[i as int]) =~= events@.take(i + 1 as int));
            }
            i = i + 1;
        }
        proof {
            assert(events@.take(events@.len() as int) =~= events@);
        }
    }

} // impl Shell

} // verus!
