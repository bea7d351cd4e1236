//! The reload orchestrator: the decisions of the host's control loop. The
//! loop itself (loading images, calling into the module) runs outside; it
//! reports each outcome here and acts on the step that comes back.
use vstd::prelude::*;

verus! {

/// Why loading a plugin image, or constructing its instance, failed.
#[derive(Clone, Copy, Debug, PartialEq, Eq, Structural)]
pub enum LoadError {
    /// The image could not be read from disk.
    ImageRead,
    /// The image is malformed or uses what the engine does not support.
    Compile,
    /// The image needs a host capability that the host does not offer.
    Link,
    /// The module's constructor violated an execution invariant.
    Trap,
}

#[derive(Clone, Copy, Debug, PartialEq, Eq, Structural)]
pub enum HostPhase {
    /// A load of the plugin image is under way.
    Reloading,
    /// An instance is live and takes frames.
    Running,
    /// The last instance trapped, and no reload has replaced it yet.
    Poisoned,
    /// The first load failed: there is nothing to run.
    Failed,
}

/// What the control loop does once a load attempt is over.
pub enum ReloadStep {
    /// A new instance of `generation` is live; if a snapshot was taken, it is
    /// to be restored into it (best effort).
    Resumed { generation: u64, snapshot: Option<Vec<u8>> },
    /// The load failed; the previous instance keeps running.
    KeptPrevious(LoadError),
    /// The load failed and the previous instance had trapped; frames wait for
    /// the next change.
    Stalled(LoadError),
    /// The first load failed; the process cannot go on.
    Fatal(LoadError),
}

pub enum ReloadStepView {
    Resumed { generation: u64, snapshot: Option<Seq<u8>> },
    KeptPrevious(LoadError),
    Stalled(LoadError),
    Fatal(LoadError),
}

pub open spec fn bytes_of(b: Option<Vec<u8>>) -> Option<Seq<u8>> {
    match b {
        Some(v) => Some(v@),
        None => None,
    }
}

impl View for ReloadStep {
    type V = ReloadStepView;

    open spec fn view(&self) -> ReloadStepView {
        match self {
            ReloadStep::Resumed { generation, snapshot } => ReloadStepView::Resumed {
                generation: *generation,
                snapshot: bytes_of(*snapshot),
            },
            ReloadStep::KeptPrevious(e) => ReloadStepView::KeptPrevious(*e),
            ReloadStep::Stalled(e) => ReloadStepView::Stalled(*e),
            ReloadStep::Fatal(e) => ReloadStepView::Fatal(*e),
        }
    }
}

/// The orchestrator's state: its phase, the generation of the newest
/// instance (zero before the first load succeeds), whether the previous
/// instance can still take frames while a reload is under way, and the state
/// saved from it for the next one.
pub struct OrchestratorView {
    pub phase: HostPhase,
    pub generation: u64,
    pub fallback: bool,
    pub snapshot: Option<Seq<u8>>,
}

impl OrchestratorView {
    /// Outside a reload nothing is kept for the next instance.
    pub open spec fn wf(self) -> bool {
        &&& self.phase != HostPhase::Reloading ==> self.snapshot is None && !self.fallback
        &&& self.phase == HostPhase::Running ==> self.generation > 0
        &&& self.phase == HostPhase::Poisoned ==> self.generation > 0
        &&& self.phase == HostPhase::Failed ==> self.generation == 0
        &&& self.fallback ==> self.generation > 0
    }

    /// A change of the image starts a reload from a live or a trapped instance.
    pub open spec fn can_reload(self) -> bool {
        self.phase == HostPhase::Running || self.phase == HostPhase::Poisoned
    }

    /// The state once a reload starts; the snapshot of a trapped instance is
    /// not kept.
    pub open spec fn began_reload(self, snapshot: Option<Seq<u8>>) -> OrchestratorView {
        let running = self.phase == HostPhase::Running;
        OrchestratorView {
            phase: HostPhase::Reloading,
            generation: self.generation,
            fallback: running,
            snapshot: if running {
                snapshot
            } else {
                None
            },
        }
    }

    /// The state once the load attempt of a reload is over.
    pub open spec fn finished_reload(self, outcome: Result<(), LoadError>) -> OrchestratorView {
        match outcome {
            Ok(()) => OrchestratorView {
                phase: HostPhase::Running,
                generation: (self.generation + 1) as u64,
                fallback: false,
                snapshot: None,
            },
            Err(_) => OrchestratorView {
                phase: if self.fallback {
                    HostPhase::Running
                } else if self.generation == 0 {
                    HostPhase::Failed
                } else {
                    HostPhase::Poisoned
                },
                generation: self.generation,
                fallback: false,
                snapshot: None,
            },
        }
    }

    /// The step that the control loop takes once the load attempt is over.
    pub open spec fn reload_step(self, outcome: Result<(), LoadError>) -> ReloadStepView {
        match outcome {
            Ok(()) => ReloadStepView::Resumed {
                generation: (self.generation + 1) as u64,
                snapshot: self.snapshot,
            },
            Err(e) => if self.fallback {
                ReloadStepView::KeptPrevious(e)
            } else if self.generation == 0 {
                ReloadStepView::Fatal(e)
            } else {
                ReloadStepView::Stalled(e)
            },
        }
    }
}

pub struct ReloadOrchestrator {
    phase: HostPhase,
    generation: u64,
    fallback: bool,
    snapshot: Option<Vec<u8>>,
}

impl View for ReloadOrchestrator {
    type V = OrchestratorView;

    closed spec fn view(&self) -> OrchestratorView {
        OrchestratorView {
            phase: self.phase,
            generation: self.generation,
            fallback: self.fallback,
            snapshot: bytes_of(self.snapshot),
        }
    }
}

impl ReloadOrchestrator {
    /// The state on process start: the first load is under way, with no
    /// instance to fall back on.
    pub fn new() -> (r: ReloadOrchestrator)
        ensures
            r@ == (OrchestratorView {
                phase: HostPhase::Reloading,
                generation: 0,
                fallback: false,
                snapshot: None,
            }),
            r@.wf(),
    {
        ReloadOrchestrator { phase: HostPhase::Reloading, generation: 0, fallback: false, snapshot: None }
    }

    pub fn phase(&self) -> (r: HostPhase)
        ensures
            r == self@.phase,
    {
        self.phase
    }

    /// The generation of the newest instance; zero before any load succeeded.
    pub fn generation(&self) -> (r: u64)
        ensures
            r == self@.generation,
    {
        self.generation
    }

    /// The generation that the instance under load will have if it succeeds.
    pub fn candidate_generation(&self) -> (r: Option<u64>)
        ensures
            r == if self@.generation < u64::MAX {
                Some((self@.generation + 1) as u64)
            } else {
                None::<u64>
            },
    {
        if self.generation < u64::MAX {
            Some(self.generation + 1)
        } else {
            None
        }
    }

    /// Whether the frame loop may call into the live instance this frame.
    pub fn may_run_frame(&self) -> (r: bool)
        ensures
            r == (self@.phase == HostPhase::Running),
    {
        self.phase == HostPhase::Running
    }

    /// Whether a change signal starts a reload now.
    pub fn reload_due(&self, changed: bool) -> (r: bool)
        ensures
            r == (changed && self@.can_reload()),
    {
        changed && (self.phase == HostPhase::Running || self.phase == HostPhase::Poisoned)
    }

    /// Whether the state of the live instance is to be saved before a reload.
    pub fn wants_snapshot(&self) -> (r: bool)
        ensures
            r == (self@.phase == HostPhase::Running),
    {
        self.phase == HostPhase::Running
    }

    /// Starts a reload. `snapshot` is what the live instance saved, or `None`
    /// where saving failed: then the new instance starts fresh.
    pub fn begin_reload(&mut self, snapshot: Option<Vec<u8>>)
        requires
            old(self)@.can_reload(),
            old(self)@.wf(),
        ensures
            final(self)@ == old(self)@.began_reload(bytes_of(snapshot)),
            final(self)@.wf(),
    {
        let running = self.phase == HostPhase::Running;
        self.phase = HostPhase::Reloading;
        self.fallback = running;
        self.snapshot = if running {
            snapshot
        } else {
            None
        };
    }

    /// Ends the load attempt under way with its outcome.
    pub fn finish_reload(&mut self, outcome: Result<(), LoadError>) -> (r: ReloadStep)
        requires
            old(self)@.phase == HostPhase::Reloading,
            old(self)@.generation < u64::MAX,
            old(self)@.wf(),
        ensures
            final(self)@ == old(self)@.finished_reload(outcome),
            r@ == old(self)@.reload_step(outcome),
            final(self)@.wf(),
    {
        let snapshot = self.snapshot.take();
        let fallback = self.fallback;
        self.fallback = false;
        match outcome {
            Ok(()) => {
                self.phase = HostPhase::Running;
                self.generation = self.generation + 1;
                ReloadStep::Resumed { generation: self.generation, snapshot }
            },
            Err(e) => {
                if fallback {
                    self.phase = HostPhase::Running;
                    ReloadStep::KeptPrevious(e)
                } else if self.generation == 0 {
                    self.phase = HostPhase::Failed;
                    ReloadStep::Fatal(e)
                } else {
                    self.phase = HostPhase::Poisoned;
                    ReloadStep::Stalled(e)
                }
            },
        }
    }

    /// The live instance trapped: no frame may reach it until a reload.
    pub fn instance_trapped(&mut self)
        requires
            old(self)@.phase == HostPhase::Running,
            old(self)@.wf(),
        ensures
            final(self)@ == (OrchestratorView { phase: HostPhase::Poisoned, ..old(self)@ }),
            final(self)@.wf(),
    {
        self.phase = HostPhase::Poisoned;
    }
}

/// A reload whose image fails to load leaves a running host exactly as it
/// was: same phase, same generation, so the previous instance keeps taking the
/// frames it would have taken without the attempt.
pub proof fn lemma_failed_reload_keeps_instance(
    host: OrchestratorView,
    snapshot: Option<Seq<u8>>,
    e: LoadError,
)
    requires
        host.wf(),
        host.phase == HostPhase::Running,
    ensures
        host.began_reload(snapshot).finished_reload(Err(e)) == host,
        host.began_reload(snapshot).reload_step(Err(e)) == ReloadStepView::KeptPrevious(e),
{
}

/// The state saved from the running instance is handed, unchanged, to the
/// instance that the reload brings up.
pub proof fn lemma_snapshot_handed_over(host: OrchestratorView, snapshot: Seq<u8>)
    requires
        host.wf(),
        host.phase == HostPhase::Running,
        host.generation < u64::MAX,
    ensures
        host.began_reload(Some(snapshot)).reload_step(Ok(())) == (ReloadStepView::Resumed {
            generation: (host.generation + 1) as u64,
            snapshot: Some(snapshot),
        }),
        host.began_reload(Some(snapshot)).finished_reload(Ok(())).phase == HostPhase::Running,
{
}

/// A failed first load is terminal; any later failure keeps the host alive.
pub proof fn lemma_only_first_load_is_fatal(host: OrchestratorView, e: LoadError)
    requires
        host.wf(),
        host.phase == HostPhase::Reloading,
    ensures
        host.reload_step(Err(e)) is Fatal <==> host.generation == 0,
{
}

} // verus!
