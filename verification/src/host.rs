//! The host loop's state machine.
//!
//! The host owns the window and the one active (module, opaque handle)
//! pair.  Each public method takes one outside observation — a window
//! event, an idle tick with the watcher's poll result, or the platform's
//! report of a load attempt — and returns the platform actions to perform,
//! in the exact order they must be performed.  The unverified runner
//! carries the actions out; every decision, every counter, and the order
//! of every destroy, unload, load and create is fixed here.
//!
//! Module instances and opaque handles are identified by the numbers the
//! host assigns when it commits to them; a handle number is never reused,
//! so a retired handle can never be mistaken for a live one.

use vstd::prelude::*;

use crate::loader::{LoadError, LoadReport, resolve, spec_resolve};
use crate::watcher::{Watcher, spec_note_write, spec_poll_occurred, spec_poll_state};

verus! {

/// The phase of the host loop.
#[derive(Clone, Copy, PartialEq, Eq, Structural, Debug)]
pub enum Phase {
    /// No module is loaded and no instance is live.
    Unloaded,
    /// A module is loaded and its one instance is live: events are
    /// forwarded to it and every idle tick updates it once.
    Loaded,
    /// Mid-swap: the old instance is destroyed and its module unloaded;
    /// the host waits for the report of the fresh load attempt.
    Swapping,
    /// A window-close was handled: the live instance was torn down and
    /// the event loop is about to exit.
    ShuttingDown,
    /// A load attempt failed.  Fatal by design: no further actions are
    /// ever issued.
    Error,
}

/// One platform action the host prescribes.  A returned sequence must be
/// performed front to back.
#[derive(Clone, Copy, PartialEq, Eq, Structural, Debug)]
pub enum Action {
    /// Call the current module's destroy entry point on `handle`; the
    /// handle is invalid afterwards.
    DestroyInstance { handle: u64 },
    /// Release the native library mapping of module `module_id`.  Only
    /// ever prescribed after the module's instance was destroyed.
    UnloadModule { module_id: u64 },
    /// Copy the fresh build output to the fixed load path, so the load
    /// reads a consistent snapshot and holds no lock on the build output.
    CopyArtifact,
    /// Map the library at the fixed load path and resolve the four
    /// contract symbols; report the outcome back as a `LoadReport`.
    LoadModule,
    /// Call the new module's create entry point with the window; the host
    /// names the resulting opaque handle `handle`.
    CreateInstance { handle: u64 },
    /// Call the current module's update entry point on `handle`.
    UpdateInstance { handle: u64 },
    /// Forward a resize of `width` by `height` to `handle`.
    DispatchResize { handle: u64, width: u32, height: u32 },
}

/// The currently active module: one loaded library and the one live
/// opaque handle it owns.  The handle never outlives the module, and is
/// only ever passed to entry points of this very module.
#[derive(Clone, Copy, PartialEq, Eq, Structural, Debug)]
pub struct ActiveModule {
    /// Identity of the loaded library mapping.
    pub module_id: u64,
    /// Identity of the live opaque application handle.
    pub handle: u64,
}

/// The host loop's state: the window, the active module slot, and the
/// lifetime accounting of every create, destroy, load and unload.
pub struct Host {
    pub phase: Phase,
    /// Identity of the window; fixed for the process lifetime.
    pub window: u64,
    /// The single active module slot: `Some` exactly in `Loaded`.
    pub active: Option<ActiveModule>,
    /// The handle retired by the swap in progress: `Some` exactly in
    /// `Swapping`.
    pub retired: Option<u64>,
    /// Next module identity to assign; identities are never reused.
    pub next_module_id: u64,
    /// Next handle identity to assign; identities are never reused.
    pub next_handle_id: u64,
    /// How many create calls were prescribed.
    pub creates: u64,
    /// How many destroy calls were prescribed.
    pub destroys: u64,
    /// How many successful loads were committed.
    pub loads: u64,
    /// How many unloads were prescribed.
    pub unloads: u64,
    /// How many swaps completed successfully.
    pub swaps: u64,
}

impl Host {
    /// Number of live instances: zero or one.
    pub open spec fn live(self) -> int {
        if self.active is Some {
            1
        } else {
            0
        }
    }

    /// The live opaque handle; meaningful only in `Loaded`.
    pub open spec fn live_handle(self) -> u64
        recommends
            self.active is Some,
    {
        self.active->0.handle
    }

    /// Well-formedness, established by `new` and preserved by every
    /// transition: the active slot exists exactly in `Loaded`, a retired
    /// handle is recorded exactly mid-swap, identities stay below the
    /// next ones to assign, and the counters balance — every create
    /// beyond a destroy is the one live instance, every load beyond an
    /// unload is the one loaded module.
    pub open spec fn wf(self) -> bool {
        &&& (self.active is Some <==> self.phase == Phase::Loaded)
        &&& (self.retired is Some <==> self.phase == Phase::Swapping)
        &&& self.creates == self.destroys + self.live()
        &&& self.loads == self.unloads + self.live()
        &&& self.creates <= self.next_handle_id
        &&& self.loads <= self.next_module_id
        &&& (self.active matches Some(m) ==> m.handle < self.next_handle_id
            && m.module_id < self.next_module_id)
        &&& (self.retired matches Some(h) ==> h < self.next_handle_id)
        &&& self.swaps <= self.destroys
        &&& (self.phase == Phase::Swapping ==> self.swaps < self.destroys)
    }
}

/// The host as `Host::new(window)` returns it: unloaded, nothing counted.
pub open spec fn spec_init(window: u64) -> Host {
    Host {
        phase: Phase::Unloaded,
        window: window,
        active: None,
        retired: None,
        next_module_id: 0,
        next_handle_id: 0,
        creates: 0,
        destroys: 0,
        loads: 0,
        unloads: 0,
        swaps: 0,
    }
}

/// Startup transition: on a clean load report the host commits the first
/// module and instance and is `Loaded`; on any failure it is `Error`.
pub open spec fn spec_start(h: Host, report: LoadReport) -> (Host, Result<Seq<Action>, LoadError>) {
    match spec_resolve(report) {
        Ok(_) => (
            Host {
                phase: Phase::Loaded,
                active: Some(ActiveModule {
                    module_id: h.next_module_id,
                    handle: h.next_handle_id,
                }),
                next_module_id: (h.next_module_id + 1) as u64,
                next_handle_id: (h.next_handle_id + 1) as u64,
                creates: (h.creates + 1) as u64,
                loads: (h.loads + 1) as u64,
                ..h
            },
            Ok(seq![
                Action::LoadModule,
                (Action::CreateInstance { handle: h.next_handle_id }),
            ]),
        ),
        Err(e) => (Host { phase: Phase::Error, ..h }, Err(e)),
    }
}

/// Idle-tick transition.  In `Loaded` with no change detected: exactly one
/// update of the live instance and nothing else.  In `Loaded` with a
/// change detected: begin the swap — destroy the live instance, unload
/// its module, copy the build output, load it, in that order.  In every
/// other phase nothing is issued; in particular, after a fatal error no
/// update ever reaches a module again.
pub open spec fn spec_idle(h: Host, changed: bool) -> (Host, Seq<Action>) {
    if h.phase == Phase::Loaded {
        let m = h.active->0;
        if changed {
            (
                Host {
                    phase: Phase::Swapping,
                    active: None,
                    retired: Some(m.handle),
                    destroys: (h.destroys + 1) as u64,
                    unloads: (h.unloads + 1) as u64,
                    ..h
                },
                seq![
                    (Action::DestroyInstance { handle: m.handle }),
                    (Action::UnloadModule { module_id: m.module_id }),
                    Action::CopyArtifact,
                    Action::LoadModule,
                ],
            )
        } else {
            (h, seq![(Action::UpdateInstance { handle: m.handle })])
        }
    } else {
        (h, Seq::<Action>::empty())
    }
}

/// Swap-completion transition: on a clean load report the host commits a
/// fresh module and a fresh instance — a handle identity never used
/// before — and that instance receives this tick's update; on any failure
/// the host is `Error`, with no recovery path by design.
pub open spec fn spec_finish_swap(
    h: Host,
    report: LoadReport,
) -> (Host, Result<Seq<Action>, LoadError>) {
    match spec_resolve(report) {
        Ok(_) => (
            Host {
                phase: Phase::Loaded,
                active: Some(ActiveModule {
                    module_id: h.next_module_id,
                    handle: h.next_handle_id,
                }),
                retired: None,
                next_module_id: (h.next_module_id + 1) as u64,
                next_handle_id: (h.next_handle_id + 1) as u64,
                creates: (h.creates + 1) as u64,
                loads: (h.loads + 1) as u64,
                swaps: (h.swaps + 1) as u64,
                ..h
            },
            Ok(seq![
                (Action::CreateInstance { handle: h.next_handle_id }),
                (Action::UpdateInstance { handle: h.next_handle_id }),
            ]),
        ),
        Err(e) => (
            Host { phase: Phase::Error, active: None, retired: None, ..h },
            Err(e),
        ),
    }
}

/// Resize dispatch: in `Loaded` the event is forwarded to the live
/// instance — whatever the size, the no-op policy for degenerate sizes
/// belongs to the application; otherwise there is no instance to tell.
pub open spec fn spec_resize(h: Host, width: u32, height: u32) -> Seq<Action> {
    if h.phase == Phase::Loaded {
        seq![
            (Action::DispatchResize { handle: h.active->0.handle, width: width, height: height }),
        ]
    } else {
        Seq::<Action>::empty()
    }
}

/// Close transition: in `Loaded` the live instance is destroyed and its
/// module unloaded, in that order, and the host shuts down; in any other
/// phase there is nothing to tear down and nothing happens.
pub open spec fn spec_close(h: Host) -> (Host, Seq<Action>) {
    if h.phase == Phase::Loaded {
        let m = h.active->0;
        (
            Host {
                phase: Phase::ShuttingDown,
                active: None,
                destroys: (h.destroys + 1) as u64,
                unloads: (h.unloads + 1) as u64,
                ..h
            },
            seq![
                (Action::DestroyInstance { handle: m.handle }),
                (Action::UnloadModule { module_id: m.module_id }),
            ],
        )
    } else {
        (h, Seq::<Action>::empty())
    }
}

impl Host {
    /// A fresh host that owns the window named by `window` and has
    /// loaded, created, destroyed and unloaded nothing.
    pub fn new(window: u64) -> (h: Host)
        ensures
            h == spec_init(window),
            h.wf(),
            h.phase == Phase::Unloaded,
    {
        Host {
            phase: Phase::Unloaded,
            window: window,
            active: None,
            retired: None,
            next_module_id: 0,
            next_handle_id: 0,
            creates: 0,
            destroys: 0,
            loads: 0,
            unloads: 0,
            swaps: 0,
        }
    }

    /// Startup: commit the initial load attempt.  Returns the actions
    /// still to perform — the load already happened, the create is owed —
    /// or the error that makes the process abort.  `Ok` exactly when the
    /// report shows the file mapped with all four symbols present.
    pub fn start(&mut self, report: LoadReport) -> (r: Result<Vec<Action>, LoadError>)
        requires
            old(self).wf(),
            old(self).phase == Phase::Unloaded,
            old(self).next_handle_id < u64::MAX,
            old(self).next_module_id < u64::MAX,
        ensures
            final(self).wf(),
            final(self).window == old(self).window,
            *final(self) == spec_start(*old(self), report).0,
            r is Ok <==> spec_resolve(report) is Ok,
            r matches Ok(acts) ==> acts@ == spec_start(*old(self), report).1->Ok_0,
            r matches Err(e) ==> spec_resolve(report) == Err::<(), LoadError>(e)
                && final(self).phase == Phase::Error,
            r is Ok ==> final(self).phase == Phase::Loaded
                && final(self).creates == old(self).creates + 1
                && final(self).loads == old(self).loads + 1,
            final(self).destroys == old(self).destroys,
            final(self).unloads == old(self).unloads,
            final(self).swaps == old(self).swaps,
    {
        match resolve(&report) {
            Ok(()) => {
                let module_id = self.next_module_id;
                let handle = self.next_handle_id;
                self.next_module_id = module_id + 1;
                self.next_handle_id = handle + 1;
                self.creates = self.creates + 1;
                self.loads = self.loads + 1;
                self.active = Some(ActiveModule { module_id, handle });
                self.phase = Phase::Loaded;
                let mut acts: Vec<Action> = Vec::new();
                acts.push(Action::LoadModule);
                acts.push(Action::CreateInstance { handle });
                proof {
                    assert(acts@ =~= spec_start(*old(self), report).1->Ok_0);
                }
                Ok(acts)
            }
            Err(e) => {
                self.phase = Phase::Error;
                Err(e)
            }
        }
    }

    /// One idle tick of the event loop, with the watcher's poll result.
    /// In `Loaded`: either exactly one update of the live instance, or —
    /// if a change occurred — the strictly ordered teardown prefix of a
    /// swap: destroy, unload, copy, load.  In every other phase nothing
    /// is issued.
    pub fn idle_tick(&mut self, changed: bool) -> (actions: Vec<Action>)
        requires
            old(self).wf(),
        ensures
            final(self).wf(),
            final(self).window == old(self).window,
            *final(self) == spec_idle(*old(self), changed).0,
            actions@ == spec_idle(*old(self), changed).1,
            old(self).phase == Phase::Loaded && !changed ==> *final(self) == *old(self)
                && actions@ =~= seq![(Action::UpdateInstance { handle: old(self).live_handle() })],
            old(self).phase == Phase::Loaded && changed ==> final(self).phase == Phase::Swapping
                && final(self).destroys == old(self).destroys + 1
                && final(self).unloads == old(self).unloads + 1
                && final(self).retired == Some(old(self).live_handle()),
            old(self).phase != Phase::Loaded ==> *final(self) == *old(self)
                && actions@ == Seq::<Action>::empty(),
            final(self).creates == old(self).creates,
            final(self).loads == old(self).loads,
            final(self).swaps == old(self).swaps,
    {
        match self.phase {
            Phase::Loaded => {
                let m = match self.active {
                    Some(m) => m,
                    None => unreached(),
                };
                if changed {
                    self.phase = Phase::Swapping;
                    self.active = None;
                    self.retired = Some(m.handle);
                    self.destroys = self.destroys + 1;
                    self.unloads = self.unloads + 1;
                    let mut acts: Vec<Action> = Vec::new();
                    acts.push(Action::DestroyInstance { handle: m.handle });
                    acts.push(Action::UnloadModule { module_id: m.module_id });
                    acts.push(Action::CopyArtifact);
                    acts.push(Action::LoadModule);
                    proof {
                        assert(acts@ =~= spec_idle(*old(self), changed).1);
                    }
                    acts
                } else {
                    let mut acts: Vec<Action> = Vec::new();
                    acts.push(Action::UpdateInstance { handle: m.handle });
                    proof {
                        assert(acts@ =~= spec_idle(*old(self), changed).1);
                    }
                    acts
                }
            }
            _ => {
                let acts: Vec<Action> = Vec::new();
                proof {
                    assert(acts@ =~= spec_idle(*old(self), changed).1);
                }
                acts
            }
        }
    }

    /// Complete a swap with the platform's report of the fresh load
    /// attempt.  On success the new instance gets a handle identity never
    /// used before — in particular not the retired one — the window is
    /// untouched, and the new instance receives this tick's update.  On
    /// failure the host enters the fatal `Error` phase: by design there
    /// is no recovery path, and no further actions are ever issued.
    pub fn finish_swap(&mut self, report: LoadReport) -> (r: Result<Vec<Action>, LoadError>)
        requires
            old(self).wf(),
            old(self).phase == Phase::Swapping,
            old(self).next_handle_id < u64::MAX,
            old(self).next_module_id < u64::MAX,
        ensures
            final(self).wf(),
            final(self).window == old(self).window,
            *final(self) == spec_finish_swap(*old(self), report).0,
            r is Ok <==> spec_resolve(report) is Ok,
            r matches Ok(acts) ==> acts@ == spec_finish_swap(*old(self), report).1->Ok_0,
            r matches Err(e) ==> spec_resolve(report) == Err::<(), LoadError>(e)
                && final(self).phase == Phase::Error,
            r is Ok ==> ({
                &&& final(self).phase == Phase::Loaded
                &&& final(self).active matches Some(m)
                &&& m.handle == old(self).next_handle_id
                &&& m.handle != old(self).retired->0
                &&& final(self).creates == old(self).creates + 1
                &&& final(self).loads == old(self).loads + 1
                &&& final(self).swaps == old(self).swaps + 1
            }),
            final(self).destroys == old(self).destroys,
            final(self).unloads == old(self).unloads,
    {
        match resolve(&report) {
            Ok(()) => {
                let module_id = self.next_module_id;
                let handle = self.next_handle_id;
                self.next_module_id = module_id + 1;
                self.next_handle_id = handle + 1;
                self.creates = self.creates + 1;
                self.loads = self.loads + 1;
                self.swaps = self.swaps + 1;
                self.active = Some(ActiveModule { module_id, handle });
                self.retired = None;
                self.phase = Phase::Loaded;
                let mut acts: Vec<Action> = Vec::new();
                acts.push(Action::CreateInstance { handle });
                acts.push(Action::UpdateInstance { handle });
                proof {
                    assert(acts@ =~= spec_finish_swap(*old(self), report).1->Ok_0);
                }
                Ok(acts)
            }
            Err(e) => {
                self.phase = Phase::Error;
                self.active = None;
                self.retired = None;
                Err(e)
            }
        }
    }

    /// Forward a window resize to the live instance.  Dispatching a
    /// resize — degenerate or not — changes nothing in the host: the
    /// module slot, the handle and all counters stay as they are.
    pub fn on_resize(&self, width: u32, height: u32) -> (actions: Vec<Action>)
        requires
            self.wf(),
        ensures
            actions@ == spec_resize(*self, width, height),
            self.phase == Phase::Loaded ==> actions@ =~= seq![
                (Action::DispatchResize {
                    handle: self.live_handle(),
                    width: width,
                    height: height,
                }),
            ],
            self.phase != Phase::Loaded ==> actions@ == Seq::<Action>::empty(),
    {
        match self.phase {
            Phase::Loaded => {
                let m = match self.active {
                    Some(m) => m,
                    None => unreached(),
                };
                let mut acts: Vec<Action> = Vec::new();
                acts.push(Action::DispatchResize { handle: m.handle, width, height });
                proof {
                    assert(acts@ =~= spec_resize(*self, width, height));
                }
                acts
            }
            _ => {
                let acts: Vec<Action> = Vec::new();
                proof {
                    assert(acts@ =~= spec_resize(*self, width, height));
                }
                acts
            }
        }
    }

    /// Handle a window-close: destroy the live instance, then unload its
    /// module, in that order, and shut down.  Afterwards every create is
    /// matched by a destroy and every load by an unload.
    pub fn on_close(&mut self) -> (actions: Vec<Action>)
        requires
            old(self).wf(),
        ensures
            final(self).wf(),
            final(self).window == old(self).window,
            *final(self) == spec_close(*old(self)).0,
            actions@ == spec_close(*old(self)).1,
            old(self).phase == Phase::Loaded ==> final(self).phase == Phase::ShuttingDown
                && final(self).creates == final(self).destroys
                && final(self).loads == final(self).unloads,
            old(self).phase != Phase::Loaded ==> *final(self) == *old(self)
                && actions@ == Seq::<Action>::empty(),
    {
        match self.phase {
            Phase::Loaded => {
                let m = match self.active {
                    Some(m) => m,
                    None => unreached(),
                };
                self.phase = Phase::ShuttingDown;
                self.active = None;
                self.destroys = self.destroys + 1;
                self.unloads = self.unloads + 1;
                let mut acts: Vec<Action> = Vec::new();
                acts.push(Action::DestroyInstance { handle: m.handle });
                acts.push(Action::UnloadModule { module_id: m.module_id });
                proof {
                    assert(acts@ =~= spec_close(*old(self)).1);
                }
                acts
            }
            _ => {
                let acts: Vec<Action> = Vec::new();
                proof {
                    assert(acts@ =~= spec_close(*old(self)).1);
                }
                acts
            }
        }
    }

    /// The event loop has exited: the shut-down host returns to the
    /// unloaded state it started from, all accounts balanced.
    pub fn exited(&mut self)
        requires
            old(self).wf(),
            old(self).phase == Phase::ShuttingDown,
        ensures
            final(self).wf(),
            *final(self) == (Host { phase: Phase::Unloaded, ..(*old(self)) }),
            final(self).creates == final(self).destroys,
    {
        self.phase = Phase::Unloaded;
    }
}

/// No leaked and no double-freed handles: whenever no instance is live —
/// before startup, mid-swap, after shutdown, or in the fatal error phase
/// — the number of create calls equals the number of destroy calls, and
/// the number of loads equals the number of unloads; while one instance
/// is live, exactly one create and one load are unmatched.  This holds of
/// every well-formed host, hence across any sequence of transitions.
pub proof fn lemma_handles_balanced(h: Host)
    requires
        h.wf(),
    ensures
        h.active is None ==> h.creates == h.destroys && h.loads == h.unloads,
        h.active is Some ==> h.creates == h.destroys + 1 && h.loads == h.unloads + 1,
{
}

/// Degenerate-size tolerance: resize dispatches leave the host exactly as
/// it was — `on_resize` cannot even write it — so after forwarding a
/// zero-by-zero resize and then a positive one, the next idle tick still
/// yields exactly one update, routed to the unchanged live handle.
pub proof fn lemma_resize_tolerance(h: Host, width: u32, height: u32)
    requires
        h.wf(),
        h.phase == Phase::Loaded,
        width > 0,
        height > 0,
    ensures
        spec_resize(h, 0, 0) =~= seq![
            (Action::DispatchResize { handle: h.live_handle(), width: 0, height: 0 }),
        ],
        spec_resize(h, width, height) =~= seq![
            (Action::DispatchResize { handle: h.live_handle(), width: width, height: height }),
        ],
        spec_idle(h, false).0 == h,
        spec_idle(h, false).1 =~= seq![(Action::UpdateInstance { handle: h.live_handle() })],
{
}

/// Swap ordering under a double-firing watcher: two write occurrences
/// before the poll collapse into one pending occurrence, whose poll
/// triggers exactly one swap sequence — destroy, unload, copy, load, then
/// create on success — with nothing interleaved; the poll after it
/// reports no occurrence, so the following tick is a plain update of the
/// fresh instance, whose handle differs from the retired one while the
/// window is the same.
pub proof fn lemma_double_fire_single_swap(w: Watcher, h: Host, report: LoadReport)
    requires
        h.wf(),
        h.phase == Phase::Loaded,
        h.next_handle_id < u64::MAX,
        h.next_module_id < u64::MAX,
    ensures
        spec_note_write(spec_note_write(w)) == spec_note_write(w),
        spec_poll_occurred(spec_note_write(w)),
        !spec_poll_occurred(spec_poll_state(spec_note_write(w))),
        ({
            let begun = spec_idle(h, true);
            &&& begun.1 =~= seq![
                (Action::DestroyInstance { handle: h.live_handle() }),
                (Action::UnloadModule { module_id: h.active->0.module_id }),
                Action::CopyArtifact,
                Action::LoadModule,
            ]
            &&& begun.0.phase == Phase::Swapping
            &&& spec_resolve(report) is Ok ==> ({
                let done = spec_finish_swap(begun.0, report);
                let fresh = h.next_handle_id;
                &&& done.1 == Ok::<Seq<Action>, LoadError>(seq![
                    (Action::CreateInstance { handle: fresh }),
                    (Action::UpdateInstance { handle: fresh }),
                ])
                &&& fresh != h.live_handle()
                &&& done.0.window == h.window
                &&& done.0.swaps == h.swaps + 1
                &&& spec_idle(done.0, false).1 =~= seq![
                    (Action::UpdateInstance { handle: fresh }),
                ]
            })
        }),
{
    let begun = spec_idle(h, true);
    if spec_resolve(report) is Ok {
        let done = spec_finish_swap(begun.0, report);
        assert(done.1->Ok_0 =~= seq![
            (Action::CreateInstance { handle: h.next_handle_id }),
            (Action::UpdateInstance { handle: h.next_handle_id }),
        ]);
    }
}

} // verus!
