//! The interpreter lifecycle: the `{NotStarted, Initializing, Initialized,
//! Finalized}` state machine, bring-up sequencing, the execution-context
//! handle, run-to-completion, and teardown.
//!
//! What the foreign runtime itself does is outside this crate; every
//! outcome it reports (a pre-initialization status, a resource-decode
//! result, a dynamically resolved terminal-capability path) enters through
//! [`HostInputs`], and every operation performed against the runtime goes
//! through [`crate::runtime::RuntimeModel`], whose phase preconditions
//! enforce the load-bearing ordering structurally.  The embedding shell
//! performs the recorded environment writes and file writes and hands the
//! outcomes in.

use vstd::prelude::*;

use crate::config::{AllocatorBackend, OxidizedPythonInterpreterConfig, TerminfoResolution};
use crate::diagnostics::DiagnosticsFile;
use crate::errors::{InitPhase, NewInterpreterError};
use crate::guard::GuardState;
use crate::resources::PythonResourcesState;
use crate::runtime::{EventV, MetaPathEntry, PyStatus, RuntimeModel, RuntimePhase};

verus! {

/// Lifecycle state of one interpreter instance.
#[derive(Clone, Copy, Debug, PartialEq, Eq, Structural)]
pub enum InterpreterState {
    /// Constructed, nothing begun.
    NotStarted,
    /// `begin` is in flight, or failed terminally.
    Initializing,
    /// The runtime is fully up; the only state in which it may be used.
    Initialized,
    /// Torn down; the runtime cannot be restarted in this process.
    Finalized,
}

/// Everything the host side reports into one `begin` call: statuses of the
/// three bring-up phases, the outcome of decoding the packed resources,
/// the dynamically resolved terminal-capability search path, and the
/// runtime's built-in extension table as first snapshotted.
pub struct HostInputs {
    /// Search path found by dynamic terminal-capability resolution, if
    /// any.
    pub terminfo_dirs: Option<String>,
    /// The runtime's built-in extension-module entries, snapshotted
    /// without their terminator.
    pub builtin_inittab: Vec<crate::inittab::InittabEntry>,
    /// Status reported by runtime pre-initialization.
    pub pre_init: PyStatus,
    /// Status reported by first-phase (core) initialization.
    pub core_init: PyStatus,
    /// Status reported by second-phase (main) initialization.
    pub main_init: PyStatus,
    /// Outcome of decoding the packed-resource blob.
    pub resources: Result<PythonResourcesState, String>,
}

/// One end-to-end lifecycle of the embedded runtime.
#[derive(Debug)]
pub struct MainPythonInterpreter {
    /// The resolved configuration; never mutated after construction.
    pub config: OxidizedPythonInterpreterConfig,
    /// Current lifecycle state.
    pub interpreter_state: InterpreterState,
    /// Token of this instance's acquisition of the process-wide guard.
    pub guard_token: Option<u64>,
    /// The allocator backend this instance installed, if any; owned here
    /// so the function table outlives the runtime.
    pub raw_allocator: Option<AllocatorBackend>,
    /// Whether the execution context (the runtime's global lock) is held.
    pub gil: bool,
    /// How many blocking acquisitions of the execution lock were made.
    pub gil_acquire_count: u64,
    /// Decoded packed-resource state; owned here because the registered
    /// loader references it for as long as the runtime lives.
    pub resources_state: Option<PythonResourcesState>,
}

/// The environment writes one `begin` performs, in order, as name/value
/// views.
pub open spec fn spec_env_write_pairs(
    c: OxidizedPythonInterpreterConfig,
    terminfo: Option<String>,
) -> Seq<(Seq<char>, Seq<char>)> {
    (match c.terminfo_resolution {
        TerminfoResolution::Dynamic => match terminfo {
            Some(v) => seq![("TERMINFO_DIRS"@, v@)],
            None => Seq::<(Seq<char>, Seq<char>)>::empty(),
        },
        TerminfoResolution::Static(v) => seq![("TERMINFO_DIRS"@, v@)],
        TerminfoResolution::Untouched => Seq::<(Seq<char>, Seq<char>)>::empty(),
    }) + (match c.tcl_library {
        Some(v) => seq![("TCL_LIBRARY"@, v@)],
        None => Seq::<(Seq<char>, Seq<char>)>::empty(),
    })
}

/// Views of a recorded environment-write list.
pub open spec fn env_pairs_view(s: Seq<(String, String)>) -> Seq<(Seq<char>, Seq<char>)> {
    s.map_values(|p: (String, String)| (p.0@, p.1@))
}

/// The environment-write events of one `begin`.
pub open spec fn spec_env_events(
    c: OxidizedPythonInterpreterConfig,
    terminfo: Option<String>,
) -> Seq<EventV> {
    spec_env_write_pairs(c, terminfo).map_values(|p: (Seq<char>, Seq<char>)| EventV::EnvWrite(p.0, p.1))
}

/// The allocator-installation events of one `begin`.
pub open spec fn spec_alloc_events(c: OxidizedPythonInterpreterConfig) -> Seq<EventV> {
    match c.raw_allocator {
        None => Seq::<EventV>::empty(),
        Some(AllocatorBackend::System) => Seq::<EventV>::empty(),
        Some(AllocatorBackend::Custom(t)) => seq![EventV::AllocatorInstalled(t)],
        Some(AllocatorBackend::DebugWrapped(t)) => seq![
            EventV::AllocatorInstalled(t),
            EventV::DebugHooksInstalled,
        ],
    }
}

/// The runtime-global flag events of one `begin`, in order.
pub open spec fn spec_sys_attr_events(c: OxidizedPythonInterpreterConfig) -> Seq<EventV> {
    (if c.argvb {
        seq![EventV::SysAttrSet("argvb"@)]
    } else {
        Seq::<EventV>::empty()
    }) + seq![EventV::SysAttrSet("oxidized"@)] + (if c.sys_frozen {
        seq![EventV::SysAttrSet("frozen"@)]
    } else {
        Seq::<EventV>::empty()
    }) + (if c.sys_meipass {
        seq![EventV::SysAttrSet("_MEIPASS"@)]
    } else {
        Seq::<EventV>::empty()
    })
}

/// The complete, ordered operation trace of one successful `begin`:
/// environment setup, shadow-table installation, allocator installation,
/// two-phase bring-up with the loader registration in between, optional
/// filesystem-importer removal, then the runtime-global flags.
pub open spec fn spec_begin_events(
    c: OxidizedPythonInterpreterConfig,
    terminfo: Option<String>,
) -> Seq<EventV> {
    spec_env_events(c, terminfo) + seq![EventV::InittabInstalled] + spec_alloc_events(c) + seq![
        EventV::PreInit,
        EventV::CoreInit,
    ] + (if c.oxidized_importer {
        seq![EventV::ImporterRegistered]
    } else {
        Seq::<EventV>::empty()
    }) + seq![EventV::MainInit] + (if !c.filesystem_importer {
        seq![EventV::FilesystemImporterRemoved]
    } else {
        Seq::<EventV>::empty()
    }) + spec_sys_attr_events(c)
}

/// Whether one `begin` from `NotStarted` succeeds, given the guard and
/// the host-reported outcomes.
pub open spec fn spec_begin_ok(
    c: OxidizedPythonInterpreterConfig,
    g: GuardState,
    host: HostInputs,
) -> bool {
    &&& !g.poisoned
    &&& !host.pre_init.exception
    &&& !host.core_init.exception
    &&& (c.oxidized_importer ==> host.resources is Ok)
    &&& !host.main_init.exception
}

/// The error one failing `begin` from `NotStarted` reports: the first
/// failing stage, in bring-up order.
pub open spec fn spec_begin_error(
    c: OxidizedPythonInterpreterConfig,
    g: GuardState,
    host: HostInputs,
) -> NewInterpreterError {
    if g.poisoned {
        NewInterpreterError::LockPoisoned
    } else if host.pre_init.exception {
        NewInterpreterError::InitializationFailed(InitPhase::PreInit)
    } else if host.core_init.exception {
        NewInterpreterError::InitializationFailed(InitPhase::CoreInit)
    } else if c.oxidized_importer && host.resources is Err {
        NewInterpreterError::ResourceBootstrapFailed(host.resources->Err_0)
    } else {
        NewInterpreterError::InitializationFailed(InitPhase::MainInit)
    }
}

/// What any `begin` that got past the guard leaves of the runtime's
/// process-global installations, whether or not a later stage fails:
/// the environment writes recorded, the shadow table rebuilt and
/// installed, the allocator backend installed.  These stages precede
/// bring-up and always run, and their effects survive teardown.
pub open spec fn spec_install_runtime_post(
    c: OxidizedPythonInterpreterConfig,
    pre: RuntimeModel,
    post: RuntimeModel,
    host: HostInputs,
) -> bool {
    &&& post.inittab.canonical is Some
    &&& (pre.inittab.canonical is Some ==> post.inittab.canonical == pre.inittab.canonical)
    &&& (pre.inittab.canonical is None ==> crate::inittab::table_view(
        post.inittab.canonical->Some_0@,
    ) == crate::inittab::table_view(host.builtin_inittab@))
    &&& crate::inittab::table_view(post.inittab.active@) == crate::inittab::spec_rebuilt(
        crate::inittab::table_view(post.inittab.canonical->Some_0@),
        c.oxidized_importer,
        crate::inittab::extras_view(c.extra_extension_modules@),
    )
    &&& post.inittab.install_count == pre.inittab.install_count + 1
    &&& post.allocator == (match c.raw_allocator {
        Some(AllocatorBackend::Custom(t)) => Some(t),
        Some(AllocatorBackend::DebugWrapped(t)) => Some(t),
        _ => pre.allocator,
    })
    &&& post.allocator_install_count == pre.allocator_install_count + (
    match c.raw_allocator {
        Some(AllocatorBackend::Custom(_)) => 1int,
        Some(AllocatorBackend::DebugWrapped(_)) => 1int,
        _ => 0int,
    })
    &&& post.debug_hooks == (pre.debug_hooks || c.raw_allocator matches Some(
        AllocatorBackend::DebugWrapped(_),
    ))
    &&& post.debug_hooks_install_count == pre.debug_hooks_install_count + (
    if c.raw_allocator matches Some(AllocatorBackend::DebugWrapped(_)) {
        1int
    } else {
        0int
    })
    &&& env_pairs_view(post.env_writes@) == env_pairs_view(pre.env_writes@)
        + spec_env_write_pairs(c, host.terminfo_dirs)
}

/// What a successful `begin` leaves of the runtime: fully up, the
/// resolution chain as configured, allocator and shadow table installed,
/// flags pushed, and the operation trace appended to the log.  The
/// predicate is opaque to keep `begin`'s error paths light; a caller
/// reveals it to use the individual facts.
#[verifier::opaque]
pub open spec fn spec_begin_runtime_post(
    c: OxidizedPythonInterpreterConfig,
    pre: RuntimeModel,
    post: RuntimeModel,
    host: HostInputs,
) -> bool {
    &&& spec_install_runtime_post(c, pre, post, host)
    &&& post.loaded_modules == pre.loaded_modules
    &&& post.finalize_count == pre.finalize_count
    &&& post.phase is MainInitialized
    &&& post.meta_path@ == crate::runtime::spec_expected_chain(
        c.oxidized_importer,
        c.filesystem_importer,
    )
    &&& post.sys_argvb == (pre.sys_argvb || c.argvb)
    &&& post.sys_oxidized
    &&& post.sys_frozen == (pre.sys_frozen || c.sys_frozen)
    &&& (c.sys_meipass ==> post.sys_meipass is Some && post.sys_meipass->0@ == c.origin@)
    &&& (!c.sys_meipass ==> post.sys_meipass == pre.sys_meipass)
    &&& post.log@ == pre.log@ + spec_begin_events(c, host.terminfo_dirs)
}

/// The operations a failing `begin` (guard acquired) performed, in
/// order: everything up to, and nothing past, the failing stage.
pub open spec fn spec_begin_failed_events(
    c: OxidizedPythonInterpreterConfig,
    host: HostInputs,
) -> Seq<EventV> {
    let prelude = spec_env_events(c, host.terminfo_dirs) + seq![EventV::InittabInstalled]
        + spec_alloc_events(c);
    if host.pre_init.exception {
        prelude
    } else if host.core_init.exception {
        prelude + seq![EventV::PreInit]
    } else if c.oxidized_importer && host.resources is Err {
        prelude + seq![EventV::PreInit, EventV::CoreInit]
    } else {
        prelude + seq![EventV::PreInit, EventV::CoreInit] + (if c.oxidized_importer {
            seq![EventV::ImporterRegistered]
        } else {
            Seq::<EventV>::empty()
        })
    }
}

/// What a failing `begin` (guard acquired) leaves of the runtime: the
/// stages before the failing one ran — environment setup, shadow table,
/// allocator, and as much of bring-up as the statuses allowed — and
/// nothing after it ran: the phase stops at the failing stage,
/// second-phase initialization is never reached, and no runtime-global
/// flag is pushed.  Opaque like the success predicate; reveal to use the
/// individual facts.
#[verifier::opaque]
pub open spec fn spec_begin_failed_runtime_post(
    c: OxidizedPythonInterpreterConfig,
    pre: RuntimeModel,
    post: RuntimeModel,
    host: HostInputs,
) -> bool {
    &&& spec_install_runtime_post(c, pre, post, host)
    &&& post.loaded_modules == pre.loaded_modules
    &&& post.finalize_count == pre.finalize_count
    &&& post.sys_argvb == pre.sys_argvb
    &&& post.sys_oxidized == pre.sys_oxidized
    &&& post.sys_frozen == pre.sys_frozen
    &&& post.sys_meipass == pre.sys_meipass
    &&& post.log@ == pre.log@ + spec_begin_failed_events(c, host)
    &&& (host.pre_init.exception ==> post.phase is Down && post.meta_path == pre.meta_path)
    &&& (!host.pre_init.exception && host.core_init.exception ==> post.phase is PreInitialized
        && post.meta_path == pre.meta_path)
    &&& (!host.pre_init.exception && !host.core_init.exception ==> post.phase
        is CoreInitialized)
    &&& (!host.pre_init.exception && !host.core_init.exception && c.oxidized_importer
        && host.resources is Err ==> post.meta_path@ == seq![
        MetaPathEntry::Builtin,
        MetaPathEntry::Frozen,
    ])
    &&& (!host.pre_init.exception && !host.core_init.exception && (c.oxidized_importer
        ==> host.resources is Ok) ==> post.meta_path@ == (if c.oxidized_importer {
        seq![MetaPathEntry::Oxidized]
    } else {
        Seq::<MetaPathEntry>::empty()
    }) + seq![MetaPathEntry::Builtin, MetaPathEntry::Frozen])
}

/// The environment writes one bring-up will perform for this
/// configuration, in order — the same pairs `begin` records, verified
/// against the same specification.  The embedding shell computes them
/// ahead of construction, so the real environment carries them before
/// the engine's pre-initialization runs.
pub fn env_writes_for(config: &OxidizedPythonInterpreterConfig, terminfo: &Option<String>) -> (r:
    Vec<(String, String)>)
    ensures
        env_pairs_view(r@) == spec_env_write_pairs(*config, *terminfo),
{
    let mut r: Vec<(String, String)> = Vec::new();
    match &config.terminfo_resolution {
        TerminfoResolution::Dynamic => {
            match terminfo {
                Some(v) => {
                    r.push(("TERMINFO_DIRS".to_owned(), v.clone()));
                },
                None => {},
            }
        },
        TerminfoResolution::Static(v) => {
            r.push(("TERMINFO_DIRS".to_owned(), v.clone()));
        },
        TerminfoResolution::Untouched => {},
    }
    match &config.tcl_library {
        Some(v) => {
            r.push(("TCL_LIBRARY".to_owned(), v.clone()));
        },
        None => {},
    }
    assert(env_pairs_view(r@) =~= spec_env_write_pairs(*config, *terminfo)) by {
        assert(forall|k: int| 0 <= k < r@.len() ==> env_pairs_view(r@)[k] == (r@[k].0@, r@[k].1@));
    }
    r
}

/// Sequence concatenation is associative.
proof fn lemma_add_assoc<T>(x: Seq<T>, y: Seq<T>, z: Seq<T>)
    ensures
        (x + y) + z == x + (y + z),
{
    assert((x + y) + z =~= x + (y + z));
}

impl MainPythonInterpreter {
    /// Whether the instance is in one of the live states.
    pub open spec fn live(self) -> bool {
        self.interpreter_state is Initializing || self.interpreter_state is Initialized
    }

    /// A live instance holds the process-wide guard: its token is the
    /// guard's outstanding acquisition.
    pub open spec fn guard_inv(self, g: GuardState) -> bool {
        self.live() ==> self.guard_token is Some && g.holder == Some(self.guard_token->0)
    }

    /// The state after releasing the execution context.
    pub open spec fn spec_release_gil(s: MainPythonInterpreter) -> MainPythonInterpreter {
        MainPythonInterpreter { gil: false, ..s }
    }

    /// The state after an acquire of the execution context, and whether
    /// the acquire succeeds.  A successful acquire from the released
    /// state makes exactly one blocking acquisition; when the context is
    /// already held, the handle is returned without reacquiring.
    pub open spec fn spec_acquire_gil(s: MainPythonInterpreter) -> (MainPythonInterpreter, bool) {
        if s.interpreter_state is Initialized {
            if s.gil {
                (s, true)
            } else {
                (
                    MainPythonInterpreter {
                        gil: true,
                        gil_acquire_count: (s.gil_acquire_count + 1) as u64,
                        ..s
                    },
                    true,
                )
            }
        } else {
            (s, false)
        }
    }

    /// Construct an instance and bring the runtime up, as one step.  The
    /// execution context is held on success.  On failure the instance is
    /// discarded: its teardown (guard release, runtime finalization
    /// attempt) has already run, and only the error is returned.
    pub fn new(
        config: OxidizedPythonInterpreterConfig,
        guard: &mut GuardState,
        runtime: &mut RuntimeModel,
        host: HostInputs,
    ) -> (r: Result<MainPythonInterpreter, NewInterpreterError>)
        requires
            old(guard).holder is None,
            old(guard).next_token < u64::MAX,
            old(runtime).phase is Down,
            old(runtime).inittab.install_count < u64::MAX,
            old(runtime).allocator_install_count < u64::MAX,
            old(runtime).debug_hooks_install_count < u64::MAX,
            old(runtime).finalize_count < u64::MAX,
        ensures
            r is Ok <==> spec_begin_ok(config, *old(guard), host),
            r is Err ==> r->Err_0 == spec_begin_error(config, *old(guard), host),
            r is Ok ==> ({
                let inst = r->Ok_0;
                &&& inst.config == config
                &&& inst.interpreter_state is Initialized
                &&& inst.gil
                &&& inst.guard_token == Some(old(guard).next_token)
                &&& inst.guard_inv(*final(guard))
                &&& final(guard).holder == Some(old(guard).next_token)
                &&& (config.oxidized_importer ==> inst.resources_state == Some(
                    host.resources->Ok_0,
                ))
                &&& spec_begin_runtime_post(config, *old(runtime), *final(runtime), host)
            }),
            r is Err ==> final(guard).holder is None,
            r is Err ==> final(runtime).phase is Down,
            r is Err ==> final(runtime).finalize_count == old(runtime).finalize_count + 1,
            r is Err && old(guard).poisoned ==> {
                &&& final(runtime).allocator == old(runtime).allocator
                &&& final(runtime).allocator_install_count == old(
                    runtime,
                ).allocator_install_count
                &&& final(runtime).debug_hooks == old(runtime).debug_hooks
                &&& final(runtime).debug_hooks_install_count == old(
                    runtime,
                ).debug_hooks_install_count
                &&& final(runtime).inittab.canonical == old(runtime).inittab.canonical
                &&& final(runtime).inittab.install_count == old(runtime).inittab.install_count
                &&& env_pairs_view(final(runtime).env_writes@) == env_pairs_view(
                    old(runtime).env_writes@,
                )
                &&& final(runtime).log@ == old(runtime).log@.push(EventV::FinalizeCalled)
            },
            r is Err && !old(guard).poisoned ==> {
                &&& spec_install_runtime_post(config, *old(runtime), *final(runtime), host)
                &&& final(runtime).log@ == old(runtime).log@ + spec_begin_failed_events(
                    config,
                    host,
                ) + seq![EventV::FinalizeCalled]
            },
    {
        let ghost config0 = config;
        let ghost host0 = host;
        let ghost g0 = *guard;
        let ghost rt0 = *runtime;
        let mut inst = MainPythonInterpreter {
            config,
            interpreter_state: InterpreterState::NotStarted,
            guard_token: None,
            raw_allocator: None,
            gil: false,
            gil_acquire_count: 0,
            resources_state: None,
        };
        match inst.begin(guard, runtime, host) {
            Ok(()) => Ok(inst),
            Err(e) => {
                let ghost rt_failed = *runtime;
                let _ = inst.run_teardown(guard, runtime, None);
                proof {
                    if !g0.poisoned {
                        reveal(spec_begin_failed_runtime_post);
                        assert(spec_install_runtime_post(config0, rt0, *runtime, host0));
                        assert(rt_failed.log@ == rt0.log@ + spec_begin_failed_events(
                            config0,
                            host0,
                        ));
                        assert(runtime.log@ =~= rt0.log@ + spec_begin_failed_events(
                            config0,
                            host0,
                        ) + seq![EventV::FinalizeCalled]);
                    }
                }
                Err(e)
            },
        }
    }

    /// Environment/terminal-capability setup: the writes `begin` performs
    /// before bring-up, in order.
    fn env_setup(&self, runtime: &mut RuntimeModel, terminfo: &Option<String>)
        requires
            old(runtime).phase is Down,
        ensures
            *final(runtime) == (RuntimeModel {
                env_writes: final(runtime).env_writes,
                log: final(runtime).log,
                ..*old(runtime)
            }),
            env_pairs_view(final(runtime).env_writes@) == env_pairs_view(old(runtime).env_writes@)
                + spec_env_write_pairs(self.config, *terminfo),
            final(runtime).log@ == old(runtime).log@ + spec_env_events(self.config, *terminfo),
    {
        let ghost pre_pairs = env_pairs_view(runtime.env_writes@);
        let ghost pre_log = runtime.log@;
        match &self.config.terminfo_resolution {
            TerminfoResolution::Dynamic => {
                match terminfo {
                    Some(v) => {
                        runtime.write_env("TERMINFO_DIRS".to_owned(), v.clone());
                    },
                    None => {},
                }
            },
            TerminfoResolution::Static(v) => {
                runtime.write_env("TERMINFO_DIRS".to_owned(), v.clone());
            },
            TerminfoResolution::Untouched => {},
        }
        match &self.config.tcl_library {
            Some(v) => {
                runtime.write_env("TCL_LIBRARY".to_owned(), v.clone());
            },
            None => {},
        }
        proof {
            assert(env_pairs_view(runtime.env_writes@) =~= pre_pairs + spec_env_write_pairs(
                self.config,
                *terminfo,
            )) by {
                assert(forall|k: int|
                    0 <= k < runtime.env_writes@.len() ==> env_pairs_view(runtime.env_writes@)[k]
                        == (runtime.env_writes@[k].0@, runtime.env_writes@[k].1@));
            }
            assert(runtime.log@ =~= pre_log + spec_env_events(self.config, *terminfo)) by {
                assert(forall|k: int|
                    0 <= k < spec_env_write_pairs(self.config, *terminfo).len()
                        ==> spec_env_events(self.config, *terminfo)[k] == EventV::EnvWrite(
                        #[trigger] spec_env_write_pairs(self.config, *terminfo)[k].0,
                        spec_env_write_pairs(self.config, *terminfo)[k].1,
                    ));
            }
        }
    }

    /// Install the configured allocator backend, debug hooks included,
    /// before bring-up starts.
    fn install_allocator_backend(&mut self, runtime: &mut RuntimeModel)
        requires
            old(runtime).phase is Down,
            old(runtime).allocator_install_count < u64::MAX,
            old(runtime).debug_hooks_install_count < u64::MAX,
        ensures
            *final(self) == (MainPythonInterpreter {
                raw_allocator: old(self).config.raw_allocator,
                ..*old(self)
            }),
            *final(runtime) == (RuntimeModel {
                allocator: final(runtime).allocator,
                allocator_install_count: final(runtime).allocator_install_count,
                debug_hooks: final(runtime).debug_hooks,
                debug_hooks_install_count: final(runtime).debug_hooks_install_count,
                log: final(runtime).log,
                ..*old(runtime)
            }),
            final(runtime).allocator == (match old(self).config.raw_allocator {
                Some(AllocatorBackend::Custom(t)) => Some(t),
                Some(AllocatorBackend::DebugWrapped(t)) => Some(t),
                _ => old(runtime).allocator,
            }),
            final(runtime).allocator_install_count == old(runtime).allocator_install_count + (
            match old(self).config.raw_allocator {
                Some(AllocatorBackend::Custom(_)) => 1int,
                Some(AllocatorBackend::DebugWrapped(_)) => 1int,
                _ => 0int,
            }),
            final(runtime).debug_hooks == (old(runtime).debug_hooks || old(
                self,
            ).config.raw_allocator matches Some(AllocatorBackend::DebugWrapped(_))),
            final(runtime).debug_hooks_install_count == old(runtime).debug_hooks_install_count + (
            if old(self).config.raw_allocator matches Some(AllocatorBackend::DebugWrapped(_)) {
                1int
            } else {
                0int
            }),
            final(runtime).log@ == old(runtime).log@ + spec_alloc_events(old(self).config),
    {
        let ghost pre_log = runtime.log@;
        match self.config.raw_allocator {
            None => {
                self.raw_allocator = None;
                assert(runtime.log@ =~= pre_log + spec_alloc_events(self.config));
            },
            Some(AllocatorBackend::System) => {
                self.raw_allocator = Some(AllocatorBackend::System);
                assert(runtime.log@ =~= pre_log + spec_alloc_events(self.config));
            },
            Some(AllocatorBackend::Custom(t)) => {
                runtime.install_allocator(t);
                self.raw_allocator = Some(AllocatorBackend::Custom(t));
                assert(runtime.log@ =~= pre_log + spec_alloc_events(self.config));
            },
            Some(AllocatorBackend::DebugWrapped(t)) => {
                runtime.install_allocator(t);
                runtime.install_debug_hooks();
                self.raw_allocator = Some(AllocatorBackend::DebugWrapped(t));
                assert(runtime.log@ =~= pre_log + spec_alloc_events(self.config));
            },
        }
    }

    /// Push the configured runtime-global flags after bring-up, in order.
    fn push_sys_flags(&self, runtime: &mut RuntimeModel)
        requires
            old(runtime).phase is MainInitialized,
        ensures
            *final(runtime) == (RuntimeModel {
                sys_argvb: old(runtime).sys_argvb || self.config.argvb,
                sys_oxidized: true,
                sys_frozen: old(runtime).sys_frozen || self.config.sys_frozen,
                sys_meipass: final(runtime).sys_meipass,
                log: final(runtime).log,
                ..*old(runtime)
            }),
            self.config.sys_meipass ==> final(runtime).sys_meipass is Some
                && final(runtime).sys_meipass->0@ == self.config.origin@,
            !self.config.sys_meipass ==> final(runtime).sys_meipass == old(runtime).sys_meipass,
            final(runtime).log@ == old(runtime).log@ + spec_sys_attr_events(self.config),
    {
        let ghost pre_log = runtime.log@;
        if self.config.argvb {
            runtime.set_sys_argvb();
        }
        runtime.set_sys_oxidized();
        if self.config.sys_frozen {
            runtime.set_sys_frozen();
        }
        if self.config.sys_meipass {
            runtime.set_sys_meipass(self.config.origin.clone());
        }
        assert(runtime.log@ =~= pre_log + spec_sys_attr_events(self.config));
    }

    /// Bring the runtime up.
    ///
    /// The only legal entry transition is from `NotStarted`.  Calling
    /// `begin` on an `Initialized` instance is an idempotent no-op that
    /// returns success without redoing any work; on an `Initializing`
    /// instance it is a reentrant caller bug; on a `Finalized` instance
    /// it fails, since the runtime cannot be restarted.  A failure during
    /// bring-up is terminal for the instance: it stays `Initializing` and
    /// must be discarded.
    #[verifier::rlimit(100)]
    pub fn begin(
        &mut self,
        guard: &mut GuardState,
        runtime: &mut RuntimeModel,
        host: HostInputs,
    ) -> (r: Result<(), NewInterpreterError>)
        requires
            old(self).interpreter_state is NotStarted ==> {
                &&& old(guard).holder is None
                &&& old(guard).next_token < u64::MAX
                &&& old(runtime).phase is Down
                &&& old(runtime).inittab.install_count < u64::MAX
                &&& old(runtime).allocator_install_count < u64::MAX
                &&& old(runtime).debug_hooks_install_count < u64::MAX
            },
        ensures
            old(self).interpreter_state is Initializing ==> r == Err::<(), NewInterpreterError>(
                NewInterpreterError::AlreadyInitializing,
            ) && *final(self) == *old(self) && *final(guard) == *old(guard) && *final(runtime)
                == *old(runtime),
            old(self).interpreter_state is Initialized ==> r is Ok && *final(self) == *old(self)
                && *final(guard) == *old(guard) && *final(runtime) == *old(runtime),
            old(self).interpreter_state is Finalized ==> r == Err::<(), NewInterpreterError>(
                NewInterpreterError::Finalized,
            ) && *final(self) == *old(self) && *final(guard) == *old(guard) && *final(runtime)
                == *old(runtime),
            old(self).interpreter_state is NotStarted ==> {
                &&& final(self).gil_acquire_count == old(self).gil_acquire_count
                &&& final(runtime).finalize_count == old(runtime).finalize_count
                &&& (r is Ok <==> spec_begin_ok(old(self).config, *old(guard), host))
                &&& (r is Err ==> r->Err_0 == spec_begin_error(old(self).config, *old(guard), host))
                &&& final(self).config == old(self).config
                &&& (old(guard).poisoned ==> *final(self) == *old(self) && *final(guard) == *old(
                    guard,
                ) && *final(runtime) == *old(runtime))
                &&& (!old(guard).poisoned ==> {
                    &&& final(self).guard_token == Some(old(guard).next_token)
                    &&& final(guard).holder == Some(old(guard).next_token)
                    &&& final(guard).next_token == old(guard).next_token + 1
                    &&& !final(guard).poisoned
                    &&& final(self).guard_inv(*final(guard))
                })
                &&& (r is Ok ==> {
                    &&& final(self).interpreter_state is Initialized
                    &&& final(self).gil
                    &&& final(self).gil_acquire_count == old(self).gil_acquire_count
                    &&& (old(self).config.oxidized_importer ==> final(self).resources_state
                        == Some(host.resources->Ok_0))
                    &&& (!old(self).config.oxidized_importer ==> final(self).resources_state == old(
                        self,
                    ).resources_state)
                    &&& spec_begin_runtime_post(
                        old(self).config,
                        *old(runtime),
                        *final(runtime),
                        host,
                    )
                })
                &&& (r is Err && !old(guard).poisoned ==> {
                    &&& final(self).interpreter_state is Initializing
                    &&& spec_begin_failed_runtime_post(
                        old(self).config,
                        *old(runtime),
                        *final(runtime),
                        host,
                    )
                })
            },
    {
        match self.interpreter_state {
            InterpreterState::Initializing => {
                return Err(NewInterpreterError::AlreadyInitializing);
            },
            InterpreterState::Initialized => {
                return Ok(());
            },
            InterpreterState::Finalized => {
                return Err(NewInterpreterError::Finalized);
            },
            InterpreterState::NotStarted => {},
        }

        let token = match guard.acquire() {
            Ok(t) => t,
            Err(e) => {
                return Err(e);
            },
        };
        self.guard_token = Some(token);
        self.interpreter_state = InterpreterState::Initializing;

        let ghost log0 = runtime.log@;
        let ghost host0 = host;
        let ghost c = self.config;
        let ghost env_seg = spec_env_events(c, host0.terminfo_dirs);
        let ghost alloc_seg = spec_alloc_events(c);

        self.env_setup(runtime, &host.terminfo_dirs);
        assert(runtime.log@ == log0 + env_seg);

        runtime.install_inittab(&self.config, &host.builtin_inittab);
        assert(runtime.log@ =~= log0 + env_seg + seq![EventV::InittabInstalled]);

        self.install_allocator_backend(runtime);
        let ghost log_a = log0 + env_seg + seq![EventV::InittabInstalled] + alloc_seg;
        assert(runtime.log@ == log_a);
        let ghost prelude = env_seg + seq![EventV::InittabInstalled] + alloc_seg;
        proof {
            lemma_add_assoc(log0, env_seg, seq![EventV::InittabInstalled]);
            lemma_add_assoc(log0, env_seg + seq![EventV::InittabInstalled], alloc_seg);
            assert(log_a == log0 + prelude);
        }

        if !runtime.pre_initialize(host.pre_init) {
            proof {
                reveal(spec_begin_failed_runtime_post);
                assert(spec_begin_failed_runtime_post(c, *old(runtime), *runtime, host0));
            }
            return Err(NewInterpreterError::InitializationFailed(InitPhase::PreInit));
        }
        if !runtime.core_initialize(host.core_init) {
            proof {
                lemma_add_assoc(log0, prelude, seq![EventV::PreInit]);
                assert(runtime.log@ =~= log0 + (prelude + seq![EventV::PreInit]));
                reveal(spec_begin_failed_runtime_post);
                assert(spec_begin_failed_runtime_post(c, *old(runtime), *runtime, host0));
            }
            return Err(NewInterpreterError::InitializationFailed(InitPhase::CoreInit));
        }
        let ghost log_b = log_a + seq![EventV::PreInit, EventV::CoreInit];
        assert(runtime.log@ =~= log_b);

        if self.config.oxidized_importer {
            match host.resources {
                Ok(state) => {
                    self.resources_state = Some(state);
                    runtime.register_importer();
                },
                Err(msg) => {
                    proof {
                        lemma_add_assoc(log0, prelude, seq![EventV::PreInit, EventV::CoreInit]);
                        assert(runtime.log@ == log0 + (prelude + seq![
                            EventV::PreInit,
                            EventV::CoreInit,
                        ]));
                        reveal(spec_begin_failed_runtime_post);
                        assert(spec_begin_failed_runtime_post(c, *old(runtime), *runtime, host0));
                    }
                    return Err(NewInterpreterError::ResourceBootstrapFailed(msg));
                },
            }
        }
        let ghost ox_seg = if c.oxidized_importer {
            seq![EventV::ImporterRegistered]
        } else {
            Seq::<EventV>::empty()
        };
        let ghost log_c = log_b + ox_seg;
        assert(runtime.log@ =~= log_c);

        if !runtime.main_initialize(host.main_init) {
            proof {
                let pc = seq![EventV::PreInit, EventV::CoreInit];
                lemma_add_assoc(log0, prelude, pc);
                lemma_add_assoc(log0, prelude + pc, ox_seg);
                assert(runtime.log@ == log0 + (prelude + pc + ox_seg));
                assert(runtime.meta_path@ =~= (if c.oxidized_importer {
                    seq![MetaPathEntry::Oxidized]
                } else {
                    Seq::<MetaPathEntry>::empty()
                }) + seq![MetaPathEntry::Builtin, MetaPathEntry::Frozen]);
                reveal(spec_begin_failed_runtime_post);
                assert(spec_begin_failed_runtime_post(c, *old(runtime), *runtime, host0));
            }
            return Err(NewInterpreterError::InitializationFailed(InitPhase::MainInit));
        }

        if !self.config.filesystem_importer {
            assert(runtime.meta_path@.last() is Filesystem);
            runtime.remove_filesystem_importer();
        }
        let ghost fs_seg = if !c.filesystem_importer {
            seq![EventV::FilesystemImporterRemoved]
        } else {
            Seq::<EventV>::empty()
        };
        let ghost log_d = log_c + seq![EventV::MainInit] + fs_seg;
        assert(runtime.log@ =~= log_d);
        assert(runtime.meta_path@ =~= crate::runtime::spec_expected_chain(
            c.oxidized_importer,
            c.filesystem_importer,
        ));

        self.gil = true;
        self.interpreter_state = InterpreterState::Initialized;

        self.push_sys_flags(runtime);
        proof {
            let e = env_seg;
            let i = seq![EventV::InittabInstalled];
            let a = alloc_seg;
            let pc = seq![EventV::PreInit, EventV::CoreInit];
            let m = seq![EventV::MainInit];
            let t = spec_sys_attr_events(c);
            assert(runtime.log@ == log_d + t);
            lemma_add_assoc(log0, e, i);
            lemma_add_assoc(log0, e + i, a);
            lemma_add_assoc(log0, e + i + a, pc);
            lemma_add_assoc(log0, e + i + a + pc, ox_seg);
            lemma_add_assoc(log0, e + i + a + pc + ox_seg, m);
            lemma_add_assoc(log0, e + i + a + pc + ox_seg + m, fs_seg);
            lemma_add_assoc(log0, e + i + a + pc + ox_seg + m + fs_seg, t);
            assert(spec_begin_events(c, host0.terminfo_dirs) == e + i + a + pc + ox_seg + m
                + fs_seg + t);
            assert(runtime.log@ == log0 + spec_begin_events(c, host0.terminfo_dirs));
            reveal(spec_begin_runtime_post);
            assert(spec_begin_runtime_post(c, *old(runtime), *runtime, host0));
        }

        Ok(())
    }

    /// Release the execution context, letting other logical threads of
    /// the process run managed code.
    pub fn release_gil(&mut self)
        ensures
            *final(self) == Self::spec_release_gil(*old(self)),
    {
        self.gil = false;
    }

    /// Acquire the execution context.  Outside the `Initialized` window
    /// this fails (`NotReady` before, `Finalized` after); when the
    /// context is already held it is returned without reacquiring; when
    /// released, exactly one blocking acquisition is made.
    pub fn acquire_gil(&mut self) -> (r: Result<(), NewInterpreterError>)
        requires
            old(self).gil_acquire_count < u64::MAX,
        ensures
            *final(self) == Self::spec_acquire_gil(*old(self)).0,
            r is Ok <==> Self::spec_acquire_gil(*old(self)).1,
            r is Err ==> r->Err_0 == (if old(self).interpreter_state is Finalized {
                NewInterpreterError::Finalized
            } else {
                NewInterpreterError::NotReady
            }),
    {
        match self.interpreter_state {
            InterpreterState::NotStarted | InterpreterState::Initializing => {
                return Err(NewInterpreterError::NotReady);
            },
            InterpreterState::Finalized => {
                return Err(NewInterpreterError::Finalized);
            },
            InterpreterState::Initialized => {},
        }
        if !self.gil {
            self.gil = true;
            self.gil_acquire_count = self.gil_acquire_count + 1;
        }
        Ok(())
    }

    /// Run the embedded application to completion and return its exit
    /// code.  Running finalizes the runtime as a side effect, so the
    /// instance moves to `Finalized` and the guard is released.
    pub fn py_runmain(
        &mut self,
        guard: &mut GuardState,
        runtime: &mut RuntimeModel,
        exit_code: i32,
    ) -> (r: i32)
        requires
            old(self).interpreter_state is Initialized,
            old(self).guard_inv(*old(guard)),
            old(runtime).finalize_count < u64::MAX,
        ensures
            r == exit_code,
            final(self).interpreter_state is Finalized,
            final(self).guard_token is None,
            final(self).resources_state is None,
            !final(self).gil,
            final(self).config == old(self).config,
            final(guard).holder is None,
            *final(runtime) == (RuntimeModel {
                phase: RuntimePhase::Down,
                meta_path: final(runtime).meta_path,
                loaded_modules: final(runtime).loaded_modules,
                sys_argvb: false,
                sys_oxidized: false,
                sys_frozen: false,
                sys_meipass: None,
                finalize_count: (old(runtime).finalize_count + 1) as u64,
                log: final(runtime).log,
                ..*old(runtime)
            }),
            final(runtime).meta_path@.len() == 0,
            final(runtime).loaded_modules@.len() == 0,
            final(runtime).log@ == old(runtime).log@.push(EventV::FinalizeCalled),
    {
        runtime.finalize();
        match self.guard_token {
            Some(t) => {
                guard.release(t);
            },
            None => {},
        }
        self.guard_token = None;
        self.interpreter_state = InterpreterState::Finalized;
        self.resources_state = None;
        self.gil = false;
        exit_code
    }

    /// Tear the lifecycle down: capture diagnostics when configured and
    /// possible, make the runtime teardown call exactly once — while the
    /// guard is still held; only then is the guard released — and leave
    /// the instance `Finalized`.  Runs on every exit path, explicit or
    /// implicit.  (The guard model carries no operation trace, so the
    /// finalize-before-release order is enforced by this body, not stated
    /// in the contract.)
    ///
    /// Diagnostics are captured only when the configuration names a
    /// diagnostics-directory variable, the host reports it set, and the
    /// instance is still `Initialized` (the execution context is then
    /// re-acquired).  The returned record is handed to the embedding
    /// shell to write; a failure to write it is swallowed there.
    pub fn run_teardown(
        &mut self,
        guard: &mut GuardState,
        runtime: &mut RuntimeModel,
        diagnostics_dir: Option<String>,
    ) -> (r: Option<DiagnosticsFile>)
        requires
            old(self).guard_inv(*old(guard)),
            old(self).gil_acquire_count < u64::MAX,
            old(runtime).finalize_count < u64::MAX,
        ensures
            final(self).interpreter_state is Finalized,
            final(self).guard_token is None,
            final(self).resources_state is None,
            !final(self).gil,
            final(self).config == old(self).config,
            old(self).live() ==> final(guard).holder is None,
            !old(self).live() ==> *final(guard) == *old(guard),
            *final(runtime) == (RuntimeModel {
                phase: RuntimePhase::Down,
                meta_path: final(runtime).meta_path,
                loaded_modules: final(runtime).loaded_modules,
                sys_argvb: false,
                sys_oxidized: false,
                sys_frozen: false,
                sys_meipass: None,
                finalize_count: (old(runtime).finalize_count + 1) as u64,
                log: final(runtime).log,
                ..*old(runtime)
            }),
            final(runtime).meta_path@.len() == 0,
            final(runtime).loaded_modules@.len() == 0,
            final(runtime).log@ == old(runtime).log@.push(EventV::FinalizeCalled),
            (r is Some <==> old(self).config.write_modules_directory_env is Some
                && diagnostics_dir is Some && old(self).interpreter_state is Initialized),
            r is Some ==> ({
                let rec = r->Some_0;
                &&& rec.directory == diagnostics_dir->Some_0
                &&& rec.file_name@.len() == 44
                &&& rec.file_name@.subrange(0, 8) == "modules-"@
                &&& rec.content@ == crate::diagnostics::render_lines(
                    crate::diagnostics::sort_unique(
                        crate::bytes::byte_views(old(runtime).loaded_modules@),
                    ),
                )
            }),
    {
        let mut record: Option<DiagnosticsFile> = None;
        let wants_diagnostics = self.config.write_modules_directory_env.is_some();
        if wants_diagnostics {
            match diagnostics_dir {
                Some(dir) => {
                    match self.interpreter_state {
                        InterpreterState::Initialized => {
                            let _ = self.acquire_gil();
                            record = Some(
                                crate::diagnostics::build_diagnostics_record(
                                    dir,
                                    &runtime.loaded_modules,
                                ),
                            );
                        },
                        _ => {},
                    }
                },
                None => {},
            }
        }

        runtime.finalize();

        match self.guard_token {
            Some(t) => {
                if self.is_live() {
                    guard.release(t);
                }
            },
            None => {},
        }
        self.guard_token = None;
        self.interpreter_state = InterpreterState::Finalized;
        self.resources_state = None;
        self.gil = false;
        record
    }

    /// Whether the instance is live (executable mirror of [`Self::live`]).
    pub fn is_live(&self) -> (r: bool)
        ensures
            r == self.live(),
    {
        match self.interpreter_state {
            InterpreterState::Initializing | InterpreterState::Initialized => true,
            _ => false,
        }
    }
}

/// Singleton law: two lifecycle instances observed against the same
/// process-wide guard can both be live only as the very same acquisition
/// of that guard.  Since `GuardState::acquire` demands the guard be free
/// and hands out a fresh token, at most one acquisition is outstanding at
/// any moment: a second construction cannot become live until the first
/// has torn down and released.
pub proof fn lemma_singleton_law(
    i1: MainPythonInterpreter,
    i2: MainPythonInterpreter,
    g: GuardState,
)
    requires
        i1.guard_inv(g),
        i2.guard_inv(g),
        i1.live(),
        i2.live(),
    ensures
        i1.guard_token == i2.guard_token,
{
}

/// Execution-context law: from the `Initialized` state, releasing and
/// re-acquiring the context twice in a row yields the context each time,
/// and each re-acquire makes exactly one blocking acquisition — there is
/// no double acquisition when nothing contends.
pub proof fn lemma_gil_reacquire_law(s: MainPythonInterpreter)
    requires
        s.interpreter_state is Initialized,
        s.gil_acquire_count + 2 <= u64::MAX,
    ensures
        ({
            let s1 = MainPythonInterpreter::spec_release_gil(s);
            let (s2, ok2) = MainPythonInterpreter::spec_acquire_gil(s1);
            let s3 = MainPythonInterpreter::spec_release_gil(s2);
            let (s4, ok4) = MainPythonInterpreter::spec_acquire_gil(s3);
            &&& ok2
            &&& ok4
            &&& s2.gil
            &&& s4.gil
            &&& s2.gil_acquire_count == s.gil_acquire_count + 1
            &&& s4.gil_acquire_count == s.gil_acquire_count + 2
        }),
{
}

/// Allocator-ordering law: in the trace of any successful bring-up under
/// a `DebugWrapped` backend, the debug hooks are installed exactly once,
/// strictly after the base allocator's function table and strictly before
/// first-phase (core) initialization begins.
#[verifier::rlimit(100)]
#[verifier::spinoff_prover]
pub proof fn lemma_debug_hooks_order_law(
    c: OxidizedPythonInterpreterConfig,
    terminfo: Option<String>,
    t: u64,
)
    requires
        c.raw_allocator == Some(AllocatorBackend::DebugWrapped(t)),
    ensures
        ({
            let s = spec_begin_events(c, terminfo);
            let e = spec_env_events(c, terminfo).len() as int;
            &&& s[e + 1] == EventV::AllocatorInstalled(t)
            &&& s[e + 2] == EventV::DebugHooksInstalled
            &&& s[e + 4] == EventV::CoreInit
            &&& forall|m: int|
                0 <= m < s.len() && s[m] == EventV::DebugHooksInstalled ==> m == e + 2
            &&& forall|m: int| 0 <= m < s.len() && s[m] == EventV::CoreInit ==> m == e + 4
        }),
{
    let s = spec_begin_events(c, terminfo);
    let env = spec_env_events(c, terminfo);
    let e = env.len() as int;
    assert(spec_alloc_events(c) == seq![
        EventV::AllocatorInstalled(t),
        EventV::DebugHooksInstalled,
    ]);
    assert(forall|m: int|
        0 <= m < env.len() ==> env[m] == EventV::EnvWrite(
            #[trigger] spec_env_write_pairs(c, terminfo)[m].0,
            spec_env_write_pairs(c, terminfo)[m].1,
        ));
    assert(s[e] == EventV::InittabInstalled);
    assert(s[e + 1] == EventV::AllocatorInstalled(t));
    assert(s[e + 2] == EventV::DebugHooksInstalled);
    assert(s[e + 3] == EventV::PreInit);
    assert(s[e + 4] == EventV::CoreInit);
    let tail = spec_sys_attr_events(c);
    assert forall|m: int|
        0 <= m < s.len() && (s[m] == EventV::DebugHooksInstalled || s[m]
            == EventV::CoreInit) implies (m == e + 2 || m == e + 4) by {
        if m < e {
            assert(s[m] == env[m]);
            assert(s[m] is EnvWrite);
        } else if m >= s.len() - tail.len() {
            let k = m - (s.len() - tail.len());
            assert(s[m] == tail[k]);
            assert(tail[k] is SysAttrSet) by {
                let pre: int = if c.argvb {
                    1int
                } else {
                    0int
                };
                assert(0 <= k < tail.len());
            }
        }
    }
}

/// The allocator-ordering law carried into an actual bring-up log: a
/// successful `begin` under a `DebugWrapped` backend leaves the log
/// `pre + spec_begin_events(c, terminfo)` (by its contract), and within
/// the appended suffix the debug-hooks install stands exactly once,
/// strictly after the base allocator install and strictly before
/// core-init.
#[verifier::rlimit(100)]
#[verifier::spinoff_prover]
pub proof fn lemma_debug_hooks_order_in_log(
    c: OxidizedPythonInterpreterConfig,
    terminfo: Option<String>,
    t: u64,
    pre: Seq<EventV>,
)
    requires
        c.raw_allocator == Some(AllocatorBackend::DebugWrapped(t)),
    ensures
        ({
            let s = pre + spec_begin_events(c, terminfo);
            let e = pre.len() as int + spec_env_events(c, terminfo).len() as int;
            &&& s[e + 1] == EventV::AllocatorInstalled(t)
            &&& s[e + 2] == EventV::DebugHooksInstalled
            &&& s[e + 4] == EventV::CoreInit
            &&& forall|m: int|
                pre.len() <= m < s.len() && s[m] == EventV::DebugHooksInstalled ==> m == e + 2
            &&& forall|m: int|
                pre.len() <= m < s.len() && s[m] == EventV::CoreInit ==> m == e + 4
        }),
{
    lemma_debug_hooks_order_law(c, terminfo, t);
    let b = spec_begin_events(c, terminfo);
    let s = pre + b;
    let e0 = spec_env_events(c, terminfo).len() as int;
    let e = pre.len() as int + e0;
    assert forall|j: int| 0 <= j < b.len() implies s[pre.len() + j] == b[j] by {}
    assert(s[e + 1] == b[e0 + 1]);
    assert(s[e + 2] == b[e0 + 2]);
    assert(s[e + 4] == b[e0 + 4]);
    assert forall|m: int|
        pre.len() <= m < s.len() && (s[m] == EventV::DebugHooksInstalled || s[m]
            == EventV::CoreInit) implies (m == e + 2 || m == e + 4) by {
        assert(s[m] == b[m - pre.len()]);
    }
}

} // verus!
