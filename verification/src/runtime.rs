//! Observable model of the embedded runtime's process-wide state.
//!
//! The runtime itself is foreign code; what this crate verifies is the
//! order and effect of every operation the lifecycle performs against it.
//! The model tracks the bring-up phase, the installed allocator and debug
//! hooks, the shadow import table, the module-resolution chain, the
//! runtime-global flags pushed after bring-up, and a ghost log of every
//! operation in order.  Phase preconditions on the operations enforce the
//! load-bearing ordering structurally: an allocator cannot be installed
//! once bring-up has begun, the custom loader can be registered only
//! between the two bring-up phases, and so on.

use vstd::prelude::*;

use crate::bytes::byte_views;
use crate::config::OxidizedPythonInterpreterConfig;
use crate::inittab::InittabState;

verus! {

/// Bring-up phase of the runtime.
#[derive(Clone, Copy, Debug, PartialEq, Eq, Structural)]
pub enum RuntimePhase {
    /// Nothing initialized yet.
    Down,
    /// Pre-initialization has run.
    PreInitialized,
    /// First-phase (core) initialization has run; the bootstrap module
    /// system is live, the default filesystem loader is not yet.
    CoreInitialized,
    /// Second-phase (main) initialization has run; the runtime is fully
    /// up.
    MainInitialized,
}

/// One member of the module-resolution chain, consulted front to back.
#[derive(Clone, Copy, Debug, PartialEq, Eq, Structural)]
pub enum MetaPathEntry {
    /// The custom resource-backed loader.
    Oxidized,
    /// The runtime's built-in-module importer.
    Builtin,
    /// The runtime's frozen-module importer.
    Frozen,
    /// The runtime's default filesystem importer.
    Filesystem,
}

/// One recorded runtime operation (ghost; the log exists for the
/// contracts' sake).
pub enum EventV {
    /// An environment variable was written.
    EnvWrite(Seq<char>, Seq<char>),
    /// A rebuilt shadow import table was installed.
    InittabInstalled,
    /// The raw-allocator function table with this handle was installed.
    AllocatorInstalled(u64),
    /// Debug instrumentation hooks were installed over the allocator.
    DebugHooksInstalled,
    /// Pre-initialization ran successfully.
    PreInit,
    /// First-phase initialization ran successfully.
    CoreInit,
    /// The custom resource-backed loader was registered.
    ImporterRegistered,
    /// Second-phase initialization ran successfully.
    MainInit,
    /// The default filesystem importer was removed from the chain.
    FilesystemImporterRemoved,
    /// A runtime-global flag with this name was set.
    SysAttrSet(Seq<char>),
    /// The runtime teardown call was made.
    FinalizeCalled,
}

/// Result of one runtime bring-up call, as reported by the runtime: either
/// success or an exceptional status.
#[derive(Clone, Copy, Debug, PartialEq, Eq, Structural)]
pub struct PyStatus {
    /// True when the call reported an exceptional status.
    pub exception: bool,
}

/// Module sets the runtime's own importers can serve, as the host knows
/// them.
#[derive(Debug)]
pub struct HostModules {
    /// Modules compiled into the runtime.
    pub builtin: Vec<Vec<u8>>,
    /// Modules frozen into the runtime.
    pub frozen: Vec<Vec<u8>>,
    /// Modules reachable through the filesystem importer.
    pub filesystem: Vec<Vec<u8>>,
}

/// The process-wide runtime state, as far as the lifecycle reads or
/// writes it.
pub struct RuntimeModel {
    /// Current bring-up phase.
    pub phase: RuntimePhase,
    /// Shadow import-table state.
    pub inittab: InittabState,
    /// Handle of the installed raw-allocator function table, if any.
    pub allocator: Option<u64>,
    /// Whether debug instrumentation hooks are installed.
    pub debug_hooks: bool,
    /// How often an allocator function table has been installed.
    pub allocator_install_count: u64,
    /// How often debug hooks have been installed.
    pub debug_hooks_install_count: u64,
    /// The module-resolution chain, consulted front to back.
    pub meta_path: Vec<MetaPathEntry>,
    /// Environment writes performed on the runtime's behalf, in order;
    /// the embedding shell applies them to the real environment.
    pub env_writes: Vec<(String, String)>,
    /// Names of the modules the runtime has loaded so far.
    pub loaded_modules: Vec<Vec<u8>>,
    /// Whether the `argvb` flag was pushed into runtime-global state.
    pub sys_argvb: bool,
    /// Whether the embedded-mode sentinel was pushed.
    pub sys_oxidized: bool,
    /// Whether the frozen-application flag was pushed.
    pub sys_frozen: bool,
    /// The origin path exposed under its legacy-compatible name, if
    /// pushed.
    pub sys_meipass: Option<String>,
    /// How often the runtime teardown call has been made.
    pub finalize_count: u64,
    /// Ghost log of every operation, in order.
    pub log: Ghost<Seq<EventV>>,
}

/// Whether an entry of the resolution chain can serve a module name.
pub open spec fn entry_serves(
    e: MetaPathEntry,
    resources: Seq<Seq<u8>>,
    host: HostModules,
    name: Seq<u8>,
) -> bool {
    match e {
        MetaPathEntry::Oxidized => resources.contains(name),
        MetaPathEntry::Builtin => byte_views(host.builtin@).contains(name),
        MetaPathEntry::Frozen => byte_views(host.frozen@).contains(name),
        MetaPathEntry::Filesystem => byte_views(host.filesystem@).contains(name),
    }
}

/// The resolution chain after a full bring-up: the custom loader first
/// when enabled, then the runtime's own importers, then the filesystem
/// importer when kept.
pub open spec fn spec_expected_chain(oxidized: bool, filesystem: bool) -> Seq<MetaPathEntry> {
    (if oxidized {
        seq![MetaPathEntry::Oxidized]
    } else {
        Seq::<MetaPathEntry>::empty()
    }) + seq![MetaPathEntry::Builtin, MetaPathEntry::Frozen] + (if filesystem {
        seq![MetaPathEntry::Filesystem]
    } else {
        Seq::<MetaPathEntry>::empty()
    })
}

impl RuntimeModel {
    /// A runtime that has never been touched.
    pub fn new() -> (r: RuntimeModel)
        ensures
            r.phase is Down,
            r.inittab.canonical is None,
            r.inittab.install_count == 0,
            r.allocator is None,
            !r.debug_hooks,
            r.allocator_install_count == 0,
            r.debug_hooks_install_count == 0,
            r.meta_path@.len() == 0,
            r.env_writes@.len() == 0,
            r.loaded_modules@.len() == 0,
            !r.sys_argvb,
            !r.sys_oxidized,
            !r.sys_frozen,
            r.sys_meipass is None,
            r.finalize_count == 0,
            r.log@ =~= Seq::<EventV>::empty(),
    {
        RuntimeModel {
            phase: RuntimePhase::Down,
            inittab: InittabState::new(),
            allocator: None,
            debug_hooks: false,
            allocator_install_count: 0,
            debug_hooks_install_count: 0,
            meta_path: Vec::new(),
            env_writes: Vec::new(),
            loaded_modules: Vec::new(),
            sys_argvb: false,
            sys_oxidized: false,
            sys_frozen: false,
            sys_meipass: None,
            finalize_count: 0,
            log: Ghost(Seq::empty()),
        }
    }

    /// Write an environment variable on the runtime's behalf.  Environment
    /// setup happens strictly before bring-up.
    pub fn write_env(&mut self, name: String, value: String)
        requires
            old(self).phase is Down,
        ensures
            *final(self) == (RuntimeModel {
                env_writes: final(self).env_writes,
                log: final(self).log,
                ..*old(self)
            }),
            final(self).env_writes@ == old(self).env_writes@.push((name, value)),
            final(self).log@ == old(self).log@.push(EventV::EnvWrite(name@, value@)),
    {
        let ghost n = name@;
        let ghost v = value@;
        self.env_writes.push((name, value));
        proof {
            self.log@ = self.log@.push(EventV::EnvWrite(n, v));
        }
    }

    /// Rebuild and install the shadow import table (see
    /// `crate::inittab`).  Must happen before bring-up starts.
    pub fn install_inittab(
        &mut self,
        config: &OxidizedPythonInterpreterConfig,
        runtime_builtin: &Vec<crate::inittab::InittabEntry>,
    )
        requires
            old(self).phase is Down,
            old(self).inittab.install_count < u64::MAX,
        ensures
            *final(self) == (RuntimeModel {
                inittab: final(self).inittab,
                log: final(self).log,
                ..*old(self)
            }),
            final(self).inittab.canonical is Some,
            old(self).inittab.canonical is Some ==> final(self).inittab.canonical == old(
                self,
            ).inittab.canonical,
            old(self).inittab.canonical is None ==> crate::inittab::table_view(
                final(self).inittab.canonical->Some_0@,
            ) == crate::inittab::table_view(runtime_builtin@),
            crate::inittab::table_view(final(self).inittab.active@) == crate::inittab::spec_rebuilt(
                crate::inittab::table_view(final(self).inittab.canonical->Some_0@),
                config.oxidized_importer,
                crate::inittab::extras_view(config.extra_extension_modules@),
            ),
            final(self).inittab.install_count == old(self).inittab.install_count + 1,
            final(self).log@ == old(self).log@.push(EventV::InittabInstalled),
    {
        crate::inittab::set_pyimport_inittab(&mut self.inittab, config, runtime_builtin);
        proof {
            self.log@ = self.log@.push(EventV::InittabInstalled);
        }
    }

    /// Install a raw-allocator function table.  Structurally confined to
    /// the window before bring-up: once pre-initialization has run, no
    /// allocator can be installed any more.
    pub fn install_allocator(&mut self, table: u64)
        requires
            old(self).phase is Down,
            old(self).allocator_install_count < u64::MAX,
        ensures
            *final(self) == (RuntimeModel {
                allocator: Some(table),
                allocator_install_count: (old(self).allocator_install_count + 1) as u64,
                log: final(self).log,
                ..*old(self)
            }),
            final(self).log@ == old(self).log@.push(EventV::AllocatorInstalled(table)),
    {
        self.allocator = Some(table);
        self.allocator_install_count = self.allocator_install_count + 1;
        proof {
            self.log@ = self.log@.push(EventV::AllocatorInstalled(table));
        }
    }

    /// Install debug instrumentation hooks.  Requires a base allocator to
    /// be installed already, and the bring-up not to have started:
    /// "strictly after the base allocator, strictly before core-init".
    pub fn install_debug_hooks(&mut self)
        requires
            old(self).phase is Down,
            old(self).allocator is Some,
            old(self).debug_hooks_install_count < u64::MAX,
        ensures
            *final(self) == (RuntimeModel {
                debug_hooks: true,
                debug_hooks_install_count: (old(self).debug_hooks_install_count + 1) as u64,
                log: final(self).log,
                ..*old(self)
            }),
            final(self).log@ == old(self).log@.push(EventV::DebugHooksInstalled),
    {
        self.debug_hooks = true;
        self.debug_hooks_install_count = self.debug_hooks_install_count + 1;
        proof {
            self.log@ = self.log@.push(EventV::DebugHooksInstalled);
        }
    }

    /// Pre-initialize the runtime.  The status is what the runtime
    /// reported; on an exceptional status nothing advances.
    pub fn pre_initialize(&mut self, status: PyStatus) -> (ok: bool)
        requires
            old(self).phase is Down,
        ensures
            ok == !status.exception,
            status.exception ==> *final(self) == *old(self),
            !status.exception ==> *final(self) == (RuntimeModel {
                phase: RuntimePhase::PreInitialized,
                log: final(self).log,
                ..*old(self)
            }),
            !status.exception ==> final(self).log@ == old(self).log@.push(EventV::PreInit),
    {
        if status.exception {
            false
        } else {
            self.phase = RuntimePhase::PreInitialized;
            proof {
                self.log@ = self.log@.push(EventV::PreInit);
            }
            true
        }
    }

    /// First-phase (core) initialization.  On success the bootstrap
    /// module system is live: the chain holds the runtime's built-in and
    /// frozen importers, nothing else yet.
    pub fn core_initialize(&mut self, status: PyStatus) -> (ok: bool)
        requires
            old(self).phase is PreInitialized,
        ensures
            ok == !status.exception,
            status.exception ==> *final(self) == *old(self),
            !status.exception ==> *final(self) == (RuntimeModel {
                phase: RuntimePhase::CoreInitialized,
                meta_path: final(self).meta_path,
                log: final(self).log,
                ..*old(self)
            }),
            !status.exception ==> final(self).meta_path@ == seq![
                MetaPathEntry::Builtin,
                MetaPathEntry::Frozen,
            ],
            !status.exception ==> final(self).log@ == old(self).log@.push(EventV::CoreInit),
    {
        if status.exception {
            false
        } else {
            self.phase = RuntimePhase::CoreInitialized;
            let mut chain: Vec<MetaPathEntry> = Vec::new();
            chain.push(MetaPathEntry::Builtin);
            chain.push(MetaPathEntry::Frozen);
            assert(chain@ =~= seq![MetaPathEntry::Builtin, MetaPathEntry::Frozen]);
            self.meta_path = chain;
            proof {
                self.log@ = self.log@.push(EventV::CoreInit);
            }
            true
        }
    }

    /// Register the custom resource-backed loader at the front of the
    /// resolution chain.  Structurally confined to the window between the
    /// two bring-up phases.
    pub fn register_importer(&mut self)
        requires
            old(self).phase is CoreInitialized,
        ensures
            *final(self) == (RuntimeModel {
                meta_path: final(self).meta_path,
                log: final(self).log,
                ..*old(self)
            }),
            final(self).meta_path@ == seq![MetaPathEntry::Oxidized] + old(self).meta_path@,
            final(self).log@ == old(self).log@.push(EventV::ImporterRegistered),
    {
        self.meta_path.insert(0, MetaPathEntry::Oxidized);
        assert(self.meta_path@ =~= seq![MetaPathEntry::Oxidized] + old(self).meta_path@);
        proof {
            self.log@ = self.log@.push(EventV::ImporterRegistered);
        }
    }

    /// Second-phase (main) initialization.  On success the runtime always
    /// appends its default filesystem importer to the chain; there is no
    /// flag to suppress that.
    pub fn main_initialize(&mut self, status: PyStatus) -> (ok: bool)
        requires
            old(self).phase is CoreInitialized,
        ensures
            ok == !status.exception,
            status.exception ==> *final(self) == *old(self),
            !status.exception ==> *final(self) == (RuntimeModel {
                phase: RuntimePhase::MainInitialized,
                meta_path: final(self).meta_path,
                log: final(self).log,
                ..*old(self)
            }),
            !status.exception ==> final(self).meta_path@ == old(self).meta_path@.push(
                MetaPathEntry::Filesystem,
            ),
            !status.exception ==> final(self).log@ == old(self).log@.push(EventV::MainInit),
    {
        if status.exception {
            false
        } else {
            self.phase = RuntimePhase::MainInitialized;
            self.meta_path.push(MetaPathEntry::Filesystem);
            proof {
                self.log@ = self.log@.push(EventV::MainInit);
            }
            true
        }
    }

    /// Remove the default filesystem importer, which second-phase
    /// bring-up installed at the back of the chain.
    pub fn remove_filesystem_importer(&mut self)
        requires
            old(self).phase is MainInitialized,
            old(self).meta_path@.len() > 0,
            old(self).meta_path@.last() is Filesystem,
        ensures
            *final(self) == (RuntimeModel {
                meta_path: final(self).meta_path,
                log: final(self).log,
                ..*old(self)
            }),
            final(self).meta_path@ == old(self).meta_path@.drop_last(),
            final(self).log@ == old(self).log@.push(EventV::FilesystemImporterRemoved),
    {
        let _ = self.meta_path.pop();
        proof {
            self.log@ = self.log@.push(EventV::FilesystemImporterRemoved);
        }
    }

    /// Push the raw byte-string argv into runtime-global state.
    pub fn set_sys_argvb(&mut self)
        requires
            old(self).phase is MainInitialized,
        ensures
            *final(self) == (RuntimeModel { sys_argvb: true, log: final(self).log, ..*old(self) }),
            final(self).log@ == old(self).log@.push(EventV::SysAttrSet("argvb"@)),
    {
        self.sys_argvb = true;
        proof {
            self.log@ = self.log@.push(EventV::SysAttrSet("argvb"@));
        }
    }

    /// Push the embedded-mode sentinel into runtime-global state.
    pub fn set_sys_oxidized(&mut self)
        requires
            old(self).phase is MainInitialized,
        ensures
            *final(self) == (RuntimeModel { sys_oxidized: true, log: final(self).log, ..*old(self) }),
            final(self).log@ == old(self).log@.push(EventV::SysAttrSet("oxidized"@)),
    {
        self.sys_oxidized = true;
        proof {
            self.log@ = self.log@.push(EventV::SysAttrSet("oxidized"@));
        }
    }

    /// Push the frozen-application flag into runtime-global state.
    pub fn set_sys_frozen(&mut self)
        requires
            old(self).phase is MainInitialized,
        ensures
            *final(self) == (RuntimeModel { sys_frozen: true, log: final(self).log, ..*old(self) }),
            final(self).log@ == old(self).log@.push(EventV::SysAttrSet("frozen"@)),
    {
        self.sys_frozen = true;
        proof {
            self.log@ = self.log@.push(EventV::SysAttrSet("frozen"@));
        }
    }

    /// Expose the origin path under its legacy-compatible name.
    pub fn set_sys_meipass(&mut self, origin: String)
        requires
            old(self).phase is MainInitialized,
        ensures
            *final(self) == (RuntimeModel {
                sys_meipass: Some(origin),
                log: final(self).log,
                ..*old(self)
            }),
            final(self).log@ == old(self).log@.push(EventV::SysAttrSet("_MEIPASS"@)),
    {
        self.sys_meipass = Some(origin);
        proof {
            self.log@ = self.log@.push(EventV::SysAttrSet("_MEIPASS"@));
        }
    }

    /// Record that the runtime loaded a module.
    pub fn note_module_loaded(&mut self, name: Vec<u8>)
        requires
            old(self).phase is MainInitialized,
        ensures
            *final(self) == (RuntimeModel {
                loaded_modules: final(self).loaded_modules,
                ..*old(self)
            }),
            final(self).loaded_modules@ == old(self).loaded_modules@.push(name),
    {
        self.loaded_modules.push(name);
    }

    /// Make the runtime teardown call.  It is attempted exactly once per
    /// lifecycle, whatever state the instance was left in.  Teardown
    /// destroys the interpreter's own state — the resolution chain, the
    /// loaded modules, the runtime-global flags — and returns the model
    /// to `Down`, so that a later lifecycle instance may bring the
    /// runtime up again in the same process.  Process-global
    /// installations (the allocator, the shadow table, the recorded
    /// environment writes) persist across teardowns.
    pub fn finalize(&mut self)
        requires
            old(self).finalize_count < u64::MAX,
        ensures
            *final(self) == (RuntimeModel {
                phase: RuntimePhase::Down,
                meta_path: final(self).meta_path,
                loaded_modules: final(self).loaded_modules,
                sys_argvb: false,
                sys_oxidized: false,
                sys_frozen: false,
                sys_meipass: None,
                finalize_count: (old(self).finalize_count + 1) as u64,
                log: final(self).log,
                ..*old(self)
            }),
            final(self).meta_path@.len() == 0,
            final(self).loaded_modules@.len() == 0,
            final(self).log@ == old(self).log@.push(EventV::FinalizeCalled),
    {
        self.phase = RuntimePhase::Down;
        self.meta_path = Vec::new();
        self.loaded_modules = Vec::new();
        self.sys_argvb = false;
        self.sys_oxidized = false;
        self.sys_frozen = false;
        self.sys_meipass = None;
        self.finalize_count = self.finalize_count + 1;
        proof {
            self.log@ = self.log@.push(EventV::FinalizeCalled);
        }
    }
}

/// Whether `list` holds `name`.
pub fn contains_name(list: &Vec<Vec<u8>>, name: &Vec<u8>) -> (r: bool)
    ensures
        r == byte_views(list@).contains(name@),
{
    let mut i: usize = 0;
    while i < list.len()
        invariant
            i <= list@.len(),
            forall|k: int| 0 <= k < i ==> byte_views(list@)[k] != name@,
        decreases list@.len() - i,
    {
        assert(byte_views(list@)[i as int] == list@[i as int]@);
        if crate::bytes::bytes_eq(&list[i], name) {
            assert(byte_views(list@).contains(name@)) by {
                assert(byte_views(list@)[i as int] == name@);
            }
            return true;
        }
        i = i + 1;
    }
    proof {
        if byte_views(list@).contains(name@) {
            let k = choose|k: int|
                0 <= k < byte_views(list@).len() && byte_views(list@)[k] == name@;
        }
    }
    false
}

/// Resolve a module name against the resolution chain: the first entry
/// that can serve the name wins.  Returns the index of the serving entry.
pub fn resolve_module(
    chain: &Vec<MetaPathEntry>,
    resources: &crate::resources::PythonResourcesState,
    host: &HostModules,
    name: &Vec<u8>,
) -> (r: Option<usize>)
    ensures
        match r {
            Some(i) => {
                &&& i < chain@.len()
                &&& entry_serves(chain@[i as int], resources.names(), *host, name@)
                &&& forall|j: int|
                    0 <= j < i ==> !entry_serves(chain@[j], resources.names(), *host, name@)
            },
            None => forall|j: int|
                0 <= j < chain@.len() ==> !entry_serves(
                    chain@[j],
                    resources.names(),
                    *host,
                    name@,
                ),
        },
{
    let mut i: usize = 0;
    while i < chain.len()
        invariant
            i <= chain@.len(),
            forall|j: int| 0 <= j < i ==> !entry_serves(chain@[j], resources.names(), *host, name@),
        decreases chain@.len() - i,
    {
        let serves = match chain[i] {
            MetaPathEntry::Oxidized => contains_name(&resources.module_names, name),
            MetaPathEntry::Builtin => contains_name(&host.builtin, name),
            MetaPathEntry::Frozen => contains_name(&host.frozen, name),
            MetaPathEntry::Filesystem => contains_name(&host.filesystem, name),
        };
        if serves {
            return Some(i);
        }
        i = i + 1;
    }
    None
}

/// Law of the resolution chain: with the custom loader enabled it stands
/// first, so a module present in the packed-resource set is served by it
/// whether or not the filesystem importer is present; and disabling the
/// filesystem importer shortens the chain by exactly one entry.
pub proof fn lemma_loader_chain_law(
    resources: Seq<Seq<u8>>,
    host: HostModules,
    name: Seq<u8>,
    filesystem: bool,
)
    ensures
        spec_expected_chain(true, true).len() == spec_expected_chain(true, false).len() + 1,
        spec_expected_chain(false, true).len() == spec_expected_chain(false, false).len() + 1,
        spec_expected_chain(true, filesystem)[0] is Oxidized,
        resources.contains(name) ==> entry_serves(
            spec_expected_chain(true, filesystem)[0],
            resources,
            host,
            name,
        ),
{
    assert(spec_expected_chain(true, filesystem)[0] == MetaPathEntry::Oxidized);
}

} // verus!
