//! Scenario tests of the interpreter lifecycle: singleton discipline,
//! idempotent bring-up, terminal finalization, shadow-table preservation,
//! loader-chain shape, diagnostics content, allocator ordering effects,
//! and execution-context reacquisition.

use pyembed::config::{
    AllocatorBackend, ExtensionModule, OxidizedPythonInterpreterConfig, TerminfoResolution,
};
use pyembed::errors::{InitPhase, NewInterpreterError};
use pyembed::guard::GuardState;
use pyembed::inittab::InittabEntry;
use pyembed::lifecycle::{HostInputs, InterpreterState, MainPythonInterpreter};
use pyembed::resources::PythonResourcesState;
use pyembed::runtime::{resolve_module, HostModules, MetaPathEntry, PyStatus, RuntimeModel};

fn base_config() -> OxidizedPythonInterpreterConfig {
    OxidizedPythonInterpreterConfig {
        origin: "/opt/app".to_string(),
        terminfo_resolution: TerminfoResolution::Untouched,
        tcl_library: None,
        raw_allocator: None,
        oxidized_importer: true,
        filesystem_importer: true,
        packed_resources: vec![1, 2, 3],
        extra_extension_modules: vec![],
        argvb: false,
        sys_frozen: false,
        sys_meipass: false,
        write_modules_directory_env: None,
    }
}

fn ok_host() -> HostInputs {
    HostInputs {
        terminfo_dirs: None,
        builtin_inittab: vec![
            InittabEntry { name: b"_imp".to_vec(), init_func: 11 },
            InittabEntry { name: b"sys".to_vec(), init_func: 12 },
        ],
        pre_init: PyStatus { exception: false },
        core_init: PyStatus { exception: false },
        main_init: PyStatus { exception: false },
        resources: Ok(PythonResourcesState {
            module_names: vec![b"embedded_mod".to_vec()],
        }),
    }
}

#[test]
fn test_new_initializes_and_holds_guard() {
    let mut guard = GuardState::new();
    let mut runtime = RuntimeModel::new();
    let inst = MainPythonInterpreter::new(base_config(), &mut guard, &mut runtime, ok_host())
        .expect("bring-up");
    assert!(matches!(inst.interpreter_state, InterpreterState::Initialized));
    assert!(inst.gil);
    assert!(guard.holder.is_some());
    assert_eq!(
        runtime.meta_path,
        vec![
            MetaPathEntry::Oxidized,
            MetaPathEntry::Builtin,
            MetaPathEntry::Frozen,
            MetaPathEntry::Filesystem,
        ]
    );
    assert!(runtime.sys_oxidized);
    assert!(!runtime.sys_frozen);
}

#[test]
fn test_singleton_guard_held_while_live_and_free_after_teardown() {
    let mut guard = GuardState::new();
    let mut runtime = RuntimeModel::new();
    let mut inst = MainPythonInterpreter::new(base_config(), &mut guard, &mut runtime, ok_host())
        .expect("bring-up");
    // While the first lifecycle is live, the process-wide guard is
    // occupied: a second construction has to wait for it.
    assert!(guard.holder.is_some());
    let token_first = guard.holder;
    let _ = inst.run_teardown(&mut guard, &mut runtime, None);
    // Only after full teardown is the guard free for a later acquisition,
    // which receives a fresh token.
    assert!(guard.holder.is_none());
    let token_second = guard.acquire().expect("guard is free again");
    assert_ne!(Some(token_second), token_first);
}

#[test]
fn test_begin_is_idempotent_once_initialized() {
    let mut guard = GuardState::new();
    let mut runtime = RuntimeModel::new();
    let mut inst = MainPythonInterpreter::new(base_config(), &mut guard, &mut runtime, ok_host())
        .expect("bring-up");
    assert_eq!(runtime.allocator_install_count, 0);
    assert_eq!(runtime.inittab.install_count, 1);
    let log_before = runtime.env_writes.len();

    // A second begin is a success without redoing any work: no second
    // shadow-table install, no environment write, nothing.
    inst.begin(&mut guard, &mut runtime, ok_host()).expect("idempotent");
    assert_eq!(runtime.inittab.install_count, 1);
    assert_eq!(runtime.allocator_install_count, 0);
    assert_eq!(runtime.env_writes.len(), log_before);
    assert!(matches!(inst.interpreter_state, InterpreterState::Initialized));
}

#[test]
fn test_begin_after_finalize_fails() {
    let mut guard = GuardState::new();
    let mut runtime = RuntimeModel::new();
    let mut inst = MainPythonInterpreter::new(base_config(), &mut guard, &mut runtime, ok_host())
        .expect("bring-up");
    let _ = inst.run_teardown(&mut guard, &mut runtime, None);
    assert!(matches!(inst.interpreter_state, InterpreterState::Finalized));
    let err = inst.begin(&mut guard, &mut runtime, ok_host()).expect_err("cannot restart");
    assert_eq!(err, NewInterpreterError::Finalized);
    assert!(matches!(inst.interpreter_state, InterpreterState::Finalized));
}

#[test]
fn test_poisoned_guard_never_starts() {
    let mut guard = GuardState::new();
    guard.poisoned = true;
    let mut runtime = RuntimeModel::new();
    let err = MainPythonInterpreter::new(base_config(), &mut guard, &mut runtime, ok_host())
        .expect_err("poisoned guard");
    assert_eq!(err, NewInterpreterError::LockPoisoned);
}

#[test]
fn test_reentrant_begin_is_rejected() {
    let mut guard = GuardState::new();
    let mut runtime = RuntimeModel::new();
    let mut inst = MainPythonInterpreter {
        config: base_config(),
        interpreter_state: InterpreterState::Initializing,
        guard_token: Some(0),
        raw_allocator: None,
        gil: false,
        gil_acquire_count: 0,
        resources_state: None,
    };
    let err = inst.begin(&mut guard, &mut runtime, ok_host()).expect_err("reentrant begin");
    assert_eq!(err, NewInterpreterError::AlreadyInitializing);
    assert!(matches!(inst.interpreter_state, InterpreterState::Initializing));
}

#[test]
fn test_failed_pre_init_reports_phase() {
    let mut guard = GuardState::new();
    let mut runtime = RuntimeModel::new();
    let mut host = ok_host();
    host.pre_init = PyStatus { exception: true };
    let err = MainPythonInterpreter::new(base_config(), &mut guard, &mut runtime, host)
        .expect_err("pre init failure");
    assert_eq!(err, NewInterpreterError::InitializationFailed(InitPhase::PreInit));
}

#[test]
fn test_failed_main_init_reports_phase() {
    let mut guard = GuardState::new();
    let mut runtime = RuntimeModel::new();
    let mut host = ok_host();
    host.main_init = PyStatus { exception: true };
    let err = MainPythonInterpreter::new(base_config(), &mut guard, &mut runtime, host)
        .expect_err("main init failure");
    assert_eq!(err, NewInterpreterError::InitializationFailed(InitPhase::MainInit));
}

#[test]
fn test_failed_core_init_is_terminal() {
    let mut guard = GuardState::new();
    let mut runtime = RuntimeModel::new();
    let mut host = ok_host();
    host.core_init = PyStatus { exception: true };
    let err = MainPythonInterpreter::new(base_config(), &mut guard, &mut runtime, host)
        .expect_err("core init failure");
    assert_eq!(err, NewInterpreterError::InitializationFailed(InitPhase::CoreInit));
    // The failed instance was discarded; its teardown released the guard.
    assert!(guard.holder.is_none());
}

#[test]
fn test_resource_bootstrap_failure() {
    let mut guard = GuardState::new();
    let mut runtime = RuntimeModel::new();
    let mut host = ok_host();
    host.resources = Err("bad resources blob".to_string());
    let err = MainPythonInterpreter::new(base_config(), &mut guard, &mut runtime, host)
        .expect_err("resource decode failure");
    assert_eq!(
        err,
        NewInterpreterError::ResourceBootstrapFailed("bad resources blob".to_string())
    );
}

#[test]
fn test_shadow_table_preserved_across_rebuilds() {
    let mut guard = GuardState::new();
    let mut runtime = RuntimeModel::new();

    for round in 0..3u64 {
        let mut config = base_config();
        config.extra_extension_modules = vec![ExtensionModule {
            name: format!("extra{}", round).into_bytes(),
            init_func: 100 + round,
        }];
        let mut inst =
            MainPythonInterpreter::new(config, &mut guard, &mut runtime, ok_host())
                .expect("bring-up");

        // The canonical snapshot's entries always stand at the front of
        // the installed table, and the table is sentinel-terminated.
        let active = &runtime.inittab.active;
        assert_eq!(active[0].name, b"_imp".to_vec());
        assert_eq!(active[0].init_func, 11);
        assert_eq!(active[1].name, b"sys".to_vec());
        assert_eq!(active[1].init_func, 12);
        let last = active.last().unwrap();
        assert!(last.name.is_empty());
        assert_eq!(last.init_func, 0);

        let _ = inst.run_teardown(&mut guard, &mut runtime, None);
    }
    assert_eq!(runtime.inittab.install_count, 3);
    assert!(runtime.inittab.canonical.is_some());
}

#[test]
fn test_second_lifecycle_after_full_teardown() {
    let mut guard = GuardState::new();
    let mut runtime = RuntimeModel::new();

    let mut first = MainPythonInterpreter::new(base_config(), &mut guard, &mut runtime, ok_host())
        .expect("first bring-up");
    let _ = first.run_teardown(&mut guard, &mut runtime, None);
    assert!(guard.holder.is_none());
    assert_eq!(runtime.finalize_count, 1);

    // After full teardown a second lifecycle instance can be constructed
    // and brought up in the same process; the canonical shadow-table
    // snapshot from the first bring-up is reused, not re-captured.
    let mut host2 = ok_host();
    host2.builtin_inittab = vec![InittabEntry { name: b"other".to_vec(), init_func: 99 }];
    let second = MainPythonInterpreter::new(base_config(), &mut guard, &mut runtime, host2)
        .expect("second bring-up");
    assert!(matches!(second.interpreter_state, InterpreterState::Initialized));
    assert!(guard.holder.is_some());
    assert_eq!(runtime.inittab.install_count, 2);
    assert_eq!(runtime.inittab.active[0].name, b"_imp".to_vec());
    assert_eq!(runtime.inittab.active[1].name, b"sys".to_vec());
}

#[test]
fn test_resolution_chain_with_and_without_filesystem() {
    // With the filesystem importer kept.
    let mut guard = GuardState::new();
    let mut runtime = RuntimeModel::new();
    let inst = MainPythonInterpreter::new(base_config(), &mut guard, &mut runtime, ok_host())
        .expect("bring-up");
    let chain_with = runtime.meta_path.clone();

    // Without it: the chain is exactly one entry shorter.
    let mut guard2 = GuardState::new();
    let mut runtime2 = RuntimeModel::new();
    let mut config = base_config();
    config.filesystem_importer = false;
    let inst2 = MainPythonInterpreter::new(config, &mut guard2, &mut runtime2, ok_host())
        .expect("bring-up");
    let chain_without = runtime2.meta_path.clone();
    assert_eq!(chain_with.len(), chain_without.len() + 1);

    // A module present only in the packed-resource set resolves through
    // the custom loader even with the filesystem importer removed.
    let host_modules = HostModules {
        builtin: vec![b"_imp".to_vec()],
        frozen: vec![b"zipimport".to_vec()],
        filesystem: vec![b"site".to_vec()],
    };
    let resources = inst2.resources_state.as_ref().unwrap();
    let idx = resolve_module(&chain_without, resources, &host_modules, &b"embedded_mod".to_vec());
    assert_eq!(idx, Some(0));
    assert_eq!(chain_without[0], MetaPathEntry::Oxidized);

    // A module nobody serves resolves to nothing.
    let missing = resolve_module(&chain_without, resources, &host_modules, &b"nowhere".to_vec());
    assert_eq!(missing, None);

    // The filesystem-only module no longer resolves once the importer is
    // gone, but still does in the full chain.
    let site = b"site".to_vec();
    assert_eq!(resolve_module(&chain_without, resources, &host_modules, &site), None);
    let resources1 = inst.resources_state.as_ref().unwrap();
    assert_eq!(
        resolve_module(&chain_with, resources1, &host_modules, &site),
        Some(3)
    );
}

#[test]
fn test_diagnostics_written_sorted_and_deduplicated() {
    let mut guard = GuardState::new();
    let mut runtime = RuntimeModel::new();
    let mut config = base_config();
    config.write_modules_directory_env = Some("RUN_MODULES_DIR".to_string());
    let mut inst = MainPythonInterpreter::new(config, &mut guard, &mut runtime, ok_host())
        .expect("bring-up");

    runtime.note_module_loaded(b"b".to_vec());
    runtime.note_module_loaded(b"a".to_vec());
    runtime.note_module_loaded(b"a".to_vec());
    runtime.note_module_loaded(b"c".to_vec());

    let record = inst
        .run_teardown(&mut guard, &mut runtime, Some("/tmp/diag".to_string()))
        .expect("diagnostics record");
    assert_eq!(record.directory, "/tmp/diag");
    assert!(record.file_name.starts_with("modules-"));
    assert_eq!(record.file_name.len(), 44);
    assert_eq!(record.content, b"a\nb\nc\n".to_vec());
    assert_eq!(runtime.finalize_count, 1);
}

#[test]
fn test_no_diagnostics_without_configuration() {
    let mut guard = GuardState::new();
    let mut runtime = RuntimeModel::new();
    let mut inst = MainPythonInterpreter::new(base_config(), &mut guard, &mut runtime, ok_host())
        .expect("bring-up");
    runtime.note_module_loaded(b"a".to_vec());
    let record = inst.run_teardown(&mut guard, &mut runtime, Some("/tmp/diag".to_string()));
    assert!(record.is_none());
}

#[test]
fn test_debug_wrapped_allocator_installs_base_then_hooks() {
    let mut guard = GuardState::new();
    let mut runtime = RuntimeModel::new();
    let mut config = base_config();
    config.raw_allocator = Some(AllocatorBackend::DebugWrapped(7));
    let _inst = MainPythonInterpreter::new(config, &mut guard, &mut runtime, ok_host())
        .expect("bring-up");
    assert_eq!(runtime.allocator, Some(7));
    assert!(runtime.debug_hooks);
    assert_eq!(runtime.allocator_install_count, 1);
    assert_eq!(runtime.debug_hooks_install_count, 1);
}

#[test]
fn test_system_allocator_installs_nothing() {
    let mut guard = GuardState::new();
    let mut runtime = RuntimeModel::new();
    let mut config = base_config();
    config.raw_allocator = Some(AllocatorBackend::System);
    let _inst = MainPythonInterpreter::new(config, &mut guard, &mut runtime, ok_host())
        .expect("bring-up");
    assert_eq!(runtime.allocator, None);
    assert!(!runtime.debug_hooks);
    assert_eq!(runtime.allocator_install_count, 0);
}

#[test]
fn test_gil_release_and_reacquire_twice() {
    let mut guard = GuardState::new();
    let mut runtime = RuntimeModel::new();
    let mut inst = MainPythonInterpreter::new(base_config(), &mut guard, &mut runtime, ok_host())
        .expect("bring-up");
    assert!(inst.gil);
    assert_eq!(inst.gil_acquire_count, 0);

    inst.release_gil();
    assert!(!inst.gil);
    inst.acquire_gil().expect("first reacquire");
    assert!(inst.gil);
    assert_eq!(inst.gil_acquire_count, 1);

    inst.release_gil();
    inst.acquire_gil().expect("second reacquire");
    assert!(inst.gil);
    assert_eq!(inst.gil_acquire_count, 2);

    // Acquiring while already held returns the handle without another
    // blocking acquisition.
    inst.acquire_gil().expect("already held");
    assert_eq!(inst.gil_acquire_count, 2);
}

#[test]
fn test_gil_outside_initialized_window() {
    let mut guard = GuardState::new();
    let mut runtime = RuntimeModel::new();
    let mut inst = MainPythonInterpreter {
        config: base_config(),
        interpreter_state: InterpreterState::NotStarted,
        guard_token: None,
        raw_allocator: None,
        gil: false,
        gil_acquire_count: 0,
        resources_state: None,
    };
    assert_eq!(inst.acquire_gil().expect_err("not started"), NewInterpreterError::NotReady);
    inst.begin(&mut guard, &mut runtime, ok_host()).expect("bring-up");
    let _ = inst.run_teardown(&mut guard, &mut runtime, None);
    assert_eq!(inst.acquire_gil().expect_err("finalized"), NewInterpreterError::Finalized);
}

#[test]
fn test_py_runmain_finalizes() {
    let mut guard = GuardState::new();
    let mut runtime = RuntimeModel::new();
    let mut inst = MainPythonInterpreter::new(base_config(), &mut guard, &mut runtime, ok_host())
        .expect("bring-up");
    let code = inst.py_runmain(&mut guard, &mut runtime, 3);
    assert_eq!(code, 3);
    assert!(matches!(inst.interpreter_state, InterpreterState::Finalized));
    assert!(guard.holder.is_none());
    assert_eq!(runtime.finalize_count, 1);
    assert!(inst.resources_state.is_none());
}

#[test]
fn test_env_writes_recorded_in_order() {
    let mut guard = GuardState::new();
    let mut runtime = RuntimeModel::new();
    let mut config = base_config();
    config.terminfo_resolution = TerminfoResolution::Static("/usr/share/terminfo".to_string());
    config.tcl_library = Some("/opt/app/tcl8.6".to_string());
    let _inst = MainPythonInterpreter::new(config, &mut guard, &mut runtime, ok_host())
        .expect("bring-up");
    assert_eq!(
        runtime.env_writes,
        vec![
            ("TERMINFO_DIRS".to_string(), "/usr/share/terminfo".to_string()),
            ("TCL_LIBRARY".to_string(), "/opt/app/tcl8.6".to_string()),
        ]
    );
}

#[test]
fn test_dynamic_terminfo_uses_host_answer() {
    let mut guard = GuardState::new();
    let mut runtime = RuntimeModel::new();
    let mut config = base_config();
    config.terminfo_resolution = TerminfoResolution::Dynamic;
    let mut host = ok_host();
    host.terminfo_dirs = Some("/etc/terminfo:/usr/share/terminfo".to_string());
    let _inst =
        MainPythonInterpreter::new(config, &mut guard, &mut runtime, host).expect("bring-up");
    assert_eq!(
        runtime.env_writes,
        vec![(
            "TERMINFO_DIRS".to_string(),
            "/etc/terminfo:/usr/share/terminfo".to_string()
        )]
    );
}

#[test]
fn test_sys_flags_pushed() {
    let mut guard = GuardState::new();
    let mut runtime = RuntimeModel::new();
    let mut config = base_config();
    config.argvb = true;
    config.sys_frozen = true;
    config.sys_meipass = true;
    let _inst = MainPythonInterpreter::new(config, &mut guard, &mut runtime, ok_host())
        .expect("bring-up");
    assert!(runtime.sys_argvb);
    assert!(runtime.sys_oxidized);
    assert!(runtime.sys_frozen);
    assert_eq!(runtime.sys_meipass, Some("/opt/app".to_string()));
}
