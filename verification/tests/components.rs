//! Tests of the individual components: diagnostics rendering, the shadow
//! import table, the guard, and error messages.

use pyembed::config::{ExtensionModule, OxidizedPythonInterpreterConfig, TerminfoResolution};
use pyembed::diagnostics::{modules_file_content, modules_file_name, sorted_unique_names};
use pyembed::errors::{InitPhase, NewInterpreterError};
use pyembed::guard::GuardState;
use pyembed::inittab::{oxidized_importer_name, set_pyimport_inittab, InittabState};

fn names(v: &[&str]) -> Vec<Vec<u8>> {
    v.iter().map(|s| s.as_bytes().to_vec()).collect()
}

#[test]
fn test_modules_content_sorted_deduplicated() {
    let content = modules_file_content(&names(&["b", "a", "a", "c"]));
    assert_eq!(content, b"a\nb\nc\n".to_vec());
}

#[test]
fn test_modules_content_empty() {
    let content = modules_file_content(&names(&[]));
    assert!(content.is_empty());
}

#[test]
fn test_modules_content_lexicographic_bytes() {
    let content = modules_file_content(&names(&["os.path", "os", "_abc", "zlib", "os"]));
    assert_eq!(content, b"_abc\nos\nos.path\nzlib\n".to_vec());
}

#[test]
fn test_sorted_unique_names() {
    let sorted = sorted_unique_names(&names(&["xml", "abc", "xml", "io"]));
    assert_eq!(sorted, names(&["abc", "io", "xml"]));
}

#[test]
fn test_modules_file_name_shape_and_freshness() {
    let a = modules_file_name();
    let b = modules_file_name();
    assert!(a.starts_with("modules-"));
    assert_eq!(a.len(), 44);
    assert_eq!(b.len(), 44);
    // The suffix is a fresh unique id: two names never coincide.
    assert_ne!(a, b);
}

#[test]
fn test_inittab_snapshot_captured_once() {
    let mut state = InittabState::new();
    let config = OxidizedPythonInterpreterConfig {
        origin: String::new(),
        terminfo_resolution: TerminfoResolution::Untouched,
        tcl_library: None,
        raw_allocator: None,
        oxidized_importer: true,
        filesystem_importer: true,
        packed_resources: vec![],
        extra_extension_modules: vec![ExtensionModule { name: b"spam".to_vec(), init_func: 42 }],
        argvb: false,
        sys_frozen: false,
        sys_meipass: false,
        write_modules_directory_env: None,
    };
    let builtin = vec![pyembed::inittab::InittabEntry { name: b"_imp".to_vec(), init_func: 1 }];
    set_pyimport_inittab(&mut state, &config, &builtin);
    assert_eq!(state.active.len(), 4);
    assert_eq!(state.active[0].name, b"_imp".to_vec());
    assert_eq!(state.active[1].name, oxidized_importer_name());
    assert_eq!(state.active[2].name, b"spam".to_vec());
    assert!(state.active[3].name.is_empty());
    assert_eq!(state.active[3].init_func, 0);

    // A later rebuild hands in a different "current" table; the canonical
    // snapshot does not change.
    let other = vec![pyembed::inittab::InittabEntry { name: b"other".to_vec(), init_func: 9 }];
    set_pyimport_inittab(&mut state, &config, &other);
    assert_eq!(state.active[0].name, b"_imp".to_vec());
    assert_eq!(state.install_count, 2);
}

#[test]
fn test_oxidized_importer_name() {
    assert_eq!(oxidized_importer_name(), b"oxidized_importer".to_vec());
}

#[test]
fn test_guard_tokens_are_fresh() {
    let mut guard = GuardState::new();
    let t0 = guard.acquire().expect("free");
    guard.release(t0);
    let t1 = guard.acquire().expect("free again");
    assert_ne!(t0, t1);
    guard.release(t1);
}

#[test]
fn test_error_messages() {
    assert_eq!(
        NewInterpreterError::AlreadyInitializing.message(),
        "interpreter in initializing state"
    );
    assert_eq!(
        NewInterpreterError::LockPoisoned.message(),
        "unable to acquire global interpreter guard"
    );
    assert_eq!(
        NewInterpreterError::InitializationFailed(InitPhase::CoreInit).message(),
        "error initializing runtime core"
    );
    assert_eq!(NewInterpreterError::Finalized.message(), "interpreter is finalized");
}
