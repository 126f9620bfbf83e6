//! The resolved configuration of an interpreter lifecycle instance.
//!
//! A configuration is an immutable snapshot of every embedding option the
//! lifecycle consults.  It is produced once per instance and never mutated
//! after construction.

use vstd::prelude::*;

verus! {

/// How the terminal-capability search path is resolved before bring-up.
#[derive(Clone, Debug)]
pub enum TerminfoResolution {
    /// Query the host environment for a search path and write the derived
    /// value into the terminal-capability variable.
    Dynamic,
    /// Write the given fixed value into the terminal-capability variable.
    Static(String),
    /// Perform no environment write at all.
    Untouched,
}

/// The low-level memory-allocator backend installed before bring-up.
///
/// The function table behind a custom backend is opaque to this logic; a
/// backend carries it as a plain handle.  Once installed, the backend stays
/// installed until the runtime is finalized.
#[derive(Clone, Copy, Debug, PartialEq, Eq, Structural)]
pub enum AllocatorBackend {
    /// Leave the runtime's own allocator in place.
    System,
    /// Install the given allocator function table.
    Custom(u64),
    /// Install the given allocator function table, then install debug
    /// instrumentation hooks on top of it.
    DebugWrapped(u64),
}

/// A caller-supplied statically-linked extension module: a name plus a
/// handle standing for the module's init-function pointer.
#[derive(Clone, Debug)]
pub struct ExtensionModule {
    /// Module name, without a terminator.
    pub name: Vec<u8>,
    /// Handle standing for the init-function pointer; never 0 for a real
    /// module (0 is reserved for the sentinel terminator).
    pub init_func: u64,
}

/// Immutable, resolved snapshot of all embedding options.
#[derive(Clone, Debug)]
pub struct OxidizedPythonInterpreterConfig {
    /// Origin path of the executable, exposed post-init when configured.
    pub origin: String,
    /// Terminal-capability resolution mode.
    pub terminfo_resolution: TerminfoResolution,
    /// Value written verbatim into the terminal-toolkit library-path
    /// variable when configured.
    pub tcl_library: Option<String>,
    /// Allocator backend to install before bring-up, if any.
    pub raw_allocator: Option<AllocatorBackend>,
    /// Whether the custom resource-backed module loader is enabled.
    pub oxidized_importer: bool,
    /// Whether the runtime's default filesystem loader is kept in the
    /// module-resolution chain after bring-up.
    pub filesystem_importer: bool,
    /// Packed-resource blob decoded during the loader bootstrap.
    pub packed_resources: Vec<u8>,
    /// Extra statically-linked extension modules, in caller order.
    pub extra_extension_modules: Vec<ExtensionModule>,
    /// Whether the raw byte-string argv is mirrored into runtime-global
    /// state post-init.
    pub argvb: bool,
    /// Whether the optional "frozen application" boolean is set post-init.
    pub sys_frozen: bool,
    /// Whether the origin path is exposed post-init under its
    /// legacy-compatible name.
    pub sys_meipass: bool,
    /// Name of the environment variable that, when set, names the directory
    /// diagnostics are written into at teardown.
    pub write_modules_directory_env: Option<String>,
}

} // verus!
