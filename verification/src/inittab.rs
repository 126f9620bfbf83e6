//! Shadow registry of statically-linkable extension modules.
//!
//! The runtime's native table-replacement facility is known to double-free
//! when the process-wide table is replaced more than once.  This component
//! therefore keeps its own canonical copy of the table: on first use it
//! snapshots the runtime's built-in entries (captured once, never mutated
//! again), and on every bring-up it installs a fresh table built from that
//! snapshot, the custom-loader entry when enabled, and the caller-supplied
//! extra entries, terminated by a sentinel.  Each installation intentionally
//! leaks the previous table, matching the safety constraints of the native
//! facility: a replaced table may still be referenced by the runtime.

use vstd::prelude::*;

use crate::config::OxidizedPythonInterpreterConfig;

verus! {

/// Handle standing for the custom loader's init-function pointer.
pub const OXIDIZED_IMPORTER_INIT_FUNC: u64 = 1;

/// One table entry: a module name plus a handle standing for the module's
/// init-function pointer.
#[derive(Debug)]
pub struct InittabEntry {
    /// Module name; empty in the sentinel terminator.
    pub name: Vec<u8>,
    /// Handle for the init-function pointer; 0 in the sentinel terminator.
    pub init_func: u64,
}

/// Mathematical content of one entry.
pub open spec fn entry_view(e: InittabEntry) -> (Seq<u8>, u64) {
    (e.name@, e.init_func)
}

/// Mathematical content of a table.
pub open spec fn table_view(s: Seq<InittabEntry>) -> Seq<(Seq<u8>, u64)> {
    s.map_values(|e: InittabEntry| entry_view(e))
}

/// The sentinel terminator: empty name, null init function.
pub open spec fn sentinel_view() -> (Seq<u8>, u64) {
    (Seq::<u8>::empty(), 0u64)
}

/// Name under which the custom resource-backed loader is registered.
pub open spec fn spec_oxidized_importer_name() -> Seq<u8> {
    "oxidized_importer"@.map_values(|c: char| c as u8)
}

/// The custom loader's table entry.
pub open spec fn oxidized_entry_view() -> (Seq<u8>, u64) {
    (spec_oxidized_importer_name(), OXIDIZED_IMPORTER_INIT_FUNC)
}

/// Mathematical content of the caller-supplied extra extension modules.
pub open spec fn extras_view(s: Seq<crate::config::ExtensionModule>) -> Seq<(Seq<u8>, u64)> {
    s.map_values(|m: crate::config::ExtensionModule| (m.name@, m.init_func))
}

/// The table installed by a rebuild: the canonical snapshot, then the
/// custom-loader entry when enabled, then the extra entries in caller
/// order, then the sentinel.
pub open spec fn spec_rebuilt(
    canonical: Seq<(Seq<u8>, u64)>,
    oxidized: bool,
    extras: Seq<(Seq<u8>, u64)>,
) -> Seq<(Seq<u8>, u64)> {
    canonical + (if oxidized {
        seq![oxidized_entry_view()]
    } else {
        Seq::<(Seq<u8>, u64)>::empty()
    }) + extras + seq![sentinel_view()]
}

/// Process-wide shadow state: the write-once canonical snapshot of the
/// runtime's built-in table, and the table currently installed.
pub struct InittabState {
    /// Canonical snapshot of the built-in entries; captured on first use,
    /// never mutated again.
    pub canonical: Option<Vec<InittabEntry>>,
    /// The table most recently installed into the runtime.  Predecessors
    /// are leaked by design, never freed.
    pub active: Vec<InittabEntry>,
    /// How many tables have been installed process-wide.
    pub install_count: u64,
}

impl InittabState {
    /// Shadow state before any bring-up: no snapshot, nothing installed.
    pub fn new() -> (r: InittabState)
        ensures
            r.canonical is None,
            r.active@.len() == 0,
            r.install_count == 0,
    {
        InittabState { canonical: None, active: Vec::new(), install_count: 0 }
    }
}

/// The module name the custom loader is registered under.
pub fn oxidized_importer_name() -> (r: Vec<u8>)
    ensures
        r@ == spec_oxidized_importer_name(),
{
    let s = "oxidized_importer";
    proof {
        reveal_strlit("oxidized_importer");
        assert(s.is_ascii());
        vstd::string::is_ascii_spec_bytes(s);
    }
    let b = s.as_bytes();
    assert(b@ =~= spec_oxidized_importer_name());
    vstd::slice::slice_to_vec(b)
}

/// Copy of a table, entry by entry.
fn clone_table(t: &Vec<InittabEntry>) -> (r: Vec<InittabEntry>)
    ensures
        table_view(r@) == table_view(t@),
{
    let mut r: Vec<InittabEntry> = Vec::new();
    let mut i: usize = 0;
    while i < t.len()
        invariant
            i <= t.len(),
            r@.len() == i,
            forall|k: int| 0 <= k < i ==> entry_view(r@[k]) == entry_view(t@[k]),
        decreases t.len() - i,
    {
        let name = crate::bytes::copy_bytes(&t[i].name);
        let init_func = t[i].init_func;
        r.push(InittabEntry { name, init_func });
        i = i + 1;
    }
    assert(table_view(r@) =~= table_view(t@));
    r
}

/// Rebuild and install the shadow table for one bring-up.
///
/// On the first call ever, the runtime's current built-in entries (handed
/// in already snapshotted, without their terminator) become the canonical
/// list; every later call leaves that list untouched.  The installed table
/// is always the canonical list, plus the custom-loader entry when the
/// configuration enables it, plus the configured extra entries in order,
/// plus the sentinel terminator.
pub fn set_pyimport_inittab(
    state: &mut InittabState,
    config: &OxidizedPythonInterpreterConfig,
    runtime_builtin: &Vec<InittabEntry>,
)
    requires
        old(state).install_count < u64::MAX,
    ensures
        final(state).canonical is Some,
        old(state).canonical is Some ==> final(state).canonical == old(state).canonical,
        old(state).canonical is None ==> table_view(final(state).canonical->Some_0@)
            == table_view(runtime_builtin@),
        table_view(final(state).active@) == spec_rebuilt(
            table_view(final(state).canonical->Some_0@),
            config.oxidized_importer,
            extras_view(config.extra_extension_modules@),
        ),
        final(state).install_count == old(state).install_count + 1,
{
    if state.canonical.is_none() {
        state.canonical = Some(clone_table(runtime_builtin));
    }

    let mut extensions: Vec<InittabEntry> = match &state.canonical {
        Some(c) => clone_table(c),
        None => {
            proof {
                assert(false);
            }
            Vec::new()
        },
    };

    let ghost canonical_view = table_view(state.canonical->Some_0@);
    let ghost cl = canonical_view.len() as int;
    assert(forall|k: int|
        0 <= k < cl ==> entry_view(extensions@[k]) == canonical_view[k]);

    if config.oxidized_importer {
        extensions.push(InittabEntry {
            name: oxidized_importer_name(),
            init_func: OXIDIZED_IMPORTER_INIT_FUNC,
        });
    }
    let ghost oxl: int = if config.oxidized_importer {
        1int
    } else {
        0int
    };
    assert(extensions@.len() == cl + oxl);
    assert(config.oxidized_importer ==> entry_view(extensions@[cl]) == oxidized_entry_view());

    let ghost extras = config.extra_extension_modules@;
    let mut i: usize = 0;
    while i < config.extra_extension_modules.len()
        invariant
            extras == config.extra_extension_modules@,
            canonical_view == table_view(state.canonical->Some_0@),
            cl == canonical_view.len() as int,
            oxl == if config.oxidized_importer { 1int } else { 0int },
            i <= extras.len(),
            extensions@.len() == cl + oxl + i,
            forall|k: int| 0 <= k < cl ==> entry_view(extensions@[k]) == canonical_view[k],
            config.oxidized_importer ==> entry_view(extensions@[cl]) == oxidized_entry_view(),
            forall|k: int| 0 <= k < i ==> entry_view(extensions@[cl + oxl + k])
                == (extras[k].name@, extras[k].init_func),
        decreases config.extra_extension_modules.len() - i,
    {
        let m = &config.extra_extension_modules[i];
        extensions.push(InittabEntry {
            name: crate::bytes::copy_bytes(&m.name),
            init_func: m.init_func,
        });
        i = i + 1;
    }

    let sentinel_name: Vec<u8> = Vec::new();
    assert(sentinel_name@ =~= Seq::<u8>::empty());
    extensions.push(InittabEntry { name: sentinel_name, init_func: 0 });

    proof {
        let built = spec_rebuilt(canonical_view, config.oxidized_importer, extras_view(extras));
        assert(extras_view(extras).len() == extras.len());
        assert(built.len() == cl + oxl + extras.len() + 1);
        assert(table_view(extensions@).len() == built.len());
        assert forall|j: int| 0 <= j < built.len() implies table_view(
            extensions@,
        )[j] == built[j] by {
            assert(table_view(extensions@)[j] == entry_view(extensions@[j]));
            if j < cl {
                assert(built[j] == canonical_view[j]);
            } else if j < cl + oxl {
                assert(built[j] == oxidized_entry_view());
            } else if j < cl + oxl + extras.len() {
                assert(built[j] == extras_view(extras)[j - cl - oxl]);
                assert(extras_view(extras)[j - cl - oxl]
                    == (extras[j - cl - oxl].name@, extras[j - cl - oxl].init_func));
            } else {
                assert(built[j] == sentinel_view());
                assert(entry_view(extensions@[j]) == sentinel_view());
            }
        }
        assert(table_view(extensions@) =~= built);
    }

    state.active = extensions;
    state.install_count = state.install_count + 1;
}

/// Law of the shadow table: every installed table is sentinel-terminated;
/// the canonical snapshot's entries stand unchanged at its front; and when
/// the snapshot and the extra entries carry non-empty names (the snapshot
/// is handed in without its terminator), every entry before the final
/// sentinel has a non-empty name.  The snapshot itself is write-once (see
/// `set_pyimport_inittab`), so across any number of successive bring-ups
/// no entry of the very first snapshot is ever lost.
pub proof fn lemma_shadow_table_law(
    canonical: Seq<(Seq<u8>, u64)>,
    oxidized: bool,
    extras: Seq<(Seq<u8>, u64)>,
)
    ensures
        spec_rebuilt(canonical, oxidized, extras).len() > 0,
        spec_rebuilt(canonical, oxidized, extras).last() == sentinel_view(),
        forall|i: int| 0 <= i < canonical.len()
            ==> spec_rebuilt(canonical, oxidized, extras)[i] == canonical[i],
        (forall|i: int| 0 <= i < canonical.len() ==> canonical[i].0.len() > 0) && (forall|i: int|
            0 <= i < extras.len() ==> extras[i].0.len() > 0) ==> forall|i: int|
            0 <= i < spec_rebuilt(canonical, oxidized, extras).len() - 1 ==> spec_rebuilt(
                canonical,
                oxidized,
                extras,
            )[i].0.len() > 0,
{
    let built = spec_rebuilt(canonical, oxidized, extras);
    let oxl: int = if oxidized {
        1int
    } else {
        0int
    };
    assert(spec_oxidized_importer_name().len() == 17) by {
        reveal_strlit("oxidized_importer");
    }
    if (forall|i: int| 0 <= i < canonical.len() ==> canonical[i].0.len() > 0) && (forall|i: int|
        0 <= i < extras.len() ==> extras[i].0.len() > 0) {
        assert forall|i: int| 0 <= i < built.len() - 1 implies built[i].0.len() > 0 by {
            if i < canonical.len() {
                assert(built[i] == canonical[i]);
            } else if i < canonical.len() + oxl {
                assert(built[i] == oxidized_entry_view());
            } else {
                assert(built[i] == extras[i - canonical.len() - oxl]);
            }
        }
    }
}

} // verus!
