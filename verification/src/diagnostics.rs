//! Best-effort diagnostics captured at teardown: the names of the loaded
//! modules, deduplicated and lexicographically ordered, rendered as
//! newline-terminated text.  The caller writes the rendered bytes to a
//! file named with a fresh unique suffix; any write failure is swallowed,
//! never propagated into teardown.

use vstd::prelude::*;

use crate::bytes::{byte_views, bytes_eq, bytes_lt, copy_bytes, lex_lt};

verus! {

/// Strict lexicographic ascending order; strictness makes the sequence
/// duplicate-free.
pub open spec fn strictly_sorted(s: Seq<Seq<u8>>) -> bool {
    forall|i: int, j: int| 0 <= i < j < s.len() ==> lex_lt(s[i], s[j])
}

/// Insert `x` into an ordered, duplicate-free sequence, keeping it ordered
/// and duplicate-free.
pub open spec fn insert_unique_sorted(x: Seq<u8>, s: Seq<Seq<u8>>) -> Seq<Seq<u8>>
    decreases s.len(),
{
    if s.len() == 0 {
        seq![x]
    } else if lex_lt(x, s[0]) {
        seq![x] + s
    } else if x == s[0] {
        s
    } else {
        seq![s[0]] + insert_unique_sorted(x, s.skip(1))
    }
}

/// The ordered, duplicate-free sequence holding exactly the given names.
pub open spec fn sort_unique(names: Seq<Seq<u8>>) -> Seq<Seq<u8>>
    decreases names.len(),
{
    if names.len() == 0 {
        Seq::<Seq<u8>>::empty()
    } else {
        insert_unique_sorted(names[0], sort_unique(names.skip(1)))
    }
}

/// One line per name, each terminated by a newline byte.
pub open spec fn render_lines(s: Seq<Seq<u8>>) -> Seq<u8>
    decreases s.len(),
{
    if s.len() == 0 {
        Seq::<u8>::empty()
    } else {
        render_lines(s.drop_last()) + s.last() + seq![10u8]
    }
}

proof fn lemma_insert_unique_sorted_props(x: Seq<u8>, s: Seq<Seq<u8>>)
    requires
        strictly_sorted(s),
    ensures
        strictly_sorted(insert_unique_sorted(x, s)),
        forall|y: Seq<u8>| #[trigger] insert_unique_sorted(x, s).contains(y) ==> (s.contains(y)
            || y == x),
        forall|y: Seq<u8>| #[trigger] s.contains(y) ==> insert_unique_sorted(x, s).contains(y),
        insert_unique_sorted(x, s).contains(x),
        insert_unique_sorted(x, s).len() >= s.len(),
        insert_unique_sorted(x, s).len() <= s.len() + 1,
    decreases s.len(),
{
    let r = insert_unique_sorted(x, s);
    if s.len() == 0 {
        assert(r =~= seq![x]);
        assert(r.contains(x)) by {
            assert(r[0] == x);
        }
        assert forall|y: Seq<u8>| #[trigger] r.contains(y) implies (s.contains(y) || y == x) by {
            let i = choose|i: int| 0 <= i < r.len() && r[i] == y;
            assert(r[i] == x);
        }
    } else if lex_lt(x, s[0]) {
        assert forall|i: int, j: int| 0 <= i < j < r.len() implies lex_lt(r[i], r[j]) by {
            if i == 0 {
                assert(r[0] == x);
                assert(r[j] == s[j - 1]);
                if j > 1 {
                    crate::bytes::lemma_lex_transitive(x, s[0], s[j - 1]);
                } else {
                    assert(s[j - 1] == s[0]);
                }
            } else {
                assert(r[i] == s[i - 1]);
                assert(r[j] == s[j - 1]);
            }
        }
        assert(r.contains(x)) by {
            assert(r[0] == x);
        }
        assert forall|y: Seq<u8>| #[trigger] r.contains(y) implies (s.contains(y) || y == x) by {
            let i = choose|i: int| 0 <= i < r.len() && r[i] == y;
            if i > 0 {
                assert(s[i - 1] == y);
            }
        }
        assert forall|y: Seq<u8>| #[trigger] s.contains(y) implies r.contains(y) by {
            let i = choose|i: int| 0 <= i < s.len() && s[i] == y;
            assert(r[i + 1] == y);
        }
    } else if x == s[0] {
        assert(r.contains(x)) by {
            assert(r[0] == x);
        }
    } else {
        crate::bytes::lemma_lex_trichotomy(x, s[0]);
        assert(lex_lt(s[0], x));
        assert(strictly_sorted(s.skip(1))) by {
            assert(forall|i: int, j: int|
                0 <= i < j < s.skip(1).len() ==> s.skip(1)[i] == s[i + 1] && s.skip(1)[j] == s[j
                    + 1]);
        }
        lemma_insert_unique_sorted_props(x, s.skip(1));
        let rest = insert_unique_sorted(x, s.skip(1));
        assert(r =~= seq![s[0]] + rest);
        assert forall|i: int, j: int| 0 <= i < j < r.len() implies lex_lt(r[i], r[j]) by {
            if i == 0 {
                assert(r[j] == rest[j - 1]);
                assert(rest.contains(rest[j - 1]));
                if s.skip(1).contains(rest[j - 1]) {
                    let k = choose|k: int|
                        0 <= k < s.skip(1).len() && s.skip(1)[k] == rest[j - 1];
                    assert(s[k + 1] == rest[j - 1]);
                    assert(lex_lt(s[0], s[k + 1]));
                } else {
                    assert(rest[j - 1] == x);
                }
            } else {
                assert(r[i] == rest[i - 1]);
                assert(r[j] == rest[j - 1]);
            }
        }
        assert(r.contains(x)) by {
            let k = choose|k: int| 0 <= k < rest.len() && rest[k] == x;
            assert(r[k + 1] == x);
        }
        assert forall|y: Seq<u8>| #[trigger] r.contains(y) implies (s.contains(y) || y == x) by {
            let i = choose|i: int| 0 <= i < r.len() && r[i] == y;
            if i == 0 {
                assert(s[0] == y);
            } else {
                assert(rest[i - 1] == y);
                assert(rest.contains(y));
                if s.skip(1).contains(y) {
                    let k = choose|k: int| 0 <= k < s.skip(1).len() && s.skip(1)[k] == y;
                    assert(s[k + 1] == y);
                }
            }
        }
        assert forall|y: Seq<u8>| #[trigger] s.contains(y) implies r.contains(y) by {
            let i = choose|i: int| 0 <= i < s.len() && s[i] == y;
            if i == 0 {
                assert(r[0] == y);
            } else {
                assert(s.skip(1)[i - 1] == y);
                assert(s.skip(1).contains(y));
                assert(rest.contains(y));
                let k = choose|k: int| 0 <= k < rest.len() && rest[k] == y;
                assert(r[k + 1] == y);
            }
        }
    }
}

/// Law of the diagnostics record: the captured name sequence is strictly
/// ordered (hence duplicate-free) and holds exactly the loaded module
/// names, however often and in whatever order they were observed.
pub proof fn lemma_modules_content_law(names: Seq<Seq<u8>>)
    ensures
        strictly_sorted(sort_unique(names)),
        forall|y: Seq<u8>| #[trigger] sort_unique(names).contains(y) ==> names.contains(y),
        forall|y: Seq<u8>| #[trigger] names.contains(y) ==> sort_unique(names).contains(y),
    decreases names.len(),
{
    if names.len() == 0 {
    } else {
        lemma_modules_content_law(names.skip(1));
        lemma_insert_unique_sorted_props(names[0], sort_unique(names.skip(1)));
        let su = sort_unique(names.skip(1));
        assert forall|y: Seq<u8>| #[trigger] sort_unique(names).contains(y) implies names.contains(
            y,
        ) by {
            assert(insert_unique_sorted(names[0], su).contains(y));
            if su.contains(y) {
                assert(names.skip(1).contains(y));
                let i = choose|i: int| 0 <= i < names.skip(1).len() && names.skip(1)[i] == y;
                assert(names[i + 1] == y);
            } else {
                assert(names[0] == y);
            }
        }
        assert forall|y: Seq<u8>| #[trigger] names.contains(y) implies sort_unique(
            names,
        ).contains(y) by {
            let i = choose|i: int| 0 <= i < names.len() && names[i] == y;
            if i > 0 {
                assert(names.skip(1)[i - 1] == y);
                assert(names.skip(1).contains(y));
                assert(su.contains(y));
                assert(insert_unique_sorted(names[0], su).contains(y));
            } else {
                assert(y == names[0]);
                assert(insert_unique_sorted(names[0], su).contains(y));
            }
        }
    }
}

fn insert_unique_sorted_exec(x: Vec<u8>, s: Vec<Vec<u8>>) -> (r: Vec<Vec<u8>>)
    ensures
        byte_views(r@) == insert_unique_sorted(x@, byte_views(s@)),
    decreases s@.len(),
{
    if s.len() == 0 {
        let mut r: Vec<Vec<u8>> = Vec::new();
        r.push(x);
        assert(byte_views(r@) =~= insert_unique_sorted(x@, byte_views(s@)));
        r
    } else if bytes_lt(&x, &s[0]) {
        assert(byte_views(s@)[0] == s@[0]@);
        let ghost sv = byte_views(s@);
        let mut r = s;
        r.insert(0, x);
        assert(byte_views(r@) =~= seq![x@] + sv) by {
            assert(forall|k: int| 0 <= k < r@.len() ==> byte_views(r@)[k] == r@[k]@);
        }
        r
    } else if bytes_eq(&x, &s[0]) {
        assert(byte_views(s@)[0] == s@[0]@);
        s
    } else {
        assert(byte_views(s@)[0] == s@[0]@);
        let ghost sv = byte_views(s@);
        let mut s2 = s;
        let first = s2.remove(0);
        assert(byte_views(s2@) =~= sv.skip(1)) by {
            assert(forall|k: int| 0 <= k < s2@.len() ==> byte_views(s2@)[k] == s2@[k]@);
        }
        let mut rest = insert_unique_sorted_exec(x, s2);
        rest.insert(0, first);
        assert(byte_views(rest@) =~= seq![first@] + insert_unique_sorted(x@, sv.skip(1))) by {
            assert(forall|k: int| 0 <= k < rest@.len() ==> byte_views(rest@)[k] == rest@[k]@);
        }
        rest
    }
}

/// The loaded-module names, deduplicated and lexicographically ordered.
pub fn sorted_unique_names(names: &Vec<Vec<u8>>) -> (r: Vec<Vec<u8>>)
    ensures
        byte_views(r@) == sort_unique(byte_views(names@)),
{
    let r = sort_from(names, 0);
    assert(byte_views(names@).skip(0) =~= byte_views(names@));
    r
}

fn sort_from(names: &Vec<Vec<u8>>, i: usize) -> (r: Vec<Vec<u8>>)
    requires
        i <= names@.len(),
    ensures
        byte_views(r@) == sort_unique(byte_views(names@).skip(i as int)),
    decreases names@.len() - i,
{
    if i == names.len() {
        let r: Vec<Vec<u8>> = Vec::new();
        assert(byte_views(r@) =~= sort_unique(byte_views(names@).skip(i as int)));
        r
    } else {
        let rest = sort_from(names, i + 1);
        let x = copy_bytes(&names[i]);
        let r = insert_unique_sorted_exec(x, rest);
        proof {
            let v = byte_views(names@);
            assert(v.skip(i as int)[0] == v[i as int]);
            assert(v[i as int] == names@[i as int]@);
            assert(v.skip(i as int).skip(1) =~= v.skip(i + 1));
        }
        r
    }
}

/// Render one line per name, each line terminated by a newline byte.
pub fn render_module_lines(names: &Vec<Vec<u8>>) -> (r: Vec<u8>)
    ensures
        r@ == render_lines(byte_views(names@)),
{
    let mut content: Vec<u8> = Vec::new();
    let mut i: usize = 0;
    proof {
        assert(byte_views(names@).take(0) =~= Seq::<Seq<u8>>::empty());
    }
    while i < names.len()
        invariant
            i <= names@.len(),
            content@ == render_lines(byte_views(names@).take(i as int)),
        decreases names@.len() - i,
    {
        let name = &names[i];
        let mut k: usize = 0;
        let ghost before = content@;
        while k < name.len()
            invariant
                k <= name@.len(),
                content@ == before + name@.take(k as int),
            decreases name@.len() - k,
        {
            content.push(name[k]);
            k = k + 1;
            assert(content@ =~= before + name@.take(k as int));
        }
        content.push(10u8);
        i = i + 1;
        proof {
            let v = byte_views(names@);
            assert(name@.take(name@.len() as int) =~= name@);
            assert(v.take(i as int).drop_last() =~= v.take(i - 1));
            assert(v.take(i as int).last() == v[i - 1]);
            assert(v[i - 1] == names@[i - 1]@);
            assert(content@ =~= render_lines(v.take(i - 1)) + v[i - 1] + seq![10u8]);
        }
    }
    assert(byte_views(names@).take(names@.len() as int) =~= byte_views(names@));
    content
}

/// The rendered diagnostics content for the given loaded-module names:
/// the names deduplicated, lexicographically ordered, one per line, each
/// line newline-terminated.
pub fn modules_file_content(names: &Vec<Vec<u8>>) -> (r: Vec<u8>)
    ensures
        r@ == render_lines(sort_unique(byte_views(names@))),
{
    let sorted = sorted_unique_names(names);
    render_module_lines(&sorted)
}

/// Relies on `uuid::Uuid::new_v4` and the `Display` form of a UUID: the
/// hyphenated textual form is always 36 ASCII characters.  The value is
/// random; nothing else is assumed of it.
#[verifier::external_body]
fn fresh_unique_suffix() -> (r: String)
    ensures
        r@.len() == 36,
{
    uuid::Uuid::new_v4().to_string()
}

/// A fresh diagnostics file name: `modules-` followed by a unique
/// 36-character suffix.
pub fn modules_file_name() -> (r: String)
    ensures
        r@.len() == 44,
        r@.subrange(0, 8) == "modules-"@,
{
    proof {
        reveal_strlit("modules-");
    }
    let mut name = "modules-".to_owned();
    let suffix = fresh_unique_suffix();
    name.append(suffix.as_str());
    assert(name@.subrange(0, 8) =~= "modules-"@);
    name
}

/// A diagnostics record ready to be written: target directory, fresh file
/// name, and rendered content.
pub struct DiagnosticsFile {
    /// Directory the file belongs in (created if absent by the writer).
    pub directory: String,
    /// File name within the directory.
    pub file_name: String,
    /// Rendered newline-terminated module names.
    pub content: Vec<u8>,
}

/// Build the diagnostics record captured at teardown.
pub fn build_diagnostics_record(directory: String, module_names: &Vec<Vec<u8>>) -> (r:
    DiagnosticsFile)
    ensures
        r.directory == directory,
        r.file_name@.len() == 44,
        r.file_name@.subrange(0, 8) == "modules-"@,
        r.content@ == render_lines(sort_unique(byte_views(module_names@))),
{
    let file_name = modules_file_name();
    let content = modules_file_content(module_names);
    DiagnosticsFile { directory, file_name, content }
}

} // verus!
