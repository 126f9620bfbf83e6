//! Parsing of text-based library-stub metadata streams.
//!
//! A stub-metadata stream is a YAML stream in which each document carries
//! an optional version tag on its `---` start line.  The underlying YAML
//! crate does not expose document tags, so the stream is parsed once for
//! validity and document values, and the raw text is scanned a second
//! time for start-of-document markers and their version tags; the two
//! passes are then reconciled and paired up.  The scanning and the
//! reconciliation are this crate's own verified logic; the YAML parsing
//! itself is the outside crate's.

use vstd::prelude::*;

use crate::bytes::is_prefix_of;
use vstd::string::StringSliceAdditionalSpecFns;

verus! {

/// Version of a stub-metadata document.
#[derive(Copy, Clone, Debug, PartialEq, Eq, Structural)]
pub enum TBDVersion {
    V1,
    V2,
    V3,
    V4,
}

#[verifier::external_type_specification]
#[verifier::external_body]
pub struct ExYaml(yaml_rust::Yaml);

#[verifier::external_type_specification]
#[verifier::external_body]
pub struct ExScanError(yaml_rust::ScanError);

/// A parsed record: the document's version tag together with its parsed
/// YAML value.
#[derive(Debug)]
pub enum TBDRecord {
    V1(yaml_rust::Yaml),
    V2(yaml_rust::Yaml),
    V3(yaml_rust::Yaml),
    V4(yaml_rust::Yaml),
}

/// An error from parsing a stub-metadata stream.
#[derive(Debug)]
pub enum ParseError {
    /// The stream is not valid YAML.
    YamlError(yaml_rust::ScanError),
    /// The number of scanned version tags cannot be reconciled with the
    /// number of parsed documents.
    DocumentCountMismatch,
}

impl ParseError {
    /// Human-readable description of the error.
    pub fn message(&self) -> (r: String)
        ensures
            self is DocumentCountMismatch ==> r@
                == "mismatch in expected document count when parsing YAML"@,
    {
        match self {
            ParseError::DocumentCountMismatch => {
                "mismatch in expected document count when parsing YAML".to_owned()
            },
            ParseError::YamlError(e) => scan_error_message(e),
        }
    }
}

/// The version a record carries.
pub open spec fn spec_record_version(r: TBDRecord) -> TBDVersion {
    match r {
        TBDRecord::V1(_) => TBDVersion::V1,
        TBDRecord::V2(_) => TBDVersion::V2,
        TBDRecord::V3(_) => TBDVersion::V3,
        TBDRecord::V4(_) => TBDVersion::V4,
    }
}

/// The parsed document a record carries.
pub open spec fn spec_record_payload(r: TBDRecord) -> yaml_rust::Yaml {
    match r {
        TBDRecord::V1(y) => y,
        TBDRecord::V2(y) => y,
        TBDRecord::V3(y) => y,
        TBDRecord::V4(y) => y,
    }
}

/// The version a record carries (executable).
pub fn record_version(r: &TBDRecord) -> (v: TBDVersion)
    ensures
        v == spec_record_version(*r),
{
    match r {
        TBDRecord::V1(_) => TBDVersion::V1,
        TBDRecord::V2(_) => TBDVersion::V2,
        TBDRecord::V3(_) => TBDVersion::V3,
        TBDRecord::V4(_) => TBDVersion::V4,
    }
}

/// What `yaml_rust::YamlLoader::load_from_str` yields on a given stream,
/// as far as this logic reads it: `None` when the stream is invalid, the
/// number of documents when it is valid.  The result is a function of the
/// text alone.
pub uninterp spec fn yaml_doc_count(s: Seq<char>) -> Option<nat>;

/// Relies on `yaml_rust::YamlLoader::load_from_str`: parses a YAML
/// stream into one value per document, or reports a scan error for an
/// invalid stream.
#[verifier::external_body]
fn load_yaml_docs(data: &str) -> (r: Result<Vec<yaml_rust::Yaml>, yaml_rust::ScanError>)
    ensures
        r is Ok <==> yaml_doc_count(data@) is Some,
        r is Ok ==> r->Ok_0@.len() == yaml_doc_count(data@)->Some_0,
{
    yaml_rust::YamlLoader::load_from_str(data)
}

/// Relies on `yaml_rust::ScanError`'s `Display` implementation for the
/// error's human-readable form.
#[verifier::external_body]
fn scan_error_message(e: &yaml_rust::ScanError) -> (r: String) {
    format!("{}", e)
}

/// Bytes of an ASCII tag.
pub open spec fn tag_bytes(s: Seq<char>) -> Seq<u8> {
    s.map_values(|c: char| c as u8)
}

/// The start-of-document marker.
pub open spec fn spec_tag_dashes() -> Seq<u8> {
    tag_bytes("---"@)
}

/// The version-2 document tag.
pub open spec fn spec_tag_v2() -> Seq<u8> {
    tag_bytes("--- !tapi-tbd-v2"@)
}

/// The version-3 document tag.
pub open spec fn spec_tag_v3() -> Seq<u8> {
    tag_bytes("--- !tapi-tbd-v3"@)
}

/// The version-4 document tag.
pub open spec fn spec_tag_v4() -> Seq<u8> {
    tag_bytes("--- !tapi-tbd"@)
}

/// Version of a document whose start line is `line`: the tags are tried
/// most-specific first, and an untagged marker line is a version-1
/// document.
pub open spec fn spec_classify_line(line: Seq<u8>) -> TBDVersion {
    if is_prefix_of(spec_tag_v2(), line) {
        TBDVersion::V2
    } else if is_prefix_of(spec_tag_v3(), line) {
        TBDVersion::V3
    } else if is_prefix_of(spec_tag_v4(), line) {
        TBDVersion::V4
    } else {
        TBDVersion::V1
    }
}

/// Index of the first newline byte, or the length when there is none.
pub open spec fn first_nl(s: Seq<u8>) -> nat
    decreases s.len(),
{
    if s.len() == 0 {
        0
    } else if s[0] == 10u8 {
        0
    } else {
        1 + first_nl(s.skip(1))
    }
}

proof fn lemma_first_nl(s: Seq<u8>)
    ensures
        first_nl(s) <= s.len(),
        forall|j: int| 0 <= j < first_nl(s) ==> s[j] != 10u8,
        first_nl(s) < s.len() ==> s[first_nl(s) as int] == 10u8,
    decreases s.len(),
{
    if s.len() > 0 && s[0] != 10u8 {
        lemma_first_nl(s.skip(1));
        assert forall|j: int| 0 <= j < first_nl(s) implies s[j] != 10u8 by {
            if j >= 1 {
                assert(s.skip(1)[j - 1] == s[j]);
                assert(s.skip(1)[j - 1] != 10u8);
            }
        }
        if first_nl(s) < s.len() {
            assert(s.skip(1)[first_nl(s.skip(1)) as int] == s[first_nl(s) as int]);
        }
    }
}

proof fn lemma_first_nl_is(s: Seq<u8>, n: nat)
    requires
        n <= s.len(),
        forall|j: int| 0 <= j < n ==> s[j] != 10u8,
        n < s.len() ==> s[n as int] == 10u8,
    ensures
        first_nl(s) == n,
    decreases s.len(),
{
    if s.len() == 0 {
    } else if s[0] == 10u8 {
        assert(n == 0) by {
            if n > 0 {
                assert(s[0] != 10u8);
            }
        }
    } else {
        assert(n > 0) by {
            if n == 0 {
                assert(s[0] == 10u8);
            }
        }
        assert(forall|j: int| 0 <= j < s.skip(1).len() ==> s.skip(1)[j] == s[j + 1]);
        lemma_first_nl_is(s.skip(1), (n - 1) as nat);
    }
}

/// A pattern without newline bytes is a prefix of a text's first line
/// exactly when it is a prefix of the whole text.
proof fn lemma_prefix_through_line(pat: Seq<u8>, s: Seq<u8>)
    requires
        forall|k: int| 0 <= k < pat.len() ==> pat[k] != 10u8,
    ensures
        is_prefix_of(pat, s.take(first_nl(s) as int)) == is_prefix_of(pat, s),
{
    lemma_first_nl(s);
    let k = first_nl(s) as int;
    if is_prefix_of(pat, s.take(k)) {
        assert(forall|j: int| 0 <= j < pat.len() ==> pat[j] == #[trigger] s.take(k)[j]);
        assert(forall|j: int| 0 <= j < pat.len() ==> pat[j] == s[j]);
    }
    if is_prefix_of(pat, s) {
        assert(pat.len() <= k) by {
            if k < pat.len() {
                assert(k < s.len());
                assert(s[k] == 10u8);
                assert(pat[k] == s[k]);
            }
        }
        assert(forall|j: int| 0 <= j < pat.len() ==> #[trigger] s.take(k)[j] == s[j]);
    }
}

/// The three version tags and the marker hold no newline byte.
proof fn lemma_tags_no_newline()
    ensures
        forall|k: int| 0 <= k < spec_tag_dashes().len() ==> spec_tag_dashes()[k] != 10u8,
        forall|k: int| 0 <= k < spec_tag_v2().len() ==> spec_tag_v2()[k] != 10u8,
        forall|k: int| 0 <= k < spec_tag_v3().len() ==> spec_tag_v3()[k] != 10u8,
        forall|k: int| 0 <= k < spec_tag_v4().len() ==> spec_tag_v4()[k] != 10u8,
{
    reveal_strlit("---");
    reveal_strlit("--- !tapi-tbd-v2");
    reveal_strlit("--- !tapi-tbd-v3");
    reveal_strlit("--- !tapi-tbd");
}

/// The version tags of the documents in a stream, in order: one entry
/// per line that starts with the document marker.
pub open spec fn spec_doc_versions(s: Seq<u8>) -> Seq<TBDVersion>
    decreases s.len(),
{
    if s.len() == 0 {
        Seq::<TBDVersion>::empty()
    } else {
        let k = first_nl(s);
        let line = s.take(k as int);
        let rest = if k < s.len() {
            s.skip(k as int + 1)
        } else {
            Seq::<u8>::empty()
        };
        (if is_prefix_of(spec_tag_dashes(), line) {
            seq![spec_classify_line(line)]
        } else {
            Seq::<TBDVersion>::empty()
        }) + spec_doc_versions(rest)
    }
}

fn tag_vec(tag: &str) -> (r: Vec<u8>)
    requires
        tag.is_ascii(),
    ensures
        r@ == tag_bytes(tag@),
{
    proof {
        vstd::string::is_ascii_spec_bytes(tag);
    }
    let b = tag.as_bytes();
    assert(b@ =~= tag_bytes(tag@));
    vstd::slice::slice_to_vec(b)
}

/// Scan a stream's text for start-of-document markers and classify each
/// one's version tag.
pub fn scan_document_versions(data: &str) -> (r: Vec<TBDVersion>)
    ensures
        r@ == spec_doc_versions(data.spec_bytes()),
{
    let dashes_str = "---";
    let v2_str = "--- !tapi-tbd-v2";
    let v3_str = "--- !tapi-tbd-v3";
    let v4_str = "--- !tapi-tbd";
    proof {
        reveal_strlit("---");
        reveal_strlit("--- !tapi-tbd-v2");
        reveal_strlit("--- !tapi-tbd-v3");
        reveal_strlit("--- !tapi-tbd");
        assert(dashes_str.is_ascii());
        assert(v2_str.is_ascii());
        assert(v3_str.is_ascii());
        assert(v4_str.is_ascii());
    }
    let dashes = tag_vec(dashes_str);
    let t2 = tag_vec(v2_str);
    let t3 = tag_vec(v3_str);
    let t4 = tag_vec(v4_str);

    let b = data.as_bytes();
    let mut versions: Vec<TBDVersion> = Vec::new();
    let mut pos: usize = 0;
    proof {
        assert(b@.skip(0) =~= b@);
    }
    while pos < b.len()
        invariant
            b@ == data.spec_bytes(),
            dashes@ == spec_tag_dashes(),
            t2@ == spec_tag_v2(),
            t3@ == spec_tag_v3(),
            t4@ == spec_tag_v4(),
            pos <= b@.len(),
            spec_doc_versions(data.spec_bytes()) == versions@ + spec_doc_versions(
                b@.skip(pos as int),
            ),
        decreases b@.len() - pos,
    {
        let n = b.len();
        let mut k: usize = pos;
        while k < n && b[k] != 10u8
            invariant
                n == b@.len(),
                pos <= k <= b@.len(),
                forall|j: int| pos <= j < k ==> b@[j] != 10u8,
            decreases b@.len() - k,
        {
            k = k + 1;
        }

        let ghost tail = b@.skip(pos as int);
        proof {
            assert(forall|j: int| 0 <= j < tail.len() ==> tail[j] == b@[j + pos]);
            lemma_first_nl_is(tail, (k - pos) as nat);
            lemma_tags_no_newline();
            lemma_prefix_through_line(spec_tag_dashes(), tail);
            lemma_prefix_through_line(spec_tag_v2(), tail);
            lemma_prefix_through_line(spec_tag_v3(), tail);
            lemma_prefix_through_line(spec_tag_v4(), tail);
        }
        let ghost line = tail.take((k - pos) as int);

        if crate::bytes::prefix_at(b, pos, dashes.as_slice()) {
            let v = if crate::bytes::prefix_at(b, pos, t2.as_slice()) {
                TBDVersion::V2
            } else if crate::bytes::prefix_at(b, pos, t3.as_slice()) {
                TBDVersion::V3
            } else if crate::bytes::prefix_at(b, pos, t4.as_slice()) {
                TBDVersion::V4
            } else {
                TBDVersion::V1
            };
            assert(v == spec_classify_line(line));
            versions.push(v);
        }

        proof {
            let seg: Seq<TBDVersion> = if is_prefix_of(spec_tag_dashes(), line) {
                seq![spec_classify_line(line)]
            } else {
                Seq::<TBDVersion>::empty()
            };
            let rest: Seq<u8> = if ((k - pos) as nat) < tail.len() {
                tail.skip((k - pos) as int + 1)
            } else {
                Seq::<u8>::empty()
            };
            assert(spec_doc_versions(tail) == seg + spec_doc_versions(rest));
            if k < n {
                assert(rest =~= b@.skip(k as int + 1));
            } else {
                assert(rest =~= b@.skip(n as int));
            }
        }

        if k < n {
            assert(versions@ + spec_doc_versions(b@.skip(k as int + 1)) =~= spec_doc_versions(
                data.spec_bytes(),
            ));
            pos = k + 1;
        } else {
            assert(versions@ + spec_doc_versions(b@.skip(n as int)) =~= spec_doc_versions(
                data.spec_bytes(),
            ));
            pos = k;
        }
    }
    proof {
        assert(b@.skip(pos as int).len() == 0);
        assert(versions@ =~= spec_doc_versions(data.spec_bytes()));
    }
    versions
}

/// Build a record from a version and a parsed document.
fn make_record(v: TBDVersion, y: yaml_rust::Yaml) -> (r: TBDRecord)
    ensures
        spec_record_version(r) == v,
        spec_record_payload(r) == y,
{
    match v {
        TBDVersion::V1 => TBDRecord::V1(y),
        TBDVersion::V2 => TBDRecord::V2(y),
        TBDVersion::V3 => TBDRecord::V3(y),
        TBDVersion::V4 => TBDRecord::V4(y),
    }
}

/// Pair the parsed documents with the scanned version tags.
///
/// The stream's leading document marker is optional, and an untagged
/// leading document is a version-1 document: when exactly one more
/// document than tag was found, a version-1 tag is assumed for the first
/// document.  Any other mismatch between the counts is an error.
pub fn assemble_records(docs: Vec<yaml_rust::Yaml>, versions: &Vec<TBDVersion>) -> (r: Result<
    Vec<TBDRecord>,
    ParseError,
>)
    ensures
        r is Ok <==> (versions@.len() == docs@.len() || versions@.len() + 1 == docs@.len()),
        versions@.len() == docs@.len() ==> r is Ok && ({
            let recs = r->Ok_0@;
            &&& recs.len() == docs@.len()
            &&& forall|i: int| #![all_triggers] 0 <= i < recs.len() ==> spec_record_version(
                recs[i],
            ) == versions@[i] && spec_record_payload(recs[i]) == docs@[i]
        }),
        versions@.len() + 1 == docs@.len() ==> r is Ok && ({
            let recs = r->Ok_0@;
            &&& recs.len() == docs@.len()
            &&& spec_record_version(recs[0]) == TBDVersion::V1
            &&& spec_record_payload(recs[0]) == docs@[0]
            &&& forall|i: int| #![all_triggers] 1 <= i < recs.len() ==> spec_record_version(
                recs[i],
            ) == versions@[i - 1] && spec_record_payload(recs[i]) == docs@[i]
        }),
        !(versions@.len() == docs@.len() || versions@.len() + 1 == docs@.len()) ==> r matches Err(
            ParseError::DocumentCountMismatch,
        ),
{
    let ghost docs0 = docs@;
    let mut effective: Vec<TBDVersion> = Vec::new();
    if versions.len() == docs.len() {
    } else if docs.len() > 0 && versions.len() == docs.len() - 1 {
        effective.push(TBDVersion::V1);
    } else {
        return Err(ParseError::DocumentCountMismatch);
    }
    let mut i: usize = 0;
    let ghost shift = effective@.len();
    while i < versions.len()
        invariant
            i <= versions@.len(),
            effective@.len() == shift + i,
            shift == effective@.len() - i,
            forall|k: int| 0 <= k < shift ==> effective@[k] == TBDVersion::V1,
            forall|k: int| 0 <= k < i ==> effective@[shift + k] == versions@[k],
        decreases versions@.len() - i,
    {
        effective.push(versions[i]);
        i = i + 1;
    }

    let mut out: Vec<TBDRecord> = Vec::new();
    let mut rest = docs;
    let total = rest.len();
    let mut j: usize = 0;
    while rest.len() > 0
        invariant
            total == docs0.len(),
            docs0.len() == effective@.len(),
            j <= docs0.len(),
            rest@ =~= docs0.skip(j as int),
            out@.len() == j,
            forall|k: int| #![all_triggers] 0 <= k < j ==> spec_record_version(out@[k])
                == effective@[k] && spec_record_payload(out@[k]) == docs0[k],
        decreases rest@.len(),
    {
        assert(j < docs0.len());
        let y = rest.remove(0);
        assert(y == docs0[j as int]);
        let v = effective[j];
        out.push(make_record(v, y));
        j = j + 1;
        proof {
            assert(rest@ =~= docs0.skip(j as int));
        }
    }
    assert(j == docs0.len());
    Ok(out)
}

/// Parse stub-metadata records from a YAML stream.
///
/// The stream is parsed for validity and document values, its text is
/// scanned for document markers and version tags, and the two are
/// reconciled: an invalid stream is a `YamlError`, an irreconcilable
/// count is a `DocumentCountMismatch`, and otherwise each document is
/// returned with its version.
pub fn parse_str(data: &str) -> (r: Result<Vec<TBDRecord>, ParseError>)
    ensures
        yaml_doc_count(data@) is None ==> r matches Err(ParseError::YamlError(_)),
        yaml_doc_count(data@) matches Some(n) ==> ({
            let vs = spec_doc_versions(data.spec_bytes());
            &&& (r is Ok <==> (vs.len() == n || vs.len() + 1 == n))
            &&& (vs.len() == n ==> r is Ok && ({
                let recs = r->Ok_0@;
                &&& recs.len() == n
                &&& forall|i: int| #![all_triggers] 0 <= i < recs.len() ==> spec_record_version(
                    recs[i],
                ) == vs[i]
            }))
            &&& (vs.len() + 1 == n ==> r is Ok && ({
                let recs = r->Ok_0@;
                &&& recs.len() == n
                &&& spec_record_version(recs[0]) == TBDVersion::V1
                &&& forall|i: int| #![all_triggers] 1 <= i < recs.len() ==> spec_record_version(
                    recs[i],
                ) == vs[i - 1]
            }))
            &&& (!(vs.len() == n || vs.len() + 1 == n) ==> r matches Err(
                ParseError::DocumentCountMismatch,
            ))
        }),
{
    let docs = match load_yaml_docs(data) {
        Ok(d) => d,
        Err(e) => {
            return Err(ParseError::YamlError(e));
        },
    };
    let versions = scan_document_versions(data);
    assemble_records(docs, &versions)
}

} // verus!
