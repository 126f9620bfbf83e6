//! The build-configuration language's view of the distribution
//! constructors: argument binding and validation for the
//! `PythonDistribution(sha256, local_path=None, url=None)` and
//! `default_python_distribution(build_target=None)` functions, over plain
//! argument values.  The language runtime itself (parsing, evaluation) is
//! an external concern; these functions receive the bound argument values
//! and produce either the distribution value or the exact diagnostic the
//! language runtime would surface.

use vstd::prelude::*;

use crate::distribution::{PythonDistribution, PythonDistributionLocation};

verus! {

/// An argument value as the build-configuration language hands it over.
#[derive(Clone, Debug)]
pub enum StarValue {
    /// The language's `None`.
    NoneValue,
    /// A string value.
    Str(String),
    /// A boolean value.
    Bool(bool),
    /// An integer value.
    Int(i64),
}

/// The language's name for a value's type.
pub open spec fn spec_type_name(v: StarValue) -> Seq<char> {
    match v {
        StarValue::NoneValue => "NoneType"@,
        StarValue::Str(_) => "string"@,
        StarValue::Bool(_) => "bool"@,
        StarValue::Int(_) => "int"@,
    }
}

/// A surfaced diagnostic: an error code, the user-visible message, and a
/// label.
#[derive(Clone, Debug)]
pub struct CallError {
    /// Stable error code.
    pub code: String,
    /// User-visible message.
    pub message: String,
    /// Short label attached to the offending spot.
    pub label: String,
}

/// Message of the diagnostic for a value that should have been a string:
/// `The type '<type>' is not str`.
pub open spec fn spec_type_not_str_message(v: StarValue) -> Seq<char> {
    "The type '"@ + spec_type_name(v) + "' is not str"@
}

impl StarValue {
    /// The language's name for this value's type.
    pub fn get_type(&self) -> (r: String)
        ensures
            r@ == spec_type_name(*self),
    {
        match self {
            StarValue::NoneValue => "NoneType".to_owned(),
            StarValue::Str(_) => "string".to_owned(),
            StarValue::Bool(_) => "bool".to_owned(),
            StarValue::Int(_) => "int".to_owned(),
        }
    }
}

/// The diagnostic for a value that should have been a string.
fn type_not_str_error(v: &StarValue) -> (r: CallError)
    ensures
        r.message@ == spec_type_not_str_message(*v),
{
    let mut message = "The type '".to_owned();
    message.append(v.get_type().as_str());
    message.append("' is not str");
    let mut label = "Expected type 'str'".to_owned();
    CallError { code: "CV00".to_owned(), message, label }
}

/// Demand a string argument.  Any other type surfaces the language's
/// type diagnostic naming the offending type.
pub fn required_str_arg(value: &StarValue) -> (r: Result<String, CallError>)
    ensures
        value is Str ==> r is Ok && r->Ok_0@ == value->Str_0@,
        !(value is Str) ==> r is Err && r->Err_0.message@ == spec_type_not_str_message(*value),
{
    match value {
        StarValue::Str(s) => Ok(s.clone()),
        other => Err(type_not_str_error(other)),
    }
}

/// Accept a string argument or the language's `None`.  Any other type
/// surfaces the language's type diagnostic.
pub fn optional_str_arg(value: &StarValue) -> (r: Result<Option<String>, CallError>)
    ensures
        value is Str ==> r is Ok && r->Ok_0 is Some && r->Ok_0->Some_0@ == value->Str_0@,
        value is NoneValue ==> r is Ok && r->Ok_0 is None,
        !(value is Str) && !(value is NoneValue) ==> r is Err && r->Err_0.message@
            == spec_type_not_str_message(*value),
{
    match value {
        StarValue::Str(s) => Ok(Some(s.clone())),
        StarValue::NoneValue => Ok(None),
        other => Err(type_not_str_error(other)),
    }
}

/// Whether a `PythonDistribution(...)` call succeeds: the required
/// `sha256` must be present and a string, `local_path` and `url` must be
/// strings or absent, and the two must not both be given.
pub open spec fn spec_distribution_call_ok(
    sha256: Option<StarValue>,
    local_path: StarValue,
    url: StarValue,
) -> bool {
    &&& sha256 is Some
    &&& sha256->Some_0 is Str
    &&& (local_path is Str || local_path is NoneValue)
    &&& (url is Str || url is NoneValue)
    &&& !(local_path is Str && url is Str)
}

/// The `PythonDistribution(sha256, local_path=None, url=None)` function:
/// bind and validate the arguments, then build the distribution value.
/// `sha256` is `None` when the caller omitted the required parameter.
pub fn python_distribution_call(
    sha256: Option<StarValue>,
    local_path: StarValue,
    url: StarValue,
    dest_dir: &str,
) -> (r: Result<PythonDistribution, CallError>)
    ensures
        r is Ok <==> spec_distribution_call_ok(sha256, local_path, url),
        sha256 is None ==> r is Err && r->Err_0.message@ == (
        "Missing parameter sha256 for call to PythonDistribution"@),
        sha256 is Some && !(sha256->Some_0 is Str) ==> r is Err && r->Err_0.message@
            == spec_type_not_str_message(sha256->Some_0),
        sha256 is Some && sha256->Some_0 is Str && !(local_path is Str) && !(local_path
            is NoneValue) ==> r is Err && r->Err_0.message@ == spec_type_not_str_message(
            local_path,
        ),
        sha256 is Some && sha256->Some_0 is Str && (local_path is Str || local_path is NoneValue)
            && !(url is Str) && !(url is NoneValue) ==> r is Err && r->Err_0.message@
            == spec_type_not_str_message(url),
        sha256 is Some && sha256->Some_0 is Str && local_path is Str && url is Str ==> r is Err
            && r->Err_0.message@ == "cannot define both local_path and url"@ && r->Err_0.code@
            == "CV02"@,
        r is Ok ==> ({
            let dist = r->Ok_0;
            &&& dist.distribution is None
            &&& dist.dest_dir@ == dest_dir@
            &&& (local_path is Str ==> dist.source is Local
                && dist.source->Local_local_path@ == local_path->Str_0@
                && dist.source->Local_sha256@ == sha256->Some_0->Str_0@)
            &&& (!(local_path is Str) ==> dist.source is Url && dist.source->Url_sha256@
                == sha256->Some_0->Str_0@)
            &&& (!(local_path is Str) && url is Str ==> dist.source->Url_url@ == url->Str_0@)
            &&& (!(local_path is Str) && url is NoneValue ==> dist.source->Url_url@ == (
            "None"@))
        }),
{
    let sha256_value = match sha256 {
        Some(v) => v,
        None => {
            return Err(
                CallError {
                    code: "CF00".to_owned(),
                    message: "Missing parameter sha256 for call to PythonDistribution".to_owned(),
                    label: "Not enough parameters in function call".to_owned(),
                },
            );
        },
    };
    let sha256_str = match required_str_arg(&sha256_value) {
        Ok(s) => s,
        Err(e) => {
            return Err(e);
        },
    };
    let local_path_opt = match optional_str_arg(&local_path) {
        Ok(v) => v,
        Err(e) => {
            return Err(e);
        },
    };
    let url_opt = match optional_str_arg(&url) {
        Ok(v) => v,
        Err(e) => {
            return Err(e);
        },
    };

    if local_path_opt.is_some() && url_opt.is_some() {
        return Err(
            CallError {
                code: "CV02".to_owned(),
                message: "cannot define both local_path and url".to_owned(),
                label: "cannot define both local_path and url".to_owned(),
            },
        );
    }

    let source = match local_path_opt {
        Some(p) => PythonDistributionLocation::Local { local_path: p, sha256: sha256_str },
        None => PythonDistributionLocation::Url {
            url: match url_opt {
                Some(u) => u,
                None => "None".to_owned(),
            },
            sha256: sha256_str,
        },
    };

    Ok(PythonDistribution::from_location(source, dest_dir))
}

/// One row of the table mapping build-target triples to default
/// distributions.
#[derive(Clone, Debug)]
pub struct DistributionTableEntry {
    /// The build-target triple.
    pub triple: String,
    /// Download URL of the distribution for that triple.
    pub url: String,
    /// Expected digest of that download.
    pub sha256: String,
}

/// First table row whose triple is `target`.
pub open spec fn spec_lookup_triple(s: Seq<DistributionTableEntry>, target: Seq<char>) -> Option<
    DistributionTableEntry,
>
    decreases s.len(),
{
    if s.len() == 0 {
        None
    } else if s[0].triple@ == target {
        Some(s[0])
    } else {
        spec_lookup_triple(s.skip(1), target)
    }
}

/// The `default_python_distribution(build_target=None)` function: pick
/// the distribution for the given build target, defaulting to the
/// environment's target, from the known-distributions table.
pub fn default_python_distribution(
    build_target: StarValue,
    env_build_target: &str,
    table: &Vec<DistributionTableEntry>,
    dest_dir: &str,
) -> (r: Result<PythonDistribution, CallError>)
    ensures
        ({
            let target = (match build_target {
                StarValue::NoneValue => env_build_target@,
                StarValue::Str(s) => s@,
                _ => env_build_target@,
            });
            &&& (!(build_target is Str) && !(build_target is NoneValue) ==> r is Err
                && r->Err_0.message@ == spec_type_not_str_message(build_target))
            &&& ((build_target is Str || build_target is NoneValue) ==> {
                &&& (r is Ok <==> spec_lookup_triple(table@, target) is Some)
                &&& (r is Ok ==> ({
                    let dist = r->Ok_0;
                    let row = spec_lookup_triple(table@, target)->Some_0;
                    &&& dist.distribution is None
                    &&& dist.dest_dir@ == dest_dir@
                    &&& dist.source is Url
                    &&& dist.source->Url_url@ == row.url@
                    &&& dist.source->Url_sha256@ == row.sha256@
                }))
                &&& (r is Err ==> r->Err_0.code@ == "no_default_distribution"@)
            })
        }),
{
    let target: String = match &build_target {
        StarValue::NoneValue => env_build_target.to_owned(),
        StarValue::Str(s) => s.clone(),
        other => {
            return Err(type_not_str_error(other));
        },
    };

    let mut i: usize = 0;
    let ghost tv = target@;
    proof {
        assert(table@.skip(0) =~= table@);
    }
    while i < table.len()
        invariant
            i <= table@.len(),
            tv == target@,
            build_target is Str || build_target is NoneValue,
            build_target matches StarValue::Str(s) ==> tv == s@,
            build_target is NoneValue ==> tv == env_build_target@,
            spec_lookup_triple(table@, tv) == spec_lookup_triple(table@.skip(i as int), tv),
        decreases table@.len() - i,
    {
        proof {
            assert(table@.skip(i as int)[0] == table@[i as int]);
            assert(table@.skip(i as int).skip(1) =~= table@.skip(i + 1));
        }
        if table[i].triple.eq(&target) {
            let row = &table[i];
            return Ok(
                PythonDistribution::from_location(
                    PythonDistributionLocation::Url {
                        url: row.url.clone(),
                        sha256: row.sha256.clone(),
                    },
                    dest_dir,
                ),
            );
        }
        i = i + 1;
    }

    let mut message = "could not find default Python distribution for ".to_owned();
    message.append(target.as_str());
    Err(
        CallError {
            code: "no_default_distribution".to_owned(),
            message,
            label: "build_target".to_owned(),
        },
    )
}

} // verus!
