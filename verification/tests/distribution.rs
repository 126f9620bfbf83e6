//! Tests of the distribution value and its build-configuration
//! constructors.

use pyembed::distribution::{
    ParsedPythonDistribution, PythonDistribution, PythonDistributionLocation,
};
use pyembed::starlark_args::{
    default_python_distribution, python_distribution_call, DistributionTableEntry, StarValue,
};

const HOST: &str = "x86_64-unknown-linux-gnu";
const DEST_DIR: &str = "python_distributions";

fn host_table() -> Vec<DistributionTableEntry> {
    vec![
        DistributionTableEntry {
            triple: "aarch64-apple-darwin".to_string(),
            url: "https://example.invalid/cpython-aarch64.tar.zst".to_string(),
            sha256: "1111111111111111111111111111111111111111111111111111111111111111".to_string(),
        },
        DistributionTableEntry {
            triple: HOST.to_string(),
            url: "https://example.invalid/cpython-x86_64.tar.zst".to_string(),
            sha256: "2222222222222222222222222222222222222222222222222222222222222222".to_string(),
        },
    ]
}

#[test]
fn test_default_python_distribution() {
    let table = host_table();
    let dist = default_python_distribution(StarValue::NoneValue, HOST, &table, DEST_DIR)
        .expect("default_python_distribution()");
    assert_eq!(dist.get_type(), "PythonDistribution");

    let host_distribution = &table[1];
    let wanted = PythonDistributionLocation::Url {
        url: host_distribution.url.clone(),
        sha256: host_distribution.sha256.clone(),
    };
    assert_eq!(dist.source, wanted);
}

#[test]
fn test_default_python_distribution_bad_arg() {
    let table = host_table();
    let err = default_python_distribution(StarValue::Bool(false), HOST, &table, DEST_DIR)
        .expect_err("default_python_distribution(False)");
    assert_eq!(err.message, "The type 'bool' is not str");
}

#[test]
fn test_python_distribution_no_args() {
    let err = python_distribution_call(None, StarValue::NoneValue, StarValue::NoneValue, DEST_DIR)
        .expect_err("PythonDistribution()");
    assert!(err.message.starts_with("Missing parameter sha256"));
}

#[test]
fn test_python_distribution_multiple_args() {
    let err = python_distribution_call(
        Some(StarValue::Str("sha256".to_string())),
        StarValue::Str("local_path_value".to_string()),
        StarValue::Str("url_value".to_string()),
        DEST_DIR,
    )
    .expect_err("PythonDistribution('sha256', url='url_value', local_path='local_path_value')");
    assert_eq!(err.message, "cannot define both local_path and url");
}

#[test]
fn test_python_distribution_url() {
    let dist = python_distribution_call(
        Some(StarValue::Str("sha256".to_string())),
        StarValue::NoneValue,
        StarValue::Str("some_url".to_string()),
        DEST_DIR,
    )
    .expect("PythonDistribution('sha256', url='some_url')");
    let wanted = PythonDistributionLocation::Url {
        url: "some_url".to_string(),
        sha256: "sha256".to_string(),
    };
    assert_eq!(dist.source, wanted);
}

#[test]
fn test_python_distribution_local_path() {
    let dist = python_distribution_call(
        Some(StarValue::Str("sha256".to_string())),
        StarValue::Str("some_path".to_string()),
        StarValue::NoneValue,
        DEST_DIR,
    )
    .expect("PythonDistribution('sha256', local_path='some_path')");
    let wanted = PythonDistributionLocation::Local {
        local_path: "some_path".to_string(),
        sha256: "sha256".to_string(),
    };
    assert_eq!(dist.source, wanted);
}

#[test]
fn test_source_modules() {
    let table = host_table();
    let mut dist = default_python_distribution(StarValue::NoneValue, HOST, &table, DEST_DIR)
        .expect("default_python_distribution()");
    dist.ensure_distribution_resolved(ParsedPythonDistribution {
        source_module_names: vec!["os".to_string(), "sys".to_string()],
    });
    let mods = dist.source_modules();
    assert_eq!(mods, vec!["os".to_string(), "sys".to_string()]);
}

#[test]
fn test_python_distribution_bad_sha256_type() {
    let err = python_distribution_call(
        Some(StarValue::Int(3)),
        StarValue::NoneValue,
        StarValue::NoneValue,
        DEST_DIR,
    )
    .expect_err("PythonDistribution(3)");
    assert_eq!(err.message, "The type 'int' is not str");
}

#[test]
fn test_python_distribution_url_defaults_to_none_text() {
    // With neither local_path nor url given, the URL field carries the
    // rendered `None`, exactly as the configuration language renders the
    // absent value.
    let dist = python_distribution_call(
        Some(StarValue::Str("sha256".to_string())),
        StarValue::NoneValue,
        StarValue::NoneValue,
        DEST_DIR,
    )
    .expect("PythonDistribution('sha256')");
    let wanted = PythonDistributionLocation::Url {
        url: "None".to_string(),
        sha256: "sha256".to_string(),
    };
    assert_eq!(dist.source, wanted);
}

#[test]
fn test_default_python_distribution_unknown_triple() {
    let table = host_table();
    let err =
        default_python_distribution(StarValue::NoneValue, "wasm32-unknown-unknown", &table, DEST_DIR)
            .expect_err("unknown triple");
    assert_eq!(err.code, "no_default_distribution");
    assert_eq!(
        err.message,
        "could not find default Python distribution for wasm32-unknown-unknown"
    );
    assert_eq!(err.label, "build_target");
}

#[test]
fn test_to_str_renders_source() {
    let dist = PythonDistribution::from_location(
        PythonDistributionLocation::Url {
            url: "some_url".to_string(),
            sha256: "sha256".to_string(),
        },
        DEST_DIR,
    );
    assert_eq!(
        dist.to_str(),
        "PythonDistribution<Url { url: \"some_url\", sha256: \"sha256\" }>"
    );
    assert_eq!(dist.to_repr(), dist.to_str());
}

#[test]
fn test_ensure_distribution_resolved_runs_once() {
    let mut dist = PythonDistribution::from_location(
        PythonDistributionLocation::Local {
            local_path: "dist.tar.zst".to_string(),
            sha256: "abc".to_string(),
        },
        DEST_DIR,
    );
    assert!(dist.distribution.is_none());
    dist.ensure_distribution_resolved(ParsedPythonDistribution {
        source_module_names: vec!["first".to_string()],
    });
    dist.ensure_distribution_resolved(ParsedPythonDistribution {
        source_module_names: vec!["second".to_string()],
    });
    assert_eq!(dist.source_modules(), vec!["first".to_string()]);
    assert!(dist.to_bool());
}
