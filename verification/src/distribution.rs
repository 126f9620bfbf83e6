//! The build-configuration value describing an embeddable runtime
//! distribution: where it comes from (a URL or a local file, with its
//! digest), where it is unpacked, and — once resolved — what it contains.
//! Resolution itself (download, extraction) is an external concern; its
//! outcome is handed in.

use vstd::prelude::*;

verus! {

/// Where a runtime distribution comes from.
#[derive(Clone, Debug, PartialEq, Eq)]
pub enum PythonDistributionLocation {
    /// A local archive file, with its expected digest.
    Local { local_path: String, sha256: String },
    /// A download URL, with its expected digest.
    Url { url: String, sha256: String },
}

/// A resolved distribution, as far as this logic reads it: the names of
/// the source modules it ships.
#[derive(Clone, Debug)]
pub struct ParsedPythonDistribution {
    /// Names of the distribution's source modules.
    pub source_module_names: Vec<String>,
}

/// Views of a sequence of strings.
pub open spec fn str_views(s: Seq<String>) -> Seq<Seq<char>> {
    s.map_values(|x: String| x@)
}

/// Rendering of a distribution source: the variant with its fields.
pub open spec fn spec_location_repr(l: PythonDistributionLocation) -> Seq<char> {
    match l {
        PythonDistributionLocation::Local { local_path, sha256 } => "Local { local_path: \""@
            + local_path@ + "\", sha256: \""@ + sha256@ + "\" }"@,
        PythonDistributionLocation::Url { url, sha256 } => "Url { url: \""@ + url@
            + "\", sha256: \""@ + sha256@ + "\" }"@,
    }
}

/// A runtime distribution as the build configuration sees it.
#[derive(Clone, Debug)]
pub struct PythonDistribution {
    /// Where the distribution comes from.
    pub source: PythonDistributionLocation,
    /// Directory the distribution is unpacked into.
    pub dest_dir: String,
    /// The resolved distribution, once resolution has run.
    pub distribution: Option<ParsedPythonDistribution>,
}

impl PythonDistribution {
    /// A distribution value for the given source, not yet resolved.
    pub fn from_location(location: PythonDistributionLocation, dest_dir: &str) -> (r:
        PythonDistribution)
        ensures
            r.source == location,
            r.dest_dir@ == dest_dir@,
            r.distribution is None,
    {
        PythonDistribution { source: location, dest_dir: dest_dir.to_owned(), distribution: None }
    }

    /// Attach the resolved distribution, once.  Resolution runs at most
    /// one time: when a resolved distribution is already attached, the
    /// handed-in one is discarded and nothing changes.
    pub fn ensure_distribution_resolved(&mut self, resolved: ParsedPythonDistribution)
        ensures
            final(self).distribution is Some,
            old(self).distribution is Some ==> *final(self) == *old(self),
            old(self).distribution is None ==> *final(self) == (PythonDistribution {
                distribution: Some(resolved),
                ..*old(self)
            }),
    {
        if self.distribution.is_some() {
            return ;
        }
        self.distribution = Some(resolved);
    }

    /// The names of the resolved distribution's source modules.
    pub fn source_modules(&self) -> (r: Vec<String>)
        requires
            self.distribution is Some,
        ensures
            str_views(r@) == str_views(self.distribution->Some_0.source_module_names@),
    {
        match &self.distribution {
            Some(d) => {
                let names = &d.source_module_names;
                let mut r: Vec<String> = Vec::new();
                let mut i: usize = 0;
                while i < names.len()
                    invariant
                        i <= names@.len(),
                        r@.len() == i,
                        forall|k: int| 0 <= k < i ==> r@[k]@ == names@[k]@,
                    decreases names@.len() - i,
                {
                    r.push(names[i].clone());
                    i = i + 1;
                }
                assert(str_views(r@) =~= str_views(names@));
                r
            },
            None => {
                proof {
                    assert(false);
                }
                Vec::new()
            },
        }
    }

    /// Human-readable rendering of this value: the type name around the
    /// source description.
    pub fn to_str(&self) -> (r: String)
        ensures
            r@ == "PythonDistribution<"@ + spec_location_repr(self.source) + ">"@,
    {
        let mut s = "PythonDistribution<".to_owned();
        match &self.source {
            PythonDistributionLocation::Local { local_path, sha256 } => {
                s.append("Local { local_path: \"");
                s.append(local_path.as_str());
                s.append("\", sha256: \"");
                s.append(sha256.as_str());
                s.append("\" }");
            },
            PythonDistributionLocation::Url { url, sha256 } => {
                s.append("Url { url: \"");
                s.append(url.as_str());
                s.append("\", sha256: \"");
                s.append(sha256.as_str());
                s.append("\" }");
            },
        }
        s.append(">");
        assert(s@ =~= "PythonDistribution<"@ + spec_location_repr(self.source) + ">"@);
        s
    }

    /// Same rendering as [`Self::to_str`].
    pub fn to_repr(&self) -> (r: String)
        ensures
            r@ == "PythonDistribution<"@ + spec_location_repr(self.source) + ">"@,
    {
        self.to_str()
    }

    /// The type name this value reports to the build configuration.
    pub fn get_type(&self) -> (r: String)
        ensures
            r@ == "PythonDistribution"@,
    {
        "PythonDistribution".to_owned()
    }

    /// Truthiness of this value in the build configuration.
    pub fn to_bool(&self) -> (r: bool)
        ensures
            r,
    {
        true
    }
}

} // verus!
