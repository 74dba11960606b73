//! The finding model: severities, locations, the three finding kinds and
//! the aggregate analysis result. The result is a strictly append-only
//! sink; every detection rule only ever pushes onto one of its three
//! sequences.

use vstd::prelude::*;
use crate::utils::Catalog;
use crate::utils::CatalogEntryV;

verus! {

/// Severity of a vulnerability. The ordering drives report grouping only,
/// never detection.
#[derive(PartialEq, Eq, Structural, Clone, Copy, Debug)]
pub enum Severity {
    /// Requires immediate attention.
    Critical,
    /// Should be addressed promptly.
    High,
    /// Should be fixed when possible.
    Medium,
    /// Worth considering.
    Low,
}

/// A best-effort location in the analyzed source: a line of 0 means the
/// line is unknown.
pub struct Location {
    pub file: String,
    pub line: usize,
    pub column: usize,
}

#[verifier::ext_equal]
pub struct LocationV {
    pub file: Seq<char>,
    pub line: nat,
    pub column: nat,
}

impl View for Location {
    type V = LocationV;

    open spec fn view(&self) -> LocationV {
        LocationV { file: self.file@, line: self.line as nat, column: self.column as nat }
    }
}

impl DeepView for Location {
    type V = LocationV;

    open spec fn deep_view(&self) -> LocationV {
        self.view()
    }
}

/// A security vulnerability found in the analyzed code.
pub struct Vulnerability {
    pub severity: Severity,
    pub description: String,
    pub location: Location,
    pub suggestion: String,
}

#[verifier::ext_equal]
pub struct VulnerabilityV {
    pub severity: Severity,
    pub description: Seq<char>,
    pub location: LocationV,
    pub suggestion: Seq<char>,
}

impl View for Vulnerability {
    type V = VulnerabilityV;

    open spec fn view(&self) -> VulnerabilityV {
        VulnerabilityV {
            severity: self.severity,
            description: self.description@,
            location: self.location@,
            suggestion: self.suggestion@,
        }
    }
}

impl DeepView for Vulnerability {
    type V = VulnerabilityV;

    open spec fn deep_view(&self) -> VulnerabilityV {
        self.view()
    }
}

/// A lower-confidence or stylistic issue.
pub struct Warning {
    pub description: String,
    pub location: Location,
    pub suggestion: String,
}

#[verifier::ext_equal]
pub struct WarningV {
    pub description: Seq<char>,
    pub location: LocationV,
    pub suggestion: Seq<char>,
}

impl View for Warning {
    type V = WarningV;

    open spec fn view(&self) -> WarningV {
        WarningV {
            description: self.description@,
            location: self.location@,
            suggestion: self.suggestion@,
        }
    }
}

impl DeepView for Warning {
    type V = WarningV;

    open spec fn deep_view(&self) -> WarningV {
        self.view()
    }
}

/// An observational note, never an actionable finding.
pub struct Info {
    pub description: String,
    pub location: Location,
}

#[verifier::ext_equal]
pub struct InfoV {
    pub description: Seq<char>,
    pub location: LocationV,
}

impl View for Info {
    type V = InfoV;

    open spec fn view(&self) -> InfoV {
        InfoV { description: self.description@, location: self.location@ }
    }
}

impl DeepView for Info {
    type V = InfoV;

    open spec fn deep_view(&self) -> InfoV {
        self.view()
    }
}

/// The aggregate analysis result: findings in emission order, plus the
/// description catalog used only when a report is rendered.
pub struct AnalysisResult {
    pub vulnerabilities: Vec<Vulnerability>,
    pub warnings: Vec<Warning>,
    pub info: Vec<Info>,
    pub vulnerability_descriptions: Catalog,
}

impl Default for AnalysisResult {
    /// An empty result with an empty catalog.
    fn default() -> (r: Self)
        ensures
            r.vulnerabilities.deep_view() =~= Seq::<VulnerabilityV>::empty(),
            r.warnings.deep_view() =~= Seq::<WarningV>::empty(),
            r.info.deep_view() =~= Seq::<InfoV>::empty(),
            r.vulnerability_descriptions@ =~= Seq::<CatalogEntryV>::empty(),
    {
        AnalysisResult {
            vulnerabilities: Vec::new(),
            warnings: Vec::new(),
            info: Vec::new(),
            vulnerability_descriptions: Catalog::empty(),
        }
    }
}

/// The number of vulnerabilities of the given severity among `vulns`.
pub open spec fn count_with_severity(vulns: Seq<VulnerabilityV>, severity: Severity) -> nat
    decreases vulns.len(),
{
    if vulns.len() == 0 {
        0
    } else {
        count_with_severity(vulns.drop_last(), severity) + (if vulns.last().severity
            == severity {
            1nat
        } else {
            0nat
        })
    }
}

impl AnalysisResult {
    /// Appends a vulnerability; nothing else changes.
    pub fn push_vulnerability(
        &mut self,
        severity: Severity,
        description: String,
        location: Location,
        suggestion: String,
    )
        ensures
            final(self).vulnerabilities.deep_view() == old(self).vulnerabilities.deep_view().push(
                (VulnerabilityV {
                    severity: severity,
                    description: description@,
                    location: location@,
                    suggestion: suggestion@,
                }),
            ),
            final(self).warnings == old(self).warnings,
            final(self).info == old(self).info,
            final(self).vulnerability_descriptions == old(self).vulnerability_descriptions,
    {
        let ghost oldv = self.vulnerabilities.deep_view();
        let v = Vulnerability { severity, description, location, suggestion };
        let ghost vv = v@;
        self.vulnerabilities.push(v);
        proof {
            assert(self.vulnerabilities.deep_view() =~= oldv.push(vv));
        }
    }

    /// Appends a warning; nothing else changes.
    pub fn push_warning(&mut self, description: String, location: Location, suggestion: String)
        ensures
            final(self).warnings.deep_view() == old(self).warnings.deep_view().push(
                (WarningV {
                    description: description@,
                    location: location@,
                    suggestion: suggestion@,
                }),
            ),
            final(self).vulnerabilities == old(self).vulnerabilities,
            final(self).info == old(self).info,
            final(self).vulnerability_descriptions == old(self).vulnerability_descriptions,
    {
        let ghost oldv = self.warnings.deep_view();
        let w = Warning { description, location, suggestion };
        let ghost wv = w@;
        self.warnings.push(w);
        proof {
            assert(self.warnings.deep_view() =~= oldv.push(wv));
        }
    }

    /// Appends an informational item; nothing else changes.
    pub fn push_info(&mut self, description: String, location: Location)
        ensures
            final(self).info.deep_view() == old(self).info.deep_view().push(
                (InfoV { description: description@, location: location@ }),
            ),
            final(self).vulnerabilities == old(self).vulnerabilities,
            final(self).warnings == old(self).warnings,
            final(self).vulnerability_descriptions == old(self).vulnerability_descriptions,
    {
        let ghost oldv = self.info.deep_view();
        let inf = Info { description, location };
        let ghost iv = inf@;
        self.info.push(inf);
        proof {
            assert(self.info.deep_view() =~= oldv.push(iv));
        }
    }

    /// The number of recorded vulnerabilities of the given severity: the
    /// severity-grouped view a report renderer consumes.
    pub fn count_by_severity(&self, severity: Severity) -> (r: usize)
        ensures
            r == count_with_severity(self.vulnerabilities.deep_view(), severity),
    {
        let mut count: usize = 0;
        let mut i: usize = 0;
        let ghost all = self.vulnerabilities.deep_view();
        while i < self.vulnerabilities.len()
            invariant
                i <= self.vulnerabilities@.len(),
                all == self.vulnerabilities.deep_view(),
                count <= i,
                count == count_with_severity(all.subrange(0, i as int), severity),
            decreases self.vulnerabilities@.len() - i,
        {
            proof {
                let pre = all.subrange(0, i + 1);
                assert(pre.drop_last() =~= all.subrange(0, i as int));
                assert(pre.last() == all[i as int]);
            }
            if severity_eq(self.vulnerabilities[i].severity, severity) {
                count += 1;
            }
            i += 1;
        }
        proof {
            assert(all.subrange(0, all.len() as int) =~= all);
        }
        count
    }
}

/// Whether two severities are the same variant.
pub fn severity_eq(a: Severity, b: Severity) -> (r: bool)
    ensures
        r == (a == b),
{
    a == b
}

} // verus!
