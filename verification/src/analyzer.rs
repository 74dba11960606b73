//! The analyzer facade: per-run configuration (the overflow-checking
//! fact read from a build manifest), per-file analysis of parsed trees,
//! and the fixed findings a run records outside any file (the
//! overflow-checks note and per-file parse-failure warnings). Walking
//! the project directory, reading files and parsing them belong to the
//! caller; this module only ever computes.

use vstd::prelude::*;
use crate::findings::{Location, AnalysisResult};
use crate::syntax::SourceFile;
use crate::visitor::{AnchorVisitor, result_extended};
use crate::rules::{Ctx, Emits, info_at, warn_at, visit_file_spec};
use crate::text::{contains_seq, str_contains, concat2};

verus! {

/// A build manifest enables runtime overflow checks: its text says
/// `overflow-checks = true`, spaced or unspaced.
pub open spec fn manifest_has_overflow_checks(t: Seq<char>) -> bool {
    contains_seq(t, "overflow-checks = true"@) || contains_seq(t, "overflow-checks=true"@)
}

/// The informational item recorded once per run when overflow checks
/// are enabled.
pub open spec fn overflow_checks_note() -> Emits {
    Emits::just_info(
        info_at(
            (Ctx { file: "Cargo.toml"@, content: Seq::empty(), overflow_checks: true }),
            0,
            "Project has overflow-checks = true in Cargo.toml, which provides runtime protection against integer overflow/underflow"@,
        ),
    )
}

/// The warning recorded for a file that does not parse.
pub open spec fn parse_failure_warning(file: Seq<char>, err: Seq<char>) -> Emits {
    Emits::just_warn(
        warn_at(
            (Ctx { file: file, content: Seq::empty(), overflow_checks: false }),
            0,
            "Failed to parse file: "@ + err,
            "Check for syntax errors or unsupported Rust syntax"@,
        ),
    )
}

impl AnalysisResult {
    /// Records the overflow-checks informational item, at the unknown
    /// line of the build manifest.
    pub fn push_overflow_checks_info(&mut self)
        ensures
            result_extended(*old(self), *final(self), overflow_checks_note()),
    {
        let ghost res0 = *self;
        self.push_info(
            String::from_str(
                "Project has overflow-checks = true in Cargo.toml, which provides runtime protection against integer overflow/underflow",
            ),
            Location { file: String::from_str("Cargo.toml"), line: 0, column: 0 },
        );
        proof {
            assert(self.vulnerabilities.deep_view() =~= res0.vulnerabilities.deep_view()
                + overflow_checks_note().vulns);
            assert(self.warnings.deep_view() =~= res0.warnings.deep_view()
                + overflow_checks_note().warns);
            assert(self.info.deep_view() =~= res0.info.deep_view()
                + overflow_checks_note().infos);
        }
    }

    /// Records the warning for a file that failed to parse, with the
    /// parser's message; analysis of the remaining files goes on.
    pub fn push_parse_failure_warning(&mut self, file: String, err_text: &String)
        ensures
            result_extended(*old(self), *final(self), parse_failure_warning(file@, err_text@)),
    {
        let ghost res0 = *self;
        let ghost out = parse_failure_warning(file@, err_text@);
        let description = concat2("Failed to parse file: ", err_text.as_str());
        self.push_warning(
            description,
            Location { file, line: 0, column: 0 },
            String::from_str("Check for syntax errors or unsupported Rust syntax"),
        );
        proof {
            assert(self.vulnerabilities.deep_view() =~= res0.vulnerabilities.deep_view()
                + out.vulns);
            assert(self.warnings.deep_view() =~= res0.warnings.deep_view() + out.warns);
            assert(self.info.deep_view() =~= res0.info.deep_view() + out.infos);
        }
    }
}

/// The per-run analyzer: the project path it was pointed at and the
/// overflow-checking fact read from the project's build manifest.
pub struct SolanaAnalyzer {
    pub project_path: String,
    pub has_overflow_checks: bool,
}

impl SolanaAnalyzer {
    /// An analyzer for the project at `project_path`. `manifest_text`
    /// is the text of the project's build manifest (or the parent
    /// directory's, when only that one is readable); with none
    /// readable, overflow checks count as absent.
    pub fn new(project_path: String, manifest_text: Option<&String>) -> (r: SolanaAnalyzer)
        ensures
            r.project_path == project_path,
            r.has_overflow_checks == (match manifest_text {
                Some(t) => manifest_has_overflow_checks(t@),
                None => false,
            }),
    {
        let has_overflow_checks = match manifest_text {
            Some(t) => Self::check_for_overflow_checks(t.as_str()),
            None => false,
        };
        SolanaAnalyzer { project_path, has_overflow_checks }
    }

    /// Whether a build manifest enables runtime overflow checks.
    pub fn check_for_overflow_checks(manifest_text: &str) -> (r: bool)
        ensures
            r == manifest_has_overflow_checks(manifest_text@),
    {
        str_contains(manifest_text, "overflow-checks = true") || str_contains(
            manifest_text,
            "overflow-checks=true",
        )
    }

    /// Analyzes one parsed file: a fresh visitor walks the tree and
    /// appends exactly the findings the detection rules define for this
    /// file text and tree, given the run's overflow-checking fact. The
    /// description catalog plays no part in what is appended.
    pub fn analyze_file(&self, path: String, content: &String, file: &SourceFile,
        result: &mut AnalysisResult)
        requires
            content@.len() < usize::MAX,
        ensures
            result_extended(
                *old(result),
                *final(result),
                visit_file_spec(
                    (Ctx {
                        file: path@,
                        content: content@,
                        overflow_checks: self.has_overflow_checks,
                    }),
                    *file,
                ).out,
            ),
    {
        let mut visitor = AnchorVisitor::new(path, content.as_str(), self.has_overflow_checks);
        visitor.visit_file(file, result);
    }
}

} // verus!
