//! Static analysis for Solana/Anchor programs: a syntax-tree visitor that
//! detects common security weaknesses (missing reinitialization guards,
//! unchecked account references, unsafe arithmetic, unsafe cross-program
//! invocation patterns, and bump-seed misuse) and records them in an
//! analysis result.

pub mod analyzer;
pub mod findings;
pub mod laws;
pub mod rules;
pub mod syntax;
pub mod visitor;
pub mod text;
pub mod utils;

pub use analyzer::SolanaAnalyzer;
pub use findings::AnalysisResult;
pub use findings::Info;
pub use findings::Location;
pub use findings::Severity;
pub use findings::Vulnerability;
pub use findings::Warning;
