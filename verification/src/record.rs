//! One measured function: identity, resource figures, health scores and
//! free-text recommendations, as the external estimator delivers them.

use vstd::prelude::*;
use crate::metrics::{HealthScores, ResourceUsage};

verus! {

/// The measurement record of one function in one file.
///
/// Constructed wholesale by the external estimator, immutable thereafter,
/// and consumed by exactly one aggregation pass. `name` is `None` for an
/// anonymous function; `line` and `column` are 1-based.
pub struct FunctionRecord {
    pub name: Option<String>,
    pub file_path: String,
    pub line: u64,
    pub column: u64,
    pub resources: ResourceUsage,
    pub health: HealthScores,
    pub recommendations: Vec<String>,
}

/// The mathematical view of a [`FunctionRecord`]: strings as character
/// sequences, everything else as the record holds it.
pub ghost struct FunctionRecordView {
    pub name: Option<Seq<char>>,
    pub file_path: Seq<char>,
    pub line: u64,
    pub column: u64,
    pub resources: ResourceUsage,
    pub health: HealthScores,
    pub recommendations: Seq<Seq<char>>,
}

impl View for FunctionRecord {
    type V = FunctionRecordView;

    open spec fn view(&self) -> FunctionRecordView {
        FunctionRecordView {
            name: match self.name {
                Option::Some(n) => Option::Some(n@),
                Option::None => Option::None,
            },
            file_path: self.file_path@,
            line: self.line,
            column: self.column,
            resources: self.resources,
            health: self.health,
            recommendations: self.recommendations@.map_values(|s: String| s@),
        }
    }
}

} // verus!
