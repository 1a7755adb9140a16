//! The metadata that identifies the scenario of a microscore suite.
use vstd::prelude::*;

verus! {

/// Where and under which scenario a set of microscores was produced.
#[derive(Debug, Clone, Default, PartialEq, Eq)]
pub struct ScenarioMetadata {
    pub cell: Option<u64>,
    pub factor: Option<String>,
    pub pathway: Option<String>,
    pub horizon: Option<i32>,
    pub country: Option<String>,
    pub continent: Option<String>,
    pub building_type: Option<String>,
}

impl ScenarioMetadata {
    /// The factor that outcomes of the scenario are attributed to: the
    /// scenario's factor, or `unknown` when it names none.
    pub fn factor_label(&self) -> (s: String)
        ensures
            s@ == match self.factor {
                Some(f) => f@,
                None => "unknown"@,
            },
    {
        match &self.factor {
            Some(f) => f.clone(),
            None => String::from_str("unknown"),
        }
    }
}

} // verus!
