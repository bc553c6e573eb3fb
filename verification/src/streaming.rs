//! The phases that a request to the model goes through, as shown to the
//! user while it runs.

use vstd::prelude::*;
use vstd::string::StringExecFns;

verus! {

/// Progress phases of an operation.
#[derive(Debug, Clone)]
pub enum ProgressPhase {
    Preparing,
    Embedding,
    ContextRetrieval,
    Thinking,
    ToolExecution(String),
    Finalizing,
}

impl ProgressPhase {
    /// The symbol shown for the phase.
    pub open spec fn spec_emoji(self) -> Seq<char> {
        match self {
            ProgressPhase::Preparing => "⚙️"@,
            ProgressPhase::Embedding => "🔍"@,
            ProgressPhase::ContextRetrieval => "📚"@,
            ProgressPhase::Thinking => "🧠"@,
            ProgressPhase::ToolExecution(_) => "🔧"@,
            ProgressPhase::Finalizing => "✨"@,
        }
    }

    /// The words shown for the phase.
    pub open spec fn spec_message(self) -> Seq<char> {
        match self {
            ProgressPhase::Preparing => "Preparing"@,
            ProgressPhase::Embedding => "Generating embeddings"@,
            ProgressPhase::ContextRetrieval => "Retrieving context"@,
            ProgressPhase::Thinking => "Thinking"@,
            ProgressPhase::ToolExecution(tool) => "Using "@ + tool@,
            ProgressPhase::Finalizing => "Finalizing response"@,
        }
    }

    /// The symbol shown for the phase.
    pub fn emoji(&self) -> (r: &'static str)
        ensures
            r@ == self.spec_emoji(),
    {
        match self {
            ProgressPhase::Preparing => "⚙️",
            ProgressPhase::Embedding => "🔍",
            ProgressPhase::ContextRetrieval => "📚",
            ProgressPhase::Thinking => "🧠",
            ProgressPhase::ToolExecution(_) => "🔧",
            ProgressPhase::Finalizing => "✨",
        }
    }

    /// The words shown for the phase.
    pub fn message(&self) -> (r: String)
        ensures
            r@ == self.spec_message(),
    {
        match self {
            ProgressPhase::Preparing => "Preparing".to_string(),
            ProgressPhase::Embedding => "Generating embeddings".to_string(),
            ProgressPhase::ContextRetrieval => "Retrieving context".to_string(),
            ProgressPhase::Thinking => "Thinking".to_string(),
            ProgressPhase::ToolExecution(tool) => {
                let mut text = "Using ".to_string();
                text.append(tool.as_str());
                text
            },
            ProgressPhase::Finalizing => "Finalizing response".to_string(),
        }
    }
}

/// A change of phase, with an optional remark.
#[derive(Debug, Clone)]
pub struct ProgressUpdate {
    pub phase: ProgressPhase,
    pub message: Option<String>,
}

} // verus!
