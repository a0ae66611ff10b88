//! The closed set of task execution states and their wire tokens.

use crate::text::same_text;
use vstd::prelude::*;

verus! {

/// The execution state of one task of a pipeline.
#[derive(PartialEq, Eq, Structural, Debug, Clone, Copy)]
pub enum PipelineTaskStatus {
    Creating,
    Failed,
    Finished,
    Running,
    WaitingForRunner,
    WaitingOnDependencies,
}

impl PipelineTaskStatus {
    /// The upper-snake-case token that stands for this state on the wire.
    pub open spec fn token(self) -> Seq<char> {
        match self {
            PipelineTaskStatus::Creating => "CREATING"@,
            PipelineTaskStatus::Failed => "FAILED"@,
            PipelineTaskStatus::Finished => "FINISHED"@,
            PipelineTaskStatus::Running => "RUNNING"@,
            PipelineTaskStatus::WaitingForRunner => "WAITING_FOR_RUNNER"@,
            PipelineTaskStatus::WaitingOnDependencies => "WAITING_ON_DEPENDENCIES"@,
        }
    }

    /// The state that a token stands for; `None` for any other text.
    pub open spec fn of_token(token: Seq<char>) -> Option<PipelineTaskStatus> {
        if token == "CREATING"@ {
            Some(PipelineTaskStatus::Creating)
        } else if token == "FAILED"@ {
            Some(PipelineTaskStatus::Failed)
        } else if token == "FINISHED"@ {
            Some(PipelineTaskStatus::Finished)
        } else if token == "RUNNING"@ {
            Some(PipelineTaskStatus::Running)
        } else if token == "WAITING_FOR_RUNNER"@ {
            Some(PipelineTaskStatus::WaitingForRunner)
        } else if token == "WAITING_ON_DEPENDENCIES"@ {
            Some(PipelineTaskStatus::WaitingOnDependencies)
        } else {
            None
        }
    }

    /// Whether a task in this state is still in progress.
    pub open spec fn building(self) -> bool {
        self == PipelineTaskStatus::Creating || self == PipelineTaskStatus::Running || self
            == PipelineTaskStatus::WaitingForRunner || self
            == PipelineTaskStatus::WaitingOnDependencies
    }

    /// Whether a status text is the token of a state that is in progress.
    pub open spec fn building_token(token: Seq<char>) -> bool {
        token == "CREATING"@ || token == "RUNNING"@ || token == "WAITING_FOR_RUNNER"@ || token
            == "WAITING_ON_DEPENDENCIES"@
    }

    /// The tokens of the states that count as building, in the order in which
    /// a status text is held against them.
    pub fn building_states() -> (states: Vec<&'static str>)
        ensures
            states@.len() == 4,
            states@[0]@ == PipelineTaskStatus::Running.token(),
            states@[1]@ == PipelineTaskStatus::Creating.token(),
            states@[2]@ == PipelineTaskStatus::WaitingForRunner.token(),
            states@[3]@ == PipelineTaskStatus::WaitingOnDependencies.token(),
    {
        let mut states: Vec<&'static str> = Vec::new();
        states.push(PipelineTaskStatus::Running.as_str());
        states.push(PipelineTaskStatus::Creating.as_str());
        states.push(PipelineTaskStatus::WaitingForRunner.as_str());
        states.push(PipelineTaskStatus::WaitingOnDependencies.as_str());
        states
    }

    /// The wire token of this state.
    pub fn as_str(&self) -> (token: &'static str)
        ensures
            token@ == self.token(),
    {
        match *self {
            PipelineTaskStatus::Creating => "CREATING",
            PipelineTaskStatus::Failed => "FAILED",
            PipelineTaskStatus::Finished => "FINISHED",
            PipelineTaskStatus::Running => "RUNNING",
            PipelineTaskStatus::WaitingForRunner => "WAITING_FOR_RUNNER",
            PipelineTaskStatus::WaitingOnDependencies => "WAITING_ON_DEPENDENCIES",
        }
    }

    /// Reads a wire token; any text outside the canonical set yields `None`.
    pub fn value(str_value: &str) -> (status: Option<PipelineTaskStatus>)
        ensures
            status == Self::of_token(str_value@),
    {
        if same_text(str_value, "CREATING") {
            Some(PipelineTaskStatus::Creating)
        } else if same_text(str_value, "FAILED") {
            Some(PipelineTaskStatus::Failed)
        } else if same_text(str_value, "FINISHED") {
            Some(PipelineTaskStatus::Finished)
        } else if same_text(str_value, "RUNNING") {
            Some(PipelineTaskStatus::Running)
        } else if same_text(str_value, "WAITING_FOR_RUNNER") {
            Some(PipelineTaskStatus::WaitingForRunner)
        } else if same_text(str_value, "WAITING_ON_DEPENDENCIES") {
            Some(PipelineTaskStatus::WaitingOnDependencies)
        } else {
            None
        }
    }

    /// Whether `status` is the token of a state in the building set. A text
    /// that is no token at all is never building.
    pub fn is_building(status: &str) -> (building: bool)
        ensures
            building == Self::building_token(status@),
            building <==> (status@ == "CREATING"@ || status@ == "RUNNING"@ || status@
                == "WAITING_FOR_RUNNER"@ || status@ == "WAITING_ON_DEPENDENCIES"@),
    {
        let states = Self::building_states();
        let mut i: usize = 0;
        while i < states.len()
            invariant
                i <= states@.len(),
                states@.len() == 4,
                states@[0]@ == PipelineTaskStatus::Running.token(),
                states@[1]@ == PipelineTaskStatus::Creating.token(),
                states@[2]@ == PipelineTaskStatus::WaitingForRunner.token(),
                states@[3]@ == PipelineTaskStatus::WaitingOnDependencies.token(),
                forall|j: int| 0 <= j < i ==> states@[j]@ != status@,
            decreases states@.len() - i,
        {
            if same_text(states[i], status) {
                return true;
            }
            i += 1;
        }
        false
    }
}

/// The six tokens are pairwise different texts.
pub proof fn lemma_tokens_distinct(a: PipelineTaskStatus, b: PipelineTaskStatus)
    ensures
        a.token() == b.token() <==> a == b,
{
    reveal_strlit("CREATING");
    reveal_strlit("FAILED");
    reveal_strlit("FINISHED");
    reveal_strlit("RUNNING");
    reveal_strlit("WAITING_FOR_RUNNER");
    reveal_strlit("WAITING_ON_DEPENDENCIES");
    assert("CREATING"@.len() == 8 && "CREATING"@[0] == 'C');
    assert("FAILED"@.len() == 6);
    assert("FINISHED"@.len() == 8 && "FINISHED"@[0] == 'F');
    assert("RUNNING"@.len() == 7);
    assert("WAITING_FOR_RUNNER"@.len() == 18);
    assert("WAITING_ON_DEPENDENCIES"@.len() == 23);
}

/// Reading the token of a state gives that state back: writing and
/// reading are inverse on the canonical set.
pub proof fn lemma_value_of_token(status: PipelineTaskStatus)
    ensures
        PipelineTaskStatus::of_token(status.token()) == Some(status),
{
    lemma_tokens_distinct(status, PipelineTaskStatus::Creating);
    lemma_tokens_distinct(status, PipelineTaskStatus::Failed);
    lemma_tokens_distinct(status, PipelineTaskStatus::Finished);
    lemma_tokens_distinct(status, PipelineTaskStatus::Running);
    lemma_tokens_distinct(status, PipelineTaskStatus::WaitingForRunner);
    lemma_tokens_distinct(status, PipelineTaskStatus::WaitingOnDependencies);
}

/// A text that reads as a state is exactly that state's token, so the
/// mapping between states and tokens is one to one.
pub proof fn lemma_token_of_value(token: Seq<char>, status: PipelineTaskStatus)
    requires
        PipelineTaskStatus::of_token(token) == Some(status),
    ensures
        token == status.token(),
{
}

/// A status text is building exactly when it reads as a state of the
/// building set; a text that reads as no state is not building.
pub proof fn lemma_building_token(token: Seq<char>)
    ensures
        PipelineTaskStatus::building_token(token) <==> match PipelineTaskStatus::of_token(token) {
            Some(status) => status.building(),
            None => false,
        },
{
    lemma_tokens_distinct(PipelineTaskStatus::Creating, PipelineTaskStatus::Failed);
    lemma_tokens_distinct(PipelineTaskStatus::Creating, PipelineTaskStatus::Finished);
    lemma_tokens_distinct(PipelineTaskStatus::Creating, PipelineTaskStatus::Running);
    lemma_tokens_distinct(PipelineTaskStatus::Creating, PipelineTaskStatus::WaitingForRunner);
    lemma_tokens_distinct(PipelineTaskStatus::Creating, PipelineTaskStatus::WaitingOnDependencies);
    lemma_tokens_distinct(PipelineTaskStatus::Failed, PipelineTaskStatus::Finished);
    lemma_tokens_distinct(PipelineTaskStatus::Failed, PipelineTaskStatus::Running);
    lemma_tokens_distinct(PipelineTaskStatus::Failed, PipelineTaskStatus::WaitingForRunner);
    lemma_tokens_distinct(PipelineTaskStatus::Failed, PipelineTaskStatus::WaitingOnDependencies);
    lemma_tokens_distinct(PipelineTaskStatus::Finished, PipelineTaskStatus::Running);
    lemma_tokens_distinct(PipelineTaskStatus::Finished, PipelineTaskStatus::WaitingForRunner);
    lemma_tokens_distinct(PipelineTaskStatus::Finished, PipelineTaskStatus::WaitingOnDependencies);
    lemma_tokens_distinct(PipelineTaskStatus::Running, PipelineTaskStatus::WaitingForRunner);
    lemma_tokens_distinct(PipelineTaskStatus::Running, PipelineTaskStatus::WaitingOnDependencies);
    lemma_tokens_distinct(
        PipelineTaskStatus::WaitingForRunner,
        PipelineTaskStatus::WaitingOnDependencies,
    );
}

} // verus!
