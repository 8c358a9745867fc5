//! Evaluators: the ways of choosing among solutions.

use vstd::prelude::*;
use vstd::string::*;
use crate::competition::CompetitorSolution;
use crate::text::{decimal_text, push_decimal};

verus! {

/// How the comparison prompt begins, up to the number of solutions.
pub const PROMPT_INTRO: &'static str = "You are evaluating ";

/// What follows the number of solutions, up to the task.
pub const PROMPT_TASK: &'static str = " solutions to this coding task:\n\nTask: ";

/// What follows the task: the criteria.
pub const PROMPT_CRITERIA: &'static str =
    "\n\nCompare the solutions and rank them from best to worst.\nConsider: correctness, maintainability, idiomatic style, and elegance.\n\n";

/// What stands for the diff of a solution.
pub const PROMPT_DIFF: &'static str = "[Diff content would be included here]\n\n";

/// How the comparison prompt ends: the form of the answer.
pub const PROMPT_ANSWER: &'static str =
    "Respond with JSON: {\"rankings\": [{\"agent_id\": \"...\", \"rank\": 1, \"reasoning\": \"...\"}]}";

/// The section of the comparison prompt for the solution at position
/// `index`: a heading with its number, counted from 1, and its agent; the
/// size of its diff, where that is known; and the diff.
pub open spec fn prompt_section(solution: CompetitorSolution, index: nat) -> Seq<char> {
    let heading = "=== Solution "@ + decimal_text(index + 1) + " (Agent: "@ + solution.agent_id@
        + ") ===\n"@;
    let size = match solution.diff_stats {
        Some(diff) => "Files changed: "@ + decimal_text(diff.files_changed as nat) + ", +"@
            + decimal_text(diff.insertions as nat) + " -"@ + decimal_text(diff.deletions as nat)
            + "\n\n"@,
        None => Seq::empty(),
    };
    heading + size + PROMPT_DIFF@
}

/// The sections of the first `count` solutions, one after the other.
pub open spec fn prompt_sections(solutions: Seq<CompetitorSolution>, count: nat) -> Seq<char>
    decreases count,
{
    if count == 0 || count > solutions.len() {
        Seq::empty()
    } else {
        prompt_sections(solutions, (count - 1) as nat) + prompt_section(
            solutions[count - 1],
            (count - 1) as nat,
        )
    }
}

/// The comparison prompt for `task` and `solutions`.
pub open spec fn spec_build_prompt(task: Seq<char>, solutions: Seq<CompetitorSolution>) -> Seq<char> {
    PROMPT_INTRO@ + decimal_text(solutions.len()) + PROMPT_TASK@ + task + PROMPT_CRITERIA@
        + prompt_sections(solutions, solutions.len()) + PROMPT_ANSWER@
}

/// Model-based evaluator: a language model compares the solutions.
#[derive(Debug)]
pub struct ModelEvaluator {
    model_name: String,
}

impl ModelEvaluator {
    pub closed spec fn spec_model_name(&self) -> Seq<char> {
        self.model_name@
    }

    /// An evaluator that asks the model `model_name`.
    pub fn new(model_name: String) -> (evaluator: Self)
        ensures
            evaluator.spec_model_name() == model_name@,
    {
        ModelEvaluator { model_name }
    }

    /// The model that is asked.
    pub fn model_name(&self) -> (name: &str)
        ensures
            name@ == self.spec_model_name(),
    {
        self.model_name.as_str()
    }

    /// The name of the evaluator.
    pub fn name(&self) -> (name: &'static str)
        ensures
            name@ == "model"@,
    {
        "model"
    }

    /// Build the prompt that asks the model to compare `solutions` to
    /// `task`: the task, the criteria, one section for each solution, and
    /// the form of the answer.
    pub fn build_prompt(&self, task: &str, solutions: &Vec<CompetitorSolution>) -> (prompt: String)
        requires
            solutions@.len() < usize::MAX,
        ensures
            prompt@ == spec_build_prompt(task@, solutions@),
    {
        let mut prompt = String::from_str(PROMPT_INTRO);
        push_decimal(&mut prompt, solutions.len());
        prompt.append(PROMPT_TASK);
        prompt.append(task);
        prompt.append(PROMPT_CRITERIA);
        let ghost head = prompt@;
        let mut i: usize = 0;
        assert(head + prompt_sections(solutions@, 0) =~= head);
        while i < solutions.len()
            invariant
                i <= solutions@.len(),
                solutions@.len() < usize::MAX,
                prompt@ == head + prompt_sections(solutions@, i as nat),
            decreases solutions.len() - i,
        {
            let ghost before = prompt@;
            let solution = &solutions[i];
            prompt.append("=== Solution ");
            push_decimal(&mut prompt, i + 1);
            prompt.append(" (Agent: ");
            prompt.append(solution.agent_id.as_str());
            prompt.append(") ===\n");
            match &solution.diff_stats {
                Some(diff) => {
                    prompt.append("Files changed: ");
                    push_decimal(&mut prompt, diff.files_changed);
                    prompt.append(", +");
                    push_decimal(&mut prompt, diff.insertions);
                    prompt.append(" -");
                    push_decimal(&mut prompt, diff.deletions);
                    prompt.append("\n\n");
                },
                None => {},
            }
            prompt.append(PROMPT_DIFF);
            proof {
                assert(prompt@ =~= before + prompt_section(*solution, i as nat));
                assert(head + prompt_sections(solutions@, i as nat) + prompt_section(
                    *solution,
                    i as nat,
                ) =~= head + prompt_sections(solutions@, (i + 1) as nat));
            }
            i = i + 1;
        }
        prompt.append(PROMPT_ANSWER);
        assert(prompt@ =~= spec_build_prompt(task@, solutions@));
        prompt
    }
}

/// Human evaluator: the operator selects the solution.
#[derive(Debug, Clone, Copy)]
pub struct HumanEvaluator;

impl HumanEvaluator {
    pub fn new() -> Self {
        HumanEvaluator
    }

    /// The name of the evaluator.
    pub fn name(&self) -> (name: &'static str)
        ensures
            name@ == "human"@,
    {
        "human"
    }

    /// The rank of the solution at position `index`, counted from 1, and
    /// whether it is the one selected: the first solution is.
    pub fn rank(&self, index: usize) -> (ranking: (usize, bool))
        requires
            index < usize::MAX,
        ensures
            ranking.0 == index + 1,
            ranking.1 == (index == 0),
    {
        (index + 1, index == 0)
    }
}

impl Default for HumanEvaluator {
    fn default() -> Self {
        HumanEvaluator
    }
}

} // verus!
