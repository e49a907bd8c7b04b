use interactive_worktree::prompt::{
    after_choice_of, start_choice_of, AfterChoice, PromptKind, Question, StartChoice,
};
use interactive_worktree::request::{AfterCreation, NewRequest, StartingPoint};
use interactive_worktree::wizard::{Action, Answer, NewWizard, Stage};

fn strings(items: &[&str]) -> Vec<String> {
    items.iter().map(|s| s.to_string()).collect()
}

fn request(branch: &str, start: StartingPoint, after: AfterCreation, no_copy: bool) -> NewRequest {
    NewRequest {
        branch: branch.to_string(),
        start,
        after,
        no_copy,
    }
}

fn run_args(action: Action) -> Vec<String> {
    match action {
        Action::RunGtr(args) => args,
        other => panic!("expected a gtr command, got {other:?}"),
    }
}

fn asked(action: &Action) -> Question {
    match action {
        Action::Ask(q) => *q,
        other => panic!("expected a question, got {other:?}"),
    }
}

// ─── the arguments of `gtr new` ────────────────────────────────────────────

#[test]
fn gtr_args_default_start_and_nothing_after() {
    let req = request("feature", StartingPoint::Default, AfterCreation::Nothing, false);
    assert_eq!(req.gtr_args(), strings(&["new", "feature"]));
    assert!(req.ai_args().is_none());
}

#[test]
fn gtr_args_from_current_branch() {
    let req = request("feature", StartingPoint::CurrentBranch, AfterCreation::Nothing, false);
    assert_eq!(req.gtr_args(), strings(&["new", "feature", "--from-current"]));
}

#[test]
fn gtr_args_from_specific_ref() {
    let req = request(
        "hotfix",
        StartingPoint::SpecificRef("v1.2.0".to_string()),
        AfterCreation::Nothing,
        false,
    );
    assert_eq!(req.gtr_args(), strings(&["new", "hotfix", "--from", "v1.2.0"]));
}

#[test]
fn gtr_args_open_editor_and_no_copy() {
    let req = request("feature", StartingPoint::Default, AfterCreation::OpenEditor, true);
    assert_eq!(req.gtr_args(), strings(&["new", "feature", "--editor", "--no-copy"]));
    assert!(req.ai_args().is_none());
}

#[test]
fn gtr_args_default_ai_tool_adds_ai_flag() {
    let req = request(
        "feature",
        StartingPoint::Default,
        AfterCreation::StartAi(String::new()),
        false,
    );
    assert_eq!(req.gtr_args(), strings(&["new", "feature", "--ai"]));
    assert!(req.ai_args().is_none());
}

#[test]
fn named_ai_tool_runs_a_second_command() {
    let req = request(
        "feature",
        StartingPoint::SpecificRef("origin/dev".to_string()),
        AfterCreation::StartAi("aider".to_string()),
        true,
    );
    assert_eq!(
        req.gtr_args(),
        strings(&["new", "feature", "--from", "origin/dev", "--no-copy"])
    );
    assert_eq!(req.ai_args(), Some(strings(&["ai", "feature", "--ai", "aider"])));
}

// ─── reading the options ───────────────────────────────────────────────────

#[test]
fn each_start_option_is_read_as_its_own_choice() {
    let opts = Question::StartingPoint.options();
    assert_eq!(opts, vec!["Default (main/master)", "Current branch", "Specific ref"]);
    assert_eq!(start_choice_of(opts[0]), StartChoice::Default);
    assert_eq!(start_choice_of(opts[1]), StartChoice::CurrentBranch);
    assert_eq!(start_choice_of(opts[2]), StartChoice::SpecificRef);
}

#[test]
fn unknown_start_option_means_default() {
    assert_eq!(start_choice_of("something else"), StartChoice::Default);
    assert_eq!(start_choice_of(""), StartChoice::Default);
}

#[test]
fn each_after_option_is_read_as_its_own_choice() {
    let opts = Question::AfterCreation.options();
    assert_eq!(opts, vec!["None", "Open in editor", "Start AI tool"]);
    assert_eq!(after_choice_of(opts[0]), AfterChoice::Nothing);
    assert_eq!(after_choice_of(opts[1]), AfterChoice::OpenEditor);
    assert_eq!(after_choice_of(opts[2]), AfterChoice::StartAi);
    assert_eq!(after_choice_of("start ai tool"), AfterChoice::Nothing);
}

// ─── the wording of the questions ──────────────────────────────────────────

#[test]
fn question_wording() {
    assert_eq!(Question::BranchName.message(), "Branch name:");
    assert_eq!(Question::BranchName.help_message(), Some("Name for the new worktree branch"));
    assert_eq!(Question::BranchName.kind(), PromptKind::Text);
    assert_eq!(Question::StartingPoint.message(), "Starting point:");
    assert_eq!(Question::StartingPoint.kind(), PromptKind::Select);
    assert_eq!(Question::StartingPoint.help_message(), None);
    assert_eq!(Question::Ref.message(), "Ref (branch/tag/commit):");
    assert_eq!(Question::Ref.help_message(), None);
    assert_eq!(Question::AfterCreation.message(), "After creation:");
    assert_eq!(
        Question::AfterCreation.help_message(),
        Some("Action to take after creating the worktree")
    );
    assert_eq!(Question::AiTool.message(), "AI tool:");
    assert_eq!(Question::AiTool.placeholder(), Some("aider, copilot, codex, ..."));
    assert_eq!(
        Question::AiTool.help_message(),
        Some("Enter tool name, or press Enter for default")
    );
    assert_eq!(Question::SkipCopy.message(), "Skip file copying?");
    assert_eq!(Question::SkipCopy.kind(), PromptKind::Confirm);
    assert!(!Question::SkipCopy.default_confirmation());
    assert_eq!(Question::BranchName.placeholder(), None);
    assert!(Question::SkipCopy.options().is_empty());
}

// ─── whole sessions ────────────────────────────────────────────────────────

#[test]
fn session_with_all_defaults() {
    let mut w = NewWizard::new();
    assert_eq!(asked(&w.pending_action()), Question::BranchName);
    let a = w.step(Answer::Text("feature".to_string()));
    assert_eq!(asked(&a), Question::StartingPoint);
    let a = w.step(Answer::Picked("Default (main/master)".to_string()));
    assert_eq!(asked(&a), Question::AfterCreation);
    let a = w.step(Answer::Picked("None".to_string()));
    assert_eq!(asked(&a), Question::SkipCopy);
    let a = w.step(Answer::Confirmed(false));
    assert_eq!(run_args(a), strings(&["new", "feature"]));
    let a = w.step(Answer::CommandDone);
    assert!(matches!(a, Action::Finish));
    assert_eq!(w.stage, Stage::Finished);
}

#[test]
fn session_with_specific_ref_and_named_tool() {
    let mut w = NewWizard::new();
    w.step(Answer::Text("fix/login".to_string()));
    let a = w.step(Answer::Picked("Specific ref".to_string()));
    assert_eq!(asked(&a), Question::Ref);
    let a = w.step(Answer::Text("v2.0".to_string()));
    assert_eq!(asked(&a), Question::AfterCreation);
    let a = w.step(Answer::Picked("Start AI tool".to_string()));
    assert_eq!(asked(&a), Question::AiTool);
    let a = w.step(Answer::Text("aider".to_string()));
    assert_eq!(asked(&a), Question::SkipCopy);
    let a = w.step(Answer::Confirmed(true));
    assert_eq!(
        run_args(a),
        strings(&["new", "fix/login", "--from", "v2.0", "--no-copy"])
    );
    let a = w.step(Answer::CommandDone);
    assert_eq!(run_args(a), strings(&["ai", "fix/login", "--ai", "aider"]));
    let a = w.step(Answer::CommandDone);
    assert!(matches!(a, Action::Finish));
}

#[test]
fn session_with_default_ai_tool_runs_one_command() {
    let mut w = NewWizard::new();
    w.step(Answer::Text("feature".to_string()));
    w.step(Answer::Picked("Current branch".to_string()));
    w.step(Answer::Picked("Start AI tool".to_string()));
    w.step(Answer::Text(String::new()));
    let a = w.step(Answer::Confirmed(false));
    assert_eq!(run_args(a), strings(&["new", "feature", "--from-current", "--ai"]));
    let a = w.step(Answer::CommandDone);
    assert!(matches!(a, Action::Finish));
}

#[test]
fn session_opening_the_editor() {
    let mut w = NewWizard::new();
    w.step(Answer::Text("docs".to_string()));
    w.step(Answer::Picked("Current branch".to_string()));
    w.step(Answer::Picked("Open in editor".to_string()));
    let a = w.step(Answer::Confirmed(false));
    assert_eq!(run_args(a), strings(&["new", "docs", "--from-current", "--editor"]));
}

#[test]
fn answer_of_the_wrong_kind_asks_again() {
    let mut w = NewWizard::new();
    let a = w.step(Answer::Confirmed(true));
    assert_eq!(asked(&a), Question::BranchName);
    let a = w.step(Answer::Text("x".to_string()));
    assert_eq!(asked(&a), Question::StartingPoint);
    let a = w.step(Answer::Text("Current branch".to_string()));
    assert_eq!(asked(&a), Question::StartingPoint);
}

#[test]
fn finished_session_stays_finished() {
    let mut w = NewWizard::new();
    w.step(Answer::Text("b".to_string()));
    w.step(Answer::Picked("None".to_string()));
    w.step(Answer::Picked("None".to_string()));
    w.step(Answer::Confirmed(false));
    let a = w.step(Answer::CommandDone);
    assert!(matches!(a, Action::Finish));
    let a = w.step(Answer::CommandDone);
    assert!(matches!(a, Action::Finish));
    assert_eq!(w.stage, Stage::Finished);
    assert_eq!(w.request.branch, "b");
}

#[test]
fn failed_prompt_stops_the_session() {
    let mut w = NewWizard::new();
    w.step(Answer::Text("feature".to_string()));
    let a = w.step(Answer::Failed);
    assert!(matches!(a, Action::Finish));
    assert_eq!(w.stage, Stage::Aborted);
    let a = w.step(Answer::Picked("Current branch".to_string()));
    assert!(matches!(a, Action::Finish));
    assert_eq!(w.stage, Stage::Aborted);
}

#[test]
fn failed_new_command_runs_no_ai_command() {
    let mut w = NewWizard::new();
    w.step(Answer::Text("feature".to_string()));
    w.step(Answer::Picked("Default (main/master)".to_string()));
    w.step(Answer::Picked("Start AI tool".to_string()));
    w.step(Answer::Text("aider".to_string()));
    let a = w.step(Answer::Confirmed(false));
    assert_eq!(run_args(a), strings(&["new", "feature"]));
    let a = w.step(Answer::Failed);
    assert!(matches!(a, Action::Finish));
    let a = w.step(Answer::CommandDone);
    assert!(matches!(a, Action::Finish));
    assert_eq!(w.stage, Stage::Aborted);
}
