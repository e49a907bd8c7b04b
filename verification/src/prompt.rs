//! The questions of the `new` command: their wording, the options offered,
//! and how a picked option is read.

use vstd::prelude::*;

verus! {

/// The questions that the `new` command may ask.
#[derive(Debug, Clone, Copy, PartialEq, Eq, Structural)]
pub enum Question {
    /// The name of the new worktree branch.
    BranchName,
    /// Where the branch starts.
    StartingPoint,
    /// The ref to start from, when the user chose a specific one.
    Ref,
    /// What to do once the worktree exists.
    AfterCreation,
    /// Which AI tool to start.
    AiTool,
    /// Whether to skip copying files into the worktree.
    SkipCopy,
}

/// How a question is put to the user.
#[derive(Debug, Clone, Copy, PartialEq, Eq, Structural)]
pub enum PromptKind {
    /// Free text.
    Text,
    /// One option out of a list.
    Select,
    /// Yes or no.
    Confirm,
}

/// The meaning of an option picked for the starting point.
#[derive(Debug, Clone, Copy, PartialEq, Eq, Structural)]
pub enum StartChoice {
    Default,
    CurrentBranch,
    SpecificRef,
}

/// The meaning of an option picked for what follows the creation.
#[derive(Debug, Clone, Copy, PartialEq, Eq, Structural)]
pub enum AfterChoice {
    Nothing,
    OpenEditor,
    StartAi,
}

pub open spec fn question_kind(q: Question) -> PromptKind {
    match q {
        Question::BranchName | Question::Ref | Question::AiTool => PromptKind::Text,
        Question::StartingPoint | Question::AfterCreation => PromptKind::Select,
        Question::SkipCopy => PromptKind::Confirm,
    }
}

pub open spec fn question_message(q: Question) -> Seq<char> {
    match q {
        Question::BranchName => "Branch name:"@,
        Question::StartingPoint => "Starting point:"@,
        Question::Ref => "Ref (branch/tag/commit):"@,
        Question::AfterCreation => "After creation:"@,
        Question::AiTool => "AI tool:"@,
        Question::SkipCopy => "Skip file copying?"@,
    }
}

pub open spec fn question_help(q: Question) -> Option<Seq<char>> {
    match q {
        Question::BranchName => Some("Name for the new worktree branch"@),
        Question::AfterCreation => Some("Action to take after creating the worktree"@),
        Question::AiTool => Some("Enter tool name, or press Enter for default"@),
        _ => None,
    }
}

pub open spec fn question_placeholder(q: Question) -> Option<Seq<char>> {
    match q {
        Question::AiTool => Some("aider, copilot, codex, ..."@),
        _ => None,
    }
}

/// The options offered for the starting point, the default first.
pub open spec fn start_options() -> Seq<Seq<char>> {
    seq!["Default (main/master)"@, "Current branch"@, "Specific ref"@]
}

/// The options offered for what follows the creation, the default first.
pub open spec fn after_options() -> Seq<Seq<char>> {
    seq!["None"@, "Open in editor"@, "Start AI tool"@]
}

pub open spec fn question_options(q: Question) -> Seq<Seq<char>> {
    match q {
        Question::StartingPoint => start_options(),
        Question::AfterCreation => after_options(),
        _ => seq![],
    }
}

/// An option picked for the starting point: anything but the two named
/// options means the default branch.
pub open spec fn start_choice(picked: Seq<char>) -> StartChoice {
    if picked == "Current branch"@ {
        StartChoice::CurrentBranch
    } else if picked == "Specific ref"@ {
        StartChoice::SpecificRef
    } else {
        StartChoice::Default
    }
}

/// An option picked for what follows the creation: anything but the two
/// named options means nothing more.
pub open spec fn after_choice(picked: Seq<char>) -> AfterChoice {
    if picked == "Open in editor"@ {
        AfterChoice::OpenEditor
    } else if picked == "Start AI tool"@ {
        AfterChoice::StartAi
    } else {
        AfterChoice::Nothing
    }
}

fn same_text(a: &str, b: &str) -> (r: bool)
    ensures
        r == (a@ == b@),
{
    a.to_owned() == b.to_owned()
}

/// Reads an option picked for the starting point.
pub fn start_choice_of(picked: &str) -> (c: StartChoice)
    ensures
        c == start_choice(picked@),
{
    if same_text(picked, "Current branch") {
        StartChoice::CurrentBranch
    } else if same_text(picked, "Specific ref") {
        StartChoice::SpecificRef
    } else {
        StartChoice::Default
    }
}

/// Reads an option picked for what follows the creation.
pub fn after_choice_of(picked: &str) -> (c: AfterChoice)
    ensures
        c == after_choice(picked@),
{
    if same_text(picked, "Open in editor") {
        AfterChoice::OpenEditor
    } else if same_text(picked, "Start AI tool") {
        AfterChoice::StartAi
    } else {
        AfterChoice::Nothing
    }
}

impl Question {
    pub fn kind(&self) -> (k: PromptKind)
        ensures
            k == question_kind(*self),
    {
        match self {
            Question::BranchName | Question::Ref | Question::AiTool => PromptKind::Text,
            Question::StartingPoint | Question::AfterCreation => PromptKind::Select,
            Question::SkipCopy => PromptKind::Confirm,
        }
    }

    /// The text of the question.
    pub fn message(&self) -> (m: &'static str)
        ensures
            m@ == question_message(*self),
    {
        match self {
            Question::BranchName => "Branch name:",
            Question::StartingPoint => "Starting point:",
            Question::Ref => "Ref (branch/tag/commit):",
            Question::AfterCreation => "After creation:",
            Question::AiTool => "AI tool:",
            Question::SkipCopy => "Skip file copying?",
        }
    }

    /// The help line shown under the question, if it has one.
    pub fn help_message(&self) -> (h: Option<&'static str>)
        ensures
            h.deep_view() == question_help(*self),
    {
        match self {
            Question::BranchName => Some("Name for the new worktree branch"),
            Question::AfterCreation => Some("Action to take after creating the worktree"),
            Question::AiTool => Some("Enter tool name, or press Enter for default"),
            _ => None,
        }
    }

    /// The greyed-out hint shown in an empty text field, if the question has one.
    pub fn placeholder(&self) -> (p: Option<&'static str>)
        ensures
            p.deep_view() == question_placeholder(*self),
    {
        match self {
            Question::AiTool => Some("aider, copilot, codex, ..."),
            _ => None,
        }
    }

    /// The options offered by a select question, the default first; none for
    /// the other questions.
    pub fn options(&self) -> (opts: Vec<&'static str>)
        ensures
            opts.deep_view() == question_options(*self),
    {
        match self {
            Question::StartingPoint => {
                let opts = vec!["Default (main/master)", "Current branch", "Specific ref"];
                assert(opts.deep_view() =~= start_options());
                opts
            },
            Question::AfterCreation => {
                let opts = vec!["None", "Open in editor", "Start AI tool"];
                assert(opts.deep_view() =~= after_options());
                opts
            },
            _ => {
                let opts: Vec<&'static str> = Vec::new();
                assert(opts.deep_view() =~= seq![]);
                opts
            },
        }
    }

    /// The answer a yes/no question takes when the user just presses Enter.
    pub fn default_confirmation(&self) -> (d: bool)
        ensures
            !d,
    {
        false
    }
}

/// A question offers options exactly when it is put as a select, and then it
/// offers three of them.
pub proof fn lemma_select_questions_offer_options(q: Question)
    ensures
        question_kind(q) == PromptKind::Select <==> question_options(q).len() > 0,
        question_kind(q) == PromptKind::Select ==> question_options(q).len() == 3,
{
}

/// Only the AI-tool question shows a placeholder; the branch name, what
/// follows the creation and the AI tool have a help line, the others none.
pub proof fn lemma_hints(q: Question)
    ensures
        question_placeholder(q) is Some <==> q == Question::AiTool,
        question_help(q) is Some <==> (q == Question::BranchName || q == Question::AfterCreation
            || q == Question::AiTool),
{
}

/// Each question has its own text.
pub proof fn lemma_messages_differ(q1: Question, q2: Question)
    ensures
        q1 != q2 ==> question_message(q1) != question_message(q2),
{
    reveal_strlit("Branch name:");
    reveal_strlit("Starting point:");
    reveal_strlit("Ref (branch/tag/commit):");
    reveal_strlit("After creation:");
    reveal_strlit("AI tool:");
    reveal_strlit("Skip file copying?");
    assert("Branch name:"@.len() == 12);
    assert("Starting point:"@.len() == 15);
    assert("Ref (branch/tag/commit):"@.len() == 24);
    assert("After creation:"@.len() == 15);
    assert("AI tool:"@.len() == 8);
    assert("Skip file copying?"@.len() == 18);
    assert("Starting point:"@[0] != "After creation:"@[0]);
}

/// Each option offered for the starting point is read as its own choice, and
/// the one offered first is the default branch.
pub proof fn lemma_start_options_read_back()
    ensures
        start_choice(start_options()[0]) == StartChoice::Default,
        start_choice(start_options()[1]) == StartChoice::CurrentBranch,
        start_choice(start_options()[2]) == StartChoice::SpecificRef,
{
    reveal_strlit("Default (main/master)");
    reveal_strlit("Current branch");
    reveal_strlit("Specific ref");
    assert("Default (main/master)"@.len() == 21);
    assert("Current branch"@.len() == 14);
    assert("Specific ref"@.len() == 12);
}

/// Each option offered for what follows the creation is read as its own
/// choice, and the one offered first means nothing more.
pub proof fn lemma_after_options_read_back()
    ensures
        after_choice(after_options()[0]) == AfterChoice::Nothing,
        after_choice(after_options()[1]) == AfterChoice::OpenEditor,
        after_choice(after_options()[2]) == AfterChoice::StartAi,
{
    reveal_strlit("None");
    reveal_strlit("Open in editor");
    reveal_strlit("Start AI tool");
    assert("None"@.len() == 4);
    assert("Open in editor"@.len() == 14);
    assert("Start AI tool"@.len() == 13);
}

} // verus!
