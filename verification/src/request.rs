//! What the user asked for, and the `gtr` command lines that carry it out.

use vstd::prelude::*;

verus! {

/// Where the new worktree branch starts.
#[derive(Debug)]
pub enum StartingPoint {
    /// The repository's default branch (main/master).
    Default,
    /// The branch that is checked out now.
    CurrentBranch,
    /// A branch, tag or commit that the user typed.
    SpecificRef(String),
}

/// What happens once the worktree exists.
#[derive(Debug)]
pub enum AfterCreation {
    /// Nothing more.
    Nothing,
    /// Open the worktree in the editor.
    OpenEditor,
    /// Start an AI tool; an empty name means the configured default tool.
    StartAi(String),
}

/// Everything the user decided for one new worktree.
#[derive(Debug)]
pub struct NewRequest {
    pub branch: String,
    pub start: StartingPoint,
    pub after: AfterCreation,
    pub no_copy: bool,
}

/// The flags that select the starting point.
pub open spec fn start_flags(start: StartingPoint) -> Seq<Seq<char>> {
    match start {
        StartingPoint::Default => seq![],
        StartingPoint::CurrentBranch => seq!["--from-current"@],
        StartingPoint::SpecificRef(r) => seq!["--from"@, r@],
    }
}

/// The flags that select what follows the creation. A named AI tool adds no
/// flag here: it is started by a command of its own.
pub open spec fn after_flags(after: AfterCreation) -> Seq<Seq<char>> {
    match after {
        AfterCreation::Nothing => seq![],
        AfterCreation::OpenEditor => seq!["--editor"@],
        AfterCreation::StartAi(tool) => if tool@.len() == 0 {
            seq!["--ai"@]
        } else {
            seq![]
        },
    }
}

/// The arguments of `gtr new` for a request, in the order in which they are passed.
pub open spec fn new_command(req: NewRequest) -> Seq<Seq<char>> {
    seq!["new"@, req.branch@] + start_flags(req.start) + after_flags(req.after) + (if req.no_copy {
        seq!["--no-copy"@]
    } else {
        seq![]
    })
}

/// The `gtr ai` command that follows `gtr new`: there is one exactly when the
/// user named an AI tool.
pub open spec fn ai_command(req: NewRequest) -> Option<Seq<Seq<char>>> {
    match req.after {
        AfterCreation::StartAi(tool) => if tool@.len() > 0 {
            Some(seq!["ai"@, req.branch@, "--ai"@, tool@])
        } else {
            None
        },
        _ => None,
    }
}

/// With nothing to follow the creation and copying left on, `gtr new` gets the
/// branch and exactly the flags of the starting point: none for the default
/// branch, `--from-current` for the current branch, `--from <ref>` for a ref.
pub proof fn lemma_new_command_starting_point(branch: String, reference: String)
    ensures
        new_command(
            (NewRequest {
                branch: branch,
                start: StartingPoint::Default,
                after: AfterCreation::Nothing,
                no_copy: false,
            }),
        ) == seq!["new"@, branch@],
        new_command(
            (NewRequest {
                branch: branch,
                start: StartingPoint::CurrentBranch,
                after: AfterCreation::Nothing,
                no_copy: false,
            }),
        ) == seq!["new"@, branch@, "--from-current"@],
        new_command(
            (NewRequest {
                branch: branch,
                start: StartingPoint::SpecificRef(reference),
                after: AfterCreation::Nothing,
                no_copy: false,
            }),
        ) == seq!["new"@, branch@, "--from"@, reference@],
{
    assert(seq!["new"@, branch@] + seq![] + seq![] + seq![] =~= seq!["new"@, branch@]);
    assert(seq!["new"@, branch@] + seq!["--from-current"@] + seq![] + seq![] =~= seq![
        "new"@,
        branch@,
        "--from-current"@,
    ]);
    assert(seq!["new"@, branch@] + seq!["--from"@, reference@] + seq![] + seq![] =~= seq![
        "new"@,
        branch@,
        "--from"@,
        reference@,
    ]);
}

/// What follows the creation, whatever the starting point: opening the editor
/// appends `--editor`, the default AI tool appends `--ai`, and a named AI tool
/// adds nothing to `gtr new` (it is started by a command of its own).
pub proof fn lemma_new_command_after_creation(branch: String, start: StartingPoint, tool: String)
    ensures
        new_command(
            (NewRequest { branch: branch, start: start, after: AfterCreation::OpenEditor, no_copy: false }),
        ) == new_command(
            (NewRequest { branch: branch, start: start, after: AfterCreation::Nothing, no_copy: false }),
        ).push("--editor"@),
        tool@.len() == 0 ==> new_command(
            (NewRequest { branch: branch, start: start, after: AfterCreation::StartAi(tool), no_copy: false }),
        ) == new_command(
            (NewRequest { branch: branch, start: start, after: AfterCreation::Nothing, no_copy: false }),
        ).push("--ai"@),
        tool@.len() > 0 ==> new_command(
            (NewRequest { branch: branch, start: start, after: AfterCreation::StartAi(tool), no_copy: false }),
        ) == new_command(
            (NewRequest { branch: branch, start: start, after: AfterCreation::Nothing, no_copy: false }),
        ),
{
    let base = seq!["new"@, branch@] + start_flags(start);
    assert(base + seq!["--editor"@] + seq![] =~= (base + seq![] + seq![]).push("--editor"@));
    assert(base + seq!["--ai"@] + seq![] =~= (base + seq![] + seq![]).push("--ai"@));
}

/// Skipping the copy appends `--no-copy` as the last argument of `gtr new`,
/// whatever the starting point and what follows the creation; without it the
/// arguments are the same but for that flag.
pub proof fn lemma_new_command_no_copy(branch: String, start: StartingPoint, after: AfterCreation)
    ensures
        new_command((NewRequest { branch: branch, start: start, after: after, no_copy: true }))
            == new_command(
            (NewRequest { branch: branch, start: start, after: after, no_copy: false }),
        ).push("--no-copy"@),
        new_command((NewRequest { branch: branch, start: start, after: after, no_copy: true })).last()
            == "--no-copy"@,
{
    let base = seq!["new"@, branch@] + start_flags(start) + after_flags(after);
    assert(base + seq!["--no-copy"@] =~= (base + seq![]).push("--no-copy"@));
}

/// `gtr ai <branch> --ai <tool>` follows exactly when the user named a tool,
/// whatever the starting point and the copy choice; the default tool, the
/// editor and nothing at all start no second command.
pub proof fn lemma_ai_command(branch: String, start: StartingPoint, tool: String, no_copy: bool)
    ensures
        tool@.len() > 0 ==> ai_command(
            (NewRequest { branch: branch, start: start, after: AfterCreation::StartAi(tool), no_copy: no_copy }),
        ) == Some(seq!["ai"@, branch@, "--ai"@, tool@]),
        tool@.len() == 0 ==> ai_command(
            (NewRequest { branch: branch, start: start, after: AfterCreation::StartAi(tool), no_copy: no_copy }),
        ) is None,
        ai_command(
            (NewRequest { branch: branch, start: start, after: AfterCreation::Nothing, no_copy: no_copy }),
        ) is None,
        ai_command(
            (NewRequest { branch: branch, start: start, after: AfterCreation::OpenEditor, no_copy: no_copy }),
        ) is None,
{
}

fn owned(s: &str) -> (r: String)
    ensures
        r@ == s@,
{
    s.to_owned()
}

impl NewRequest {
    /// The arguments to hand to `gtr` to create the worktree.
    pub fn gtr_args(&self) -> (args: Vec<String>)
        ensures
            args.deep_view() == new_command(*self),
    {
        let mut args: Vec<String> = Vec::new();
        args.push(owned("new"));
        args.push(self.branch.clone());
        match &self.start {
            StartingPoint::Default => {},
            StartingPoint::CurrentBranch => {
                args.push(owned("--from-current"));
            },
            StartingPoint::SpecificRef(r) => {
                args.push(owned("--from"));
                args.push(r.clone());
            },
        }
        match &self.after {
            AfterCreation::Nothing => {},
            AfterCreation::OpenEditor => {
                args.push(owned("--editor"));
            },
            AfterCreation::StartAi(tool) => {
                if tool.as_str().is_empty() {
                    args.push(owned("--ai"));
                }
            },
        }
        if self.no_copy {
            args.push(owned("--no-copy"));
        }
        assert(args.deep_view() =~= new_command(*self));
        args
    }

    /// The arguments of the `gtr ai` command that starts the named AI tool,
    /// if the user named one.
    pub fn ai_args(&self) -> (args: Option<Vec<String>>)
        ensures
            args.deep_view() == ai_command(*self),
    {
        match &self.after {
            AfterCreation::StartAi(tool) => {
                if tool.as_str().is_empty() {
                    None
                } else {
                    let mut args: Vec<String> = Vec::new();
                    args.push(owned("ai"));
                    args.push(self.branch.clone());
                    args.push(owned("--ai"));
                    args.push(tool.clone());
                    assert(args.deep_view() =~= seq!["ai"@, self.branch@, "--ai"@, tool@]);
                    Some(args)
                }
            },
            _ => None,
        }
    }
}

} // verus!
