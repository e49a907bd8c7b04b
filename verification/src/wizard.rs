//! The `new` command as a state machine: it says what to do next (ask a
//! question, run a `gtr` command, or stop), and is told what came of it.

use vstd::prelude::*;

use crate::prompt::{
    after_choice, after_choice_of, question_kind, start_choice, start_choice_of, AfterChoice,
    PromptKind, Question, StartChoice,
};
use crate::request::{ai_command, new_command, AfterCreation, NewRequest, StartingPoint};

verus! {

/// What came of the last action.
#[derive(Debug)]
pub enum Answer {
    /// The text typed at a text question.
    Text(String),
    /// The option picked at a select question.
    Picked(String),
    /// The answer to a yes/no question.
    Confirmed(bool),
    /// The last `gtr` command ran and succeeded.
    CommandDone,
    /// The last action failed: the prompt was cancelled or could not be
    /// shown, or the `gtr` command did not succeed.
    Failed,
}

/// What the command wants done next.
#[derive(Debug)]
pub enum Action {
    /// Put this question to the user.
    Ask(Question),
    /// Run `gtr` with these arguments.
    RunGtr(Vec<String>),
    /// The command is over.
    Finish,
}

/// An action as the contracts see it.
pub enum ActionView {
    Ask(Question),
    RunGtr(Seq<Seq<char>>),
    Finish,
}

impl View for Action {
    type V = ActionView;

    open spec fn view(&self) -> ActionView {
        match self {
            Action::Ask(q) => ActionView::Ask(*q),
            Action::RunGtr(args) => ActionView::RunGtr(args.deep_view()),
            Action::Finish => ActionView::Finish,
        }
    }
}

/// How far the command has come.
#[derive(Debug, Clone, Copy, PartialEq, Eq, Structural)]
pub enum Stage {
    /// Waiting for the answer to this question.
    Asking(Question),
    /// Waiting for `gtr new` to finish.
    RunningNew,
    /// Waiting for `gtr ai` to finish.
    RunningAi,
    /// Done.
    Finished,
    /// Stopped by a failure; nothing more is asked or run.
    Aborted,
}

/// The state of one run of the `new` command: the stage and what the user
/// has decided so far.
#[derive(Debug)]
pub struct NewWizard {
    pub stage: Stage,
    pub request: NewRequest,
}

/// The state after one answer. A failure stops the command, whatever the
/// stage. An answer of the wrong kind for the stage changes nothing, so the
/// same action comes again.
pub open spec fn next(w: NewWizard, answer: Answer) -> NewWizard {
    let req = w.request;
    if answer is Failed {
        NewWizard { stage: Stage::Aborted, request: req }
    } else {
        next_answer(w, answer)
    }
}

/// The state after an answer that is not a failure.
pub open spec fn next_answer(w: NewWizard, answer: Answer) -> NewWizard {
    let req = w.request;
    match w.stage {
        Stage::Asking(Question::BranchName) => match answer {
            Answer::Text(t) => NewWizard {
                stage: Stage::Asking(Question::StartingPoint),
                request: NewRequest { branch: t, ..req },
            },
            _ => w,
        },
        Stage::Asking(Question::StartingPoint) => match answer {
            Answer::Picked(p) => match start_choice(p@) {
                StartChoice::Default => NewWizard {
                    stage: Stage::Asking(Question::AfterCreation),
                    request: NewRequest { start: StartingPoint::Default, ..req },
                },
                StartChoice::CurrentBranch => NewWizard {
                    stage: Stage::Asking(Question::AfterCreation),
                    request: NewRequest { start: StartingPoint::CurrentBranch, ..req },
                },
                StartChoice::SpecificRef => NewWizard { stage: Stage::Asking(Question::Ref), request: req },
            },
            _ => w,
        },
        Stage::Asking(Question::Ref) => match answer {
            Answer::Text(t) => NewWizard {
                stage: Stage::Asking(Question::AfterCreation),
                request: NewRequest { start: StartingPoint::SpecificRef(t), ..req },
            },
            _ => w,
        },
        Stage::Asking(Question::AfterCreation) => match answer {
            Answer::Picked(p) => match after_choice(p@) {
                AfterChoice::Nothing => NewWizard {
                    stage: Stage::Asking(Question::SkipCopy),
                    request: NewRequest { after: AfterCreation::Nothing, ..req },
                },
                AfterChoice::OpenEditor => NewWizard {
                    stage: Stage::Asking(Question::SkipCopy),
                    request: NewRequest { after: AfterCreation::OpenEditor, ..req },
                },
                AfterChoice::StartAi => NewWizard { stage: Stage::Asking(Question::AiTool), request: req },
            },
            _ => w,
        },
        Stage::Asking(Question::AiTool) => match answer {
            Answer::Text(t) => NewWizard {
                stage: Stage::Asking(Question::SkipCopy),
                request: NewRequest { after: AfterCreation::StartAi(t), ..req },
            },
            _ => w,
        },
        Stage::Asking(Question::SkipCopy) => match answer {
            Answer::Confirmed(b) => NewWizard {
                stage: Stage::RunningNew,
                request: NewRequest { no_copy: b, ..req },
            },
            _ => w,
        },
        Stage::RunningNew => match answer {
            Answer::CommandDone => NewWizard {
                stage: if ai_command(req) is Some {
                    Stage::RunningAi
                } else {
                    Stage::Finished
                },
                request: req,
            },
            _ => w,
        },
        Stage::RunningAi => match answer {
            Answer::CommandDone => NewWizard { stage: Stage::Finished, request: req },
            _ => w,
        },
        Stage::Finished => w,
        Stage::Aborted => w,
    }
}

/// The action that a state calls for.
pub open spec fn pending(w: NewWizard) -> ActionView {
    match w.stage {
        Stage::Asking(q) => ActionView::Ask(q),
        Stage::RunningNew => ActionView::RunGtr(new_command(w.request)),
        Stage::RunningAi => match ai_command(w.request) {
            Some(c) => ActionView::RunGtr(c),
            None => ActionView::Finish,
        },
        Stage::Finished => ActionView::Finish,
        Stage::Aborted => ActionView::Finish,
    }
}

/// The actions called for, one after each answer, when the answers come in
/// this order.
pub open spec fn trace(w: NewWizard, answers: Seq<Answer>) -> Seq<ActionView>
    decreases answers.len(),
{
    if answers.len() == 0 {
        seq![]
    } else {
        let w2 = next(w, answers[0]);
        seq![pending(w2)] + trace(w2, answers.drop_first())
    }
}

/// The state after the answers, taken in order.
pub open spec fn replay(w: NewWizard, answers: Seq<Answer>) -> NewWizard
    decreases answers.len(),
{
    if answers.len() == 0 {
        w
    } else {
        replay(next(w, answers[0]), answers.drop_first())
    }
}

pub open spec fn start_kind(start: StartingPoint) -> StartChoice {
    match start {
        StartingPoint::Default => StartChoice::Default,
        StartingPoint::CurrentBranch => StartChoice::CurrentBranch,
        StartingPoint::SpecificRef(_) => StartChoice::SpecificRef,
    }
}

pub open spec fn after_kind(after: AfterCreation) -> AfterChoice {
    match after {
        AfterCreation::Nothing => AfterChoice::Nothing,
        AfterCreation::OpenEditor => AfterChoice::OpenEditor,
        AfterCreation::StartAi(_) => AfterChoice::StartAi,
    }
}

/// The answers to the starting-point questions that choose `start`.
pub open spec fn start_answers_choose(answers: Seq<Answer>, start: StartingPoint) -> bool {
    &&& answers.len() == if start is SpecificRef { 2int } else { 1int }
    &&& answers[0] matches Answer::Picked(p) && start_choice(p@) == start_kind(start)
    &&& start matches StartingPoint::SpecificRef(r) ==> answers[1] == Answer::Text(r)
}

/// The answers to the after-creation questions that choose `after`.
pub open spec fn after_answers_choose(answers: Seq<Answer>, after: AfterCreation) -> bool {
    &&& answers.len() == if after is StartAi { 2int } else { 1int }
    &&& answers[0] matches Answer::Picked(p) && after_choice(p@) == after_kind(after)
    &&& after matches AfterCreation::StartAi(t) ==> answers[1] == Answer::Text(t)
}

/// How many `gtr` commands a request runs.
pub open spec fn command_count(req: NewRequest) -> int {
    if ai_command(req) is Some { 2 } else { 1 }
}

/// A whole session of answers that asks for `req`: the branch name, the
/// starting point, what follows the creation, whether to skip copying, and
/// then the success of each `gtr` command.
pub open spec fn answers_ask_for(
    branch: Answer,
    start: Seq<Answer>,
    after: Seq<Answer>,
    skip: Answer,
    done: Seq<Answer>,
    req: NewRequest,
) -> bool {
    &&& branch == Answer::Text(req.branch)
    &&& start_answers_choose(start, req.start)
    &&& after_answers_choose(after, req.after)
    &&& skip == Answer::Confirmed(req.no_copy)
    &&& done.len() == command_count(req)
    &&& forall|i: int| 0 <= i < done.len() ==> done[i] == Answer::CommandDone
}

/// The actions of a session that asks for `req`, in order.
pub open spec fn session_actions(req: NewRequest) -> Seq<ActionView> {
    seq![ActionView::Ask(Question::StartingPoint)] + (if req.start is SpecificRef {
        seq![ActionView::Ask(Question::Ref)]
    } else {
        seq![]
    }) + seq![ActionView::Ask(Question::AfterCreation)] + (if req.after is StartAi {
        seq![ActionView::Ask(Question::AiTool)]
    } else {
        seq![]
    }) + seq![ActionView::Ask(Question::SkipCopy), ActionView::RunGtr(new_command(req))] + (
    match ai_command(req) {
        Some(c) => seq![ActionView::RunGtr(c)],
        None => seq![],
    }) + seq![ActionView::Finish]
}

/// Taking answers in two parts is taking them all at once.
pub proof fn lemma_trace_split(w: NewWizard, a: Seq<Answer>, b: Seq<Answer>)
    ensures
        trace(w, a + b) == trace(w, a) + trace(replay(w, a), b),
        replay(w, a + b) == replay(replay(w, a), b),
    decreases a.len(),
{
    if a.len() == 0 {
        assert(a + b =~= b);
        assert(trace(w, a) =~= seq![]);
        assert(seq![] + trace(w, b) =~= trace(w, b));
    } else {
        let w2 = next(w, a[0]);
        assert((a + b).drop_first() =~= a.drop_first() + b);
        assert((a + b)[0] == a[0]);
        lemma_trace_split(w2, a.drop_first(), b);
        assert(trace(w, a + b) =~= seq![pending(w2)] + trace(w2, a.drop_first() + b));
        assert(trace(w, a + b) =~= trace(w, a) + trace(replay(w, a), b));
    }
}

proof fn lemma_one_answer(w: NewWizard, x: Answer)
    ensures
        trace(w, seq![x]) == seq![pending(next(w, x))],
        replay(w, seq![x]) == next(w, x),
{
    let rest = seq![x].drop_first();
    assert(rest =~= Seq::<Answer>::empty());
    assert(seq![x][0] == x);
    assert(trace(next(w, x), rest) == Seq::<ActionView>::empty());
    assert(replay(next(w, x), rest) == next(w, x));
    assert(seq![pending(next(w, x))] + Seq::<ActionView>::empty() =~= seq![pending(next(w, x))]);
}

proof fn lemma_two_answers(w: NewWizard, x: Seq<Answer>)
    requires
        x.len() == 2,
    ensures
        trace(w, x) == seq![pending(next(w, x[0])), pending(next(next(w, x[0]), x[1]))],
        replay(w, x) == next(next(w, x[0]), x[1]),
{
    assert(x =~= seq![x[0]] + seq![x[1]]);
    lemma_trace_split(w, seq![x[0]], seq![x[1]]);
    lemma_one_answer(w, x[0]);
    lemma_one_answer(next(w, x[0]), x[1]);
}

/// A session that answers the questions for a request, starting at the branch
/// question, asks the remaining questions in order (the ref only for a specific
/// starting point, the tool only when an AI tool is to be started), then runs
/// `gtr new` with the request's arguments, then `gtr ai` exactly when a tool
/// was named, and then finishes, holding exactly the request.
pub proof fn lemma_session(
    w: NewWizard,
    branch: Answer,
    start: Seq<Answer>,
    after: Seq<Answer>,
    skip: Answer,
    done: Seq<Answer>,
    req: NewRequest,
)
    requires
        w.stage == Stage::Asking(Question::BranchName),
        answers_ask_for(branch, start, after, skip, done, req),
    ensures
        trace(w, seq![branch] + start + after + seq![skip] + done) == session_actions(req),
        replay(w, seq![branch] + start + after + seq![skip] + done).request == req,
        replay(w, seq![branch] + start + after + seq![skip] + done).stage == Stage::Finished,
{
    let a0 = seq![branch];
    let a1 = a0 + start;
    let a2 = a1 + after;
    let a3 = a2 + seq![skip];
    let all = a3 + done;

    // the branch name
    lemma_one_answer(w, branch);
    let w1 = replay(w, a0);
    assert(w1.stage == Stage::Asking(Question::StartingPoint));
    assert(w1.request.branch == req.branch);

    // the starting point
    let w2 = replay(w1, start);
    let t1 = trace(w1, start);
    if start.len() == 1 {
        assert(start =~= seq![start[0]]);
        lemma_one_answer(w1, start[0]);
    } else {
        lemma_two_answers(w1, start);
    }
    assert(w2.stage == Stage::Asking(Question::AfterCreation));
    assert(w2.request.branch == req.branch);
    assert(w2.request.start == req.start);
    lemma_trace_split(w, a0, start);

    // what follows the creation
    let w3 = replay(w2, after);
    if after.len() == 1 {
        assert(after =~= seq![after[0]]);
        lemma_one_answer(w2, after[0]);
    } else {
        lemma_two_answers(w2, after);
    }
    assert(w3.stage == Stage::Asking(Question::SkipCopy));
    assert(w3.request.branch == req.branch);
    assert(w3.request.start == req.start);
    assert(w3.request.after == req.after);
    lemma_trace_split(w, a1, after);

    // whether to skip copying
    lemma_one_answer(w3, skip);
    let w4 = replay(w3, seq![skip]);
    assert(w4.request == req);
    assert(w4.stage == Stage::RunningNew);
    lemma_trace_split(w, a2, seq![skip]);

    // the commands
    let w5 = replay(w4, done);
    if done.len() == 1 {
        assert(done =~= seq![done[0]]);
        lemma_one_answer(w4, done[0]);
    } else {
        lemma_two_answers(w4, done);
    }
    assert(w5.request == req);
    assert(w5.stage == Stage::Finished);
    lemma_trace_split(w, a3, done);

    assert(trace(w, all) =~= session_actions(req));
}

proof fn lemma_aborted_stays(w: NewWizard, rest: Seq<Answer>)
    requires
        w.stage == Stage::Aborted,
    ensures
        replay(w, rest).stage == Stage::Aborted,
        trace(w, rest).len() == rest.len(),
        forall|i: int| 0 <= i < rest.len() ==> trace(w, rest)[i] == ActionView::Finish,
    decreases rest.len(),
{
    if rest.len() > 0 {
        let w2 = next(w, rest[0]);
        assert(w2.stage == Stage::Aborted);
        lemma_aborted_stays(w2, rest.drop_first());
        let t = trace(w, rest);
        assert(t == seq![pending(w2)] + trace(w2, rest.drop_first()));
        assert forall|i: int| 0 <= i < rest.len() implies t[i] == ActionView::Finish by {
            if i > 0 {
                assert(t[i] == trace(w2, rest.drop_first())[i - 1]);
            }
        }
    }
}

/// Once an action fails, the command stops: whatever comes after, every
/// action it calls for is `Finish`, so no further question is asked and no
/// further `gtr` command is run.
pub proof fn lemma_failure_stops(w: NewWizard, rest: Seq<Answer>)
    ensures
        replay(w, seq![Answer::Failed] + rest).stage == Stage::Aborted,
        trace(w, seq![Answer::Failed] + rest).len() == rest.len() + 1,
        forall|i: int|
            0 <= i < rest.len() + 1 ==> trace(w, seq![Answer::Failed] + rest)[i]
                == ActionView::Finish,
{
    let w1 = next(w, Answer::Failed);
    assert(w1.stage == Stage::Aborted);
    lemma_one_answer(w, Answer::Failed);
    lemma_trace_split(w, seq![Answer::Failed], rest);
    lemma_aborted_stays(w1, rest);
    let t = trace(w, seq![Answer::Failed] + rest);
    assert(t == seq![ActionView::Finish] + trace(w1, rest));
    assert forall|i: int| 0 <= i < rest.len() + 1 implies t[i] == ActionView::Finish by {
        if i > 0 {
            assert(t[i] == trace(w1, rest)[i - 1]);
        }
    }
}

/// Whether an answer is of the kind that a prompt of this kind gives.
pub open spec fn answer_fits(kind: PromptKind, answer: Answer) -> bool {
    match kind {
        PromptKind::Text => answer is Text,
        PromptKind::Select => answer is Picked,
        PromptKind::Confirm => answer is Confirmed,
    }
}

/// A question moves on exactly when it gets an answer of the kind its prompt
/// gives (or a failure stops the command); any other answer asks it again and
/// keeps what was decided.
pub proof fn lemma_questions_take_their_answers(w: NewWizard, q: Question, answer: Answer)
    requires
        w.stage == Stage::Asking(q),
    ensures
        next(w, answer).stage != Stage::Asking(q) <==> (answer_fits(question_kind(q), answer)
            || answer is Failed),
        !(answer_fits(question_kind(q), answer) || answer is Failed) ==> next(w, answer) == w,
{
}

/// Once `gtr new` succeeds, a named AI tool is started with
/// `gtr ai <branch> --ai <tool>`, whatever the starting point and the copy
/// choice, and once that succeeds the command is over. With no named tool the
/// command is over as soon as `gtr new` succeeds.
pub proof fn lemma_after_new_command(w: NewWizard)
    requires
        w.stage == Stage::RunningNew,
    ensures
        (match w.request.after {
            AfterCreation::StartAi(t) => if t@.len() > 0 {
                &&& pending(next(w, Answer::CommandDone)) == ActionView::RunGtr(
                    seq!["ai"@, w.request.branch@, "--ai"@, t@],
                )
                &&& pending(next(next(w, Answer::CommandDone), Answer::CommandDone))
                    == ActionView::Finish
            } else {
                pending(next(w, Answer::CommandDone)) == ActionView::Finish
            },
            _ => pending(next(w, Answer::CommandDone)) == ActionView::Finish,
        }),
{
}

impl NewWizard {
    /// A run of the `new` command that has not asked anything yet.
    pub fn new() -> (w: Self)
        ensures
            w.stage == Stage::Asking(Question::BranchName),
            w.request.branch@ == Seq::<char>::empty(),
            w.request.start is Default,
            w.request.after is Nothing,
            !w.request.no_copy,
            pending(w) == ActionView::Ask(Question::BranchName),
    {
        NewWizard {
            stage: Stage::Asking(Question::BranchName),
            request: NewRequest {
                branch: String::new(),
                start: StartingPoint::Default,
                after: AfterCreation::Nothing,
                no_copy: false,
            },
        }
    }

    /// The action that the current state calls for.
    pub fn pending_action(&self) -> (a: Action)
        ensures
            a@ == pending(*self),
    {
        match self.stage {
            Stage::Asking(q) => Action::Ask(q),
            Stage::RunningNew => Action::RunGtr(self.request.gtr_args()),
            Stage::RunningAi => match self.request.ai_args() {
                Some(args) => Action::RunGtr(args),
                None => Action::Finish,
            },
            Stage::Finished => Action::Finish,
            Stage::Aborted => Action::Finish,
        }
    }

    /// Takes in what came of the last action and says what to do next.
    pub fn step(&mut self, answer: Answer) -> (a: Action)
        ensures
            *final(self) == next(*old(self), answer),
            a@ == pending(*final(self)),
    {
        if let Answer::Failed = answer {
            self.stage = Stage::Aborted;
            return self.pending_action();
        }
        match self.stage {
            Stage::Asking(Question::BranchName) => match answer {
                Answer::Text(t) => {
                    self.request.branch = t;
                    self.stage = Stage::Asking(Question::StartingPoint);
                },
                _ => {},
            },
            Stage::Asking(Question::StartingPoint) => match answer {
                Answer::Picked(p) => match start_choice_of(p.as_str()) {
                    StartChoice::Default => {
                        self.request.start = StartingPoint::Default;
                        self.stage = Stage::Asking(Question::AfterCreation);
                    },
                    StartChoice::CurrentBranch => {
                        self.request.start = StartingPoint::CurrentBranch;
                        self.stage = Stage::Asking(Question::AfterCreation);
                    },
                    StartChoice::SpecificRef => {
                        self.stage = Stage::Asking(Question::Ref);
                    },
                },
                _ => {},
            },
            Stage::Asking(Question::Ref) => match answer {
                Answer::Text(t) => {
                    self.request.start = StartingPoint::SpecificRef(t);
                    self.stage = Stage::Asking(Question::AfterCreation);
                },
                _ => {},
            },
            Stage::Asking(Question::AfterCreation) => match answer {
                Answer::Picked(p) => match after_choice_of(p.as_str()) {
                    AfterChoice::Nothing => {
                        self.request.after = AfterCreation::Nothing;
                        self.stage = Stage::Asking(Question::SkipCopy);
                    },
                    AfterChoice::OpenEditor => {
                        self.request.after = AfterCreation::OpenEditor;
                        self.stage = Stage::Asking(Question::SkipCopy);
                    },
                    AfterChoice::StartAi => {
                        self.stage = Stage::Asking(Question::AiTool);
                    },
                },
                _ => {},
            },
            Stage::Asking(Question::AiTool) => match answer {
                Answer::Text(t) => {
                    self.request.after = AfterCreation::StartAi(t);
                    self.stage = Stage::Asking(Question::SkipCopy);
                },
                _ => {},
            },
            Stage::Asking(Question::SkipCopy) => match answer {
                Answer::Confirmed(b) => {
                    self.request.no_copy = b;
                    self.stage = Stage::RunningNew;
                },
                _ => {},
            },
            Stage::RunningNew => match answer {
                Answer::CommandDone => {
                    let names_tool = match &self.request.after {
                        AfterCreation::StartAi(tool) => !tool.as_str().is_empty(),
                        _ => false,
                    };
                    if names_tool {
                        self.stage = Stage::RunningAi;
                    } else {
                        self.stage = Stage::Finished;
                    }
                },
                _ => {},
            },
            Stage::RunningAi => match answer {
                Answer::CommandDone => {
                    self.stage = Stage::Finished;
                },
                _ => {},
            },
            Stage::Finished => {},
            Stage::Aborted => {},
        }
        self.pending_action()
    }
}

} // verus!
