//! The guided composition of a commit message as a state machine. The
//! program around the library asks the questions; the machine takes each
//! answer, checks it, and says which question comes next.
use vstd::prelude::*;
use crate::commit::{
    commit_angular_standard, commit_conventional_standard, commit_standard_none,
    conventional_text, entry_label, format_at, get_breaking_changes, get_commit_message_format,
    get_commit_type, get_referenced_issues, get_subject, section_text, subject_accepted,
    type_entry, CommitMessage, CommitMessageFormat, MessageView, COMMIT_TYPES,
};
use crate::error::ScudError;

verus! {

/// The question that the wizard waits on.
#[derive(Clone, Copy, Debug, PartialEq, Eq, Structural)]
pub enum WizardState {
    SelectFormat,
    SelectType,
    SelectScope,
    SelectSubject,
    SelectBody,
    SelectBreakingChanges,
    SelectRefs,
    Confirm,
    /// The message was confirmed; no question is open.
    Finished,
}

/// What the user gave in reply to a question.
#[derive(Debug, PartialEq, Eq)]
pub enum Answer {
    /// A position in a menu.
    Choice(usize),
    /// A line of text.
    Text(String),
    /// A text that the user may decline to give.
    Optional(Option<String>),
    /// Yes or no.
    Confirmation(bool),
}

/// An answer, with its text as a character sequence.
pub enum AnswerView {
    Choice(usize),
    Text(Seq<char>),
    Optional(Seq<char>),
    Confirmation(bool),
}

impl View for Answer {
    type V = AnswerView;

    open spec fn view(&self) -> AnswerView {
        match self {
            Answer::Choice(selected) => AnswerView::Choice(*selected),
            Answer::Text(text) => AnswerView::Text(text@),
            Answer::Optional(text) => AnswerView::Optional(section_text(*text)),
            Answer::Confirmation(yes) => AnswerView::Confirmation(*yes),
        }
    }
}

/// The wizard between two questions.
#[derive(Debug, PartialEq, Eq)]
pub struct Wizard {
    pub state: WizardState,
    pub format: CommitMessageFormat,
    pub message: CommitMessage,
}

/// The wizard, with the parts of its message as character sequences.
pub struct WizardView {
    pub state: WizardState,
    pub format: CommitMessageFormat,
    pub message: MessageView,
}

impl View for Wizard {
    type V = WizardView;

    open spec fn view(&self) -> WizardView {
        WizardView { state: self.state, format: self.format, message: self.message@ }
    }
}

/// What a step did.
#[derive(Debug, PartialEq, Eq)]
pub enum StepResult {
    /// The answer was taken; the next question is open.
    Advanced,
    /// The message was turned down; everything starts over.
    Restarted,
    /// The message was confirmed; this is its text.
    Finished(String),
    /// The answer was refused; the same question is open again.
    Rejected(ScudError),
    /// The answer is not a reply to the open question; nothing changed.
    Unexpected,
}

/// What a step did, with the text as a character sequence.
pub enum StepView {
    Advanced,
    Restarted,
    Finished(Seq<char>),
    Rejected(ScudError),
    Unexpected,
}

impl View for StepResult {
    type V = StepView;

    open spec fn view(&self) -> StepView {
        match self {
            StepResult::Advanced => StepView::Advanced,
            StepResult::Restarted => StepView::Restarted,
            StepResult::Finished(text) => StepView::Finished(text@),
            StepResult::Rejected(error) => StepView::Rejected(*error),
            StepResult::Unexpected => StepView::Unexpected,
        }
    }
}

/// The wizard before the first question.
pub open spec fn initial_wizard() -> WizardView {
    WizardView {
        state: WizardState::SelectFormat,
        format: CommitMessageFormat::Unknown,
        message: MessageView::blank(),
    }
}

/// The text of the message that the wizard holds, in the format that was chosen.
pub open spec fn message_text(w: WizardView) -> Seq<char> {
    match w.format {
        CommitMessageFormat::Conventional => conventional_text(w.message),
        CommitMessageFormat::Angular => "angular message"@,
        _ => "none message"@,
    }
}

/// The wizard after it took `answer`. The format decides the first
/// question behind it: only the conventional format asks for the parts of the
/// message; the others go straight to the confirmation. A subject that does
/// not fit changes nothing. Turning the message down at the confirmation
/// throws away every answer. An answer of the wrong sort changes nothing.
pub open spec fn next_wizard(w: WizardView, answer: AnswerView) -> WizardView {
    match (w.state, answer) {
        (WizardState::SelectFormat, AnswerView::Choice(selected)) => WizardView {
            state: if format_at(selected) == CommitMessageFormat::Conventional {
                WizardState::SelectType
            } else {
                WizardState::Confirm
            },
            format: format_at(selected),
            message: w.message,
        },
        (WizardState::SelectType, AnswerView::Choice(selected)) => if selected < COMMIT_TYPES {
            WizardView {
                state: WizardState::SelectScope,
                format: w.format,
                message: MessageView { commit_type: entry_label(type_entry(selected)), ..w.message },
            }
        } else {
            w
        },
        (WizardState::SelectScope, AnswerView::Text(text)) => WizardView {
            state: WizardState::SelectSubject,
            format: w.format,
            message: MessageView { scope: text, ..w.message },
        },
        (WizardState::SelectSubject, AnswerView::Text(text)) => if subject_accepted(
            w.message.commit_type,
            w.message.scope,
            text,
        ) {
            WizardView {
                state: WizardState::SelectBody,
                format: w.format,
                message: MessageView { subject: text, ..w.message },
            }
        } else {
            w
        },
        (WizardState::SelectBody, AnswerView::Text(text)) => WizardView {
            state: WizardState::SelectBreakingChanges,
            format: w.format,
            message: MessageView { body: text, ..w.message },
        },
        (WizardState::SelectBreakingChanges, AnswerView::Optional(text)) => WizardView {
            state: WizardState::SelectRefs,
            format: w.format,
            message: MessageView { breaking_changes: text, ..w.message },
        },
        (WizardState::SelectRefs, AnswerView::Optional(text)) => WizardView {
            state: WizardState::Confirm,
            format: w.format,
            message: MessageView { refs: text, ..w.message },
        },
        (WizardState::Confirm, AnswerView::Confirmation(yes)) => if yes {
            WizardView { state: WizardState::Finished, format: w.format, message: w.message }
        } else {
            initial_wizard()
        },
        _ => w,
    }
}

/// What the step that takes `answer` reports.
pub open spec fn step_result(w: WizardView, answer: AnswerView) -> StepView {
    match (w.state, answer) {
        (WizardState::SelectFormat, AnswerView::Choice(_)) => StepView::Advanced,
        (WizardState::SelectType, AnswerView::Choice(selected)) => if selected < COMMIT_TYPES {
            StepView::Advanced
        } else {
            StepView::Unexpected
        },
        (WizardState::SelectScope, AnswerView::Text(_)) => StepView::Advanced,
        (WizardState::SelectSubject, AnswerView::Text(text)) => if subject_accepted(
            w.message.commit_type,
            w.message.scope,
            text,
        ) {
            StepView::Advanced
        } else {
            StepView::Rejected(ScudError::InvalidSubjectLength)
        },
        (WizardState::SelectBody, AnswerView::Text(_)) => StepView::Advanced,
        (WizardState::SelectBreakingChanges, AnswerView::Optional(_)) => StepView::Advanced,
        (WizardState::SelectRefs, AnswerView::Optional(_)) => StepView::Advanced,
        (WizardState::Confirm, AnswerView::Confirmation(yes)) => if yes {
            StepView::Finished(message_text(w))
        } else {
            StepView::Restarted
        },
        _ => StepView::Unexpected,
    }
}

impl Wizard {
    /// The wizard before the first question.
    pub fn new() -> (r: Wizard)
        ensures
            r@ == initial_wizard(),
    {
        Wizard {
            state: WizardState::SelectFormat,
            format: CommitMessageFormat::Unknown,
            message: CommitMessage::new(),
        }
    }

    /// The text of the message in the chosen format.
    pub fn render(&self) -> (r: String)
        ensures
            r@ == message_text(self@),
    {
        match self.format {
            CommitMessageFormat::Conventional => commit_conventional_standard(&self.message),
            CommitMessageFormat::Angular => commit_angular_standard(),
            _ => commit_standard_none(),
        }
    }

    /// Takes one answer and moves to the next question.
    pub fn step(self, answer: Answer) -> (r: (Wizard, StepResult))
        ensures
            r.0@ == next_wizard(self@, answer@),
            r.1@ == step_result(self@, answer@),
    {
        let Wizard { state, format, message } = self;
        let CommitMessage { commit_type, scope, subject, body, breaking_changes, refs } = message;
        match (state, answer) {
            (WizardState::SelectFormat, Answer::Choice(selected)) => {
                let format = get_commit_message_format(selected);
                let state = match format {
                    CommitMessageFormat::Conventional => WizardState::SelectType,
                    _ => WizardState::Confirm,
                };
                let message = CommitMessage {
                    commit_type,
                    scope,
                    subject,
                    body,
                    breaking_changes,
                    refs,
                };
                (Wizard { state, format, message }, StepResult::Advanced)
            },
            (WizardState::SelectType, Answer::Choice(selected)) => {
                if selected < COMMIT_TYPES {
                    let message = CommitMessage {
                        commit_type: get_commit_type(selected),
                        scope,
                        subject,
                        body,
                        breaking_changes,
                        refs,
                    };
                    (
                        Wizard { state: WizardState::SelectScope, format, message },
                        StepResult::Advanced,
                    )
                } else {
                    let message = CommitMessage {
                        commit_type,
                        scope,
                        subject,
                        body,
                        breaking_changes,
                        refs,
                    };
                    (Wizard { state, format, message }, StepResult::Unexpected)
                }
            },
            (WizardState::SelectScope, Answer::Text(text)) => {
                let message = CommitMessage {
                    commit_type,
                    scope: text,
                    subject,
                    body,
                    breaking_changes,
                    refs,
                };
                (
                    Wizard { state: WizardState::SelectSubject, format, message },
                    StepResult::Advanced,
                )
            },
            (WizardState::SelectSubject, Answer::Text(text)) => {
                match get_subject(commit_type.as_str(), scope.as_str(), text) {
                    Ok(accepted) => {
                        let message = CommitMessage {
                            commit_type,
                            scope,
                            subject: accepted,
                            body,
                            breaking_changes,
                            refs,
                        };
                        (
                            Wizard { state: WizardState::SelectBody, format, message },
                            StepResult::Advanced,
                        )
                    },
                    Err(error) => {
                        let message = CommitMessage {
                            commit_type,
                            scope,
                            subject,
                            body,
                            breaking_changes,
                            refs,
                        };
                        (Wizard { state, format, message }, StepResult::Rejected(error))
                    },
                }
            },
            (WizardState::SelectBody, Answer::Text(text)) => {
                let message = CommitMessage {
                    commit_type,
                    scope,
                    subject,
                    body: text,
                    breaking_changes,
                    refs,
                };
                (
                    Wizard { state: WizardState::SelectBreakingChanges, format, message },
                    StepResult::Advanced,
                )
            },
            (WizardState::SelectBreakingChanges, Answer::Optional(text)) => {
                let message = CommitMessage {
                    commit_type,
                    scope,
                    subject,
                    body,
                    breaking_changes: get_breaking_changes(text),
                    refs,
                };
                (
                    Wizard { state: WizardState::SelectRefs, format, message },
                    StepResult::Advanced,
                )
            },
            (WizardState::SelectRefs, Answer::Optional(text)) => {
                let message = CommitMessage {
                    commit_type,
                    scope,
                    subject,
                    body,
                    breaking_changes,
                    refs: get_referenced_issues(text),
                };
                (Wizard { state: WizardState::Confirm, format, message }, StepResult::Advanced)
            },
            (WizardState::Confirm, Answer::Confirmation(yes)) => {
                if yes {
                    let message = CommitMessage {
                        commit_type,
                        scope,
                        subject,
                        body,
                        breaking_changes,
                        refs,
                    };
                    let done = Wizard { state: WizardState::Finished, format, message };
                    let text = done.render();
                    (done, StepResult::Finished(text))
                } else {
                    (Wizard::new(), StepResult::Restarted)
                }
            },
            (state, _) => {
                let message = CommitMessage {
                    commit_type,
                    scope,
                    subject,
                    body,
                    breaking_changes,
                    refs,
                };
                (Wizard { state, format, message }, StepResult::Unexpected)
            },
        }
    }
}

impl Answer {
    /// A copy of this answer.
    pub fn duplicate(&self) -> (r: Answer)
        ensures
            r@ == self@,
    {
        match self {
            Answer::Choice(selected) => Answer::Choice(*selected),
            Answer::Text(text) => Answer::Text(text.clone()),
            Answer::Optional(Some(text)) => Answer::Optional(Some(text.clone())),
            Answer::Optional(None) => Answer::Optional(None),
            Answer::Confirmation(yes) => Answer::Confirmation(*yes),
        }
    }
}

/// The views of a list of answers.
pub open spec fn answers_view(answers: Seq<Answer>) -> Seq<AnswerView> {
    answers.map_values(|answer: Answer| answer@)
}

/// The text that the wizard ends on when it is fed `answers` in turn,
/// starting from `w`: the text of the first message that is confirmed.
/// Answers behind that one are not looked at.
pub open spec fn outcome_of(w: WizardView, answers: Seq<AnswerView>) -> Option<Seq<char>>
    decreases answers.len(),
{
    if answers.len() == 0 {
        None
    } else {
        match step_result(w, answers[0]) {
            StepView::Finished(text) => Some(text),
            _ => outcome_of(next_wizard(w, answers[0]), answers.skip(1)),
        }
    }
}

/// Runs the wizard from its first question over a list of answers, and
/// gives the text of the message once one is confirmed.
pub fn process_commit_message(answers: &Vec<Answer>) -> (r: Option<String>)
    ensures
        match outcome_of(initial_wizard(), answers_view(answers@)) {
            Some(text) => r matches Some(message) && message@ == text,
            None => r is None,
        },
{
    let ghost all = answers_view(answers@);
    let mut wizard = Wizard::new();
    let mut i: usize = 0;
    assert(all.skip(0) =~= all);
    while i < answers.len()
        invariant
            i <= answers.len(),
            all == answers_view(answers@),
            outcome_of(initial_wizard(), all) == outcome_of(wizard@, all.skip(i as int)),
        decreases answers.len() - i,
    {
        let ghost rest = all.skip(i as int);
        assert(rest[0] == answers@[i as int]@);
        assert(rest.skip(1) =~= all.skip(i + 1));
        let (next, result) = wizard.step(answers[i].duplicate());
        match result {
            StepResult::Finished(text) => {
                return Some(text);
            },
            _ => {},
        }
        wizard = next;
        i += 1;
    }
    None
}

/// Whether the subject has been taken in this state.
pub open spec fn subject_is_set(state: WizardState) -> bool {
    state == WizardState::SelectBody || state == WizardState::SelectBreakingChanges || state
        == WizardState::SelectRefs || state == WizardState::Confirm || state
        == WizardState::Finished
}

/// The invariant of the wizard: once the subject of a conventional message
/// has been taken, it fits behind the type and the scope.
pub open spec fn consistent(w: WizardView) -> bool {
    w.format == CommitMessageFormat::Conventional && subject_is_set(w.state)
        ==> w.message.well_formed()
}

/// The wizard starts out consistent, and no answer makes it inconsistent.
pub proof fn law_steps_keep_the_subject_within_its_limit(w: WizardView, answer: AnswerView)
    requires
        consistent(w),
    ensures
        consistent(initial_wizard()),
        consistent(next_wizard(w, answer)),
{
}

/// Turning the message down at the confirmation discards every answer
/// and opens the first question again.
pub proof fn law_rejection_starts_over(w: WizardView)
    requires
        w.state == WizardState::Confirm,
    ensures
        next_wizard(w, AnswerView::Confirmation(false)) == initial_wizard(),
        step_result(w, AnswerView::Confirmation(false)) == StepView::Restarted,
{
}

/// After a message was turned down, the answers that follow are taken as
/// if the wizard had only just begun, wherever it stood and whatever it held.
pub proof fn law_script_after_rejection(w: WizardView, rest: Seq<AnswerView>)
    requires
        w.state == WizardState::Confirm,
    ensures
        outcome_of(w, seq![AnswerView::Confirmation(false)] + rest) == outcome_of(
            initial_wizard(),
            rest,
        ),
{
    let script = seq![AnswerView::Confirmation(false)] + rest;
    assert(script[0] == AnswerView::Confirmation(false));
    assert(script.skip(1) =~= rest);
}

/// A subject that does not fit is refused and leaves the wizard as it was.
pub proof fn law_long_subject_is_refused_in_place(w: WizardView, subject: Seq<char>)
    requires
        w.state == WizardState::SelectSubject,
        !subject_accepted(w.message.commit_type, w.message.scope, subject),
    ensures
        next_wizard(w, AnswerView::Text(subject)) == w,
        step_result(w, AnswerView::Text(subject)) == StepView::Rejected(
            ScudError::InvalidSubjectLength,
        ),
{
}

/// No message is finished unless it was confirmed: the wizard ends only
/// by a yes at the confirmation.
pub proof fn law_only_confirmation_finishes(w: WizardView, answer: AnswerView)
    requires
        w.state != WizardState::Finished,
    ensures
        next_wizard(w, answer).state == WizardState::Finished <==> (w.state == WizardState::Confirm
            && answer == AnswerView::Confirmation(true)),
        step_result(w, answer) is Finished <==> (w.state == WizardState::Confirm && answer
            == AnswerView::Confirmation(true)),
{
}

/// Only the conventional format asks for the parts of the message; the
/// others lead from the choice of the format straight to the confirmation.
pub proof fn law_other_formats_skip_the_parts(w: WizardView, selected: usize)
    requires
        w.state == WizardState::SelectFormat,
    ensures
        selected == 0 ==> next_wizard(w, AnswerView::Choice(selected)).state
            == WizardState::SelectType,
        selected != 0 ==> next_wizard(w, AnswerView::Choice(selected)).state
            == WizardState::Confirm,
{
}

} // verus!
