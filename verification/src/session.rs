//! The exam-session state machine: which question is active, what the user
//! selected, which questions are already answered, and the running correct
//! count. The presentation layer polls this state each redraw and forwards
//! user actions into the transition operations; invalid actions are kept out
//! by each transition's precondition, which the caller checks first.

use vstd::prelude::*;
use crate::question::CHOICE_COUNT;
use crate::question::QuestionBank;
use crate::select::pick_unseen;
use crate::select::random_below;

verus! {

broadcast use vstd::seq_lib::group_seq_properties;

/// The four session states. The welcome screen shows in `NotStarted`; a
/// question with its choices shows in `AwaitingChoice`; correctness feedback
/// shows in `AnswerRevealed`; the final score shows in `Completed`.
#[derive(Clone, Copy, Debug, PartialEq, Eq, Structural)]
pub enum Phase {
    NotStarted,
    AwaitingChoice,
    AnswerRevealed,
    Completed,
}

/// One user's progress through the bank, owned by the UI loop and mutated
/// only through the transition operations below.
pub struct ExamSession {
    /// Where in the lifecycle the session stands.
    pub phase: Phase,
    /// Index into the bank of the question being shown; meaningful only in
    /// `AwaitingChoice` and `AnswerRevealed`.
    pub current_question: usize,
    /// The choice the user has picked, not yet submitted in
    /// `AwaitingChoice`, submitted in `AnswerRevealed`.
    pub selected_answer: Option<usize>,
    /// Indices of the questions answered this session, each at most once.
    pub answered: Vec<usize>,
    /// How many answered questions were answered correctly.
    pub correct: usize,
}

impl ExamSession {
    /// The bookkeeping invariant against a bank of `n` questions: answered
    /// indices are distinct and in range, and the correct count never
    /// exceeds them.
    pub open spec fn bookkeeping_ok(self, n: int) -> bool {
        &&& self.answered@.no_duplicates()
        &&& forall|k: int|
            0 <= k < self.answered@.len() ==> (#[trigger] self.answered@[k] as int) < n
        &&& self.correct <= self.answered@.len()
        &&& self.answered@.len() <= n
    }

    /// The full session invariant: bookkeeping plus what each phase
    /// guarantees about the active question and the selection.
    pub open spec fn wf(self, n: int) -> bool {
        &&& self.bookkeeping_ok(n)
        &&& match self.phase {
            Phase::NotStarted => {
                &&& self.answered@.len() == 0
                &&& self.correct == 0
                &&& self.selected_answer is None
            },
            Phase::AwaitingChoice => {
                &&& (self.current_question as int) < n
                &&& !self.answered@.contains(self.current_question)
                &&& self.answered@.len() < n
                &&& (self.selected_answer matches Some(c) ==> c < CHOICE_COUNT)
            },
            Phase::AnswerRevealed => {
                &&& (self.current_question as int) < n
                &&& self.answered@.contains(self.current_question)
                &&& (self.selected_answer matches Some(c) && c < CHOICE_COUNT)
            },
            Phase::Completed => {
                &&& self.answered@.len() == n
                &&& self.selected_answer is None
            },
        }
    }

    /// Whether every question in the bank has been answered and the session
    /// has reached its final screen.
    pub open spec fn spec_answered_all(&self) -> bool {
        self.phase is Completed
    }

    /// Whether every question in the bank has been answered and the session
    /// has reached its final screen.
    #[verifier::when_used_as_spec(spec_answered_all)]
    pub fn answered_all(&self) -> (r: bool)
        ensures
            r == self.spec_answered_all(),
    {
        self.phase == Phase::Completed
    }

    /// A fresh session, showing the welcome screen against any bank.
    pub fn new() -> (s: ExamSession)
        ensures
            s.phase is NotStarted,
            s.answered@.len() == 0,
            s.correct == 0,
            s.selected_answer is None,
            forall|n: int| 0 <= n ==> s.wf(n),
    {
        ExamSession {
            phase: Phase::NotStarted,
            current_question: 0,
            selected_answer: None,
            answered: Vec::new(),
            correct: 0,
        }
    }

    /// Dismisses the welcome screen and shows a question picked uniformly at
    /// random from the whole bank (nothing is answered yet, so nothing is
    /// excluded).
    pub fn start(&mut self, bank: &QuestionBank)
        requires
            bank.wf(),
            old(self).wf(bank@.len() as int),
            old(self).phase is NotStarted,
        ensures
            final(self).wf(bank@.len() as int),
            final(self).phase is AwaitingChoice,
            (final(self).current_question as int) < bank@.len(),
            final(self).selected_answer is None,
            final(self).answered == old(self).answered,
            final(self).answered@.len() == 0,
            final(self).correct == 0,
    {
        self.current_question = random_below(bank.len());
        self.selected_answer = None;
        self.phase = Phase::AwaitingChoice;
    }

    /// Records the user's pick for the question being shown. Picking again
    /// simply overwrites the earlier pick; nothing else moves.
    pub fn select_choice(&mut self, choice: usize)
        requires
            old(self).phase is AwaitingChoice,
            choice < CHOICE_COUNT,
        ensures
            final(self).phase is AwaitingChoice,
            final(self).selected_answer == Some(choice),
            final(self).current_question == old(self).current_question,
            final(self).answered == old(self).answered,
            final(self).correct == old(self).correct,
            forall|n: int| old(self).wf(n) ==> final(self).wf(n),
    {
        self.selected_answer = Some(choice);
    }

    /// Submits the selected choice: marks the shown question answered and
    /// counts it correct exactly when the selection matches the question's
    /// answer index. Each question is marked at most once per session,
    /// because an answered question is never shown again.
    pub fn submit(&mut self, bank: &QuestionBank)
        requires
            bank.wf(),
            old(self).wf(bank@.len() as int),
            old(self).phase is AwaitingChoice,
            old(self).selected_answer is Some,
        ensures
            final(self).wf(bank@.len() as int),
            final(self).phase is AnswerRevealed,
            final(self).current_question == old(self).current_question,
            final(self).selected_answer == old(self).selected_answer,
            final(self).answered@ == old(self).answered@.push(old(self).current_question),
            final(self).correct == if old(self).selected_answer == Some(
                bank@[old(self).current_question as int].answer,
            ) {
                old(self).correct + 1
            } else {
                old(self).correct as int
            },
    {
        // Reading the bank length as a usize bounds the correct count, which
        // stays below it, so the increment below cannot overflow.
        let _bank_len = bank.len();
        let chosen = self.selected_answer.unwrap();
        let question_index = self.current_question;
        self.answered.push(question_index);
        if chosen == bank.question(question_index).answer {
            self.correct = self.correct + 1;
        }
        self.phase = Phase::AnswerRevealed;
    }

    /// Abandons the shown question before submitting and shows another
    /// unseen question instead, picked uniformly at random. The skipped
    /// question is not marked answered and the score does not move; the
    /// skipped question stays unseen, so with a single unseen question left
    /// a skip shows that same question again.
    pub fn skip(&mut self, bank: &QuestionBank)
        requires
            bank.wf(),
            old(self).wf(bank@.len() as int),
            old(self).phase is AwaitingChoice,
        ensures
            final(self).wf(bank@.len() as int),
            final(self).phase is AwaitingChoice,
            final(self).answered == old(self).answered,
            final(self).correct == old(self).correct,
            final(self).selected_answer is None,
            (final(self).current_question as int) < bank@.len(),
            !old(self).answered@.contains(final(self).current_question),
    {
        self.current_question = pick_unseen(bank.len(), &self.answered);
        self.selected_answer = None;
    }

    /// Leaves the feedback screen: completes the session once every
    /// question in the bank has been answered, and otherwise shows a new
    /// unseen question. The session is completed if and only if the
    /// answered count has reached the bank size.
    pub fn advance(&mut self, bank: &QuestionBank)
        requires
            bank.wf(),
            old(self).wf(bank@.len() as int),
            old(self).phase is AnswerRevealed,
        ensures
            final(self).wf(bank@.len() as int),
            final(self).answered == old(self).answered,
            final(self).correct == old(self).correct,
            final(self).selected_answer is None,
            final(self).answered_all() <==> old(self).answered@.len() == bank@.len(),
            old(self).answered@.len() == bank@.len() ==> final(self).phase is Completed,
            old(self).answered@.len() < bank@.len() ==> {
                &&& final(self).phase is AwaitingChoice
                &&& (final(self).current_question as int) < bank@.len()
                &&& !old(self).answered@.contains(final(self).current_question)
            },
    {
        if self.answered.len() == bank.len() {
            self.selected_answer = None;
            self.phase = Phase::Completed;
        } else {
            self.current_question = pick_unseen(bank.len(), &self.answered);
            self.selected_answer = None;
            self.phase = Phase::AwaitingChoice;
        }
    }

    /// Starts over after completion: clears the answered set and the score,
    /// then behaves as a start, showing a question picked uniformly at
    /// random from the whole bank. The bank itself never changes.
    pub fn restart(&mut self, bank: &QuestionBank)
        requires
            bank.wf(),
            old(self).wf(bank@.len() as int),
            old(self).phase is Completed,
        ensures
            final(self).wf(bank@.len() as int),
            final(self).phase is AwaitingChoice,
            final(self).answered@.len() == 0,
            final(self).correct == 0,
            final(self).selected_answer is None,
            (final(self).current_question as int) < bank@.len(),
    {
        self.answered.clear();
        self.correct = 0;
        self.current_question = random_below(bank.len());
        self.selected_answer = None;
        self.phase = Phase::AwaitingChoice;
    }
}

/// In every well-formed session the correct count is at most the answered
/// count, which is at most the bank size.
pub proof fn lemma_session_bounds(s: ExamSession, n: int)
    requires
        s.wf(n),
    ensures
        s.correct <= s.answered@.len() <= n,
{
}

/// A completed session has answered the whole bank: once `answered_all`
/// holds, the answered count equals the bank size. Together with the
/// `advance` contract, which completes the session exactly when the count
/// has reached the bank size, the flag holds if and only if the count is
/// full.
pub proof fn lemma_answered_all_means_full(s: ExamSession, n: int)
    requires
        s.wf(n),
        s.spec_answered_all(),
    ensures
        s.answered@.len() == n,
{
}

} // verus!
