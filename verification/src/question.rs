//! The question data model and the bank loader.

use vstd::prelude::*;

verus! {

/// Every question offers exactly this many choices.
pub const CHOICE_COUNT: usize = 3;

/// An unvalidated question record, exactly as the question source yields it:
/// a display text, a list of choice texts, the index of the correct choice,
/// and an optional image key (empty = no image).
pub struct QuestionRecord {
    pub text: String,
    pub choices: Vec<String>,
    pub answer: usize,
    pub image: String,
}

/// A validated question: the invariant [`Question::wf`] holds for every
/// question that a [`QuestionBank`] hands out.
pub struct Question {
    pub text: String,
    pub choices: Vec<String>,
    pub answer: usize,
    pub image: String,
}

impl Question {
    /// A question is well formed when it has exactly [`CHOICE_COUNT`] choices
    /// and its answer index points at one of them.
    pub open spec fn wf(self) -> bool {
        &&& self.choices@.len() == CHOICE_COUNT
        &&& self.answer < CHOICE_COUNT
    }
}

/// Whether a record would validate into a well-formed question.
pub open spec fn record_ok(r: QuestionRecord) -> bool {
    &&& r.choices@.len() == CHOICE_COUNT
    &&& r.answer < CHOICE_COUNT
}

/// The question a record validates into, field for field.
pub open spec fn question_of(r: QuestionRecord) -> Question {
    Question { text: r.text, choices: r.choices, answer: r.answer, image: r.image }
}

/// Why the bank failed to load. Loading is all or nothing: the first bad
/// record (in source order) is reported and nothing is kept.
#[derive(Clone, Copy, Debug, PartialEq, Eq, Structural)]
pub enum LoadError {
    /// The source held no records at all.
    EmptyBank,
    /// The record at `index` does not have exactly [`CHOICE_COUNT`] choices.
    WrongChoiceCount { index: usize },
    /// The record at `index` has an answer index outside its choice list.
    AnswerOutOfRange { index: usize },
}

/// An ordered, immutable, non-empty sequence of well-formed questions,
/// fixed for the process lifetime once loaded.
pub struct QuestionBank {
    questions: Vec<Question>,
}

impl View for QuestionBank {
    type V = Seq<Question>;

    closed spec fn view(&self) -> Seq<Question> {
        self.questions@
    }
}

impl QuestionBank {
    /// The bank invariant: non-empty, and every question well formed.
    pub open spec fn wf(self) -> bool {
        &&& self@.len() > 0
        &&& forall|i: int| 0 <= i < self@.len() ==> (#[trigger] self@[i]).wf()
    }

    /// How many questions the bank holds.
    pub fn len(&self) -> (n: usize)
        ensures
            n == self@.len(),
    {
        self.questions.len()
    }

    /// The question at `i`.
    pub fn question(&self, i: usize) -> (q: &Question)
        requires
            i < self@.len(),
        ensures
            *q == self@[i as int],
    {
        &self.questions[i]
    }

    /// Validates the records in order and builds the bank: either every
    /// record is good and the whole bank loads, or the first failure is
    /// reported and the program must not start a session.
    #[verifier::loop_isolation(false)]
    pub fn load(records: Vec<QuestionRecord>) -> (r: Result<QuestionBank, LoadError>)
        ensures
            match r {
                Ok(bank) => {
                    &&& bank.wf()
                    &&& records@.len() > 0
                    &&& forall|i: int|
                        0 <= i < records@.len() ==> record_ok(#[trigger] records@[i])
                    &&& bank@ == records@.map_values(|rec: QuestionRecord| question_of(rec))
                },
                Err(LoadError::EmptyBank) => records@.len() == 0,
                Err(LoadError::WrongChoiceCount { index }) => {
                    &&& index < records@.len()
                    &&& records@[index as int].choices@.len() != CHOICE_COUNT
                    &&& forall|j: int| 0 <= j < index ==> record_ok(#[trigger] records@[j])
                },
                Err(LoadError::AnswerOutOfRange { index }) => {
                    &&& index < records@.len()
                    &&& records@[index as int].choices@.len() == CHOICE_COUNT
                    &&& records@[index as int].answer >= CHOICE_COUNT
                    &&& forall|j: int| 0 <= j < index ==> record_ok(#[trigger] records@[j])
                },
            },
    {
        if records.len() == 0 {
            return Err(LoadError::EmptyBank);
        }
        let ghost orig = records@;
        let mut rest = records;
        let mut questions: Vec<Question> = Vec::new();
        let mut idx: usize = 0;
        while rest.len() > 0
            invariant
                orig.len() == idx + rest@.len(),
                rest@ == orig.subrange(idx as int, orig.len() as int),
                questions@.len() == idx,
                forall|j: int|
                    0 <= j < idx ==> record_ok(#[trigger] orig[j]) && questions@[j]
                        == question_of(orig[j]),
            decreases rest@.len(),
        {
            let rec = rest.remove(0);
            if rec.choices.len() != CHOICE_COUNT {
                return Err(LoadError::WrongChoiceCount { index: idx });
            }
            if rec.answer >= CHOICE_COUNT {
                return Err(LoadError::AnswerOutOfRange { index: idx });
            }
            questions.push(
                Question {
                    text: rec.text,
                    choices: rec.choices,
                    answer: rec.answer,
                    image: rec.image,
                },
            );
            idx = idx + 1;
        }
        proof {
            assert(questions@ =~= orig.map_values(|rec: QuestionRecord| question_of(rec)));
        }
        Ok(QuestionBank { questions })
    }
}

} // verus!
