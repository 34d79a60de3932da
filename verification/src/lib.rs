//! A small quiz-trainer library: an immutable bank of multiple-choice
//! questions, a selector that draws an unseen question at random, and the
//! exam-session state machine that records the user's progress and score.
//! The presentation layer polls the session state and feeds user actions
//! into the transition operations; the library never calls back into it.

pub mod question;
pub mod score;
pub mod select;
pub mod session;

pub use question::LoadError;
pub use question::Question;
pub use question::QuestionBank;
pub use question::QuestionRecord;
pub use session::ExamSession;
pub use session::Phase;
