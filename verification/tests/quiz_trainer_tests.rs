use quiz_trainer::question::QuestionBank;
use quiz_trainer::question::QuestionRecord;
use quiz_trainer::score::percent_hundredths;
use quiz_trainer::score::score_line;
use quiz_trainer::select::pick_unseen;
use quiz_trainer::session::ExamSession;
use quiz_trainer::session::Phase;
use quiz_trainer::LoadError;

fn record(text: &str, choices: [&str; 3], answer: usize, image: &str) -> QuestionRecord {
    QuestionRecord {
        text: text.to_string(),
        choices: choices.iter().map(|c| c.to_string()).collect(),
        answer,
        image: image.to_string(),
    }
}

fn two_question_bank() -> QuestionBank {
    // Q0's correct choice is 1, Q1's correct choice is 0.
    QuestionBank::load(vec![
        record("first", ["a", "b", "c"], 1, ""),
        record("second", ["d", "e", "f"], 0, "images/b1.gif"),
    ])
    .expect("bank loads")
}

fn answer_current_correctly(session: &mut ExamSession, bank: &QuestionBank) {
    assert!(session.phase == Phase::AwaitingChoice);
    let q = bank.question(session.current_question);
    assert!(q.answer < 3);
    session.select_choice(q.answer);
    assert!(session.selected_answer.is_some());
    session.submit(bank);
}

#[test]
fn load_builds_bank_in_order() {
    let bank = two_question_bank();
    assert_eq!(bank.len(), 2);
    assert_eq!(bank.question(0).text, "first");
    assert_eq!(bank.question(0).choices, vec!["a", "b", "c"]);
    assert_eq!(bank.question(0).answer, 1);
    assert_eq!(bank.question(0).image, "");
    assert_eq!(bank.question(1).text, "second");
    assert_eq!(bank.question(1).answer, 0);
    assert_eq!(bank.question(1).image, "images/b1.gif");
}

#[test]
fn load_rejects_empty_source() {
    let r = QuestionBank::load(vec![]);
    assert!(matches!(r, Err(LoadError::EmptyBank)));
}

#[test]
fn load_rejects_wrong_choice_count() {
    let mut bad = record("broken", ["a", "b", "c"], 0, "");
    bad.choices.pop();
    let r = QuestionBank::load(vec![record("fine", ["a", "b", "c"], 2, ""), bad]);
    assert!(matches!(r, Err(LoadError::WrongChoiceCount { index: 1 })));
}

#[test]
fn load_rejects_answer_out_of_range() {
    let r = QuestionBank::load(vec![record("broken", ["a", "b", "c"], 3, "")]);
    assert!(matches!(r, Err(LoadError::AnswerOutOfRange { index: 0 })));
}

#[test]
fn load_reports_first_bad_record() {
    let mut short = record("short", ["a", "b", "c"], 0, "");
    short.choices.pop();
    let r = QuestionBank::load(vec![
        record("fine", ["a", "b", "c"], 0, ""),
        short,
        record("late", ["a", "b", "c"], 9, ""),
    ]);
    assert!(matches!(r, Err(LoadError::WrongChoiceCount { index: 1 })));
}

#[test]
fn percent_values_are_exact() {
    assert_eq!(percent_hundredths(0, 0), 0);
    assert_eq!(percent_hundredths(3, 4), 7500);
    assert_eq!(percent_hundredths(0, 5), 0);
    assert_eq!(percent_hundredths(2, 2), 10000);
    assert_eq!(percent_hundredths(1, 3), 3333);
}

#[test]
fn score_line_renders_two_decimals() {
    assert_eq!(score_line(0, 0), "0 of 0 (0.00%)");
    assert_eq!(score_line(3, 4), "3 of 4 (75.00%)");
    assert_eq!(score_line(0, 5), "0 of 5 (0.00%)");
    assert_eq!(score_line(1, 3), "1 of 3 (33.33%)");
    assert_eq!(score_line(1, 16), "1 of 16 (6.25%)");
}

#[test]
fn selector_avoids_answered_indices() {
    let answered = vec![0usize, 2, 4];
    for _ in 0..200 {
        let picked = pick_unseen(5, &answered);
        assert!(picked == 1 || picked == 3);
    }
}

#[test]
fn selector_returns_last_unseen_with_certainty() {
    let answered = vec![0usize, 1, 3, 4];
    for _ in 0..200 {
        assert_eq!(pick_unseen(5, &answered), 2);
    }
}

#[test]
fn selector_draws_from_full_range_when_nothing_answered() {
    // With a single candidate, the draw may not hand the range bound back.
    assert_eq!(pick_unseen(1, &vec![]), 0);
}

#[test]
fn full_session_over_two_questions() {
    let bank = two_question_bank();
    let mut session = ExamSession::new();
    assert!(session.phase == Phase::NotStarted);

    session.start(&bank);
    assert!(session.phase == Phase::AwaitingChoice);
    let first = session.current_question;
    assert!(first == 0 || first == 1);

    answer_current_correctly(&mut session, &bank);
    assert!(session.phase == Phase::AnswerRevealed);
    assert_eq!(session.correct, 1);
    assert_eq!(session.answered, vec![first]);

    session.advance(&bank);
    assert!(session.phase == Phase::AwaitingChoice);
    let second = session.current_question;
    assert_eq!(second, 1 - first, "only the unseen question can be shown");

    answer_current_correctly(&mut session, &bank);
    assert_eq!(session.correct, 2);
    assert_eq!(session.answered.len(), 2);

    session.advance(&bank);
    assert!(session.answered_all());
    assert!(session.phase == Phase::Completed);
    assert_eq!(score_line(session.correct, session.answered.len()), "2 of 2 (100.00%)");
}

#[test]
fn counts_stay_bounded_throughout() {
    let bank = two_question_bank();
    let mut session = ExamSession::new();
    assert!(session.correct <= session.answered.len());
    assert!(session.answered.len() <= bank.len());
    session.start(&bank);
    while session.phase != Phase::Completed {
        assert!(session.correct <= session.answered.len());
        assert!(session.answered.len() <= bank.len());
        assert!(!session.answered_all());
        answer_current_correctly(&mut session, &bank);
        assert!(session.correct <= session.answered.len());
        assert!(session.answered.len() <= bank.len());
        session.advance(&bank);
    }
    assert!(session.answered_all());
    assert_eq!(session.answered.len(), bank.len());
}

#[test]
fn wrong_answer_is_not_counted() {
    let bank = two_question_bank();
    let mut session = ExamSession::new();
    session.start(&bank);
    let q = bank.question(session.current_question);
    let wrong = (q.answer + 1) % 3;
    session.select_choice(wrong);
    session.submit(&bank);
    assert_eq!(session.correct, 0);
    assert_eq!(session.answered.len(), 1);
}

#[test]
fn selection_can_be_changed_before_submit() {
    let bank = two_question_bank();
    let mut session = ExamSession::new();
    session.start(&bank);
    session.select_choice(0);
    assert_eq!(session.selected_answer, Some(0));
    session.select_choice(2);
    assert_eq!(session.selected_answer, Some(2));
    assert_eq!(session.answered.len(), 0);
    assert_eq!(session.correct, 0);
}

#[test]
fn skip_leaves_progress_untouched() {
    let bank = QuestionBank::load(vec![
        record("q0", ["a", "b", "c"], 0, ""),
        record("q1", ["a", "b", "c"], 1, ""),
        record("q2", ["a", "b", "c"], 2, ""),
    ])
    .expect("bank loads");
    let mut session = ExamSession::new();
    session.start(&bank);

    answer_current_correctly(&mut session, &bank);
    session.advance(&bank);
    let answered_before = session.answered.clone();
    let correct_before = session.correct;

    for _ in 0..100 {
        session.select_choice(0);
        session.skip(&bank);
        assert_eq!(session.answered, answered_before);
        assert_eq!(session.correct, correct_before);
        assert_eq!(session.selected_answer, None);
        assert!(session.current_question < bank.len());
        assert!(!session.answered.contains(&session.current_question));
    }
}

#[test]
fn skip_with_one_unseen_shows_it_again() {
    let bank = two_question_bank();
    let mut session = ExamSession::new();
    session.start(&bank);
    answer_current_correctly(&mut session, &bank);
    session.advance(&bank);
    let only_unseen = session.current_question;
    for _ in 0..50 {
        session.skip(&bank);
        assert_eq!(session.current_question, only_unseen);
    }
}

#[test]
fn restart_clears_progress_and_keeps_bank() {
    let bank = two_question_bank();
    let mut session = ExamSession::new();
    session.start(&bank);
    answer_current_correctly(&mut session, &bank);
    session.advance(&bank);
    answer_current_correctly(&mut session, &bank);
    session.advance(&bank);
    assert!(session.answered_all());
    assert_eq!(session.correct, 2);

    session.restart(&bank);
    assert!(session.phase == Phase::AwaitingChoice);
    assert_eq!(session.correct, 0);
    assert_eq!(session.answered.len(), 0);
    assert_eq!(session.selected_answer, None);
    assert!(!session.answered_all());
    assert_eq!(bank.len(), 2);
    assert_eq!(bank.question(0).text, "first");
    assert_eq!(bank.question(1).text, "second");

    // The same questions are available again.
    answer_current_correctly(&mut session, &bank);
    session.advance(&bank);
    answer_current_correctly(&mut session, &bank);
    session.advance(&bank);
    assert!(session.answered_all());
    assert_eq!(session.correct, 2);
}
