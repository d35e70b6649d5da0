use zeroclaw::buddy::blocker::{Blocker, BlockerSeverity};
use zeroclaw::buddy::conversation::{ConversationIntent, ConversationProcessor};
use zeroclaw::buddy::emotional_state::EmotionalState;
use zeroclaw::buddy::logger::{ConversationOutcome, ConversationTurn};
use zeroclaw::buddy::patterns::PatternExtractor;
use zeroclaw::buddy::situation::Situation;

#[test]
fn test_new_blocker_has_low_severity() {
    let b = Blocker::new("Decyzja o architekturze");
    assert_eq!(b.severity, BlockerSeverity::Low);
    assert!(b.what.contains("architekturze"));
}

#[test]
fn test_escalation_custom_hours() {
    let b = Blocker::with_escalation("Test", 2);
    assert_eq!(b.escalation_hours, 2);
}

#[test]
fn test_response_contains_emoji() {
    let b = Blocker::new("Test blocker");
    let r = b.response();
    assert!(r.contains("⏳"));
    assert!(r.contains("Test blocker"));
}

#[test]
fn test_severity_ordering() {
    assert!(BlockerSeverity::Low < BlockerSeverity::Medium);
    assert!(BlockerSeverity::Medium < BlockerSeverity::High);
    assert!(BlockerSeverity::High < BlockerSeverity::Critical);
}

#[test]
fn test_severity_describe() {
    assert!(!BlockerSeverity::High.describe().is_empty());
    assert!(!BlockerSeverity::Critical.describe().is_empty());
}

#[test]
fn blocker_escalates_one_step_per_period() {
    let mut b = Blocker::with_escalation("Czekam", 2);
    let start = b.since_ms;
    b.update_severity_at(start + 2 * 3_600_000 - 1);
    assert_eq!(b.severity, BlockerSeverity::Low);
    b.update_severity_at(start + 2 * 3_600_000);
    assert_eq!(b.severity, BlockerSeverity::Medium);
    b.update_severity_at(start + 4 * 3_600_000);
    assert_eq!(b.severity, BlockerSeverity::High);
    b.update_severity_at(start + 100 * 3_600_000);
    assert_eq!(b.severity, BlockerSeverity::Critical);
    assert_eq!(BlockerSeverity::Critical.rank(), 3);
}

#[test]
fn blocker_response_exact_text() {
    let b = Blocker::new("API");
    assert_eq!(b.response(), "⏳ Czekam, nie ma pośpiechu — blokada: \"API\"");
}

#[test]
fn test_detect_greeting() {
    assert_eq!(ConversationProcessor::detect_intent("hej"), ConversationIntent::Greeting);
    assert_eq!(ConversationProcessor::detect_intent("Cześć Buddy!"), ConversationIntent::Greeting);
    assert_eq!(ConversationProcessor::detect_intent("Siema"), ConversationIntent::Greeting);
}

#[test]
fn test_detect_status_query() {
    assert_eq!(ConversationProcessor::detect_intent("jak leci?"), ConversationIntent::StatusQuery);
    assert_eq!(ConversationProcessor::detect_intent("co robisz?"), ConversationIntent::StatusQuery);
    assert_eq!(ConversationProcessor::detect_intent("co słychać?"), ConversationIntent::StatusQuery);
}

#[test]
fn test_detect_task_completed() {
    assert_eq!(ConversationProcessor::detect_intent("zrobione!"), ConversationIntent::TaskCompleted);
    assert_eq!(ConversationProcessor::detect_intent("gotowe"), ConversationIntent::TaskCompleted);
    assert_eq!(ConversationProcessor::detect_intent("ukończone"), ConversationIntent::TaskCompleted);
}

#[test]
fn test_detect_hard_task() {
    assert_eq!(
        ConversationProcessor::detect_intent("dałem radę z trudnym zadaniem!"),
        ConversationIntent::HardTaskCompleted
    );
    assert_eq!(
        ConversationProcessor::detect_intent("to było trudne ale udało się"),
        ConversationIntent::HardTaskCompleted
    );
}

#[test]
fn test_detect_goodbye() {
    assert_eq!(ConversationProcessor::detect_intent("nara"), ConversationIntent::Goodbye);
    assert_eq!(ConversationProcessor::detect_intent("do zobaczenia"), ConversationIntent::Goodbye);
}

#[test]
fn test_detect_blocker_resolution() {
    assert_eq!(
        ConversationProcessor::detect_intent("już zrobiłem decyzję o API"),
        ConversationIntent::BlockerResolved("decyzję o API".to_string())
    );
    assert_eq!(
        ConversationProcessor::detect_intent("zdecydowałem że używamy Rust"),
        ConversationIntent::BlockerResolved("używamy Rust".to_string())
    );
}

#[test]
fn test_detect_general() {
    match ConversationProcessor::detect_intent("cośtam losowego") {
        ConversationIntent::General(_) => {}
        other => panic!("Expected General, got {:?}", other),
    }
}

#[test]
fn greeting_phrase_is_one_of_the_greetings() {
    let p = ConversationProcessor::greeting_phrase();
    assert!(!p.is_empty());
    assert!(ConversationProcessor::hash_mod(7) < 7);
}

#[test]
fn test_default_is_neutral() {
    assert_eq!(EmotionalState::default(), EmotionalState::Neutral);
}

#[test]
fn test_task_completed_transitions() {
    let state = EmotionalState::Neutral;
    let new = state.update(Situation::TaskCompleted);
    assert_eq!(new, EmotionalState::Satisfied);
}

#[test]
fn test_hard_task_goes_proud() {
    let state = EmotionalState::Neutral;
    let new = state.update(Situation::HardTaskCompleted);
    assert_eq!(new, EmotionalState::Proud);
}

#[test]
fn test_procrastination_leads_to_concerned() {
    let state = EmotionalState::Neutral;
    let new = state.update(Situation::UserProcrastinating(2));
    assert_eq!(new, EmotionalState::Concerned);
}

#[test]
fn test_user_returned_from_concerned() {
    let state = EmotionalState::Concerned;
    let new = state.update(Situation::UserReturned);
    assert_eq!(new, EmotionalState::Neutral);
}

#[test]
fn test_commitment_broken_goes_frustrated() {
    let state = EmotionalState::Satisfied;
    let new = state.update(Situation::CommitmentBroken(1));
    assert_eq!(new, EmotionalState::Frustrated);
}

#[test]
fn test_progress_from_satisfied_goes_excited() {
    let state = EmotionalState::Satisfied;
    let new = state.update(Situation::ProgressMade);
    assert_eq!(new, EmotionalState::Excited);
}

#[test]
fn test_needs_attention() {
    assert!(!EmotionalState::Neutral.needs_attention());
    assert!(!EmotionalState::Satisfied.needs_attention());
    assert!(EmotionalState::Frustrated.needs_attention());
    assert!(EmotionalState::Concerned.needs_attention());
}

#[test]
fn test_display() {
    let s = EmotionalState::Proud.to_string();
    assert!(s.contains("💪"));
}

#[test]
fn decisive_situations_decide_from_every_state() {
    let all = [
        EmotionalState::Neutral,
        EmotionalState::Satisfied,
        EmotionalState::Proud,
        EmotionalState::Excited,
        EmotionalState::Concerned,
        EmotionalState::Frustrated,
    ];
    for s in all {
        assert_eq!(s.update(Situation::TaskCompleted), EmotionalState::Satisfied);
        assert_eq!(s.update(Situation::HardTaskCompleted), EmotionalState::Proud);
        assert_eq!(s.update(Situation::CommitmentBroken(3)), EmotionalState::Frustrated);
        assert_eq!(s.update(Situation::NewDay), s);
        assert_eq!(s.update(Situation::UserEngaged), s);
    }
}

#[test]
fn test_negative_situations() {
    assert!(Situation::UserProcrastinating(3).is_negative());
    assert!(Situation::CommitmentBroken(1).is_negative());
    assert!(!Situation::TaskCompleted.is_negative());
}

#[test]
fn test_positive_situations() {
    assert!(Situation::TaskCompleted.is_positive());
    assert!(Situation::HardTaskCompleted.is_positive());
    assert!(Situation::UserReturned.is_positive());
    assert!(!Situation::UserProcrastinating(1).is_positive());
}

#[test]
fn test_describe() {
    let s = Situation::UserProcrastinating(3);
    assert!(s.describe().contains("3"));
}

#[test]
fn test_classify_morning_planning() {
    assert_eq!(PatternExtractor::classify_input("Hej, co dziś robimy?"), "morning_planning");
    assert_eq!(PatternExtractor::classify_input("Mam plan na dziś"), "morning_planning");
    assert_eq!(PatternExtractor::classify_input("Cześć Buddy!"), "morning_planning");
}

#[test]
fn test_classify_task_completion() {
    assert_eq!(PatternExtractor::classify_input("Zrobiłem to zadanie"), "task_completion");
    assert_eq!(PatternExtractor::classify_input("Done!"), "task_completion");
    assert_eq!(PatternExtractor::classify_input("Wszystko gotowe"), "task_completion");
    assert_eq!(PatternExtractor::classify_input("Skończone, zrobione"), "task_completion");
}

#[test]
fn test_classify_general() {
    assert_eq!(PatternExtractor::classify_input("Co myślisz o tym?"), "general");
    assert_eq!(PatternExtractor::classify_input("Lorem ipsum"), "general");
    assert_eq!(PatternExtractor::classify_input(""), "general");
}

use zeroclaw::buddy::personality::{Personality, PersonalityError};
use zeroclaw::buddy::state::BuddyState;
use zeroclaw::buddy::logger::{ConversationLogger, EvolutionManager};

#[test]
fn test_ziomek_defaults() {
    let p = Personality::ziomek();
    assert_eq!(p.name, "Buddy");
    assert_eq!(p.language, "pl");
    assert!(p.invested);
    assert_eq!(p.sarcasm_level, 30);
}

#[test]
fn test_professional_defaults() {
    let p = Personality::professional();
    assert!(p.sarcasm_level < 20);
}

#[test]
fn test_builder() {
    let p = Personality::builder().name("Kumpel").sarcasm_level(80).language("pl").build();
    assert_eq!(p.name, "Kumpel");
    assert_eq!(p.sarcasm_level, 80);
}

#[test]
fn test_validate_rejects_invalid_sarcasm() {
    let p = Personality { name: "Test".into(), sarcasm_level: 150, invested: true, language: "pl".into() };
    assert!(p.validate().is_err());
    assert_eq!(p.validate(), Err(PersonalityError::SarcasmOutOfRange(150)));
}

#[test]
fn test_validate_rejects_empty_name() {
    let p = Personality { name: String::new(), sarcasm_level: 50, invested: true, language: "pl".into() };
    assert!(p.validate().is_err());
    assert_eq!(p.validate(), Err(PersonalityError::EmptyName));
}

#[test]
fn test_greet_contains_name() {
    let p = Personality::ziomek();
    let greeting = p.greet();
    assert!(greeting.contains("Buddy"));
}

#[test]
fn test_greet_varies_by_sarcasm() {
    let low = Personality::builder().sarcasm_level(10).build();
    let high = Personality::builder().sarcasm_level(90).build();
    assert_ne!(low.greet(), high.greet());
}

#[test]
fn test_farewell_contains_name() {
    let p = Personality::ziomek();
    let farewell = p.farewell();
    assert!(farewell.contains("Buddy"));
}

#[test]
fn test_farewell_varies_by_sarcasm() {
    let low = Personality::builder().sarcasm_level(10).build();
    let high = Personality::builder().sarcasm_level(90).build();
    assert_ne!(low.farewell(), high.farewell());
}

#[test]
fn greeting_thresholds_exact() {
    let mk = |s: u8| Personality::builder().name("Ala").sarcasm_level(s).build();
    assert_eq!(mk(70).greet(), "🌅 No elo, Ala! Co tam, leniu? 😏");
    assert_eq!(mk(69).greet(), "☀️ Dzień dobry, Ala! Gotowy na robotę?");
    assert_eq!(mk(40).farewell(), "✌️ Pa, Ala! Trzymaj się i nie odpuszczaj.");
    assert_eq!(mk(39).farewell(), "🤗 Do zobaczenia, Ala! Byłoby mi miło znowu pogadać.");
}

#[test]
fn test_new_buddy_is_neutral() {
    let buddy = BuddyState::new();
    assert_eq!(buddy.emotion, EmotionalState::Neutral);
    assert!(buddy.blockers.is_empty());
}

#[test]
fn test_add_and_remove_blocker() {
    let mut buddy = BuddyState::new();
    buddy.add_blocker("Decyzja A");
    assert_eq!(buddy.blockers.len(), 1);
    let removed = buddy.remove_blocker("Decyzja A");
    assert!(removed);
    assert!(buddy.blockers.is_empty());
}

#[test]
fn test_remove_nonexistent_blocker() {
    let mut buddy = BuddyState::new();
    let removed = buddy.remove_blocker("Nie ma takiego");
    assert!(!removed);
}

#[test]
fn test_process_task_completed() {
    let mut buddy = BuddyState::new();
    buddy.process_situation(Situation::TaskCompleted);
    assert_eq!(buddy.emotion, EmotionalState::Satisfied);
    assert_eq!(buddy.tasks_completed, 1);
}

#[test]
fn test_process_hard_task() {
    let mut buddy = BuddyState::new();
    buddy.process_situation(Situation::HardTaskCompleted);
    assert_eq!(buddy.emotion, EmotionalState::Proud);
    assert_eq!(buddy.tasks_completed, 1);
}

#[test]
fn test_process_commitment_broken() {
    let mut buddy = BuddyState::new();
    buddy.process_situation(Situation::CommitmentBroken(1));
    assert_eq!(buddy.emotion, EmotionalState::Frustrated);
    assert_eq!(buddy.commitments_broken, 1);
}

#[test]
fn test_multiple_situations() {
    let mut buddy = BuddyState::new();
    buddy.process_situation(Situation::TaskCompleted);
    buddy.process_situation(Situation::ProgressMade);
    assert_eq!(buddy.emotion, EmotionalState::Excited);
    assert_eq!(buddy.tasks_completed, 1);
}

#[test]
fn test_generate_response_contains_emoji() {
    let mut buddy = BuddyState::new();
    buddy.process_situation(Situation::TaskCompleted);
    let response = buddy.generate_response();
    assert!(response.contains("🙂"));
}

#[test]
fn test_response_with_blockers() {
    let mut buddy = BuddyState::new();
    buddy.add_blocker("Test blocker");
    let response = buddy.generate_response();
    assert!(response.contains("Test blocker"));
    assert!(response.contains("Aktywne blokady"));
}

#[test]
fn generate_response_exact() {
    let mut buddy = BuddyState::new();
    buddy.add_blocker("X");
    buddy.process_situation(Situation::TaskCompleted);
    assert_eq!(
        buddy.generate_response(),
        "🙂 No nieźle! Idzie nam całkiem dobrze.\n\nAktywne blokady (1):\n  ⏳ Czekam, nie ma pośpiechu — blokada: \"X\"\n\n📊 Postęp: 1 zadań ukończonych"
    );
}

#[test]
fn test_needs_attention_with_frustrated() {
    let mut buddy = BuddyState::new();
    buddy.process_situation(Situation::CommitmentBroken(1));
    assert!(buddy.needs_attention());
}

#[test]
fn urgent_blocker_needs_attention() {
    let mut buddy = BuddyState::new();
    buddy.add_blocker("a");
    assert!(!buddy.needs_attention());
    assert_eq!(buddy.max_blocker_severity(), Some(BlockerSeverity::Low));
    buddy.blockers[0].severity = BlockerSeverity::High;
    assert!(buddy.needs_attention());
    assert_eq!(buddy.max_blocker_severity(), Some(BlockerSeverity::High));
    assert_eq!(BuddyState::new().max_blocker_severity(), None);
}

#[test]
fn test_session_stats() {
    let mut buddy = BuddyState::new();
    buddy.process_situation(Situation::TaskCompleted);
    buddy.process_situation(Situation::TaskCompleted);
    buddy.process_situation(Situation::CommitmentBroken(1));
    buddy.add_blocker("Test");
    let stats = buddy.session_stats();
    assert_eq!(stats.tasks_completed, 2);
    assert_eq!(stats.commitments_broken, 1);
    assert_eq!(stats.active_blockers, 1);
}

#[test]
fn test_custom_personality() {
    let p = Personality::builder().name("Kumpel").sarcasm_level(70).build();
    let buddy = BuddyState::with_personality(p);
    assert_eq!(buddy.personality.name, "Kumpel");
}

#[test]
fn update_blockers_keeps_fresh_blockers_low() {
    let mut buddy = BuddyState::new();
    buddy.add_blocker("a");
    buddy.add_blocker("b");
    buddy.update_blockers();
    assert_eq!(buddy.blockers.len(), 2);
    assert_eq!(buddy.blockers[1].what, "b");
    assert_eq!(buddy.blockers[0].severity, BlockerSeverity::Low);
}

#[test]
fn test_process_greeting_returns_response() {
    let mut state = BuddyState::new();
    let response = ConversationProcessor::process(&mut state, "hej!");
    assert!(!response.is_empty());
}

#[test]
fn test_process_task_completed_increments_counter() {
    let mut state = BuddyState::new();
    ConversationProcessor::process(&mut state, "zrobione!");
    assert_eq!(state.tasks_completed, 1);
}

#[test]
fn test_process_hard_task_sets_proud() {
    let mut state = BuddyState::new();
    ConversationProcessor::process(&mut state, "dałem radę z trudnym zadaniem!");
    assert_eq!(state.tasks_completed, 1);
    assert_eq!(state.emotion, EmotionalState::Proud);
}

#[test]
fn test_process_with_blockers_mentions_them() {
    let mut state = BuddyState::new();
    state.add_blocker("Decyzja o bazie danych");
    let response = ConversationProcessor::process(&mut state, "co robisz?");
    assert!(response.contains("Decyzja o bazie danych"));
}

#[test]
fn test_process_blocker_resolved_removes_blocker() {
    let mut state = BuddyState::new();
    state.add_blocker("decyzję o API");
    let response = ConversationProcessor::process(&mut state, "już zrobiłem decyzję o API");
    assert!(state.blockers.is_empty());
    assert!(response.contains("W końcu"));
}

#[test]
fn test_process_goodbye_with_blockers() {
    let mut state = BuddyState::new();
    state.add_blocker("Coś ważnego");
    let response = ConversationProcessor::process(&mut state, "pa");
    assert!(response.contains("nie skończyliśmy"));
}

#[test]
fn process_status_and_unknown_resolution_exact() {
    let mut state = BuddyState::new();
    assert_eq!(
        ConversationProcessor::process(&mut state, "jak leci?"),
        "😐 W porządku, działamy dalej.\nNa razie cisza. Co robimy?"
    );
    state.add_blocker("A");
    state.add_blocker("B");
    assert_eq!(
        ConversationProcessor::process(&mut state, "wybrałem C"),
        "😐 Ok, zanotowane. A propos blokad — 2 aktywnych blokad. Najpilniejsza: \"A\""
    );
    assert_eq!(state.blockers.len(), 2);
}

#[test]
fn evolution_manager_keeps_its_logger() {
    let path = std::path::PathBuf::from("/tmp/conversations.jsonl");
    let m = EvolutionManager::with_logger(ConversationLogger::with_path(path.clone()));
    assert_eq!(m.logger().log_path(), &path);
}

fn make_turn(input: &str, response: &str, outcome: ConversationOutcome) -> ConversationTurn {
    ConversationTurn {
        timestamp: 0,
        user_input: input.to_string(),
        buddy_response: response.to_string(),
        emotion: EmotionalState::Neutral,
        situation: Situation::NewDay,
        outcome,
    }
}

#[test]
fn test_analyze_empty() {
    let turns: Vec<ConversationTurn> = vec![];
    let patterns = PatternExtractor::analyze(&turns);
    assert!(patterns.is_empty());
}

#[test]
fn test_analyze_with_data() {
    let turns = vec![
        make_turn("Hej, co dziś?", "Plan na dziś...", ConversationOutcome::Completed),
        make_turn("Zrobiłem task", "Super!", ConversationOutcome::Completed),
        make_turn("Zrobiłem kolejny", "Świetnie!", ConversationOutcome::Continued),
        make_turn("Nie wiem co dalej", "Podpowiem...", ConversationOutcome::Abandoned),
    ];

    let patterns = PatternExtractor::analyze(&turns);

    // Should have 3 categories
    assert_eq!(patterns.len(), 3);

    let task = patterns.iter().find(|p| p.trigger == "task_completion").unwrap();
    assert_eq!(task.count, 2);
    assert_eq!(task.successes as f32 / task.count as f32, 1.0);

    let morning = patterns.iter().find(|p| p.trigger == "morning_planning").unwrap();
    assert_eq!(morning.count, 1);
    assert_eq!(morning.successes as f32 / morning.count as f32, 1.0);

    let help = patterns.iter().find(|p| p.trigger == "help_request").unwrap();
    assert_eq!(help.count, 1);
    assert_eq!(help.successes as f32 / help.count as f32, 0.0);
}

#[test]
fn analyze_orders_by_count_and_keeps_last_response() {
    let turns = vec![
        make_turn("status?", "ok1", ConversationOutcome::Pivoted),
        make_turn("Lorem", "g1", ConversationOutcome::Completed),
        make_turn("jak leci", "ok2", ConversationOutcome::Continued),
        make_turn("status", "ok3", ConversationOutcome::Abandoned),
        make_turn("plan", "p1", ConversationOutcome::Completed),
    ];
    let patterns = PatternExtractor::analyze(&turns);
    assert_eq!(patterns.len(), 3);
    assert_eq!(patterns[0].trigger, "status_query");
    assert_eq!(patterns[0].count, 3);
    assert_eq!(patterns[0].successes, 1);
    assert_eq!(patterns[0].response, "ok3");
    assert_eq!(patterns[1].trigger, "morning_planning");
    assert_eq!(patterns[2].trigger, "general");
    assert_eq!(patterns[2].response, "g1");
}

#[test]
fn hash_index_is_remainder() {
    assert_eq!(ConversationProcessor::hash_index(17, 5), 2);
    assert_eq!(ConversationProcessor::hash_index(u64::MAX, 10), 5);
    assert!(ConversationProcessor::hash_mod(4) < 4);
}

#[test]
fn blocker_new_at_records_start() {
    let b = Blocker::new_at("waiting on design", 1_000);
    assert_eq!(b.since_ms, 1_000);
    assert_eq!(b.what, "waiting on design");
    assert_eq!(b.severity, BlockerSeverity::Low);
    assert_eq!(b.escalation_hours, 4);
}
