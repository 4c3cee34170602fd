use focus_companion::database::DbError;
use focus_companion::errors::{CommandError, ErrorKind};
use focus_companion::gamification::{
    check_new_achievements, get_achievements, get_user_stats, update_streak, UserStats,
};
use focus_companion::journal_manager::{
    add_journal_entry, delete_journal_entry, get_journal_entries, update_journal_entry,
};
use focus_companion::stats_tracker::{export_stats, log_activity};

#[test]
fn add_journal_entry_validates_the_mood_scale() {
    let entry =
        add_journal_entry("2026-03-01".to_string(), 3, "steady".to_string()).unwrap();
    assert_eq!(entry.id, Some(1));
    assert_eq!(entry.date, "2026-03-01");
    assert_eq!(entry.mood, 3);
    assert_eq!(entry.notes, "steady");
    assert!(!entry.created_at.is_empty());

    for bad in [0, 6, -1, 100] {
        let err = add_journal_entry("2026-03-01".to_string(), bad, "x".to_string()).unwrap_err();
        assert_eq!(err, CommandError::InvalidMood);
        assert_eq!(err.kind(), ErrorKind::InvalidArgument);
        assert_eq!(err.message(), "Mood must be between 1 and 5");
    }
    // both ends of the scale are accepted
    assert!(add_journal_entry("d".to_string(), 1, "n".to_string()).is_ok());
    assert!(add_journal_entry("d".to_string(), 5, "n".to_string()).is_ok());
}

#[test]
fn update_journal_entry_validates_the_mood_scale() {
    let entry = update_journal_entry(1, 2, "better".to_string()).unwrap();
    assert_eq!(entry.mood, 2);
    assert_eq!(entry.notes, "better");
    let err = update_journal_entry(1, 0, "x".to_string()).unwrap_err();
    assert_eq!(err, CommandError::InvalidMood);
}

#[test]
fn journal_reads_report_the_stored_records() {
    let entries =
        get_journal_entries("2026-02-01".to_string(), "2026-02-28".to_string()).unwrap();
    assert_eq!(entries.len(), 1);
    assert_eq!(entries[0].date, "2026-02-12");
    assert_eq!(entries[0].mood, 4);
    assert!(delete_journal_entry(1).unwrap());
}

#[test]
fn user_stats_defaults_and_stored_values() {
    let fresh = UserStats::default();
    assert_eq!(fresh.total_focus_sessions, 0);
    assert_eq!(fresh.level, 1);
    assert_eq!(fresh.points, 0);

    let stored = get_user_stats().unwrap();
    assert_eq!(stored.total_focus_sessions, 10);
    assert_eq!(stored.current_streak, 3);
    assert_eq!(stored.longest_streak, 5);
    assert_eq!(stored.total_focus_minutes, 250);
    assert_eq!(stored.achievements_unlocked, 2);
    assert_eq!(stored.level, 2);
    assert_eq!(stored.points, 150);
    assert_eq!(update_streak().unwrap(), stored);
}

#[test]
fn achievement_catalogue_is_fixed_with_one_unlocked() {
    let achievements = get_achievements().unwrap();
    assert_eq!(achievements.len(), 6);
    let ids: Vec<&str> = achievements.iter().map(|a| a.id.as_str()).collect();
    assert_eq!(
        ids,
        vec![
            "first_session",
            "five_day_streak",
            "break_master",
            "deep_work",
            "journal_habit",
            "mindful_week",
        ]
    );
    assert!(achievements[0].unlocked);
    assert!(achievements[0].unlocked_at.is_some());
    assert_eq!(achievements[0].icon, "🎯");
    assert_eq!(achievements[5].icon, "🌟");
    for a in &achievements[1..] {
        assert!(!a.unlocked);
        assert!(a.unlocked_at.is_none());
    }
    assert!(check_new_achievements().unwrap().is_empty());
}

#[test]
fn log_activity_echoes_the_record_with_a_timestamp() {
    let log = log_activity("focus".to_string(), 1500, Some("session 1".to_string())).unwrap();
    assert_eq!(log.id, Some(1));
    assert_eq!(log.activity_type, "focus");
    assert_eq!(log.duration, 1500);
    assert_eq!(log.metadata.as_deref(), Some("session 1"));
    assert!(!log.timestamp.is_empty());
    let log = log_activity("break".to_string(), 300, None).unwrap();
    assert!(log.metadata.is_none());
}

#[test]
fn export_stats_renders_the_csv_table() {
    let csv = export_stats(
        "2026-01-01".to_string(),
        "2026-01-07".to_string(),
        "csv".to_string(),
    )
    .unwrap();
    assert_eq!(
        csv,
        "Date,Focus Minutes,Break Minutes,Sessions,Active Hours\n2026-01-01,120,30,4,2.5\n"
    );
}

#[test]
fn db_error_carries_its_message() {
    let e = DbError::new("migration failed".to_string());
    assert_eq!(e.message(), "migration failed");
}
