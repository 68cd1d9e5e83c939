use lora_launcher::backup::{
    backup_file_name, backup_interval, export_file_name, get_backup_status, is_backup_name, newest_first,
    seconds_until, BackupError, BackupFile, BackupManager, BackupStatus, BackupStep, Date,
    KEPT_BACKUPS,
};
use lora_launcher::settings::get_default_settings;

fn date(year: i32, month: u32, day: u32) -> Date {
    Date { year, month, day }
}

#[test]
fn a_new_backup_task_is_not_running() {
    assert_eq!(BackupManager::new(), BackupManager { is_running: false });
}

#[test]
fn backup_names() {
    assert!(is_backup_name("lora_auto_backup_20250131_120000.json"));
    assert!(is_backup_name("lora_auto_backup_.json"));
    assert!(!is_backup_name("lora_backup_20250131.json"));
    assert!(!is_backup_name("lora_auto_backup_20250131_120000.json.bak"));
    assert!(!is_backup_name("x_lora_auto_backup_1.json"));
    assert!(!is_backup_name(".json"));
    assert!(!is_backup_name(""));
    assert_eq!(backup_file_name("20250131_120000"), "lora_auto_backup_20250131_120000.json");
    assert!(is_backup_name(&backup_file_name("anything")));
}

#[test]
fn backups_are_listed_newest_first() {
    assert_eq!(newest_first(&vec![10, 30, 20]), vec![1, 2, 0]);
    assert_eq!(newest_first(&Vec::new()), Vec::<usize>::new());
    assert_eq!(newest_first(&vec![5]), vec![0]);
}

#[test]
fn equally_new_backups_keep_their_order() {
    assert_eq!(newest_first(&vec![7, 9, 7, 9, 7]), vec![1, 3, 0, 2, 4]);
}

#[test]
fn ten_backups_are_kept() {
    assert_eq!(KEPT_BACKUPS, 10);
    let few: Vec<u128> = (0..10).collect();
    assert_eq!(BackupManager::cleanup_old_backups(&few), Vec::<usize>::new());
    let many: Vec<u128> = vec![50, 10, 60, 20, 70, 30, 80, 40, 90, 100, 110, 120, 5];
    assert_eq!(BackupManager::cleanup_old_backups(&many), vec![3, 1, 12]);
    assert_eq!(BackupManager::cleanup_old_backups(&Vec::new()), Vec::<usize>::new());
}

#[test]
fn daily_backups() {
    assert_eq!(
        BackupManager::calculate_next_backup_time("daily", date(2025, 1, 31), 4),
        Ok(date(2025, 2, 1))
    );
    assert_eq!(
        BackupManager::calculate_next_backup_time("daily", date(2024, 12, 31), 1),
        Ok(date(2025, 1, 1))
    );
    assert_eq!(
        BackupManager::calculate_next_backup_time("daily", date(2024, 2, 28), 2),
        Ok(date(2024, 2, 29))
    );
}

#[test]
fn weekly_backups() {
    assert_eq!(
        BackupManager::calculate_next_backup_time("weekly", date(2025, 1, 6), 0),
        Ok(date(2025, 1, 13))
    );
    assert_eq!(
        BackupManager::calculate_next_backup_time("weekly", date(2025, 1, 8), 2),
        Ok(date(2025, 1, 13))
    );
    assert_eq!(
        BackupManager::calculate_next_backup_time("weekly", date(2025, 1, 12), 6),
        Ok(date(2025, 1, 13))
    );
}

#[test]
fn monthly_backups() {
    assert_eq!(
        BackupManager::calculate_next_backup_time("monthly", date(2025, 3, 15), 5),
        Ok(date(2025, 4, 15))
    );
    assert_eq!(
        BackupManager::calculate_next_backup_time("monthly", date(2025, 1, 31), 4),
        Ok(date(2025, 2, 28))
    );
    assert_eq!(
        BackupManager::calculate_next_backup_time("monthly", date(2024, 1, 30), 1),
        Ok(date(2024, 2, 29))
    );
    assert_eq!(
        BackupManager::calculate_next_backup_time("monthly", date(2024, 12, 31), 1),
        Ok(date(2025, 1, 31))
    );
    assert_eq!(
        BackupManager::calculate_next_backup_time("monthly", date(2025, 10, 31), 4),
        Ok(date(2025, 11, 30))
    );
}

#[test]
fn days_that_the_calendar_does_not_have() {
    assert_eq!(
        BackupManager::calculate_next_backup_time("daily", date(2025, 2, 30), 0),
        Err(BackupError::NoNextDay)
    );
    assert_eq!(
        BackupManager::calculate_next_backup_time("weekly", date(2025, 13, 1), 0),
        Err(BackupError::NoNextWeek)
    );
    assert_eq!(
        BackupManager::calculate_next_backup_time("monthly", date(2025, 13, 1), 0),
        Err(BackupError::NoNextMonth)
    );
    assert_eq!(
        BackupManager::calculate_next_backup_time("monthly", date(i32::MAX, 12, 1), 0),
        Err(BackupError::NoNextMonth)
    );
}

#[test]
fn unknown_intervals() {
    assert_eq!(
        BackupManager::calculate_next_backup_time("hourly", date(2025, 1, 1), 2),
        Err(BackupError::UnsupportedInterval)
    );
    assert_eq!(
        BackupManager::calculate_next_backup_time("Daily", date(2025, 1, 1), 2),
        Err(BackupError::UnsupportedInterval)
    );
    assert_eq!(BackupError::UnsupportedInterval.message(), "不支持的备份间隔");
    assert_eq!(BackupError::NoNextDay.message(), "计算明天日期失败");
    assert_eq!(BackupError::NoNextWeek.message(), "构建下周时间失败");
    assert_eq!(BackupError::NoNextMonth.message(), "计算下个月最后一天失败");
}

#[test]
fn waiting_for_the_next_backup() {
    assert_eq!(seconds_until(1000, 400), 600);
    assert_eq!(seconds_until(400, 400), 0);
    assert_eq!(seconds_until(400, 1000), 0);
    assert_eq!(seconds_until(i64::MAX, i64::MIN), u64::MAX);
}

#[test]
fn steps_of_the_backup_task() {
    let mut s = get_default_settings();
    assert_eq!(BackupManager::start_backup_task(&s), BackupStep::Schedule);
    assert_eq!(backup_interval(&s), "weekly");
    s.auto_backup = Some(false);
    assert_eq!(BackupManager::start_backup_task(&s), BackupStep::Idle(3600));
    s.auto_backup = None;
    s.backup_interval = None;
    assert_eq!(BackupManager::start_backup_task(&s), BackupStep::Idle(3600));
    assert_eq!(backup_interval(&s), "weekly");
    s.backup_interval = Some("daily".to_string());
    assert_eq!(backup_interval(&s), "daily");
}

fn backup(name: &str, modified: u64) -> BackupFile {
    BackupFile {
        name: name.to_string(),
        path: format!("/data/backups/{}", name),
        size: modified * 2,
        modified,
    }
}

#[test]
fn status_lists_the_backups_newest_first() {
    let files = vec![backup("a", 10), backup("b", 30), backup("c", 20), backup("d", 30)];
    assert_eq!(
        get_backup_status("/data/backups".to_string(), &files),
        BackupStatus {
            backup_dir: "/data/backups".to_string(),
            backup_files: vec![backup("b", 30), backup("d", 30), backup("c", 20), backup("a", 10)],
            total_count: 4,
        }
    );
    assert_eq!(
        get_backup_status("x".to_string(), &Vec::new()),
        BackupStatus { backup_dir: "x".to_string(), backup_files: vec![], total_count: 0 }
    );
}

#[test]
fn export_names() {
    assert_eq!(export_file_name(1730000000), "lora_backup_1730000000.json");
    assert_eq!(export_file_name(0), "lora_backup_0.json");
}

#[test]
fn monthly_backups_follow_the_leap_years() {
    let monthly = |y, m, d| BackupManager::calculate_next_backup_time("monthly", date(y, m, d), 0);
    assert_eq!(monthly(2000, 1, 29), Ok(date(2000, 2, 29)));
    assert_eq!(monthly(1900, 1, 29), Ok(date(1900, 2, 28)));
    assert_eq!(monthly(2023, 1, 29), Ok(date(2023, 2, 28)));
    assert_eq!(monthly(-4, 1, 30), Ok(date(-4, 2, 29)));
    assert_eq!(monthly(-1, 1, 30), Ok(date(-1, 2, 28)));
    assert_eq!(monthly(2025, 3, 31), Ok(date(2025, 4, 30)));
    assert_eq!(monthly(2025, 5, 31), Ok(date(2025, 6, 30)));
    assert_eq!(monthly(2025, 8, 31), Ok(date(2025, 9, 30)));
    assert_eq!(monthly(2025, 7, 31), Ok(date(2025, 8, 31)));
}

#[test]
fn monthly_backups_at_the_ends_of_the_calendar() {
    let monthly = |y, m, d| BackupManager::calculate_next_backup_time("monthly", date(y, m, d), 0);
    assert_eq!(monthly(262142, 11, 30), Ok(date(262142, 12, 30)));
    assert_eq!(monthly(262142, 12, 5), Err(BackupError::NoNextMonth));
    assert_eq!(monthly(-262144, 12, 5), Ok(date(-262143, 1, 5)));
    assert_eq!(monthly(-262144, 11, 5), Err(BackupError::NoNextMonth));
    assert_eq!(monthly(2025, 3, 0), Ok(date(2025, 4, 30)));
    assert_eq!(monthly(2025, 0, 15), Ok(date(2025, 1, 15)));
    assert_eq!(monthly(2025, 3, 32), Ok(date(2025, 4, 30)));
}
