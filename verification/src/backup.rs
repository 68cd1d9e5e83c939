//! Backups: their names, which of them are kept, and the day of the next
//! one. Calendar arithmetic is done by the `chrono` crate.

use chrono::Datelike;
use vstd::prelude::*;
use crate::models::AppSettings;
use crate::text::{
    begins_with, chars_of, decimal_of, is_literal, joined, matches_at, occurs_at, push_decimal,
    starts_with,
};

verus! {

/// The date that `NaiveDate::succ_opt` gives for a date: the next day.
pub uninterp spec fn date_after(year: i32, month: u32, day: u32) -> Option<(i32, u32, u32)>;

/// The date that `NaiveDate::pred_opt` gives for a date: the day before.
pub uninterp spec fn date_before(year: i32, month: u32, day: u32) -> Option<(i32, u32, u32)>;

/// The date that lies the given number of days after a date.
pub uninterp spec fn date_plus(year: i32, month: u32, day: u32, days: i64) -> Option<
    (i32, u32, u32),
>;

/// The first year of the calendar.
pub const MIN_YEAR: i32 = -262143;

/// The last year of the calendar.
pub const MAX_YEAR: i32 = 262142;

/// Whether a year of the Gregorian calendar, carried backwards before its
/// introduction, is a leap year.
pub open spec fn is_leap_year(year: int) -> bool {
    year % 4 == 0 && (year % 100 != 0 || year % 400 == 0)
}

/// The number of days of a month.
pub open spec fn days_in_month(year: int, month: int) -> int {
    if month == 2 {
        if is_leap_year(year) {
            29
        } else {
            28
        }
    } else if month == 4 || month == 6 || month == 9 || month == 11 {
        30
    } else {
        31
    }
}

/// Whether the calendar has the given day: the year lies within the
/// calendar, the month is one of the twelve, and the month has the day.
pub open spec fn is_calendar_date(year: i32, month: u32, day: u32) -> bool {
    &&& MIN_YEAR <= year <= MAX_YEAR
    &&& 1 <= month <= 12
    &&& 1 <= day <= days_in_month(year as int, month as int)
}

/// A day of the calendar.
#[derive(Clone, Copy, Debug, PartialEq, Eq, Structural)]
pub struct Date {
    pub year: i32,
    pub month: u32,
    pub day: u32,
}

/// A backup on disk.
#[derive(Clone, Debug, PartialEq)]
pub struct BackupFile {
    pub name: String,
    pub path: String,
    /// Its size in bytes.
    pub size: u64,
    /// The moment of its last change, in seconds since the epoch.
    pub modified: u64,
}

/// The backups on disk as they are shown.
#[derive(Debug, PartialEq)]
pub struct BackupStatus {
    pub backup_dir: String,
    /// The backups, newest first.
    pub backup_files: Vec<BackupFile>,
    pub total_count: usize,
}

/// The state of the backup task.
#[derive(Debug, PartialEq)]
pub struct BackupManager {
    pub is_running: bool,
}

/// Why the day of the next backup is not known.
#[derive(Clone, Copy, Debug, PartialEq, Eq, Structural)]
pub enum BackupError {
    /// The calendar has no day after today.
    NoNextDay,
    /// The calendar has no such day in the next week.
    NoNextWeek,
    /// The calendar has no such day in the next month.
    NoNextMonth,
    /// The interval is none of `daily`, `weekly` and `monthly`.
    UnsupportedInterval,
}

/// What to do next in the backup task.
#[derive(Clone, Copy, Debug, PartialEq, Eq, Structural)]
pub enum BackupStep {
    /// Backups are off: look again after this many seconds.
    Idle(u64),
    /// Backups are on: wait for the next one, then make it.
    Schedule,
}

/// What begins the name of a backup file.
pub const BACKUP_PREFIX: &'static str = "lora_auto_backup_";

/// What ends the name of a backup file.
pub const BACKUP_SUFFIX: &'static str = ".json";

/// What begins the name of an export.
pub const EXPORT_PREFIX: &'static str = "lora_backup_";

/// How many backups are kept.
pub const KEPT_BACKUPS: usize = 10;

/// How long the task rests while backups are off, in seconds.
pub const IDLE_SECONDS: u64 = 3600;

/// The interval that holds where none is set.
pub const DEFAULT_INTERVAL: &'static str = "weekly";

/// Whether `suffix` stands at the end of `s`.
pub open spec fn ends_with(s: Seq<char>, suffix: Seq<char>) -> bool {
    suffix.len() <= s.len() && occurs_at(s, suffix, s.len() - suffix.len())
}

/// Whether a file name is that of a backup.
pub open spec fn is_backup_name_of(name: Seq<char>) -> bool {
    starts_with(name, BACKUP_PREFIX@) && ends_with(name, BACKUP_SUFFIX@)
}

/// Whether the backup at position `a` is listed before the one at `b`:
/// the newer one first, and of two equally new ones the one that the
/// directory listed first.
pub open spec fn comes_before(modified: Seq<u128>, a: int, b: int) -> bool {
    modified[a] > modified[b] || (modified[a] == modified[b] && a < b)
}

/// Whether `order` lists every position of `modified` once, newest first.
pub open spec fn is_newest_first(modified: Seq<u128>, order: Seq<usize>) -> bool {
    &&& order.len() == modified.len()
    &&& forall|p: int| 0 <= p < order.len() ==> 0 <= #[trigger] order[p] < modified.len()
    &&& forall|p: int, q: int|
        0 <= p < q < order.len() ==> comes_before(
            modified,
            #[trigger] order[p] as int,
            #[trigger] order[q] as int,
        )
}

/// The moments of the last change of the given backups.
pub open spec fn moments_of(files: Seq<BackupFile>) -> Seq<u128> {
    Seq::new(files.len(), |i: int| files[i].modified as u128)
}

/// What of a listing lies beyond the backups that are kept.
pub open spec fn beyond_kept(order: Seq<usize>) -> Seq<usize> {
    if order.len() <= KEPT_BACKUPS {
        Seq::empty()
    } else {
        order.skip(KEPT_BACKUPS as int)
    }
}

/// The reason in words.
pub open spec fn backup_message_of(error: BackupError) -> Seq<char> {
    match error {
        BackupError::NoNextDay => "计算明天日期失败"@,
        BackupError::NoNextWeek => "构建下周时间失败"@,
        BackupError::NoNextMonth => "计算下个月最后一天失败"@,
        BackupError::UnsupportedInterval => "不支持的备份间隔"@,
    }
}

/// The date taken from its parts.
pub open spec fn date_of(parts: Option<(i32, u32, u32)>) -> Option<Date> {
    match parts {
        Some((year, month, day)) => Some(Date { year, month, day }),
        None => None,
    }
}

/// How many days lie between a weekday, counted from Monday as 0, and the
/// day of the weekly backup.
pub open spec fn days_to_next_week(weekday: u32) -> int {
    7 - weekday % 7
}

/// The month after a month, with its year.
pub open spec fn month_after(year: i32, month: u32) -> (int, int) {
    if month == 12 {
        (year + 1, 1)
    } else {
        (year as int, month + 1)
    }
}

/// The day of the monthly backup after `today`: the same day of the next
/// month, or the last day of that month where it is shorter.
pub open spec fn next_month_of(today: Date) -> Option<Date> {
    let (year, month) = month_after(today.year, today.month);
    if !(i32::MIN <= year <= i32::MAX) || month > 12 {
        None
    } else if is_calendar_date(year as i32, month as u32, today.day) {
        Some(Date { year: year as i32, month: month as u32, day: today.day })
    } else if month == 12 || !is_calendar_date(year as i32, (month + 1) as u32, 1) {
        None
    } else {
        date_of(date_before(year as i32, (month + 1) as u32, 1))
    }
}

/// The day of the next backup after `today`, which falls on the given
/// weekday, counted from Monday as 0.
pub open spec fn next_backup_of(interval: Seq<char>, today: Date, weekday: u32) -> Result<
    Date,
    BackupError,
> {
    if interval == "daily"@ {
        match date_of(date_after(today.year, today.month, today.day)) {
            Some(d) => Ok(d),
            None => Err(BackupError::NoNextDay),
        }
    } else if interval == "weekly"@ {
        match date_of(
            date_plus(today.year, today.month, today.day, days_to_next_week(weekday) as i64),
        ) {
            Some(d) => Ok(d),
            None => Err(BackupError::NoNextWeek),
        }
    } else if interval == "monthly"@ {
        match next_month_of(today) {
            Some(d) => Ok(d),
            None => Err(BackupError::NoNextMonth),
        }
    } else {
        Err(BackupError::UnsupportedInterval)
    }
}

/// Whether the calendar has a day.
///
/// Trusted: `chrono::NaiveDate::from_ymd_opt` yields a date exactly for the
/// days of the proleptic Gregorian calendar from the year -262143 to the
/// year 262142, which is what `is_calendar_date` says.
#[verifier::external_body]
fn is_date(year: i32, month: u32, day: u32) -> (r: bool)
    ensures
        r == is_calendar_date(year, month, day),
{
    chrono::NaiveDate::from_ymd_opt(year, month, day).is_some()
}

/// The day after a day.
///
/// Trusted: `chrono::NaiveDate::succ_opt`, called on the date that
/// `from_ymd_opt` makes of the three numbers, depends on them alone; the
/// outcome is named `date_after`.
#[verifier::external_body]
fn day_after(year: i32, month: u32, day: u32) -> (r: Option<(i32, u32, u32)>)
    ensures
        r == date_after(year, month, day),
{
    match chrono::NaiveDate::from_ymd_opt(year, month, day) {
        Some(date) => match date.succ_opt() {
            Some(d) => Some((d.year(), d.month(), d.day())),
            None => None,
        },
        None => None,
    }
}

/// The day before a day.
///
/// Trusted: `chrono::NaiveDate::pred_opt`, called on the date that
/// `from_ymd_opt` makes of the three numbers, depends on them alone; the
/// outcome is named `date_before`.
#[verifier::external_body]
fn day_before(year: i32, month: u32, day: u32) -> (r: Option<(i32, u32, u32)>)
    ensures
        r == date_before(year, month, day),
{
    match chrono::NaiveDate::from_ymd_opt(year, month, day) {
        Some(date) => match date.pred_opt() {
            Some(d) => Some((d.year(), d.month(), d.day())),
            None => None,
        },
        None => None,
    }
}

/// The day that lies some days after a day.
///
/// Trusted: `chrono::NaiveDate::checked_add_signed`, called on the date
/// that `from_ymd_opt` makes of the three numbers with the span that
/// `TimeDelta::try_days` makes of `days`, depends on the four numbers
/// alone; the outcome is named `date_plus`.
#[verifier::external_body]
fn days_later(year: i32, month: u32, day: u32, days: i64) -> (r: Option<(i32, u32, u32)>)
    ensures
        r == date_plus(year, month, day, days),
{
    match (chrono::NaiveDate::from_ymd_opt(year, month, day), chrono::TimeDelta::try_days(days)) {
        (Some(date), Some(span)) => match date.checked_add_signed(span) {
            Some(d) => Some((d.year(), d.month(), d.day())),
            None => None,
        },
        _ => None,
    }
}

impl BackupManager {
    /// A backup task that is not running.
    pub fn new() -> (manager: BackupManager)
        ensures
            !manager.is_running,
    {
        BackupManager { is_running: false }
    }

    /// What the backup task does next: it rests for an hour while backups
    /// are off or not set, and schedules the next backup otherwise.
    pub fn start_backup_task(settings: &AppSettings) -> (step: BackupStep)
        ensures
            step == (if settings.auto_backup == Some(true) {
                BackupStep::Schedule
            } else {
                BackupStep::Idle(IDLE_SECONDS)
            }),
    {
        match settings.auto_backup {
            Some(true) => BackupStep::Schedule,
            _ => BackupStep::Idle(IDLE_SECONDS),
        }
    }

    /// The day of the next backup after `today`, which falls on the given
    /// weekday, counted from Monday as 0. The backup is due at the same time
    /// of day as now.
    pub fn calculate_next_backup_time(interval: &str, today: Date, weekday: u32) -> (r: Result<
        Date,
        BackupError,
    >)
        ensures
            r == next_backup_of(interval@, today, weekday),
    {
        let name = chars_of(interval);
        if is_literal(&name, "daily") {
            match day_after(today.year, today.month, today.day) {
                Some((year, month, day)) => Ok(Date { year, month, day }),
                None => Err(BackupError::NoNextDay),
            }
        } else if is_literal(&name, "weekly") {
            let days: i64 = (7 - weekday % 7) as i64;
            match days_later(today.year, today.month, today.day, days) {
                Some((year, month, day)) => Ok(Date { year, month, day }),
                None => Err(BackupError::NoNextWeek),
            }
        } else if is_literal(&name, "monthly") {
            match next_month(today) {
                Some(d) => Ok(d),
                None => Err(BackupError::NoNextMonth),
            }
        } else {
            Err(BackupError::UnsupportedInterval)
        }
    }

    /// Chooses among the backups in a directory. `modified` holds, for each
    /// backup in the order of the listing, the moment of its last change.
    /// The result holds the positions of the backups to delete: all but
    /// the ten newest.
    pub fn cleanup_old_backups(modified: &Vec<u128>) -> (remove: Vec<usize>)
        ensures
            exists|order: Seq<usize>|
                is_newest_first(modified@, order) && remove@ == #[trigger] beyond_kept(order),
    {
        let order = newest_first(modified);
        let mut remove: Vec<usize> = Vec::new();
        let mut i: usize = KEPT_BACKUPS;
        if order.len() <= KEPT_BACKUPS {
            assert(remove@ == beyond_kept(order@));
            return remove;
        }
        while i < order.len()
            invariant
                KEPT_BACKUPS <= i <= order.len(),
                remove@ == order@.subrange(KEPT_BACKUPS as int, i as int),
            decreases order.len() - i,
        {
            remove.push(order[i]);
            i += 1;
        }
        assert(remove@ == beyond_kept(order@));
        remove
    }
}

impl BackupError {
    /// The reason in words.
    pub fn message(&self) -> (text: &'static str)
        ensures
            text@ == backup_message_of(*self),
    {
        match self {
            BackupError::NoNextDay => "计算明天日期失败",
            BackupError::NoNextWeek => "构建下周时间失败",
            BackupError::NoNextMonth => "计算下个月最后一天失败",
            BackupError::UnsupportedInterval => "不支持的备份间隔",
        }
    }
}

/// The day of the monthly backup after `today`.
fn next_month(today: Date) -> (r: Option<Date>)
    ensures
        r == next_month_of(today),
{
    if today.month > 12 {
        return None;
    }
    let (year, month): (i32, u32) = if today.month == 12 {
        if today.year == i32::MAX {
            return None;
        }
        (today.year + 1, 1)
    } else {
        (today.year, today.month + 1)
    };
    if is_date(year, month, today.day) {
        Some(Date { year, month, day: today.day })
    } else if month == 12 || !is_date(year, month + 1, 1) {
        None
    } else {
        match day_before(year, month + 1, 1) {
            Some((y, m, d)) => Some(Date { year: y, month: m, day: d }),
            None => None,
        }
    }
}

/// The positions of the backups, newest first. Of two backups that were
/// changed at the same moment the one listed first stays first.
pub fn newest_first(modified: &Vec<u128>) -> (order: Vec<usize>)
    ensures
        is_newest_first(modified@, order@),
{
    let mut order: Vec<usize> = Vec::new();
    let mut k: usize = 0;
    while k < modified.len()
        invariant
            k <= modified.len(),
            order@.len() == k,
            forall|p: int| 0 <= p < order@.len() ==> 0 <= #[trigger] order@[p] < k,
            forall|p: int, q: int|
                0 <= p < q < order@.len() ==> comes_before(
                    modified@,
                    #[trigger] order@[p] as int,
                    #[trigger] order@[q] as int,
                ),
        decreases modified.len() - k,
    {
        let mut at: usize = 0;
        while at < order.len() && modified[order[at]] >= modified[k]
            invariant
                at <= order@.len(),
                order@.len() == k,
                k < modified.len(),
                forall|p: int| 0 <= p < order@.len() ==> 0 <= #[trigger] order@[p] < k,
                forall|p: int| 0 <= p < at ==> modified@[#[trigger] order@[p] as int] >= modified@[k as int],
            decreases order@.len() - at,
        {
            at += 1;
        }
        let ghost before = order@;
        order.insert(at, k);
        assert forall|p: int, q: int| 0 <= p < q < order@.len() implies comes_before(
            modified@,
            #[trigger] order@[p] as int,
            #[trigger] order@[q] as int,
        ) by {
            if q < at {
                assert(order@[p] == before[p] && order@[q] == before[q]);
            } else if q == at {
                assert(order@[p] == before[p]);
            } else if p < at {
                assert(order@[p] == before[p] && order@[q] == before[q - 1]);
            } else if p == at {
                assert(order@[q] == before[q - 1]);
                assert(comes_before(modified@, before[at as int] as int, before[q - 1] as int)
                    || q - 1 == at);
            } else {
                assert(order@[p] == before[p - 1] && order@[q] == before[q - 1]);
            }
        }
        assert forall|p: int| 0 <= p < order@.len() implies 0 <= #[trigger] order@[p] < k + 1 by {
            if p < at {
                assert(order@[p] == before[p]);
            } else if p > at {
                assert(order@[p] == before[p - 1]);
            }
        }
        k += 1;
    }
    order
}

/// Whether a file name is that of a backup: it begins with
/// `lora_auto_backup_` and ends with `.json`.
pub fn is_backup_name(name: &str) -> (r: bool)
    ensures
        r == is_backup_name_of(name@),
{
    let n = chars_of(name);
    let suffix = chars_of(BACKUP_SUFFIX);
    if !begins_with(&n, BACKUP_PREFIX) {
        return false;
    }
    if suffix.len() > n.len() {
        return false;
    }
    matches_at(&n, &suffix, n.len() - suffix.len())
}

/// The name of the backup made at the moment that `stamp` denotes.
pub fn backup_file_name(stamp: &str) -> (name: String)
    ensures
        name@ == BACKUP_PREFIX@ + stamp@ + BACKUP_SUFFIX@,
{
    let head = joined(BACKUP_PREFIX, stamp);
    joined(head.as_str(), BACKUP_SUFFIX)
}

/// The name of an export made at the given moment, in seconds since the
/// epoch.
pub fn export_file_name(seconds: u64) -> (name: String)
    ensures
        name@ == EXPORT_PREFIX@ + decimal_of(seconds as nat) + ".json"@,
{
    let mut head = EXPORT_PREFIX.to_owned();
    push_decimal(&mut head, seconds as u128);
    joined(head.as_str(), ".json")
}

/// How long to wait for a backup that is due at `due`, in seconds since
/// the epoch, when it is `now`: the time that is left, and none when the
/// backup is overdue.
pub fn seconds_until(due: i64, now: i64) -> (wait: u64)
    ensures
        wait == (if due > now {
            due - now
        } else {
            0
        }),
{
    if due > now {
        (due as i128 - now as i128) as u64
    } else {
        0
    }
}

/// The interval of the backups: the one that is set, or a week.
pub fn backup_interval(settings: &AppSettings) -> (interval: String)
    ensures
        interval@ == (match settings.backup_interval {
            Some(i) => i@,
            None => DEFAULT_INTERVAL@,
        }),
{
    match &settings.backup_interval {
        Some(i) => i.clone(),
        None => DEFAULT_INTERVAL.to_owned(),
    }
}

/// A copy of a backup record.
fn copy_backup(file: &BackupFile) -> (copy: BackupFile)
    ensures
        copy == *file,
{
    BackupFile {
        name: file.name.clone(),
        path: file.path.clone(),
        size: file.size,
        modified: file.modified,
    }
}

/// The backups of a directory as they are shown: all of them, newest
/// first, with their number. Of two backups that were changed in the same
/// second the one listed first stays first.
pub fn get_backup_status(backup_dir: String, files: &Vec<BackupFile>) -> (status: BackupStatus)
    ensures
        status.backup_dir == backup_dir,
        status.total_count == files.len(),
        status.backup_files.len() == files.len(),
        exists|order: Seq<usize>|
            #![trigger is_newest_first(moments_of(files@), order)]
            is_newest_first(moments_of(files@), order) && forall|p: int|
                0 <= p < files.len() ==> status.backup_files@[p] == files@[order[p] as int],
{
    let mut moments: Vec<u128> = Vec::new();
    let mut i: usize = 0;
    while i < files.len()
        invariant
            i <= files.len(),
            moments@ == moments_of(files@).take(i as int),
        decreases files.len() - i,
    {
        moments.push(files[i].modified as u128);
        assert(moments@ =~= moments_of(files@).take(i + 1));
        i += 1;
    }
    assert(moments@ =~= moments_of(files@));
    let order = newest_first(&moments);
    let mut listed: Vec<BackupFile> = Vec::new();
    let mut p: usize = 0;
    while p < order.len()
        invariant
            p <= order.len(),
            order@.len() == files@.len(),
            is_newest_first(moments_of(files@), order@),
            listed@.len() == p,
            forall|q: int| 0 <= q < p ==> listed@[q] == files@[order@[q] as int],
        decreases order.len() - p,
    {
        listed.push(copy_backup(&files[order[p]]));
        p += 1;
    }
    BackupStatus { backup_dir, backup_files: listed, total_count: files.len() }
}

/// Listed newest first, the newest backup is the first, and no backup
/// is listed twice.
pub proof fn lemma_newest_first(modified: Seq<u128>, order: Seq<usize>)
    requires
        is_newest_first(modified, order),
    ensures
        forall|p: int, q: int|
            0 <= p < q < order.len() ==> #[trigger] order[p] != #[trigger] order[q],
        forall|p: int, q: int|
            0 <= p < q < order.len() ==> modified[#[trigger] order[p] as int] >= modified[
                #[trigger] order[q] as int
            ],
{
}

} // verus!
