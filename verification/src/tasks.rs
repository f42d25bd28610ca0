//! Tasks and settings as stored, which tasks a list shows, how a due time
//! is written when a task is added and how it is labelled in the list.

use crate::numbers::{decimal, parse_i32, parsed_i32, push_decimal, signed_decimal, zero_padded, zero_padded_text};
use crate::strings::same_text;
use chrono::{Datelike, Local, NaiveDateTime};
use vstd::prelude::*;

verus! {

/// A task as stored.
#[derive(Debug, Clone)]
pub struct Task {
    pub id: i64,
    pub title: String,
    pub description: String,
    /// `YYYY-MM-DD HH:MM:SS`, local time.
    pub due_time: String,
    pub remind_minutes: i64,
    pub is_completed: bool,
    pub created_at: String,
    pub updated_at: String,
}

/// A setting as stored.
#[derive(Debug, Clone)]
pub struct Setting {
    pub key: String,
    pub value: String,
}

/// Which tasks a list shows.
#[derive(Debug, Clone, Copy, PartialEq, Eq, Structural)]
pub enum TaskFilter {
    Completed,
    Pending,
    All,
}

/// "completed" and "pending" name their lists; any other text means all
/// tasks.
pub open spec fn filter_named(name: Seq<char>) -> TaskFilter {
    if name == "completed"@ {
        TaskFilter::Completed
    } else if name == "pending"@ {
        TaskFilter::Pending
    } else {
        TaskFilter::All
    }
}

pub fn task_filter(name: &str) -> (f: TaskFilter)
    ensures
        f == filter_named(name@),
{
    if same_text(name, "completed") {
        TaskFilter::Completed
    } else if same_text(name, "pending") {
        TaskFilter::Pending
    } else {
        TaskFilter::All
    }
}

/// The query that lists the tasks a filter shows, earliest due first.
pub open spec fn query_for(filter: TaskFilter) -> Seq<char> {
    match filter {
        TaskFilter::Completed => "SELECT id,title,description,due_time,remind_minutes,is_completed,created_at,updated_at FROM tasks WHERE is_completed=1 ORDER BY due_time"@,
        TaskFilter::Pending => "SELECT id,title,description,due_time,remind_minutes,is_completed,created_at,updated_at FROM tasks WHERE is_completed=0 ORDER BY due_time"@,
        TaskFilter::All => "SELECT id,title,description,due_time,remind_minutes,is_completed,created_at,updated_at FROM tasks ORDER BY due_time"@,
    }
}

/// The query that lists the tasks that the filter named `name` shows.
pub fn tasks_query(name: &str) -> (q: String)
    ensures
        q@ == query_for(filter_named(name@)),
{
    match task_filter(name) {
        TaskFilter::Completed => "SELECT id,title,description,due_time,remind_minutes,is_completed,created_at,updated_at FROM tasks WHERE is_completed=1 ORDER BY due_time".to_owned(),
        TaskFilter::Pending => "SELECT id,title,description,due_time,remind_minutes,is_completed,created_at,updated_at FROM tasks WHERE is_completed=0 ORDER BY due_time".to_owned(),
        TaskFilter::All => "SELECT id,title,description,due_time,remind_minutes,is_completed,created_at,updated_at FROM tasks ORDER BY due_time".to_owned(),
    }
}

/// The stored completion flag read back: any non-zero number is done.
pub fn completed_flag(stored: i64) -> (done: bool)
    ensures
        done == (stored != 0),
{
    stored != 0
}

/// A number read from the add-task form, or `fallback` where it does not
/// read as one.
pub open spec fn field_or(text: Seq<char>, fallback: i32) -> int {
    match parsed_i32(text) {
        Some(v) => v as int,
        None => fallback as int,
    }
}

fn field_value(text: &str, fallback: i32) -> (v: i32)
    ensures
        v as int == field_or(text@, fallback),
{
    match parse_i32(text) {
        Some(v) => v,
        None => fallback,
    }
}

/// The due time written for a new task: the year padded to four places, the
/// month, day, hour and minute read from the form (6, 12, 12 and 0 where
/// they do not read as numbers) padded to two, and zero seconds.
pub open spec fn due_text_for(year: i32, month: Seq<char>, day: Seq<char>, hour: Seq<char>, minute: Seq<char>) -> Seq<char> {
    zero_padded(signed_decimal(year as int), 4) + "-"@ + zero_padded(signed_decimal(field_or(month, 6)), 2) + "-"@
        + zero_padded(signed_decimal(field_or(day, 12)), 2) + " "@ + zero_padded(signed_decimal(field_or(hour, 12)), 2)
        + ":"@ + zero_padded(signed_decimal(field_or(minute, 0)), 2) + ":00"@
}

/// Writes the due time of a task added in `year` with the form's month,
/// day, hour and minute, as `format!("{:0>4}-{:0>2}-{:0>2} {:0>2}:{:0>2}:00", ..)`.
pub fn due_text(year: i32, month: &str, day: &str, hour: &str, minute: &str) -> (r: String)
    ensures
        r@ == due_text_for(year, month@, day@, hour@, minute@),
{
    let mut s = zero_padded_text(year as i64, 4);
    s.append("-");
    let m = zero_padded_text(field_value(month, 6) as i64, 2);
    s.append(m.as_str());
    s.append("-");
    let d = zero_padded_text(field_value(day, 12) as i64, 2);
    s.append(d.as_str());
    s.append(" ");
    let h = zero_padded_text(field_value(hour, 12) as i64, 2);
    s.append(h.as_str());
    s.append(":");
    let mi = zero_padded_text(field_value(minute, 0) as i64, 2);
    s.append(mi.as_str());
    s.append(":00");
    s
}

#[verifier::external_type_specification]
#[verifier::external_body]
pub struct ExNaiveDateTime(NaiveDateTime);

/// A due time as read: the moment itself and its month and day.
pub struct DueTime {
    at: NaiveDateTime,
    pub month: u32,
    pub day: u32,
}

/// The month and day of the date and time that `chrono` reads from the
/// text in the form `%Y-%m-%d %H:%M:%S`; `None` where it does not read.
pub uninterp spec fn parsed_due(text: Seq<char>) -> Option<(u32, u32)>;

/// Reads `text` with `chrono::NaiveDateTime::parse_from_str` in the form
/// `%Y-%m-%d %H:%M:%S`, and takes the month and day of what it read with
/// `Datelike::month` and `Datelike::day`. The contract names what is read
/// (it does not say which texts read), and states the ranges that chrono
/// documents for a month (1 to 12) and a day (1 to 31).
#[verifier::external_body]
fn parse_due(text: &str) -> (r: Option<DueTime>)
    ensures
        r is Some <==> parsed_due(text@) is Some,
        r matches Some(d) ==> parsed_due(text@) == Some((d.month, d.day)) && 1 <= d.month <= 12 && 1
            <= d.day <= 31,
{
    match NaiveDateTime::parse_from_str(text, "%Y-%m-%d %H:%M:%S") {
        Ok(at) => Some(DueTime { month: at.month(), day: at.day(), at }),
        Err(_) => None,
    }
}

/// The whole seconds from now until `due`, negative once it has passed:
/// `due.signed_duration_since(now).num_seconds()` with `now` read from the
/// local clock by `chrono::Local::now`. It depends on the clock, so no
/// clause states its value.
#[verifier::external_body]
fn seconds_until(due: &DueTime) -> (secs: i64) {
    due.at.signed_duration_since(Local::now().naive_local()).num_seconds()
}

/// Whether `due` is earlier than now, as `NaiveDateTime`'s `<` compares it
/// with `chrono::Local::now`. It depends on the clock, so no clause states
/// its value.
#[verifier::external_body]
fn is_past(due: &DueTime) -> (past: bool) {
    due.at < Local::now().naive_local()
}

/// The label of a task due in `secs` seconds on the given month and day:
/// overdue, whole minutes within the hour, whole hours within the day, and
/// the date beyond.
pub open spec fn due_label_text(secs: int, month: nat, day: nat) -> Seq<char> {
    if secs < 0 {
        "已过期"@
    } else if secs < 3600 {
        decimal((secs / 60) as nat) + "分钟"@
    } else if secs < 86400 {
        decimal((secs / 3600) as nat) + "小时"@
    } else {
        decimal(month) + "/"@ + decimal(day)
    }
}

/// `label` is the label of a task due on the given month and day, for some
/// number of seconds left until it.
pub open spec fn label_for_some_time(label: Seq<char>, month_day: (u32, u32)) -> bool {
    exists|secs: int|
        i64::MIN <= secs <= i64::MAX && label == #[trigger] due_label_text(
            secs,
            month_day.0 as nat,
            month_day.1 as nat,
        )
}

/// The label counts whole units of the time left: within the hour it is
/// the number of whole minutes `m` with `60 m <= secs < 60 (m + 1)`, within
/// the day the number of whole hours `h` with `3600 h <= secs < 3600 (h + 1)`;
/// a past due time is overdue, and from a day on the date is shown.
pub proof fn label_counts_whole_units(secs: int, month: nat, day: nat)
    ensures
        secs < 0 ==> due_label_text(secs, month, day) == "已过期"@,
        0 <= secs < 3600 ==> exists|m: nat|
            60 * m <= secs < 60 * (m + 1) && m < 60 && #[trigger] due_label_text(secs, month, day)
                == decimal(m) + "分钟"@,
        3600 <= secs < 86400 ==> exists|h: nat|
            3600 * h <= secs < 3600 * (h + 1) && 1 <= h < 24 && #[trigger] due_label_text(secs, month, day)
                == decimal(h) + "小时"@,
        secs >= 86400 ==> due_label_text(secs, month, day) == decimal(month) + "/"@ + decimal(day),
{
    if 0 <= secs < 3600 {
        let m = (secs / 60) as nat;
        assert(60 * m <= secs < 60 * (m + 1) && m < 60) by (nonlinear_arith)
            requires
                m == secs / 60,
                0 <= secs < 3600,
        ;
        assert(due_label_text(secs, month, day) == decimal(m) + "分钟"@);
    }
    if 3600 <= secs < 86400 {
        let h = (secs / 3600) as nat;
        assert(3600 * h <= secs < 3600 * (h + 1) && 1 <= h < 24) by (nonlinear_arith)
            requires
                h == secs / 3600,
                3600 <= secs < 86400,
        ;
        assert(due_label_text(secs, month, day) == decimal(h) + "小时"@);
    }
}

/// Labels a task due in `secs` seconds on the given month and day.
pub fn due_label(secs: i64, month: u32, day: u32) -> (r: String)
    ensures
        r@ == due_label_text(secs as int, month as nat, day as nat),
{
    if secs < 0 {
        return "已过期".to_owned();
    }
    let mut s = String::new();
    if secs < 3600 {
        push_decimal(&mut s, (secs / 60) as u64);
        s.append("分钟");
    } else if secs < 86400 {
        push_decimal(&mut s, (secs / 3600) as u64);
        s.append("小时");
    } else {
        push_decimal(&mut s, month as u64);
        s.append("/");
        push_decimal(&mut s, day as u64);
    }
    assert(s@ =~= due_label_text(secs as int, month as nat, day as nat));
    s
}

/// The label of a task due at `due_time`: empty where the text is not a
/// due time, else the label for the seconds left until it (which depend on
/// the clock).
pub fn format_due(due_time: &str) -> (r: String)
    ensures
        parsed_due(due_time@) is None ==> r@ == Seq::<char>::empty(),
        parsed_due(due_time@) matches Some(md) ==> label_for_some_time(r@, md),
{
    match parse_due(due_time) {
        None => String::new(),
        Some(due) => {
            let secs = seconds_until(&due);
            let label = due_label(secs, due.month, due.day);
            assert(label@ == due_label_text(secs as int, due.month as nat, due.day as nat));
            assert(label_for_some_time(label@, (due.month, due.day))) by {
                let md = (due.month, due.day);
                let t = secs as int;
                assert(label@ == due_label_text(t, md.0 as nat, md.1 as nat));
            }
            label
        },
    }
}

/// Whether the task due at `due_time` is overdue: never where the text is
/// not a due time, else whether that time has passed (which depends on the
/// clock).
pub fn is_overdue(due_time: &str) -> (r: bool)
    ensures
        parsed_due(due_time@) is None ==> !r,
{
    match parse_due(due_time) {
        None => false,
        Some(due) => is_past(&due),
    }
}

/// A task as the task list shows it.
#[derive(Debug, Clone)]
pub struct TaskRow {
    pub id: i32,
    pub title: String,
    pub due_label: String,
    pub is_completed: bool,
    /// Still open and already overdue.
    pub is_urgent: bool,
}

/// The row the task list shows for `task`.
pub fn task_row(task: &Task) -> (row: TaskRow)
    ensures
        row.id == task.id as i32,
        row.title@ == task.title@,
        row.is_completed == task.is_completed,
        task.is_completed ==> !row.is_urgent,
        parsed_due(task.due_time@) is None ==> !row.is_urgent && row.due_label@ == Seq::<char>::empty(),
        parsed_due(task.due_time@) matches Some(md) ==> label_for_some_time(row.due_label@, md),
{
    let label = format_due(task.due_time.as_str());
    let urgent = !task.is_completed && is_overdue(task.due_time.as_str());
    TaskRow {
        id: task.id as i32,
        title: task.title.clone(),
        due_label: label,
        is_completed: task.is_completed,
        is_urgent: urgent,
    }
}

} // verus!
