//! The keymap: what a key means, given what is open.

use crate::action::{notice, notifies, Action, BooksFilter};
use crate::app::App;
use crate::command::{complete, completed};
use crate::keys::{Event, KeyCode, KeyEvent};
use crate::notify::Level;
use crate::screens::inbox;
use crate::screens::review;
use crate::screens::{Screen, ScreenKind, ScreenMode};
use crate::text::own;
use vstd::prelude::*;

verus! {

// ---- the tables ----

/// The key that follows the leader.
pub open spec fn leader_keys(code: KeyCode) -> Option<Action> {
    if code == KeyCode::Char('1') {
        Some(Action::Goto(ScreenKind::Home))
    } else if code == KeyCode::Char('2') || code == KeyCode::Char('b') {
        Some(Action::Goto(ScreenKind::Books))
    } else if code == KeyCode::Char('3') || code == KeyCode::Char('p') {
        Some(Action::Goto(ScreenKind::Progress))
    } else if code == KeyCode::Char('t') {
        Some(Action::Goto(ScreenKind::Timer))
    } else if code == KeyCode::Char('a') {
        Some(Action::Goto(ScreenKind::ActivityNew))
    } else if code == KeyCode::Char('A') {
        Some(Action::Goto(ScreenKind::Activities))
    } else if code == KeyCode::Char('R') {
        Some(Action::Goto(ScreenKind::Review))
    } else if code == KeyCode::Char('h') || code == KeyCode::Char('H') {
        Some(Action::Goto(ScreenKind::Home))
    } else if code == KeyCode::Char('s') {
        Some(Action::ActivitySubmit)
    } else if code == KeyCode::Char('r') {
        Some(Action::RefreshHome)
    } else if code == KeyCode::Char('n') {
        Some(Action::Goto(ScreenKind::Notes))
    } else if code == KeyCode::Char('c') {
        Some(Action::CaptureOpen)
    } else {
        None
    }
}

fn leader_key(code: KeyCode) -> (res: Option<Action>)
    ensures
        res == leader_keys(code),
{
    match code {
        KeyCode::Char('1') => Some(Action::Goto(ScreenKind::Home)),
        KeyCode::Char('2') | KeyCode::Char('b') => Some(Action::Goto(ScreenKind::Books)),
        KeyCode::Char('3') | KeyCode::Char('p') => Some(Action::Goto(ScreenKind::Progress)),
        KeyCode::Char('t') => Some(Action::Goto(ScreenKind::Timer)),
        KeyCode::Char('a') => Some(Action::Goto(ScreenKind::ActivityNew)),
        KeyCode::Char('A') => Some(Action::Goto(ScreenKind::Activities)),
        KeyCode::Char('R') => Some(Action::Goto(ScreenKind::Review)),
        KeyCode::Char('h') | KeyCode::Char('H') => Some(Action::Goto(ScreenKind::Home)),
        KeyCode::Char('s') => Some(Action::ActivitySubmit),
        KeyCode::Char('r') => Some(Action::RefreshHome),
        KeyCode::Char('n') => Some(Action::Goto(ScreenKind::Notes)),
        KeyCode::Char('c') => Some(Action::CaptureOpen),
        _ => None,
    }
}

/// The screen key that follows the goto prefix.
pub open spec fn destination_keys(code: KeyCode) -> Option<Action> {
    if code == KeyCode::Char('t') {
        Some(Action::Goto(ScreenKind::Timer))
    } else if code == KeyCode::Char('p') {
        Some(Action::Goto(ScreenKind::Progress))
    } else if code == KeyCode::Char('w') {
        Some(Action::Goto(ScreenKind::Week))
    } else if code == KeyCode::Char('r') {
        Some(Action::Goto(ScreenKind::Review))
    } else if code == KeyCode::Char('i') {
        Some(Action::Goto(ScreenKind::Inbox))
    } else if code == KeyCode::Char('q') {
        Some(Action::Goto(ScreenKind::Queue))
    } else if code == KeyCode::Char('h') {
        Some(Action::Goto(ScreenKind::Home))
    } else if code == KeyCode::Char('b') {
        Some(Action::Goto(ScreenKind::Books))
    } else if code == KeyCode::Char('n') {
        Some(Action::Goto(ScreenKind::Notes))
    } else if code == KeyCode::Char('a') {
        Some(Action::Goto(ScreenKind::Activities))
    } else {
        None
    }
}

fn destination_key(code: KeyCode) -> (res: Option<Action>)
    ensures
        res == destination_keys(code),
{
    match code {
        KeyCode::Char('t') => Some(Action::Goto(ScreenKind::Timer)),
        KeyCode::Char('p') => Some(Action::Goto(ScreenKind::Progress)),
        KeyCode::Char('w') => Some(Action::Goto(ScreenKind::Week)),
        KeyCode::Char('r') => Some(Action::Goto(ScreenKind::Review)),
        KeyCode::Char('i') => Some(Action::Goto(ScreenKind::Inbox)),
        KeyCode::Char('q') => Some(Action::Goto(ScreenKind::Queue)),
        KeyCode::Char('h') => Some(Action::Goto(ScreenKind::Home)),
        KeyCode::Char('b') => Some(Action::Goto(ScreenKind::Books)),
        KeyCode::Char('n') => Some(Action::Goto(ScreenKind::Notes)),
        KeyCode::Char('a') => Some(Action::Goto(ScreenKind::Activities)),
        _ => None,
    }
}

/// The keys of the sign-in screen.
pub open spec fn login_keys(code: KeyCode) -> Option<Action> {
    if code == KeyCode::Enter || code == KeyCode::Char('l') {
        Some(Action::Login)
    } else {
        None
    }
}

fn login_key(code: KeyCode) -> (res: Option<Action>)
    ensures
        res == login_keys(code),
{
    match code {
        KeyCode::Enter | KeyCode::Char('l') => Some(Action::Login),
        _ => None,
    }
}

/// The keys of the home screen.
pub open spec fn home_keys(code: KeyCode) -> Option<Action> {
    if code == KeyCode::Char('t') {
        Some(Action::Goto(ScreenKind::Timer))
    } else if code == KeyCode::Char('a') {
        Some(Action::Goto(ScreenKind::ActivityNew))
    } else if code == KeyCode::Char('A') {
        Some(Action::Goto(ScreenKind::Activities))
    } else if code == KeyCode::Char('R') {
        Some(Action::Goto(ScreenKind::Review))
    } else if code == KeyCode::Char('b') {
        Some(Action::Goto(ScreenKind::Books))
    } else if code == KeyCode::Char('p') {
        Some(Action::Goto(ScreenKind::Progress))
    } else if code == KeyCode::Char('n') {
        Some(Action::Goto(ScreenKind::Notes))
    } else if code == KeyCode::Char('i') {
        Some(Action::Goto(ScreenKind::Inbox))
    } else if code == KeyCode::Char('c') {
        Some(Action::CaptureOpen)
    } else {
        None
    }
}

fn home_key(code: KeyCode) -> (res: Option<Action>)
    ensures
        res == home_keys(code),
{
    match code {
        KeyCode::Char('t') => Some(Action::Goto(ScreenKind::Timer)),
        KeyCode::Char('a') => Some(Action::Goto(ScreenKind::ActivityNew)),
        KeyCode::Char('A') => Some(Action::Goto(ScreenKind::Activities)),
        KeyCode::Char('R') => Some(Action::Goto(ScreenKind::Review)),
        KeyCode::Char('b') => Some(Action::Goto(ScreenKind::Books)),
        KeyCode::Char('p') => Some(Action::Goto(ScreenKind::Progress)),
        KeyCode::Char('n') => Some(Action::Goto(ScreenKind::Notes)),
        KeyCode::Char('i') => Some(Action::Goto(ScreenKind::Inbox)),
        KeyCode::Char('c') => Some(Action::CaptureOpen),
        _ => None,
    }
}

/// The keys of the shelf that hold whatever the modifiers.
pub open spec fn books_keys(code: KeyCode) -> Option<Action> {
    if code == KeyCode::Char('j') || code == KeyCode::Down {
        Some(Action::BooksMove(1))
    } else if code == KeyCode::Char('k') || code == KeyCode::Up {
        Some(Action::BooksMove((-1) as i32))
    } else if code == KeyCode::Char('G') {
        Some(Action::BooksJumpEnd)
    } else if code == KeyCode::Enter || code == KeyCode::Char('l') {
        Some(Action::BooksOpen)
    } else if code == KeyCode::Char('h') {
        Some(Action::Goto(ScreenKind::Home))
    } else if code == KeyCode::Char('1') {
        Some(Action::BooksFilter(BooksFilter::All))
    } else if code == KeyCode::Char('2') {
        Some(Action::BooksFilter(BooksFilter::Reading))
    } else if code == KeyCode::Char('3') {
        Some(Action::BooksFilter(BooksFilter::Completed))
    } else {
        None
    }
}

fn books_key(code: KeyCode) -> (res: Option<Action>)
    ensures
        res == books_keys(code),
{
    match code {
        KeyCode::Char('j') | KeyCode::Down => Some(Action::BooksMove(1)),
        KeyCode::Char('k') | KeyCode::Up => Some(Action::BooksMove(-1)),
        KeyCode::Char('G') => Some(Action::BooksJumpEnd),
        KeyCode::Enter | KeyCode::Char('l') => Some(Action::BooksOpen),
        KeyCode::Char('h') => Some(Action::Goto(ScreenKind::Home)),
        KeyCode::Char('1') => Some(Action::BooksFilter(BooksFilter::All)),
        KeyCode::Char('2') => Some(Action::BooksFilter(BooksFilter::Reading)),
        KeyCode::Char('3') => Some(Action::BooksFilter(BooksFilter::Completed)),
        _ => None,
    }
}

/// The keys of the book detail.
pub open spec fn book_detail_keys(code: KeyCode) -> Option<Action> {
    if code == KeyCode::Char('j') || code == KeyCode::Down {
        Some(Action::ChapterMove(1))
    } else if code == KeyCode::Char('k') || code == KeyCode::Up {
        Some(Action::ChapterMove((-1) as i32))
    } else if code == KeyCode::Char(' ') {
        Some(Action::ToggleChapterDone)
    } else if code == KeyCode::Char('p') {
        Some(Action::BeginEditPage)
    } else if code == KeyCode::Char('s') {
        Some(Action::BookStatusPicker)
    } else if code == KeyCode::Char('h') || code == KeyCode::Esc {
        Some(Action::Goto(ScreenKind::Books))
    } else {
        None
    }
}

fn book_detail_key(code: KeyCode) -> (res: Option<Action>)
    ensures
        res == book_detail_keys(code),
{
    match code {
        KeyCode::Char('j') | KeyCode::Down => Some(Action::ChapterMove(1)),
        KeyCode::Char('k') | KeyCode::Up => Some(Action::ChapterMove(-1)),
        KeyCode::Char(' ') => Some(Action::ToggleChapterDone),
        KeyCode::Char('p') => Some(Action::BeginEditPage),
        KeyCode::Char('s') => Some(Action::BookStatusPicker),
        KeyCode::Char('h') | KeyCode::Esc => Some(Action::Goto(ScreenKind::Books)),
        _ => None,
    }
}

/// The keys of the activity form while it is not typing.
pub open spec fn activity_normal_keys(code: KeyCode) -> Option<Action> {
    if code == KeyCode::Char('j') || code == KeyCode::Down || code == KeyCode::Tab {
        Some(Action::ActivityFieldNext)
    } else if code == KeyCode::Char('k') || code == KeyCode::Up || code == KeyCode::BackTab {
        Some(Action::ActivityFieldPrev)
    } else if code == KeyCode::Char('i') || code == KeyCode::Enter {
        Some(Action::ActivityEnterInsert)
    } else if code == KeyCode::Esc {
        Some(Action::Goto(ScreenKind::Home))
    } else {
        None
    }
}

fn activity_normal_key(code: KeyCode) -> (res: Option<Action>)
    ensures
        res == activity_normal_keys(code),
{
    match code {
        KeyCode::Char('j') | KeyCode::Down | KeyCode::Tab => Some(Action::ActivityFieldNext),
        KeyCode::Char('k') | KeyCode::Up | KeyCode::BackTab => Some(Action::ActivityFieldPrev),
        KeyCode::Char('i') | KeyCode::Enter => Some(Action::ActivityEnterInsert),
        KeyCode::Esc => Some(Action::Goto(ScreenKind::Home)),
        _ => None,
    }
}

/// The keys of the activities table.
pub open spec fn activities_keys(code: KeyCode) -> Option<Action> {
    if code == KeyCode::Char('j') || code == KeyCode::Down {
        Some(Action::ActivitiesMove(1))
    } else if code == KeyCode::Char('k') || code == KeyCode::Up {
        Some(Action::ActivitiesMove((-1) as i32))
    } else if code == KeyCode::Char('G') {
        Some(Action::ActivitiesJumpEnd)
    } else if code == KeyCode::Enter || code == KeyCode::Char('l') {
        Some(Action::ActivitiesOpenDetail)
    } else if code == KeyCode::Char('c') {
        Some(Action::ActivitiesComplete)
    } else if code == KeyCode::Char('a') {
        Some(Action::ActivitiesArchive)
    } else if code == KeyCode::Char('d') {
        Some(Action::ActivitiesDuplicate)
    } else if code == KeyCode::Char('t') {
        Some(Action::ActivitiesStartTimer)
    } else if code == KeyCode::Char('f') {
        Some(Action::ActivitiesCycleFilter)
    } else if code == KeyCode::Char(']') {
        Some(Action::ActivitiesPageNext)
    } else if code == KeyCode::Char('[') {
        Some(Action::ActivitiesPagePrev)
    } else if code == KeyCode::Char('h') {
        Some(Action::Goto(ScreenKind::Home))
    } else {
        None
    }
}

fn activities_key(code: KeyCode) -> (res: Option<Action>)
    ensures
        res == activities_keys(code),
{
    match code {
        KeyCode::Char('j') | KeyCode::Down => Some(Action::ActivitiesMove(1)),
        KeyCode::Char('k') | KeyCode::Up => Some(Action::ActivitiesMove(-1)),
        KeyCode::Char('G') => Some(Action::ActivitiesJumpEnd),
        KeyCode::Enter | KeyCode::Char('l') => Some(Action::ActivitiesOpenDetail),
        KeyCode::Char('c') => Some(Action::ActivitiesComplete),
        KeyCode::Char('a') => Some(Action::ActivitiesArchive),
        KeyCode::Char('d') => Some(Action::ActivitiesDuplicate),
        KeyCode::Char('t') => Some(Action::ActivitiesStartTimer),
        KeyCode::Char('f') => Some(Action::ActivitiesCycleFilter),
        KeyCode::Char(']') => Some(Action::ActivitiesPageNext),
        KeyCode::Char('[') => Some(Action::ActivitiesPagePrev),
        KeyCode::Char('h') => Some(Action::Goto(ScreenKind::Home)),
        _ => None,
    }
}

/// The keys of the progress screen.
pub open spec fn progress_keys(code: KeyCode) -> Option<Action> {
    if code == KeyCode::Char('a') {
        Some(Action::Goto(ScreenKind::Audit))
    } else if code == KeyCode::Char('j') || code == KeyCode::Down {
        Some(Action::ProgressSelectMove(1))
    } else if code == KeyCode::Char('k') || code == KeyCode::Up {
        Some(Action::ProgressSelectMove((-1) as i32))
    } else if code == KeyCode::Char('e') {
        Some(Action::ProgressAdjustBegin)
    } else if code == KeyCode::Char('x') {
        Some(Action::ProgressRetire)
    } else if code == KeyCode::Char('n') {
        Some(Action::ProgressDeclareBegin)
    } else if code == KeyCode::Char('[') {
        Some(Action::ProgressWeekStep((-1) as i32))
    } else if code == KeyCode::Char(']') {
        Some(Action::ProgressWeekStep(1))
    } else if code == KeyCode::Char('t') {
        Some(Action::ProgressWeekReset)
    } else if code == KeyCode::Tab {
        Some(Action::ProgressFoldCycle)
    } else if code == KeyCode::Char('h') || code == KeyCode::Esc {
        Some(Action::Goto(ScreenKind::Home))
    } else {
        None
    }
}

fn progress_key(code: KeyCode) -> (res: Option<Action>)
    ensures
        res == progress_keys(code),
{
    match code {
        KeyCode::Char('a') => Some(Action::Goto(ScreenKind::Audit)),
        KeyCode::Char('j') | KeyCode::Down => Some(Action::ProgressSelectMove(1)),
        KeyCode::Char('k') | KeyCode::Up => Some(Action::ProgressSelectMove(-1)),
        KeyCode::Char('e') => Some(Action::ProgressAdjustBegin),
        KeyCode::Char('x') => Some(Action::ProgressRetire),
        KeyCode::Char('n') => Some(Action::ProgressDeclareBegin),
        KeyCode::Char('[') => Some(Action::ProgressWeekStep(-1)),
        KeyCode::Char(']') => Some(Action::ProgressWeekStep(1)),
        KeyCode::Char('t') => Some(Action::ProgressWeekReset),
        KeyCode::Tab => Some(Action::ProgressFoldCycle),
        KeyCode::Char('h') | KeyCode::Esc => Some(Action::Goto(ScreenKind::Home)),
        _ => None,
    }
}

/// The keys of the week board; `r` refreshes everywhere, so reflecting is `i`.
pub open spec fn week_keys(code: KeyCode) -> Option<Action> {
    if code == KeyCode::Char('j') || code == KeyCode::Down {
        Some(Action::WeekSelectMove(1))
    } else if code == KeyCode::Char('k') || code == KeyCode::Up {
        Some(Action::WeekSelectMove((-1) as i32))
    } else if code == KeyCode::Char('s') {
        Some(Action::WeekStartTimer)
    } else if code == KeyCode::Char('a') {
        Some(Action::WeekAddBegin)
    } else if code == KeyCode::Char('e') {
        Some(Action::WeekAdjustBegin)
    } else if code == KeyCode::Char('d') {
        Some(Action::WeekDrop)
    } else if code == KeyCode::Char('i') {
        Some(Action::WeekReflect)
    } else if code == KeyCode::Char('[') {
        Some(Action::WeekStep((-1) as i32))
    } else if code == KeyCode::Char(']') {
        Some(Action::WeekStep(1))
    } else if code == KeyCode::Char('t') {
        Some(Action::WeekReset)
    } else if code == KeyCode::Char('h') || code == KeyCode::Esc {
        Some(Action::Goto(ScreenKind::Home))
    } else {
        None
    }
}

fn week_key(code: KeyCode) -> (res: Option<Action>)
    ensures
        res == week_keys(code),
{
    match code {
        KeyCode::Char('j') | KeyCode::Down => Some(Action::WeekSelectMove(1)),
        KeyCode::Char('k') | KeyCode::Up => Some(Action::WeekSelectMove(-1)),
        KeyCode::Char('s') => Some(Action::WeekStartTimer),
        KeyCode::Char('a') => Some(Action::WeekAddBegin),
        KeyCode::Char('e') => Some(Action::WeekAdjustBegin),
        KeyCode::Char('d') => Some(Action::WeekDrop),
        KeyCode::Char('i') => Some(Action::WeekReflect),
        KeyCode::Char('[') => Some(Action::WeekStep(-1)),
        KeyCode::Char(']') => Some(Action::WeekStep(1)),
        KeyCode::Char('t') => Some(Action::WeekReset),
        KeyCode::Char('h') | KeyCode::Esc => Some(Action::Goto(ScreenKind::Home)),
        _ => None,
    }
}

/// The keys of the timer, whatever its stage: its reducer holds each against it.
pub open spec fn timer_keys(code: KeyCode) -> Option<Action> {
    if code == KeyCode::Char('s') {
        Some(Action::TimerSave)
    } else if code == KeyCode::Char('p') {
        Some(Action::TimerPauseResume)
    } else if code == KeyCode::Char('x') {
        Some(Action::TimerStop)
    } else if code == KeyCode::Char('d') {
        Some(Action::TimerDiscard)
    } else if code == KeyCode::Char('i') {
        Some(Action::TimerToggleRail)
    } else if code == KeyCode::Char('m') {
        Some(Action::TimerModeSwitch)
    } else if code == KeyCode::Char('n') {
        Some(Action::TimerSkipInterval)
    } else if code == KeyCode::Char('/') {
        Some(Action::TimerBindBegin)
    } else if code == KeyCode::Char('b') {
        Some(Action::TimerBreak)
    } else if code == KeyCode::Char('u') {
        Some(Action::TimerUndo)
    } else if code == KeyCode::Enter {
        Some(Action::TimerDismissStopped)
    } else if code == KeyCode::Char('h') || code == KeyCode::Esc {
        Some(Action::Goto(ScreenKind::Home))
    } else {
        None
    }
}

fn timer_key(code: KeyCode) -> (res: Option<Action>)
    ensures
        res == timer_keys(code),
{
    match code {
        KeyCode::Char('s') => Some(Action::TimerSave),
        KeyCode::Char('p') => Some(Action::TimerPauseResume),
        KeyCode::Char('x') => Some(Action::TimerStop),
        KeyCode::Char('d') => Some(Action::TimerDiscard),
        KeyCode::Char('i') => Some(Action::TimerToggleRail),
        KeyCode::Char('m') => Some(Action::TimerModeSwitch),
        KeyCode::Char('n') => Some(Action::TimerSkipInterval),
        KeyCode::Char('/') => Some(Action::TimerBindBegin),
        KeyCode::Char('b') => Some(Action::TimerBreak),
        KeyCode::Char('u') => Some(Action::TimerUndo),
        KeyCode::Enter => Some(Action::TimerDismissStopped),
        KeyCode::Char('h') | KeyCode::Esc => Some(Action::Goto(ScreenKind::Home)),
        _ => None,
    }
}

/// The keys of the notes browser.
pub open spec fn notes_keys(code: KeyCode) -> Option<Action> {
    if code == KeyCode::Char('j') || code == KeyCode::Down {
        Some(Action::NotesMove(1))
    } else if code == KeyCode::Char('k') || code == KeyCode::Up {
        Some(Action::NotesMove((-1) as i32))
    } else if code == KeyCode::Char('G') {
        Some(Action::NotesJumpEnd)
    } else if code == KeyCode::Enter || code == KeyCode::Char('l') {
        Some(Action::NotesOpenDetail)
    } else if code == KeyCode::Char('a') {
        Some(Action::NotesArchiveSelected)
    } else if code == KeyCode::Char('e') {
        Some(Action::NotesEditSelected)
    } else if code == KeyCode::Char('t') {
        Some(Action::NotesToggleArchived)
    } else if code == KeyCode::Char('c') {
        Some(Action::CaptureOpen)
    } else if code == KeyCode::Char('h') {
        Some(Action::Goto(ScreenKind::Home))
    } else {
        None
    }
}

fn notes_key(code: KeyCode) -> (res: Option<Action>)
    ensures
        res == notes_keys(code),
{
    match code {
        KeyCode::Char('j') | KeyCode::Down => Some(Action::NotesMove(1)),
        KeyCode::Char('k') | KeyCode::Up => Some(Action::NotesMove(-1)),
        KeyCode::Char('G') => Some(Action::NotesJumpEnd),
        KeyCode::Enter | KeyCode::Char('l') => Some(Action::NotesOpenDetail),
        KeyCode::Char('a') => Some(Action::NotesArchiveSelected),
        KeyCode::Char('e') => Some(Action::NotesEditSelected),
        KeyCode::Char('t') => Some(Action::NotesToggleArchived),
        KeyCode::Char('c') => Some(Action::CaptureOpen),
        KeyCode::Char('h') => Some(Action::Goto(ScreenKind::Home)),
        _ => None,
    }
}

/// The keys of the review dashboard.
pub open spec fn review_dashboard_keys(code: KeyCode) -> Option<Action> {
    if code == KeyCode::Enter || code == KeyCode::Char('s') {
        Some(Action::ReviewStartSitting)
    } else if code == KeyCode::Char('b') {
        Some(Action::ReviewOpenBrowse)
    } else if code == KeyCode::Char('h') || code == KeyCode::Esc {
        Some(Action::Goto(ScreenKind::Home))
    } else {
        None
    }
}

fn review_dashboard_key(code: KeyCode) -> (res: Option<Action>)
    ensures
        res == review_dashboard_keys(code),
{
    match code {
        KeyCode::Enter | KeyCode::Char('s') => Some(Action::ReviewStartSitting),
        KeyCode::Char('b') => Some(Action::ReviewOpenBrowse),
        KeyCode::Char('h') | KeyCode::Esc => Some(Action::Goto(ScreenKind::Home)),
        _ => None,
    }
}

/// The keys of the topic browser.
pub open spec fn review_browse_keys(code: KeyCode) -> Option<Action> {
    if code == KeyCode::Char('j') || code == KeyCode::Down {
        Some(Action::ReviewBrowseMove(1))
    } else if code == KeyCode::Char('k') || code == KeyCode::Up {
        Some(Action::ReviewBrowseMove((-1) as i32))
    } else if code == KeyCode::Char('G') {
        Some(Action::ReviewBrowseJumpEnd)
    } else if code == KeyCode::Enter || code == KeyCode::Char('l') {
        Some(Action::ReviewBrowseOpenDetail)
    } else if code == KeyCode::Char('s') {
        Some(Action::ReviewBrowseCycleSort)
    } else if code == KeyCode::Char(']') {
        Some(Action::ReviewBrowsePageNext)
    } else if code == KeyCode::Char('[') {
        Some(Action::ReviewBrowsePagePrev)
    } else if code == KeyCode::Char('h') || code == KeyCode::Esc {
        Some(Action::ReviewOpenDashboard)
    } else {
        None
    }
}

fn review_browse_key(code: KeyCode) -> (res: Option<Action>)
    ensures
        res == review_browse_keys(code),
{
    match code {
        KeyCode::Char('j') | KeyCode::Down => Some(Action::ReviewBrowseMove(1)),
        KeyCode::Char('k') | KeyCode::Up => Some(Action::ReviewBrowseMove(-1)),
        KeyCode::Char('G') => Some(Action::ReviewBrowseJumpEnd),
        KeyCode::Enter | KeyCode::Char('l') => Some(Action::ReviewBrowseOpenDetail),
        KeyCode::Char('s') => Some(Action::ReviewBrowseCycleSort),
        KeyCode::Char(']') => Some(Action::ReviewBrowsePageNext),
        KeyCode::Char('[') => Some(Action::ReviewBrowsePagePrev),
        KeyCode::Char('h') | KeyCode::Esc => Some(Action::ReviewOpenDashboard),
        _ => None,
    }
}

/// The keys of the list of drafts.
pub open spec fn inbox_list_keys(code: KeyCode) -> Option<Action> {
    if code == KeyCode::Char('j') || code == KeyCode::Down {
        Some(Action::InboxMove(1))
    } else if code == KeyCode::Char('k') || code == KeyCode::Up {
        Some(Action::InboxMove((-1) as i32))
    } else if code == KeyCode::Enter || code == KeyCode::Char('l') {
        Some(Action::InboxOpen)
    } else if code == KeyCode::Char('x') {
        Some(Action::InboxRejectBegin)
    } else if code == KeyCode::Char('a') {
        Some(Action::InboxAck)
    } else if code == KeyCode::Char('c') {
        Some(Action::Goto(ScreenKind::Connect))
    } else if code == KeyCode::Char('h') || code == KeyCode::Esc {
        Some(Action::Goto(ScreenKind::Home))
    } else {
        None
    }
}

fn inbox_list_key(code: KeyCode) -> (res: Option<Action>)
    ensures
        res == inbox_list_keys(code),
{
    match code {
        KeyCode::Char('j') | KeyCode::Down => Some(Action::InboxMove(1)),
        KeyCode::Char('k') | KeyCode::Up => Some(Action::InboxMove(-1)),
        KeyCode::Enter | KeyCode::Char('l') => Some(Action::InboxOpen),
        KeyCode::Char('x') => Some(Action::InboxRejectBegin),
        KeyCode::Char('a') => Some(Action::InboxAck),
        KeyCode::Char('c') => Some(Action::Goto(ScreenKind::Connect)),
        KeyCode::Char('h') | KeyCode::Esc => Some(Action::Goto(ScreenKind::Home)),
        _ => None,
    }
}

/// The keys of an opened draft.
pub open spec fn inbox_draft_keys(code: KeyCode) -> Option<Action> {
    if code == KeyCode::Enter {
        Some(Action::InboxAccept)
    } else if code == KeyCode::Char('J') || code == KeyCode::Char('j') || code == KeyCode::Down {
        Some(Action::InboxDraftStep(1))
    } else if code == KeyCode::Char('K') || code == KeyCode::Char('k') || code == KeyCode::Up {
        Some(Action::InboxDraftStep((-1) as i32))
    } else if code == KeyCode::Char('x') {
        Some(Action::InboxRejectBegin)
    } else if code == KeyCode::Char('a') {
        Some(Action::InboxAck)
    } else if code == KeyCode::Char('h') || code == KeyCode::Esc {
        Some(Action::InboxCloseDetail)
    } else {
        None
    }
}

fn inbox_draft_key(code: KeyCode) -> (res: Option<Action>)
    ensures
        res == inbox_draft_keys(code),
{
    match code {
        KeyCode::Enter => Some(Action::InboxAccept),
        KeyCode::Char('J') | KeyCode::Char('j') | KeyCode::Down => Some(Action::InboxDraftStep(1)),
        KeyCode::Char('K') | KeyCode::Char('k') | KeyCode::Up => Some(Action::InboxDraftStep(-1)),
        KeyCode::Char('x') => Some(Action::InboxRejectBegin),
        KeyCode::Char('a') => Some(Action::InboxAck),
        KeyCode::Char('h') | KeyCode::Esc => Some(Action::InboxCloseDetail),
        _ => None,
    }
}

/// The keys of the list of sources.
pub open spec fn connect_keys(code: KeyCode) -> Option<Action> {
    if code == KeyCode::Char('j') || code == KeyCode::Down {
        Some(Action::ConnectMove(1))
    } else if code == KeyCode::Char('k') || code == KeyCode::Up {
        Some(Action::ConnectMove((-1) as i32))
    } else if code == KeyCode::Char('c') {
        Some(Action::ConnectBegin)
    } else if code == KeyCode::Char('d') {
        Some(Action::ConnectDisconnectBegin)
    } else if code == KeyCode::Char('s') {
        Some(Action::ConnectSync)
    } else if code == KeyCode::Char('h') || code == KeyCode::Esc {
        Some(Action::Goto(ScreenKind::Inbox))
    } else {
        None
    }
}

fn connect_key(code: KeyCode) -> (res: Option<Action>)
    ensures
        res == connect_keys(code),
{
    match code {
        KeyCode::Char('j') | KeyCode::Down => Some(Action::ConnectMove(1)),
        KeyCode::Char('k') | KeyCode::Up => Some(Action::ConnectMove(-1)),
        KeyCode::Char('c') => Some(Action::ConnectBegin),
        KeyCode::Char('d') => Some(Action::ConnectDisconnectBegin),
        KeyCode::Char('s') => Some(Action::ConnectSync),
        KeyCode::Char('h') | KeyCode::Esc => Some(Action::Goto(ScreenKind::Inbox)),
        _ => None,
    }
}

/// The keys of the queue inspector.
pub open spec fn queue_keys(code: KeyCode) -> Option<Action> {
    if code == KeyCode::Char('j') || code == KeyCode::Down {
        Some(Action::QueueSelectMove(1))
    } else if code == KeyCode::Char('k') || code == KeyCode::Up {
        Some(Action::QueueSelectMove((-1) as i32))
    } else if code == KeyCode::Char('x') {
        Some(Action::QueueDropSelected)
    } else if code == KeyCode::Enter || code == KeyCode::Char('l') {
        Some(Action::QueueOpenReconcile)
    } else if code == KeyCode::Char('h') || code == KeyCode::Esc {
        Some(Action::Goto(ScreenKind::Home))
    } else {
        None
    }
}

fn queue_key(code: KeyCode) -> (res: Option<Action>)
    ensures
        res == queue_keys(code),
{
    match code {
        KeyCode::Char('j') | KeyCode::Down => Some(Action::QueueSelectMove(1)),
        KeyCode::Char('k') | KeyCode::Up => Some(Action::QueueSelectMove(-1)),
        KeyCode::Char('x') => Some(Action::QueueDropSelected),
        KeyCode::Enter | KeyCode::Char('l') => Some(Action::QueueOpenReconcile),
        KeyCode::Char('h') | KeyCode::Esc => Some(Action::Goto(ScreenKind::Home)),
        _ => None,
    }
}

/// The keys of the settings.
pub open spec fn settings_keys(code: KeyCode) -> Option<Action> {
    if code == KeyCode::Char('h') || code == KeyCode::Esc {
        Some(Action::Goto(ScreenKind::Home))
    } else {
        None
    }
}

fn settings_key(code: KeyCode) -> (res: Option<Action>)
    ensures
        res == settings_keys(code),
{
    match code {
        KeyCode::Char('h') | KeyCode::Esc => Some(Action::Goto(ScreenKind::Home)),
        _ => None,
    }
}

/// The keys of the segment audit.
pub open spec fn audit_keys(code: KeyCode) -> Option<Action> {
    if code == KeyCode::Char('j') || code == KeyCode::Down {
        Some(Action::AuditMove(1))
    } else if code == KeyCode::Char('k') || code == KeyCode::Up {
        Some(Action::AuditMove((-1) as i32))
    } else if code == KeyCode::Char('a') {
        Some(Action::AuditAcknowledge)
    } else if code == KeyCode::Char('t') {
        Some(Action::AuditTrim)
    } else if code == KeyCode::Char('d') {
        Some(Action::AuditDelete)
    } else if code == KeyCode::Char('f') {
        Some(Action::AuditFix)
    } else if code == KeyCode::Char('h') || code == KeyCode::Esc {
        Some(Action::Goto(ScreenKind::Progress))
    } else {
        None
    }
}

fn audit_key(code: KeyCode) -> (res: Option<Action>)
    ensures
        res == audit_keys(code),
{
    match code {
        KeyCode::Char('j') | KeyCode::Down => Some(Action::AuditMove(1)),
        KeyCode::Char('k') | KeyCode::Up => Some(Action::AuditMove(-1)),
        KeyCode::Char('a') => Some(Action::AuditAcknowledge),
        KeyCode::Char('t') => Some(Action::AuditTrim),
        KeyCode::Char('d') => Some(Action::AuditDelete),
        KeyCode::Char('f') => Some(Action::AuditFix),
        KeyCode::Char('h') | KeyCode::Esc => Some(Action::Goto(ScreenKind::Progress)),
        _ => None,
    }
}

/// The keys of the shelf: with control held, half a page at a time.
pub open spec fn shelf_keys(key: KeyEvent) -> Option<Action> {
    if key.code == KeyCode::Char('d') && key.modifiers.bits == 2 {
        Some(Action::BooksMove(10))
    } else if key.code == KeyCode::Char('u') && key.modifiers.bits == 2 {
        Some(Action::BooksMove((-10) as i32))
    } else {
        books_keys(key.code)
    }
}

fn shelf_key(key: KeyEvent) -> (res: Option<Action>)
    ensures
        res == shelf_keys(key),
{
    if key.modifiers.bits == 2 {
        match key.code {
            KeyCode::Char('d') => {
                return Some(Action::BooksMove(10));
            },
            KeyCode::Char('u') => {
                return Some(Action::BooksMove(-10));
            },
            _ => {},
        }
    }
    books_key(key.code)
}

/// The keys of the screen that is showing.
pub open spec fn screen_keys(screen: Screen, key: KeyEvent) -> Option<Action> {
    match screen {
        Screen::Login(_) => login_keys(key.code),
        Screen::Home(_) => home_keys(key.code),
        Screen::Books(_) => shelf_keys(key),
        Screen::BookDetail(_) => book_detail_keys(key.code),
        Screen::ActivityNew(_) => activity_normal_keys(key.code),
        Screen::Activities(_) => activities_keys(key.code),
        Screen::Progress(_) => progress_keys(key.code),
        Screen::Timer(_) => timer_keys(key.code),
        Screen::Notes(_) => notes_keys(key.code),
        Screen::Review(s) => match s.stage {
            review::Stage::Dashboard => review_dashboard_keys(key.code),
            review::Stage::Browse => review_browse_keys(key.code),
            review::Stage::Sitting => None,
        },
        Screen::Settings(_) => settings_keys(key.code),
        Screen::Audit(_) => audit_keys(key.code),
        Screen::Week(_) => week_keys(key.code),
        Screen::Inbox(s) => match s.stage {
            inbox::Stage::List => inbox_list_keys(key.code),
            inbox::Stage::Draft => inbox_draft_keys(key.code),
        },
        Screen::Connect(_) => connect_keys(key.code),
        Screen::Queue(_) => queue_keys(key.code),
    }
}

fn screen_key(screen: &Screen, key: KeyEvent) -> (res: Option<Action>)
    ensures
        res == screen_keys(*screen, key),
{
    match screen {
        Screen::Login(_) => login_key(key.code),
        Screen::Home(_) => home_key(key.code),
        Screen::Books(_) => shelf_key(key),
        Screen::BookDetail(_) => book_detail_key(key.code),
        Screen::ActivityNew(_) => activity_normal_key(key.code),
        Screen::Activities(_) => activities_key(key.code),
        Screen::Progress(_) => progress_key(key.code),
        Screen::Timer(_) => timer_key(key.code),
        Screen::Notes(_) => notes_key(key.code),
        Screen::Review(s) => match s.stage() {
            review::Stage::Dashboard => review_dashboard_key(key.code),
            review::Stage::Browse => review_browse_key(key.code),
            review::Stage::Sitting => None,
        },
        Screen::Settings(_) => settings_key(key.code),
        Screen::Audit(_) => audit_key(key.code),
        Screen::Week(_) => week_key(key.code),
        Screen::Inbox(s) => match s.stage() {
            inbox::Stage::List => inbox_list_key(key.code),
            inbox::Stage::Draft => inbox_draft_key(key.code),
        },
        Screen::Connect(_) => connect_key(key.code),
        Screen::Queue(_) => queue_key(key.code),
    }
}

/// The jump to the top of the list that is showing.
pub open spec fn jump_start(screen: Screen) -> Option<Action> {
    match screen {
        Screen::Books(_) => Some(Action::BooksJumpStart),
        Screen::Activities(_) => Some(Action::ActivitiesJumpStart),
        Screen::Notes(_) => Some(Action::NotesJumpStart),
        Screen::Review(s) => if s.stage == review::Stage::Browse {
            Some(Action::ReviewBrowseJumpStart)
        } else {
            None
        },
        _ => None,
    }
}

fn jump_start_for(screen: &Screen) -> (res: Option<Action>)
    ensures
        res == jump_start(*screen),
{
    match screen {
        Screen::Books(_) => Some(Action::BooksJumpStart),
        Screen::Activities(_) => Some(Action::ActivitiesJumpStart),
        Screen::Notes(_) => Some(Action::NotesJumpStart),
        Screen::Review(s) => match s.stage() {
            review::Stage::Browse => Some(Action::ReviewBrowseJumpStart),
            _ => None,
        },
        _ => None,
    }
}

/// The key that follows the goto prefix: a destination, or the top of the list.
pub open spec fn goto_keys(screen: Screen, code: KeyCode) -> Option<Action> {
    if code == KeyCode::Char('g') {
        jump_start(screen)
    } else {
        destination_keys(code)
    }
}

fn goto_key(screen: &Screen, code: KeyCode) -> (res: Option<Action>)
    ensures
        res == goto_keys(*screen, code),
{
    match code {
        KeyCode::Char('g') => jump_start_for(screen),
        _ => destination_key(code),
    }
}

/// What refreshing means on a screen: the queue retries instead of reading
/// again, and a screen without a refresh of its own refreshes home.
pub open spec fn refresh_of(kind: ScreenKind) -> Action {
    match kind {
        ScreenKind::Progress => Action::RefreshProgress,
        ScreenKind::Week => Action::RefreshWeek,
        ScreenKind::Timer => Action::TimerReload,
        ScreenKind::Notes => Action::RefreshNotes,
        ScreenKind::Activities => Action::RefreshActivities,
        ScreenKind::Review => Action::RefreshReview,
        ScreenKind::Inbox => Action::RefreshInbox,
        ScreenKind::Connect => Action::RefreshConnect,
        ScreenKind::Settings => Action::SettingsReload,
        ScreenKind::Audit => Action::AuditReload,
        ScreenKind::Queue => Action::QueueRetry,
        _ => Action::RefreshHome,
    }
}

/// What refreshing means on a screen.
pub fn refresh_for(kind: ScreenKind) -> (res: Action)
    ensures
        res == refresh_of(kind),
{
    match kind {
        ScreenKind::Progress => Action::RefreshProgress,
        ScreenKind::Week => Action::RefreshWeek,
        ScreenKind::Timer => Action::TimerReload,
        ScreenKind::Notes => Action::RefreshNotes,
        ScreenKind::Activities => Action::RefreshActivities,
        ScreenKind::Review => Action::RefreshReview,
        ScreenKind::Inbox => Action::RefreshInbox,
        ScreenKind::Connect => Action::RefreshConnect,
        ScreenKind::Settings => Action::SettingsReload,
        ScreenKind::Audit => Action::AuditReload,
        ScreenKind::Queue => Action::QueueRetry,
        _ => Action::RefreshHome,
    }
}

// ---- the order of the owners ----

/// What the open command line makes of a key.
pub open spec fn command_typed(
    pre: App,
    buf: Seq<char>,
    key: KeyEvent,
    post: App,
    res: Option<Action>,
) -> bool {
    match key.code {
        KeyCode::Esc => {
            post == App { command_buffer: None, ..pre } && res == Some(Action::CommandCancel)
        },
        KeyCode::Enter => post == pre && res == Some(Action::CommandSubmit),
        KeyCode::Tab => post.retyped(pre, completed(buf)) && res == Some(Action::CommandInput),
        KeyCode::Backspace => {
            &&& post.retyped(
                pre,
                if buf.len() > 0 {
                    buf.drop_last()
                } else {
                    buf
                },
            )
            &&& res == Some(Action::CommandBackspace)
        },
        KeyCode::Char(c) => {
            post.retyped(pre, buf.push(c)) && res == Some(Action::CommandInput)
        },
        _ => post == pre && res is None,
    }
}

/// What the global keymap makes of a key that nothing open has taken.
pub open spec fn globally(pre: App, key: KeyEvent, post: App, res: Option<Action>) -> bool {
    let bare = key.modifiers.bits == 0;
    if pre.notification is Some && key.code == KeyCode::Esc {
        post == pre && res == Some(Action::DismissNotification)
    } else if pre.leader_pending {
        post == App { leader_pending: false, ..pre } && res == leader_keys(key.code)
    } else if pre.goto_pending {
        post == App { goto_pending: false, ..pre } && res == goto_keys(pre.current, key.code)
    } else if key.code == KeyCode::Char(' ') {
        post == App { leader_pending: true, ..pre } && res is None
    } else if key.code == KeyCode::Char('g') && bare {
        post == App { goto_pending: true, ..pre } && res is None
    } else if key.code == KeyCode::Char(':') {
        post.retyped(pre, Seq::empty()) && res == Some(Action::CommandBegin)
    } else if key.code == KeyCode::Char('q') && bare {
        &&& post == pre
        &&& res == (if pre.current is Queue {
            Some(Action::Goto(ScreenKind::Home))
        } else {
            Some(Action::Quit)
        })
    } else if key.code == KeyCode::Char('?') {
        &&& post == pre
        &&& res is Some
        &&& notifies(
            res->0,
            Level::Info,
            "help: j/k move · gg/G top/bottom · g t/p/r goto · / search · : command · <Space> leader · q quit"@,
        )
    } else if key.code == KeyCode::Char('r') && bare {
        post == pre && res == Some(refresh_of(pre.current.sort()))
    } else {
        post == pre && res == screen_keys(pre.current, key)
    }
}

/// What a key press means: the command line owns it first, then the capture
/// overlay, the form being typed, the screen's own prompts, and last the global
/// keymap.
pub open spec fn pressed(pre: App, key: KeyEvent, post: App, res: Option<Action>) -> bool {
    match (pre.command_buffer, pre.capture) {
        (Some(buf), _) => command_typed(pre, buf@, key, post, res),
        (None, Some(cap)) => post == pre && res == cap.translated(key),
        (None, None) => if pre.current.key_mode() == ScreenMode::Insert {
            &&& post == pre
            &&& res == (if key.code == KeyCode::Esc {
                Some(Action::ActivityLeaveInsert)
            } else {
                Some(Action::ActivityKey(key))
            })
        } else {
            ||| {
                &&& res is Some
                &&& Screen::intercepted(pre.current, key, post.current, res)
                &&& post == App { current: post.current, ..pre }
            }
            ||| {
                &&& Screen::intercepted(pre.current, key, pre.current, None)
                &&& globally(pre, key, post, res)
            }
        },
    }
}

/// What an event means: only a key that goes down means anything.
pub open spec fn translated(pre: App, ev: Event, post: App, res: Option<Action>) -> bool {
    match ev {
        Event::Key { key, press } => if press {
            pressed(pre, key, post, res)
        } else {
            post == pre && res is None
        },
        Event::Other => post == pre && res is None,
    }
}

fn command_mode(app: &mut App, key: KeyEvent) -> (res: Option<Action>)
    requires
        old(app).command_buffer is Some,
    ensures
        command_typed(*old(app), old(app).command_buffer->0@, key, *final(app), res),
{
    match key.code {
        KeyCode::Esc => {
            app.command_buffer = None;
            Some(Action::CommandCancel)
        },
        KeyCode::Enter => Some(Action::CommandSubmit),
        KeyCode::Tab => {
            if let Some(b) = &mut app.command_buffer {
                *b = complete(b.as_str());
            }
            Some(Action::CommandInput)
        },
        KeyCode::Backspace => {
            if let Some(b) = &mut app.command_buffer {
                let _ = b.pop();
            }
            Some(Action::CommandBackspace)
        },
        KeyCode::Char(c) => {
            if let Some(b) = &mut app.command_buffer {
                b.push(c);
            }
            Some(Action::CommandInput)
        },
        _ => None,
    }
}

fn global_key(app: &mut App, key: KeyEvent) -> (res: Option<Action>)
    ensures
        globally(*old(app), key, *final(app), res),
{
    let bare = key.modifiers.bits == 0;
    if app.notification.is_some() && key.code == KeyCode::Esc {
        return Some(Action::DismissNotification);
    }
    if app.leader_pending {
        app.leader_pending = false;
        return leader_key(key.code);
    }
    if app.goto_pending {
        app.goto_pending = false;
        return goto_key(&app.current, key.code);
    }
    match key.code {
        KeyCode::Char(' ') => {
            app.leader_pending = true;
            None
        },
        KeyCode::Char(':') => {
            app.command_buffer = Some(String::new());
            Some(Action::CommandBegin)
        },
        KeyCode::Char('?') => Some(
            notice(
                Level::Info,
                own(
                    "help: j/k move · gg/G top/bottom · g t/p/r goto · / search · : command · <Space> leader · q quit",
                ),
            ),
        ),
        KeyCode::Char(c) => if c == 'g' && bare {
            app.goto_pending = true;
            None
        } else if c == 'q' && bare {
            match &app.current {
                Screen::Queue(_) => Some(Action::Goto(ScreenKind::Home)),
                _ => Some(Action::Quit),
            }
        } else if c == 'r' && bare {
            Some(refresh_for(app.current.kind()))
        } else {
            screen_key(&app.current, key)
        },
        _ => screen_key(&app.current, key),
    }
}

/// The action an event means, with what typing and prefixes leave behind.
pub fn translate(app: &mut App, ev: Event) -> (res: Option<Action>)
    ensures
        translated(*old(app), ev, *final(app), res),
        old(app).wf() ==> final(app).wf(),
{
    let key = match ev {
        Event::Key { key, press } => if press {
            key
        } else {
            return None;
        },
        Event::Other => {
            return None;
        },
    };
    if app.command_buffer.is_some() {
        return command_mode(app, key);
    }
    if let Some(cap) = &app.capture {
        return cap.translate(key);
    }
    if app.current.mode() == ScreenMode::Insert {
        return match key.code {
            KeyCode::Esc => Some(Action::ActivityLeaveInsert),
            _ => Some(Action::ActivityKey(key)),
        };
    }
    let taken = app.current.intercept_key(key);
    if taken.is_some() {
        return taken;
    }
    global_key(app, key)
}

// ---- laws ----

/// While the capture overlay is open every key is its own: no prefix arms, and
/// nothing of the shell changes.
pub proof fn the_overlay_owns_every_key(pre: App, ev: Event, post: App, res: Option<Action>)
    requires
        pre.capture is Some,
        pre.command_buffer is None,
        translated(pre, ev, post, res),
    ensures
        post == pre,
        res is Some ==> res == pre.capture->0.translated(ev->key),
        !(res == Some(Action::Quit)),
{
}

/// A board has the keys it takes: while it shows, and neither the command line nor
/// the overlay is open, such a key only reaches it. It does not quit, arm a prefix,
/// open the command line or take down a notice.
pub proof fn a_board_has_the_keys_it_takes(
    pre: App,
    key: KeyEvent,
    post: App,
    res: Option<Action>,
)
    requires
        pre.command_buffer is None,
        pre.capture is None,
        pre.current.board() matches Some(b) && b.takes(key),
        pressed(pre, key, post, res),
    ensures
        res == Some(Action::BoardKey(key)),
        post == pre,
{
}

/// A board that takes every key, as while it takes text, leaves none to the keymap.
pub proof fn a_board_that_takes_text_hides_the_keymap(
    pre: App,
    key: KeyEvent,
    post: App,
    res: Option<Action>,
)
    requires
        pre.command_buffer is None,
        pre.capture is None,
        pre.current.board() matches Some(b) && b.claims is Every,
        pressed(pre, key, post, res),
    ensures
        !(res == Some(Action::Quit)),
        !(res == Some(Action::CommandBegin)),
        post.leader_pending == pre.leader_pending,
        post.goto_pending == pre.goto_pending,
        post.command_buffer is None,
        res == Some(Action::BoardKey(key)),
{
}

/// A key that a board does not take means what the keymap says.
pub proof fn a_key_the_board_leaves_reaches_the_keymap(
    pre: App,
    key: KeyEvent,
    post: App,
    res: Option<Action>,
)
    requires
        pre.command_buffer is None,
        pre.capture is None,
        pre.current.board() matches Some(b) && !b.takes(key),
        pressed(pre, key, post, res),
    ensures
        globally(pre, key, post, res),
{
}

/// A notice on display takes Esc before the keymap does, where the screen has not
/// taken the key first.
pub proof fn esc_dismisses_a_notice_first(pre: App, key: KeyEvent, post: App, res: Option<Action>)
    requires
        pre.notification is Some,
        key.code == KeyCode::Esc,
        globally(pre, key, post, res),
    ensures
        res == Some(Action::DismissNotification),
        post == pre,
{
}

/// A prefix holds for one key: whatever follows it, it is no longer pending.
pub proof fn a_prefix_holds_for_one_key(pre: App, key: KeyEvent, post: App, res: Option<Action>)
    requires
        pre.leader_pending != pre.goto_pending,
        !(pre.notification is Some && key.code == KeyCode::Esc),
        globally(pre, key, post, res),
    ensures
        !post.leader_pending,
        !post.goto_pending,
        post.current == pre.current,
{
}

/// Every destination that the goto prefix reaches is a screen, and none of them
/// quits.
pub proof fn goto_goes_somewhere(code: KeyCode)
    ensures
        destination_keys(code) is Some ==> destination_keys(code)->0 is Goto,
{
}

/// On every screen the arrows mean what `j` and `k` mean.
pub proof fn the_arrows_move_as_j_and_k(screen: Screen, key: KeyEvent)
    ensures
        screen_keys(screen, KeyEvent { code: KeyCode::Down, ..key }) == screen_keys(
            screen,
            KeyEvent { code: KeyCode::Char('j'), ..key },
        ),
        screen_keys(screen, KeyEvent { code: KeyCode::Up, ..key }) == screen_keys(
            screen,
            KeyEvent { code: KeyCode::Char('k'), ..key },
        ),
{
}

/// `q` leaves the program everywhere but on the queue inspector, where it steps
/// home.
pub proof fn q_quits_but_on_the_queue(pre: App, key: KeyEvent, post: App, res: Option<Action>)
    requires
        !pre.leader_pending,
        !pre.goto_pending,
        key.code == KeyCode::Char('q'),
        key.modifiers.bits == 0,
        globally(pre, key, post, res),
    ensures
        pre.current.sort() == ScreenKind::Queue ==> res == Some(Action::Goto(ScreenKind::Home)),
        pre.current.sort() != ScreenKind::Queue ==> res == Some(Action::Quit),
{
}

/// A key on a screen that has nothing open means what that screen's keys say.
pub proof fn a_plain_key_is_the_screens_own(
    pre: App,
    key: KeyEvent,
    post: App,
    res: Option<Action>,
)
    requires
        !pre.leader_pending,
        !pre.goto_pending,
        pre.notification is None,
        key.code != KeyCode::Char(' '),
        key.code != KeyCode::Char('g'),
        key.code != KeyCode::Char(':'),
        key.code != KeyCode::Char('q'),
        key.code != KeyCode::Char('?'),
        key.code != KeyCode::Char('r'),
        globally(pre, key, post, res),
    ensures
        post == pre,
        res == screen_keys(pre.current, key),
{
}

/// The keys of the inbox. On the list `Enter` and `l` open the draft, on an opened draft
/// `Enter` accepts it; `a` acknowledges and `x` rejects on both.
pub proof fn the_inboxs_keys(s: inbox::Inbox, key: KeyEvent)
    ensures
        key.code == KeyCode::Char('a') ==> screen_keys(Screen::Inbox(s), key) == Some(
            Action::InboxAck,
        ),
        key.code == KeyCode::Char('x') ==> screen_keys(Screen::Inbox(s), key) == Some(
            Action::InboxRejectBegin,
        ),
        key.code == KeyCode::Enter && s.stage == inbox::Stage::Draft ==> screen_keys(
            Screen::Inbox(s),
            key,
        ) == Some(Action::InboxAccept),
        (key.code == KeyCode::Enter || key.code == KeyCode::Char('l')) && s.stage
            == inbox::Stage::List ==> screen_keys(Screen::Inbox(s), key) == Some(Action::InboxOpen),
        key.code == KeyCode::Char('j') ==> screen_keys(Screen::Inbox(s), key) == Some(
            if s.stage == inbox::Stage::List {
                Action::InboxMove(1)
            } else {
                Action::InboxDraftStep(1)
            },
        ),
        key.code == KeyCode::Char('k') ==> screen_keys(Screen::Inbox(s), key) == Some(
            if s.stage == inbox::Stage::List {
                Action::InboxMove((-1) as i32)
            } else {
                Action::InboxDraftStep((-1) as i32)
            },
        ),
        key.code == KeyCode::Char('c') && s.stage == inbox::Stage::List ==> screen_keys(
            Screen::Inbox(s),
            key,
        ) == Some(Action::Goto(ScreenKind::Connect)),
        key.code == KeyCode::Esc || key.code == KeyCode::Char('h') ==> screen_keys(
            Screen::Inbox(s),
            key,
        ) == Some(
            if s.stage == inbox::Stage::List {
                Action::Goto(ScreenKind::Home)
            } else {
                Action::InboxCloseDetail
            },
        ),
        screen_keys(Screen::Inbox(s), key) == Some(Action::InboxAccept) ==> s.stage
            == inbox::Stage::Draft,
{
}

/// The keys of the activities table: `c` completes, `a` archives, `d` duplicates, `t`
/// starts the timer, `f` turns the filter, the brackets turn the page.
pub proof fn the_activities_keys(screen: Screen, key: KeyEvent)
    requires
        screen is Activities,
    ensures
        key.code == KeyCode::Char('c') ==> screen_keys(screen, key) == Some(
            Action::ActivitiesComplete,
        ),
        key.code == KeyCode::Char('a') ==> screen_keys(screen, key) == Some(
            Action::ActivitiesArchive,
        ),
        key.code == KeyCode::Char('d') ==> screen_keys(screen, key) == Some(
            Action::ActivitiesDuplicate,
        ),
        key.code == KeyCode::Char('t') ==> screen_keys(screen, key) == Some(
            Action::ActivitiesStartTimer,
        ),
        key.code == KeyCode::Char('f') ==> screen_keys(screen, key) == Some(
            Action::ActivitiesCycleFilter,
        ),
        key.code == KeyCode::Char(']') ==> screen_keys(screen, key) == Some(
            Action::ActivitiesPageNext,
        ),
        key.code == KeyCode::Char('[') ==> screen_keys(screen, key) == Some(
            Action::ActivitiesPagePrev,
        ),
        key.code == KeyCode::Enter || key.code == KeyCode::Char('l') ==> screen_keys(screen, key)
            == Some(Action::ActivitiesOpenDetail),
        key.code == KeyCode::Char('j') ==> screen_keys(screen, key) == Some(
            Action::ActivitiesMove(1),
        ),
        key.code == KeyCode::Char('k') ==> screen_keys(screen, key) == Some(
            Action::ActivitiesMove((-1) as i32),
        ),
        key.code == KeyCode::Char('G') ==> screen_keys(screen, key) == Some(
            Action::ActivitiesJumpEnd,
        ),
        key.code == KeyCode::Char('h') ==> screen_keys(screen, key) == Some(
            Action::Goto(ScreenKind::Home),
        ),
{
}

/// The keys of the notes: `a` archives, `e` edits, `t` shows the archived ones, `Enter`
/// opens.
pub proof fn the_notes_keys(screen: Screen, key: KeyEvent)
    requires
        screen is Notes,
    ensures
        key.code == KeyCode::Char('a') ==> screen_keys(screen, key) == Some(
            Action::NotesArchiveSelected,
        ),
        key.code == KeyCode::Char('e') ==> screen_keys(screen, key) == Some(
            Action::NotesEditSelected,
        ),
        key.code == KeyCode::Char('t') ==> screen_keys(screen, key) == Some(
            Action::NotesToggleArchived,
        ),
        key.code == KeyCode::Char('c') ==> screen_keys(screen, key) == Some(Action::CaptureOpen),
        key.code == KeyCode::Enter || key.code == KeyCode::Char('l') ==> screen_keys(screen, key)
            == Some(Action::NotesOpenDetail),
        key.code == KeyCode::Char('j') ==> screen_keys(screen, key) == Some(Action::NotesMove(1)),
        key.code == KeyCode::Char('k') ==> screen_keys(screen, key) == Some(
            Action::NotesMove((-1) as i32),
        ),
        key.code == KeyCode::Char('G') ==> screen_keys(screen, key) == Some(Action::NotesJumpEnd),
        key.code == KeyCode::Char('h') ==> screen_keys(screen, key) == Some(
            Action::Goto(ScreenKind::Home),
        ),
{
}

/// The keys of progress: `e` adjusts, `x` retires, `n` declares, the brackets step the
/// week, `t` comes back to the current one, `Tab` turns the fold, `a` goes to the audit.
pub proof fn the_progress_keys(screen: Screen, key: KeyEvent)
    requires
        screen is Progress,
    ensures
        key.code == KeyCode::Char('e') ==> screen_keys(screen, key) == Some(
            Action::ProgressAdjustBegin,
        ),
        key.code == KeyCode::Char('x') ==> screen_keys(screen, key) == Some(
            Action::ProgressRetire,
        ),
        key.code == KeyCode::Char('n') ==> screen_keys(screen, key) == Some(
            Action::ProgressDeclareBegin,
        ),
        key.code == KeyCode::Char('[') ==> screen_keys(screen, key) == Some(
            Action::ProgressWeekStep((-1) as i32),
        ),
        key.code == KeyCode::Char(']') ==> screen_keys(screen, key) == Some(
            Action::ProgressWeekStep(1),
        ),
        key.code == KeyCode::Char('t') ==> screen_keys(screen, key) == Some(
            Action::ProgressWeekReset,
        ),
        key.code == KeyCode::Tab ==> screen_keys(screen, key) == Some(Action::ProgressFoldCycle),
        key.code == KeyCode::Char('a') ==> screen_keys(screen, key) == Some(
            Action::Goto(ScreenKind::Audit),
        ),
        key.code == KeyCode::Char('j') ==> screen_keys(screen, key) == Some(
            Action::ProgressSelectMove(1),
        ),
        key.code == KeyCode::Char('k') ==> screen_keys(screen, key) == Some(
            Action::ProgressSelectMove((-1) as i32),
        ),
        key.code == KeyCode::Esc || key.code == KeyCode::Char('h') ==> screen_keys(screen, key)
            == Some(Action::Goto(ScreenKind::Home)),
{
}

/// The keys of the review: from the dashboard `s` and `Enter` start a sitting and `b`
/// opens the catalogue, where `s` turns the order and the brackets turn the page.
pub proof fn the_reviews_keys(s: Box<review::Review>, key: KeyEvent)
    ensures
        s.stage == review::Stage::Dashboard && (key.code == KeyCode::Char('s') || key.code
            == KeyCode::Enter) ==> screen_keys(Screen::Review(s), key) == Some(
            Action::ReviewStartSitting,
        ),
        s.stage == review::Stage::Dashboard && key.code == KeyCode::Char('b') ==> screen_keys(
            Screen::Review(s),
            key,
        ) == Some(Action::ReviewOpenBrowse),
        s.stage == review::Stage::Browse && key.code == KeyCode::Char('s') ==> screen_keys(
            Screen::Review(s),
            key,
        ) == Some(Action::ReviewBrowseCycleSort),
        s.stage == review::Stage::Browse && key.code == KeyCode::Char(']') ==> screen_keys(
            Screen::Review(s),
            key,
        ) == Some(Action::ReviewBrowsePageNext),
        s.stage == review::Stage::Browse && key.code == KeyCode::Char('[') ==> screen_keys(
            Screen::Review(s),
            key,
        ) == Some(Action::ReviewBrowsePagePrev),
        s.stage == review::Stage::Browse && (key.code == KeyCode::Enter || key.code
            == KeyCode::Char('l')) ==> screen_keys(Screen::Review(s), key) == Some(
            Action::ReviewBrowseOpenDetail,
        ),
        s.stage == review::Stage::Browse && key.code == KeyCode::Char('j') ==> screen_keys(
            Screen::Review(s),
            key,
        ) == Some(Action::ReviewBrowseMove(1)),
        s.stage == review::Stage::Browse && key.code == KeyCode::Char('k') ==> screen_keys(
            Screen::Review(s),
            key,
        ) == Some(Action::ReviewBrowseMove((-1) as i32)),
        s.stage == review::Stage::Browse && (key.code == KeyCode::Esc || key.code == KeyCode::Char(
            'h',
        )) ==> screen_keys(Screen::Review(s), key) == Some(Action::ReviewOpenDashboard),
        s.stage == review::Stage::Sitting ==> screen_keys(Screen::Review(s), key) is None,
{
}

/// The keys of the shelf and of an opened book.
pub proof fn the_books_keys(screen: Screen, key: KeyEvent)
    ensures
        screen is Books && (key.code == KeyCode::Enter || key.code == KeyCode::Char('l'))
            ==> screen_keys(screen, key) == Some(Action::BooksOpen),
        screen is Books && key.code == KeyCode::Char('1') ==> screen_keys(screen, key) == Some(
            Action::BooksFilter(BooksFilter::All),
        ),
        screen is Books && key.code == KeyCode::Char('2') ==> screen_keys(screen, key) == Some(
            Action::BooksFilter(BooksFilter::Reading),
        ),
        screen is Books && key.code == KeyCode::Char('3') ==> screen_keys(screen, key) == Some(
            Action::BooksFilter(BooksFilter::Completed),
        ),
        screen is Books && key.code == KeyCode::Char('j') ==> screen_keys(screen, key) == Some(
            Action::BooksMove(1),
        ),
        screen is Books && key.code == KeyCode::Char('k') ==> screen_keys(screen, key) == Some(
            Action::BooksMove((-1) as i32),
        ),
        screen is Books && key.code == KeyCode::Char('G') ==> screen_keys(screen, key) == Some(
            Action::BooksJumpEnd,
        ),
        screen is Books && key.code == KeyCode::Char('d') && key.modifiers.bits == 2
            ==> screen_keys(screen, key) == Some(Action::BooksMove(10)),
        screen is Books && key.code == KeyCode::Char('u') && key.modifiers.bits == 2
            ==> screen_keys(screen, key) == Some(Action::BooksMove((-10) as i32)),
        screen is BookDetail && key.code == KeyCode::Char('p') ==> screen_keys(screen, key) == Some(
            Action::BeginEditPage,
        ),
        screen is BookDetail && key.code == KeyCode::Char('s') ==> screen_keys(screen, key) == Some(
            Action::BookStatusPicker,
        ),
        screen is BookDetail && key.code == KeyCode::Char('j') ==> screen_keys(screen, key) == Some(
            Action::ChapterMove(1),
        ),
        screen is BookDetail && key.code == KeyCode::Char('k') ==> screen_keys(screen, key) == Some(
            Action::ChapterMove((-1) as i32),
        ),
        screen is BookDetail && (key.code == KeyCode::Esc || key.code == KeyCode::Char('h'))
            ==> screen_keys(screen, key) == Some(Action::Goto(ScreenKind::Books)),
{
}

/// The keys of the sources, the queue and the audit.
pub proof fn the_other_lists_keys(screen: Screen, key: KeyEvent)
    ensures
        screen is Connect && key.code == KeyCode::Char('c') ==> screen_keys(screen, key) == Some(
            Action::ConnectBegin,
        ),
        screen is Connect && key.code == KeyCode::Char('d') ==> screen_keys(screen, key) == Some(
            Action::ConnectDisconnectBegin,
        ),
        screen is Connect && key.code == KeyCode::Char('s') ==> screen_keys(screen, key) == Some(
            Action::ConnectSync,
        ),
        screen is Connect && key.code == KeyCode::Char('j') ==> screen_keys(screen, key) == Some(
            Action::ConnectMove(1),
        ),
        screen is Connect && key.code == KeyCode::Char('k') ==> screen_keys(screen, key) == Some(
            Action::ConnectMove((-1) as i32),
        ),
        screen is Connect && key.code == KeyCode::Esc ==> screen_keys(screen, key) == Some(
            Action::Goto(ScreenKind::Inbox),
        ),
        screen is Queue && key.code == KeyCode::Char('x') ==> screen_keys(screen, key) == Some(
            Action::QueueDropSelected,
        ),
        screen is Queue && key.code == KeyCode::Enter ==> screen_keys(screen, key) == Some(
            Action::QueueOpenReconcile,
        ),
        screen is Queue && key.code == KeyCode::Char('j') ==> screen_keys(screen, key) == Some(
            Action::QueueSelectMove(1),
        ),
        screen is Queue && key.code == KeyCode::Char('k') ==> screen_keys(screen, key) == Some(
            Action::QueueSelectMove((-1) as i32),
        ),
        screen is Audit && key.code == KeyCode::Char('a') ==> screen_keys(screen, key) == Some(
            Action::AuditAcknowledge,
        ),
        screen is Audit && key.code == KeyCode::Char('t') ==> screen_keys(screen, key) == Some(
            Action::AuditTrim,
        ),
        screen is Audit && key.code == KeyCode::Char('d') ==> screen_keys(screen, key) == Some(
            Action::AuditDelete,
        ),
        screen is Audit && key.code == KeyCode::Char('f') ==> screen_keys(screen, key) == Some(
            Action::AuditFix,
        ),
        screen is Audit && key.code == KeyCode::Char('j') ==> screen_keys(screen, key) == Some(
            Action::AuditMove(1),
        ),
        screen is Audit && key.code == KeyCode::Char('k') ==> screen_keys(screen, key) == Some(
            Action::AuditMove((-1) as i32),
        ),
        screen is Audit && key.code == KeyCode::Esc ==> screen_keys(screen, key) == Some(
            Action::Goto(ScreenKind::Progress),
        ),
{
}

/// The keys of the two boards.
pub proof fn the_boards_keys(screen: Screen, key: KeyEvent)
    ensures
        screen is Timer && key.code == KeyCode::Char('s') ==> screen_keys(screen, key) == Some(
            Action::TimerSave,
        ),
        screen is Timer && key.code == KeyCode::Char('p') ==> screen_keys(screen, key) == Some(
            Action::TimerPauseResume,
        ),
        screen is Timer && key.code == KeyCode::Char('x') ==> screen_keys(screen, key) == Some(
            Action::TimerStop,
        ),
        screen is Timer && key.code == KeyCode::Char('d') ==> screen_keys(screen, key) == Some(
            Action::TimerDiscard,
        ),
        screen is Timer && key.code == KeyCode::Char('/') ==> screen_keys(screen, key) == Some(
            Action::TimerBindBegin,
        ),
        screen is Timer && key.code == KeyCode::Char('b') ==> screen_keys(screen, key) == Some(
            Action::TimerBreak,
        ),
        screen is Timer && key.code == KeyCode::Char('u') ==> screen_keys(screen, key) == Some(
            Action::TimerUndo,
        ),
        screen is Timer && key.code == KeyCode::Char('m') ==> screen_keys(screen, key) == Some(
            Action::TimerModeSwitch,
        ),
        screen is Timer && key.code == KeyCode::Char('n') ==> screen_keys(screen, key) == Some(
            Action::TimerSkipInterval,
        ),
        screen is Timer && key.code == KeyCode::Char('i') ==> screen_keys(screen, key) == Some(
            Action::TimerToggleRail,
        ),
        screen is Timer && key.code == KeyCode::Enter ==> screen_keys(screen, key) == Some(
            Action::TimerDismissStopped,
        ),
        screen is Week && key.code == KeyCode::Char('a') ==> screen_keys(screen, key) == Some(
            Action::WeekAddBegin,
        ),
        screen is Week && key.code == KeyCode::Char('e') ==> screen_keys(screen, key) == Some(
            Action::WeekAdjustBegin,
        ),
        screen is Week && key.code == KeyCode::Char('d') ==> screen_keys(screen, key) == Some(
            Action::WeekDrop,
        ),
        screen is Week && key.code == KeyCode::Char('s') ==> screen_keys(screen, key) == Some(
            Action::WeekStartTimer,
        ),
        screen is Week && key.code == KeyCode::Char('i') ==> screen_keys(screen, key) == Some(
            Action::WeekReflect,
        ),
        screen is Week && key.code == KeyCode::Char('[') ==> screen_keys(screen, key) == Some(
            Action::WeekStep((-1) as i32),
        ),
        screen is Week && key.code == KeyCode::Char(']') ==> screen_keys(screen, key) == Some(
            Action::WeekStep(1),
        ),
        screen is Week && key.code == KeyCode::Char('t') ==> screen_keys(screen, key) == Some(
            Action::WeekReset,
        ),
        screen is Week && key.code == KeyCode::Char('j') ==> screen_keys(screen, key) == Some(
            Action::WeekSelectMove(1),
        ),
        screen is Week && key.code == KeyCode::Char('k') ==> screen_keys(screen, key) == Some(
            Action::WeekSelectMove((-1) as i32),
        ),
{
}

/// The keys of home, of the form and of the sign-in.
pub proof fn the_first_screens_keys(screen: Screen, key: KeyEvent)
    ensures
        screen is Home && key.code == KeyCode::Char('t') ==> screen_keys(screen, key) == Some(
            Action::Goto(ScreenKind::Timer),
        ),
        screen is Home && key.code == KeyCode::Char('a') ==> screen_keys(screen, key) == Some(
            Action::Goto(ScreenKind::ActivityNew),
        ),
        screen is Home && key.code == KeyCode::Char('A') ==> screen_keys(screen, key) == Some(
            Action::Goto(ScreenKind::Activities),
        ),
        screen is Home && key.code == KeyCode::Char('R') ==> screen_keys(screen, key) == Some(
            Action::Goto(ScreenKind::Review),
        ),
        screen is Home && key.code == KeyCode::Char('b') ==> screen_keys(screen, key) == Some(
            Action::Goto(ScreenKind::Books),
        ),
        screen is Home && key.code == KeyCode::Char('p') ==> screen_keys(screen, key) == Some(
            Action::Goto(ScreenKind::Progress),
        ),
        screen is Home && key.code == KeyCode::Char('n') ==> screen_keys(screen, key) == Some(
            Action::Goto(ScreenKind::Notes),
        ),
        screen is Home && key.code == KeyCode::Char('i') ==> screen_keys(screen, key) == Some(
            Action::Goto(ScreenKind::Inbox),
        ),
        screen is Home && key.code == KeyCode::Char('c') ==> screen_keys(screen, key) == Some(
            Action::CaptureOpen,
        ),
        screen is ActivityNew && key.code == KeyCode::Char('j') ==> screen_keys(screen, key)
            == Some(Action::ActivityFieldNext),
        screen is ActivityNew && key.code == KeyCode::Char('k') ==> screen_keys(screen, key)
            == Some(Action::ActivityFieldPrev),
        screen is ActivityNew && (key.code == KeyCode::Char('i') || key.code == KeyCode::Enter)
            ==> screen_keys(screen, key) == Some(Action::ActivityEnterInsert),
        screen is ActivityNew && key.code == KeyCode::Esc ==> screen_keys(screen, key) == Some(
            Action::Goto(ScreenKind::Home),
        ),
        screen is Login && (key.code == KeyCode::Enter || key.code == KeyCode::Char('l'))
            ==> screen_keys(screen, key) == Some(Action::Login),
{
}

/// The prefixes: after the leader and after `g` each key has its own destination.
pub proof fn the_prefixes_destinations(screen: Screen)
    ensures
        leader_keys(KeyCode::Char('1')) == Some(Action::Goto(ScreenKind::Home)),
        leader_keys(KeyCode::Char('2')) == Some(Action::Goto(ScreenKind::Books)),
        leader_keys(KeyCode::Char('3')) == Some(Action::Goto(ScreenKind::Progress)),
        leader_keys(KeyCode::Char('t')) == Some(Action::Goto(ScreenKind::Timer)),
        leader_keys(KeyCode::Char('a')) == Some(Action::Goto(ScreenKind::ActivityNew)),
        leader_keys(KeyCode::Char('A')) == Some(Action::Goto(ScreenKind::Activities)),
        leader_keys(KeyCode::Char('R')) == Some(Action::Goto(ScreenKind::Review)),
        leader_keys(KeyCode::Char('n')) == Some(Action::Goto(ScreenKind::Notes)),
        leader_keys(KeyCode::Char('c')) == Some(Action::CaptureOpen),
        leader_keys(KeyCode::Char('s')) == Some(Action::ActivitySubmit),
        goto_keys(screen, KeyCode::Char('t')) == Some(Action::Goto(ScreenKind::Timer)),
        goto_keys(screen, KeyCode::Char('p')) == Some(Action::Goto(ScreenKind::Progress)),
        goto_keys(screen, KeyCode::Char('w')) == Some(Action::Goto(ScreenKind::Week)),
        goto_keys(screen, KeyCode::Char('r')) == Some(Action::Goto(ScreenKind::Review)),
        goto_keys(screen, KeyCode::Char('i')) == Some(Action::Goto(ScreenKind::Inbox)),
        goto_keys(screen, KeyCode::Char('q')) == Some(Action::Goto(ScreenKind::Queue)),
        goto_keys(screen, KeyCode::Char('h')) == Some(Action::Goto(ScreenKind::Home)),
        goto_keys(screen, KeyCode::Char('b')) == Some(Action::Goto(ScreenKind::Books)),
        goto_keys(screen, KeyCode::Char('n')) == Some(Action::Goto(ScreenKind::Notes)),
        goto_keys(screen, KeyCode::Char('a')) == Some(Action::Goto(ScreenKind::Activities)),
        screen is Books ==> goto_keys(screen, KeyCode::Char('g')) == Some(Action::BooksJumpStart),
        screen is Activities ==> goto_keys(screen, KeyCode::Char('g')) == Some(
            Action::ActivitiesJumpStart,
        ),
        screen is Notes ==> goto_keys(screen, KeyCode::Char('g')) == Some(Action::NotesJumpStart),
{
}

/// `r` reads again what the screen shows; on the queue it replays instead.
pub proof fn a_refresh_is_the_screens_own(pre: App, key: KeyEvent, post: App, res: Option<Action>)
    requires
        !pre.leader_pending,
        !pre.goto_pending,
        key.code == KeyCode::Char('r'),
        key.modifiers.bits == 0,
        globally(pre, key, post, res),
    ensures
        post == pre,
        pre.current is Home ==> res == Some(Action::RefreshHome),
        pre.current is Progress ==> res == Some(Action::RefreshProgress),
        pre.current is Notes ==> res == Some(Action::RefreshNotes),
        pre.current is Week ==> res == Some(Action::RefreshWeek),
        pre.current is Timer ==> res == Some(Action::TimerReload),
        pre.current is Activities ==> res == Some(Action::RefreshActivities),
        pre.current is Review ==> res == Some(Action::RefreshReview),
        pre.current is Inbox ==> res == Some(Action::RefreshInbox),
        pre.current is Connect ==> res == Some(Action::RefreshConnect),
        pre.current is Queue ==> res == Some(Action::QueueRetry),
        pre.current is Settings ==> res == Some(Action::SettingsReload),
        pre.current is Audit ==> res == Some(Action::AuditReload),
{
}

/// What is typed on the command line stands on it, letter by letter; backspace takes the
/// last one back, `Enter` submits what stands there and `Esc` drops it.
pub proof fn the_command_line_takes_every_letter(
    pre: App,
    buf: String,
    key: KeyEvent,
    post: App,
    res: Option<Action>,
)
    requires
        pre.command_buffer == Some(buf),
        pressed(pre, key, post, res),
    ensures
        key.code matches KeyCode::Char(c) ==> post.command_buffer is Some
            && post.command_buffer->0@ == buf@.push(key.code->0),
        key.code == KeyCode::Backspace && buf@.len() > 0 ==> post.command_buffer is Some
            && post.command_buffer->0@ == buf@.drop_last(),
        key.code == KeyCode::Enter ==> res == Some(Action::CommandSubmit) && post == pre,
        key.code == KeyCode::Esc ==> res == Some(Action::CommandCancel) && post.command_buffer
            is None,
        key.code == KeyCode::Tab ==> post.command_buffer is Some && post.command_buffer->0@
            == completed(buf@),
        res != Some(Action::Quit),
        post.current == pre.current,
{
}

/// While the form takes text every key goes to it, and only `Esc` leaves: no key of the
/// keymap acts.
pub proof fn a_form_that_takes_text_has_every_key(
    pre: App,
    key: KeyEvent,
    post: App,
    res: Option<Action>,
)
    requires
        pre.command_buffer is None,
        pre.capture is None,
        pre.current matches Screen::ActivityNew(s) && s.mode == ScreenMode::Insert,
        pressed(pre, key, post, res),
    ensures
        key.code == KeyCode::Esc ==> res == Some(Action::ActivityLeaveInsert),
        key.code != KeyCode::Esc ==> res == Some(Action::ActivityKey(key)),
        post == pre,
{
}

/// The command line comes before the overlay, the overlay before the screen, and a screen's
/// own keys before the keymap.
pub proof fn the_order_that_keys_are_offered_in(
    pre: App,
    key: KeyEvent,
    post: App,
    res: Option<Action>,
)
    requires
        pressed(pre, key, post, res),
    ensures
        pre.command_buffer is Some ==> post.capture == pre.capture && post.current == pre.current,
        pre.command_buffer is None && pre.capture is Some ==> res == pre.capture->0.translated(key)
            && post == pre,
        pre.command_buffer is None && pre.capture is None && (
        pre.current matches Screen::Inbox(s) && s.intercepted(key) is Some) ==> res
            == pre.current->Inbox_0.intercepted(key),
        pre.command_buffer is None && pre.capture is None && (
        pre.current matches Screen::Progress(s) && s.intercepted(key) is Some) ==> res
            == pre.current->Progress_0.intercepted(key),
        pre.command_buffer is None && pre.capture is None && (
        pre.current matches Screen::Connect(s) && s.intercepted(key) is Some) ==> res
            == pre.current->Connect_0.intercepted(key),
        pre.command_buffer is None && pre.capture is None && (
        pre.current matches Screen::BookDetail(s) && s.intercepted(key) is Some) ==> res
            == pre.current->BookDetail_0.intercepted(key),
{
}

/// Only a press counts: a key held or let go, and what is no key, means nothing.
pub proof fn only_a_press_counts(pre: App, ev: Event, post: App, res: Option<Action>)
    requires
        !(ev is Key) || !ev->press,
        translated(pre, ev, post, res),
    ensures
        res is None,
        post == pre,
{
}

/// The prefixes are armed by their own keys, and by no other.
pub proof fn what_arms_a_prefix(pre: App, key: KeyEvent, post: App, res: Option<Action>)
    requires
        !pre.leader_pending,
        !pre.goto_pending,
        !(pre.notification is Some && key.code == KeyCode::Esc),
        globally(pre, key, post, res),
    ensures
        post.leader_pending <==> key.code == KeyCode::Char(' '),
        post.goto_pending <==> key.code == KeyCode::Char('g') && key.modifiers.bits == 0,
        key.code == KeyCode::Char(':') ==> res == Some(Action::CommandBegin)
            && post.command_buffer is Some && post.command_buffer->0@.len() == 0,
        post.current == pre.current,
{
}

} // verus!
