//! The secondary windows: which of them are open, and what opening or
//! closing one comes to. The windows themselves belong to the caller.

use vstd::prelude::*;
use crate::text::{decimal_of, joined, push_char, push_decimal};

verus! {

/// The secondary windows.
#[derive(Clone, Copy, Debug, PartialEq, Eq, Structural)]
pub enum WindowKind {
    Settings,
    NewProject,
    EditProject,
}

/// Which of the secondary windows are open.
#[derive(Clone, Copy, Debug, PartialEq, Eq, Structural)]
pub struct AppState {
    pub settings_window_open: bool,
    pub new_project_window_open: bool,
    pub edit_project_window_open: bool,
}

/// A window to create: centred, resizable, with decorations, and not kept
/// on top.
#[derive(Debug, PartialEq)]
pub struct WindowSpec {
    pub label: String,
    /// The page to show, relative to the pages of the launcher.
    pub url: String,
    pub title: String,
    pub width: u32,
    pub height: u32,
    pub min_width: u32,
    pub min_height: u32,
}

/// The mathematical content of a [`WindowSpec`].
pub struct WindowSpecView {
    pub label: Seq<char>,
    pub url: Seq<char>,
    pub title: Seq<char>,
    pub width: u32,
    pub height: u32,
    pub min_width: u32,
    pub min_height: u32,
}

impl View for WindowSpec {
    type V = WindowSpecView;

    open spec fn view(&self) -> WindowSpecView {
        WindowSpecView {
            label: self.label@,
            url: self.url@,
            title: self.title@,
            width: self.width,
            height: self.height,
            min_width: self.min_width,
            min_height: self.min_height,
        }
    }
}

/// How a window is brought up.
#[derive(Debug, PartialEq)]
pub enum OpenStep {
    /// The window exists: show it and give it the focus.
    Show,
    /// The window does not exist: create it.
    Create(WindowSpec),
}

/// What opening a window comes to.
#[derive(Debug, PartialEq)]
pub struct OpenPlan {
    /// How many windows of the label are to be closed first, so that one is
    /// left.
    pub close_surplus: usize,
    pub step: OpenStep,
}

/// Why a window was not closed.
#[derive(Clone, Copy, Debug, PartialEq, Eq, Structural)]
pub enum WindowError {
    /// There is no such window.
    NotFound,
}

/// What happened to a window, or what failed to happen.
#[derive(Clone, Copy, Debug, PartialEq, Eq, Structural)]
pub enum WindowEvent {
    Shown,
    Created,
    Closed,
    Missing,
}

/// The label of a window.
pub open spec fn label_of(kind: WindowKind) -> Seq<char> {
    match kind {
        WindowKind::Settings => "settings"@,
        WindowKind::NewProject => "new_project"@,
        WindowKind::EditProject => "edit_project"@,
    }
}

/// The decimal numeral of an integer, with a minus sign where it is
/// negative.
pub open spec fn signed_decimal_of(n: int) -> Seq<char> {
    if n < 0 {
        seq!['-'] + decimal_of((-n) as nat)
    } else {
        decimal_of(n as nat)
    }
}

/// The page of a window. The page for editing carries the identifier of
/// the entry that is edited.
pub open spec fn url_of(kind: WindowKind, app_id: i64) -> Seq<char> {
    match kind {
        WindowKind::Settings => "settings.html"@,
        WindowKind::NewProject => "new-project.html"@,
        WindowKind::EditProject => "edit-project.html?id="@ + signed_decimal_of(app_id as int),
    }
}

/// The title of a window.
pub open spec fn title_of(kind: WindowKind) -> Seq<char> {
    match kind {
        WindowKind::Settings => "设置"@,
        WindowKind::NewProject => "新建项目"@,
        WindowKind::EditProject => "编辑项目"@,
    }
}

/// The window to create for a kind.
pub open spec fn window_spec_of(kind: WindowKind, app_id: i64) -> WindowSpecView {
    match kind {
        WindowKind::Settings => WindowSpecView {
            label: label_of(kind),
            url: url_of(kind, app_id),
            title: title_of(kind),
            width: 800,
            height: 600,
            min_width: 600,
            min_height: 450,
        },
        _ => WindowSpecView {
            label: label_of(kind),
            url: url_of(kind, app_id),
            title: title_of(kind),
            width: 600,
            height: 500,
            min_width: 500,
            min_height: 400,
        },
    }
}

/// What is reported of a window.
pub open spec fn window_message_of(kind: WindowKind, event: WindowEvent) -> Seq<char> {
    title_of(kind) + (match event {
        WindowEvent::Shown => "窗口已打开"@,
        WindowEvent::Created => "窗口已创建"@,
        WindowEvent::Closed => "窗口已关闭"@,
        WindowEvent::Missing => "窗口不存在"@,
    })
}

impl AppState {
    /// The state at start: no secondary window is open.
    pub fn new() -> (state: AppState)
        ensures
            state == (AppState {
                settings_window_open: false,
                new_project_window_open: false,
                edit_project_window_open: false,
            }),
    {
        AppState {
            settings_window_open: false,
            new_project_window_open: false,
            edit_project_window_open: false,
        }
    }

    /// Whether a window is recorded as open.
    pub open spec fn flag(self, kind: WindowKind) -> bool {
        match kind {
            WindowKind::Settings => self.settings_window_open,
            WindowKind::NewProject => self.new_project_window_open,
            WindowKind::EditProject => self.edit_project_window_open,
        }
    }

    /// The state with the record of one window changed.
    pub open spec fn with_flag(self, kind: WindowKind, open: bool) -> AppState {
        match kind {
            WindowKind::Settings => AppState { settings_window_open: open, ..self },
            WindowKind::NewProject => AppState { new_project_window_open: open, ..self },
            WindowKind::EditProject => AppState { edit_project_window_open: open, ..self },
        }
    }

    /// Whether a window is recorded as open.
    pub fn is_window_open(&self, kind: WindowKind) -> (open: bool)
        ensures
            open == self.flag(kind),
    {
        match kind {
            WindowKind::Settings => self.settings_window_open,
            WindowKind::NewProject => self.new_project_window_open,
            WindowKind::EditProject => self.edit_project_window_open,
        }
    }

    /// Records that a window was shown or created.
    pub fn window_opened(&mut self, kind: WindowKind)
        ensures
            *final(self) == old(self).with_flag(kind, true),
    {
        match kind {
            WindowKind::Settings => {
                self.settings_window_open = true;
            },
            WindowKind::NewProject => {
                self.new_project_window_open = true;
            },
            WindowKind::EditProject => {
                self.edit_project_window_open = true;
            },
        }
    }

    /// Records that a window was closed, by a command or by the user.
    pub fn window_closed(&mut self, kind: WindowKind)
        ensures
            *final(self) == old(self).with_flag(kind, false),
    {
        match kind {
            WindowKind::Settings => {
                self.settings_window_open = false;
            },
            WindowKind::NewProject => {
                self.new_project_window_open = false;
            },
            WindowKind::EditProject => {
                self.edit_project_window_open = false;
            },
        }
    }
}

/// The label of a window.
pub fn window_label(kind: WindowKind) -> (label: &'static str)
    ensures
        label@ == label_of(kind),
{
    match kind {
        WindowKind::Settings => "settings",
        WindowKind::NewProject => "new_project",
        WindowKind::EditProject => "edit_project",
    }
}

/// The title of a window.
pub fn window_title(kind: WindowKind) -> (title: &'static str)
    ensures
        title@ == title_of(kind),
{
    match kind {
        WindowKind::Settings => "设置",
        WindowKind::NewProject => "新建项目",
        WindowKind::EditProject => "编辑项目",
    }
}

/// The page of a window.
pub fn window_url(kind: WindowKind, app_id: i64) -> (url: String)
    ensures
        url@ == url_of(kind, app_id),
{
    match kind {
        WindowKind::Settings => "settings.html".to_owned(),
        WindowKind::NewProject => "new-project.html".to_owned(),
        WindowKind::EditProject => {
            let mut url = "edit-project.html?id=".to_owned();
            if app_id < 0 {
                push_char(&mut url, '-');
                push_decimal(&mut url, (-(app_id as i128)) as u128);
                assert(url@ =~= "edit-project.html?id="@ + signed_decimal_of(app_id as int));
            } else {
                push_decimal(&mut url, app_id as u128);
            }
            url
        },
    }
}

/// What opening a window comes to, when `existing` windows have its label:
/// all but one of them are closed; the one that is left is shown, and where
/// none is left a new one is created. The page for editing is opened for
/// the entry `app_id`; the other pages take no entry.
pub fn open_window(kind: WindowKind, app_id: i64, existing: usize) -> (plan: OpenPlan)
    ensures
        plan.close_surplus == (if existing > 1 {
            existing - 1
        } else {
            0
        }),
        existing >= 1 ==> plan.step == OpenStep::Show,
        existing == 0 ==> (plan.step matches OpenStep::Create(spec) && spec@ == window_spec_of(
            kind,
            app_id,
        )),
{
    if existing >= 1 {
        return OpenPlan { close_surplus: existing - 1, step: OpenStep::Show };
    }
    let (width, height, min_width, min_height): (u32, u32, u32, u32) = match kind {
        WindowKind::Settings => (800, 600, 600, 450),
        _ => (600, 500, 500, 400),
    };
    let spec = WindowSpec {
        label: window_label(kind).to_owned(),
        url: window_url(kind, app_id),
        title: window_title(kind).to_owned(),
        width,
        height,
        min_width,
        min_height,
    };
    OpenPlan { close_surplus: 0, step: OpenStep::Create(spec) }
}

/// Whether a window can be closed: only one that exists.
pub fn close_window(exists: bool) -> (r: Result<(), WindowError>)
    ensures
        r == (if exists {
            Ok::<(), WindowError>(())
        } else {
            Err(WindowError::NotFound)
        }),
{
    if exists {
        Ok(())
    } else {
        Err(WindowError::NotFound)
    }
}

/// What is reported of a window.
pub fn window_message(kind: WindowKind, event: WindowEvent) -> (text: String)
    ensures
        text@ == window_message_of(kind, event),
{
    let tail = match event {
        WindowEvent::Shown => "窗口已打开",
        WindowEvent::Created => "窗口已创建",
        WindowEvent::Closed => "窗口已关闭",
        WindowEvent::Missing => "窗口不存在",
    };
    joined(window_title(kind), tail)
}

/// Opening a window and closing it again leaves the record as it was when
/// the window was closed before, and records of other windows are never
/// touched.
pub proof fn lemma_window_flags(state: AppState, kind: WindowKind, other: WindowKind)
    ensures
        state.with_flag(kind, true).flag(kind),
        !state.with_flag(kind, false).flag(kind),
        state.with_flag(kind, true).with_flag(kind, false) == state.with_flag(kind, false),
        other != kind ==> state.with_flag(kind, true).flag(other) == state.flag(other),
        other != kind ==> state.with_flag(kind, false).flag(other) == state.flag(other),
{
}

} // verus!
