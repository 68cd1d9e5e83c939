use lora_launcher::window_manager::{
    close_window, open_window, window_label, window_message, window_title, window_url, AppState,
    OpenPlan, OpenStep, WindowError, WindowEvent, WindowKind, WindowSpec,
};

#[test]
fn no_window_is_open_at_start() {
    let state = AppState::new();
    assert!(!state.is_window_open(WindowKind::Settings));
    assert!(!state.is_window_open(WindowKind::NewProject));
    assert!(!state.is_window_open(WindowKind::EditProject));
}

#[test]
fn windows_are_recorded_one_by_one() {
    let mut state = AppState::new();
    state.window_opened(WindowKind::NewProject);
    assert_eq!(
        state,
        AppState {
            settings_window_open: false,
            new_project_window_open: true,
            edit_project_window_open: false
        }
    );
    state.window_opened(WindowKind::Settings);
    state.window_closed(WindowKind::NewProject);
    assert!(state.is_window_open(WindowKind::Settings));
    assert!(!state.is_window_open(WindowKind::NewProject));
    state.window_closed(WindowKind::Settings);
    state.window_closed(WindowKind::EditProject);
    assert_eq!(state, AppState::new());
}

#[test]
fn an_existing_window_is_shown() {
    assert_eq!(
        open_window(WindowKind::Settings, 0, 1),
        OpenPlan { close_surplus: 0, step: OpenStep::Show }
    );
    assert_eq!(
        open_window(WindowKind::EditProject, 7, 3),
        OpenPlan { close_surplus: 2, step: OpenStep::Show }
    );
}

#[test]
fn a_missing_settings_window_is_created() {
    assert_eq!(
        open_window(WindowKind::Settings, 0, 0),
        OpenPlan {
            close_surplus: 0,
            step: OpenStep::Create(WindowSpec {
                label: "settings".to_string(),
                url: "settings.html".to_string(),
                title: "设置".to_string(),
                width: 800,
                height: 600,
                min_width: 600,
                min_height: 450,
            })
        }
    );
}

#[test]
fn a_missing_project_window_is_created() {
    assert_eq!(
        open_window(WindowKind::NewProject, 99, 0).step,
        OpenStep::Create(WindowSpec {
            label: "new_project".to_string(),
            url: "new-project.html".to_string(),
            title: "新建项目".to_string(),
            width: 600,
            height: 500,
            min_width: 500,
            min_height: 400,
        })
    );
    assert_eq!(
        open_window(WindowKind::EditProject, 1730000000123, 0).step,
        OpenStep::Create(WindowSpec {
            label: "edit_project".to_string(),
            url: "edit-project.html?id=1730000000123".to_string(),
            title: "编辑项目".to_string(),
            width: 600,
            height: 500,
            min_width: 500,
            min_height: 400,
        })
    );
}

#[test]
fn pages_of_the_windows() {
    assert_eq!(window_url(WindowKind::EditProject, 0), "edit-project.html?id=0");
    assert_eq!(window_url(WindowKind::EditProject, -42), "edit-project.html?id=-42");
    assert_eq!(
        window_url(WindowKind::EditProject, i64::MIN),
        "edit-project.html?id=-9223372036854775808"
    );
    assert_eq!(
        window_url(WindowKind::EditProject, i64::MAX),
        "edit-project.html?id=9223372036854775807"
    );
    assert_eq!(window_url(WindowKind::Settings, 5), "settings.html");
    assert_eq!(window_label(WindowKind::NewProject), "new_project");
    assert_eq!(window_title(WindowKind::EditProject), "编辑项目");
}

#[test]
fn only_an_existing_window_is_closed() {
    assert_eq!(close_window(true), Ok(()));
    assert_eq!(close_window(false), Err(WindowError::NotFound));
}

#[test]
fn window_messages() {
    assert_eq!(window_message(WindowKind::Settings, WindowEvent::Shown), "设置窗口已打开");
    assert_eq!(window_message(WindowKind::Settings, WindowEvent::Created), "设置窗口已创建");
    assert_eq!(window_message(WindowKind::NewProject, WindowEvent::Closed), "新建项目窗口已关闭");
    assert_eq!(window_message(WindowKind::EditProject, WindowEvent::Missing), "编辑项目窗口不存在");
}
