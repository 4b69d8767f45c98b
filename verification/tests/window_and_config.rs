use druid_shell::app::AppLauncher;
use druid_shell::app::PendingWindow;
use druid_shell::app::WindowDesc;
use druid_shell::config::WindowBuilder;
use druid_shell::config::WindowCommand;
use druid_shell::config::WindowConfig;
use druid_shell::config::WindowSizePolicy;
use druid_shell::geometry::content_insets_from;
use druid_shell::geometry::point_or_origin;
use druid_shell::geometry::Point;
use druid_shell::geometry::Size;
use druid_shell::mouse::cursor_icon;
use druid_shell::mouse::Cursor;
use druid_shell::mouse::CursorIcon;
use druid_shell::tokens::Counter;
use druid_shell::window::window_state_command;
use druid_shell::window::window_state_from_flags;
use druid_shell::window::TextFieldRegistry;
use druid_shell::window::WindowLevel;
use druid_shell::window::WindowState;
use druid_shell::window::WindowStateCommand;

#[test]
fn config_default_requests_nothing() {
    let c = WindowConfig::default();
    assert_eq!(c.size_policy, WindowSizePolicy::User);
    assert_eq!(c.size, None);
    assert_eq!(c.min_size, None);
    assert_eq!(c.position, None);
    assert_eq!(c.resizable, None);
    assert_eq!(c.transparent, None);
    assert_eq!(c.show_titlebar, None);
    assert_eq!(c.set_title, None);
    assert_eq!(c.level, None);
    assert_eq!(c.state, None);
}

#[test]
fn config_builders_set_their_fields() {
    let c = WindowConfig::default()
        .window_size(Size::new(1000, 500))
        .with_min_size(Size::new(100, 50))
        .resizable(false)
        .show_titlebar(true)
        .set_title("hello".to_string())
        .set_position(Point::new(10, 20))
        .set_level(WindowLevel::Tooltip)
        .set_window_state(WindowState::Maximized)
        .transparent(true)
        .window_size_policy(WindowSizePolicy::Content);
    assert_eq!(c.size, Some(Size::new(1000, 500)));
    assert_eq!(c.min_size, Some(Size::new(100, 50)));
    assert_eq!(c.resizable, Some(false));
    assert_eq!(c.show_titlebar, Some(true));
    assert_eq!(c.set_title, Some("hello".to_string()));
    assert_eq!(c.position, Some(Point::new(10, 20)));
    assert_eq!(c.level, Some(WindowLevel::Tooltip));
    assert_eq!(c.state, Some(WindowState::Maximized));
    assert_eq!(c.transparent, Some(true));
    assert_eq!(c.size_policy, WindowSizePolicy::Content);
}

#[test]
fn apply_to_builder_overrides_present_settings() {
    let c = WindowConfig::default()
        .window_size(Size::new(640, 480))
        .resizable(true)
        .set_position(Point::new(3, 4))
        .set_window_state(WindowState::Maximized)
        .transparent(true);
    let b = c.apply_to_builder(WindowBuilder::new());
    assert_eq!(b.size, Some(Size::new(640, 480)));
    assert_eq!(b.resizable, Some(true));
    assert_eq!(b.position, Some(Point::new(3, 4)));
    assert!(b.maximized);
    assert!(b.transparent);
    assert_eq!(b.min_size, None);
    assert_eq!(b.level, None);
    assert!(!b.title_hidden);
}

#[test]
fn apply_to_builder_leaves_absent_settings() {
    let base = WindowBuilder::new()
        .set_size(Size::new(11, 22))
        .set_position(Point::new(1, 1))
        .resizable(false);
    let untouched = WindowConfig::default().apply_to_builder(base.clone());
    assert_eq!(untouched, base);
}

#[test]
fn content_policy_requests_zero_size() {
    let c = WindowConfig::default().window_size_policy(WindowSizePolicy::Content);
    let b = c.apply_to_builder(WindowBuilder::new());
    assert_eq!(b.size, Some(Size::new(0, 0)));
    // An explicit size wins over the policy.
    let c2 = c.window_size(Size::new(9, 9));
    let b2 = c2.apply_to_builder(WindowBuilder::new());
    assert_eq!(b2.size, Some(Size::new(9, 9)));
}

#[test]
fn hiding_the_titlebar_sets_the_decoration_flags() {
    let c = WindowConfig::default().show_titlebar(false);
    let b = c.apply_to_builder(WindowBuilder::new());
    assert!(b.title_hidden);
    assert!(b.titlebar_transparent);
    assert!(b.fullsize_content);
    let shown = WindowConfig::default().show_titlebar(true).apply_to_builder(WindowBuilder::new());
    assert!(!shown.title_hidden);
    let direct = WindowBuilder::new().show_titlebar(false);
    assert!(direct.title_hidden && direct.titlebar_transparent && direct.fullsize_content);
}

#[test]
fn apply_to_handle_emits_one_command_per_setting_in_order() {
    let c = WindowConfig::default()
        .resizable(true)
        .show_titlebar(false)
        .set_title("t".to_string())
        .window_size(Size::new(2, 3))
        .set_position(Point::new(4, 5))
        .set_level(WindowLevel::Modal)
        .set_window_state(WindowState::Minimized)
        .with_min_size(Size::new(1, 1));
    let cmds = c.apply_to_handle();
    assert_eq!(
        cmds,
        vec![
            WindowCommand::SetResizable(true),
            WindowCommand::ShowTitlebar(false),
            WindowCommand::SetTitle("t".to_string()),
            WindowCommand::SetSize(Size::new(2, 3)),
            WindowCommand::SetPosition(Point::new(4, 5)),
            WindowCommand::SetLevel(WindowLevel::Modal),
            WindowCommand::SetWindowState(WindowState::Minimized),
        ]
    );
    assert!(WindowConfig::default().apply_to_handle().is_empty());
}

#[test]
fn window_state_commands() {
    assert_eq!(
        window_state_command(WindowState::Maximized),
        WindowStateCommand { set_maximized: Some(true), set_minimized: None }
    );
    assert_eq!(
        window_state_command(WindowState::Minimized),
        WindowStateCommand { set_maximized: None, set_minimized: Some(true) }
    );
    assert_eq!(
        window_state_command(WindowState::Restored),
        WindowStateCommand { set_maximized: Some(false), set_minimized: Some(false) }
    );
    assert_eq!(window_state_from_flags(true), WindowState::Maximized);
    assert_eq!(window_state_from_flags(false), WindowState::Restored);
}

#[test]
fn cursor_kinds_map_to_backend_icons() {
    assert_eq!(cursor_icon(&Cursor::Arrow), CursorIcon::Arrow);
    assert_eq!(cursor_icon(&Cursor::IBeam), CursorIcon::Text);
    assert_eq!(cursor_icon(&Cursor::Pointer), CursorIcon::Hand);
    assert_eq!(cursor_icon(&Cursor::Crosshair), CursorIcon::Crosshair);
    assert_eq!(cursor_icon(&Cursor::NotAllowed), CursorIcon::NotAllowed);
    assert_eq!(cursor_icon(&Cursor::ResizeLeftRight), CursorIcon::ColResize);
    assert_eq!(cursor_icon(&Cursor::ResizeUpDown), CursorIcon::RowResize);
}

#[test]
fn content_insets_account_for_chrome() {
    // A 10-point title bar and 1-point borders: outer 100x100 at
    // (50, 50), inner 98x89 at (51, 60).
    let insets = content_insets_from(
        Point::new(50, 50),
        Size::new(100, 100),
        Point::new(51, 60),
        Size::new(98, 89),
    );
    assert_eq!(insets.x0, 1);
    assert_eq!(insets.y0, 10);
    assert_eq!(insets.x1, 1);
    assert_eq!(insets.y1, 1);
    assert_eq!(point_or_origin(None), Point::new(0, 0));
    assert_eq!(point_or_origin(Some(Point::new(7, 8))), Point::new(7, 8));
}

#[test]
fn text_field_registry_clears_focus_on_removal() {
    let mut reg = TextFieldRegistry::new();
    let a = reg.add_text_field();
    let b = reg.add_text_field();
    assert_ne!(a, b);
    reg.set_focused_text_field(Some(a));
    assert_eq!(reg.focused, Some(a));
    // Removing an unfocused field keeps focus.
    reg.remove_text_field(b);
    assert_eq!(reg.focused, Some(a));
    // Removing the focused field clears focus.
    reg.remove_text_field(a);
    assert_eq!(reg.focused, None);
    assert!(reg.fields.is_empty());
}

#[test]
fn pending_window_builders() {
    let p: PendingWindow<&str, u32> = PendingWindow::new("root-widget");
    assert_eq!(p.title, "app-name".to_string());
    assert!(!p.transparent);
    assert!(p.menu.is_none());
    let p = p.title("My App".to_string()).transparent(true).menu(7);
    assert_eq!(p.title, "My App".to_string());
    assert!(p.transparent);
    assert_eq!(p.menu, Some(7));
}

#[test]
fn window_desc_builders() {
    let mut ids = Counter::new();
    let d: WindowDesc<&str, u32> = WindowDesc::new("root-widget", &mut ids);
    let other: WindowDesc<&str, u32> = WindowDesc::new("other", &mut ids);
    assert_ne!(d.id, other.id);
    let d = d
        .title("T".to_string())
        .window_size(Size::new(300, 200))
        .resizable(false)
        .show_titlebar(false)
        .transparent(true)
        .set_position(Point::new(1, 2))
        .set_level(WindowLevel::DropDown)
        .set_window_state(WindowState::Restored)
        .with_min_size(Size::new(30, 20))
        .window_size_policy(WindowSizePolicy::User);
    assert_eq!(d.pending.title, "T".to_string());
    assert!(d.pending.transparent);
    assert_eq!(d.config.size, Some(Size::new(300, 200)));
    assert_eq!(d.config.resizable, Some(false));
    assert_eq!(d.config.show_titlebar, Some(false));
    assert_eq!(d.config.transparent, Some(true));
    assert_eq!(d.config.position, Some(Point::new(1, 2)));
    assert_eq!(d.config.level, Some(WindowLevel::DropDown));
    assert_eq!(d.config.state, Some(WindowState::Restored));
    assert_eq!(d.config.min_size, Some(Size::new(30, 20)));
    let replaced = d.with_config(WindowConfig::default());
    assert_eq!(replaced.config, WindowConfig::default());
}

#[test]
fn app_launcher_accumulates_configuration() {
    let mut ids = Counter::new();
    let w: WindowDesc<&str, u32> = WindowDesc::new("root-widget", &mut ids);
    let launcher: AppLauncher<&str, u32, fn() -> u8, &str> = AppLauncher::new();
    assert!(launcher.windows.is_empty());
    assert!(!launcher.console_logging);
    let launcher = launcher
        .with_window(w)
        .delegate("the-delegate")
        .log_to_console()
        .localization_resources(vec!["base.ftl".to_string()], "i18n".to_string());
    assert_eq!(launcher.windows.len(), 1);
    assert_eq!(launcher.delegate, Some("the-delegate"));
    assert!(launcher.console_logging);
    assert_eq!(
        launcher.l10n_resources,
        Some((vec!["base.ftl".to_string()], "i18n".to_string()))
    );
    let again: AppLauncher<&str, u32, fn() -> u8, &str> = AppLauncher::new().use_simple_logger();
    assert!(again.console_logging);
}
