//! Window descriptions and application launch configuration.
//!
//! The widget root, the menu constructor, the environment hook and the
//! delegate belong to the retained-mode layer outside this crate; they
//! travel through here as opaque payloads, while everything the shell
//! itself decides — sizes, titles, levels, states — is plain data with
//! exact contracts.

use vstd::prelude::*;
use crate::config::WindowConfig;
use crate::config::WindowSizePolicy;
use crate::geometry::Point;
use crate::geometry::Size;
use crate::tokens::Counter;
use crate::tokens::WindowId;
use crate::window::WindowLevel;
use crate::window::WindowState;

verus! {

/// The parts of a window, pending construction, that depend on the
/// retained-mode layer: the root widget `W` and the menu constructor
/// `M` are carried opaquely, beside the window properties the shell
/// understands.
pub struct PendingWindow<W, M> {
    /// The root widget of the window.
    pub root: W,
    /// The window title.
    pub title: String,
    /// Whether the background should be transparent.
    pub transparent: bool,
    /// The menu constructor, if the window has a menu.
    pub menu: Option<M>,
    /// Copied over from the window configuration when the native
    /// window is constructed.
    pub size_policy: WindowSizePolicy,
}

impl<W, M> PendingWindow<W, M> {
    /// Create a pending window from any widget: untitled beyond the
    /// application-name placeholder, opaque background, no menu, user
    /// size policy.
    pub fn new(root: W) -> (p: PendingWindow<W, M>)
        ensures
            p.root == root,
            p.title@ == "app-name"@,
            !p.transparent,
            p.menu is None,
            p.size_policy == WindowSizePolicy::User,
    {
        PendingWindow {
            root,
            title: String::from_str("app-name"),
            transparent: false,
            menu: None,
            size_policy: WindowSizePolicy::User,
        }
    }

    /// Set the title for this window.
    pub fn title(self, title: String) -> (p: PendingWindow<W, M>)
        ensures
            p == (PendingWindow { title, ..self }),
    {
        PendingWindow { title, ..self }
    }

    /// Set whether the background should be transparent.
    pub fn transparent(self, transparent: bool) -> (p: PendingWindow<W, M>)
        ensures
            p == (PendingWindow { transparent, ..self }),
    {
        PendingWindow { transparent, ..self }
    }

    /// Set the menu for this window.
    pub fn menu(self, menu: M) -> (p: PendingWindow<W, M>)
        ensures
            p == (PendingWindow { menu: Some(menu), ..self }),
    {
        PendingWindow { menu: Some(menu), ..self }
    }
}

/// A description of a window to be instantiated.
pub struct WindowDesc<W, M> {
    /// The parts pending construction.
    pub pending: PendingWindow<W, M>,
    /// The window configuration.
    pub config: WindowConfig,
    /// The `WindowId` that will be assigned to this window, fixed at
    /// description time so the window can be tracked from launch until
    /// it actually connects.
    pub id: WindowId,
}

impl<W, M> WindowDesc<W, M> {
    /// Create a new description, taking the root widget for this window
    /// and minting the window's id from `ids`.
    pub fn new(root: W, ids: &mut Counter) -> (d: WindowDesc<W, M>)
        requires
            old(ids).wf(),
            old(ids).next_value < u64::MAX,
        ensures
            d.pending.root == root,
            d.pending.title@ == "app-name"@,
            !d.pending.transparent,
            d.pending.menu is None,
            d.config == WindowConfig::default_spec(),
            d.id.0 == old(ids).next_value,
            final(ids).wf(),
            final(ids).next_value == old(ids).next_value + 1,
    {
        WindowDesc { pending: PendingWindow::new(root), config: Default::default(), id: WindowId::next(ids) }
    }

    /// Create a new description under an id picked by the caller.
    pub fn new_with_id(id: WindowId, root: W) -> (d: WindowDesc<W, M>)
        ensures
            d.pending.root == root,
            d.pending.title@ == "app-name"@,
            !d.pending.transparent,
            d.pending.menu is None,
            d.config == WindowConfig::default_spec(),
            d.id == id,
    {
        WindowDesc { pending: PendingWindow::new(root), config: Default::default(), id }
    }

    /// Set the title for this window.
    pub fn title(self, title: String) -> (d: WindowDesc<W, M>)
        ensures
            d.pending == (PendingWindow { title, ..self.pending }),
            d.config == self.config,
            d.id == self.id,
    {
        WindowDesc { pending: self.pending.title(title), ..self }
    }

    /// Set the menu for this window.
    pub fn menu(self, menu: M) -> (d: WindowDesc<W, M>)
        ensures
            d.pending == (PendingWindow { menu: Some(menu), ..self.pending }),
            d.config == self.config,
            d.id == self.id,
    {
        WindowDesc { pending: self.pending.menu(menu), ..self }
    }

    /// Set the window size policy.
    pub fn window_size_policy(self, size_policy: WindowSizePolicy) -> (d: WindowDesc<W, M>)
        ensures
            d.config == (WindowConfig { size_policy, ..self.config }),
            d.pending == self.pending,
            d.id == self.id,
    {
        WindowDesc { config: self.config.window_size_policy(size_policy), ..self }
    }

    /// Set the window's initial drawing area size in display points.
    pub fn window_size(self, size: Size) -> (d: WindowDesc<W, M>)
        ensures
            d.config == (WindowConfig { size: Some(size), ..self.config }),
            d.pending == self.pending,
            d.id == self.id,
    {
        WindowDesc { config: self.config.window_size(size), ..self }
    }

    /// Set the window's minimum drawing area size in display points.
    pub fn with_min_size(self, size: Size) -> (d: WindowDesc<W, M>)
        ensures
            d.config == (WindowConfig { min_size: Some(size), ..self.config }),
            d.pending == self.pending,
            d.id == self.id,
    {
        WindowDesc { config: self.config.with_min_size(size), ..self }
    }

    /// Set whether this window can be resized.
    pub fn resizable(self, resizable: bool) -> (d: WindowDesc<W, M>)
        ensures
            d.config == (WindowConfig { resizable: Some(resizable), ..self.config }),
            d.pending == self.pending,
            d.id == self.id,
    {
        WindowDesc { config: self.config.resizable(resizable), ..self }
    }

    /// Set whether this window's titlebar is visible.
    pub fn show_titlebar(self, show_titlebar: bool) -> (d: WindowDesc<W, M>)
        ensures
            d.config == (WindowConfig { show_titlebar: Some(show_titlebar), ..self.config }),
            d.pending == self.pending,
            d.id == self.id,
    {
        WindowDesc { config: self.config.show_titlebar(show_titlebar), ..self }
    }

    /// Set whether this window's background should be transparent, both
    /// in the configuration and in the pending window.
    pub fn transparent(self, transparent: bool) -> (d: WindowDesc<W, M>)
        ensures
            d.config == (WindowConfig { transparent: Some(transparent), ..self.config }),
            d.pending == (PendingWindow { transparent, ..self.pending }),
            d.id == self.id,
    {
        let config = self.config.transparent(transparent);
        let pending = self.pending.transparent(transparent);
        WindowDesc { config, pending, ..self }
    }

    /// Set the initial window position in display points, relative to
    /// the origin of the virtual screen.
    pub fn set_position(self, position: Point) -> (d: WindowDesc<W, M>)
        ensures
            d.config == (WindowConfig { position: Some(position), ..self.config }),
            d.pending == self.pending,
            d.id == self.id,
    {
        WindowDesc { config: self.config.set_position(position), ..self }
    }

    /// Set the window's level in the window system's z-order.
    pub fn set_level(self, level: WindowLevel) -> (d: WindowDesc<W, M>)
        ensures
            d.config == (WindowConfig { level: Some(level), ..self.config }),
            d.pending == self.pending,
            d.id == self.id,
    {
        WindowDesc { config: self.config.set_level(level), ..self }
    }

    /// Set the initial state for the window.
    pub fn set_window_state(self, state: WindowState) -> (d: WindowDesc<W, M>)
        ensures
            d.config == (WindowConfig { state: Some(state), ..self.config }),
            d.pending == self.pending,
            d.id == self.id,
    {
        WindowDesc { config: self.config.set_window_state(state), ..self }
    }

    /// Replace the whole configuration of the window.
    pub fn with_config(self, config: WindowConfig) -> (d: WindowDesc<W, M>)
        ensures
            d.config == config,
            d.pending == self.pending,
            d.id == self.id,
    {
        WindowDesc { config, ..self }
    }
}

/// Handles initial setup of an application before the run loop starts:
/// the windows to create, the localization resources, the environment
/// hook `E` and the delegate `D` (both opaque payloads of the
/// retained-mode layer), and whether console logging was asked for.
pub struct AppLauncher<W, M, E, D> {
    /// The windows to build at launch.
    pub windows: Vec<WindowDesc<W, M>>,
    /// The environment hook, run once before launch.
    pub env_setup: Option<E>,
    /// Localization resource names and their base directory.
    pub l10n_resources: Option<(Vec<String>, String)>,
    /// The application delegate.
    pub delegate: Option<D>,
    /// Whether a console logger should be installed at launch.
    pub console_logging: bool,
}

impl<W, M, E, D> AppLauncher<W, M, E, D> {
    /// A launcher with nothing configured.
    pub fn new() -> (a: AppLauncher<W, M, E, D>)
        ensures
            a.windows@.len() == 0,
            a.env_setup is None,
            a.l10n_resources is None,
            a.delegate is None,
            !a.console_logging,
    {
        AppLauncher {
            windows: Vec::new(),
            env_setup: None,
            l10n_resources: None,
            delegate: None,
            console_logging: false,
        }
    }

    /// Add a window to be created at launch.
    pub fn with_window(self, window: WindowDesc<W, M>) -> (a: AppLauncher<W, M, E, D>)
        ensures
            a.windows@ == self.windows@.push(window),
            a.env_setup == self.env_setup,
            a.l10n_resources == self.l10n_resources,
            a.delegate == self.delegate,
            a.console_logging == self.console_logging,
    {
        let mut s = self;
        s.windows.push(window);
        s
    }

    /// Provide an optional hook that is given access to the environment
    /// and the app state before launch; used to set or override theme
    /// values.
    pub fn configure_env(self, f: E) -> (a: AppLauncher<W, M, E, D>)
        ensures
            a.env_setup == Some(f),
            a.windows == self.windows,
            a.l10n_resources == self.l10n_resources,
            a.delegate == self.delegate,
            a.console_logging == self.console_logging,
    {
        let mut s = self;
        s.env_setup = Some(f);
        s
    }

    /// Set the application delegate.
    pub fn delegate(self, delegate: D) -> (a: AppLauncher<W, M, E, D>)
        ensures
            a.delegate == Some(delegate),
            a.windows == self.windows,
            a.env_setup == self.env_setup,
            a.l10n_resources == self.l10n_resources,
            a.console_logging == self.console_logging,
    {
        let mut s = self;
        s.delegate = Some(delegate);
        s
    }

    /// Ask for a minimal console logger at launch; meant for use during
    /// development only.
    pub fn use_simple_logger(self) -> (a: AppLauncher<W, M, E, D>)
        ensures
            a.console_logging,
            a.windows == self.windows,
            a.env_setup == self.env_setup,
            a.l10n_resources == self.l10n_resources,
            a.delegate == self.delegate,
    {
        self.log_to_console()
    }

    /// Ask for a minimal console logger at launch, for quick-and-dirty
    /// debugging; the shim around the run loop installs it.
    pub fn log_to_console(self) -> (a: AppLauncher<W, M, E, D>)
        ensures
            a.console_logging,
            a.windows == self.windows,
            a.env_setup == self.env_setup,
            a.l10n_resources == self.l10n_resources,
            a.delegate == self.delegate,
    {
        let mut s = self;
        s.console_logging = true;
        s
    }

    /// Use custom localization resources: a list of file names that
    /// contain strings, and a path to a directory with per-locale
    /// subdirectories.
    pub fn localization_resources(self, resources: Vec<String>, base_dir: String) -> (a:
        AppLauncher<W, M, E, D>)
        ensures
            a.l10n_resources == Some((resources, base_dir)),
            a.windows == self.windows,
            a.env_setup == self.env_setup,
            a.delegate == self.delegate,
            a.console_logging == self.console_logging,
    {
        let mut s = self;
        s.l10n_resources = Some((resources, base_dir));
        s
    }
}

} // verus!
