//! Window configuration: the settings a window is described with, the
//! builder they are applied to before construction, and the command
//! stream they turn into for an already-built window.

use vstd::prelude::*;
use crate::geometry::Point;
use crate::geometry::Size;
use crate::window::WindowLevel;
use crate::window::WindowState;

verus! {

/// Defines how a window's size should be determined.
#[derive(Copy, Clone, Debug, PartialEq, Eq, Hash, Structural)]
pub enum WindowSizePolicy {
    /// Use the content of the window to determine the size.
    Content,
    /// Use the provided window size.
    User,
}

/// Window configuration that can be applied to a `WindowBuilder`, or to
/// an existing window through a command stream. It holds nothing
/// related to app data.
#[derive(Clone, Debug, PartialEq, Eq)]
pub struct WindowConfig {
    pub size_policy: WindowSizePolicy,
    pub size: Option<Size>,
    pub min_size: Option<Size>,
    pub position: Option<Point>,
    pub resizable: Option<bool>,
    pub transparent: Option<bool>,
    pub show_titlebar: Option<bool>,
    pub set_title: Option<String>,
    pub level: Option<WindowLevel>,
    pub state: Option<WindowState>,
}

impl Default for WindowConfig {
    /// A configuration that requests nothing: every setting unset and
    /// the user size policy.
    fn default() -> (c: WindowConfig)
        ensures
            c.size_policy == WindowSizePolicy::User,
            c.size is None,
            c.min_size is None,
            c.position is None,
            c.resizable is None,
            c.transparent is None,
            c.show_titlebar is None,
            c.set_title is None,
            c.level is None,
            c.state is None,
    {
        WindowConfig {
            size_policy: WindowSizePolicy::User,
            size: None,
            min_size: None,
            position: None,
            resizable: None,
            show_titlebar: None,
            set_title: None,
            transparent: None,
            level: None,
            state: None,
        }
    }
}

impl WindowConfig {
    /// The configuration `Default::default` builds: every setting unset
    /// and the user size policy.
    pub open spec fn default_spec() -> WindowConfig {
        WindowConfig {
            size_policy: WindowSizePolicy::User,
            size: None,
            min_size: None,
            position: None,
            resizable: None,
            show_titlebar: None,
            set_title: None,
            transparent: None,
            level: None,
            state: None,
        }
    }

    /// Set the window size policy.
    pub fn window_size_policy(self, size_policy: WindowSizePolicy) -> (c: WindowConfig)
        ensures
            c == (WindowConfig { size_policy, ..self }),
    {
        WindowConfig { size_policy, ..self }
    }

    /// Set the window's initial drawing area size in display points.
    pub fn window_size(self, size: Size) -> (c: WindowConfig)
        ensures
            c == (WindowConfig { size: Some(size), ..self }),
    {
        WindowConfig { size: Some(size), ..self }
    }

    /// Set the window's minimum drawing area size in display points.
    pub fn with_min_size(self, size: Size) -> (c: WindowConfig)
        ensures
            c == (WindowConfig { min_size: Some(size), ..self }),
    {
        WindowConfig { min_size: Some(size), ..self }
    }

    /// Set whether the window should be resizable.
    pub fn resizable(self, resizable: bool) -> (c: WindowConfig)
        ensures
            c == (WindowConfig { resizable: Some(resizable), ..self }),
    {
        WindowConfig { resizable: Some(resizable), ..self }
    }

    /// Set whether the window should have a titlebar and decorations.
    pub fn show_titlebar(self, show_titlebar: bool) -> (c: WindowConfig)
        ensures
            c == (WindowConfig { show_titlebar: Some(show_titlebar), ..self }),
    {
        WindowConfig { show_titlebar: Some(show_titlebar), ..self }
    }

    /// Set the title.
    pub fn set_title(self, title: String) -> (c: WindowConfig)
        ensures
            c == (WindowConfig { set_title: Some(title), ..self }),
    {
        WindowConfig { set_title: Some(title), ..self }
    }

    /// Set the window position in virtual screen coordinates, in
    /// display points.
    pub fn set_position(self, position: Point) -> (c: WindowConfig)
        ensures
            c == (WindowConfig { position: Some(position), ..self }),
    {
        WindowConfig { position: Some(position), ..self }
    }

    /// Set the window's level in the window system's z-order.
    pub fn set_level(self, level: WindowLevel) -> (c: WindowConfig)
        ensures
            c == (WindowConfig { level: Some(level), ..self }),
    {
        WindowConfig { level: Some(level), ..self }
    }

    /// Set the initial state of the window.
    pub fn set_window_state(self, state: WindowState) -> (c: WindowConfig)
        ensures
            c == (WindowConfig { state: Some(state), ..self }),
    {
        WindowConfig { state: Some(state), ..self }
    }

    /// Set whether the window background should be transparent.
    pub fn transparent(self, transparent: bool) -> (c: WindowConfig)
        ensures
            c == (WindowConfig { transparent: Some(transparent), ..self }),
    {
        WindowConfig { transparent: Some(transparent), ..self }
    }

    /// Apply this configuration to a builder: each setting that is
    /// present overrides the builder's, each absent one leaves the
    /// builder untouched; with no explicit size under the content size
    /// policy the builder is told a zero size, so the platform lets the
    /// content decide.
    #[verifier::rlimit(60)]
    pub fn apply_to_builder(&self, builder: WindowBuilder) -> (r: WindowBuilder)
        ensures
            r.resizable == if self.resizable is Some {
                self.resizable
            } else {
                builder.resizable
            },
            r.title_hidden == (self.show_titlebar == Some(false) || builder.title_hidden),
            r.titlebar_transparent == (self.show_titlebar == Some(false)
                || builder.titlebar_transparent),
            r.fullsize_content == (self.show_titlebar == Some(false) || builder.fullsize_content),
            r.size == if self.size is Some {
                self.size
            } else if self.size_policy == WindowSizePolicy::Content {
                Some(Size { width: 0, height: 0 })
            } else {
                builder.size
            },
            r.position == if self.position is Some {
                self.position
            } else {
                builder.position
            },
            r.transparent == if self.transparent is Some {
                self.transparent->0
            } else {
                builder.transparent
            },
            r.level == if self.level is Some {
                self.level
            } else {
                builder.level
            },
            r.maximized == (self.state == Some(WindowState::Maximized) || builder.maximized),
            r.min_size == if self.min_size is Some {
                self.min_size
            } else {
                builder.min_size
            },
            r.title == builder.title,
    {
        let builder = if let Some(resizable) = self.resizable {
            builder.resizable(resizable)
        } else {
            builder
        };

        let builder = if let Some(show_titlebar) = self.show_titlebar {
            builder.show_titlebar(show_titlebar)
        } else {
            builder
        };

        let builder = if let Some(size) = self.size {
            builder.set_size(size)
        } else if let WindowSizePolicy::Content = self.size_policy {
            builder.set_size(Size { width: 0, height: 0 })
        } else {
            builder
        };

        let mut builder = if let Some(position) = self.position {
            builder.set_position(position)
        } else {
            builder
        };

        if let Some(transparent) = self.transparent {
            builder.set_transparent(transparent);
        }

        if let Some(level) = self.level {
            builder.set_level(level);
        }

        let builder = if let Some(state) = self.state {
            builder.set_window_state(state)
        } else {
            builder
        };

        if let Some(min_size) = self.min_size {
            builder.set_min_size(min_size)
        } else {
            builder
        }
    }

    /// Apply this configuration to an already-built window: the stream
    /// of backend commands it decomposes into, one per present setting,
    /// in a fixed order. A minimum size cannot be applied to a live
    /// window, so `min_size` yields no command.
    pub fn apply_to_handle(&self) -> (r: Vec<WindowCommand>)
        ensures
            r@ == handle_commands_of(*self),
    {
        let mut cmds: Vec<WindowCommand> = Vec::new();
        if let Some(resizable) = self.resizable {
            cmds.push(WindowCommand::SetResizable(resizable));
        }
        if let Some(show_titlebar) = self.show_titlebar {
            cmds.push(WindowCommand::ShowTitlebar(show_titlebar));
        }
        if let Some(title) = &self.set_title {
            cmds.push(WindowCommand::SetTitle(title.clone()));
        }
        if let Some(size) = self.size {
            cmds.push(WindowCommand::SetSize(size));
        }
        if let Some(position) = self.position {
            cmds.push(WindowCommand::SetPosition(position));
        }
        if let Some(level) = self.level {
            cmds.push(WindowCommand::SetLevel(level));
        }
        if let Some(state) = self.state {
            cmds.push(WindowCommand::SetWindowState(state));
        }
        proof {
            assert(cmds@ =~= handle_commands_of(*self));
        }
        cmds
    }
}

/// One window-mutation command for the backend to carry out.
#[derive(Clone, Debug, PartialEq, Eq)]
pub enum WindowCommand {
    SetResizable(bool),
    ShowTitlebar(bool),
    SetTitle(String),
    SetSize(Size),
    SetPosition(Point),
    SetLevel(WindowLevel),
    SetWindowState(WindowState),
}

/// The command stream a configuration means for a live window: one
/// command per present setting, in the order resizable, titlebar,
/// title, size, position, level, state.
pub open spec fn handle_commands_of(c: WindowConfig) -> Seq<WindowCommand> {
    let s = Seq::<WindowCommand>::empty();
    let s = if c.resizable is Some {
        s.push(WindowCommand::SetResizable(c.resizable->0))
    } else {
        s
    };
    let s = if c.show_titlebar is Some {
        s.push(WindowCommand::ShowTitlebar(c.show_titlebar->0))
    } else {
        s
    };
    let s = if c.set_title is Some {
        s.push(WindowCommand::SetTitle(c.set_title->0))
    } else {
        s
    };
    let s = if c.size is Some {
        s.push(WindowCommand::SetSize(c.size->0))
    } else {
        s
    };
    let s = if c.position is Some {
        s.push(WindowCommand::SetPosition(c.position->0))
    } else {
        s
    };
    let s = if c.level is Some {
        s.push(WindowCommand::SetLevel(c.level->0))
    } else {
        s
    };
    if c.state is Some {
        s.push(WindowCommand::SetWindowState(c.state->0))
    } else {
        s
    }
}

/// A builder for creating new windows: plain accumulated requests that
/// the backend shim reads off when it constructs the native window.
/// `None` leaves the backend's default in place.
#[derive(Clone, Debug, PartialEq, Eq)]
pub struct WindowBuilder {
    pub size: Option<Size>,
    pub min_size: Option<Size>,
    pub position: Option<Point>,
    pub resizable: Option<bool>,
    pub title: Option<String>,
    pub transparent: bool,
    pub maximized: bool,
    pub level: Option<WindowLevel>,
    /// The decoration flags a hidden titlebar decomposes into.
    pub title_hidden: bool,
    pub titlebar_transparent: bool,
    pub fullsize_content: bool,
}

impl WindowBuilder {
    /// A builder with no requests: the backend's defaults throughout.
    pub fn new() -> (b: WindowBuilder)
        ensures
            b.size is None,
            b.min_size is None,
            b.position is None,
            b.resizable is None,
            b.title is None,
            !b.transparent,
            !b.maximized,
            b.level is None,
            !b.title_hidden,
            !b.titlebar_transparent,
            !b.fullsize_content,
    {
        WindowBuilder {
            size: None,
            min_size: None,
            position: None,
            resizable: None,
            title: None,
            transparent: false,
            maximized: false,
            level: None,
            title_hidden: false,
            titlebar_transparent: false,
            fullsize_content: false,
        }
    }

    /// Request the window's initial drawing area size in display
    /// points.
    pub fn set_size(self, size: Size) -> (b: WindowBuilder)
        ensures
            b == (WindowBuilder { size: Some(size), ..self }),
    {
        WindowBuilder { size: Some(size), ..self }
    }

    /// Request the window's minimum drawing area size in display
    /// points.
    pub fn set_min_size(self, size: Size) -> (b: WindowBuilder)
        ensures
            b == (WindowBuilder { min_size: Some(size), ..self }),
    {
        WindowBuilder { min_size: Some(size), ..self }
    }

    /// Request whether the window should be resizable.
    pub fn resizable(self, resizable: bool) -> (b: WindowBuilder)
        ensures
            b == (WindowBuilder { resizable: Some(resizable), ..self }),
    {
        WindowBuilder { resizable: Some(resizable), ..self }
    }

    /// Request whether the window should have a titlebar: hiding it
    /// decomposes into hiding the title, making the titlebar
    /// transparent and extending the content under it; showing it
    /// requests nothing.
    pub fn show_titlebar(self, show_titlebar: bool) -> (b: WindowBuilder)
        ensures
            b == if !show_titlebar {
                (WindowBuilder {
                    title_hidden: true,
                    titlebar_transparent: true,
                    fullsize_content: true,
                    ..self
                })
            } else {
                self
            },
    {
        if !show_titlebar {
            WindowBuilder {
                title_hidden: true,
                titlebar_transparent: true,
                fullsize_content: true,
                ..self
            }
        } else {
            self
        }
    }

    /// Request whether the window background should be transparent.
    pub fn set_transparent(&mut self, transparent: bool)
        ensures
            *final(self) == (WindowBuilder { transparent, ..*old(self) }),
    {
        self.transparent = transparent;
    }

    /// Request the initial window position in display points, relative
    /// to the origin of the virtual screen.
    pub fn set_position(self, position: Point) -> (b: WindowBuilder)
        ensures
            b == (WindowBuilder { position: Some(position), ..self }),
    {
        WindowBuilder { position: Some(position), ..self }
    }

    /// Request the initial window level.
    pub fn set_level(&mut self, level: WindowLevel)
        ensures
            *final(self) == (WindowBuilder { level: Some(level), ..*old(self) }),
    {
        self.level = Some(level);
    }

    /// Request the window's initial title.
    pub fn set_title(self, title: String) -> (b: WindowBuilder)
        ensures
            b == (WindowBuilder { title: Some(title), ..self }),
    {
        WindowBuilder { title: Some(title), ..self }
    }

    /// Request the initial state of the window: only maximization can
    /// be requested at build time; a minimized or restored initial
    /// state requests nothing.
    pub fn set_window_state(self, state: WindowState) -> (b: WindowBuilder)
        ensures
            b == if state == WindowState::Maximized {
                (WindowBuilder { maximized: true, ..self })
            } else {
                self
            },
    {
        match state {
            WindowState::Maximized => WindowBuilder { maximized: true, ..self },
            WindowState::Minimized => self,
            WindowState::Restored => self,
        }
    }
}

impl Default for WindowBuilder {
    /// Same as `WindowBuilder::new`: no requests.
    fn default() -> (b: WindowBuilder)
        ensures
            b.size is None,
            b.min_size is None,
            b.position is None,
            b.resizable is None,
            b.title is None,
            !b.transparent,
            !b.maximized,
            b.level is None,
            !b.title_hidden,
            !b.titlebar_transparent,
            !b.fullsize_content,
    {
        WindowBuilder {
            size: None,
            min_size: None,
            position: None,
            resizable: None,
            title: None,
            transparent: false,
            maximized: false,
            level: None,
            title_hidden: false,
            titlebar_transparent: false,
            fullsize_content: false,
        }
    }
}

} // verus!
