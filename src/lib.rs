//! Window, tab and tab-bar logic of a multi-window, tabbed terminal emulator.
//!
//! The library holds the decisions; the embedding program owns the native
//! windows, the GPU contexts and the PTY I/O threads, and performs the effects
//! that the library hands back.

mod commands;
mod geometry;
mod input;
mod layout;
mod platform;
mod processor;
mod registry;
mod tab_bar;
mod tabs;

pub use commands::{MultiWindowCommand, MultiWindowCommandQueue, apply_command};
pub use geometry::{
    BarGeometry, CLOSE_ICON_PADDING, CLOSE_ICON_WIDTH, centered_title_x, ellipsis_tab_title, ghost_index, hit_test,
    is_detached, is_on_close_button, tab_left,
};
pub use input::{ClickState, SelectionType, next_click_state, selection_for};
pub use layout::{DisplayUpdate, PhysicalSize, SizeInfo, cell_dimension, dynamic_padding, pty_size, resize, scale_for_ratio};
pub use platform::MultiWindowPlatform;
pub use processor::{
    ControlFlow, DisplayCommandResult, EventKind, GpuStep, MultiWindowEvent, MultiWindowProcessor,
    TerminalAction, TerminalEvent, WindowEvent,
};
pub use registry::{Effect, WindowContext, WindowContextTracker};
pub use tab_bar::{
    CursorIcon, DraggingInfo, Position, TabBarEvent, TabBarOutcome, TabBarProcessor, TabBarState,
    TabState,
};
pub use tabs::{TabHandle, TermTab, TermTabCollection};
