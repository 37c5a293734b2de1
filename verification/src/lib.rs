//! A headless environment to test widgets in.
//!
//! The crate holds everything a test harness for a widget tree decides: which
//! events reach the tree and in what order, what the harness remembers of the
//! signals that the tree sends back, how a rendered frame is read out of a
//! padded GPU buffer, and what happens to the files of a snapshot test.
//!
//! The work that needs a window system, a GPU or a file system is not done
//! here. The harness hands it out as [`Request`]s and takes the replies as
//! plain values, so that each decision is a function with a contract.

pub mod effects;
pub mod event;
pub mod geometry;
pub mod harness;
pub mod image_data;
pub mod laws;
pub mod paths;
pub mod render;
pub mod signal;
pub mod snapshot;
pub mod state;
pub mod widget;

pub use event::{
    Handled, Ime, PointerButton, PointerButtons, PointerEvent, PointerState, TextEvent, WindowEvent,
};
pub use geometry::{
    Color, Float32, Float64, LogicalPosition, LogicalSize, PhysicalPosition, PhysicalSize, Point,
    Size, Vec2,
};
pub use harness::{RenderRootOptions, TestHarness, TestHarnessParams, WindowSizePolicy};
pub use image_data::{RgbImage, RgbaImage};
pub use render::{RenderStep, RenderTarget};
pub use signal::RenderRootSignal;
pub use snapshot::{
    Comparison, SnapshotFile, SnapshotFiles, SnapshotOp, SnapshotReport, SnapshotSource,
    SnapshotStep,
};
pub use state::Request;
pub use widget::{FocusError, PointerTargetError, RenderRoot, WidgetId, WidgetNode};
