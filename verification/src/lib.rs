//! The layout-negotiation and dispatch core of a retained-mode widget tree.
//!
//! Every node in a widget tree takes part in a three-phase contract: layout
//! (size negotiation through box constraints), paint (recording drawing
//! commands against a surface), and event (input delivered top-down, with an
//! optional action reported back up). Parents transform constraints and
//! offsets for their children; a child never needs to know its ancestry.
//!
//! The pieces: geometry value types, the phase-scoped context objects threaded
//! through every call, the `WidgetInner` contract each node implements, the
//! `WidgetBase` wrapper that caches per-node geometry, and widgets built on
//! them — the padding decorator and a fixed-size leaf.

pub mod contexts;
pub mod events;
pub mod geometry;
pub mod widget;

pub use contexts::Env;
pub use contexts::EventCtx;
pub use contexts::LayoutCtx;
pub use contexts::PaintCtx;
pub use contexts::PaintOp;
pub use events::Action;
pub use events::Event;
pub use geometry::BoxConstraints;
pub use geometry::Point;
pub use geometry::Rect;
pub use geometry::Size;
pub use widget::padding::Padding;
pub use widget::sized_box::SizedBox;
pub use widget::BaseState;
pub use widget::WidgetBase;
pub use widget::WidgetInner;
