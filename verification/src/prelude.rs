//! The names that most users of the core need.

pub use crate::atlas::FontAtlasResource;
pub use crate::atlas::font::AtlasError;
pub use crate::backend::{BevyBackend, BufferCell};
pub use crate::color::{Rgba, TermColor};
pub use crate::effects::breathe::Breathe;
pub use crate::effects::bubbly::Bubbly;
pub use crate::effects::collapse::Collapse;
pub use crate::effects::delta::CellDelta;
pub use crate::effects::engine::{Effect, EffectInstance};
pub use crate::effects::explode::Explode;
pub use crate::effects::glitch::Glitch;
pub use crate::effects::glow::Glow;
pub use crate::effects::gravity::Gravity;
pub use crate::effects::jitter::Jitter;
pub use crate::effects::knock::Knock;
pub use crate::effects::rainbow::Rainbow;
pub use crate::effects::ripple::Ripple;
pub use crate::effects::sample::{Probe, Sample};
pub use crate::effects::scatter::Scatter;
pub use crate::effects::shiny::Shiny;
pub use crate::effects::slash::Slash;
pub use crate::effects::timing::Clock;
pub use crate::effects::tint::Tint;
pub use crate::effects::wave::Wave;
pub use crate::effects::{EffectRegion, GridRect};
pub use crate::grid::{
    BackgroundSprite, BaseTransform, CellEntityIndex, CellStyle, CellVelocity, ForegroundSprite,
    GridPosition, TerminalCell, TerminalGrid, Transform,
};
pub use crate::input::TerminalInputQueue;
pub use crate::pipeline::{Terminal, TickInput, TickReport};
pub use crate::sync::SyncGeneration;
pub use crate::{CellMetrics, FontSource, TerminalConfig, TerminalLayout, TerminalSet};

