//! Audio-reactive visual control core: palette scheduling, photosensitivity
//! safety limits, the consent screen and the shader catalogue, all stated in
//! fixed-point units (milliseconds, thousandths) so that every rule is proved.
pub mod palettes;
pub mod safety;
pub mod clock;
pub mod text;
pub mod warning;
pub mod quality;
pub mod shaders;
pub mod overlay;
pub mod controls;
pub mod performance;
pub mod beats;

pub use beats::{BeatEvent, BeatTracker};
pub use controls::{ControlKey, UiAction, UserInterface};
pub use overlay::{OverlayEvent, OverlayType};
pub use palettes::{ColorPalette, PaletteManager};
pub use performance::{GpuCapabilities, PerformanceManager, PerformanceMetrics};
pub use quality::QualityLevel;
pub use safety::{
    FlashTracker, LuminanceLimiter, SafetyEngine, SafetyLevel, SafetyMultipliers, SafetyStatus,
    Vector3,
};
pub use shaders::{ShaderMetadata, ShaderRegistry, ShaderTransitioner, ShaderType, UniformManager};
pub use warning::{EpilepsyWarning, WarningKey, WarningState};
