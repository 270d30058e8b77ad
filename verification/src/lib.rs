//! Integration layer between a retained-mode element tree and an external
//! flexbox solver: layout-tree nodes with a dirty/tainted lifecycle,
//! measured-content caches with change detection, the measurement-callback
//! sizing policy, and the bounding-rectangle algebra used to derive
//! page-relative geometry after a solve.

pub mod geometry;

pub use geometry::LayoutBoundingClientRect;
pub use geometry::LayoutClientPosition;
pub use geometry::LayoutClientSize;

pub mod content;

pub use content::DimensionsInfo;
pub use content::GlyphStore;
pub use content::MeasuredImage;
pub use content::ShapedText;

pub mod measure;

pub use measure::ImageNodeContext;
pub use measure::NodeMeasureContext;
pub use measure::SizingMode;
pub use measure::TextNodeContext;

pub mod node;
pub mod resources;

pub use node::LayoutNode;
pub use node::LayoutReflowDirection;
pub use resources::ComputedStyles;
pub use resources::FontCache;
pub use resources::ImageCache;
pub use resources::ResourceGroup;
pub use resources::StyleDeclarations;
pub use resources::resolve_point_size;
pub use resources::DEFAULT_FONT_SIZE;

pub mod providers;

pub use providers::ConstFontSource;
pub use providers::ConstImageSource;
pub use providers::ConstResources;
pub use providers::ImageDimensions;
pub use providers::PlainComputedStyles;
pub use providers::PlainStyleSet;
pub use providers::ShapedRun;
pub use providers::SizedFont;
