//! Rendering, composition and session logic for a QR code studio: a module
//! grid becomes vector path data, the path is composed with colours into an
//! SVG document or a raster request, and a session decides when to encode.

pub mod compose;
pub mod export;
pub mod grid;
pub mod path;
pub mod session;
pub mod symbol;
pub mod text;

pub use compose::{raster_source, vector_document, RenderConfig, RASTER_SIDE};
pub use export::{file_name, ExportArtifact, ExportError, ExportFormat, ExportRequest, RasterJob};
pub use grid::ModuleGrid;
pub use path::{render, VectorPath};
pub use session::{Phase, Session};
pub use symbol::{encode, text_2_qr_string, EncodeError, BORDER};
