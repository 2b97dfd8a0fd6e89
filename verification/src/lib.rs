//! A geometry-buffering pipeline: parse an interchange-format geometry and a
//! style configuration, offset the geometry through an external engine, and
//! serialize the outcome into a result envelope that carries either the
//! buffered geometry or a descriptive error, never both.

pub mod bridge;
pub mod config;
pub mod envelope;
pub mod escape;
pub mod kind;
pub mod pipeline;

pub use config::BufferConfig;
pub use config::ResolvedCap;
pub use config::ResolvedJoin;
pub use config::resolve_cap;
pub use config::resolve_join;
pub use envelope::BufferResult;
pub use kind::GeomKind;
pub use kind::kind_label;
pub use pipeline::buffer_geometry;
pub use pipeline::get_geometry_info;
pub use pipeline::validate_geojson;
