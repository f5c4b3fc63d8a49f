//! A batching painter for 2D shapes, without the graphics device.
//!
//! Shapes become vertices and indices in a bounded [`Mesh`]; every vertex
//! names, by index, the matrix on a bounded [`TransformStack2D`] that places
//! it; and the [`Painter`] hands a [`Batch`] out for drawing whenever the
//! mesh is full or the next shape or model would not fit. Numbers and
//! matrices are type parameters: the library moves them and never computes
//! with them.

pub mod buffer;
pub mod constants;
pub mod matrix;
mod glenum;
pub mod mesh;
pub mod movie;
pub mod painter;
pub mod painter_depricated;
pub mod shapes;
pub mod texture;
pub mod transform_stack_2d;
pub mod types;
pub mod vertex;
pub mod vertices;

pub use crate::buffer::BufferType;
pub use crate::buffer::DrawType;
pub use crate::constants::frame_sleep_micros;
pub use crate::constants::FRAME_TIME_30FPS_IN_MICROS;
pub use crate::constants::FRAME_TIME_60FPS_IN_MICROS;
pub use crate::constants::GL_MAJOR;
pub use crate::constants::GL_MINOR;
pub use crate::constants::MICROS_PER_SECOND;
pub use crate::matrix::Mat4;
pub use crate::matrix::Vec4;
pub use crate::mesh::Mesh;
pub use crate::mesh::MeshOp;
pub use crate::mesh::MeshView;
pub use crate::movie::FrameStep;
pub use crate::movie::MoviePlayer;
pub use crate::painter::Batch;
pub use crate::painter::BatchView;
pub use crate::painter::Painter;
pub use crate::painter::PainterSettings;
pub use crate::painter::PainterView;
pub use crate::painter_depricated::DepricBatch;
pub use crate::painter_depricated::PainterDepricated;
pub use crate::painter_depricated::PainterDepricatedView;
pub use crate::shapes::checked_rounded_rect_ring;
pub use crate::shapes::rounded_rect_ring;
pub use crate::shapes::ArcPoint;
pub use crate::shapes::Corner;
pub use crate::texture::GlTextureParams;
pub use crate::texture::TexFiltering;
pub use crate::texture::TexWrapping;
pub use crate::texture::TextureParams;
pub use crate::transform_stack_2d::TransformStack2D;
pub use crate::transform_stack_2d::TransformStackView;
pub use crate::types::Type;
pub use crate::vertex::AttributeLayout;
pub use crate::vertex::Vertex;
pub use crate::vertex::VertexLayout;
pub use crate::vertices::DepricPaintingVertex;
pub use crate::vertices::PaintingVertex;
pub use crate::vertices::Pos;
pub use crate::vertices::PosColor;
pub use crate::vertices::PosColorTex;
