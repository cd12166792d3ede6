//! A software triangle rasterizer over fixed-point arithmetic.
pub mod clip;
pub mod fixed;
pub mod geometry;
pub mod line;
pub mod mesh;
pub mod raster;
pub mod texture;
pub mod utils;
pub mod vector;

pub use clip::clip_cull_triangle;
pub use clip::clip_triangle_one;
pub use clip::clip_triangle_two;
pub use clip::cull_triangle_backface;
pub use clip::cull_triangle_view_frustum;
pub use clip::ClipResult;
pub use fixed::Fixed;
pub use geometry::get_triangle_bounding_box_2d;
pub use geometry::BoundingBox2D;
pub use geometry::Point;
pub use geometry::Triangle;
pub use geometry::Vertex;
pub use geometry::VerticesOrder;
pub use line::bresenham_function;
pub use line::line_between;
pub use mesh::Mesh;
pub use raster::triangle_screen_bounding_box;
pub use raster::raster_mesh;
pub use raster::Raster_Clipped_Triangle;
pub use raster::Raster_Triangle;
pub use raster::RenderType;
pub use texture::Texture;
pub use utils::clear_buffer;
pub use utils::cofactor;
pub use utils::coords_to_index;
pub use utils::edge_function;
pub use utils::index_to_coords;
pub use utils::map_to_range;
pub use utils::minor;
pub use utils::to_argb8;
pub use utils::Barycentric_Coordinates;
pub use utils::Lerp;
pub use vector::Mat4;
pub use vector::UVec3;
pub use vector::Vec2;
pub use vector::Vec3;
pub use vector::Vec4;
