pub mod coordinate;
pub mod coordinate_type;
pub mod line;

pub use coordinate::Coordinate;
pub use coordinate_type::CoordinateType;
pub use line::Line;
