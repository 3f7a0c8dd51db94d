pub mod range;
pub mod shared_bytes;
pub mod surface;

pub use range::{ByteRange, SliceBound};
pub use shared_bytes::SharedBytes;
pub use surface::{surface, ObjectFit, Surface, SurfaceSource, YuvFormat, YuvFrameData};
