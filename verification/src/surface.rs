use std::sync::Arc;
use vstd::prelude::*;

verus! {

/// The layout of the planes of a YUV frame.
#[derive(Clone, Copy, Debug, PartialEq, Eq, Structural)]
pub enum YuvFormat {
    /// A luma plane followed by one plane of interleaved chroma samples.
    Nv12,
    /// A luma plane followed by two separate chroma planes.
    I420,
}

/// One frame of YUV pixel data, with its planes shared by reference count.
#[derive(Clone, Debug)]
pub struct YuvFrameData {
    pub format: YuvFormat,
    pub width: u32,
    pub height: u32,
    pub y_plane: Arc<[u8]>,
    pub u_plane: Arc<[u8]>,
    pub v_plane: Option<Arc<[u8]>>,
    pub y_stride: u32,
    pub u_stride: u32,
    pub v_stride: Option<u32>,
}

/// How an image is fitted into the bounds of its element.
#[derive(Clone, Copy, Debug, PartialEq, Eq, Structural)]
pub enum ObjectFit {
    /// Stretched to fill the bounds exactly.
    Fill,
    /// Scaled to fit inside the bounds, keeping its aspect ratio.
    Contain,
    /// Scaled to cover the bounds, keeping its aspect ratio.
    Cover,
    /// Scaled down like `Contain` where it is larger than the bounds.
    ScaleDown,
    /// Left at its own size.
    Unscaled,
}

/// A source of a surface's content.
#[derive(Clone, Debug)]
pub enum SurfaceSource {
    /// YUV frame data.
    Yuv(YuvFrameData),
}

impl From<YuvFrameData> for SurfaceSource {
    fn from(value: YuvFrameData) -> (r: Self)
        ensures
            r == SurfaceSource::Yuv(value),
    {
        SurfaceSource::Yuv(value)
    }
}

impl vstd::std_specs::convert::FromSpecImpl<YuvFrameData> for SurfaceSource {
    open spec fn obeys_from_spec() -> bool {
        true
    }

    open spec fn from_spec(v: YuvFrameData) -> Self {
        SurfaceSource::Yuv(v)
    }
}

/// A surface element.
pub struct Surface {
    pub source: SurfaceSource,
    pub object_fit: ObjectFit,
}

/// A dimension in frame pixels as a device pixel count, saturated at `i32::MAX`.
pub open spec fn device_extent(n: u32) -> i32 {
    if n <= i32::MAX {
        n as i32
    } else {
        i32::MAX
    }
}

/// Create a new surface element.
pub fn surface<S: Into<SurfaceSource>>(source: S) -> (r: Surface)
    ensures
        call_ensures(S::into, (source,), r.source),
        r.object_fit == ObjectFit::Contain,
{
    Surface { source: source.into(), object_fit: ObjectFit::Contain }
}

impl Surface {
    /// Set the object fit for the image.
    pub fn object_fit(self, object_fit: ObjectFit) -> (r: Self)
        ensures
            r.source == self.source,
            r.object_fit == object_fit,
    {
        let mut this = self;
        this.object_fit = object_fit;
        this
    }

    /// The size, in device pixels, of the content that this surface paints.
    pub fn content_size(&self) -> (r: (i32, i32))
        ensures
            match self.source {
                SurfaceSource::Yuv(frame) => r == (
                    device_extent(frame.width),
                    device_extent(frame.height),
                ),
            },
    {
        match &self.source {
            SurfaceSource::Yuv(frame) => (saturate_to_i32(frame.width), saturate_to_i32(frame.height)),
        }
    }
}

fn saturate_to_i32(n: u32) -> (r: i32)
    ensures
        r == device_extent(n),
{
    if n <= 0x7fff_ffffu32 {
        n as i32
    } else {
        i32::MAX
    }
}

} // verus!
