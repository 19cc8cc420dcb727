use vstd::prelude::*;
use bevy::render::render_resource::{
    Extent3d, TextureDescriptor, TextureDimension, TextureFormat, TextureUsages,
};
use bevy::render::texture::Image;
use crate::assets::TextureHandle;
use crate::error::AllocationError;

verus! {

/// `bevy::render::texture::Image`: a pixel buffer in main memory together with
/// the descriptor of the texture that the renderer makes of it. Nothing inside
/// it is visible to the verifier.
#[verifier::external_type_specification]
#[verifier::external_body]
pub struct ExImage(bevy::render::texture::Image);

/// The bytes of an image's pixel buffer (its `data`).
pub uninterp spec fn image_bytes(image: Image) -> Seq<u8>;

/// The width and height, in pixels, that an image's texture descriptor gives.
pub uninterp spec fn image_extent(image: Image) -> (int, int);

/// The bytes that one pixel takes in an image's texture format; the formats
/// for which bevy knows no pixel size have none that is positive.
pub uninterp spec fn image_pixel_size(image: Image) -> int;

/// What a buffer holds after it was cut or padded with zeros to `len` bytes.
pub open spec fn resized_bytes(bytes: Seq<u8>, len: int) -> Seq<u8> {
    if len <= bytes.len() {
        bytes.subrange(0, len)
    } else {
        bytes + Seq::new((len - bytes.len()) as nat, |i: int| 0u8)
    }
}

/// The pixel formats that an off-screen colour target can have. Both take
/// four bytes a pixel.
#[derive(Clone, Copy, Debug, PartialEq, Eq, Structural)]
pub enum PixelFormat {
    Bgra8UnormSrgb,
    Rgba8UnormSrgb,
}

/// `Image::default`, with a texture descriptor of its own: a 2-D texture of
/// one mip level and one sample, in the given format and with the given usage
/// bits, as `TextureUsages::from_bits_truncate` reads them. Assumed of the
/// result: the descriptor gives one pixel by one, a pixel of the format takes
/// four bytes, and the buffer holds the four bytes of 255 that
/// `Image::default` puts there.
#[verifier::external_body]
fn blank_image(format: PixelFormat, usage: u32) -> (image: Image)
    ensures
        image_extent(image) == (1int, 1int),
        image_pixel_size(image) == 4,
        image_bytes(image) == seq![255u8, 255u8, 255u8, 255u8],
{
    let format = match format {
        PixelFormat::Bgra8UnormSrgb => TextureFormat::Bgra8UnormSrgb,
        PixelFormat::Rgba8UnormSrgb => TextureFormat::Rgba8UnormSrgb,
    };
    let usage = TextureUsages::from_bits_truncate(usage);
    let size = Extent3d::default();
    let dimension = TextureDimension::D2;
    Image {
        texture_descriptor: TextureDescriptor {
            label: None, size, dimension, format, mip_level_count: 1, sample_count: 1, usage,
        },
        ..Image::default()
    }
}

/// `Image::resize` with a depth of one layer: assumed to set the descriptor's
/// size to `width` by `height` and to cut the pixel buffer, or pad it with
/// zeros, to `width * height` pixels of the image's format, which stays as it
/// is. `requires` leaves out the formats without a pixel size, for which the
/// function panics, and the sizes whose pixel or byte count overflows.
#[verifier::external_body]
fn resize_image(image: &mut Image, width: u32, height: u32)
    requires
        1 <= image_pixel_size(*old(image)),
        width * height <= u32::MAX,
        width * height * image_pixel_size(*old(image)) <= usize::MAX,
    ensures
        image_extent(*final(image)) == (width as int, height as int),
        image_pixel_size(*final(image)) == image_pixel_size(*old(image)),
        image_bytes(*final(image)) == resized_bytes(
            image_bytes(*old(image)),
            width * height * image_pixel_size(*old(image)),
        ),
{
    image.resize(Extent3d { width, height, depth_or_array_layers: 1 });
}

/// The texture may be the destination of a copy.
pub const USAGE_COPY_DST: u32 = 2;

/// The texture may be bound for sampling in a shader.
pub const USAGE_TEXTURE_BINDING: u32 = 4;

/// The texture may be the colour attachment of a render pass.
pub const USAGE_RENDER_ATTACHMENT: u32 = 16;

/// The usage of an off-screen target: drawn into by one pass, sampled by the
/// next.
pub const TARGET_USAGE: u32 = 22;

/// The bytes that one pixel of a target takes.
pub const BYTES_PER_PIXEL: u32 = 4;

/// The largest pixel buffer, in bytes, that a target may have.
pub const MAX_TARGET_BYTES: u32 = 0xffff_ffff;

/// What the device allows of a texture.
#[derive(Clone, Copy, Debug, PartialEq, Eq, Structural)]
pub struct DeviceLimits {
    /// The longest edge, in pixels, of a 2-D texture.
    pub max_texture_dimension: u32,
}

/// Whether a size is within what the device and the address space allow.
pub open spec fn within_limits(width: u32, height: u32, limits: DeviceLimits) -> bool {
    &&& width <= limits.max_texture_dimension
    &&& height <= limits.max_texture_dimension
    &&& width * height * BYTES_PER_PIXEL <= MAX_TARGET_BYTES
}

/// The error, if any, with which a request for a target of this size is
/// refused.
pub open spec fn allocation_error(width: u32, height: u32, limits: DeviceLimits) -> Option<
    AllocationError,
> {
    if width == 0 || height == 0 {
        Some(AllocationError::ZeroSize)
    } else if !within_limits(width, height, limits) {
        Some(AllocationError::ExceedsDeviceLimits)
    } else {
        None
    }
}

/// Decides whether a target of this size can be allocated.
pub fn check_allocation(width: u32, height: u32, limits: &DeviceLimits) -> (verdict: Result<
    (),
    AllocationError,
>)
    ensures
        verdict == match allocation_error(width, height, *limits) {
            Some(e) => Err::<(), AllocationError>(e),
            None => Ok::<(), AllocationError>(()),
        },
{
    if width == 0 || height == 0 {
        return Err(AllocationError::ZeroSize);
    }
    if width > limits.max_texture_dimension || height > limits.max_texture_dimension {
        return Err(AllocationError::ExceedsDeviceLimits);
    }
    assert(width * height <= 0xffff_ffff * 0xffff_ffff) by (nonlinear_arith)
        requires
            width <= 0xffff_ffff,
            height <= 0xffff_ffff,
    ;
    let pixels: u64 = (width as u64) * (height as u64);
    if pixels > (MAX_TARGET_BYTES / BYTES_PER_PIXEL) as u64 {
        return Err(AllocationError::ExceedsDeviceLimits);
    }
    Ok(())
}

/// The counter that follows `n`; after the largest value it starts again at 0.
pub open spec fn next_count(n: u64) -> u64 {
    if n == u64::MAX {
        0
    } else {
        (n + 1) as u64
    }
}

/// Steps a counter, starting again at 0 after the largest value.
pub fn bump(n: u64) -> (next: u64)
    ensures
        next == next_count(n),
        next != n,
{
    if n == u64::MAX {
        0
    } else {
        n + 1
    }
}

/// What a render target is, as plain values.
pub struct TargetView {
    /// The identifier under which dependents refer to the target.
    pub handle: TextureHandle,
    pub width: u32,
    pub height: u32,
    pub format: PixelFormat,
    pub usage: u32,
    /// Counts the allocations of the pixel buffer.
    pub revision: u64,
    /// Counts the passes that have drawn into the target.
    pub writes: u64,
    /// Whether the buffer holds what the latest of those passes drew.
    pub rendered: bool,
    /// The pixel buffer.
    pub bytes: Seq<u8>,
}

impl TargetView {
    /// The size is positive and allocatable, and the buffer has one pixel for
    /// every point of it.
    pub open spec fn wf(self) -> bool {
        &&& self.width > 0
        &&& self.height > 0
        &&& self.width * self.height * BYTES_PER_PIXEL <= MAX_TARGET_BYTES
        &&& self.bytes.len() == self.width * self.height * BYTES_PER_PIXEL
        &&& self.usage == TARGET_USAGE
    }

    /// A target as it is right after its creation: a first allocation that
    /// nothing has been drawn into, one opaque white pixel followed by zeros.
    pub open spec fn created(
        handle: TextureHandle,
        width: u32,
        height: u32,
        format: PixelFormat,
    ) -> TargetView {
        TargetView {
            handle,
            width,
            height,
            format,
            usage: TARGET_USAGE,
            revision: 0,
            writes: 0,
            rendered: false,
            bytes: resized_bytes(
                seq![255u8, 255u8, 255u8, 255u8],
                width * height * BYTES_PER_PIXEL,
            ),
        }
    }

    /// The target after its buffer was allocated anew at another size: the
    /// handle stays, the allocation is a new one, and what was drawn is lost.
    pub open spec fn resized(self, width: u32, height: u32) -> TargetView {
        TargetView {
            width,
            height,
            revision: next_count(self.revision),
            rendered: false,
            bytes: resized_bytes(self.bytes, width * height * BYTES_PER_PIXEL),
            ..self
        }
    }

    /// The target after a pass has drawn into it.
    pub open spec fn written(self) -> TargetView {
        TargetView { writes: next_count(self.writes), rendered: true, ..self }
    }
}

/// An off-screen colour buffer that one pass draws into and the next one
/// samples. It owns its pixel buffer and is resized in place.
pub struct RenderTarget {
    image: Image,
    handle: TextureHandle,
    width: u32,
    height: u32,
    format: PixelFormat,
    usage: u32,
    revision: u64,
    writes: u64,
    rendered: bool,
}

impl View for RenderTarget {
    type V = TargetView;

    closed spec fn view(&self) -> TargetView {
        TargetView {
            handle: self.handle,
            width: self.width,
            height: self.height,
            format: self.format,
            usage: self.usage,
            revision: self.revision,
            writes: self.writes,
            rendered: self.rendered,
            bytes: image_bytes(self.image),
        }
    }
}

impl RenderTarget {
    /// The image behind the target has the size and the pixel size that the
    /// target records.
    pub closed spec fn backed(&self) -> bool {
        &&& image_extent(self.image) == (self.width as int, self.height as int)
        &&& image_pixel_size(self.image) == BYTES_PER_PIXEL
    }

    /// The invariant of a render target.
    pub open spec fn wf(&self) -> bool {
        self@.wf() && self.backed()
    }

    /// Allocates a target of the given size, or says why it cannot.
    pub fn create(
        handle: TextureHandle,
        width: u32,
        height: u32,
        format: PixelFormat,
        limits: &DeviceLimits,
    ) -> (made: Result<RenderTarget, AllocationError>)
        ensures
            match allocation_error(width, height, *limits) {
                Some(e) => made == Err::<RenderTarget, AllocationError>(e),
                None => made is Ok && made->Ok_0.wf() && made->Ok_0@ == TargetView::created(
                    handle,
                    width,
                    height,
                    format,
                ),
            },
    {
        match check_allocation(width, height, limits) {
            Err(e) => Err(e),
            Ok(()) => {
                let mut image = blank_image(format, TARGET_USAGE);
                resize_image(&mut image, width, height);
                Ok(
                    RenderTarget {
                        image,
                        handle,
                        width,
                        height,
                        format,
                        usage: TARGET_USAGE,
                        revision: 0,
                        writes: 0,
                        rendered: false,
                    },
                )
            },
        }
    }

    /// Allocates the buffer anew at another size. The handle stays the same,
    /// so dependents need not be bound again, but what was drawn is lost.
    /// Where the size cannot be allocated the target stays exactly as it was.
    pub fn resize(&mut self, width: u32, height: u32, limits: &DeviceLimits) -> (done: Result<
        (),
        AllocationError,
    >)
        requires
            old(self).wf(),
        ensures
            match allocation_error(width, height, *limits) {
                Some(e) => done == Err::<(), AllocationError>(e) && *final(self) == *old(self),
                None => done is Ok && final(self).wf() && final(self)@ == old(self)@.resized(
                    width,
                    height,
                ),
            },
    {
        match check_allocation(width, height, limits) {
            Err(e) => Err(e),
            Ok(()) => {
                resize_image(&mut self.image, width, height);
                self.width = width;
                self.height = height;
                self.revision = bump(self.revision);
                self.rendered = false;
                Ok(())
            },
        }
    }

    /// Records that a pass has drawn into the target.
    pub fn record_write(&mut self)
        requires
            old(self).wf(),
        ensures
            final(self).wf(),
            final(self)@ == old(self)@.written(),
    {
        self.writes = bump(self.writes);
        self.rendered = true;
    }

    pub fn handle(&self) -> (handle: TextureHandle)
        ensures
            handle == self@.handle,
    {
        self.handle
    }

    pub fn width(&self) -> (width: u32)
        ensures
            width == self@.width,
    {
        self.width
    }

    pub fn height(&self) -> (height: u32)
        ensures
            height == self@.height,
    {
        self.height
    }

    pub fn format(&self) -> (format: PixelFormat)
        ensures
            format == self@.format,
    {
        self.format
    }

    pub fn usage(&self) -> (usage: u32)
        ensures
            usage == self@.usage,
    {
        self.usage
    }

    pub fn revision(&self) -> (revision: u64)
        ensures
            revision == self@.revision,
    {
        self.revision
    }

    pub fn writes(&self) -> (writes: u64)
        ensures
            writes == self@.writes,
    {
        self.writes
    }

    pub fn is_rendered(&self) -> (rendered: bool)
        ensures
            rendered == self@.rendered,
    {
        self.rendered
    }

    /// The image behind the target, for the registry that hands it to the
    /// renderer.
    pub fn image(&self) -> (image: &Image)
        ensures
            image_bytes(*image) == self@.bytes,
            self.wf() ==> image_extent(*image) == (self@.width as int, self@.height as int),
            self.wf() ==> image_pixel_size(*image) == BYTES_PER_PIXEL,
    {
        &self.image
    }
}

} // verus!
