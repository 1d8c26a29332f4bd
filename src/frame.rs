//! Frame buffers and the checks that every GPU submission goes through.
use vstd::prelude::*;

verus! {

/// Identity of the GPU device that owns a resource or a queue.
#[derive(PartialEq, Eq, Structural, Debug, Clone, Copy)]
pub struct DeviceId(pub u64);

/// How the bytes of a frame are laid out.
#[derive(PartialEq, Eq, Structural, Debug, Clone, Copy)]
pub enum PixelLayout {
    /// Packed 4:2:2 (YUYV): two bytes per pixel, one chroma pair shared by
    /// each two horizontally adjacent pixels.
    Packed422,
    /// Four bytes per pixel: red, green, blue, alpha.
    Rgba,
}

/// Bytes per pixel of a layout.
pub open spec fn bytes_per_pixel(layout: PixelLayout) -> int {
    match layout {
        PixelLayout::Packed422 => 2,
        PixelLayout::Rgba => 4,
    }
}

/// Size in bytes of a `width` by `height` frame of the given layout.
pub open spec fn frame_len_spec(layout: PixelLayout, width: u32, height: u32) -> int {
    width * height * bytes_per_pixel(layout)
}

/// Size in bytes of a `width` by `height` frame of the given layout.
pub fn frame_len(layout: PixelLayout, width: u32, height: u32) -> (r: u128)
    ensures
        r == frame_len_spec(layout, width, height),
{
    let per_pixel: u128 = match layout {
        PixelLayout::Packed422 => 2,
        PixelLayout::Rgba => 4,
    };
    assert(width * height <= u32::MAX * u32::MAX) by (nonlinear_arith);
    assert(u32::MAX * u32::MAX * 4 <= u128::MAX) by (nonlinear_arith);
    assert(width * height * per_pixel <= u32::MAX * u32::MAX * 4) by (nonlinear_arith)
        requires
            width * height <= u32::MAX * u32::MAX,
            per_pixel <= 4,
    ;
    (width as u128) * (height as u128) * per_pixel
}

/// Why a frame was refused before any GPU work was recorded.
#[derive(PartialEq, Eq, Structural, Debug, Clone, Copy)]
pub enum FrameError {
    /// The queue belongs to another device than the stage's resources.
    DeviceMismatch { owner: DeviceId, queue: DeviceId },
    /// The input holds another number of bytes than the frame size asks for.
    InputLength { expected: u128, actual: usize },
    /// The destination texture has another size than the stage writes.
    DestinationSize { expected_width: u32, expected_height: u32, width: u32, height: u32 },
}

/// The outcome of checking one submission of a `width` by `height` frame of
/// `layout` to a stage owned by `owner`: the device first, then the input
/// size, then the destination size.
pub open spec fn frame_check_spec(
    owner: DeviceId,
    layout: PixelLayout,
    width: u32,
    height: u32,
    queue: DeviceId,
    input_len: usize,
    dst_width: u32,
    dst_height: u32,
) -> Result<(), FrameError> {
    if queue != owner {
        Err(FrameError::DeviceMismatch { owner, queue })
    } else if input_len != frame_len_spec(layout, width, height) {
        Err(
            FrameError::InputLength {
                expected: frame_len_spec(layout, width, height) as u128,
                actual: input_len,
            },
        )
    } else if dst_width != width || dst_height != height {
        Err(
            FrameError::DestinationSize {
                expected_width: width,
                expected_height: height,
                width: dst_width,
                height: dst_height,
            },
        )
    } else {
        Ok(())
    }
}

/// Checks one submission of a `width` by `height` frame of `layout` to a
/// stage owned by `owner`.
pub fn check_frame(
    owner: DeviceId,
    layout: PixelLayout,
    width: u32,
    height: u32,
    queue: DeviceId,
    input_len: usize,
    dst_width: u32,
    dst_height: u32,
) -> (r: Result<(), FrameError>)
    ensures
        r == frame_check_spec(owner, layout, width, height, queue, input_len, dst_width, dst_height),
{
    if queue != owner {
        return Err(FrameError::DeviceMismatch { owner, queue });
    }
    let expected = frame_len(layout, width, height);
    if input_len as u128 != expected {
        return Err(FrameError::InputLength { expected, actual: input_len });
    }
    if dst_width != width || dst_height != height {
        return Err(
            FrameError::DestinationSize {
                expected_width: width,
                expected_height: height,
                width: dst_width,
                height: dst_height,
            },
        );
    }
    Ok(())
}

} // verus!
