//! Packed 4:2:2 to RGBA conversion: the texture shapes and the checks.
//!
//! One packed texel (Y0 U Y1 V) holds two display pixels, so the packed
//! bytes are read as an RGBA texture of half the width, and the conversion
//! draw writes two RGBA pixels for each of its texels.
use vstd::prelude::*;
use crate::frame::{
    check_frame,
    frame_check_spec,
    frame_len,
    frame_len_spec,
    DeviceId,
    FrameError,
    PixelLayout,
};

verus! {

/// Why a converter could not be built.
#[derive(PartialEq, Eq, Structural, Debug, Clone, Copy)]
pub enum ConverterError {
    /// A packed texel covers two pixels, so the width must be even.
    OddWidth(u32),
}

/// A packed 4:2:2 to RGBA converter for frames of one fixed size.
pub struct YuyvConverter {
    device: DeviceId,
    width: u32,
    height: u32,
}

impl YuyvConverter {
    pub closed spec fn spec_device(&self) -> DeviceId {
        self.device
    }

    pub closed spec fn spec_width(&self) -> u32 {
        self.width
    }

    pub closed spec fn spec_height(&self) -> u32 {
        self.height
    }

    pub open spec fn wf(&self) -> bool {
        self.spec_width() % 2 == 0
    }

    /// Builds a converter for `width` by `height` frames on `device`.
    pub fn new(device: DeviceId, width: u32, height: u32) -> (r: Result<YuyvConverter, ConverterError>)
        ensures
            r is Ok <==> width % 2 == 0,
            r matches Ok(c) ==> c.wf() && c.spec_device() == device && c.spec_width() == width
                && c.spec_height() == height,
            r is Err ==> r == Err::<YuyvConverter, ConverterError>(ConverterError::OddWidth(width)),
    {
        if width % 2 != 0 {
            return Err(ConverterError::OddWidth(width));
        }
        Ok(YuyvConverter { device, width, height })
    }

    pub fn device(&self) -> (r: DeviceId)
        ensures
            r == self.spec_device(),
    {
        self.device
    }

    pub fn width(&self) -> (r: u32)
        ensures
            r == self.spec_width(),
    {
        self.width
    }

    pub fn height(&self) -> (r: u32)
        ensures
            r == self.spec_height(),
    {
        self.height
    }

    /// Size of the texture the packed bytes are uploaded into: half the
    /// width, full height.
    pub fn packed_extent(&self) -> (r: (u32, u32))
        ensures
            r.0 == self.spec_width() / 2,
            r.1 == self.spec_height(),
            self.wf() ==> 2 * r.0 == self.spec_width(),
    {
        (self.width / 2, self.height)
    }

    /// Number of bytes a packed input frame must hold.
    pub fn input_len(&self) -> (r: u128)
        ensures
            r == self.spec_width() * self.spec_height() * 2,
            r == frame_len_spec(PixelLayout::Packed422, self.spec_width(), self.spec_height()),
    {
        frame_len(PixelLayout::Packed422, self.width, self.height)
    }

    /// Number of bytes of the converted RGBA frame.
    pub fn output_len(&self) -> (r: u128)
        ensures
            r == self.spec_width() * self.spec_height() * 4,
            r == frame_len_spec(PixelLayout::Rgba, self.spec_width(), self.spec_height()),
    {
        frame_len(PixelLayout::Rgba, self.width, self.height)
    }

    /// Checks one conversion request: the queue must belong to the
    /// converter's device, the input must hold exactly `width * height * 2`
    /// bytes, and the destination must be `width` by `height`.
    pub fn check_frame(
        &self,
        queue: DeviceId,
        input_len: usize,
        dst_width: u32,
        dst_height: u32,
    ) -> (r: Result<(), FrameError>)
        ensures
            r == frame_check_spec(
                self.spec_device(),
                PixelLayout::Packed422,
                self.spec_width(),
                self.spec_height(),
                queue,
                input_len,
                dst_width,
                dst_height,
            ),
            r is Ok <==> queue == self.spec_device() && input_len == self.spec_width()
                * self.spec_height() * 2 && dst_width == self.spec_width() && dst_height
                == self.spec_height(),
    {
        check_frame(
            self.device,
            PixelLayout::Packed422,
            self.width,
            self.height,
            queue,
            input_len,
            dst_width,
            dst_height,
        )
    }
}

/// A converter built for an even width `w` and a height `h` accepts, on its
/// own device and destination size, exactly the inputs of `w * h * 2` bytes,
/// and its RGBA result holds `w * h * 4` bytes, twice the input.
pub proof fn lemma_converter_sizes(device: DeviceId, w: u32, h: u32, input_len: usize)
    requires
        w % 2 == 0,
    ensures
        frame_check_spec(device, PixelLayout::Packed422, w, h, device, input_len, w, h) is Ok
            <==> input_len == w * h * 2,
        frame_len_spec(PixelLayout::Rgba, w, h) == w * h * 4,
        frame_len_spec(PixelLayout::Rgba, w, h) == 2 * frame_len_spec(PixelLayout::Packed422, w, h),
{
}

} // verus!
