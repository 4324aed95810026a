//! The planes that a frame is compared by.

use vstd::prelude::*;
use crate::common::SceneDetectError;
use crate::text::{decimal, decimal_text};

verus! {

/// The largest number of pixels that a plane can have: the number of pixels
/// of an image fits a signed number of 32 bits.
pub const MAX_PIXELS: u32 = 0x7fff_ffff;

/// One channel of an image: `rows` by `cols` samples of eight bits, row
/// after row.
#[derive(Debug)]
pub struct Plane {
    rows: u32,
    cols: u32,
    data: Vec<u8>,
}

/// The text that a plane's size is written as: width, then height.
pub open spec fn size_text(rows: u32, cols: u32) -> Seq<char> {
    "Size_ { width: "@ + decimal_text(cols as nat) + ", height: "@ + decimal_text(rows as nat)
        + " }"@
}

impl Plane {
    #[verifier::type_invariant]
    spec fn holds_every_pixel(self) -> bool {
        &&& self.rows * self.cols <= MAX_PIXELS
        &&& self.data@.len() == self.rows * self.cols
    }

    /// The height.
    pub closed spec fn spec_rows(&self) -> u32 {
        self.rows
    }

    /// The width.
    pub closed spec fn spec_cols(&self) -> u32 {
        self.cols
    }

    /// The samples, row after row.
    pub closed spec fn pixels(&self) -> Seq<u8> {
        self.data@
    }

    /// Whether the two planes have the same height and the same width.
    pub open spec fn spec_same_size(&self, other: &Plane) -> bool {
        self.rows() == other.rows() && self.cols() == other.cols()
    }

    /// Whether `data` can be the samples of a plane of `rows` by `cols`.
    pub open spec fn fits(rows: u32, cols: u32, data: Seq<u8>) -> bool {
        rows * cols <= MAX_PIXELS && data.len() == rows * cols
    }

    /// The plane of `rows` by `cols` with the samples `data`, where there is
    /// one sample for each pixel and no more pixels than [`MAX_PIXELS`].
    pub fn new(rows: u32, cols: u32, data: Vec<u8>) -> (plane: Option<Plane>)
        ensures
            plane.is_some() == Plane::fits(rows, cols, data@),
            plane matches Some(p) ==> p.rows() == rows && p.cols() == cols && p.pixels()
                == data@,
    {
        assert(rows * cols <= 0xffff_ffff * 0xffff_ffff) by (nonlinear_arith)
            requires
                rows <= 0xffff_ffff,
                cols <= 0xffff_ffff,
        ;
        let count: u64 = (rows as u64) * (cols as u64);
        if count <= MAX_PIXELS as u64 && data.len() as u64 == count {
            Some(Plane { rows, cols, data })
        } else {
            None
        }
    }

    /// The height.
    #[verifier::when_used_as_spec(spec_rows)]
    pub fn rows(&self) -> (rows: u32)
        ensures
            rows == self.rows(),
    {
        self.rows
    }

    /// The width.
    #[verifier::when_used_as_spec(spec_cols)]
    pub fn cols(&self) -> (cols: u32)
        ensures
            cols == self.cols(),
    {
        self.cols
    }

    /// The number of pixels.
    pub fn pixel_count(&self) -> (count: u32)
        ensures
            count == self.rows() * self.cols(),
            count == self.pixels().len(),
            count <= MAX_PIXELS,
    {
        proof {
            use_type_invariant(self);
        }
        self.rows * self.cols
    }

    /// The sample at `index`, counted row after row.
    pub fn pixel(&self, index: u32) -> (sample: u8)
        requires
            index < self.pixels().len(),
        ensures
            sample == self.pixels()[index as int],
    {
        self.data[index as usize]
    }

    /// Whether the two planes have the same height and the same width.
    #[verifier::when_used_as_spec(spec_same_size)]
    pub fn same_size(&self, other: &Plane) -> (same: bool)
        ensures
            same == self.same_size(other),
            same ==> self.pixels().len() == other.pixels().len(),
    {
        proof {
            use_type_invariant(self);
            use_type_invariant(other);
        }
        self.rows == other.rows && self.cols == other.cols
    }

    /// Writes the size out, width first.
    pub fn size_string(&self) -> (text: String)
        ensures
            text@ == size_text(self.rows(), self.cols()),
    {
        let width: String = decimal(self.cols as u128);
        let height: String = decimal(self.rows as u128);
        String::from_str("Size_ { width: ").concat(width.as_str()).concat(", height: ").concat(
            height.as_str(),
        ).concat(" }")
    }
}

/// The difference between two samples, whichever is the larger.
pub open spec fn abs_diff(a: u8, b: u8) -> nat {
    if a >= b {
        (a - b) as nat
    } else {
        (b - a) as nat
    }
}

/// The sum over all positions of the absolute difference between the two
/// samples there. The sequences are of one length.
pub open spec fn sum_abs_diff(a: Seq<u8>, b: Seq<u8>) -> nat
    decreases a.len(),
{
    if a.len() == 0 || a.len() != b.len() {
        0
    } else {
        sum_abs_diff(a.drop_last(), b.drop_last()) + abs_diff(a.last(), b.last())
    }
}

/// No absolute difference is above 255, so their sum is at most 255 times
/// their number.
pub proof fn lemma_sum_abs_diff_bound(a: Seq<u8>, b: Seq<u8>)
    requires
        a.len() == b.len(),
    ensures
        sum_abs_diff(a, b) <= 255 * a.len(),
    decreases a.len(),
{
    if a.len() > 0 {
        lemma_sum_abs_diff_bound(a.drop_last(), b.drop_last());
    }
}

/// The mean absolute difference between the samples of two planes, as the
/// exact fraction `total / pixels`.
#[derive(Clone, Copy, Debug, PartialEq, Eq, Structural)]
pub struct PixelDistance {
    /// The sum of the absolute differences.
    pub total: u64,
    /// The number of pixels that were compared.
    pub pixels: u32,
}

/// The distance between two planes of one size.
pub open spec fn distance_between(left: &Plane, right: &Plane) -> PixelDistance {
    PixelDistance {
        total: sum_abs_diff(left.pixels(), right.pixels()) as u64,
        pixels: left.pixels().len() as u32,
    }
}

/// The distances of a frame from the frame before it, channel by channel.
#[derive(Clone, Copy, Debug, PartialEq, Eq, Structural)]
pub struct ChannelDeltas {
    pub hue: PixelDistance,
    pub sat: PixelDistance,
    pub lum: PixelDistance,
}

/// The step at which the conversion of a frame into planes failed.
#[derive(Clone, Copy, Debug, PartialEq, Eq, Structural)]
pub enum ConversionStage {
    /// The change of colour space.
    HsvConversion,
    /// The split into channels.
    ChannelSplit,
    /// Taking the first channel.
    HueChannel,
    /// Taking the second channel.
    SaturationChannel,
    /// Taking the third channel.
    LuminanceChannel,
}

impl ConversionStage {
    /// What is said of a failure at this step, before the cause.
    pub open spec fn text(self) -> Seq<char> {
        match self {
            ConversionStage::HsvConversion => "HSV conversion failed: "@,
            ConversionStage::ChannelSplit => "Channel split failed: "@,
            ConversionStage::HueChannel => "Failed to get hue channel: "@,
            ConversionStage::SaturationChannel => "Failed to get saturation channel: "@,
            ConversionStage::LuminanceChannel => "Failed to get luminance channel: "@,
        }
    }

    /// What is said of a failure at this step, before the cause.
    pub fn as_str(self) -> (text: &'static str)
        ensures
            text@ == self.text(),
    {
        match self {
            ConversionStage::HsvConversion => "HSV conversion failed: ",
            ConversionStage::ChannelSplit => "Channel split failed: ",
            ConversionStage::HueChannel => "Failed to get hue channel: ",
            ConversionStage::SaturationChannel => "Failed to get saturation channel: ",
            ConversionStage::LuminanceChannel => "Failed to get luminance channel: ",
        }
    }
}

/// What came of converting a colour frame into hue, saturation and
/// luminance: the planes in that order, or the step that failed and why.
#[derive(Debug)]
pub enum HsvConversion {
    Failed { stage: ConversionStage, detail: String },
    Channels(Vec<Plane>),
}

/// What is said where the split gave `count` channels and not three.
pub open spec fn channel_count_text(count: nat) -> Seq<char> {
    "Expected 3 HSV channels, got "@ + decimal_text(count)
}

/// What is said where the three planes are not of one size.
pub open spec fn channel_size_mismatch_text(data: &FrameData) -> Seq<char> {
    "Channel size mismatch: hue="@ + size_text(data.hue.rows(), data.hue.cols()) + ", sat="@
        + size_text(data.sat.rows(), data.sat.cols()) + ", lum="@ + size_text(
        data.lum.rows(),
        data.lum.cols(),
    )
}

/// What a frame is compared by: its hue, saturation and luminance.
#[derive(Debug)]
pub struct FrameData {
    pub hue: Plane,
    pub sat: Plane,
    pub lum: Plane,
}

impl FrameData {
    /// Whether the three planes are of one size.
    pub open spec fn consistent(&self) -> bool {
        self.hue.same_size(&self.sat) && self.sat.same_size(&self.lum)
    }

    /// What the conversion of a frame gives: the three planes, or the
    /// failure of frame 0 that says which step failed or how many channels
    /// there were.
    pub open spec fn extracted(conversion: HsvConversion, result: Result<
        FrameData,
        SceneDetectError,
    >) -> bool {
        match conversion {
            HsvConversion::Failed { stage, detail } => result matches Err(error)
                && error.is_frame_error(0, stage.text() + detail@),
            HsvConversion::Channels(channels) => if channels@.len() == 3 {
                result matches Ok(data) && data.hue == channels@[0] && data.sat == channels@[1]
                    && data.lum == channels@[2]
            } else {
                result matches Err(error) && error.is_frame_error(
                    0,
                    channel_count_text(channels@.len()),
                )
            },
        }
    }

    /// The feature set of a colour frame, from what its conversion into
    /// planes gave.
    pub fn from_bgr_frame(conversion: HsvConversion) -> (result: Result<
        FrameData,
        SceneDetectError,
    >)
        ensures
            FrameData::extracted(conversion, result),
    {
        match conversion {
            HsvConversion::Failed { stage, detail } => {
                let reason: String = String::from_str(stage.as_str()).concat(detail.as_str());
                Err(SceneDetectError::frame_error(0, reason.as_str()))
            },
            HsvConversion::Channels(channels) => {
                let mut channels = channels;
                if channels.len() != 3 {
                    let count: String = decimal(channels.len() as u128);
                    let reason: String = String::from_str("Expected 3 HSV channels, got ").concat(
                        count.as_str(),
                    );
                    return Err(SceneDetectError::frame_error(0, reason.as_str()));
                }
                let lum: Plane = channels.pop().unwrap();
                let sat: Plane = channels.pop().unwrap();
                let hue: Plane = channels.pop().unwrap();
                Ok(FrameData { hue, sat, lum })
            },
        }
    }

    /// Checks that the three planes are of one size.
    pub fn validate(&self) -> (result: Result<(), SceneDetectError>)
        ensures
            self.consistent() ==> result.is_ok(),
            !self.consistent() ==> (result matches Err(error) && error.is_internal_error(
                channel_size_mismatch_text(self),
            )),
    {
        if !self.hue.same_size(&self.sat) || !self.sat.same_size(&self.lum) {
            let hue: String = self.hue.size_string();
            let sat: String = self.sat.size_string();
            let lum: String = self.lum.size_string();
            let message: String = String::from_str("Channel size mismatch: hue=").concat(
                hue.as_str(),
            ).concat(", sat=").concat(sat.as_str()).concat(", lum=").concat(lum.as_str());
            return Err(SceneDetectError::internal_error(message.as_str()));
        }
        Ok(())
    }
}

} // verus!
