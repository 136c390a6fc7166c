//! Still-image screen capture pipeline: display enumeration, region
//! resolution, channel normalization, and image encoding.
//!
//! The platform-specific pixel transfer (reading display memory) is I/O and
//! lives outside this library; callers hand the captured bytes in as plain
//! values, and every decision the pipeline makes about them is verified here.

use vstd::prelude::*;

pub mod codec;
pub mod display;
pub mod pixel;

pub use crate::display::get_focused_display_info;

verus! {

/// The step of the capture transfer that went wrong.
#[derive(Clone, Copy, PartialEq, Eq, Structural, Debug)]
pub enum CaptureFault {
    /// The requested region has no positive extent on some axis.
    EmptyRegion,
    /// A device context or off-screen surface could not be acquired.
    DeviceContext,
    /// The pixel transfer returned data of the wrong size.
    Transfer,
}

/// Everything a capture request can fail with.
#[derive(Clone, Copy, PartialEq, Eq, Structural, Debug)]
pub enum CaptureErrorKind {
    /// The requested display id does not exist in the current enumeration,
    /// or no window currently has focus.
    DisplayResolutionError,
    /// A platform resource acquisition, blit or readback step failed, or the
    /// computed region has non-positive width or height.
    CaptureError(CaptureFault),
    /// The buffer does not match the stated dimensions, or the underlying
    /// encoder rejected the data.
    EncodeError,
}

/// The container format an encoded screenshot is produced in.
pub enum OutputFormat {
    /// Lossless raster container.
    Png,
    /// Lossy raster container, fixed default quality.
    Jpeg,
    /// Modern raster container, explicitly in lossless mode.
    WebP,
}

/// A capture region in absolute virtual-screen pixel coordinates.
///
/// A region is meaningful only when `end_x > start_x` and `end_y > start_y`.
#[derive(Clone, Copy, PartialEq, Eq, Structural, Debug)]
pub struct CaptureRegion {
    pub start_x: u32,
    pub start_y: u32,
    pub end_x: u32,
    pub end_y: u32,
}

impl CaptureRegion {
    /// A region is valid when both axes have positive extent.
    pub open spec fn is_valid(self) -> bool {
        self.end_x > self.start_x && self.end_y > self.start_y
    }

    /// Width in pixels of a valid region.
    pub open spec fn spec_width(self) -> int {
        self.end_x - self.start_x
    }

    /// Height in pixels of a valid region.
    pub open spec fn spec_height(self) -> int {
        self.end_y - self.start_y
    }

    /// Byte length of a raw 32-bit-per-pixel buffer covering this region.
    pub open spec fn byte_len(self) -> int {
        self.spec_width() * self.spec_height() * 4
    }

    /// Whether both axes of the region have positive extent.
    pub fn valid(&self) -> (r: bool)
        ensures
            r == self.is_valid(),
    {
        self.end_x > self.start_x && self.end_y > self.start_y
    }
}

/// A capture request: which display, what part of it, and in which container
/// format the result is wanted.
pub struct ScreenshotOptions {
    /// Id of the display to capture: its 0-based position in the enumeration
    /// order. `get_focused_display_info` reports the id of the focused one.
    pub display_id: u32,
    /// Region to capture, absolute in virtual-screen coordinates. Absent
    /// means the full bounding rectangle of the selected display.
    pub region: Option<CaptureRegion>,
    /// The output format for the screenshot.
    pub output_format: OutputFormat,
}

/// The full bounding rectangle of a display, as a capture region.
pub open spec fn spec_default_region(d: display::DisplayRect) -> CaptureRegion {
    CaptureRegion { start_x: d.left, start_y: d.top, end_x: d.right, end_y: d.bottom }
}

/// The region a request asks for once its display id resolved: the request's
/// own region, or the selected display's full rectangle when it gave none.
/// Absent when the display id is out of range of the enumeration.
pub open spec fn spec_resolved_region(
    options: ScreenshotOptions,
    displays: Seq<display::DisplayRect>,
) -> Option<CaptureRegion> {
    if options.display_id < displays.len() {
        Some(
            match options.region {
                Some(r) => r,
                None => spec_default_region(displays[options.display_id as int]),
            },
        )
    } else {
        None
    }
}

/// Resolves a request to the absolute region it asks to capture, before any
/// platform resource is touched.
///
/// A display id outside the enumeration fails display resolution; a region
/// without positive extent on both axes (given or defaulted) is an empty
/// region, a capture error.
pub fn resolve_region(options: &ScreenshotOptions, displays: &Vec<display::DisplayRect>) -> (r:
    Result<CaptureRegion, CaptureErrorKind>)
    ensures
        options.display_id >= displays@.len() ==> r == Err::<CaptureRegion, CaptureErrorKind>(
            CaptureErrorKind::DisplayResolutionError,
        ),
        spec_resolved_region(*options, displays@) matches Some(reg) ==> if reg.is_valid() {
            r == Ok::<CaptureRegion, CaptureErrorKind>(reg)
        } else {
            r == Err::<CaptureRegion, CaptureErrorKind>(
                CaptureErrorKind::CaptureError(CaptureFault::EmptyRegion),
            )
        },
{
    let rect = match display::rect_for_display(displays, options.display_id) {
        Some(rect) => rect,
        None => {
            return Err(CaptureErrorKind::DisplayResolutionError);
        },
    };
    let region = match options.region {
        Some(r) => r,
        None => CaptureRegion {
            start_x: rect.left,
            start_y: rect.top,
            end_x: rect.right,
            end_y: rect.bottom,
        },
    };
    if region.valid() {
        Ok(region)
    } else {
        Err(CaptureErrorKind::CaptureError(CaptureFault::EmptyRegion))
    }
}

/// Runs the whole pipeline on the result of a pixel transfer: resolves the
/// request to a region, checks the transferred bytes against it, corrects
/// the channel order, and encodes in the requested format. Returns the
/// encoded byte stream.
///
/// The transfer itself is platform I/O and happens outside the library; the
/// caller performs it for the region `resolve_region` gives on these same
/// arguments and hands in what came back. Every failure maps to the error
/// kind of the step that observed it, and the first failure aborts the rest:
/// a resolution or region error is reported whatever the transfer did, a
/// failed or missized transfer is never encoded, and no partial output is
/// returned.
pub fn take_screenshot(
    options: &ScreenshotOptions,
    displays: &Vec<display::DisplayRect>,
    transfer: Result<Vec<u8>, CaptureFault>,
) -> (r: Result<Vec<u8>, CaptureErrorKind>)
    ensures
        options.display_id >= displays@.len() ==> r == Err::<Vec<u8>, CaptureErrorKind>(
            CaptureErrorKind::DisplayResolutionError,
        ),
        spec_resolved_region(*options, displays@) matches Some(reg) ==> (!reg.is_valid() ==> r
            == Err::<Vec<u8>, CaptureErrorKind>(
            CaptureErrorKind::CaptureError(CaptureFault::EmptyRegion),
        )),
        spec_resolved_region(*options, displays@) matches Some(reg) ==> (reg.is_valid()
            ==> match transfer {
            Err(f) => r == Err::<Vec<u8>, CaptureErrorKind>(CaptureErrorKind::CaptureError(f)),
            Ok(raw) => if raw@.len() != reg.byte_len() {
                r == Err::<Vec<u8>, CaptureErrorKind>(
                    CaptureErrorKind::CaptureError(CaptureFault::Transfer),
                )
            } else {
                (r matches Ok(b) ==> b@ == codec::spec_encoded(
                    options.output_format,
                    pixel::swapped(raw@),
                    reg.spec_width() as u32,
                    reg.spec_height() as u32,
                )) && (r is Err ==> r == Err::<Vec<u8>, CaptureErrorKind>(
                    CaptureErrorKind::EncodeError,
                )) && (options.output_format is WebP && codec::webp_dims_ok(
                    reg.spec_width() as u32,
                    reg.spec_height() as u32,
                ) ==> r is Ok)
            },
        }),
{
    let region = match resolve_region(options, displays) {
        Ok(reg) => reg,
        Err(e) => {
            return Err(e);
        },
    };
    let mut buffer = match pixel::grab(&region, transfer) {
        Ok(b) => b,
        Err(e) => {
            return Err(e);
        },
    };
    buffer.normalize();
    let width = buffer.width();
    let height = buffer.height();
    codec::encode(buffer.data(), width, height, &options.output_format)
}

} // verus!
