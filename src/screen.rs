use vstd::prelude::*;

use crate::geometry::{clamped_rect, Area, DisplayInfo};
use crate::image::RawImage;

verus! {

/// Why an operation on screens failed.
#[derive(Debug, Clone, PartialEq, Eq)]
pub enum ScreenError {
    /// The displays could not be enumerated.
    Discovery(String),
    /// No display contains the point asked for.
    NotFound(String),
    /// The requested rectangle is empty once clamped to the display.
    InvalidArea,
    /// The platform's capture call failed, with its diagnostic.
    Capture(String),
}

/// The platform's capture calls. Areas handed to it are already clamped to
/// the display; it reports only its own failures.
pub trait CaptureBackend {
    /// What a capture of the whole display may return. A backend may narrow
    /// it; by default any result is allowed.
    open spec fn full_result(&self, display: DisplayInfo, r: Result<RawImage, String>) -> bool {
        true
    }

    /// What a capture of `area` of the display may return. A backend may
    /// narrow it; by default any result is allowed.
    open spec fn area_result(&self, display: DisplayInfo, area: Area, r: Result<RawImage, String>) -> bool {
        true
    }

    /// Captures the whole display.
    fn capture_full(&self, display: &DisplayInfo) -> (r: Result<RawImage, String>)
        ensures
            self.full_result(*display, r),
    ;

    /// Captures `area`, given in the display's local coordinates.
    fn capture_area(&self, display: &DisplayInfo, area: &Area) -> (r: Result<RawImage, String>)
        requires
            area.fits(*display),
        ensures
            self.area_result(*display, *area, r),
    ;
}

/// One display, and the captures that can be taken of it.
#[derive(Debug, Clone, Copy, PartialEq, Eq, Structural)]
pub struct Screen {
    pub display_info: DisplayInfo,
}

/// What a capture returns, given what the backend returned: its image where
/// the buffer fits the image's size, else a capture failure.
pub open spec fn accepted(got: Result<RawImage, String>, r: Result<RawImage, ScreenError>) -> bool {
    match got {
        Ok(img) => if img.well_formed() {
            r matches Ok(out) && out.width == img.width && out.height == img.height
                && out.data@ == img.data@
        } else {
            r matches Err(ScreenError::Capture(_))
        },
        Err(msg) => r == Err::<RawImage, ScreenError>(ScreenError::Capture(msg)),
    }
}

impl Screen {
    pub fn new(display_info: &DisplayInfo) -> (r: Self)
        ensures
            r.display_info == *display_info,
    {
        Screen { display_info: *display_info }
    }

    /// Turns what a backend returned into the result of a capture: an image
    /// whose buffer does not match its size is refused.
    pub fn accept(got: Result<RawImage, String>) -> (r: Result<RawImage, ScreenError>)
        ensures
            accepted(got, r),
            r matches Ok(img) ==> img.well_formed(),
    {
        match got {
            Ok(img) => {
                if img.is_well_formed() {
                    Ok(img)
                } else {
                    Err(ScreenError::Capture(String::from_str("buffer size does not match the image size")))
                }
            },
            Err(msg) => Err(ScreenError::Capture(msg)),
        }
    }

    /// Captures the whole screen: the backend captures the screen's display,
    /// and what it returned goes through [`Screen::accept`].
    pub fn capture<B: CaptureBackend>(&self, backend: &B) -> (r: Result<RawImage, ScreenError>)
        ensures
            exists|got: Result<RawImage, String>|
                #[trigger] backend.full_result(self.display_info, got) && accepted(got, r),
            match r {
                Ok(img) => img.well_formed(),
                Err(e) => e is Capture,
            },
    {
        let got = backend.capture_full(&self.display_info);
        let r = Self::accept(got);
        assert(backend.full_result(self.display_info, got) && accepted(got, r));
        r
    }

    /// Captures the part of the screen that the rectangle `(x, y, width,
    /// height)`, in the screen's local coordinates, covers once clamped to the
    /// screen's bounds. An empty or inverted clamped rectangle is refused
    /// before the backend is called; otherwise the backend captures the
    /// clamped area and what it returned goes through [`Screen::accept`].
    pub fn capture_area<B: CaptureBackend>(
        &self,
        backend: &B,
        x: i32,
        y: i32,
        width: u32,
        height: u32,
    ) -> (r: Result<RawImage, ScreenError>)
        ensures
            clamped_rect(self.display_info, x as int, y as int, width as int, height as int) is None
                <==> r == Err::<RawImage, ScreenError>(ScreenError::InvalidArea),
            match r {
                Ok(img) => img.well_formed(),
                Err(e) => e is InvalidArea || e is Capture,
            },
            r != Err::<RawImage, ScreenError>(ScreenError::InvalidArea) ==> exists|
                a: Area,
                got: Result<RawImage, String>,
            |
                clamped_rect(self.display_info, x as int, y as int, width as int, height as int)
                    == Some(a.rect()) && #[trigger] backend.area_result(self.display_info, a, got)
                    && accepted(got, r),
    {
        match self.display_info.clamp_area(x, y, width, height) {
            None => Err(ScreenError::InvalidArea),
            Some(area) => {
                let got = backend.capture_area(&self.display_info, &area);
                let r = Self::accept(got);
                assert(backend.area_result(self.display_info, area, got) && accepted(got, r));
                r
            },
        }
    }
}

} // verus!
