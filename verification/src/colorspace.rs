use vstd::prelude::*;

verus! {

/// Which device colorspace a pixel buffer uses.
#[derive(Clone, Copy, Debug, PartialEq, Eq, Structural)]
pub enum ColorspaceKind {
    Gray,
    Rgb,
    Bgr,
    Cmyk,
}

/// A device colorspace: the engine's built-in colorspaces carry no
/// per-instance state, so a value of this type is fully described by its
/// kind and needs no allocation of its own.
#[derive(Clone, Copy, Debug, PartialEq, Eq, Structural)]
pub struct Colorspace {
    pub kind: ColorspaceKind,
}

impl Colorspace {
    /// Color components per pixel, alpha not counted.
    pub open spec fn spec_n(self) -> u8 {
        match self.kind {
            ColorspaceKind::Gray => 1,
            ColorspaceKind::Rgb => 3,
            ColorspaceKind::Bgr => 3,
            ColorspaceKind::Cmyk => 4,
        }
    }

    /// The device gray colorspace: one component per pixel.
    pub fn device_gray() -> (cs: Colorspace)
        ensures
            cs.kind == ColorspaceKind::Gray,
            cs.spec_n() == 1,
    {
        Colorspace { kind: ColorspaceKind::Gray }
    }

    /// The device RGB colorspace: three components per pixel.
    pub fn device_rgb() -> (cs: Colorspace)
        ensures
            cs.kind == ColorspaceKind::Rgb,
            cs.spec_n() == 3,
    {
        Colorspace { kind: ColorspaceKind::Rgb }
    }

    /// The device BGR colorspace: three components per pixel.
    pub fn device_bgr() -> (cs: Colorspace)
        ensures
            cs.kind == ColorspaceKind::Bgr,
            cs.spec_n() == 3,
    {
        Colorspace { kind: ColorspaceKind::Bgr }
    }

    /// The device CMYK colorspace: four components per pixel.
    pub fn device_cmyk() -> (cs: Colorspace)
        ensures
            cs.kind == ColorspaceKind::Cmyk,
            cs.spec_n() == 4,
    {
        Colorspace { kind: ColorspaceKind::Cmyk }
    }

    /// Color components per pixel, alpha not counted.
    pub fn n(&self) -> (n: u8)
        ensures
            n == self.spec_n(),
    {
        match self.kind {
            ColorspaceKind::Gray => 1,
            ColorspaceKind::Rgb => 3,
            ColorspaceKind::Bgr => 3,
            ColorspaceKind::Cmyk => 4,
        }
    }
}

} // verus!
