//! Rendering vocabulary that carries no geometry: surface depth, theme,
//! shell hit regions, text styles, driver choice, and the tags that key the
//! surface cache.

use vstd::prelude::*;

verus! {

/// Depth of a surface. The light source is fixed at the top-left, so `Raised`
/// casts light up-left and dark down-right, and `Inset` inverts both.
#[derive(Copy, Clone, Debug, PartialEq, Eq, Structural)]
pub enum Elevation {
    Raised,
    Inset,
    Flat,
}

#[derive(Copy, Clone, Debug, PartialEq, Eq, Structural)]
pub enum Theme {
    Light,
    Dark,
}

/// Where a point lands on the custom window shell. Names mirror the `HT*`
/// constants the window procedure translates them into.
#[derive(Copy, Clone, Debug, PartialEq, Eq, Structural)]
pub enum HitRegion {
    Client,
    Caption,
    MinButton,
    MaxButton,
    CloseButton,
    Left,
    Right,
    Top,
    Bottom,
    TopLeft,
    TopRight,
    BottomLeft,
    BottomRight,
}

impl HitRegion {
    /// True for regions the system handles itself once the window procedure
    /// reports them (drag, resize, Snap Layouts): everything but the client
    /// area and the minimise and close buttons.
    pub fn is_system_managed(self) -> (r: bool)
        ensures
            r == !(self == HitRegion::Client || self == HitRegion::MinButton || self
                == HitRegion::CloseButton),
    {
        match self {
            HitRegion::Client | HitRegion::MinButton | HitRegion::CloseButton => false,
            _ => true,
        }
    }
}

/// Where a point lies relative to the shell's bands, as the host measures it
/// in pixels: within the resize border on each side, within the caption's
/// height, and within one, two or three caption-button widths of the right
/// edge.
#[derive(Copy, Clone, Debug, PartialEq, Eq, Structural)]
pub struct ShellPoint {
    pub top: bool,
    pub bottom: bool,
    pub left: bool,
    pub right: bool,
    pub in_caption: bool,
    pub within_one_button: bool,
    pub within_two_buttons: bool,
    pub within_three_buttons: bool,
}

/// The hit region of a point. Resize edges only exist on a window that is
/// not maximized, and corners win over edges (testing edges first would make
/// corners unreachable); then the caption, whose right end holds, from the
/// edge inwards, the close, maximise and minimise buttons; then the client.
pub open spec fn spec_hit_region(p: ShellPoint, maximized: bool) -> HitRegion {
    if !maximized && p.top && p.left {
        HitRegion::TopLeft
    } else if !maximized && p.top && p.right {
        HitRegion::TopRight
    } else if !maximized && p.bottom && p.left {
        HitRegion::BottomLeft
    } else if !maximized && p.bottom && p.right {
        HitRegion::BottomRight
    } else if !maximized && p.top {
        HitRegion::Top
    } else if !maximized && p.bottom {
        HitRegion::Bottom
    } else if !maximized && p.left {
        HitRegion::Left
    } else if !maximized && p.right {
        HitRegion::Right
    } else if p.in_caption {
        if p.within_one_button {
            HitRegion::CloseButton
        } else if p.within_two_buttons {
            HitRegion::MaxButton
        } else if p.within_three_buttons {
            HitRegion::MinButton
        } else {
            HitRegion::Caption
        }
    } else {
        HitRegion::Client
    }
}

pub fn hit_region(p: ShellPoint, maximized: bool) -> (r: HitRegion)
    ensures
        r == spec_hit_region(p, maximized),
        !p.top && !p.bottom && !p.left && !p.right ==> r == spec_hit_region(p, !maximized),
        (maximized || (!p.top && !p.bottom && !p.left && !p.right)) && p.in_caption ==> (
        p.within_one_button ==> r == HitRegion::CloseButton) && (!p.within_one_button
            && p.within_two_buttons ==> r == HitRegion::MaxButton) && (!p.within_one_button
            && !p.within_two_buttons && p.within_three_buttons ==> r == HitRegion::MinButton),
{
    if !maximized {
        if p.top && p.left {
            return HitRegion::TopLeft;
        }
        if p.top && p.right {
            return HitRegion::TopRight;
        }
        if p.bottom && p.left {
            return HitRegion::BottomLeft;
        }
        if p.bottom && p.right {
            return HitRegion::BottomRight;
        }
        if p.top {
            return HitRegion::Top;
        }
        if p.bottom {
            return HitRegion::Bottom;
        }
        if p.left {
            return HitRegion::Left;
        }
        if p.right {
            return HitRegion::Right;
        }
    }
    if p.in_caption {
        if p.within_one_button {
            return HitRegion::CloseButton;
        }
        if p.within_two_buttons {
            return HitRegion::MaxButton;
        }
        if p.within_three_buttons {
            return HitRegion::MinButton;
        }
        return HitRegion::Caption;
    }
    HitRegion::Client
}

/// Away from the resize border, maximizing changes nothing: the caption, its
/// close, maximise and minimise buttons, and the client area are where they
/// are whether or not the window is maximized. On the caption, the first
/// button band from the right is close, the second (and not the first) is
/// maximise/restore, the third (and neither before it) minimise, and past
/// them the caption itself; below it, the client.
pub proof fn lemma_buttons_do_not_depend_on_maximizing(p: ShellPoint, maximized: bool)
    requires
        !p.top && !p.bottom && !p.left && !p.right,
    ensures
        spec_hit_region(p, true) == spec_hit_region(p, false),
        p.in_caption && p.within_one_button ==> spec_hit_region(p, maximized) == HitRegion::CloseButton,
        p.in_caption && !p.within_one_button && p.within_two_buttons ==> spec_hit_region(p, maximized)
            == HitRegion::MaxButton,
        p.in_caption && !p.within_one_button && !p.within_two_buttons && p.within_three_buttons
            ==> spec_hit_region(p, maximized) == HitRegion::MinButton,
        p.in_caption && !p.within_one_button && !p.within_two_buttons && !p.within_three_buttons
            ==> spec_hit_region(p, maximized) == HitRegion::Caption,
        !p.in_caption ==> spec_hit_region(p, maximized) == HitRegion::Client,
{
}

/// A maximized window has no resize regions at all: every point is client,
/// caption or a caption button.
pub proof fn lemma_maximized_has_no_resize_edges(p: ShellPoint)
    ensures
        ({
            let r = spec_hit_region(p, true);
            r == HitRegion::Client || r == HitRegion::Caption || r == HitRegion::CloseButton
                || r == HitRegion::MaxButton || r == HitRegion::MinButton
        }),
{
}

#[derive(Copy, Clone, Debug, PartialEq, Eq, Structural)]
pub enum TextStyle {
    Body,
    Large,
}

/// Which D3D driver to create the device stack on.
#[derive(Copy, Clone, Debug, PartialEq, Eq, Structural)]
pub enum DriverKind {
    /// The GPU. What ships.
    Hardware,
    /// The software rasterizer. Bit-identical across machines, which is what
    /// makes golden-image comparison meaningful rather than flaky.
    Warp,
}

/// Result codes that mean the graphics device is gone and the rendering
/// stack must be rebuilt (`0x887A0005`, `0x887A0007`, `0x887A0006`,
/// `0x887A0020`, `0x8899000C` read as signed 32-bit values).
pub const DXGI_ERROR_DEVICE_REMOVED: i32 = -2005270523;
pub const DXGI_ERROR_DEVICE_RESET: i32 = -2005270521;
pub const DXGI_ERROR_DEVICE_HUNG: i32 = -2005270522;
pub const DXGI_ERROR_DRIVER_INTERNAL_ERROR: i32 = -2005270496;
pub const D2DERR_RECREATE_TARGET: i32 = -2003238900;

/// True for the result codes after which the device stack must be rebuilt.
/// Driver updates and GPU resets produce these in ordinary use; ignoring them
/// leaves a permanently black window. Any other failure is not device loss,
/// so an unrelated error never sends the host into a rebuild loop.
pub fn is_device_lost(code: i32) -> (r: bool)
    ensures
        r == (code == DXGI_ERROR_DEVICE_REMOVED || code == DXGI_ERROR_DEVICE_RESET || code
            == DXGI_ERROR_DEVICE_HUNG || code == DXGI_ERROR_DRIVER_INTERNAL_ERROR || code
            == D2DERR_RECREATE_TARGET),
{
    code == DXGI_ERROR_DEVICE_REMOVED || code == DXGI_ERROR_DEVICE_RESET || code
        == DXGI_ERROR_DEVICE_HUNG || code == DXGI_ERROR_DRIVER_INTERNAL_ERROR || code
        == D2DERR_RECREATE_TARGET
}

/// Cache-key tag of an elevation; distinct elevations get distinct tags.
pub fn elev_tag(e: Elevation) -> (t: u8)
    ensures
        t == (match e {
            Elevation::Raised => 0u8,
            Elevation::Inset => 1u8,
            Elevation::Flat => 2u8,
        }),
{
    match e {
        Elevation::Raised => 0,
        Elevation::Inset => 1,
        Elevation::Flat => 2,
    }
}

/// Cache-key tag of a theme; distinct themes get distinct tags.
pub fn theme_tag(t: Theme) -> (r: u8)
    ensures
        r == (match t {
            Theme::Light => 0u8,
            Theme::Dark => 1u8,
        }),
{
    match t {
        Theme::Light => 0,
        Theme::Dark => 1,
    }
}

} // verus!
