//! The geometry of a linear framebuffer with 32-bit pixels: where a pixel
//! lies and how a colour is packed. The pixels themselves are device memory
//! and are not touched here.

use vstd::prelude::*;

verus! {

/// The pixel that holds three channel values, each shifted to the position
/// of its channel.
pub open spec fn packed(
    r: u8,
    g: u8,
    b: u8,
    red_shift: u8,
    green_shift: u8,
    blue_shift: u8,
) -> u32 {
    ((r as u32) << (red_shift as u32)) | ((g as u32) << (green_shift as u32)) | ((b as u32) << (
    blue_shift as u32))
}

/// The pixel of a colour given by its red, green and blue parts, for a
/// pixel format given by the positions of its channels.
pub fn pack_color(
    r: u8,
    g: u8,
    b: u8,
    red_shift: u8,
    green_shift: u8,
    blue_shift: u8,
) -> (pixel: u32)
    requires
        red_shift < 32,
        green_shift < 32,
        blue_shift < 32,
    ensures
        pixel == packed(r, g, b, red_shift, green_shift, blue_shift),
{
    ((r as u32) << (red_shift as u32)) | ((g as u32) << (green_shift as u32)) | ((b as u32) << (
    blue_shift as u32))
}

/// What addressing the pixels of a framebuffer takes.
pub struct FrameModel {
    /// Pixels in a row.
    pub width: nat,
    /// Rows.
    pub height: nat,
    /// Distance between the starts of two rows, in pixels.
    pub pitch: nat,
    /// Position of the lowest bit of the red channel in a pixel.
    pub red_shift: nat,
    /// Position of the lowest bit of the green channel in a pixel.
    pub green_shift: nat,
    /// Position of the lowest bit of the blue channel in a pixel.
    pub blue_shift: nat,
}

impl FrameModel {
    /// Each colour channel starts inside the 32 bits of a pixel.
    pub open spec fn channels_fit(self) -> bool {
        self.red_shift < 32 && self.green_shift < 32 && self.blue_shift < 32
    }

    /// The pixel that holds the three channel values, each at its position.
    pub open spec fn pack(self, r: u8, g: u8, b: u8) -> u32 {
        packed(r, g, b, self.red_shift as u8, self.green_shift as u8, self.blue_shift as u8)
    }

    /// Index of pixel (`x`, `y`) counted in pixels from the start of the
    /// framebuffer.
    pub open spec fn offset(self, y: nat, x: nat) -> nat {
        y * self.pitch + x
    }

    /// The pixel (`x`, `y`) lies on the screen.
    pub open spec fn on_screen(self, x: int, y: int) -> bool {
        0 <= x < self.width && 0 <= y < self.height
    }
}

/// A framebuffer with 32-bit pixels, as the loader describes it.
pub struct Framebuffer {
    width: u64,
    height: u64,
    pitch: u64,
    red_mask_shift: u8,
    green_mask_shift: u8,
    blue_mask_shift: u8,
}

impl View for Framebuffer {
    type V = FrameModel;

    closed spec fn view(&self) -> FrameModel {
        FrameModel {
            width: (self.width as usize) as nat,
            height: (self.height as usize) as nat,
            pitch: ((self.pitch as usize) / 4) as nat,
            red_shift: self.red_mask_shift as nat,
            green_shift: self.green_mask_shift as nat,
            blue_shift: self.blue_mask_shift as nat,
        }
    }
}

/// The geometry that a description of a framebuffer gives: width, height
/// and the shifts as they are, and the pitch converted from bytes to pixels
/// of four bytes.
pub open spec fn geometry(
    width: u64,
    height: u64,
    pitch: u64,
    red_mask_shift: u8,
    green_mask_shift: u8,
    blue_mask_shift: u8,
) -> FrameModel {
    FrameModel {
        width: (width as usize) as nat,
        height: (height as usize) as nat,
        pitch: ((pitch as usize) / 4) as nat,
        red_shift: red_mask_shift as nat,
        green_shift: green_mask_shift as nat,
        blue_shift: blue_mask_shift as nat,
    }
}

impl Framebuffer {
    /// A framebuffer of `width` by `height` pixels whose rows lie `pitch`
    /// bytes apart. Only pixels of 32 bits are supported.
    pub fn new(
        width: u64,
        height: u64,
        pitch: u64,
        bpp: u16,
        red_mask_shift: u8,
        green_mask_shift: u8,
        blue_mask_shift: u8,
    ) -> (fb: Self)
        requires
            bpp == 32,
        ensures
            fb@ == geometry(
                width,
                height,
                pitch,
                red_mask_shift,
                green_mask_shift,
                blue_mask_shift,
            ),
    {
        Framebuffer { width, height, pitch, red_mask_shift, green_mask_shift, blue_mask_shift }
    }

    /// Pixels in a row.
    pub fn width(&self) -> (width: usize)
        ensures
            width == self@.width,
    {
        self.width as usize
    }

    /// Rows.
    pub fn height(&self) -> (height: usize)
        ensures
            height == self@.height,
    {
        self.height as usize
    }

    /// Distance between the starts of two rows, in pixels.
    pub fn pitch_u32(&self) -> (pitch: usize)
        ensures
            pitch == self@.pitch,
    {
        self.pitch as usize / 4
    }

    /// The pixel of a colour given by its red, green and blue parts.
    pub fn rgb_color(&self, r: u8, g: u8, b: u8) -> (pixel: u32)
        requires
            self@.channels_fit(),
        ensures
            pixel == self@.pack(r, g, b),
    {
        pack_color(r, g, b, self.red_mask_shift, self.green_mask_shift, self.blue_mask_shift)
    }

    /// Whether each colour channel starts inside the 32 bits of a pixel.
    pub fn channels_fit(&self) -> (b: bool)
        ensures
            b == self@.channels_fit(),
    {
        self.red_mask_shift < 32 && self.green_mask_shift < 32 && self.blue_mask_shift < 32
    }

    /// Index of pixel (`x`, `y`), counted in pixels from the start of the
    /// framebuffer; `None` where the pixel lies off the screen or its index
    /// beyond the machine word.
    pub fn element_offset(&self, y: usize, x: usize) -> (offset: Option<usize>)
        ensures
            offset == if self@.on_screen(x as int, y as int) && self@.offset(y as nat, x as nat)
                <= usize::MAX {
                Some(self@.offset(y as nat, x as nat) as usize)
            } else {
                None
            },
    {
        if x < self.width() && y < self.height() {
            match y.checked_mul(self.pitch_u32()) {
                Some(row) => row.checked_add(x),
                None => {
                    None
                },
            }
        } else {
            None
        }
    }

    /// Number of pixels between the start of the first row and the end of
    /// the last, padding of the rows included: what clearing the screen
    /// overwrites. `None` where that number lies beyond the machine word.
    pub fn clear_len(&self) -> (pixels: Option<usize>)
        ensures
            pixels == if self@.pitch * self@.height <= usize::MAX {
                Some((self@.pitch * self@.height) as usize)
            } else {
                None
            },
    {
        self.pitch_u32().checked_mul(self.height())
    }

    /// Whether pixel (`x`, `y`) lies on the screen.
    pub fn is_on_screen(&self, x: usize, y: usize) -> (b: bool)
        ensures
            b == self@.on_screen(x as int, y as int),
    {
        x < self.width() && y < self.height()
    }
}

} // verus!
