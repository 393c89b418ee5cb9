//! The video timing state machine: a per-dot finite-state machine over
//! scanline and dot counters, producing a finished frame buffer at the
//! defined boundaries.
//!
//! One `tick` advances exactly one dot.  Dot counters are independent per
//! state, each counted from zero at state entry:
//!
//! - `Off`: no transition; frame production suspended.
//! - `OAMSearch`: the dot counter increments; at dot 19 the machine enters
//!   `Draw` and the counter resets.
//! - `Draw`: the dot counter increments; at dot 62 the machine enters
//!   `HBlank` and the counter resets.
//! - `HBlank`: the dot counter increments; at dot 113 the machine enters
//!   `VBlank` if the scanline is 143 and `Draw` otherwise, the scanline
//!   increments and the counter resets.
//! - `VBlank`: the dot counter increments; at dot 113 the machine returns to
//!   `OAMSearch` with the scanline reset to zero if the scanline is 153,
//!   otherwise the scanline increments; the counter resets.
//!
//! A frame is produced once per `start` call and once per completed
//! OAMSearch-Draw-HBlank scan cycle.  The rendered content is a placeholder
//! gradient, not pixel-accurate tile decoding.

use vstd::prelude::*;

verus! {

/// The mode of the video timing machine; every non-`Off` mode corresponds
/// to a phase of producing one scanline or the vertical blank.
#[derive(Clone, Copy, Debug, PartialEq, Eq, Structural)]
pub enum PPUState {
    Off,
    HBlank,
    VBlank,
    OAMSearch,
    Draw,
}

/// The display width in pixels.
pub const LCD_WIDTH: u32 = 160;

/// The display height in pixels.
pub const LCD_HEIGHT: u32 = 144;

/// The video timing state machine.
pub struct PPU {
    /// Current mode.
    pub state: PPUState,
    /// Width of the virtual display, fixed at `LCD_WIDTH`.
    pub width: u32,
    /// Height of the virtual display, fixed at `LCD_HEIGHT`.
    pub height: u32,
    /// The scanline currently being processed (0-153).
    pub ly: u32,
    /// The dot counter within the current state, counted from state entry (0-113).
    pub lclk: u32,
    /// Value compared with `ly`; reserved for scanline-match interrupts.
    pub lyc: u32,
    /// Offset of the background map in video RAM (LCD-control bit 3).
    pub bgr_map_off: u16,
    /// Offset of the window map in video RAM (LCD-control bit 6).
    pub win_map_off: u16,
    /// Offset of the background/window tile data in video RAM (LCD-control bit 4).
    pub bgr_dat_off: u16,
}

/// The grey level of the placeholder gradient at column `x`: the column
/// scaled linearly onto the 0-255 range.
pub open spec fn gradient(x: int) -> u8 {
    ((x * 255) / 160) as u8
}

/// One finished frame: row-major RGB8, each of the three channels of the
/// pixel in column `x` holding the gradient level of `x`.
pub open spec fn frame_seq() -> Seq<u8> {
    Seq::new(160 * 144 * 3, |i: int| gradient((i / 3) % 160))
}

/// Whether this tick completes an OAMSearch-Draw-HBlank scan cycle, the
/// boundary at which a frame is produced.
pub open spec fn frame_due(p: PPU) -> bool {
    p.state is HBlank && p.lclk == 113
}

/// The state after one dot, per the transition table above.
pub open spec fn spec_tick(p: PPU) -> PPU {
    match p.state {
        PPUState::Off => p,
        PPUState::OAMSearch => if p.lclk == 19 {
            PPU { state: PPUState::Draw, lclk: 0, ..p }
        } else {
            PPU { lclk: (p.lclk + 1) as u32, ..p }
        },
        PPUState::Draw => if p.lclk == 62 {
            PPU { state: PPUState::HBlank, lclk: 0, ..p }
        } else {
            PPU { lclk: (p.lclk + 1) as u32, ..p }
        },
        PPUState::HBlank => if p.lclk == 113 {
            PPU {
                state: if p.ly == 143 {
                    PPUState::VBlank
                } else {
                    PPUState::Draw
                },
                ly: (p.ly + 1) as u32,
                lclk: 0,
                ..p
            }
        } else {
            PPU { lclk: (p.lclk + 1) as u32, ..p }
        },
        PPUState::VBlank => if p.lclk == 113 {
            if p.ly == 153 {
                PPU { state: PPUState::OAMSearch, ly: 0, lclk: 0, ..p }
            } else {
                PPU { ly: (p.ly + 1) as u32, lclk: 0, ..p }
            }
        } else {
            PPU { lclk: (p.lclk + 1) as u32, ..p }
        },
    }
}

impl PPU {
    /// Well-formedness: the display size is fixed and the counters stay
    /// inside the bounds of their current mode.
    pub open spec fn wf(self) -> bool {
        &&& self.width == LCD_WIDTH
        &&& self.height == LCD_HEIGHT
        &&& self.ly <= 153
        &&& ((self.state is OAMSearch || self.state is Draw || self.state is HBlank)
            ==> self.ly <= 143)
        &&& match self.state {
            PPUState::Off => self.lclk <= 113,
            PPUState::OAMSearch => self.lclk <= 19,
            PPUState::Draw => self.lclk <= 62,
            PPUState::HBlank => self.lclk <= 113,
            PPUState::VBlank => self.lclk <= 113,
        }
    }

    /// The power-on state: off, all counters zero.
    pub open spec fn initial() -> PPU {
        PPU {
            state: PPUState::Off,
            width: LCD_WIDTH,
            height: LCD_HEIGHT,
            ly: 0,
            lclk: 0,
            lyc: 0,
            bgr_map_off: 0,
            win_map_off: 0,
            bgr_dat_off: 0,
        }
    }

    pub fn new() -> (p: PPU)
        ensures
            p == PPU::initial(),
            p.wf(),
    {
        PPU {
            state: PPUState::Off,
            width: LCD_WIDTH,
            height: LCD_HEIGHT,
            ly: 0,
            lclk: 0,
            lyc: 0,
            bgr_map_off: 0,
            win_map_off: 0,
            bgr_dat_off: 0,
        }
    }

    /// Render the placeholder gradient frame.
    pub fn render(&self) -> (pixels: Vec<u8>)
        requires
            self.wf(),
        ensures
            pixels@ == frame_seq(),
    {
        let total: u32 = LCD_WIDTH * LCD_HEIGHT * 3;
        let mut pixels: Vec<u8> = Vec::new();
        let mut i: u32 = 0;
        while i < total
            invariant
                total == 160 * 144 * 3,
                i <= total,
                pixels@.len() == i,
                forall|j: int| 0 <= j < i ==> pixels@[j] == gradient((j / 3) % 160),
            decreases total - i,
        {
            let x: u32 = (i / 3) % 160;
            let pcolor: u32 = x * 255 / 160;
            pixels.push(pcolor as u8);
            i += 1;
        }
        proof {
            assert(pixels@ =~= frame_seq());
        }
        pixels
    }

    /// Advance the machine by exactly one dot.  Returns the finished frame
    /// when this tick completes a scan cycle, and `None` otherwise.
    pub fn tick(&mut self) -> (frame: Option<Vec<u8>>)
        requires
            old(self).wf(),
        ensures
            final(self).wf(),
            *final(self) == spec_tick(*old(self)),
            frame is Some <==> frame_due(*old(self)),
            (frame matches Some(p) ==> p@ == frame_seq()),
    {
        let due = matches!(self.state, PPUState::HBlank) && self.lclk == 113;
        match self.state {
            PPUState::Off => (),
            PPUState::HBlank => {
                if self.lclk == 113 {
                    if self.ly == 143 {
                        self.state = PPUState::VBlank;
                    } else {
                        self.state = PPUState::Draw;
                    }
                    self.ly += 1;
                    self.lclk = 0;
                } else {
                    self.lclk += 1;
                }
            },
            PPUState::VBlank => {
                if self.lclk == 113 {
                    if self.ly == 153 {
                        self.state = PPUState::OAMSearch;
                        self.ly = 0;
                    } else {
                        self.ly += 1;
                    }
                    self.lclk = 0;
                } else {
                    self.lclk += 1;
                }
            },
            PPUState::OAMSearch => {
                if self.lclk == 19 {
                    self.state = PPUState::Draw;
                    self.lclk = 0;
                } else {
                    self.lclk += 1;
                }
            },
            PPUState::Draw => {
                if self.lclk == 62 {
                    self.state = PPUState::HBlank;
                    self.lclk = 0;
                } else {
                    self.lclk += 1;
                }
            },
        }
        if due {
            Some(self.render())
        } else {
            None
        }
    }

    /// Force the machine into `OAMSearch` with both counters zeroed and
    /// produce a frame at once.  The caller hands the frame to the display
    /// surface and calls `stop` if that surface is no longer open.
    pub fn start(&mut self) -> (frame: Vec<u8>)
        requires
            old(self).wf(),
        ensures
            final(self).wf(),
            *final(self) == (PPU {
                state: PPUState::OAMSearch,
                ly: 0,
                lclk: 0,
                ..*old(self)
            }),
            frame@ == frame_seq(),
    {
        self.state = PPUState::OAMSearch;
        self.lclk = 0;
        self.ly = 0;
        self.render()
    }

    /// Force the machine off; frame production is suspended until `start`.
    pub fn stop(&mut self)
        requires
            old(self).wf(),
        ensures
            final(self).wf(),
            *final(self) == (PPU { state: PPUState::Off, ..*old(self) }),
    {
        self.state = PPUState::Off;
    }

    /// Whether the machine is in any mode other than `Off`.
    pub fn is_running(&self) -> (r: bool)
        ensures
            r == !(self.state is Off),
    {
        !matches!(self.state, PPUState::Off)
    }
}

} // verus!
