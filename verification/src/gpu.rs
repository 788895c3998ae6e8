//! The picture processing unit: video memory with its cache of decoded tiles,
//! the four-mode scanline cycle, and the drawing of one line of the frame at a
//! time.

use crate::utils::{
    bit, bit_is_set, bit_value, lemma_pack_bits, lemma_pack_status, lemma_test_bits,
    lemma_two_bit_fields, test_bit,
};
use vstd::array::spec_array_update;
use vstd::prelude::*;

verus! {

pub const VRAM_BEGIN: usize = 0x8000;

pub const VRAM_END: usize = 0x9FFF;

pub const VRAM_SIZE: usize = 0x2000;

pub const OAM_SIZE: usize = 0xA0;

pub const SCREEN_WIDTH: usize = 160;

pub const SCREEN_HEIGHT: usize = 144;

/// Bytes in the frame buffer: four for each pixel of the screen.
pub const CANVAS_SIZE: usize = 92160;

/// Tiles in the tile cache.
pub const TILE_COUNT: usize = 384;

/// The four shades of the screen.
#[derive(Copy, Clone, Debug, PartialEq, Eq, Structural)]
pub enum Color {
    White,
    LightGray,
    DarkGray,
    Black,
}

impl Color {
    /// The brightness of the shade, used for the red, green and blue bytes of
    /// a pixel alike.
    pub open spec fn spec_shade(self) -> u8 {
        match self {
            Color::White => 255,
            Color::LightGray => 192,
            Color::DarkGray => 96,
            Color::Black => 0,
        }
    }

    /// The number of the shade in a palette byte, 0 for white to 3 for black.
    pub open spec fn spec_index(self) -> int {
        match self {
            Color::White => 0,
            Color::LightGray => 1,
            Color::DarkGray => 2,
            Color::Black => 3,
        }
    }

    /// The shade with the given number; 3 and above give black.
    pub open spec fn spec_from_index(n: int) -> Color {
        if n <= 0 {
            Color::White
        } else if n == 1 {
            Color::LightGray
        } else if n == 2 {
            Color::DarkGray
        } else {
            Color::Black
        }
    }

    /// The brightness of the shade.
    pub fn shade(self) -> (value: u8)
        ensures
            value == self.spec_shade(),
    {
        match self {
            Color::White => 255,
            Color::LightGray => 192,
            Color::DarkGray => 96,
            Color::Black => 0,
        }
    }

    /// The number of the shade in a palette byte.
    pub fn index(self) -> (n: u8)
        ensures
            n == self.spec_index(),
    {
        match self {
            Color::White => 0,
            Color::LightGray => 1,
            Color::DarkGray => 2,
            Color::Black => 3,
        }
    }
}

impl From<u8> for Color {
    fn from(n: u8) -> (color: Color) {
        match n {
            0 => Color::White,
            1 => Color::LightGray,
            2 => Color::DarkGray,
            _ => Color::Black,
        }
    }
}

impl vstd::std_specs::convert::FromSpecImpl<u8> for Color {
    open spec fn obeys_from_spec() -> bool {
        true
    }

    open spec fn from_spec(n: u8) -> Color {
        Color::spec_from_index(n as int)
    }
}

/// A palette: the shade shown for each of the four pixel values, value 0
/// first.
#[derive(Copy, Clone, Debug, PartialEq, Eq, Structural)]
pub struct BackgroundColors(pub Color, pub Color, pub Color, pub Color);

impl BackgroundColors {
    /// The palette that a palette byte describes: two bits for each pixel
    /// value, value 0 in the lowest two.
    pub open spec fn spec_from_byte(value: u8) -> BackgroundColors {
        BackgroundColors(
            Color::spec_from_index(value as int % 4),
            Color::spec_from_index(value as int / 4 % 4),
            Color::spec_from_index(value as int / 16 % 4),
            Color::spec_from_index(value as int / 64),
        )
    }

    /// The palette byte that describes this palette.
    pub open spec fn spec_to_byte(self) -> u8 {
        (self.0.spec_index() + 4 * self.1.spec_index() + 16 * self.2.spec_index() + 64
            * self.3.spec_index()) as u8
    }

    /// The shade that the palette gives to a pixel value.
    pub open spec fn spec_color_of(self, value: TilePixelValue) -> Color {
        match value {
            TilePixelValue::Zero => self.0,
            TilePixelValue::One => self.1,
            TilePixelValue::Two => self.2,
            TilePixelValue::Three => self.3,
        }
    }

    /// The palette in which each pixel value shows as the shade of the same
    /// number.
    pub fn new() -> (colors: BackgroundColors)
        ensures
            colors == BackgroundColors(
                Color::White,
                Color::LightGray,
                Color::DarkGray,
                Color::Black,
            ),
    {
        BackgroundColors(Color::White, Color::LightGray, Color::DarkGray, Color::Black)
    }

    /// The palette byte that describes this palette.
    pub fn to_byte(&self) -> (value: u8)
        ensures
            value == self.spec_to_byte(),
    {
        self.0.index() + 4 * self.1.index() + 16 * self.2.index() + 64 * self.3.index()
    }

    /// The palette that a palette byte describes.
    pub fn from_byte(value: u8) -> (colors: BackgroundColors)
        ensures
            colors == BackgroundColors::spec_from_byte(value),
    {
        proof {
            lemma_two_bit_fields(value);
        }
        BackgroundColors(
            (value & 0b11).into(),
            ((value >> 2) & 0b11).into(),
            ((value >> 4) & 0b11).into(),
            (value >> 6).into(),
        )
    }
}

impl From<u8> for BackgroundColors {
    fn from(value: u8) -> (colors: BackgroundColors) {
        BackgroundColors::from_byte(value)
    }
}

impl vstd::std_specs::convert::FromSpecImpl<u8> for BackgroundColors {
    open spec fn obeys_from_spec() -> bool {
        true
    }

    open spec fn from_spec(value: u8) -> BackgroundColors {
        BackgroundColors::spec_from_byte(value)
    }
}

/// One of the two 32 by 32 maps of tile numbers in video memory.
#[derive(Copy, Clone, Debug, PartialEq, Eq, Structural)]
pub enum TileMap {
    X9800,
    X9C00,
}

impl TileMap {
    /// Where the map starts, counted from the start of video memory.
    pub open spec fn spec_offset(self) -> int {
        match self {
            TileMap::X9800 => 0x1800,
            TileMap::X9C00 => 0x1C00,
        }
    }

    /// Where the map starts, counted from the start of video memory.
    pub fn offset(self) -> (offset: usize)
        ensures
            offset == self.spec_offset(),
    {
        match self {
            TileMap::X9800 => 0x1800,
            TileMap::X9C00 => 0x1C00,
        }
    }
}

/// How a tile number of the background or the window finds its tile: X8000
/// counts the number, unsigned, from the first tile; X8800 counts it, signed,
/// from tile 256.
#[derive(Copy, Clone, Debug, PartialEq, Eq, Structural)]
pub enum BackgroundAndWindowDataSelect {
    X8000,
    X8800,
}

impl BackgroundAndWindowDataSelect {
    /// The place in the tile cache of the tile with the given number.
    pub open spec fn spec_tile_index(self, tile_id: u8) -> int {
        match self {
            BackgroundAndWindowDataSelect::X8000 => tile_id as int,
            BackgroundAndWindowDataSelect::X8800 => if tile_id < 128 {
                256 + tile_id
            } else {
                tile_id as int
            },
        }
    }

    /// The place in the tile cache of the tile with the given number.
    pub fn tile_index(self, tile_id: u8) -> (index: usize)
        ensures
            index == self.spec_tile_index(tile_id),
            index < TILE_COUNT,
    {
        match self {
            BackgroundAndWindowDataSelect::X8000 => tile_id as usize,
            BackgroundAndWindowDataSelect::X8800 => if tile_id < 128 {
                256 + tile_id as usize
            } else {
                tile_id as usize
            },
        }
    }
}

/// The height of the sprites.
#[derive(Copy, Clone, Debug, PartialEq, Eq, Structural)]
pub enum ObjectSize {
    OS8X8,
    OS8X16,
}

/// The four phases that the unit goes through on each line.
#[derive(Copy, Clone, Debug, PartialEq, Eq, Structural)]
pub enum Mode {
    HorizontalBlank,
    VerticalBlank,
    OAMAccess,
    VRAMAccess,
}

impl Mode {
    /// The number of the mode in the status register.
    pub open spec fn spec_to_byte(self) -> u8 {
        match self {
            Mode::HorizontalBlank => 0,
            Mode::VerticalBlank => 1,
            Mode::OAMAccess => 2,
            Mode::VRAMAccess => 3,
        }
    }

    /// The number of cycles that the mode lasts; for the vertical blank, the
    /// length of one of its ten lines.
    pub open spec fn spec_duration(self) -> int {
        match self {
            Mode::HorizontalBlank => 204,
            Mode::VerticalBlank => 456,
            Mode::OAMAccess => 80,
            Mode::VRAMAccess => 172,
        }
    }
}

impl From<Mode> for u8 {
    fn from(value: Mode) -> (byte: u8) {
        match value {
            Mode::HorizontalBlank => 0,
            Mode::VerticalBlank => 1,
            Mode::OAMAccess => 2,
            Mode::VRAMAccess => 3,
        }
    }
}

impl vstd::std_specs::convert::FromSpecImpl<Mode> for u8 {
    open spec fn obeys_from_spec() -> bool {
        true
    }

    open spec fn from_spec(value: Mode) -> u8 {
        value.spec_to_byte()
    }
}

/// The two-bit value of one pixel of a tile.
#[derive(Copy, Clone, Debug, PartialEq, Eq, Structural)]
pub enum TilePixelValue {
    Zero,
    One,
    Two,
    Three,
}

/// One row of a tile.
pub type TileRow = [TilePixelValue; 8];

/// A tile: eight rows of eight pixels.
pub type Tile = [[TilePixelValue; 8]; 8];

/// The tile whose pixels are all zero.
pub fn empty_tile() -> (tile: Tile)
    ensures
        forall|row: int, pixel: int|
            0 <= row < 8 && 0 <= pixel < 8 ==> (#[trigger] tile[row][pixel]) == TilePixelValue::Zero,
{
    [[TilePixelValue::Zero; 8]; 8]
}

/// The value of pixel `pixel` of a row that the bytes `low` and `high` encode.
/// Pixel 0 is the leftmost and comes from bit 7 of each byte; `high` gives the
/// upper bit of the value.
pub open spec fn decode_pixel(low: u8, high: u8, pixel: int) -> TilePixelValue {
    let lsb = bit_is_set(low, 7 - pixel);
    let msb = bit_is_set(high, 7 - pixel);
    if lsb && msb {
        TilePixelValue::Three
    } else if msb {
        TilePixelValue::Two
    } else if lsb {
        TilePixelValue::One
    } else {
        TilePixelValue::Zero
    }
}

/// A row with its first `count` pixels replaced by those that `low` and `high`
/// encode.
pub open spec fn decode_row_prefix(row: TileRow, low: u8, high: u8, count: nat) -> TileRow
    decreases count,
{
    if count == 0 {
        row
    } else {
        spec_array_update(
            decode_row_prefix(row, low, high, (count - 1) as nat),
            count - 1,
            decode_pixel(low, high, count - 1),
        )
    }
}

/// The row that the bytes `low` and `high` encode, written over `row`.
pub open spec fn decode_row(row: TileRow, low: u8, high: u8) -> TileRow {
    decode_row_prefix(row, low, high, 8)
}

/// Every pixel of a decoded row is the value that the two bytes encode for it.
pub proof fn lemma_decode_row(row: TileRow, low: u8, high: u8)
    ensures
        forall|pixel: int|
            0 <= pixel < 8 ==> (#[trigger] decode_row(row, low, high)[pixel]) == decode_pixel(
                low,
                high,
                pixel,
            ),
{
    lemma_decode_row_prefix(row, low, high, 8);
}

proof fn lemma_decode_row_prefix(row: TileRow, low: u8, high: u8, count: nat)
    requires
        count <= 8,
    ensures
        forall|pixel: int|
            0 <= pixel < 8 ==> (#[trigger] decode_row_prefix(row, low, high, count)[pixel]) == (
            if pixel < count {
                decode_pixel(low, high, pixel)
            } else {
                row[pixel]
            }),
    decreases count,
{
    if count > 0 {
        lemma_decode_row_prefix(row, low, high, (count - 1) as nat);
    }
}

/// Decodes the row that the bytes `low` and `high` encode.
pub fn decode_tile_row(row: &TileRow, low: u8, high: u8) -> (decoded: TileRow)
    ensures
        decoded == decode_row(*row, low, high),
        forall|pixel: int|
            0 <= pixel < 8 ==> (#[trigger] decoded[pixel]) == decode_pixel(low, high, pixel),
{
    let mut decoded = *row;
    let mut pixel_index: usize = 0;
    while pixel_index < 8
        invariant
            pixel_index <= 8,
            decoded == decode_row_prefix(*row, low, high, pixel_index as nat),
        decreases 8 - pixel_index,
    {
        // Pixel 0 is the leftmost one and lies in bit 7.
        let lsb = test_bit(low, (7 - pixel_index) as u8);
        let msb = test_bit(high, (7 - pixel_index) as u8);
        let value = match (lsb, msb) {
            (true, true) => TilePixelValue::Three,
            (false, true) => TilePixelValue::Two,
            (true, false) => TilePixelValue::One,
            (false, false) => TilePixelValue::Zero,
        };
        decoded[pixel_index] = value;
        pixel_index += 1;
    }
    proof {
        lemma_decode_row(*row, low, high);
    }
    decoded
}

/// Row `row` of tile `tile` of a tile cache holds the pixel values that the
/// row's two bytes of video memory encode.
pub open spec fn row_matches(
    tile_set: [[[TilePixelValue; 8]; 8]; 384],
    vram: [u8; 0x2000],
    tile: int,
    row: int,
) -> bool {
    forall|pixel: int|
        0 <= pixel < 8 ==> (#[trigger] tile_set[tile][row][pixel]) == decode_pixel(
            vram[tile * 16 + row * 2],
            vram[tile * 16 + row * 2 + 1],
            pixel,
        )
}

/// A tile cache holds, for every pixel of every tile, the value that video
/// memory encodes for it.
pub open spec fn tiles_match(tile_set: [[[TilePixelValue; 8]; 8]; 384], vram: [u8; 0x2000]) -> bool {
    forall|tile: int, row: int|
        0 <= tile < 384 && 0 <= row < 8 ==> #[trigger] row_matches(tile_set, vram, tile, row)
}

/// Two units that differ at most in the frame give every pixel of the current
/// line the same shade: drawing reads nothing from the frame.
pub proof fn lemma_pixel_shade_frame(first: GPU, second: GPU, x: int)
    requires
        second == (GPU { canvas_buffer: second.canvas_buffer, ..first }),
    ensures
        first.spec_pixel_shade(x) == second.spec_pixel_shade(x),
{
}

/// Which interrupts a step of the unit asks for.
#[derive(Copy, Clone, Debug, PartialEq, Eq, Structural)]
pub enum InterruptRequest {
    Nothing,
    VBlank,
    LCDStat,
    Both,
}

impl InterruptRequest {
    /// Whether the VBlank interrupt is asked for.
    pub open spec fn vblank(self) -> bool {
        self is VBlank || self is Both
    }

    /// Whether the LCDStat interrupt is asked for.
    pub open spec fn lcdstat(self) -> bool {
        self is LCDStat || self is Both
    }

    /// The request for exactly the given interrupts.
    pub open spec fn of(vblank: bool, lcdstat: bool) -> InterruptRequest {
        if vblank && lcdstat {
            InterruptRequest::Both
        } else if vblank {
            InterruptRequest::VBlank
        } else if lcdstat {
            InterruptRequest::LCDStat
        } else {
            InterruptRequest::Nothing
        }
    }

    /// The request for every interrupt that `self` or `other` asks for.
    pub open spec fn spec_add(self, other: InterruptRequest) -> InterruptRequest {
        InterruptRequest::of(self.vblank() || other.vblank(), self.lcdstat() || other.lcdstat())
    }

    /// Adds the interrupts of `other` to this request.
    pub fn add(&mut self, other: InterruptRequest)
        ensures
            *final(self) == old(self).spec_add(other),
    {
        match self {
            InterruptRequest::Nothing => *self = other,
            InterruptRequest::VBlank => {
                if other == InterruptRequest::LCDStat || other == InterruptRequest::Both {
                    *self = InterruptRequest::Both
                }
            },
            InterruptRequest::LCDStat => {
                if other == InterruptRequest::VBlank || other == InterruptRequest::Both {
                    *self = InterruptRequest::Both
                }
            },
            InterruptRequest::Both => {},
        };
    }
}

/// The place of the window's top left corner: `x` is seven more than the
/// screen column, `y` is the screen line.
#[derive(Copy, Clone, Debug, PartialEq, Eq, Structural)]
pub struct Window {
    pub x: u8,
    pub y: u8,
}

/// The state of the picture processing unit.
pub struct GPU {
    /// The frame: 160 by 144 pixels, row by row from the top left, four bytes
    /// (red, green, blue, alpha) for each.
    pub canvas_buffer: [u8; 92160],
    /// The tile cache: the pixel values of the 384 tiles that the first
    /// 0x1800 bytes of video memory encode.
    pub tile_set: [[[TilePixelValue; 8]; 8]; 384],
    /// Video memory.
    pub vram: [u8; 0x2000],
    /// Sprite attribute memory.
    pub oam: [u8; 0xA0],
    pub background_colors: BackgroundColors,
    pub object_colors_0: BackgroundColors,
    pub object_colors_1: BackgroundColors,
    pub viewport_x_offset: u8,
    pub viewport_y_offset: u8,
    pub lcd_display_enabled: bool,
    pub window_display_enabled: bool,
    pub background_display_enabled: bool,
    pub object_display_enabled: bool,
    pub line_equals_line_check_interrupt_enabled: bool,
    pub oam_interrupt_enabled: bool,
    pub vblank_interrupt_enabled: bool,
    pub hblank_interrupt_enabled: bool,
    pub line_check: u8,
    pub line_equals_line_check: bool,
    pub window_tile_map: TileMap,
    pub background_tile_map: TileMap,
    pub background_and_window_data_select: BackgroundAndWindowDataSelect,
    pub object_size: ObjectSize,
    pub window: Window,
    /// The current line, 0 to 153.
    pub line: u8,
    pub mode: Mode,
    /// Cycles spent in the current mode.
    pub cycles: u16,
}

impl GPU {
    /// The line is one of the 154 of a frame, a line outside the vertical
    /// blank is a visible one, and the cycle counter is below the length of a
    /// line.
    pub open spec fn wf(self) -> bool {
        &&& self.line <= 153
        &&& self.mode != Mode::VerticalBlank ==> self.line <= 143
        &&& self.cycles < 456
    }

    /// Row `row` of tile `tile` of the tile cache holds the pixel values that
    /// its two bytes of video memory encode.
    pub open spec fn row_coherent(self, tile: int, row: int) -> bool {
        row_matches(self.tile_set, self.vram, tile, row)
    }

    /// The tile cache holds, for every pixel of every tile, the value that
    /// video memory encodes for it.
    pub open spec fn tiles_coherent(self) -> bool {
        tiles_match(self.tile_set, self.vram)
    }

    /// The state after power-on: memories zeroed, display off, the identity
    /// palettes, line 0 in horizontal blank.
    pub open spec fn is_initial(self) -> bool {
        &&& forall|i: int| 0 <= i < 92160 ==> (#[trigger] self.canvas_buffer[i]) == 0
        &&& forall|tile: int, row: int, pixel: int|
            0 <= tile < 384 && 0 <= row < 8 && 0 <= pixel < 8 ==> (
            #[trigger] self.tile_set[tile][row][pixel]) == TilePixelValue::Zero
        &&& forall|i: int| 0 <= i < 0x2000 ==> (#[trigger] self.vram[i]) == 0
        &&& forall|i: int| 0 <= i < 0xA0 ==> (#[trigger] self.oam[i]) == 0
        &&& self.background_colors == BackgroundColors(
            Color::White,
            Color::LightGray,
            Color::DarkGray,
            Color::Black,
        )
        &&& self.object_colors_0 == self.background_colors
        &&& self.object_colors_1 == self.background_colors
        &&& self.viewport_x_offset == 0
        &&& self.viewport_y_offset == 0
        &&& !self.lcd_display_enabled
        &&& !self.window_display_enabled
        &&& !self.background_display_enabled
        &&& !self.object_display_enabled
        &&& !self.line_equals_line_check_interrupt_enabled
        &&& !self.oam_interrupt_enabled
        &&& !self.vblank_interrupt_enabled
        &&& !self.hblank_interrupt_enabled
        &&& self.line_check == 0
        &&& !self.line_equals_line_check
        &&& self.window_tile_map == TileMap::X9800
        &&& self.background_tile_map == TileMap::X9800
        &&& self.background_and_window_data_select == BackgroundAndWindowDataSelect::X8800
        &&& self.object_size == ObjectSize::OS8X8
        &&& self.window == (Window { x: 0, y: 0 })
        &&& self.line == 0
        &&& self.mode == Mode::HorizontalBlank
        &&& self.cycles == 0
    }

    /// The unit after `value` is written to video memory at `index`. A write
    /// below 0x1800 lands in tile data, and the row of the tile cache that the
    /// byte belongs to is decoded afresh from its two bytes; a write at or
    /// above 0x1800 lands in a tile map and leaves the cache alone.
    pub open spec fn spec_write_vram(self, index: int, value: u8) -> GPU {
        let vram = spec_array_update(self.vram, index, value);
        if index >= 0x1800 {
            GPU { vram, ..self }
        } else {
            let tile = index / 16;
            let row = (index % 16) / 2;
            let first = tile * 16 + row * 2;
            let decoded = decode_row(self.tile_set[tile][row], vram[first], vram[first + 1]);
            GPU {
                vram,
                tile_set: spec_array_update(
                    self.tile_set,
                    tile,
                    spec_array_update(self.tile_set[tile], row, decoded),
                ),
                ..self
            }
        }
    }

    /// The unit after `value` is written to sprite attribute memory at `index`.
    pub open spec fn spec_write_oam(self, index: int, value: u8) -> GPU {
        GPU { oam: spec_array_update(self.oam, index, value), ..self }
    }

    /// The value of the pixel at `(x, y)` of the 256 by 256 picture that a
    /// tile map describes.
    pub open spec fn spec_map_pixel(self, map: TileMap, x: int, y: int) -> TilePixelValue {
        let tile_id = self.vram[map.spec_offset() + (y / 8) * 32 + x / 8];
        let tile = self.background_and_window_data_select.spec_tile_index(tile_id);
        self.tile_set[tile][y % 8][x % 8]
    }

    /// Whether the window covers column `x` of the current line.
    pub open spec fn spec_in_window(self, x: int) -> bool {
        self.window_display_enabled && self.line >= self.window.y && x + 7 >= self.window.x
    }

    /// The value of the pixel in column `x` of the current line: taken from
    /// the window where it covers the pixel, and else from the background at
    /// the place that the viewport offsets give, wrapping at 256.
    pub open spec fn spec_pixel_value(self, x: int) -> TilePixelValue {
        if self.spec_in_window(x) {
            self.spec_map_pixel(
                self.window_tile_map,
                x + 7 - self.window.x,
                self.line - self.window.y,
            )
        } else {
            self.spec_map_pixel(
                self.background_tile_map,
                (self.viewport_x_offset + x) % 256,
                (self.viewport_y_offset + self.line) % 256,
            )
        }
    }

    /// The shade of the pixel in column `x` of the current line.
    pub open spec fn spec_pixel_shade(self, x: int) -> u8 {
        self.background_colors.spec_color_of(self.spec_pixel_value(x)).spec_shade()
    }

    /// The unit with the pixel in column `x` of the current line set to a
    /// shade of gray, fully opaque.
    pub open spec fn spec_put_pixel(self, x: int, shade: u8) -> GPU {
        let offset = (self.line * 160 + x) * 4;
        GPU {
            canvas_buffer: spec_array_update(
                spec_array_update(
                    spec_array_update(
                        spec_array_update(self.canvas_buffer, offset, shade),
                        offset + 1,
                        shade,
                    ),
                    offset + 2,
                    shade,
                ),
                offset + 3,
                255,
            ),
            ..self
        }
    }

    /// The unit with the first `count` pixels of the current line drawn.
    pub open spec fn spec_render_pixels(self, count: nat) -> GPU
        decreases count,
    {
        if count == 0 {
            self
        } else {
            self.spec_render_pixels((count - 1) as nat).spec_put_pixel(
                count - 1,
                self.spec_pixel_shade(count - 1),
            )
        }
    }

    /// The unit with the current line drawn, or unchanged where the
    /// background is switched off.
    #[verifier::opaque]
    pub open spec fn spec_render_scan_line(self) -> GPU {
        if self.background_display_enabled {
            self.spec_render_pixels(160)
        } else {
            self
        }
    }

    /// The LCD control byte: bit 7 display on, bit 6 window map at 0x9C00, bit
    /// 5 window on, bit 4 tile data at 0x8000, bit 3 background map at 0x9C00,
    /// bit 2 sprites 8 by 16, bit 1 sprites on, bit 0 background on.
    pub open spec fn spec_control(self) -> u8 {
        (128 * bit_value(self.lcd_display_enabled) + 64 * bit_value(
            self.window_tile_map == TileMap::X9C00,
        ) + 32 * bit_value(self.window_display_enabled) + 16 * bit_value(
            self.background_and_window_data_select == BackgroundAndWindowDataSelect::X8000,
        ) + 8 * bit_value(self.background_tile_map == TileMap::X9C00) + 4 * bit_value(
            self.object_size == ObjectSize::OS8X16,
        ) + 2 * bit_value(self.object_display_enabled) + bit_value(
            self.background_display_enabled,
        )) as u8
    }

    /// The unit after a byte is written to the LCD control register.
    pub open spec fn spec_set_control(self, value: u8) -> GPU {
        GPU {
            lcd_display_enabled: value / 128 % 2 == 1,
            window_tile_map: if value / 64 % 2 == 1 {
                TileMap::X9C00
            } else {
                TileMap::X9800
            },
            window_display_enabled: value / 32 % 2 == 1,
            background_and_window_data_select: if value / 16 % 2 == 1 {
                BackgroundAndWindowDataSelect::X8000
            } else {
                BackgroundAndWindowDataSelect::X8800
            },
            background_tile_map: if value / 8 % 2 == 1 {
                TileMap::X9C00
            } else {
                TileMap::X9800
            },
            object_size: if value / 4 % 2 == 1 {
                ObjectSize::OS8X16
            } else {
                ObjectSize::OS8X8
            },
            object_display_enabled: value / 2 % 2 == 1,
            background_display_enabled: value % 2 == 1,
            ..self
        }
    }

    /// The LCD status byte: bit 7 set, bits 6 to 3 the interrupt enables for
    /// the line compare, the OAM scan, the vertical blank and the horizontal
    /// blank, bit 2 whether the line equals the line compare, bits 1 and 0 the
    /// mode.
    pub open spec fn spec_status(self) -> u8 {
        (128 + 64 * bit_value(self.line_equals_line_check_interrupt_enabled) + 32 * bit_value(
            self.oam_interrupt_enabled,
        ) + 16 * bit_value(self.vblank_interrupt_enabled) + 8 * bit_value(
            self.hblank_interrupt_enabled,
        ) + 4 * bit_value(self.line_equals_line_check) + self.mode.spec_to_byte()) as u8
    }

    /// The unit after a byte is written to the LCD status register: only the
    /// four interrupt enables take the written bits.
    pub open spec fn spec_set_status(self, value: u8) -> GPU {
        GPU {
            line_equals_line_check_interrupt_enabled: value / 64 % 2 == 1,
            oam_interrupt_enabled: value / 32 % 2 == 1,
            vblank_interrupt_enabled: value / 16 % 2 == 1,
            hblank_interrupt_enabled: value / 8 % 2 == 1,
            ..self
        }
    }

    /// The line that the program reads: 0 while the display is off.
    pub open spec fn spec_current_line(self) -> u8 {
        if self.lcd_display_enabled {
            self.line
        } else {
            0
        }
    }

    /// Whether the address is that of one of the unit's own registers: LCD
    /// control and status, the scroll offsets, the line and its compare value,
    /// the three palettes and the window position.
    pub open spec fn is_register(address: u16) -> bool {
        0xFF40 <= address <= 0xFF4B && address != 0xFF46
    }

    /// The byte that the unit's register at `address` reads as.
    pub open spec fn spec_read_register(self, address: u16) -> u8 {
        if address == 0xFF40 {
            self.spec_control()
        } else if address == 0xFF41 {
            self.spec_status()
        } else if address == 0xFF42 {
            self.viewport_y_offset
        } else if address == 0xFF43 {
            self.viewport_x_offset
        } else if address == 0xFF44 {
            self.spec_current_line()
        } else if address == 0xFF45 {
            self.line_check
        } else if address == 0xFF47 {
            self.background_colors.spec_to_byte()
        } else if address == 0xFF48 {
            self.object_colors_0.spec_to_byte()
        } else if address == 0xFF49 {
            self.object_colors_1.spec_to_byte()
        } else if address == 0xFF4A {
            self.window.y
        } else {
            self.window.x
        }
    }

    /// The unit after `value` is written to its register at `address`. A
    /// write to the line register sets the line back to 0.
    pub open spec fn spec_write_register(self, address: u16, value: u8) -> GPU {
        if address == 0xFF40 {
            self.spec_set_control(value)
        } else if address == 0xFF41 {
            self.spec_set_status(value)
        } else if address == 0xFF42 {
            GPU { viewport_y_offset: value, ..self }
        } else if address == 0xFF43 {
            GPU { viewport_x_offset: value, ..self }
        } else if address == 0xFF44 {
            GPU { line: 0, ..self }
        } else if address == 0xFF45 {
            GPU { line_check: value, ..self }
        } else if address == 0xFF47 {
            GPU { background_colors: BackgroundColors::spec_from_byte(value), ..self }
        } else if address == 0xFF48 {
            GPU { object_colors_0: BackgroundColors::spec_from_byte(value), ..self }
        } else if address == 0xFF49 {
            GPU { object_colors_1: BackgroundColors::spec_from_byte(value), ..self }
        } else if address == 0xFF4A {
            GPU { window: Window { y: value, ..self.window }, ..self }
        } else {
            GPU { window: Window { x: value, ..self.window }, ..self }
        }
    }

    /// The unit with the line-compare flag brought up to date, and whether
    /// that asks for the LCDStat interrupt.
    pub open spec fn spec_set_equal_lines_check(self) -> (GPU, bool) {
        let equal = self.line == self.line_check;
        (
            GPU { line_equals_line_check: equal, ..self },
            equal && self.line_equals_line_check_interrupt_enabled,
        )
    }

    /// The unit at the start of the line after the current one, which ends a
    /// horizontal blank, and the interrupts that this asks for. From line 144
    /// on the vertical blank begins and asks for the VBlank interrupt, and for
    /// LCDStat where the status register enables that for the vertical blank;
    /// before, an OAM scan begins and asks for LCDStat where enabled for it.
    /// The line compare may ask for LCDStat as well.
    pub open spec fn spec_end_horizontal_blank(self) -> (GPU, InterruptRequest) {
        let line = (self.line + 1) as u8;
        let vblank = line >= 144;
        let entered = GPU {
            line,
            mode: if vblank {
                Mode::VerticalBlank
            } else {
                Mode::OAMAccess
            },
            ..self
        };
        (
            entered.spec_set_equal_lines_check().0,
            InterruptRequest::of(
                vblank,
                entered.spec_set_equal_lines_check().1 || if vblank {
                    self.vblank_interrupt_enabled
                } else {
                    self.oam_interrupt_enabled
                },
            ),
        )
    }

    /// The unit at the end of one line of the vertical blank, and the
    /// interrupts that this asks for. After line 153 comes line 0 with an OAM
    /// scan, which asks for LCDStat where enabled for it. The line compare may
    /// ask for LCDStat as well.
    pub open spec fn spec_end_vertical_blank_line(self) -> (GPU, InterruptRequest) {
        let wrap = self.line + 1 >= 154;
        let entered = GPU {
            line: if wrap {
                0
            } else {
                (self.line + 1) as u8
            },
            mode: if wrap {
                Mode::OAMAccess
            } else {
                Mode::VerticalBlank
            },
            ..self
        };
        (
            entered.spec_set_equal_lines_check().0,
            InterruptRequest::of(
                false,
                entered.spec_set_equal_lines_check().1 || (wrap && self.oam_interrupt_enabled),
            ),
        )
    }

    /// The unit at the end of the VRAM access: the horizontal blank begins,
    /// the line is drawn, and LCDStat is asked for where enabled for the
    /// horizontal blank.
    pub open spec fn spec_end_vram_access(self) -> (GPU, InterruptRequest) {
        (
            (GPU { mode: Mode::HorizontalBlank, ..self }).spec_render_scan_line(),
            InterruptRequest::of(false, self.hblank_interrupt_enabled),
        )
    }

    /// The unit after `cycles` more cycles, and the interrupts it asks for.
    ///
    /// With the display off nothing happens. Otherwise the cycles are added
    /// to the counter of the current mode, and when that reaches the length
    /// of the mode the counter is reduced modulo that length and the next
    /// mode begins: after the OAM scan, VRAM access; after that, horizontal
    /// blank, at whose start the line is drawn; after that the next line,
    /// which starts with an OAM scan or, from line 144 on, is part of the
    /// vertical blank; after the last line of the vertical blank, line 0.
    pub open spec fn spec_step(self, cycles: u8) -> (GPU, InterruptRequest) {
        let total = (self.cycles + cycles) as u16;
        let duration = self.mode.spec_duration();
        if !self.lcd_display_enabled {
            (self, InterruptRequest::Nothing)
        } else if total < duration {
            (GPU { cycles: total, ..self }, InterruptRequest::Nothing)
        } else {
            let wrapped = GPU { cycles: (total as int % duration) as u16, ..self };
            match self.mode {
                Mode::HorizontalBlank => wrapped.spec_end_horizontal_blank(),
                Mode::VerticalBlank => wrapped.spec_end_vertical_blank_line(),
                Mode::OAMAccess => (
                    GPU { mode: Mode::VRAMAccess, ..wrapped },
                    InterruptRequest::Nothing,
                ),
                Mode::VRAMAccess => wrapped.spec_end_vram_access(),
            }
        }
    }

    /// The unit after power-on.
    pub fn new() -> (gpu: GPU)
        ensures
            gpu.is_initial(),
            gpu.wf(),
            gpu.tiles_coherent(),
    {
        let gpu = GPU {
            canvas_buffer: [0u8; 92160],
            tile_set: [empty_tile(); 384],
            vram: [0u8; 0x2000],
            oam: [0u8; 0xA0],
            background_colors: BackgroundColors::new(),
            object_colors_0: BackgroundColors::new(),
            object_colors_1: BackgroundColors::new(),
            viewport_x_offset: 0,
            viewport_y_offset: 0,
            lcd_display_enabled: false,
            window_display_enabled: false,
            background_display_enabled: false,
            object_display_enabled: false,
            line_equals_line_check_interrupt_enabled: false,
            oam_interrupt_enabled: false,
            vblank_interrupt_enabled: false,
            hblank_interrupt_enabled: false,
            line_check: 0,
            line_equals_line_check: false,
            window_tile_map: TileMap::X9800,
            background_tile_map: TileMap::X9800,
            background_and_window_data_select: BackgroundAndWindowDataSelect::X8800,
            object_size: ObjectSize::OS8X8,
            window: Window { x: 0, y: 0 },
            line: 0,
            cycles: 0,
            mode: Mode::HorizontalBlank,
        };
        proof {
            assert forall|tile: int, row: int| 0 <= tile < 384 && 0 <= row < 8 implies (
            #[trigger] row_matches(gpu.tile_set, gpu.vram, tile, row)) by {
                assert(gpu.vram[tile * 16 + row * 2] == 0);
                assert(gpu.vram[tile * 16 + row * 2 + 1] == 0);
                assert forall|pixel: int| 0 <= pixel < 8 implies (
                #[trigger] gpu.tile_set[tile][row][pixel]) == decode_pixel(0, 0, pixel) by {
                    assert(gpu.tile_set[tile][row][pixel] == TilePixelValue::Zero);
                }
                assert(row_matches(gpu.tile_set, gpu.vram, tile, row));
            }
        }
        gpu
    }

    /// Writes a byte to video memory and keeps the tile cache in step with it.
    pub fn write_vram(&mut self, index: usize, value: u8)
        requires
            index < VRAM_SIZE,
        ensures
            *final(self) == old(self).spec_write_vram(index as int, value),
            index < 0x1800 ==> final(self).row_coherent(index as int / 16, (index as int % 16) / 2),
            old(self).tiles_coherent() ==> final(self).tiles_coherent(),
            final(self).wf() == old(self).wf(),
    {
        self.vram[index] = value;
        if index < 0x1800 {
            self.refresh_tile_row(index / 16, (index % 16) / 2);
        }
        assert(*self == old(self).spec_write_vram(index as int, value));
        proof {
            old(self).lemma_write_vram(index as int, value);
        }
    }

    /// Decodes one row of one tile from video memory into the tile cache.
    fn refresh_tile_row(&mut self, tile_index: usize, row_index: usize)
        requires
            tile_index < TILE_COUNT,
            row_index < 8,
        ensures
            *final(self) == (GPU {
                tile_set: spec_array_update(
                    old(self).tile_set,
                    tile_index as int,
                    spec_array_update(
                        old(self).tile_set[tile_index as int],
                        row_index as int,
                        decode_row(
                            old(self).tile_set[tile_index as int][row_index as int],
                            old(self).vram[tile_index * 16 + row_index * 2],
                            old(self).vram[tile_index * 16 + row_index * 2 + 1],
                        ),
                    ),
                ),
                ..*old(self)
            }),
    {
        // A tile is 8 rows of two bytes each, the first of them at an even
        // index.
        let first = tile_index * 16 + row_index * 2;
        let row = decode_tile_row(
            &self.tile_set[tile_index][row_index],
            self.vram[first],
            self.vram[first + 1],
        );
        self.tile_set[tile_index][row_index] = row;
    }

    /// Writes a byte to sprite attribute memory.
    pub fn write_oam(&mut self, index: usize, value: u8)
        requires
            index < OAM_SIZE,
        ensures
            *final(self) == old(self).spec_write_oam(index as int, value),
    {
        self.oam[index] = value;
    }

    /// Advances the unit by `cycles` cycles and says which interrupts it asks
    /// for.
    pub fn step(&mut self, cycles: u8) -> (request: InterruptRequest)
        requires
            old(self).wf(),
        ensures
            (*final(self), request) == old(self).spec_step(cycles),
            final(self).wf(),
            final(self).tile_set == old(self).tile_set,
            final(self).vram == old(self).vram,
    {
        if !self.lcd_display_enabled {
            return InterruptRequest::Nothing;
        }
        let total = self.cycles + cycles as u16;
        let duration: u16 = match self.mode {
            Mode::HorizontalBlank => 204,
            Mode::VerticalBlank => 456,
            Mode::OAMAccess => 80,
            Mode::VRAMAccess => 172,
        };
        if total < duration {
            self.cycles = total;
            return InterruptRequest::Nothing;
        }
        self.cycles = total % duration;
        match self.mode {
            Mode::HorizontalBlank => self.end_horizontal_blank(),
            Mode::VerticalBlank => self.end_vertical_blank_line(),
            Mode::OAMAccess => {
                self.mode = Mode::VRAMAccess;
                InterruptRequest::Nothing
            },
            Mode::VRAMAccess => self.end_vram_access(),
        }
    }

    /// Moves from the horizontal blank to the next line.
    fn end_horizontal_blank(&mut self) -> (request: InterruptRequest)
        requires
            old(self).line <= 143,
        ensures
            (*final(self), request) == old(self).spec_end_horizontal_blank(),
            final(self).line == old(self).line + 1,
            final(self).mode == Mode::VerticalBlank || final(self).line <= 143,
            final(self).cycles == old(self).cycles,
            final(self).tile_set == old(self).tile_set,
            final(self).vram == old(self).vram,
    {
        let mut request = InterruptRequest::Nothing;
        let line = self.line + 1;
        let vblank = line >= 144;
        if vblank {
            request.add(InterruptRequest::VBlank);
            if self.vblank_interrupt_enabled {
                request.add(InterruptRequest::LCDStat)
            }
        } else {
            if self.oam_interrupt_enabled {
                request.add(InterruptRequest::LCDStat)
            }
        }
        self.line = line;
        self.mode = if vblank {
            Mode::VerticalBlank
        } else {
            Mode::OAMAccess
        };
        self.set_equal_lines_check(&mut request);
        request
    }

    /// Moves from one line of the vertical blank to the next, or to line 0.
    fn end_vertical_blank_line(&mut self) -> (request: InterruptRequest)
        requires
            old(self).line <= 153,
        ensures
            (*final(self), request) == old(self).spec_end_vertical_blank_line(),
            final(self).line <= 153,
            final(self).mode == Mode::VerticalBlank || final(self).line == 0,
            final(self).cycles == old(self).cycles,
            final(self).tile_set == old(self).tile_set,
            final(self).vram == old(self).vram,
    {
        let mut request = InterruptRequest::Nothing;
        let wrap = self.line + 1 >= 154;
        if wrap && self.oam_interrupt_enabled {
            request.add(InterruptRequest::LCDStat)
        }
        self.line = if wrap {
            0
        } else {
            self.line + 1
        };
        self.mode = if wrap {
            Mode::OAMAccess
        } else {
            Mode::VerticalBlank
        };
        self.set_equal_lines_check(&mut request);
        request
    }

    /// Moves from the VRAM access to the horizontal blank and draws the line.
    fn end_vram_access(&mut self) -> (request: InterruptRequest)
        requires
            old(self).line <= 143,
        ensures
            (*final(self), request) == old(self).spec_end_vram_access(),
            final(self).line == old(self).line,
            final(self).mode == Mode::HorizontalBlank,
            final(self).cycles == old(self).cycles,
            final(self).tile_set == old(self).tile_set,
            final(self).vram == old(self).vram,
    {
        let request = if self.hblank_interrupt_enabled {
            InterruptRequest::LCDStat
        } else {
            InterruptRequest::Nothing
        };
        self.mode = Mode::HorizontalBlank;
        self.render_scan_line();
        request
    }

    /// Reads the LCD control register.
    pub fn control(&self) -> (value: u8)
        ensures
            value == self.spec_control(),
    {
        let b7 = bit(self.lcd_display_enabled);
        let b6 = bit(self.window_tile_map == TileMap::X9C00);
        let b5 = bit(self.window_display_enabled);
        let b4 = bit(
            self.background_and_window_data_select == BackgroundAndWindowDataSelect::X8000,
        );
        let b3 = bit(self.background_tile_map == TileMap::X9C00);
        let b2 = bit(self.object_size == ObjectSize::OS8X16);
        let b1 = bit(self.object_display_enabled);
        let b0 = bit(self.background_display_enabled);
        proof {
            lemma_pack_bits(b7, b6, b5, b4, b3, b2, b1, b0);
        }
        b7 << 7 | b6 << 6 | b5 << 5 | b4 << 4 | b3 << 3 | b2 << 2 | b1 << 1 | b0
    }

    /// Writes the LCD control register.
    pub fn set_control(&mut self, value: u8)
        ensures
            *final(self) == old(self).spec_set_control(value),
            final(self).wf() == old(self).wf(),
    {
        proof {
            lemma_test_bits(value);
        }
        let window_tile_map = if ((value >> 6) & 0b1) == 1 {
            TileMap::X9C00
        } else {
            TileMap::X9800
        };
        let data_select = if ((value >> 4) & 0b1) == 1 {
            BackgroundAndWindowDataSelect::X8000
        } else {
            BackgroundAndWindowDataSelect::X8800
        };
        let background_tile_map = if ((value >> 3) & 0b1) == 1 {
            TileMap::X9C00
        } else {
            TileMap::X9800
        };
        let object_size = if ((value >> 2) & 0b1) == 1 {
            ObjectSize::OS8X16
        } else {
            ObjectSize::OS8X8
        };
        self.lcd_display_enabled = (value >> 7) == 1;
        self.window_tile_map = window_tile_map;
        self.window_display_enabled = ((value >> 5) & 0b1) == 1;
        self.background_and_window_data_select = data_select;
        self.background_tile_map = background_tile_map;
        self.object_size = object_size;
        self.object_display_enabled = ((value >> 1) & 0b1) == 1;
        self.background_display_enabled = (value & 0b1) == 1;
    }

    /// Reads the LCD status register.
    pub fn status(&self) -> (value: u8)
        ensures
            value == self.spec_status(),
    {
        let mode: u8 = self.mode.into();
        let b6 = bit(self.line_equals_line_check_interrupt_enabled);
        let b5 = bit(self.oam_interrupt_enabled);
        let b4 = bit(self.vblank_interrupt_enabled);
        let b3 = bit(self.hblank_interrupt_enabled);
        let b2 = bit(self.line_equals_line_check);
        proof {
            lemma_pack_status(b6, b5, b4, b3, b2, mode);
        }
        0b10000000 | b6 << 6 | b5 << 5 | b4 << 4 | b3 << 3 | b2 << 2 | mode
    }

    /// Writes the LCD status register.
    pub fn set_status(&mut self, value: u8)
        ensures
            *final(self) == old(self).spec_set_status(value),
            final(self).wf() == old(self).wf(),
    {
        proof {
            lemma_test_bits(value);
        }
        self.line_equals_line_check_interrupt_enabled = (value & 0b1000000) == 0b1000000;
        self.oam_interrupt_enabled = (value & 0b100000) == 0b100000;
        self.vblank_interrupt_enabled = (value & 0b10000) == 0b10000;
        self.hblank_interrupt_enabled = (value & 0b1000) == 0b1000;
    }

    /// The line that the program reads: 0 while the display is off.
    pub fn current_line(&self) -> (line: u8)
        ensures
            line == self.spec_current_line(),
    {
        if self.lcd_display_enabled {
            self.line
        } else {
            0
        }
    }

    /// Reads the unit's register at `address`.
    pub fn read_register(&self, address: u16) -> (value: u8)
        requires
            GPU::is_register(address),
        ensures
            value == self.spec_read_register(address),
    {
        match address {
            0xFF40 => self.control(),
            0xFF41 => self.status(),
            0xFF42 => self.viewport_y_offset,
            0xFF43 => self.viewport_x_offset,
            0xFF44 => self.current_line(),
            0xFF45 => self.line_check,
            0xFF47 => self.background_colors.to_byte(),
            0xFF48 => self.object_colors_0.to_byte(),
            0xFF49 => self.object_colors_1.to_byte(),
            0xFF4A => self.window.y,
            _ => self.window.x,
        }
    }

    /// Writes `value` to the unit's register at `address`.
    pub fn write_register(&mut self, address: u16, value: u8)
        requires
            GPU::is_register(address),
        ensures
            *final(self) == old(self).spec_write_register(address, value),
            old(self).wf() ==> final(self).wf(),
            final(self).tiles_coherent() == old(self).tiles_coherent(),
    {
        if address == 0xFF40 {
            self.set_control(value);
        } else if address == 0xFF41 {
            self.set_status(value);
        } else if address <= 0xFF45 {
            self.write_position_register(address, value);
        } else if address <= 0xFF49 {
            self.write_palette_register(address, value);
        } else {
            self.write_window_register(address, value);
        }
    }

    /// Writes one of the scroll offsets, the line or the line compare.
    fn write_position_register(&mut self, address: u16, value: u8)
        requires
            0xFF42 <= address <= 0xFF45,
        ensures
            *final(self) == old(self).spec_write_register(address, value),
            old(self).wf() ==> final(self).wf(),
    {
        // Each register is assigned exactly once, whichever address is
        // written: that keeps the state after the write one plain expression.
        let line_written = address == 0xFF44;
        self.viewport_y_offset = if address == 0xFF42 {
            value
        } else {
            self.viewport_y_offset
        };
        self.viewport_x_offset = if address == 0xFF43 {
            value
        } else {
            self.viewport_x_offset
        };
        self.line = if line_written {
            0
        } else {
            self.line
        };
        self.line_check = if address == 0xFF45 {
            value
        } else {
            self.line_check
        };
    }

    /// Writes one of the three palettes.
    fn write_palette_register(&mut self, address: u16, value: u8)
        requires
            0xFF47 <= address <= 0xFF49,
        ensures
            *final(self) == old(self).spec_write_register(address, value),
            final(self).wf() == old(self).wf(),
    {
        let colors = BackgroundColors::from_byte(value);
        self.background_colors = if address == 0xFF47 {
            colors
        } else {
            self.background_colors
        };
        self.object_colors_0 = if address == 0xFF48 {
            colors
        } else {
            self.object_colors_0
        };
        self.object_colors_1 = if address == 0xFF49 {
            colors
        } else {
            self.object_colors_1
        };
    }

    /// Writes the line or the column of the window's corner.
    fn write_window_register(&mut self, address: u16, value: u8)
        requires
            0xFF4A <= address <= 0xFF4B,
        ensures
            *final(self) == old(self).spec_write_register(address, value),
            final(self).wf() == old(self).wf(),
    {
        self.window = if address == 0xFF4A {
            Window { y: value, x: self.window.x }
        } else {
            Window { x: value, y: self.window.y }
        };
    }

    /// Brings the line-compare flag up to date and adds the LCDStat interrupt
    /// to `request` where the lines are equal and that interrupt is enabled.
    pub fn set_equal_lines_check(&mut self, request: &mut InterruptRequest)
        ensures
            *final(self) == old(self).spec_set_equal_lines_check().0,
            *final(request) == old(request).spec_add(
                InterruptRequest::of(false, old(self).spec_set_equal_lines_check().1),
            ),
    {
        let line_equals_line_check = self.line == self.line_check;
        self.line_equals_line_check = line_equals_line_check;
        if line_equals_line_check && self.line_equals_line_check_interrupt_enabled {
            request.add(InterruptRequest::LCDStat);
        }
    }

    /// The tile number at `index` of the first tile map.
    pub fn background_1(&self, index: usize) -> (tile_id: u8)
        requires
            index < 0x400,
        ensures
            tile_id == self.vram[0x1800 + index as int],
    {
        self.vram[0x1800 + index]
    }

    /// The value of the pixel at `(x, y)` of the picture that a tile map
    /// describes.
    pub fn map_pixel(&self, map: TileMap, x: u8, y: u8) -> (value: TilePixelValue)
        ensures
            value == self.spec_map_pixel(map, x as int, y as int),
    {
        let tile_id = self.vram[map.offset() + (y as usize / 8) * 32 + x as usize / 8];
        let tile = self.background_and_window_data_select.tile_index(tile_id);
        self.tile_set[tile][y as usize % 8][x as usize % 8]
    }

    /// The value of the pixel in column `x` of the current line.
    pub fn pixel_value(&self, x: u8) -> (value: TilePixelValue)
        requires
            x < 160,
        ensures
            value == self.spec_pixel_value(x as int),
    {
        let in_window = self.window_display_enabled && self.line >= self.window.y && x as u16 + 7
            >= self.window.x as u16;
        let map = if in_window {
            self.window_tile_map
        } else {
            self.background_tile_map
        };
        let map_x: u8 = if in_window {
            (x as u16 + 7 - self.window.x as u16) as u8
        } else {
            ((self.viewport_x_offset as u16 + x as u16) % 256) as u8
        };
        let map_y: u8 = if in_window {
            self.line - self.window.y
        } else {
            ((self.viewport_y_offset as u16 + self.line as u16) % 256) as u8
        };
        self.map_pixel(map, map_x, map_y)
    }

    /// The shade of the pixel in column `x` of the current line.
    pub fn pixel_shade(&self, x: u8) -> (shade: u8)
        requires
            x < 160,
        ensures
            shade == self.spec_pixel_shade(x as int),
    {
        let value = self.pixel_value(x);
        self.tile_value_to_background_color(&value).shade()
    }

    /// Sets the pixel in column `x` of the current line to a shade of gray.
    fn put_pixel(&mut self, x: u8, shade: u8)
        requires
            x < 160,
            old(self).line < 144,
        ensures
            *final(self) == old(self).spec_put_pixel(x as int, shade),
    {
        let offset = (self.line as usize * SCREEN_WIDTH + x as usize) * 4;
        self.canvas_buffer[offset] = shade;
        self.canvas_buffer[offset + 1] = shade;
        self.canvas_buffer[offset + 2] = shade;
        self.canvas_buffer[offset + 3] = 255;
    }

    /// Draws the current line into the frame.
    pub fn render_scan_line(&mut self)
        requires
            old(self).line < 144,
        ensures
            *final(self) == old(self).spec_render_scan_line(),
            final(self).line == old(self).line,
            final(self).mode == old(self).mode,
            final(self).cycles == old(self).cycles,
            final(self).tile_set == old(self).tile_set,
            final(self).vram == old(self).vram,
    {
        reveal(GPU::spec_render_scan_line);
        if self.background_display_enabled {
            let ghost start = *self;
            let mut x: u8 = 0;
            while x < 160
                invariant
                    x <= 160,
                    start.line < 144,
                    *self == start.spec_render_pixels(x as nat),
                    self.tile_set == start.tile_set,
                    self.vram == start.vram,
                decreases 160 - x,
            {
                proof {
                    start.lemma_render_pixels_frame(x as nat);
                    lemma_pixel_shade_frame(start, *self, x as int);
                }
                let shade = self.pixel_shade(x);
                self.put_pixel(x, shade);
                assert(*self == start.spec_render_pixels((x + 1) as nat));
                x += 1;
            }
            proof {
                start.lemma_render_pixels_frame(160);
            }
        }
    }

    /// The shade that the background palette gives to a pixel value.
    pub fn tile_value_to_background_color(&self, tile_value: &TilePixelValue) -> (color: Color)
        ensures
            color == self.background_colors.spec_color_of(*tile_value),
    {
        match tile_value {
            TilePixelValue::Zero => self.background_colors.0,
            TilePixelValue::One => self.background_colors.1,
            TilePixelValue::Two => self.background_colors.2,
            TilePixelValue::Three => self.background_colors.3,
        }
    }

    /// After a write to tile data the row that the byte belongs to holds what
    /// its two bytes encode, and a tile cache that was in step with video
    /// memory before any write is so after it.
    pub proof fn lemma_write_vram(self, index: int, value: u8)
        requires
            0 <= index < 0x2000,
        ensures
            index < 0x1800 ==> self.spec_write_vram(index, value).row_coherent(
                index / 16,
                (index % 16) / 2,
            ),
            self.tiles_coherent() ==> self.spec_write_vram(index, value).tiles_coherent(),
    {
        let after = self.spec_write_vram(index, value);
        let tile_index = index / 16;
        let row_index = (index % 16) / 2;
        let first = tile_index * 16 + row_index * 2;
        if index < 0x1800 {
            lemma_decode_row(
                self.tile_set[tile_index][row_index],
                after.vram[first],
                after.vram[first + 1],
            );
            assert(after.tile_set[tile_index][row_index] == decode_row(
                self.tile_set[tile_index][row_index],
                after.vram[first],
                after.vram[first + 1],
            ));
            assert(after.row_coherent(tile_index, row_index));
        }
        if self.tiles_coherent() {
            assert forall|tile: int, row: int| 0 <= tile < 384 && 0 <= row < 8 implies (
            #[trigger] row_matches(after.tile_set, after.vram, tile, row)) by {
                if index < 0x1800 && tile == tile_index && row == row_index {
                    assert(after.row_coherent(tile, row));
                } else {
                    assert(row_matches(self.tile_set, self.vram, tile, row));
                    assert(tile * 16 + row * 2 != index && tile * 16 + row * 2 + 1 != index);
                    assert(after.vram[tile * 16 + row * 2] == self.vram[tile * 16 + row * 2]);
                    assert(after.vram[tile * 16 + row * 2 + 1] == self.vram[tile * 16 + row * 2
                        + 1]);
                    assert(after.tile_set[tile][row] == self.tile_set[tile][row]);
                }
            }
        }
    }

    /// After a write to tile data, each pixel of the row that the byte belongs
    /// to holds the value that the row's two bytes, the first of them at the
    /// even index, encode for it.
    pub proof fn lemma_write_vram_decodes(self, index: int, value: u8)
        requires
            0 <= index < 0x1800,
        ensures
            forall|column: int|
                0 <= column < 8 ==> (#[trigger] self.spec_write_vram(index, value).tile_set[index
                    / 16][(index % 16) / 2][column]) == decode_pixel(
                    self.spec_write_vram(index, value).vram[index - index % 2],
                    self.spec_write_vram(index, value).vram[index - index % 2 + 1],
                    column,
                ),
    {
        self.lemma_write_vram(index, value);
        assert((index / 16) * 16 + ((index % 16) / 2) * 2 == index - index % 2);
    }

    /// In a unit whose tile cache is in step with video memory, every pixel
    /// of every tile is the value that its row's two bytes encode.
    pub proof fn lemma_tiles_coherent(self, tile: int, row: int, column: int)
        requires
            self.tiles_coherent(),
            0 <= tile < 384,
            0 <= row < 8,
            0 <= column < 8,
        ensures
            self.tile_set[tile][row][column] == decode_pixel(
                self.vram[tile * 16 + row * 2],
                self.vram[tile * 16 + row * 2 + 1],
                column,
            ),
    {
        assert(row_matches(self.tile_set, self.vram, tile, row));
    }

    /// Where the four bytes of the pixel in column `x` of line `line` start in
    /// the frame.
    pub open spec fn spec_canvas_offset(line: int, x: int) -> int {
        (line * 160 + x) * 4
    }

    /// Drawing the first `count` pixels of the current line gives each of
    /// them its shade as red, green and blue and 255 as alpha, and leaves the
    /// rest of the frame as it was.
    pub proof fn lemma_render_pixels(self, count: nat)
        requires
            self.line < 144,
            count <= 160,
        ensures
            forall|x: int|
                0 <= x < count ==> {
                    let shade = #[trigger] self.spec_pixel_shade(x);
                    let offset = Self::spec_canvas_offset(self.line as int, x);
                    let canvas = self.spec_render_pixels(count).canvas_buffer;
                    canvas[offset] == shade && canvas[offset + 1] == shade && canvas[offset + 2]
                        == shade && canvas[offset + 3] == 255
                },
            forall|index: int|
                0 <= index < 92160 && !(Self::spec_canvas_offset(self.line as int, 0) <= index
                    < Self::spec_canvas_offset(self.line as int, count as int)) ==> (
                #[trigger] self.spec_render_pixels(count).canvas_buffer[index])
                    == self.canvas_buffer[index],
        decreases count,
    {
        if count > 0 {
            let before = self.spec_render_pixels((count - 1) as nat);
            let after = self.spec_render_pixels(count);
            self.lemma_render_pixels((count - 1) as nat);
            self.lemma_render_pixels_frame((count - 1) as nat);
            let last = Self::spec_canvas_offset(self.line as int, count - 1);
            let shade = self.spec_pixel_shade(count - 1);
            assert(after == before.spec_put_pixel(count - 1, shade));
            assert(before.line == self.line);
            assert(0 <= last && last + 3 < 92160);
            assert forall|index: int| 0 <= index < 92160 implies (
            #[trigger] after.canvas_buffer[index]) == (if index == last || index == last + 1
                || index == last + 2 {
                shade
            } else if index == last + 3 {
                255u8
            } else {
                before.canvas_buffer[index]
            }) by {}
            assert forall|x: int| 0 <= x < count implies ({
                let shade = #[trigger] self.spec_pixel_shade(x);
                let offset = Self::spec_canvas_offset(self.line as int, x);
                let canvas = after.canvas_buffer;
                canvas[offset] == shade && canvas[offset + 1] == shade && canvas[offset + 2]
                    == shade && canvas[offset + 3] == 255
            }) by {
                let offset = Self::spec_canvas_offset(self.line as int, x);
                assert(0 <= offset && offset + 3 < 92160);
                if x < count - 1 {
                    assert(offset + 3 < last);
                }
            }
        }
    }

    /// Drawing the current line, with the background switched on, gives each
    /// of its 160 pixels the shade that the palette gives to the pixel value
    /// found through the tile map, and leaves the other lines of the frame as
    /// they were.
    pub proof fn lemma_render_scan_line(self)
        requires
            self.line < 144,
            self.background_display_enabled,
        ensures
            forall|x: int|
                0 <= x < 160 ==> {
                    let shade = #[trigger] self.spec_pixel_shade(x);
                    let offset = Self::spec_canvas_offset(self.line as int, x);
                    let canvas = self.spec_render_scan_line().canvas_buffer;
                    canvas[offset] == shade && canvas[offset + 1] == shade && canvas[offset + 2]
                        == shade && canvas[offset + 3] == 255
                },
            forall|index: int|
                0 <= index < 92160 && !(self.line * 640 <= index < self.line * 640 + 640) ==> (
                #[trigger] self.spec_render_scan_line().canvas_buffer[index])
                    == self.canvas_buffer[index],
            self.spec_render_scan_line() == (GPU {
                canvas_buffer: self.spec_render_scan_line().canvas_buffer,
                ..self
            }),
    {
        reveal(GPU::spec_render_scan_line);
        self.lemma_render_pixels(160);
        self.lemma_render_pixels_frame(160);
    }

    /// Drawing pixels of the current line changes nothing but the frame.
    pub proof fn lemma_render_pixels_frame(self, count: nat)
        ensures
            self.spec_render_pixels(count) == (GPU {
                canvas_buffer: self.spec_render_pixels(count).canvas_buffer,
                ..self
            }),
        decreases count,
    {
        if count > 0 {
            self.lemma_render_pixels_frame((count - 1) as nat);
        }
    }

    /// The shade that the background palette gives to the pixel in column
    /// `column` of row `row` of tile `tile` of the tile cache.
    pub open spec fn spec_tile_shade(self, tile: int, row: int, column: int) -> u8 {
        self.background_colors.spec_color_of(self.tile_set[tile][row][column]).spec_shade()
    }

    /// The byte at `index` of the picture of the whole tile cache: 24 tiles
    /// across and 16 down, 192 by 128 pixels of four bytes each. With
    /// `outline_tiles` the first row and column of each tile and the last row
    /// and column of the picture are blue.
    pub open spec fn spec_tile_set_byte(self, outline_tiles: bool, index: int) -> u8 {
        let pixel = index / 4;
        let channel = index % 4;
        let x = pixel % 192;
        let y = pixel / 192;
        let outlined = outline_tiles && (y % 8 == 0 || x % 8 == 0 || y == 127 || x == 191);
        if channel == 3 {
            255
        } else if outlined {
            if channel == 2 {
                255
            } else {
                0
            }
        } else {
            self.spec_tile_shade((y / 8) * 24 + x / 8, y % 8, x % 8)
        }
    }

    /// Whether the pixel at `(x, y)` of the background lies on the frame that
    /// marks the viewport: on its top or bottom edge between its sides, or on
    /// its left or right edge between top and bottom. The viewport is 160 by
    /// 144 pixels from the scroll offsets on, and its far edges wrap at 256.
    pub open spec fn spec_on_viewport_border(self, x: int, y: int) -> bool {
        let left = self.viewport_x_offset as int;
        let top = self.viewport_y_offset as int;
        let right = (left + 160) % 256;
        let bottom = (top + 144) % 256;
        let inside_horizontally = if left + 160 > 255 {
            x < right || x > left
        } else {
            x < right && x > left
        };
        let inside_vertically = if top + 144 > 255 {
            y < bottom || y > top
        } else {
            y < bottom && y > top
        };
        (inside_horizontally && (top == y || y == bottom)) || (inside_vertically && (left == x
            || x == right))
    }

    /// The byte at `index` of the picture of the whole background that the
    /// first tile map describes, with the tile numbers counted from the first
    /// tile: 256 by 256 pixels of four bytes each. With `show_viewport` the
    /// frame of the viewport is red; with `outline_tiles` the first row and
    /// column of each tile and the last row and column of the picture are
    /// blue.
    pub open spec fn spec_background_byte(
        self,
        outline_tiles: bool,
        show_viewport: bool,
        index: int,
    ) -> u8 {
        let pixel = index / 4;
        let channel = index % 4;
        let x = pixel % 256;
        let y = pixel / 256;
        let outlined = outline_tiles && (y % 8 == 0 || x % 8 == 0 || y == 255 || x == 255);
        if channel == 3 {
            255
        } else if show_viewport && self.spec_on_viewport_border(x, y) {
            if channel == 0 {
                255
            } else {
                0
            }
        } else if outlined {
            if channel == 2 {
                255
            } else {
                0
            }
        } else {
            self.spec_tile_shade(self.vram[0x1800 + (y / 8) * 32 + x / 8] as int, y % 8, x % 8)
        }
    }

    /// The shade of one pixel of one tile of the tile cache.
    pub fn tile_shade(&self, tile: usize, row: usize, column: usize) -> (shade: u8)
        requires
            tile < TILE_COUNT,
            row < 8,
            column < 8,
        ensures
            shade == self.spec_tile_shade(tile as int, row as int, column as int),
    {
        let value = self.tile_set[tile][row][column];
        self.tile_value_to_background_color(&value).shade()
    }

    /// Whether a pixel of the background lies on the frame of the viewport.
    pub fn on_viewport_border(&self, x: usize, y: usize) -> (on_border: bool)
        requires
            x < 256,
            y < 256,
        ensures
            on_border == self.spec_on_viewport_border(x as int, y as int),
    {
        let left = self.viewport_x_offset as usize;
        let top = self.viewport_y_offset as usize;
        let did_overflow_x = left + SCREEN_WIDTH > 255;
        let did_overflow_y = top + SCREEN_HEIGHT > 255;
        let right = (left + SCREEN_WIDTH) % 256;
        let bottom = (top + SCREEN_HEIGHT) % 256;
        let is_inside_screen_horizontally = if did_overflow_x {
            x < right || x > left
        } else {
            x < right && x > left
        };
        let is_on_screen_horizontal_edge = top == y || y == bottom;
        let is_inside_screen_vertically = if did_overflow_y {
            y < bottom || y > top
        } else {
            y < bottom && y > top
        };
        let is_on_screen_vertical_edge = left == x || x == right;
        (is_inside_screen_horizontally && is_on_screen_horizontal_edge) || (
        is_inside_screen_vertically && is_on_screen_vertical_edge)
    }

    /// A picture of the whole background that the first tile map describes.
    /// Only the first tile map is supported.
    pub fn background_as_buffer(&self, outline_tiles: bool, show_viewport: bool) -> (data: Vec<u8>)
        requires
            self.background_tile_map == TileMap::X9800,
        ensures
            data.len() == 262144,
            forall|index: int|
                0 <= index < 262144 ==> (#[trigger] data[index]) == self.spec_background_byte(
                    outline_tiles,
                    show_viewport,
                    index,
                ),
    {
        let mut data: Vec<u8> = Vec::with_capacity(262144);
        let mut pixel: usize = 0;
        while pixel < 65536
            invariant
                pixel <= 65536,
                data.len() == pixel * 4,
                forall|index: int|
                    0 <= index < pixel * 4 ==> (#[trigger] data[index])
                        == self.spec_background_byte(outline_tiles, show_viewport, index),
            decreases 65536 - pixel,
        {
            let x = pixel % 256;
            let y = pixel / 256;
            let on_tile_border = y % 8 == 0 || x % 8 == 0 || y == 255 || x == 255;
            let (red, green, blue) = if show_viewport && self.on_viewport_border(x, y) {
                (255, 0, 0)
            } else if outline_tiles && on_tile_border {
                (0, 0, 255)
            } else {
                let tile_id = self.vram[0x1800 + (y / 8) * 32 + x / 8];
                let shade = self.tile_shade(tile_id as usize, y % 8, x % 8);
                (shade, shade, shade)
            };
            push_pixel(&mut data, red, green, blue);
            proof {
                assert forall|index: int| pixel * 4 <= index < pixel * 4 + 4 implies (
                #[trigger] data[index]) == self.spec_background_byte(
                    outline_tiles,
                    show_viewport,
                    index,
                ) by {
                    assert(index / 4 == pixel);
                    assert(index % 4 == index - pixel * 4);
                }
            }
            pixel += 1;
        }
        data
    }

    /// A picture of the whole tile cache.
    pub fn tile_set_as_buffer(&self, outline_tiles: bool) -> (data: Vec<u8>)
        ensures
            data.len() == 98304,
            forall|index: int|
                0 <= index < 98304 ==> (#[trigger] data[index]) == self.spec_tile_set_byte(
                    outline_tiles,
                    index,
                ),
    {
        let mut data: Vec<u8> = Vec::with_capacity(98304);
        let mut pixel: usize = 0;
        while pixel < 24576
            invariant
                pixel <= 24576,
                data.len() == pixel * 4,
                forall|index: int|
                    0 <= index < pixel * 4 ==> (#[trigger] data[index]) == self.spec_tile_set_byte(
                        outline_tiles,
                        index,
                    ),
            decreases 24576 - pixel,
        {
            let x = pixel % 192;
            let y = pixel / 192;
            let on_tile_border = y % 8 == 0 || x % 8 == 0 || y == 127 || x == 191;
            let (red, green, blue) = if outline_tiles && on_tile_border {
                (0, 0, 255)
            } else {
                let shade = self.tile_shade((y / 8) * 24 + x / 8, y % 8, x % 8);
                (shade, shade, shade)
            };
            push_pixel(&mut data, red, green, blue);
            proof {
                assert forall|index: int| pixel * 4 <= index < pixel * 4 + 4 implies (
                #[trigger] data[index]) == self.spec_tile_set_byte(outline_tiles, index) by {
                    assert(index / 4 == pixel);
                    assert(index % 4 == index - pixel * 4);
                }
            }
            pixel += 1;
        }
        data
    }

    /// The shades of the tile that the first tile map shows at the pixel
    /// `(pixel_x, pixel_y)` of the background, with the tile numbers counted
    /// from the first tile.
    pub fn get_tile_buffer_at(&self, pixel_x: usize, pixel_y: usize) -> (result: [[u8; 8]; 8])
        requires
            pixel_y / 8 * 32 + pixel_x / 8 < 0x400,
        ensures
            forall|row: int, column: int|
                0 <= row < 8 && 0 <= column < 8 ==> (#[trigger] result[row][column])
                    == self.spec_tile_shade(
                    self.vram[0x1800 + pixel_y as int / 8 * 32 + pixel_x as int / 8] as int,
                    row,
                    column,
                ),
    {
        let tile_x = pixel_x / 8;
        let tile_y = pixel_y / 8;

        let index = (tile_y * 32) + tile_x;
        let tile = self.background_1(index) as usize;
        let mut result = [[0u8; 8]; 8];
        let mut row_index: usize = 0;
        while row_index < 8
            invariant
                row_index <= 8,
                tile < TILE_COUNT,
                forall|row: int, column: int|
                    0 <= row < row_index && 0 <= column < 8 ==> (#[trigger] result[row][column])
                        == self.spec_tile_shade(tile as int, row, column),
            decreases 8 - row_index,
        {
            let mut shades = [0u8; 8];
            let mut pixel_index: usize = 0;
            while pixel_index < 8
                invariant
                    pixel_index <= 8,
                    row_index < 8,
                    tile < TILE_COUNT,
                    forall|column: int|
                        0 <= column < pixel_index ==> (#[trigger] shades[column])
                            == self.spec_tile_shade(tile as int, row_index as int, column),
                decreases 8 - pixel_index,
            {
                shades[pixel_index] = self.tile_shade(tile, row_index, pixel_index);
                pixel_index += 1;
            }
            result[row_index] = shades;
            row_index += 1;
        }
        result
    }
}

/// The word that a presenter shows for a pixel: alpha in the highest byte,
/// then blue, green, and red in the lowest.
pub open spec fn spec_pack_pixel(red: u8, green: u8, blue: u8, alpha: u8) -> u32 {
    (alpha as int * 0x1000000 + blue as int * 0x10000 + green as int * 0x100 + red as int) as u32
}

/// Packs the four bytes of a pixel into one word.
pub fn pack_pixel(red: u8, green: u8, blue: u8, alpha: u8) -> (word: u32)
    ensures
        word == spec_pack_pixel(red, green, blue, alpha),
{
    alpha as u32 * 0x1000000 + blue as u32 * 0x10000 + green as u32 * 0x100 + red as u32
}

impl GPU {
    /// The frame as one word for each of its 23040 pixels.
    pub fn frame_as_words(&self) -> (words: Vec<u32>)
        ensures
            words.len() == 23040,
            forall|pixel: int|
                0 <= pixel < 23040 ==> (#[trigger] words[pixel]) == spec_pack_pixel(
                    self.canvas_buffer[pixel * 4],
                    self.canvas_buffer[pixel * 4 + 1],
                    self.canvas_buffer[pixel * 4 + 2],
                    self.canvas_buffer[pixel * 4 + 3],
                ),
    {
        let mut words: Vec<u32> = Vec::with_capacity(23040);
        let mut pixel: usize = 0;
        while pixel < 23040
            invariant
                pixel <= 23040,
                words.len() == pixel,
                forall|done: int|
                    0 <= done < pixel ==> (#[trigger] words[done]) == spec_pack_pixel(
                        self.canvas_buffer[done * 4],
                        self.canvas_buffer[done * 4 + 1],
                        self.canvas_buffer[done * 4 + 2],
                        self.canvas_buffer[done * 4 + 3],
                    ),
            decreases 23040 - pixel,
        {
            words.push(
                pack_pixel(
                    self.canvas_buffer[pixel * 4],
                    self.canvas_buffer[pixel * 4 + 1],
                    self.canvas_buffer[pixel * 4 + 2],
                    self.canvas_buffer[pixel * 4 + 3],
                ),
            );
            pixel += 1;
        }
        words
    }
}

/// Appends one opaque pixel to a picture.
pub fn push_pixel(data: &mut Vec<u8>, red: u8, green: u8, blue: u8)
    ensures
        final(data)@ == old(data)@.push(red).push(green).push(blue).push(255u8),
{
    data.push(red);
    data.push(green);
    data.push(blue);
    data.push(255);
}

} // verus!
