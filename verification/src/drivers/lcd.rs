//! HD44780 character display in 4-bit mode behind an I2C GPIO expander.
//!
//! Every byte that goes over the bus drives the expander's eight pins:
//! bits 7..4 carry a data nibble, bit 3 the backlight, bit 2 the Enable
//! strobe, bit 1 Read/Write (always low: the display is only written) and
//! bit 0 Register-Select (0 for a command, 1 for character data).
//!
//! The driver keeps a shadow of the controller's write-only registers and
//! turns each operation into the list of [`BusOp`]s that carries it out. The
//! caller plays the list in order on the bus: every write and every wait, also
//! after a write has failed, because a sequence broken off halfway leaves the
//! controller in a worse state than one that was finished.

use vstd::prelude::*;
use vstd::string::StringSliceAdditionalSpecFns;

verus! {

/// Expander bit that switches the backlight on.
pub const BACKLIGHT: u8 = 0x08;

/// Expander bits with the backlight off.
pub const NO_BACKLIGHT: u8 = 0x00;

/// Expander bit of the Enable strobe.
pub const ENABLE: u8 = 0x04;

/// Expander bit of Register-Select: set for character data.
pub const REGISTER_SELECT: u8 = 0x01;

/// Command: display control; the low bits switch display, cursor and blink.
pub const DISPLAY_CONTROL: u8 = 0x08;

/// Display-control bit: display on.
pub const DISPLAY_ON: u8 = 0x04;

/// Function bit: two display lines.
pub const TWO_LINE: u8 = 0x08;

/// Function bit: 5x10 dot font.
pub const FIVE_X10_DOTS: u8 = 0x04;

/// Command: function set for the 4-bit interface. The function bits are
/// or-ed into it.
pub const FUNCTION_SET: u8 = 0x28;

/// Command: entry mode set; the low bits give the text direction.
pub const ENTRY_MODE_SET: u8 = 0x04;

/// Entry-mode bit: text runs left to right.
pub const ENTRY_LEFT: u8 = 0x02;

/// Command: clear the display.
pub const CLEAR_DISPLAY: u8 = 0x01;

/// Command: move the cursor to the origin.
pub const RETURN_HOME: u8 = 0x02;

/// Command: set the DDRAM address; the address is or-ed into it.
pub const SET_DDRAM_ADDR: u8 = 0x80;

/// First byte of the start-up sequence: brings the controller into a known
/// state whatever interface mode it was in.
pub const INITIALIZE_4BIT: u8 = 0x33;

/// Second byte of the start-up sequence: selects the 4-bit interface.
pub const SELECT_4BIT: u8 = 0x32;

/// Milliseconds to wait after power-up before the first command.
pub const POWER_UP_MS: u16 = 15;

/// Milliseconds to wait after the first byte of the start-up sequence.
pub const INITIALIZE_MS: u16 = 5;

/// Milliseconds the Enable strobe is held high.
pub const STROBE_MS: u16 = 2;

/// Milliseconds the controller needs to carry out a command or store a
/// character.
pub const EXECUTE_MS: u16 = 1;

/// Further milliseconds the controller needs after clearing the display or
/// returning home.
pub const SETTLE_MS: u16 = 2;

/// One step for the caller to carry out.
#[derive(Clone, Copy, Debug, PartialEq, Eq, Structural)]
pub enum BusOp {
    /// Write the single byte `byte` to the device at the 7-bit I2C address
    /// `address`.
    Write { address: u8, byte: u8 },
    /// Wait for at least `ms` milliseconds.
    DelayMs { ms: u16 },
}

/// DDRAM address of the first column of a display row; rows past the fourth
/// share the offset of the fourth.
pub open spec fn spec_row_offset(row: u8) -> u8 {
    if row == 0 {
        0x00
    } else if row == 1 {
        0x40
    } else if row == 2 {
        0x14
    } else {
        0x54
    }
}

/// The function bits for a display of `rows` lines and font `char_size`: two
/// lines where there is more than one row, and the 5x10 font only where it
/// was asked for on a one-line display, the only place the controller has it.
pub open spec fn spec_function_bits(rows: u8, char_size: u8) -> u8 {
    if rows > 1 {
        TWO_LINE
    } else if char_size != 0 && rows == 1 {
        FIVE_X10_DOTS
    } else {
        0
    }
}

/// The driver's state: the bus address, the geometry it was built with, the
/// backlight flag and the shadow of the controller's registers.
pub struct LcdState {
    pub address: u8,
    pub display_function: u8,
    pub display_control: u8,
    pub display_mode: u8,
    pub cols: u8,
    pub rows: u8,
    pub char_size: u8,
    pub backlight: bool,
}

impl LcdState {
    /// The state of a new driver: registers cleared, backlight on.
    pub open spec fn new(address: u8, cols: u8, rows: u8, char_size: u8) -> LcdState {
        LcdState {
            address,
            display_function: 0,
            display_control: 0,
            display_mode: 0,
            cols,
            rows,
            char_size,
            backlight: true,
        }
    }

    /// The expander byte that presents `nibble` with Enable low.
    pub open spec fn expander_byte(self, nibble: u8, data: bool) -> u8 {
        nibble | (if data {
            REGISTER_SELECT
        } else {
            0u8
        }) | (if self.backlight {
            BACKLIGHT
        } else {
            NO_BACKLIGHT
        })
    }

    /// One strobe: the byte with Enable high, the pulse width, the byte with
    /// Enable low.
    pub open spec fn expander_write_ops(self, nibble: u8, data: bool) -> Seq<BusOp> {
        seq![
            BusOp::Write { address: self.address, byte: self.expander_byte(nibble, data) | ENABLE },
            BusOp::DelayMs { ms: STROBE_MS },
            BusOp::Write { address: self.address, byte: self.expander_byte(nibble, data) },
        ]
    }

    /// A whole byte: its high nibble, then its low nibble.
    pub open spec fn write_ops(self, byte: u8, data: bool) -> Seq<BusOp> {
        self.expander_write_ops(byte & 0xF0, data) + self.expander_write_ops(
            (byte & 0x0F) << 4,
            data,
        )
    }

    /// A command byte and the time to carry it out.
    pub open spec fn command_ops(self, cmd: u8) -> Seq<BusOp> {
        self.write_ops(cmd, false).push(BusOp::DelayMs { ms: EXECUTE_MS })
    }

    /// A character byte and the time to store it.
    pub open spec fn write_byte_ops(self, byte: u8) -> Seq<BusOp> {
        self.write_ops(byte, true).push(BusOp::DelayMs { ms: EXECUTE_MS })
    }

    /// The bytes of `data` as characters, one after the other.
    pub open spec fn write_bytes_ops(self, data: Seq<u8>) -> Seq<BusOp>
        decreases data.len(),
    {
        if data.len() == 0 {
            Seq::empty()
        } else {
            self.write_bytes_ops(data.drop_last()) + self.write_byte_ops(data.last())
        }
    }

    /// The clear command with its settling time.
    pub open spec fn clear_ops(self) -> Seq<BusOp> {
        self.command_ops(CLEAR_DISPLAY).push(BusOp::DelayMs { ms: SETTLE_MS })
    }

    /// The return-home command with its settling time.
    pub open spec fn home_ops(self) -> Seq<BusOp> {
        self.command_ops(RETURN_HOME).push(BusOp::DelayMs { ms: SETTLE_MS })
    }

    /// The display-control command for the shadow register as it stands.
    pub open spec fn display_control_ops(self) -> Seq<BusOp> {
        self.command_ops(DISPLAY_CONTROL | self.display_control)
    }

    /// The state with the display-on bit set in the shadow register.
    pub open spec fn display_on(self) -> LcdState {
        LcdState { display_control: self.display_control | DISPLAY_ON, ..self }
    }

    /// The state with the display-on bit cleared in the shadow register.
    pub open spec fn display_off(self) -> LcdState {
        LcdState { display_control: self.display_control & !DISPLAY_ON, ..self }
    }

    /// The state with the backlight flag set to `on`.
    pub open spec fn with_backlight(self, on: bool) -> LcdState {
        LcdState { backlight: on, ..self }
    }

    /// The row the cursor goes to when `row` is asked for: `row` itself where
    /// the display has it, else the last row; never past the fourth.
    pub open spec fn cursor_row(self, row: u8) -> u8 {
        let last: u8 = if self.rows == 0 {
            0u8
        } else {
            (self.rows - 1) as u8
        };
        let clamped: u8 = if row >= self.rows {
            last
        } else {
            row
        };
        if clamped > 3 {
            3u8
        } else {
            clamped
        }
    }

    /// The DDRAM address of column `col` in the row that `row` is clamped to.
    /// The sum is taken modulo 256.
    pub open spec fn ddram_address(self, col: u8, row: u8) -> u8 {
        ((col + spec_row_offset(self.cursor_row(row))) % 256) as u8
    }

    /// The command that moves the cursor.
    pub open spec fn set_cursor_ops(self, col: u8, row: u8) -> Seq<BusOp> {
        self.command_ops(SET_DDRAM_ADDR | self.ddram_address(col, row))
    }

    /// The state after start-up: function bits from the geometry, display on
    /// with cursor and blink off, text running left to right.
    pub open spec fn init(self) -> LcdState {
        LcdState {
            display_function: spec_function_bits(self.rows, self.char_size),
            display_control: DISPLAY_ON,
            display_mode: ENTRY_LEFT,
            ..self
        }
    }

    /// The function-set command byte for this geometry.
    pub open spec fn function_set_byte(self) -> u8 {
        FUNCTION_SET | spec_function_bits(self.rows, self.char_size)
    }

    /// The start-up sequence.
    pub open spec fn init_ops(self) -> Seq<BusOp> {
        seq![BusOp::DelayMs { ms: POWER_UP_MS }]
            + self.write_ops(INITIALIZE_4BIT, false).push(BusOp::DelayMs { ms: INITIALIZE_MS })
            + self.command_ops(SELECT_4BIT)
            + self.command_ops(self.function_set_byte())
            + self.command_ops(DISPLAY_CONTROL | DISPLAY_ON)
            + self.clear_ops()
            + self.command_ops(ENTRY_MODE_SET | ENTRY_LEFT)
            + self.home_ops()
    }
}

/// The display driver.
pub struct Lcd {
    address: u8,
    display_function: u8,
    display_control: u8,
    display_mode: u8,
    cols: u8,
    rows: u8,
    char_size: u8,
    backlight: bool,
}

impl View for Lcd {
    type V = LcdState;

    closed spec fn view(&self) -> LcdState {
        LcdState {
            address: self.address,
            display_function: self.display_function,
            display_control: self.display_control,
            display_mode: self.display_mode,
            cols: self.cols,
            rows: self.rows,
            char_size: self.char_size,
            backlight: self.backlight,
        }
    }
}

/// Computes the DDRAM address of the first column of a display row.
pub fn row_offset(row: u8) -> (offset: u8)
    ensures
        offset == spec_row_offset(row),
{
    if row == 0 {
        0x00
    } else if row == 1 {
        0x40
    } else if row == 2 {
        0x14
    } else {
        0x54
    }
}

/// Computes the function bits for a display of `rows` lines and font
/// `char_size`.
pub fn function_bits(rows: u8, char_size: u8) -> (bits: u8)
    ensures
        bits == spec_function_bits(rows, char_size),
{
    let mut bits: u8 = 0;
    if rows > 1 {
        bits = TWO_LINE;
    }
    if char_size != 0 && rows == 1 {
        bits = FIVE_X10_DOTS;
    }
    bits
}

impl Lcd {
    /// A driver for the display at the 7-bit I2C address `address`, with
    /// `cols` columns, `rows` rows and font `char_size` (0 for 5x8 dots).
    /// Nothing is sent until [`Lcd::init`].
    pub fn new(address: u8, cols: u8, rows: u8, char_size: u8) -> (lcd: Self)
        ensures
            lcd@ == LcdState::new(address, cols, rows, char_size),
    {
        Lcd {
            address,
            display_function: 0,
            display_control: 0,
            display_mode: 0,
            cols,
            rows,
            char_size,
            backlight: true,
        }
    }

    fn expander_write(&self, ops: &mut Vec<BusOp>, nibble: u8, data: bool)
        ensures
            final(ops)@ == old(ops)@ + self@.expander_write_ops(nibble, data),
    {
        let rs: u8 = if data {
            REGISTER_SELECT
        } else {
            0u8
        };
        let light: u8 = if self.backlight {
            BACKLIGHT
        } else {
            NO_BACKLIGHT
        };
        let byte: u8 = nibble | rs | light;
        ops.push(BusOp::Write { address: self.address, byte: byte | ENABLE });
        ops.push(BusOp::DelayMs { ms: STROBE_MS });
        ops.push(BusOp::Write { address: self.address, byte });
    }

    fn write(&self, ops: &mut Vec<BusOp>, byte: u8, data: bool)
        ensures
            final(ops)@ == old(ops)@ + self@.write_ops(byte, data),
    {
        let upper_nibble: u8 = byte & 0xF0;
        self.expander_write(ops, upper_nibble, data);
        let lower_nibble: u8 = (byte & 0x0F) << 4;
        self.expander_write(ops, lower_nibble, data);
    }

    fn write_byte(&self, ops: &mut Vec<BusOp>, byte: u8)
        ensures
            final(ops)@ == old(ops)@ + self@.write_byte_ops(byte),
    {
        self.write(ops, byte, true);
        ops.push(BusOp::DelayMs { ms: EXECUTE_MS });
    }

    fn command(&self, ops: &mut Vec<BusOp>, cmd: u8)
        ensures
            final(ops)@ == old(ops)@ + self@.command_ops(cmd),
    {
        self.write(ops, cmd, false);
        ops.push(BusOp::DelayMs { ms: EXECUTE_MS });
    }

    /// Starts the display up. The sequence is fixed by the controller: wait
    /// for it to boot, force it into a known state, select the 4-bit
    /// interface, set the function bits for the geometry, switch the display
    /// on, clear it, set the text direction and return home, each with the
    /// wait the controller asks for.
    pub fn init(&mut self) -> (ops: Vec<BusOp>)
        ensures
            ops@ == old(self)@.init_ops(),
            final(self)@ == old(self)@.init(),
    {
        self.display_function = function_bits(self.rows, self.char_size);
        self.display_control = DISPLAY_ON;
        self.display_mode = ENTRY_LEFT;

        let mut ops: Vec<BusOp> = Vec::new();
        ops.push(BusOp::DelayMs { ms: POWER_UP_MS });
        self.write(&mut ops, INITIALIZE_4BIT, false);
        ops.push(BusOp::DelayMs { ms: INITIALIZE_MS });
        self.command(&mut ops, SELECT_4BIT);
        self.command(&mut ops, FUNCTION_SET | self.display_function);
        self.command(&mut ops, DISPLAY_CONTROL | self.display_control);
        self.clear_into(&mut ops);
        self.command(&mut ops, ENTRY_MODE_SET | self.display_mode);
        self.home_into(&mut ops);
        proof {
            let s = old(self)@;
            assert(self@.write_ops(INITIALIZE_4BIT, false) == s.write_ops(INITIALIZE_4BIT, false));
            assert(ops@ =~= s.init_ops());
        }
        ops
    }

    fn clear_into(&self, ops: &mut Vec<BusOp>)
        ensures
            final(ops)@ == old(ops)@ + self@.clear_ops(),
    {
        self.command(ops, CLEAR_DISPLAY);
        ops.push(BusOp::DelayMs { ms: SETTLE_MS });
    }

    fn home_into(&self, ops: &mut Vec<BusOp>)
        ensures
            final(ops)@ == old(ops)@ + self@.home_ops(),
    {
        self.command(ops, RETURN_HOME);
        ops.push(BusOp::DelayMs { ms: SETTLE_MS });
    }

    /// Clears the display. The controller needs the long settling time
    /// afterwards, which is part of the list.
    pub fn clear(&mut self) -> (ops: Vec<BusOp>)
        ensures
            ops@ == old(self)@.clear_ops(),
            final(self)@ == old(self)@,
    {
        let mut ops: Vec<BusOp> = Vec::new();
        self.clear_into(&mut ops);
        ops
    }

    /// Returns the display to its origin, like [`Lcd::home`].
    pub fn reset(&mut self) -> (ops: Vec<BusOp>)
        ensures
            ops@ == old(self)@.home_ops(),
            final(self)@ == old(self)@,
    {
        let mut ops: Vec<BusOp> = Vec::new();
        self.home_into(&mut ops);
        ops
    }

    /// Switches the backlight on. The backlight travels on every byte, so the
    /// display-control command is sent again, unchanged, to carry it.
    pub fn backlight(&mut self) -> (ops: Vec<BusOp>)
        ensures
            final(self)@ == old(self)@.with_backlight(true),
            ops@ == final(self)@.display_control_ops(),
    {
        self.backlight = true;
        let mut ops: Vec<BusOp> = Vec::new();
        self.command(&mut ops, DISPLAY_CONTROL | self.display_control);
        ops
    }

    /// Switches the backlight off, in the same way.
    pub fn no_backlight(&mut self) -> (ops: Vec<BusOp>)
        ensures
            final(self)@ == old(self)@.with_backlight(false),
            ops@ == final(self)@.display_control_ops(),
    {
        self.backlight = false;
        let mut ops: Vec<BusOp> = Vec::new();
        self.command(&mut ops, DISPLAY_CONTROL | self.display_control);
        ops
    }

    /// Switches the display on: sets the bit in the shadow register and sends
    /// the register.
    pub fn display(&mut self) -> (ops: Vec<BusOp>)
        ensures
            final(self)@ == old(self)@.display_on(),
            ops@ == final(self)@.display_control_ops(),
    {
        self.display_control = self.display_control | DISPLAY_ON;
        let mut ops: Vec<BusOp> = Vec::new();
        self.command(&mut ops, DISPLAY_CONTROL | self.display_control);
        ops
    }

    /// Switches the display off: clears the bit in the shadow register and
    /// sends the register. What the display holds is kept.
    pub fn no_display(&mut self) -> (ops: Vec<BusOp>)
        ensures
            final(self)@ == old(self)@.display_off(),
            ops@ == final(self)@.display_control_ops(),
    {
        self.display_control = self.display_control & !DISPLAY_ON;
        let mut ops: Vec<BusOp> = Vec::new();
        self.command(&mut ops, DISPLAY_CONTROL | self.display_control);
        ops
    }

    /// Moves the cursor to the origin without clearing the display.
    pub fn home(&mut self) -> (ops: Vec<BusOp>)
        ensures
            ops@ == old(self)@.home_ops(),
            final(self)@ == old(self)@,
    {
        let mut ops: Vec<BusOp> = Vec::new();
        self.home_into(&mut ops);
        ops
    }

    /// Moves the cursor to column `col` of row `row`. A row the display does
    /// not have is replaced by its last row; the call never fails.
    pub fn set_cursor(&mut self, col: u8, row: u8) -> (ops: Vec<BusOp>)
        ensures
            ops@ == old(self)@.set_cursor_ops(col, row),
            final(self)@ == old(self)@,
    {
        let mut row: u8 = row;
        if row >= self.rows {
            row = self.rows.saturating_sub(1);
        }
        if row > 3 {
            row = 3;
        }
        let address: u8 = col.wrapping_add(row_offset(row));
        let mut ops: Vec<BusOp> = Vec::new();
        self.command(&mut ops, SET_DDRAM_ADDR | address);
        ops
    }

    /// Writes one character at the cursor: the low eight bits of its code.
    pub fn write_char(&mut self, data: char) -> (ops: Vec<BusOp>)
        ensures
            ops@ == old(self)@.write_byte_ops(data as u8),
            final(self)@ == old(self)@,
    {
        let mut ops: Vec<BusOp> = Vec::new();
        self.write_byte(&mut ops, #[verifier::truncate] (data as u8));
        ops
    }

    /// Writes the bytes of `data` at the cursor, one character each, in
    /// order. Lines are not wrapped: what happens past the last column is up
    /// to the controller.
    pub fn write_bytes(&mut self, data: &[u8]) -> (ops: Vec<BusOp>)
        ensures
            ops@ == old(self)@.write_bytes_ops(data@),
            final(self)@ == old(self)@,
    {
        let mut ops: Vec<BusOp> = Vec::new();
        let mut i: usize = 0;
        while i < data.len()
            invariant
                i <= data.len(),
                self@ == old(self)@,
                ops@ == self@.write_bytes_ops(data@.take(i as int)),
            decreases data.len() - i,
        {
            assert(data@.take(i + 1).drop_last() =~= data@.take(i as int));
            self.write_byte(&mut ops, data[i]);
            i += 1;
        }
        assert(data@.take(i as int) =~= data@);
        ops
    }

    /// Writes the bytes of the string `data` at the cursor.
    pub fn write_str(&mut self, data: &str) -> (ops: Vec<BusOp>)
        ensures
            ops@ == old(self)@.write_bytes_ops(data.spec_bytes()),
            final(self)@ == old(self)@,
    {
        self.write_bytes(data.as_bytes())
    }
}

} // verus!
