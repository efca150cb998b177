//! The receiving side of the bus: what the HD44780 controller takes in.
//!
//! The controller sees the expander's pins change with every byte written to
//! the expander. It takes in a nibble from the data pins on each falling edge
//! of Enable, together with the level of Register-Select, and puts two
//! nibbles together to a byte, the high one first. Waits change nothing on
//! the pins.
//!
//! This is a model in ghost code. The laws at the end of the file say
//! what the lists that the driver hands out amount to on this side.

use vstd::prelude::*;
use crate::drivers::lcd::{
    spec_row_offset, BusOp, LcdState, BACKLIGHT, CLEAR_DISPLAY, DISPLAY_CONTROL, DISPLAY_ON,
    ENABLE, ENTRY_LEFT, ENTRY_MODE_SET, FUNCTION_SET, INITIALIZE_4BIT, REGISTER_SELECT,
    RETURN_HOME, SELECT_4BIT, SET_DDRAM_ADDR,
};

verus! {

/// One byte taken in by the controller.
pub struct Received {
    /// The byte.
    pub byte: u8,
    /// True for character data, false for a command.
    pub data: bool,
}

/// The controller behind the expander at `address`.
pub struct Controller {
    /// The I2C address of the expander.
    pub address: u8,
    /// The expander byte that stands on the pins while Enable is high.
    pub strobe: Option<u8>,
    /// The expander byte that carried the high nibble, while the low nibble
    /// is still to come.
    pub upper: Option<u8>,
    /// The bytes taken in so far, oldest first.
    pub received: Seq<Received>,
}

/// A command byte as the controller takes it in.
pub open spec fn command(byte: u8) -> Received {
    Received { byte, data: false }
}

/// A character byte as the controller takes it in.
pub open spec fn character(byte: u8) -> Received {
    Received { byte, data: true }
}

/// The bytes of `data` as characters.
pub open spec fn characters(data: Seq<u8>) -> Seq<Received> {
    Seq::new(data.len(), |i: int| character(data[i]))
}

impl Controller {
    /// A controller with Enable low, between two bytes, that has taken in
    /// nothing yet.
    pub open spec fn idle(address: u8) -> Controller {
        Controller { address, strobe: None, upper: None, received: Seq::empty() }
    }

    /// Enable is low and no nibble is outstanding.
    pub open spec fn at_rest(self) -> bool {
        self.strobe is None && self.upper is None
    }

    /// The same controller having taken in `more` after what it had.
    pub open spec fn having_received(self, more: Seq<Received>) -> Controller {
        Controller { received: self.received + more, ..self }
    }

    /// The byte made of the high nibble carried by `first` and the low nibble
    /// carried by `second`, at the Register-Select level of `second`.
    pub open spec fn assemble(first: u8, second: u8) -> Received {
        Received { byte: (first & 0xF0) | (second >> 4), data: second & REGISTER_SELECT != 0 }
    }

    /// The controller after one step of the bus.
    pub open spec fn step(self, op: BusOp) -> Controller {
        match op {
            BusOp::DelayMs { ms } => self,
            BusOp::Write { address, byte } => {
                if address != self.address {
                    self
                } else if byte & ENABLE != 0 {
                    Controller { strobe: Some(byte), ..self }
                } else {
                    match self.strobe {
                        None => self,
                        Some(high) => match self.upper {
                            None => Controller { strobe: None, upper: Some(high), ..self },
                            Some(first) => Controller {
                                strobe: None,
                                upper: None,
                                received: self.received.push(Self::assemble(first, high)),
                                ..self
                            },
                        },
                    }
                }
            },
        }
    }

    /// The controller after the steps of `ops`, in order.
    pub open spec fn run(self, ops: Seq<BusOp>) -> Controller
        decreases ops.len(),
    {
        if ops.len() == 0 {
            self
        } else {
            self.run(ops.drop_last()).step(ops.last())
        }
    }
}

/// Running one list after another is running their concatenation.
pub proof fn lemma_run_concat(c: Controller, first: Seq<BusOp>, second: Seq<BusOp>)
    ensures
        c.run(first + second) == c.run(first).run(second),
    decreases second.len(),
{
    if second.len() == 0 {
        assert(first + second =~= first);
    } else {
        assert((first + second).drop_last() =~= first + second.drop_last());
        assert((first + second).last() == second.last());
        lemma_run_concat(c, first, second.drop_last());
    }
}

/// Running a list with one more step at its end.
pub proof fn lemma_run_push(c: Controller, ops: Seq<BusOp>, op: BusOp)
    ensures
        c.run(ops.push(op)) == c.run(ops).step(op),
{
    assert(ops.push(op).drop_last() =~= ops);
}

/// A wait changes nothing.
pub proof fn lemma_run_delay(c: Controller, ops: Seq<BusOp>, ms: u16)
    ensures
        c.run(ops.push(BusOp::DelayMs { ms })) == c.run(ops),
{
    lemma_run_push(c, ops, BusOp::DelayMs { ms });
}

/// The high and the low nibble of a byte, each presented in the upper half of
/// an expander byte with the select and backlight bits below, make up the
/// byte again on the controller's side, and the select bit comes through.
proof fn lemma_nibbles_assemble(byte: u8, rs: u8, light: u8)
    requires
        rs == 0 || rs == 1,
        light == 0 || light == 8,
    ensures
        ({
            let first = (byte & 0xF0) | rs | light;
            let second = ((byte & 0x0F) << 4) | rs | light;
            &&& first & ENABLE == 0
            &&& second & ENABLE == 0
            &&& (first | ENABLE) & ENABLE != 0
            &&& (second | ENABLE) & ENABLE != 0
            &&& ((first | ENABLE) & 0xF0) | ((second | ENABLE) >> 4) == byte
            &&& (second | ENABLE) & REGISTER_SELECT == rs
        }),
{
    assert({
        let first = (byte & 0xF0) | rs | light;
        let second = ((byte & 0x0F) << 4) | rs | light;
        &&& first & 0x04 == 0
        &&& second & 0x04 == 0
        &&& (first | 0x04) & 0x04 != 0
        &&& (second | 0x04) & 0x04 != 0
        &&& ((first | 0x04) & 0xF0) | ((second | 0x04) >> 4) == byte
        &&& (second | 0x04) & 0x01 == rs
    }) by (bit_vector)
        requires
            rs == 0 || rs == 1,
            light == 0 || light == 8,
    ;
}

/// A byte written by the driver arrives: the controller at rest takes in
/// exactly that byte, as a command or as a character as the driver meant it,
/// and is at rest again.
pub proof fn lemma_write_arrives(c: Controller, lcd: LcdState, byte: u8, data: bool)
    requires
        c.at_rest(),
        c.address == lcd.address,
    ensures
        c.run(lcd.write_ops(byte, data)) == c.having_received(seq![Received { byte, data }]),
{
    let rs: u8 = if data { 1u8 } else { 0u8 };
    let light: u8 = if lcd.backlight { 8u8 } else { 0u8 };
    lemma_nibbles_assemble(byte, rs, light);
    let first = lcd.expander_byte(byte & 0xF0, data);
    let second = lcd.expander_byte((byte & 0x0F) << 4, data);
    let a = lcd.address;
    let ops = lcd.write_ops(byte, data);
    let o0 = BusOp::Write { address: a, byte: first | ENABLE };
    let o1 = BusOp::DelayMs { ms: 2 };
    let o2 = BusOp::Write { address: a, byte: first };
    let o3 = BusOp::Write { address: a, byte: second | ENABLE };
    let o5 = BusOp::Write { address: a, byte: second };
    let e: Seq<BusOp> = Seq::empty();
    assert(ops =~= e.push(o0).push(o1).push(o2).push(o3).push(o1).push(o5));
    lemma_run_push(c, e, o0);
    lemma_run_push(c, e.push(o0), o1);
    lemma_run_push(c, e.push(o0).push(o1), o2);
    lemma_run_push(c, e.push(o0).push(o1).push(o2), o3);
    lemma_run_push(c, e.push(o0).push(o1).push(o2).push(o3), o1);
    lemma_run_push(c, e.push(o0).push(o1).push(o2).push(o3).push(o1), o5);
    assert(c.run(e) == c);
    let done = c.run(ops);
    assert(done.received =~= c.received + seq![Received { byte, data }]);
}

/// A command arrives as that command byte; the wait after it changes nothing.
pub proof fn lemma_command_arrives(c: Controller, lcd: LcdState, cmd: u8)
    requires
        c.at_rest(),
        c.address == lcd.address,
    ensures
        c.run(lcd.command_ops(cmd)) == c.having_received(seq![command(cmd)]),
{
    lemma_write_arrives(c, lcd, cmd, false);
    lemma_run_delay(c, lcd.write_ops(cmd, false), 1);
}

/// A character arrives as that character byte.
pub proof fn lemma_character_arrives(c: Controller, lcd: LcdState, byte: u8)
    requires
        c.at_rest(),
        c.address == lcd.address,
    ensures
        c.run(lcd.write_byte_ops(byte)) == c.having_received(seq![character(byte)]),
{
    lemma_write_arrives(c, lcd, byte, true);
    lemma_run_delay(c, lcd.write_ops(byte, true), 1);
}

/// Clearing arrives as the command 0x01, returning home as the command 0x02,
/// and sending the display-control register as 0x08 with the register's bits.
pub proof fn lemma_simple_commands_arrive(c: Controller, lcd: LcdState)
    requires
        c.at_rest(),
        c.address == lcd.address,
    ensures
        c.run(lcd.clear_ops()) == c.having_received(seq![command(0x01)]),
        c.run(lcd.home_ops()) == c.having_received(seq![command(0x02)]),
        c.run(lcd.display_control_ops()) == c.having_received(
            seq![command(DISPLAY_CONTROL | lcd.display_control)],
        ),
{
    lemma_command_arrives(c, lcd, CLEAR_DISPLAY);
    lemma_run_delay(c, lcd.command_ops(CLEAR_DISPLAY), 2);
    lemma_command_arrives(c, lcd, RETURN_HOME);
    lemma_run_delay(c, lcd.command_ops(RETURN_HOME), 2);
    lemma_command_arrives(c, lcd, DISPLAY_CONTROL | lcd.display_control);
}

/// Moving the cursor arrives as the one command 0x80 with the DDRAM address.
/// Where the display has the row, that address is the column plus the row's
/// offset, as long as the sum fits the address's seven bits.
pub proof fn lemma_set_cursor_arrives(c: Controller, lcd: LcdState, col: u8, row: u8)
    requires
        c.at_rest(),
        c.address == lcd.address,
    ensures
        c.run(lcd.set_cursor_ops(col, row)) == c.having_received(
            seq![command(SET_DDRAM_ADDR | lcd.ddram_address(col, row))],
        ),
        row < lcd.rows <= 4 ==> lcd.cursor_row(row) == row,
        lcd.rows <= 4 && row >= lcd.rows > 0 ==> lcd.cursor_row(row) == lcd.rows - 1,
        col + spec_row_offset(lcd.cursor_row(row)) < 0x80 ==> (SET_DDRAM_ADDR
            | lcd.ddram_address(col, row)) == 0x80 + col + spec_row_offset(
            lcd.cursor_row(row),
        ),
{
    lemma_command_arrives(c, lcd, SET_DDRAM_ADDR | lcd.ddram_address(col, row));
    let address = lcd.ddram_address(col, row);
    assert(address < 0x80 ==> (0x80u8 | address) == 0x80 + address) by (bit_vector);
}

/// The function-set byte is 0x2C for a one-line display with the large font
/// and 0x28 for every other geometry.
pub proof fn lemma_function_set_byte(lcd: LcdState)
    ensures
        lcd.rows == 1 && lcd.char_size != 0 ==> lcd.function_set_byte() == 0x2C,
        !(lcd.rows == 1 && lcd.char_size != 0) ==> lcd.function_set_byte() == 0x28,
{
    assert(0x28u8 | 0x08u8 == 0x28u8) by (bit_vector);
    assert(0x28u8 | 0x04u8 == 0x2Cu8) by (bit_vector);
    assert(0x28u8 | 0x00u8 == 0x28u8) by (bit_vector);
}

/// The start-up sequence arrives as exactly seven commands, in this order:
/// 0x33, 0x32, the function-set byte, display control with the display on
/// (0x0C), clear (0x01), entry mode left to right (0x06), home (0x02).
pub proof fn lemma_init_arrives(c: Controller, lcd: LcdState)
    requires
        c.at_rest(),
        c.address == lcd.address,
    ensures
        c.run(lcd.init_ops()) == c.having_received(
            seq![
                command(0x33),
                command(0x32),
                command(lcd.function_set_byte()),
                command(0x0C),
                command(0x01),
                command(0x06),
                command(0x02),
            ],
        ),
{
    assert(DISPLAY_CONTROL | DISPLAY_ON == 0x0C) by (bit_vector);
    assert(ENTRY_MODE_SET | ENTRY_LEFT == 0x06) by (bit_vector);
    let part0 = seq![BusOp::DelayMs { ms: 15 }];
    let part1 = lcd.write_ops(INITIALIZE_4BIT, false).push(BusOp::DelayMs { ms: 5 });
    let part2 = lcd.command_ops(SELECT_4BIT);
    let part3 = lcd.command_ops(lcd.function_set_byte());
    let part4 = lcd.command_ops(0x0C);
    let part5 = lcd.clear_ops();
    let part6 = lcd.command_ops(0x06);
    let part7 = lcd.home_ops();
    assert(lcd.init_ops() == part0 + part1 + part2 + part3 + part4 + part5 + part6 + part7);

    let c0 = c.run(part0);
    assert(c0 == c) by {
        lemma_run_delay(c, Seq::empty(), 15);
        assert(part0 =~= Seq::<BusOp>::empty().push(BusOp::DelayMs { ms: 15 }));
    }
    let c1 = c0.run(part1);
    lemma_write_arrives(c0, lcd, INITIALIZE_4BIT, false);
    lemma_run_delay(c0, lcd.write_ops(INITIALIZE_4BIT, false), 5);
    let c2 = c1.run(part2);
    lemma_command_arrives(c1, lcd, SELECT_4BIT);
    let c3 = c2.run(part3);
    lemma_command_arrives(c2, lcd, lcd.function_set_byte());
    let c4 = c3.run(part4);
    lemma_command_arrives(c3, lcd, 0x0C);
    let c5 = c4.run(part5);
    lemma_simple_commands_arrive(c4, lcd);
    let c6 = c5.run(part6);
    lemma_command_arrives(c5, lcd, 0x06);
    let c7 = c6.run(part7);
    lemma_simple_commands_arrive(c6, lcd);

    lemma_run_concat(c, part0, part1);
    lemma_run_concat(c, part0 + part1, part2);
    lemma_run_concat(c, part0 + part1 + part2, part3);
    lemma_run_concat(c, part0 + part1 + part2 + part3, part4);
    lemma_run_concat(c, part0 + part1 + part2 + part3 + part4, part5);
    lemma_run_concat(c, part0 + part1 + part2 + part3 + part4 + part5, part6);
    lemma_run_concat(c, part0 + part1 + part2 + part3 + part4 + part5 + part6, part7);
    assert(c.run(lcd.init_ops()) == c7);
    assert(c7.received =~= c.received + seq![
        command(0x33),
        command(0x32),
        command(lcd.function_set_byte()),
        command(0x0C),
        command(0x01),
        command(0x06),
        command(0x02),
    ]);
}

/// Writing bytes arrives as those bytes, each once, in order, as characters:
/// nothing is added, dropped or wrapped.
pub proof fn lemma_write_bytes_arrives(c: Controller, lcd: LcdState, data: Seq<u8>)
    requires
        c.at_rest(),
        c.address == lcd.address,
    ensures
        c.run(lcd.write_bytes_ops(data)) == c.having_received(characters(data)),
    decreases data.len(),
{
    if data.len() == 0 {
        assert(c.received + characters(data) =~= c.received);
    } else {
        let front = data.drop_last();
        lemma_write_bytes_arrives(c, lcd, front);
        let mid = c.run(lcd.write_bytes_ops(front));
        lemma_character_arrives(mid, lcd, data.last());
        lemma_run_concat(c, lcd.write_bytes_ops(front), lcd.write_byte_ops(data.last()));
        assert(c.received + characters(front) + seq![character(data.last())] =~= c.received
            + characters(data));
    }
}

/// Each byte written takes seven steps: two strobes of three steps and the
/// wait. The steps of the byte at index `i` are the seven from `7 * i` on.
pub proof fn lemma_write_bytes_layout(lcd: LcdState, data: Seq<u8>, i: int)
    requires
        0 <= i < data.len(),
    ensures
        lcd.write_byte_ops(data[i]).len() == 7,
        lcd.write_bytes_ops(data).len() == 7 * data.len(),
        lcd.write_bytes_ops(data).subrange(7 * i, 7 * i + 7) == lcd.write_byte_ops(data[i]),
    decreases data.len(),
{
    lemma_write_bytes_len(lcd, data);
    let front = data.drop_last();
    lemma_write_bytes_len(lcd, front);
    if i == data.len() - 1 {
        assert(lcd.write_bytes_ops(data).subrange(7 * i, 7 * i + 7) =~= lcd.write_byte_ops(
            data[i],
        ));
    } else {
        lemma_write_bytes_layout(lcd, front, i);
        assert(lcd.write_bytes_ops(data).subrange(7 * i, 7 * i + 7)
            =~= lcd.write_bytes_ops(front).subrange(7 * i, 7 * i + 7));
    }
}

/// Seven steps per byte written.
pub proof fn lemma_write_bytes_len(lcd: LcdState, data: Seq<u8>)
    ensures
        lcd.write_bytes_ops(data).len() == 7 * data.len(),
    decreases data.len(),
{
    if data.len() > 0 {
        lemma_write_bytes_len(lcd, data.drop_last());
    }
}

/// After start-up the shadow registers hold what was sent: the function-set,
/// display-control and entry-mode commands of the sequence are the command
/// codes with the registers' bits.
pub proof fn lemma_init_sends_shadow(lcd: LcdState)
    ensures
        lcd.function_set_byte() == FUNCTION_SET | lcd.init().display_function,
        0x0C == DISPLAY_CONTROL | lcd.init().display_control,
        0x06 == ENTRY_MODE_SET | lcd.init().display_mode,
        lcd.init().init() == lcd.init(),
        lcd.init().init_ops() == lcd.init_ops(),
{
    assert(DISPLAY_CONTROL | DISPLAY_ON == 0x0C) by (bit_vector);
    assert(ENTRY_MODE_SET | ENTRY_LEFT == 0x06) by (bit_vector);
}

/// Switching the display on and off changes the one bit of the register:
/// on sets it, off clears it, the other bits stay, and doing either twice is
/// doing it once.
pub proof fn lemma_display_bit(lcd: LcdState)
    ensures
        lcd.display_on().display_control & DISPLAY_ON == DISPLAY_ON,
        lcd.display_off().display_control & DISPLAY_ON == 0,
        lcd.display_on().display_control & !DISPLAY_ON == lcd.display_control & !DISPLAY_ON,
        lcd.display_off().display_control & !DISPLAY_ON == lcd.display_control & !DISPLAY_ON,
        lcd.display_on().display_on() == lcd.display_on(),
        lcd.display_off().display_off() == lcd.display_off(),
        lcd.display_off().display_on() == lcd.display_on(),
        lcd.display_on().display_off() == lcd.display_off(),
{
    let r = lcd.display_control;
    assert({
        &&& (r | 0x04) & 0x04 == 0x04
        &&& (r & !0x04u8) & 0x04 == 0
        &&& (r | 0x04) & !0x04u8 == r & !0x04u8
        &&& (r & !0x04u8) & !0x04u8 == r & !0x04u8
        &&& (r | 0x04) | 0x04 == r | 0x04
        &&& (r & !0x04u8) | 0x04 == r | 0x04
    }) by (bit_vector);
}

/// The pins of an expander byte, one by one, for a nibble that stands in the
/// upper half: bits 7..4 carry the nibble, bit 3 the backlight flag, bit 2
/// (Enable) is low, bit 1 (Read/Write) is low, bit 0 is high for character
/// data. Raising Enable changes bit 2 alone.
pub proof fn lemma_expander_byte_pins(lcd: LcdState, nibble: u8, data: bool)
    requires
        nibble & 0x0F == 0,
    ensures
        ({
            let byte = lcd.expander_byte(nibble, data);
            &&& byte & 0xF0 == nibble
            &&& (byte & BACKLIGHT != 0) == lcd.backlight
            &&& byte & ENABLE == 0
            &&& byte & 0x02 == 0
            &&& (byte & REGISTER_SELECT != 0) == data
            &&& (byte | ENABLE) & ENABLE == ENABLE
            &&& (byte | ENABLE) & !ENABLE == byte
        }),
{
    let rs: u8 = if data { 1u8 } else { 0u8 };
    let light: u8 = if lcd.backlight { 8u8 } else { 0u8 };
    assert({
        let byte = nibble | rs | light;
        &&& byte & 0xF0 == nibble
        &&& byte & 0x08 == light
        &&& byte & 0x04 == 0
        &&& byte & 0x02 == 0
        &&& byte & 0x01 == rs
        &&& (byte | 0x04) & 0x04 == 0x04
        &&& (byte | 0x04) & !0x04u8 == byte
    }) by (bit_vector)
        requires
            nibble & 0x0F == 0,
            rs == 0 || rs == 1,
            light == 0 || light == 8,
    ;
}

/// Both nibbles of a byte stand in the upper half of what is presented, and
/// together they are the byte.
pub proof fn lemma_nibble_split(byte: u8)
    ensures
        (byte & 0xF0) & 0x0F == 0,
        ((byte & 0x0F) << 4) & 0x0F == 0,
        (byte & 0xF0) | (((byte & 0x0F) << 4) >> 4) == byte,
{
    assert({
        &&& (byte & 0xF0) & 0x0F == 0
        &&& ((byte & 0x0F) << 4) & 0x0F == 0
        &&& (byte & 0xF0) | (((byte & 0x0F) << 4) >> 4) == byte
    }) by (bit_vector);
}

/// Every write of `ops` goes to the driver's address, keeps Read/Write low
/// and carries the driver's backlight flag.
pub open spec fn well_addressed(lcd: LcdState, ops: Seq<BusOp>) -> bool {
    forall|i: int|
        0 <= i < ops.len() ==> match #[trigger] ops[i] {
            BusOp::Write { address, byte } => {
                &&& address == lcd.address
                &&& byte & 0x02 == 0
                &&& (byte & BACKLIGHT != 0) == lcd.backlight
            },
            BusOp::DelayMs { ms } => true,
        }
}

/// Lists that are well addressed stay so when put together.
pub proof fn lemma_well_addressed_concat(lcd: LcdState, first: Seq<BusOp>, second: Seq<BusOp>)
    requires
        well_addressed(lcd, first),
        well_addressed(lcd, second),
    ensures
        well_addressed(lcd, first + second),
{
    assert forall|i: int| 0 <= i < (first + second).len() implies match #[trigger] (first
        + second)[i] {
        BusOp::Write { address, byte } => {
            &&& address == lcd.address
            &&& byte & 0x02 == 0
            &&& (byte & BACKLIGHT != 0) == lcd.backlight
        },
        BusOp::DelayMs { ms } => true,
    } by {
        if i < first.len() {
            assert((first + second)[i] == first[i]);
        } else {
            assert((first + second)[i] == second[i - first.len()]);
        }
    }
}

/// The backlight flag travels on every byte: whatever the driver writes, for
/// a byte, a command or a character, goes to its address with Read/Write low
/// and with bit 3 as the flag says.
pub proof fn lemma_write_well_addressed(lcd: LcdState, byte: u8, data: bool)
    ensures
        well_addressed(lcd, lcd.write_ops(byte, data)),
        well_addressed(lcd, lcd.command_ops(byte)),
        well_addressed(lcd, lcd.write_byte_ops(byte)),
{
    lemma_nibble_split(byte);
    lemma_expander_byte_pins(lcd, byte & 0xF0, data);
    lemma_expander_byte_pins(lcd, (byte & 0x0F) << 4, data);
    lemma_expander_byte_pins(lcd, byte & 0xF0, false);
    lemma_expander_byte_pins(lcd, (byte & 0x0F) << 4, false);
    lemma_expander_byte_pins(lcd, byte & 0xF0, true);
    lemma_expander_byte_pins(lcd, (byte & 0x0F) << 4, true);
    let b1 = lcd.expander_byte(byte & 0xF0, data);
    let b2 = lcd.expander_byte((byte & 0x0F) << 4, data);
    let c1 = lcd.expander_byte(byte & 0xF0, false);
    let c2 = lcd.expander_byte((byte & 0x0F) << 4, false);
    let d1 = lcd.expander_byte(byte & 0xF0, true);
    let d2 = lcd.expander_byte((byte & 0x0F) << 4, true);
    lemma_enable_keeps_other_pins(b1);
    lemma_enable_keeps_other_pins(b2);
    lemma_enable_keeps_other_pins(c1);
    lemma_enable_keeps_other_pins(c2);
    lemma_enable_keeps_other_pins(d1);
    lemma_enable_keeps_other_pins(d2);
}

proof fn lemma_enable_keeps_other_pins(byte: u8)
    ensures
        (byte | ENABLE) & 0x02 == byte & 0x02,
        (byte | ENABLE) & BACKLIGHT == byte & BACKLIGHT,
{
    assert((byte | 0x04) & 0x02 == byte & 0x02 && (byte | 0x04) & 0x08 == byte & 0x08)
        by (bit_vector);
}

/// The same holds of the start-up sequence and of the other command lists.
pub proof fn lemma_sequences_well_addressed(lcd: LcdState, col: u8, row: u8)
    ensures
        well_addressed(lcd, lcd.init_ops()),
        well_addressed(lcd, lcd.clear_ops()),
        well_addressed(lcd, lcd.home_ops()),
        well_addressed(lcd, lcd.display_control_ops()),
        well_addressed(lcd, lcd.set_cursor_ops(col, row)),
{
    lemma_write_well_addressed(lcd, INITIALIZE_4BIT, false);
    lemma_write_well_addressed(lcd, SELECT_4BIT, false);
    lemma_write_well_addressed(lcd, lcd.function_set_byte(), false);
    lemma_write_well_addressed(lcd, DISPLAY_CONTROL | DISPLAY_ON, false);
    lemma_write_well_addressed(lcd, CLEAR_DISPLAY, false);
    lemma_write_well_addressed(lcd, ENTRY_MODE_SET | ENTRY_LEFT, false);
    lemma_write_well_addressed(lcd, RETURN_HOME, false);
    lemma_write_well_addressed(lcd, DISPLAY_CONTROL | lcd.display_control, false);
    lemma_write_well_addressed(lcd, SET_DDRAM_ADDR | lcd.ddram_address(col, row), false);
    let part0 = seq![BusOp::DelayMs { ms: 15 }];
    let part1 = lcd.write_ops(INITIALIZE_4BIT, false).push(BusOp::DelayMs { ms: 5 });
    let part2 = lcd.command_ops(SELECT_4BIT);
    let part3 = lcd.command_ops(lcd.function_set_byte());
    let part4 = lcd.command_ops(DISPLAY_CONTROL | DISPLAY_ON);
    let part5 = lcd.clear_ops();
    let part6 = lcd.command_ops(ENTRY_MODE_SET | ENTRY_LEFT);
    let part7 = lcd.home_ops();
    assert(well_addressed(lcd, part0));
    assert(well_addressed(lcd, part1));
    assert(well_addressed(lcd, part5));
    assert(well_addressed(lcd, part7));
    lemma_well_addressed_concat(lcd, part0, part1);
    lemma_well_addressed_concat(lcd, part0 + part1, part2);
    lemma_well_addressed_concat(lcd, part0 + part1 + part2, part3);
    lemma_well_addressed_concat(lcd, part0 + part1 + part2 + part3, part4);
    lemma_well_addressed_concat(lcd, part0 + part1 + part2 + part3 + part4, part5);
    lemma_well_addressed_concat(lcd, part0 + part1 + part2 + part3 + part4 + part5, part6);
    lemma_well_addressed_concat(lcd, part0 + part1 + part2 + part3 + part4 + part5 + part6, part7);
}

/// And of any run of characters.
pub proof fn lemma_write_bytes_well_addressed(lcd: LcdState, data: Seq<u8>)
    ensures
        well_addressed(lcd, lcd.write_bytes_ops(data)),
    decreases data.len(),
{
    if data.len() > 0 {
        lemma_write_bytes_well_addressed(lcd, data.drop_last());
        lemma_write_well_addressed(lcd, data.last(), true);
        lemma_well_addressed_concat(
            lcd,
            lcd.write_bytes_ops(data.drop_last()),
            lcd.write_byte_ops(data.last()),
        );
    }
}

} // verus!
