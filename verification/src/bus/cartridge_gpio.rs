use vstd::prelude::*;

use chrono::{Datelike, Timelike};

use super::cartridge_save::{contains, contains_signature};

verus! {

/// GPIO registers, as offsets into the ROM address space.
pub const GPIO_DATA_OFFSET: u32 = 0x0000_00C4;
pub const GPIO_DIRECTION_OFFSET: u32 = 0x0000_00C6;
pub const GPIO_CONTROL_OFFSET: u32 = 0x0000_00C8;

/// The RTC's serial clock, data and chip-select pins.
pub const RTC_SCK: u8 = 1;
pub const RTC_SIO: u8 = 2;
pub const RTC_CS: u8 = 4;

/// A calendar date and time of day as the RTC reports it.
#[derive(Debug, Clone, Copy, PartialEq, Eq, Structural)]
pub struct RtcDateTime {
    pub year: u16,
    pub month: u8,
    pub day: u8,
    pub weekday: u8,
    pub hour: u8,
    pub minute: u8,
    pub second: u8,
}

impl RtcDateTime {
    /// Each field in its calendar range (weekday 0 = Sunday).
    pub open spec fn in_range(self) -> bool {
        &&& 1 <= self.month <= 12
        &&& 1 <= self.day <= 31
        &&& self.weekday <= 6
        &&& self.hour <= 23
        &&& self.minute <= 59
        &&& self.second <= 59
    }

    /// The host's local date and time, read with `chrono::Local::now`.
    /// chrono documents month 1-12, day 1-31, a weekday counted from Sunday
    /// 0-6, hour 0-23, minute and second 0-59; the year is kept modulo 2^16.
    /// Nothing more is claimed: the value depends on the clock. chrono
    /// panics when the host's clock is set before 1970 or its time-zone
    /// data is unusable; that depends on the host, not on any argument, so
    /// no precondition can rule it out.
    #[verifier::external_body]
    fn local_now() -> (r: RtcDateTime)
        ensures
            r.in_range(),
    {
        let now = chrono::Local::now();
        RtcDateTime {
            year: now.year() as u16,
            month: now.month() as u8,
            day: now.day() as u8,
            weekday: now.weekday().num_days_from_sunday() as u8,
            hour: now.hour() as u8,
            minute: now.minute() as u8,
            second: now.second() as u8,
        }
    }
}

/// Where the RTC takes its time from.
#[derive(Debug, Clone, Copy, PartialEq, Eq, Structural)]
pub enum RtcClock {
    HostLocal,
    Fixed(RtcDateTime),
}

/// `now` is a possible reading of `clock`.
pub open spec fn clock_reading(clock: RtcClock, now: RtcDateTime) -> bool {
    match clock {
        RtcClock::HostLocal => now.in_range(),
        RtcClock::Fixed(value) => now == value,
    }
}

/// A reading of `clock`.
pub open spec fn some_reading(clock: RtcClock) -> RtcDateTime {
    match clock {
        RtcClock::HostLocal => RtcDateTime {
            year: 2000,
            month: 1,
            day: 1,
            weekday: 6,
            hour: 0,
            minute: 0,
            second: 0,
        },
        RtcClock::Fixed(value) => value,
    }
}

pub proof fn lemma_clock_has_reading(clock: RtcClock)
    ensures
        clock_reading(clock, some_reading(clock)),
{
}

impl RtcClock {
    pub fn now(self) -> (r: RtcDateTime)
        ensures
            clock_reading(self, r),
    {
        match self {
            RtcClock::HostLocal => RtcDateTime::local_now(),
            RtcClock::Fixed(value) => value,
        }
    }
}

/// The bits of a byte in reverse order.
pub open spec fn reversed_bits(v: u8) -> u8 {
    ((v & 1) << 7u8) | ((v & 2) << 5u8) | ((v & 4) << 3u8) | ((v & 8) << 1u8) | ((v & 16) >> 1u8)
        | ((v & 32) >> 3u8) | ((v & 64) >> 5u8) | ((v & 128) >> 7u8)
}

fn reverse_bits(v: u8) -> (r: u8)
    ensures
        r == reversed_bits(v),
{
    ((v & 1) << 7u8) | ((v & 2) << 5u8) | ((v & 4) << 3u8) | ((v & 8) << 1u8) | ((v & 16) >> 1u8)
        | ((v & 32) >> 3u8) | ((v & 64) >> 5u8) | ((v & 128) >> 7u8)
}

/// An S-3511 command byte: 0110, register (3 bits), read flag.
#[derive(Debug, Clone, Copy, PartialEq, Eq, Structural)]
pub struct RtcCommand(pub u8);

/// The command a serial byte carries, if any. Commands arrive most
/// significant bit first and the accumulator records arrival order, so
/// the byte is reversed before decoding.
pub open spec fn decoded_command(serialized: u8) -> Option<RtcCommand> {
    let value = reversed_bits(serialized);
    if value >> 4u8 == 6 {
        Some(RtcCommand(value))
    } else {
        None
    }
}

impl RtcCommand {
    pub open spec fn spec_register(self) -> int {
        ((self.0 >> 1u8) & 7) as int
    }

    pub open spec fn spec_reading(self) -> bool {
        self.0 & 1 != 0
    }

    pub fn decode(serialized: u8) -> (r: Option<Self>)
        ensures
            r == decoded_command(serialized),
    {
        let value = reverse_bits(serialized);
        if value >> 4u8 == 6 {
            Some(RtcCommand(value))
        } else {
            None
        }
    }

    pub fn register(self) -> (r: usize)
        ensures
            r == self.spec_register(),
            r < 8,
    {
        proof {
            crate::bits::lemma_u32_fields();
            crate::bits::lemma_u8_fields(self.0);
        }
        ((self.0 >> 1u8) & 7) as usize
    }

    pub fn reading(self) -> (r: bool)
        ensures
            r == self.spec_reading(),
    {
        self.0 & 1 != 0
    }
}

/// Payload bytes of each register: reset, status, date and time, time,
/// alarm, and three unused.
pub open spec fn command_bytes(register: int) -> u8 {
    if register == 1 {
        1
    } else if register == 2 {
        7
    } else if register == 3 {
        3
    } else if register == 4 {
        2
    } else {
        0
    }
}

fn command_byte_count(register: usize) -> (r: u8)
    ensures
        r == command_bytes(register as int),
{
    if register == 1 {
        1
    } else if register == 2 {
        7
    } else if register == 3 {
        3
    } else if register == 4 {
        2
    } else {
        0
    }
}

/// Binary-coded decimal of a value below 100.
pub open spec fn bcd(value: u8) -> u8 {
    (((value / 10) << 4u8) | (value % 10)) as u8
}

pub fn to_bcd(value: u8) -> (r: u8)
    ensures
        r == bcd(value),
{
    ((value / 10) << 4u8) | (value % 10)
}

/// The hour register: 24-hour BCD when control bit 6 is set, else a
/// 12-hour BCD value (midnight and noon as 12) with bit 7 marking PM.
pub open spec fn bcd_hour(control: u8, hour: u8) -> u8 {
    if control & 0x40 != 0 {
        bcd(hour)
    } else {
        let hour12: u8 = if hour % 12 == 0 {
            12
        } else {
            hour % 12
        };
        bcd(hour12) | if hour >= 12 {
            0x80u8
        } else {
            0u8
        }
    }
}

/// The seven date/time registers sampled from `now`.
pub open spec fn sampled_time(control: u8, now: RtcDateTime) -> Seq<u8> {
    seq![
        bcd((now.year % 100) as u8),
        bcd(now.month),
        bcd(now.day),
        bcd(now.weekday),
        bcd_hour(control, now.hour),
        bcd(now.minute),
        bcd(now.second),
    ]
}

/// The mathematical state of the RTC's serial interface and registers.
pub struct RtcState {
    pub control: u8,
    pub transfer_step: u8,
    pub bits: u8,
    pub bits_read: u8,
    pub command: Option<RtcCommand>,
    pub bytes_remaining: u8,
    pub time: Seq<u8>,
}

/// The Seiko S-3511 real-time clock behind the cartridge GPIO port.
#[derive(Debug, Clone)]
pub struct Rtc {
    pub clock: RtcClock,
    pub control: u8,
    pub transfer_step: u8,
    pub bits: u8,
    pub bits_read: u8,
    pub command: Option<RtcCommand>,
    pub bytes_remaining: u8,
    pub time: [u8; 7],
}

pub open spec fn saturating_decrement(v: u8) -> u8 {
    if v == 0 {
        0
    } else {
        (v - 1) as u8
    }
}

/// The serial interface forgets any partial transfer.
pub open spec fn protocol_reset(s: RtcState) -> RtcState {
    RtcState { transfer_step: 0, bits: 0, bits_read: 0, command: None, bytes_remaining: 0, ..s }
}

/// A complete byte arrived: payload for the current command, or a new
/// command (reset clears control; date and time commands sample the
/// clock).
pub open spec fn after_byte(s: RtcState, now: RtcDateTime) -> RtcState {
    let s1 = match s.command {
        Some(c) => RtcState {
            control: if c.spec_register() == 1 {
                s.bits
            } else {
                s.control
            },
            bytes_remaining: saturating_decrement(s.bytes_remaining),
            ..s
        },
        None => match decoded_command(s.bits) {
            Some(c) => {
                let register = c.spec_register();
                let count = command_bytes(register);
                RtcState {
                    bytes_remaining: count,
                    control: if register == 0 {
                        0
                    } else {
                        s.control
                    },
                    time: if register == 2 || register == 3 {
                        sampled_time(s.control, now)
                    } else {
                        s.time
                    },
                    command: if count != 0 {
                        Some(c)
                    } else {
                        s.command
                    },
                    ..s
                }
            },
            None => s,
        },
    };
    let s2 = RtcState { bits: 0, bits_read: 0, ..s1 };
    if s2.bytes_remaining == 0 {
        RtcState { command: None, ..s2 }
    } else {
        s2
    }
}

/// The bit the RTC drives on SIO for a read command.
pub open spec fn output_bit(s: RtcState) -> u8 {
    match s.command {
        None => 0,
        Some(c) => {
            let register = c.spec_register();
            let byte: u8 = if register == 1 {
                s.control
            } else if register == 2 || register == 3 {
                s.time[7 - s.bytes_remaining]
            } else if register == 4 {
                0xFF
            } else {
                0
            };
            (byte >> s.bits_read) & 1
        },
    }
}

/// Input pins take `value` where the direction register leaves them to
/// the device.
pub open spec fn driven(pins: u8, direction: u8, value: u8) -> u8 {
    (pins & direction) | (value & !direction & 0x0F)
}

/// The RTC and the pins after the CPU set the pins: chip select with the
/// clock high starts a transfer; in a transfer a falling clock latches
/// SIO, a rising clock shifts a bit out (reads) or in (commands and
/// writes), and dropping chip select ends it.
pub open spec fn observed(s: RtcState, pins: u8, direction: u8, now: RtcDateTime) -> (RtcState, u8) {
    if s.transfer_step == 0 {
        if pins & (RTC_SCK | RTC_CS) == RTC_SCK {
            (RtcState { transfer_step: 1, ..s }, pins)
        } else {
            (s, pins)
        }
    } else if s.transfer_step == 1 {
        if pins & (RTC_SCK | RTC_CS) == RTC_SCK | RTC_CS {
            (RtcState { transfer_step: 2, ..s }, pins)
        } else if pins & (RTC_SCK | RTC_CS) != RTC_SCK {
            (RtcState { transfer_step: 0, ..s }, pins)
        } else {
            (s, pins)
        }
    } else if pins & RTC_SCK == 0 {
        let bit: u8 = 1u8 << s.bits_read;
        (
            RtcState {
                bits: (s.bits & !bit) | (((pins & RTC_SIO) >> 1u8) << s.bits_read),
                ..s
            },
            pins,
        )
    } else if pins & RTC_CS != 0 {
        if s.command matches Some(c) && c.spec_reading() {
            let pins2 = driven(pins, direction, RTC_SCK | RTC_CS | (output_bit(s) << 1u8));
            let read = (s.bits_read + 1) as u8;
            if read == 8 {
                let remaining = saturating_decrement(s.bytes_remaining);
                (
                    RtcState {
                        bits_read: 0,
                        bytes_remaining: remaining,
                        command: if remaining == 0 {
                            None
                        } else {
                            s.command
                        },
                        ..s
                    },
                    pins2,
                )
            } else {
                (RtcState { bits_read: read, ..s }, pins2)
            }
        } else {
            let read = (s.bits_read + 1) as u8;
            if read == 8 {
                (after_byte(RtcState { bits_read: read, ..s }, now), pins)
            } else {
                (RtcState { bits_read: read, ..s }, pins)
            }
        }
    } else {
        (
            RtcState {
                transfer_step: if pins & RTC_SCK != 0 {
                    1
                } else {
                    0
                },
                ..protocol_reset(s)
            },
            driven(pins, direction, RTC_SCK),
        )
    }
}

impl RtcState {
    /// A transfer step is 0, 1 or 2; fewer than eight bits are pending;
    /// an active command has between one and seven bytes to go.
    pub open spec fn wf(self) -> bool {
        &&& self.transfer_step <= 2
        &&& self.bits_read < 8
        &&& self.time.len() == 7
        &&& self.command is Some ==> 1 <= self.bytes_remaining <= 7
    }
}

impl Rtc {
    pub open spec fn state(&self) -> RtcState {
        RtcState {
            control: self.control,
            transfer_step: self.transfer_step,
            bits: self.bits,
            bits_read: self.bits_read,
            command: self.command,
            bytes_remaining: self.bytes_remaining,
            time: self.time@,
        }
    }

    pub open spec fn wf(&self) -> bool {
        self.state().wf()
    }

    pub fn new() -> (r: Self)
        ensures
            r.wf(),
            r.clock == RtcClock::HostLocal,
            r.state() == (RtcState {
                control: 0x40,
                transfer_step: 0,
                bits: 0,
                bits_read: 0,
                command: None,
                bytes_remaining: 0,
                time: seq![0u8, 0, 0, 0, 0, 0, 0],
            }),
    {
        let r = Rtc {
            clock: RtcClock::HostLocal,
            control: 0x40,
            transfer_step: 0,
            bits: 0,
            bits_read: 0,
            command: None,
            bytes_remaining: 0,
            time: [0; 7],
        };
        proof {
            assert(r.time@ =~= seq![0u8, 0, 0, 0, 0, 0, 0]);
        }
        r
    }

    pub fn reset_protocol(&mut self)
        requires
            old(self).wf(),
        ensures
            final(self).wf(),
            final(self).clock == old(self).clock,
            final(self).state() == protocol_reset(old(self).state()),
    {
        self.transfer_step = 0;
        self.bits = 0;
        self.bits_read = 0;
        self.command = None;
        self.bytes_remaining = 0;
    }

    pub fn observe_pins(&mut self, pin_state: &mut u8, direction: u8)
        requires
            old(self).wf(),
        ensures
            final(self).wf(),
            final(self).clock == old(self).clock,
            exists|now: RtcDateTime|
                #[trigger] clock_reading(old(self).clock, now) && (final(self).state(), *final(pin_state))
                    == observed(old(self).state(), *old(pin_state), direction, now),
    {
        proof {
            lemma_clock_has_reading(self.clock);
        }
        let pins = *pin_state;
        if self.transfer_step == 0 {
            if pins & (RTC_SCK | RTC_CS) == RTC_SCK {
                self.transfer_step = 1;
            }
        } else if self.transfer_step == 1 {
            if pins & (RTC_SCK | RTC_CS) == RTC_SCK | RTC_CS {
                self.transfer_step = 2;
            } else if pins & (RTC_SCK | RTC_CS) != RTC_SCK {
                self.transfer_step = 0;
            }
        } else if pins & RTC_SCK == 0 {
            let bit: u8 = 1u8 << self.bits_read;
            self.bits = (self.bits & !bit) | (((pins & RTC_SIO) >> 1u8) << self.bits_read);
        } else if pins & RTC_CS != 0 {
            let reading = match self.command {
                Some(c) => c.reading(),
                None => false,
            };
            if reading {
                let output = self.output_bit() << 1u8;
                drive_input_pins(pin_state, direction, RTC_SCK | RTC_CS | output);
                self.bits_read = self.bits_read + 1;
                if self.bits_read == 8 {
                    self.bytes_remaining = self.bytes_remaining.saturating_sub(1);
                    self.bits_read = 0;
                    if self.bytes_remaining == 0 {
                        self.command = None;
                    }
                }
            } else {
                self.bits_read = self.bits_read + 1;
                if self.bits_read == 8 {
                    self.process_byte();
                }
            }
        } else {
            self.reset_protocol();
            self.transfer_step = if pins & RTC_SCK != 0 {
                1
            } else {
                0
            };
            drive_input_pins(pin_state, direction, RTC_SCK);
        }
    }

    fn process_byte(&mut self)
        requires
            old(self).state().transfer_step <= 2,
            old(self).state().time.len() == 7,
            old(self).command is Some ==> 1 <= old(self).bytes_remaining <= 7,
        ensures
            final(self).wf(),
            final(self).clock == old(self).clock,
            exists|now: RtcDateTime|
                #[trigger] clock_reading(old(self).clock, now) && final(self).state() == after_byte(
                    old(self).state(),
                    now,
                ),
    {
        proof {
            lemma_clock_has_reading(self.clock);
        }
        match self.command {
            Some(command) => {
                if command.register() == 1 {
                    self.control = self.bits;
                }
                self.bytes_remaining = self.bytes_remaining.saturating_sub(1);
            },
            None => {
                match RtcCommand::decode(self.bits) {
                    Some(command) => {
                        let register = command.register();
                        self.bytes_remaining = command_byte_count(register);
                        if register == 0 {
                            self.control = 0;
                        } else if register == 2 || register == 3 {
                            self.sample_clock();
                        }
                        if self.bytes_remaining != 0 {
                            self.command = Some(command);
                        }
                    },
                    None => {},
                }
            },
        }
        self.bits = 0;
        self.bits_read = 0;
        if self.bytes_remaining == 0 {
            self.command = None;
        }
    }

    fn output_bit(&self) -> (r: u8)
        requires
            self.wf(),
        ensures
            r == output_bit(self.state()),
    {
        match self.command {
            None => 0,
            Some(command) => {
                let register = command.register();
                let byte: u8 = if register == 1 {
                    self.control
                } else if register == 2 || register == 3 {
                    self.time[7 - self.bytes_remaining as usize]
                } else if register == 4 {
                    0xFF
                } else {
                    0
                };
                (byte >> self.bits_read) & 1
            },
        }
    }

    /// Latches the date and time registers from the clock.
    pub fn sample_clock(&mut self)
        ensures
            final(self).clock == old(self).clock,
            exists|now: RtcDateTime|
                #[trigger] clock_reading(old(self).clock, now) && final(self).state() == (RtcState {
                    time: sampled_time(old(self).control, now),
                    ..old(self).state()
                }),
    {
        let now = self.clock.now();
        let hour = if self.control & 0x40 != 0 {
            to_bcd(now.hour)
        } else {
            let hour12: u8 = if now.hour % 12 == 0 {
                12
            } else {
                now.hour % 12
            };
            to_bcd(hour12) | if now.hour >= 12 {
                0x80u8
            } else {
                0u8
            }
        };
        self.time = [
            to_bcd((now.year % 100) as u8),
            to_bcd(now.month),
            to_bcd(now.day),
            to_bcd(now.weekday),
            hour,
            to_bcd(now.minute),
            to_bcd(now.second),
        ];
        proof {
            assert(self.time@ =~= sampled_time(old(self).control, now));
            assert(self.state() == (RtcState {
                time: sampled_time(old(self).control, now),
                ..old(self).state()
            }));
        }
    }
}

fn drive_input_pins(pin_state: &mut u8, direction: u8, value: u8)
    ensures
        *final(pin_state) == driven(*old(pin_state), direction, value),
{
    *pin_state = (*pin_state & direction) | (value & !direction & 0x0F);
}

/// The cartridge's general-purpose I/O port and the device behind it.
#[derive(Debug, Clone)]
pub struct GamePakGpio {
    pub pin_state: u8,
    pub direction: u8,
    pub read_enabled: bool,
    pub rtc: Option<Rtc>,
}

/// The ROM names the Seiko RTC ("SIIRTC_V").
pub open spec fn rtc_signature() -> Seq<u8> {
    seq![0x53u8, 0x49, 0x49, 0x52, 0x54, 0x43, 0x5F, 0x56]
}

/// The port after a halfword write and whether a register took it.
pub open spec fn gpio_written(before: GamePakGpio, after: GamePakGpio, physical_offset: u32, value: u16, r: bool) -> bool {
    &&& r == (before.spec_has_device() && (physical_offset == 0xC4 || physical_offset == 0xC6
        || physical_offset == 0xC8))
    &&& !r ==> after.pin_state == before.pin_state && after.direction == before.direction && after.read_enabled == before.read_enabled && after.rtc
        == before.rtc
    &&& r && physical_offset == 0xC6 ==> after.direction == (value as u8) & 0x0F
        && after.pin_state == before.pin_state && after.read_enabled == before.read_enabled && after.rtc == before.rtc
    &&& r && physical_offset == 0xC8 ==> after.read_enabled == (value & 1 != 0)
        && after.pin_state == before.pin_state && after.direction == before.direction && after.rtc == before.rtc
    &&& r && physical_offset == 0xC4 ==> {
        let pins = (before.pin_state & !before.direction) | ((value as u8)
            & before.direction & 0x0F);
        &&& after.direction == before.direction
        &&& after.read_enabled == before.read_enabled
        &&& (before.rtc matches Some(rtc_before) ==> (after.rtc matches Some(rtc_after)
            && rtc_after.clock == rtc_before.clock && exists|now: RtcDateTime|
            #[trigger] clock_reading(rtc_before.clock, now) && (rtc_after.state(), after.pin_state)
            == observed(rtc_before.state(), pins, before.direction, now)))
    }
}

/// Driving the four pins keeps them within four bits, and so does the
/// CPU's write of the data register.
proof fn lemma_pins_stay_low(pins: u8, direction: u8, value: u8)
    by (bit_vector)
    requires
        pins <= 0x0F,
    ensures
        (pins & direction) | (value & !direction & 0x0F) <= 0x0F,
        (pins & !direction) | (value & direction & 0x0F) <= 0x0F,
        value & 0x0F <= 0x0F,
{
}

/// The RTC hands back pins within four bits when given such pins.
proof fn lemma_observed_pins(s: RtcState, pins: u8, direction: u8, now: RtcDateTime)
    requires
        pins <= 0x0F,
    ensures
        observed(s, pins, direction, now).1 <= 0x0F,
{
    lemma_pins_stay_low(pins, direction, RTC_SCK | RTC_CS | (output_bit(s) << 1u8));
    lemma_pins_stay_low(pins, direction, RTC_SCK);
}

impl GamePakGpio {
    /// The RTC is well formed, and the pin and direction registers hold
    /// four bits.
    pub open spec fn wf(&self) -> bool {
        &&& self.rtc matches Some(rtc) ==> rtc.wf()
        &&& self.pin_state <= 0x0F
        &&& self.direction <= 0x0F
    }

    pub open spec fn spec_has_device(&self) -> bool {
        self.rtc is Some
    }

    /// A cartridge naming the Seiko RTC gets one; the port starts idle.
    pub fn from_rom(rom: &[u8]) -> (r: Self)
        ensures
            r.wf(),
            r.spec_has_device() == contains(rom@, rtc_signature()),
            r.pin_state == 0,
            r.direction == 0,
            !r.read_enabled,
            r.rtc matches Some(rtc) ==> rtc.clock == RtcClock::HostLocal && rtc.state().control == 0x40
                && rtc.state().transfer_step == 0 && rtc.state().command is None,
    {
        let signature: [u8; 8] = [0x53, 0x49, 0x49, 0x52, 0x54, 0x43, 0x5F, 0x56];
        proof {
            assert(signature@ =~= rtc_signature());
        }
        let rtc = if contains_signature(rom, &signature) {
            Some(Rtc::new())
        } else {
            None
        };
        GamePakGpio { pin_state: 0, direction: 0, read_enabled: false, rtc }
    }

    pub fn has_device(&self) -> (r: bool)
        ensures
            r == self.spec_has_device(),
    {
        self.rtc.is_some()
    }

    pub fn reset_protocol(&mut self)
        requires
            old(self).wf(),
        ensures
            final(self).wf(),
            final(self).pin_state == 0,
            final(self).direction == 0,
            !final(self).read_enabled,
            final(self).rtc is Some == old(self).rtc is Some,
            old(self).rtc matches Some(before) ==> (final(self).rtc matches Some(after)
                && after.clock == before.clock && after.state() == protocol_reset(before.state())),
    {
        self.pin_state = 0;
        self.direction = 0;
        self.read_enabled = false;
        match &mut self.rtc {
            Some(rtc) => rtc.reset_protocol(),
            None => {},
        }
    }

    pub open spec fn spec_read16(&self, physical_offset: u32) -> Option<u16> {
        if !self.spec_has_device() || !self.read_enabled {
            None
        } else if physical_offset == 0xC4 {
            Some(self.pin_state as u16)
        } else if physical_offset == 0xC6 {
            Some(self.direction as u16)
        } else if physical_offset == 0xC8 {
            Some(if self.read_enabled {
                1u16
            } else {
                0u16
            })
        } else {
            None
        }
    }

    /// The port reads back only with a device present and reading enabled.
    pub fn read16(&self, physical_offset: u32) -> (r: Option<u16>)
        ensures
            r == self.spec_read16(physical_offset),
            r == if !self.spec_has_device() || !self.read_enabled {
                None
            } else if physical_offset == 0xC4 {
                Some(self.pin_state as u16)
            } else if physical_offset == 0xC6 {
                Some(self.direction as u16)
            } else if physical_offset == 0xC8 {
                Some(if self.read_enabled {
                    1u16
                } else {
                    0u16
                })
            } else {
                None
            },
    {
        if !self.has_device() || !self.read_enabled {
            return None;
        }
        if physical_offset == GPIO_DATA_OFFSET {
            Some(self.pin_state as u16)
        } else if physical_offset == GPIO_DIRECTION_OFFSET {
            Some(self.direction as u16)
        } else if physical_offset == GPIO_CONTROL_OFFSET {
            Some(if self.read_enabled {
                1u16
            } else {
                0u16
            })
        } else {
            None
        }
    }

    /// Handles a halfword write to the port; false when no device or no
    /// port register takes it.
    pub fn write16(&mut self, physical_offset: u32, value: u16) -> (r: bool)
        requires
            old(self).wf(),
        ensures
            final(self).wf(),
            gpio_written(*old(self), *final(self), physical_offset, value, r),
    {
        if !self.has_device() {
            return false;
        }
        if physical_offset == GPIO_DATA_OFFSET {
            let mut pins = self.pin_state & !self.direction;
            pins = pins | ((value as u8) & self.direction & 0x0F);
            let direction = self.direction;
            proof {
                lemma_pins_stay_low(self.pin_state, direction, value as u8);
            }
            let ghost given = pins;
            match &mut self.rtc {
                Some(rtc) => {
                    let ghost state = rtc.state();
                    rtc.observe_pins(&mut pins, direction);
                    proof {
                        let now = choose|now: RtcDateTime|
                            #[trigger] clock_reading(rtc.clock, now) && (rtc.state(), pins) == observed(
                                state,
                                given,
                                direction,
                                now,
                            );
                        lemma_observed_pins(state, given, direction, now);
                    }
                },
                None => {},
            }
            self.pin_state = pins;
        } else if physical_offset == GPIO_DIRECTION_OFFSET {
            proof {
                lemma_pins_stay_low(0, 0, value as u8);
            }
            self.direction = (value as u8) & 0x0F;
        } else if physical_offset == GPIO_CONTROL_OFFSET {
            self.read_enabled = value & 1 != 0;
        } else {
            return false;
        }
        true
    }

    /// Pins the RTC to a fixed date and time instead of the host clock.
    pub fn set_fixed_rtc_datetime(&mut self, datetime: RtcDateTime)
        requires
            old(self).wf(),
        ensures
            final(self).wf(),
            final(self).pin_state == old(self).pin_state,
            final(self).direction == old(self).direction,
            final(self).read_enabled == old(self).read_enabled,
            final(self).rtc is Some == old(self).rtc is Some,
            old(self).rtc matches Some(before) ==> (final(self).rtc matches Some(after)
                && after.clock == RtcClock::Fixed(datetime) && after.state() == before.state()),
    {
        match &mut self.rtc {
            Some(rtc) => {
                rtc.clock = RtcClock::Fixed(datetime);
            },
            None => {},
        }
    }
}

} // verus!
