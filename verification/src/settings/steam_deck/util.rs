//! Codes of the Steam Deck embedded controller, as driven over the I/O port.

use vstd::prelude::*;

verus! {

pub const JUPITER_HWMON_NAME: &'static str = "jupiter";

pub const STEAMDECK_HWMON_NAME: &'static str = "steamdeck_hwmon";

pub const GPU_HWMON_NAME: &'static str = "amdgpu";

/// Embedded controller registers.
#[derive(Copy, Clone, Debug, PartialEq, Eq, Structural)]
pub enum Setting {
    CycleCount,
    ControlBoard,
    Charge,
    ChargeMode,
    LEDStatus,
}

/// The register number of a setting.
pub open spec fn setting_code(s: Setting) -> u8 {
    match s {
        Setting::CycleCount => 0x32u8,
        Setting::ControlBoard => 0x6Cu8,
        Setting::Charge => 0xA6u8,
        Setting::ChargeMode => 0x76u8,
        Setting::LEDStatus => 199u8,
    }
}

impl Setting {
    /// The register number.
    pub fn code(&self) -> (r: u8)
        ensures
            r == setting_code(*self),
    {
        match self {
            Setting::CycleCount => 0x32,
            Setting::ControlBoard => 0x6C,
            Setting::Charge => 0xA6,
            Setting::ChargeMode => 0x76,
            Setting::LEDStatus => 199,
        }
    }
}

/// Values of the control board register.
#[derive(Copy, Clone, Debug, PartialEq, Eq, Structural)]
pub enum ControlBoard {
    Enable,
    Disable,
}

impl ControlBoard {
    pub fn code(&self) -> (r: u8)
        ensures
            r == match *self {
                ControlBoard::Enable => 0xAAu8,
                ControlBoard::Disable => 0xABu8,
            },
    {
        match self {
            ControlBoard::Enable => 0xAA,
            ControlBoard::Disable => 0xAB,
        }
    }
}

/// Charging modes of the battery.
#[derive(Copy, Clone, Debug, PartialEq, Eq, Structural)]
pub enum ChargeMode {
    Normal,
    Discharge,
    Idle,
}

impl ChargeMode {
    pub fn code(&self) -> (r: u8)
        ensures
            r == match *self {
                ChargeMode::Normal => 0u8,
                ChargeMode::Discharge => 0x42u8,
                ChargeMode::Idle => 0x45u8,
            },
    {
        match self {
            ChargeMode::Normal => 0,
            ChargeMode::Discharge => 0x42,
            ChargeMode::Idle => 0x45,
        }
    }
}

/// Values of the charge register.
#[derive(Copy, Clone, Debug, PartialEq, Eq, Structural)]
pub enum Charge {
    Enable,
    Disable,
}

impl Charge {
    pub fn code(&self) -> (r: u8)
        ensures
            r == match *self {
                Charge::Enable => 0u8,
                Charge::Disable => 4u8,
            },
    {
        match self {
            Charge::Enable => 0,
            Charge::Disable => 4,
        }
    }
}

/// The LED status byte: bit 7 always set, then one bit per colour (red, green, blue).
pub fn led_payload(red_unused: bool, green_aka_white: bool, blue_unused: bool) -> (r: u8)
    ensures
        r == 0x80u8 + (if red_unused { 1u8 } else { 0u8 }) + (if green_aka_white { 2u8 } else { 0u8 })
            + (if blue_unused { 4u8 } else { 0u8 }),
{
    let r: u8 = if red_unused { 1 } else { 0 };
    let g: u8 = if green_aka_white { 1 } else { 0 };
    let b: u8 = if blue_unused { 1 } else { 0 };
    let payload: u8 = 0x80u8 | (r & 1) | ((g & 1) << 1u8) | ((b & 1) << 2u8);
    assert(payload == 0x80u8 + r + 2 * g + 4 * b) by (bit_vector)
        requires
            r <= 1,
            g <= 1,
            b <= 1,
            payload == 0x80u8 | (r & 1) | ((g & 1) << 1u8) | ((b & 1) << 2u8);
    payload
}

/// The blink pattern flashed on the LED, one entry per time unit (on when non-zero).
pub open spec fn flash_things() -> Seq<u8> {
    seq![
        1, 0, 1, 0, 1, 0, 0, 0, 1, 0, 0, 0, 1, 1, 1, 0, 1, 0, 0, 0, 1, 1, 1, 0, 1, 0, 1, 0, 0, 0, 0, 0,
        0, 0, 1, 1, 1, 0, 1, 0, 1, 0, 0, 0, 1, 0, 0, 0, 1, 1, 1, 0, 1, 0, 1, 1, 1, 0, 1, 0, 0, 0, 1, 1,
        1, 0, 1, 0, 1, 1, 1, 0, 0, 0, 0, 0, 0, 0, 1, 0, 1, 1, 1, 0, 1, 1, 1, 0, 1, 0, 0, 0, 1, 0, 1, 0,
        0, 0, 1, 1, 1, 0, 1, 0, 1, 1, 1, 0, 1, 0, 0, 0, 1, 0, 1, 0, 1, 0, 0, 0, 0, 0, 0, 0,
    ]
}

/// The blink pattern flashed on the LED.
pub fn flash_pattern() -> (r: Vec<u8>)
    ensures
        r@ == flash_things(),
{
    let v: Vec<u8> = vec![
        1, 0, 1, 0, 1, 0, 0, 0, 1, 0, 0, 0, 1, 1, 1, 0, 1, 0, 0, 0, 1, 1, 1, 0, 1, 0, 1, 0, 0, 0, 0, 0,
        0, 0, 1, 1, 1, 0, 1, 0, 1, 0, 0, 0, 1, 0, 0, 0, 1, 1, 1, 0, 1, 0, 1, 1, 1, 0, 1, 0, 0, 0, 1, 1,
        1, 0, 1, 0, 1, 1, 1, 0, 0, 0, 0, 0, 0, 0, 1, 0, 1, 1, 1, 0, 1, 1, 1, 0, 1, 0, 0, 0, 1, 0, 1, 0,
        0, 0, 1, 1, 1, 0, 1, 0, 1, 1, 1, 0, 1, 0, 0, 0, 1, 0, 1, 0, 1, 0, 0, 0, 0, 0, 0, 0,
    ];
    assert(v@ =~= flash_things());
    v
}

/// The embedded controller's command/status port.
pub const EC_COMMAND_PORT: u64 = 0x6c;

/// The embedded controller's data port.
pub const EC_DATA_PORT: u64 = 0x68;

/// How many times the status port is polled before going on anyway.
pub const EC_POLL_LIMIT: u32 = 0x1ffff;

/// One operation on the I/O ports of the embedded controller.
#[derive(Copy, Clone, Debug, PartialEq, Eq, Structural)]
pub enum PortOp {
    /// Write a byte to a port.
    Write { port: u64, value: u8 },
    /// Poll the status port until the controller takes input (see `wait_ready_for_write`).
    WaitReadyForWrite,
    /// Poll the status port until the controller has output (see `wait_ready_for_read`).
    WaitReadyForRead,
    /// Read a byte from a port.
    Read { port: u64 },
}

/// The port operations that send two bytes to the controller.
pub open spec fn write2_ops(p0: u8, p1: u8) -> Seq<PortOp> {
    seq![
        PortOp::Write { port: EC_COMMAND_PORT, value: 0x81 },
        PortOp::WaitReadyForWrite,
        PortOp::Write { port: EC_DATA_PORT, value: p0 },
        PortOp::WaitReadyForWrite,
        PortOp::Write { port: EC_DATA_PORT, value: p1 },
    ]
}

/// Send two bytes (a register, then a value) to the controller.
pub fn write2(p0: u8, p1: u8) -> (r: Vec<PortOp>)
    ensures
        r@ == write2_ops(p0, p1),
{
    let v = vec![
        PortOp::Write { port: EC_COMMAND_PORT, value: 0x81 },
        PortOp::WaitReadyForWrite,
        PortOp::Write { port: EC_DATA_PORT, value: p0 },
        PortOp::WaitReadyForWrite,
        PortOp::Write { port: EC_DATA_PORT, value: p1 },
    ];
    assert(v@ =~= write2_ops(p0, p1));
    v
}

/// Send a register to the controller and read back its value (the last operation).
pub fn write_read(p0: u8) -> (r: Vec<PortOp>)
    ensures
        r@ == seq![
            PortOp::Write { port: EC_COMMAND_PORT, value: 0x81 },
            PortOp::WaitReadyForWrite,
            PortOp::Write { port: EC_DATA_PORT, value: p0 },
            PortOp::WaitReadyForRead,
            PortOp::Read { port: EC_DATA_PORT },
        ],
{
    let v = vec![
        PortOp::Write { port: EC_COMMAND_PORT, value: 0x81 },
        PortOp::WaitReadyForWrite,
        PortOp::Write { port: EC_DATA_PORT, value: p0 },
        PortOp::WaitReadyForRead,
        PortOp::Read { port: EC_DATA_PORT },
    ];
    v
}

/// Whether to poll the status port again while waiting to write: the controller is busy (bit 1)
/// and the poll limit is not reached after `count` polls.
pub fn wait_ready_for_write(count: u32, status: u8) -> (r: bool)
    ensures
        r == (count < EC_POLL_LIMIT && status & 2 != 0),
{
    count < EC_POLL_LIMIT && status & 2 != 0
}

/// Whether to poll the status port again while waiting to read: no output yet (bit 0 clear)
/// and the poll limit is not reached after `count` polls.
pub fn wait_ready_for_read(count: u32, status: u8) -> (r: bool)
    ensures
        r == (count < EC_POLL_LIMIT && status & 1 == 0),
{
    count < EC_POLL_LIMIT && status & 1 == 0
}

/// The port operations that set the LED colours.
pub fn set_led(red_unused: bool, green_aka_white: bool, blue_unused: bool) -> (r: Vec<PortOp>)
    ensures
        r@ == write2_ops(199, (0x80u8 + (if red_unused { 1u8 } else { 0u8 }) + (if green_aka_white { 2u8 } else { 0u8 })
            + (if blue_unused { 4u8 } else { 0u8 })) as u8),
{
    write2(Setting::LEDStatus.code(), led_payload(red_unused, green_aka_white, blue_unused))
}

/// The port operations that set a register to a value.
pub fn set(setting: Setting, mode: u8) -> (r: Vec<PortOp>)
    ensures
        r@ == write2_ops(setting_code(setting), mode),
{
    write2(setting.code(), mode)
}

} // verus!
