//! The command-line grammar of the `gallo` tool: its commands, their
//! options, the values they take, and how a list of arguments becomes a
//! command or an error.
//!
//! The first argument is the program name. Global options (`-s` serial
//! number, `-f` output format) come before the command; each command group
//! takes a subcommand; each subcommand reads its own options with the
//! syntax of [`crate::scan`].

use vstd::prelude::*;
use vstd::string::*;
use crate::scan::{
    CliErrorKind, OptDecl, OptKind, OptSlot, SlotView, DeclView, chars_view, decls_view, slots_view,
    spec_empty_slots, spec_scan, scan, is_lit, slots_wf, lemma_scan_wf,
};
use crate::numbers::{spec_parse_uint, parse_u8, parse_u16, parse_u32, parse_usize, chars_of, string_of};
use crate::args::{spec_parse_i2c_address, spec_parse_byte, parse_byte_chars, spec_parse_hex, parse_hex_string, strings_view};
use crate::display::OutputFormat;
use crate::wire::I2cFrequency;
use crate::peripherals::{GpioDirection, GpioPull, GpioEdge};

verus! {

/// I2C bus clock frequency as the command line names it.
#[derive(Debug, Clone, Copy, PartialEq, Eq, Structural)]
pub enum I2cFrequencyArg {
    /// `standard`: 100 kHz.
    Standard,
    /// `fast`: 400 kHz.
    Fast,
    /// `fast-plus`: 1 MHz.
    FastPlus,
}

/// GPIO pin direction as the command line names it.
#[derive(Debug, Clone, Copy, PartialEq, Eq, Structural)]
pub enum GpioDirectionArg {
    /// `input`.
    Input,
    /// `output`.
    Output,
}

/// GPIO pull resistor as the command line names it.
#[derive(Debug, Clone, Copy, PartialEq, Eq, Structural)]
pub enum GpioPullArg {
    /// `none`: no internal pull resistor.
    NoPull,
    /// `up`: internal pull-up.
    Up,
    /// `down`: internal pull-down.
    Down,
}

/// GPIO edge as the command line names it.
#[derive(Debug, Clone, Copy, PartialEq, Eq, Structural)]
pub enum GpioEdgeArg {
    /// `rising`.
    Rising,
    /// `falling`.
    Falling,
    /// `any`.
    Any,
}

/// The subcommands of `i2c`.
#[derive(Debug, Clone, PartialEq)]
pub enum I2cCommands {
    /// `i2c scan`.
    Scan {
        /// `--reserved`.
        reserved: bool,
    },
    /// `i2c read`.
    Read {
        /// `--address`.
        address: u8,
        /// `--count`.
        count: usize,
    },
    /// `i2c write`.
    Write {
        /// `--address`.
        address: u8,
        /// `--bytes`.
        bytes: Vec<u8>,
    },
    /// `i2c write-read`.
    WriteRead {
        /// `--address`.
        address: u8,
        /// `--bytes`.
        bytes: Vec<u8>,
        /// `--count`.
        count: usize,
    },
    /// `i2c set-config`.
    SetConfig {
        /// `--frequency`.
        frequency: I2cFrequencyArg,
    },
    /// `i2c get-config`.
    GetConfig,
    /// `i2c batch`.
    Batch {
        /// `--address`.
        address: u8,
        /// `--op`.
        op: Vec<String>,
    },
}

/// The subcommands of `spi`.
#[derive(Debug, Clone, PartialEq)]
pub enum SpiCommands {
    /// `spi read`.
    Read {
        /// `--count`.
        count: usize,
    },
    /// `spi write`.
    Write {
        /// `--bytes`.
        bytes: Vec<u8>,
    },
    /// `spi transfer`.
    Transfer {
        /// `--bytes`.
        bytes: Vec<u8>,
    },
    /// `spi write-read`.
    WriteRead {
        /// `--count`.
        count: usize,
        /// `--bytes`.
        bytes: Vec<u8>,
    },
    /// `spi set-config`.
    SetConfig {
        /// `--frequency`.
        frequency: u32,
        /// `--first-transition`.
        first_transition: bool,
        /// `--idle-low`.
        idle_low: bool,
    },
    /// `spi get-config`.
    GetConfig,
    /// `spi batch`.
    Batch {
        /// `--cs`.
        cs: u8,
        /// `--op`.
        op: Vec<String>,
    },
}

/// The subcommands of `gpio`.
#[derive(Debug, Clone, PartialEq)]
pub enum GpioCommands {
    /// `gpio get`.
    Get {
        /// `--pin`.
        pin: u8,
    },
    /// `gpio put`.
    Put {
        /// `--pin`.
        pin: u8,
        /// `--high`.
        high: bool,
    },
    /// `gpio set-config`.
    SetConfig {
        /// `--pin`.
        pin: u8,
        /// `--direction`.
        direction: GpioDirectionArg,
        /// `--pull`.
        pull: GpioPullArg,
    },
    /// `gpio monitor`.
    Monitor {
        /// `--pin`.
        pin: u8,
        /// `--edge`.
        edge: GpioEdgeArg,
    },
}

/// The subcommands of `uart`.
#[derive(Debug, Clone, PartialEq)]
pub enum UartCommands {
    /// `uart read`.
    Read {
        /// `--count`.
        count: u16,
        /// `--timeout`.
        timeout: u32,
    },
    /// `uart write`.
    Write {
        /// `--bytes`.
        bytes: Vec<u8>,
    },
    /// `uart flush`.
    Flush,
    /// `uart set-config`.
    SetConfig {
        /// `--baud-rate`.
        baud_rate: u32,
    },
    /// `uart get-config`.
    GetConfig,
}

/// The subcommands of `pwm`.
#[derive(Debug, Clone, PartialEq)]
pub enum PwmCommands {
    /// `pwm set-duty`.
    SetDuty {
        /// `--channel`.
        channel: u8,
        /// `--duty`.
        duty: u16,
    },
    /// `pwm get-duty`.
    GetDuty {
        /// `--channel`.
        channel: u8,
    },
    /// `pwm enable`.
    Enable {
        /// `--channel`.
        channel: u8,
    },
    /// `pwm disable`.
    Disable {
        /// `--channel`.
        channel: u8,
    },
    /// `pwm set-config`.
    SetConfig {
        /// `--channel`.
        channel: u8,
        /// `--frequency`.
        frequency: u32,
        /// `--phase-correct`.
        phase_correct: bool,
    },
    /// `pwm get-config`.
    GetConfig {
        /// `--channel`.
        channel: u8,
    },
}

/// The subcommands of `adc`.
#[derive(Debug, Clone, PartialEq)]
pub enum AdcCommands {
    /// `adc read`.
    Read {
        /// `--channel`.
        channel: u8,
    },
    /// `adc info`.
    Info,
}

/// The subcommands of `onewire`.
#[derive(Debug, Clone, PartialEq)]
pub enum OneWireCommands {
    /// `onewire reset`.
    Reset,
    /// `onewire read`.
    Read {
        /// `--len`.
        len: u16,
    },
    /// `onewire write`.
    Write {
        /// `--data`.
        data: Vec<u8>,
    },
    /// `onewire write-pullup`.
    WritePullup {
        /// `--data`.
        data: Vec<u8>,
        /// `--duration`.
        duration: u16,
    },
    /// `onewire search`.
    Search,
}

/// The commands of the tool.
#[derive(Debug, Clone, PartialEq)]
pub enum Commands {
    /// `list`: list the connected devices.
    List,
    /// `version`: show the firmware version.
    Version,
    /// `i2c`.
    I2c {
        /// The subcommand.
        command: I2cCommands,
    },
    /// `spi`.
    Spi {
        /// The subcommand.
        command: SpiCommands,
    },
    /// `gpio`.
    Gpio {
        /// The subcommand.
        command: GpioCommands,
    },
    /// `uart`.
    Uart {
        /// The subcommand.
        command: UartCommands,
    },
    /// `pwm`.
    Pwm {
        /// The subcommand.
        command: PwmCommands,
    },
    /// `adc`.
    Adc {
        /// The subcommand.
        command: AdcCommands,
    },
    /// `onewire`.
    OneWire {
        /// The subcommand.
        command: OneWireCommands,
    },
}

/// A parsed command line.
#[derive(Debug, Clone, PartialEq)]
pub struct Cli {
    /// `-s`/`--serial-number`: the device to talk to.
    pub serial_number: Option<String>,
    /// `-f`/`--format`: how read data is shown.
    pub format: OutputFormat,
    /// The command.
    pub command: Commands,
}

/// Every command the tool runs, without its values.
#[derive(Debug, Clone, Copy, PartialEq, Eq, Structural)]
pub enum Leaf {
    /// `list`.
    List,
    /// `version`.
    Version,
    /// `i2c scan`.
    I2cScan,
    /// `i2c read`.
    I2cRead,
    /// `i2c write`.
    I2cWrite,
    /// `i2c write-read`.
    I2cWriteRead,
    /// `i2c set-config`.
    I2cSetConfig,
    /// `i2c get-config`.
    I2cGetConfig,
    /// `i2c batch`.
    I2cBatch,
    /// `spi read`.
    SpiRead,
    /// `spi write`.
    SpiWrite,
    /// `spi transfer`.
    SpiTransfer,
    /// `spi write-read`.
    SpiWriteRead,
    /// `spi set-config`.
    SpiSetConfig,
    /// `spi get-config`.
    SpiGetConfig,
    /// `spi batch`.
    SpiBatch,
    /// `gpio get`.
    GpioGet,
    /// `gpio put`.
    GpioPut,
    /// `gpio set-config`.
    GpioSetConfig,
    /// `gpio monitor`.
    GpioMonitor,
    /// `uart read`.
    UartRead,
    /// `uart write`.
    UartWrite,
    /// `uart flush`.
    UartFlush,
    /// `uart set-config`.
    UartSetConfig,
    /// `uart get-config`.
    UartGetConfig,
    /// `pwm set-duty`.
    PwmSetDuty,
    /// `pwm get-duty`.
    PwmGetDuty,
    /// `pwm enable`.
    PwmEnable,
    /// `pwm disable`.
    PwmDisable,
    /// `pwm set-config`.
    PwmSetConfig,
    /// `pwm get-config`.
    PwmGetConfig,
    /// `adc read`.
    AdcRead,
    /// `adc info`.
    AdcInfo,
    /// `onewire reset`.
    OneWireReset,
    /// `onewire read`.
    OneWireRead,
    /// `onewire write`.
    OneWireWrite,
    /// `onewire write-pullup`.
    OneWireWritePullup,
    /// `onewire search`.
    OneWireSearch,
}

/// A command with its values, as plain values.
pub enum CommandModel {
    /// `list`.
    List,
    /// `version`.
    Version,
    /// `i2c scan`.
    I2cScan {
        /// `--reserved`.
        reserved: bool,
    },
    /// `i2c read`.
    I2cRead {
        /// `--address`.
        address: u8,
        /// `--count`.
        count: usize,
    },
    /// `i2c write`.
    I2cWrite {
        /// `--address`.
        address: u8,
        /// `--bytes`.
        bytes: Seq<u8>,
    },
    /// `i2c write-read`.
    I2cWriteRead {
        /// `--address`.
        address: u8,
        /// `--bytes`.
        bytes: Seq<u8>,
        /// `--count`.
        count: usize,
    },
    /// `i2c set-config`.
    I2cSetConfig {
        /// `--frequency`.
        frequency: I2cFrequencyArg,
    },
    /// `i2c get-config`.
    I2cGetConfig,
    /// `i2c batch`.
    I2cBatch {
        /// `--address`.
        address: u8,
        /// `--op`.
        op: Seq<Seq<char>>,
    },
    /// `spi read`.
    SpiRead {
        /// `--count`.
        count: usize,
    },
    /// `spi write`.
    SpiWrite {
        /// `--bytes`.
        bytes: Seq<u8>,
    },
    /// `spi transfer`.
    SpiTransfer {
        /// `--bytes`.
        bytes: Seq<u8>,
    },
    /// `spi write-read`.
    SpiWriteRead {
        /// `--count`.
        count: usize,
        /// `--bytes`.
        bytes: Seq<u8>,
    },
    /// `spi set-config`.
    SpiSetConfig {
        /// `--frequency`.
        frequency: u32,
        /// `--first-transition`.
        first_transition: bool,
        /// `--idle-low`.
        idle_low: bool,
    },
    /// `spi get-config`.
    SpiGetConfig,
    /// `spi batch`.
    SpiBatch {
        /// `--cs`.
        cs: u8,
        /// `--op`.
        op: Seq<Seq<char>>,
    },
    /// `gpio get`.
    GpioGet {
        /// `--pin`.
        pin: u8,
    },
    /// `gpio put`.
    GpioPut {
        /// `--pin`.
        pin: u8,
        /// `--high`.
        high: bool,
    },
    /// `gpio set-config`.
    GpioSetConfig {
        /// `--pin`.
        pin: u8,
        /// `--direction`.
        direction: GpioDirectionArg,
        /// `--pull`.
        pull: GpioPullArg,
    },
    /// `gpio monitor`.
    GpioMonitor {
        /// `--pin`.
        pin: u8,
        /// `--edge`.
        edge: GpioEdgeArg,
    },
    /// `uart read`.
    UartRead {
        /// `--count`.
        count: u16,
        /// `--timeout`.
        timeout: u32,
    },
    /// `uart write`.
    UartWrite {
        /// `--bytes`.
        bytes: Seq<u8>,
    },
    /// `uart flush`.
    UartFlush,
    /// `uart set-config`.
    UartSetConfig {
        /// `--baud-rate`.
        baud_rate: u32,
    },
    /// `uart get-config`.
    UartGetConfig,
    /// `pwm set-duty`.
    PwmSetDuty {
        /// `--channel`.
        channel: u8,
        /// `--duty`.
        duty: u16,
    },
    /// `pwm get-duty`.
    PwmGetDuty {
        /// `--channel`.
        channel: u8,
    },
    /// `pwm enable`.
    PwmEnable {
        /// `--channel`.
        channel: u8,
    },
    /// `pwm disable`.
    PwmDisable {
        /// `--channel`.
        channel: u8,
    },
    /// `pwm set-config`.
    PwmSetConfig {
        /// `--channel`.
        channel: u8,
        /// `--frequency`.
        frequency: u32,
        /// `--phase-correct`.
        phase_correct: bool,
    },
    /// `pwm get-config`.
    PwmGetConfig {
        /// `--channel`.
        channel: u8,
    },
    /// `adc read`.
    AdcRead {
        /// `--channel`.
        channel: u8,
    },
    /// `adc info`.
    AdcInfo,
    /// `onewire reset`.
    OneWireReset,
    /// `onewire read`.
    OneWireRead {
        /// `--len`.
        len: u16,
    },
    /// `onewire write`.
    OneWireWrite {
        /// `--data`.
        data: Seq<u8>,
    },
    /// `onewire write-pullup`.
    OneWireWritePullup {
        /// `--data`.
        data: Seq<u8>,
        /// `--duration`.
        duration: u16,
    },
    /// `onewire search`.
    OneWireSearch,
}

impl View for Commands {
    type V = CommandModel;

    open spec fn view(&self) -> CommandModel {
        match self {
            Commands::List => CommandModel::List,
            Commands::Version => CommandModel::Version,
            Commands::I2c { command } => match command {
                I2cCommands::Scan { reserved } => CommandModel::I2cScan { reserved: *reserved },
                I2cCommands::Read { address, count } => CommandModel::I2cRead { address: *address, count: *count },
                I2cCommands::Write { address, bytes } => CommandModel::I2cWrite { address: *address, bytes: bytes@ },
                I2cCommands::WriteRead { address, bytes, count } => CommandModel::I2cWriteRead { address: *address, bytes: bytes@, count: *count },
                I2cCommands::SetConfig { frequency } => CommandModel::I2cSetConfig { frequency: *frequency },
                I2cCommands::GetConfig => CommandModel::I2cGetConfig,
                I2cCommands::Batch { address, op } => CommandModel::I2cBatch { address: *address, op: strings_view(op@) },
            },
            Commands::Spi { command } => match command {
                SpiCommands::Read { count } => CommandModel::SpiRead { count: *count },
                SpiCommands::Write { bytes } => CommandModel::SpiWrite { bytes: bytes@ },
                SpiCommands::Transfer { bytes } => CommandModel::SpiTransfer { bytes: bytes@ },
                SpiCommands::WriteRead { count, bytes } => CommandModel::SpiWriteRead { count: *count, bytes: bytes@ },
                SpiCommands::SetConfig { frequency, first_transition, idle_low } => CommandModel::SpiSetConfig { frequency: *frequency, first_transition: *first_transition, idle_low: *idle_low },
                SpiCommands::GetConfig => CommandModel::SpiGetConfig,
                SpiCommands::Batch { cs, op } => CommandModel::SpiBatch { cs: *cs, op: strings_view(op@) },
            },
            Commands::Gpio { command } => match command {
                GpioCommands::Get { pin } => CommandModel::GpioGet { pin: *pin },
                GpioCommands::Put { pin, high } => CommandModel::GpioPut { pin: *pin, high: *high },
                GpioCommands::SetConfig { pin, direction, pull } => CommandModel::GpioSetConfig { pin: *pin, direction: *direction, pull: *pull },
                GpioCommands::Monitor { pin, edge } => CommandModel::GpioMonitor { pin: *pin, edge: *edge },
            },
            Commands::Uart { command } => match command {
                UartCommands::Read { count, timeout } => CommandModel::UartRead { count: *count, timeout: *timeout },
                UartCommands::Write { bytes } => CommandModel::UartWrite { bytes: bytes@ },
                UartCommands::Flush => CommandModel::UartFlush,
                UartCommands::SetConfig { baud_rate } => CommandModel::UartSetConfig { baud_rate: *baud_rate },
                UartCommands::GetConfig => CommandModel::UartGetConfig,
            },
            Commands::Pwm { command } => match command {
                PwmCommands::SetDuty { channel, duty } => CommandModel::PwmSetDuty { channel: *channel, duty: *duty },
                PwmCommands::GetDuty { channel } => CommandModel::PwmGetDuty { channel: *channel },
                PwmCommands::Enable { channel } => CommandModel::PwmEnable { channel: *channel },
                PwmCommands::Disable { channel } => CommandModel::PwmDisable { channel: *channel },
                PwmCommands::SetConfig { channel, frequency, phase_correct } => CommandModel::PwmSetConfig { channel: *channel, frequency: *frequency, phase_correct: *phase_correct },
                PwmCommands::GetConfig { channel } => CommandModel::PwmGetConfig { channel: *channel },
            },
            Commands::Adc { command } => match command {
                AdcCommands::Read { channel } => CommandModel::AdcRead { channel: *channel },
                AdcCommands::Info => CommandModel::AdcInfo,
            },
            Commands::OneWire { command } => match command {
                OneWireCommands::Reset => CommandModel::OneWireReset,
                OneWireCommands::Read { len } => CommandModel::OneWireRead { len: *len },
                OneWireCommands::Write { data } => CommandModel::OneWireWrite { data: data@ },
                OneWireCommands::WritePullup { data, duration } => CommandModel::OneWireWritePullup { data: data@, duration: *duration },
                OneWireCommands::Search => CommandModel::OneWireSearch,
            },
        }
    }
}

/// The value of an I2C address option.
pub open spec fn spec_val_addr(v: Seq<char>) -> Option<u8> {
    match spec_parse_i2c_address(v) {
        Ok(a) => Some(a),
        Err(_) => None,
    }
}

/// The value of a decimal option whose largest value is `max`.
pub open spec fn spec_val_uint(v: Seq<char>, max: nat) -> Option<nat> {
    match spec_parse_uint(v, 10, max) {
        Ok(n) => Some(n),
        Err(_) => None,
    }
}

/// The bytes of a many-valued byte option: each value read as a byte.
pub open spec fn spec_val_bytes(vs: Seq<Seq<char>>) -> Option<Seq<u8>>
    decreases vs.len(),
{
    if vs.len() == 0 {
        Some(Seq::empty())
    } else {
        match spec_val_bytes(vs.drop_last()) {
            None => None,
            Some(p) => match spec_parse_byte(vs.last()) {
                Ok(b) => Some(p.push(b as u8)),
                Err(_) => None,
            },
        }
    }
}

/// Whether every even byte offset of a text, up to its end, is a
/// character boundary (so that it can be read two bytes at a time).
pub open spec fn spec_even_boundaries(b: Seq<u8>) -> bool {
    forall|i: int| 0 <= i <= b.len() && i % 2 == 0 ==> vstd::utf8::is_char_boundary(b, i)
}

/// The bytes of a hex-string option; a text that cannot be read two bytes
/// at a time does not parse.
pub open spec fn spec_val_hex(v: Seq<char>) -> Option<Seq<u8>> {
    let b = vstd::utf8::encode_utf8(v);
    if spec_even_boundaries(b) {
        match spec_parse_hex(b) {
            Ok(x) => Some(x),
            Err(_) => None,
        }
    } else {
        None
    }
}

/// The frequency named by a value.
pub open spec fn spec_val_freq(v: Seq<char>) -> Option<I2cFrequencyArg> {
    if v == "standard"@ {
        Some(I2cFrequencyArg::Standard)
    } else if v == "fast"@ {
        Some(I2cFrequencyArg::Fast)
    } else if v == "fast-plus"@ {
        Some(I2cFrequencyArg::FastPlus)
    } else {
        None
    }
}

/// The direction named by a value.
pub open spec fn spec_val_dir(v: Seq<char>) -> Option<GpioDirectionArg> {
    if v == "input"@ {
        Some(GpioDirectionArg::Input)
    } else if v == "output"@ {
        Some(GpioDirectionArg::Output)
    } else {
        None
    }
}

/// The pull resistor named by a value.
pub open spec fn spec_val_pull(v: Seq<char>) -> Option<GpioPullArg> {
    if v == "none"@ {
        Some(GpioPullArg::NoPull)
    } else if v == "up"@ {
        Some(GpioPullArg::Up)
    } else if v == "down"@ {
        Some(GpioPullArg::Down)
    } else {
        None
    }
}

/// The edge named by a value.
pub open spec fn spec_val_edge(v: Seq<char>) -> Option<GpioEdgeArg> {
    if v == "rising"@ {
        Some(GpioEdgeArg::Rising)
    } else if v == "falling"@ {
        Some(GpioEdgeArg::Falling)
    } else if v == "any"@ {
        Some(GpioEdgeArg::Any)
    } else {
        None
    }
}

/// The output format named by a value.
pub open spec fn spec_val_format(v: Seq<char>) -> Option<OutputFormat> {
    if v == "hex"@ {
        Some(OutputFormat::Hex)
    } else if v == "binary"@ {
        Some(OutputFormat::Binary)
    } else if v == "ascii"@ {
        Some(OutputFormat::Ascii)
    } else {
        None
    }
}

/// The value of `v` as the `addr` kind, if it parses.
pub open spec fn spec_value_addr(v: Seq<char>) -> Option<u8> {
    spec_val_addr(v)
}

/// A required option of the `addr` kind: missing, invalid, or its value.
pub open spec fn spec_req_addr(st: Seq<SlotView>, k: int) -> Result<u8, CliErrorKind> {
    if !st[k].0 {
        Err(CliErrorKind::MissingArgument)
    } else {
        match spec_value_addr(st[k].1[0]) {
            Some(x) => Ok(x),
            None => Err(CliErrorKind::InvalidValue),
        }
    }
}

/// An option of the `addr` kind with a default: the default when absent.
pub open spec fn spec_def_addr(st: Seq<SlotView>, k: int, d: u8) -> Result<u8, CliErrorKind> {
    if !st[k].0 {
        Ok(d)
    } else {
        match spec_value_addr(st[k].1[0]) {
            Some(x) => Ok(x),
            None => Err(CliErrorKind::InvalidValue),
        }
    }
}

/// The value of `v` as the `u8` kind, if it parses.
pub open spec fn spec_value_u8(v: Seq<char>) -> Option<u8> {
    match spec_val_uint(v, 255) { Some(n) => Some(n as u8), None => None }
}

/// A required option of the `u8` kind: missing, invalid, or its value.
pub open spec fn spec_req_u8(st: Seq<SlotView>, k: int) -> Result<u8, CliErrorKind> {
    if !st[k].0 {
        Err(CliErrorKind::MissingArgument)
    } else {
        match spec_value_u8(st[k].1[0]) {
            Some(x) => Ok(x),
            None => Err(CliErrorKind::InvalidValue),
        }
    }
}

/// An option of the `u8` kind with a default: the default when absent.
pub open spec fn spec_def_u8(st: Seq<SlotView>, k: int, d: u8) -> Result<u8, CliErrorKind> {
    if !st[k].0 {
        Ok(d)
    } else {
        match spec_value_u8(st[k].1[0]) {
            Some(x) => Ok(x),
            None => Err(CliErrorKind::InvalidValue),
        }
    }
}

/// The value of `v` as the `u16` kind, if it parses.
pub open spec fn spec_value_u16(v: Seq<char>) -> Option<u16> {
    match spec_val_uint(v, 0xffff) { Some(n) => Some(n as u16), None => None }
}

/// A required option of the `u16` kind: missing, invalid, or its value.
pub open spec fn spec_req_u16(st: Seq<SlotView>, k: int) -> Result<u16, CliErrorKind> {
    if !st[k].0 {
        Err(CliErrorKind::MissingArgument)
    } else {
        match spec_value_u16(st[k].1[0]) {
            Some(x) => Ok(x),
            None => Err(CliErrorKind::InvalidValue),
        }
    }
}

/// An option of the `u16` kind with a default: the default when absent.
pub open spec fn spec_def_u16(st: Seq<SlotView>, k: int, d: u16) -> Result<u16, CliErrorKind> {
    if !st[k].0 {
        Ok(d)
    } else {
        match spec_value_u16(st[k].1[0]) {
            Some(x) => Ok(x),
            None => Err(CliErrorKind::InvalidValue),
        }
    }
}

/// The value of `v` as the `u32` kind, if it parses.
pub open spec fn spec_value_u32(v: Seq<char>) -> Option<u32> {
    match spec_val_uint(v, 0xffff_ffff) { Some(n) => Some(n as u32), None => None }
}

/// A required option of the `u32` kind: missing, invalid, or its value.
pub open spec fn spec_req_u32(st: Seq<SlotView>, k: int) -> Result<u32, CliErrorKind> {
    if !st[k].0 {
        Err(CliErrorKind::MissingArgument)
    } else {
        match spec_value_u32(st[k].1[0]) {
            Some(x) => Ok(x),
            None => Err(CliErrorKind::InvalidValue),
        }
    }
}

/// An option of the `u32` kind with a default: the default when absent.
pub open spec fn spec_def_u32(st: Seq<SlotView>, k: int, d: u32) -> Result<u32, CliErrorKind> {
    if !st[k].0 {
        Ok(d)
    } else {
        match spec_value_u32(st[k].1[0]) {
            Some(x) => Ok(x),
            None => Err(CliErrorKind::InvalidValue),
        }
    }
}

/// The value of `v` as the `usize` kind, if it parses.
pub open spec fn spec_value_usize(v: Seq<char>) -> Option<usize> {
    match spec_val_uint(v, usize::MAX as nat) { Some(n) => Some(n as usize), None => None }
}

/// A required option of the `usize` kind: missing, invalid, or its value.
pub open spec fn spec_req_usize(st: Seq<SlotView>, k: int) -> Result<usize, CliErrorKind> {
    if !st[k].0 {
        Err(CliErrorKind::MissingArgument)
    } else {
        match spec_value_usize(st[k].1[0]) {
            Some(x) => Ok(x),
            None => Err(CliErrorKind::InvalidValue),
        }
    }
}

/// An option of the `usize` kind with a default: the default when absent.
pub open spec fn spec_def_usize(st: Seq<SlotView>, k: int, d: usize) -> Result<usize, CliErrorKind> {
    if !st[k].0 {
        Ok(d)
    } else {
        match spec_value_usize(st[k].1[0]) {
            Some(x) => Ok(x),
            None => Err(CliErrorKind::InvalidValue),
        }
    }
}

/// The value of `v` as the `hex` kind, if it parses.
pub open spec fn spec_value_hex(v: Seq<char>) -> Option<Seq<u8>> {
    spec_val_hex(v)
}

/// A required option of the `hex` kind: missing, invalid, or its value.
pub open spec fn spec_req_hex(st: Seq<SlotView>, k: int) -> Result<Seq<u8>, CliErrorKind> {
    if !st[k].0 {
        Err(CliErrorKind::MissingArgument)
    } else {
        match spec_value_hex(st[k].1[0]) {
            Some(x) => Ok(x),
            None => Err(CliErrorKind::InvalidValue),
        }
    }
}

/// An option of the `hex` kind with a default: the default when absent.
pub open spec fn spec_def_hex(st: Seq<SlotView>, k: int, d: Seq<u8>) -> Result<Seq<u8>, CliErrorKind> {
    if !st[k].0 {
        Ok(d)
    } else {
        match spec_value_hex(st[k].1[0]) {
            Some(x) => Ok(x),
            None => Err(CliErrorKind::InvalidValue),
        }
    }
}

/// The value of `v` as the `freq` kind, if it parses.
pub open spec fn spec_value_freq(v: Seq<char>) -> Option<I2cFrequencyArg> {
    spec_val_freq(v)
}

/// A required option of the `freq` kind: missing, invalid, or its value.
pub open spec fn spec_req_freq(st: Seq<SlotView>, k: int) -> Result<I2cFrequencyArg, CliErrorKind> {
    if !st[k].0 {
        Err(CliErrorKind::MissingArgument)
    } else {
        match spec_value_freq(st[k].1[0]) {
            Some(x) => Ok(x),
            None => Err(CliErrorKind::InvalidValue),
        }
    }
}

/// An option of the `freq` kind with a default: the default when absent.
pub open spec fn spec_def_freq(st: Seq<SlotView>, k: int, d: I2cFrequencyArg) -> Result<I2cFrequencyArg, CliErrorKind> {
    if !st[k].0 {
        Ok(d)
    } else {
        match spec_value_freq(st[k].1[0]) {
            Some(x) => Ok(x),
            None => Err(CliErrorKind::InvalidValue),
        }
    }
}

/// The value of `v` as the `dir` kind, if it parses.
pub open spec fn spec_value_dir(v: Seq<char>) -> Option<GpioDirectionArg> {
    spec_val_dir(v)
}

/// A required option of the `dir` kind: missing, invalid, or its value.
pub open spec fn spec_req_dir(st: Seq<SlotView>, k: int) -> Result<GpioDirectionArg, CliErrorKind> {
    if !st[k].0 {
        Err(CliErrorKind::MissingArgument)
    } else {
        match spec_value_dir(st[k].1[0]) {
            Some(x) => Ok(x),
            None => Err(CliErrorKind::InvalidValue),
        }
    }
}

/// An option of the `dir` kind with a default: the default when absent.
pub open spec fn spec_def_dir(st: Seq<SlotView>, k: int, d: GpioDirectionArg) -> Result<GpioDirectionArg, CliErrorKind> {
    if !st[k].0 {
        Ok(d)
    } else {
        match spec_value_dir(st[k].1[0]) {
            Some(x) => Ok(x),
            None => Err(CliErrorKind::InvalidValue),
        }
    }
}

/// The value of `v` as the `pull` kind, if it parses.
pub open spec fn spec_value_pull(v: Seq<char>) -> Option<GpioPullArg> {
    spec_val_pull(v)
}

/// A required option of the `pull` kind: missing, invalid, or its value.
pub open spec fn spec_req_pull(st: Seq<SlotView>, k: int) -> Result<GpioPullArg, CliErrorKind> {
    if !st[k].0 {
        Err(CliErrorKind::MissingArgument)
    } else {
        match spec_value_pull(st[k].1[0]) {
            Some(x) => Ok(x),
            None => Err(CliErrorKind::InvalidValue),
        }
    }
}

/// An option of the `pull` kind with a default: the default when absent.
pub open spec fn spec_def_pull(st: Seq<SlotView>, k: int, d: GpioPullArg) -> Result<GpioPullArg, CliErrorKind> {
    if !st[k].0 {
        Ok(d)
    } else {
        match spec_value_pull(st[k].1[0]) {
            Some(x) => Ok(x),
            None => Err(CliErrorKind::InvalidValue),
        }
    }
}

/// The value of `v` as the `edge` kind, if it parses.
pub open spec fn spec_value_edge(v: Seq<char>) -> Option<GpioEdgeArg> {
    spec_val_edge(v)
}

/// A required option of the `edge` kind: missing, invalid, or its value.
pub open spec fn spec_req_edge(st: Seq<SlotView>, k: int) -> Result<GpioEdgeArg, CliErrorKind> {
    if !st[k].0 {
        Err(CliErrorKind::MissingArgument)
    } else {
        match spec_value_edge(st[k].1[0]) {
            Some(x) => Ok(x),
            None => Err(CliErrorKind::InvalidValue),
        }
    }
}

/// An option of the `edge` kind with a default: the default when absent.
pub open spec fn spec_def_edge(st: Seq<SlotView>, k: int, d: GpioEdgeArg) -> Result<GpioEdgeArg, CliErrorKind> {
    if !st[k].0 {
        Ok(d)
    } else {
        match spec_value_edge(st[k].1[0]) {
            Some(x) => Ok(x),
            None => Err(CliErrorKind::InvalidValue),
        }
    }
}

/// The value of `v` as the `format` kind, if it parses.
pub open spec fn spec_value_format(v: Seq<char>) -> Option<OutputFormat> {
    spec_val_format(v)
}

/// A required option of the `format` kind: missing, invalid, or its value.
pub open spec fn spec_req_format(st: Seq<SlotView>, k: int) -> Result<OutputFormat, CliErrorKind> {
    if !st[k].0 {
        Err(CliErrorKind::MissingArgument)
    } else {
        match spec_value_format(st[k].1[0]) {
            Some(x) => Ok(x),
            None => Err(CliErrorKind::InvalidValue),
        }
    }
}

/// An option of the `format` kind with a default: the default when absent.
pub open spec fn spec_def_format(st: Seq<SlotView>, k: int, d: OutputFormat) -> Result<OutputFormat, CliErrorKind> {
    if !st[k].0 {
        Ok(d)
    } else {
        match spec_value_format(st[k].1[0]) {
            Some(x) => Ok(x),
            None => Err(CliErrorKind::InvalidValue),
        }
    }
}

/// A many-valued byte option: no bytes when absent.
pub open spec fn spec_multi_bytes(st: Seq<SlotView>, k: int) -> Result<Seq<u8>, CliErrorKind> {
    match spec_val_bytes(st[k].1) {
        Some(b) => Ok(b),
        None => Err(CliErrorKind::InvalidValue),
    }
}

/// A required many-valued text option.
pub open spec fn spec_req_strs(st: Seq<SlotView>, k: int) -> Result<Seq<Seq<char>>, CliErrorKind> {
    if !st[k].0 {
        Err(CliErrorKind::MissingArgument)
    } else {
        Ok(st[k].1)
    }
}

fn value_addr(v: &[char]) -> (res: Option<u8>)
    ensures
        res == spec_value_addr(v@),
{
    match parse_byte_chars(v) {
        Ok(b) => if b > 0x7f {
            None
        } else {
            Some(b)
        },
        Err(_) => None,
    }
}

fn value_u8(v: &[char]) -> (res: Option<u8>)
    ensures
        res == spec_value_u8(v@),
{
    match parse_u8(v) {
        Ok(n) => Some(n),
        Err(_) => None,
    }
}

fn value_u16(v: &[char]) -> (res: Option<u16>)
    ensures
        res == spec_value_u16(v@),
{
    match parse_u16(v) {
        Ok(n) => Some(n),
        Err(_) => None,
    }
}

fn value_u32(v: &[char]) -> (res: Option<u32>)
    ensures
        res == spec_value_u32(v@),
{
    match parse_u32(v) {
        Ok(n) => Some(n),
        Err(_) => None,
    }
}

fn value_usize(v: &[char]) -> (res: Option<usize>)
    ensures
        res == spec_value_usize(v@),
{
    match parse_usize(v) {
        Ok(n) => Some(n),
        Err(_) => None,
    }
}

/// Whether every even byte offset of `s` is a character boundary.
fn even_boundaries(s: &str) -> (res: bool)
    ensures
        res == spec_even_boundaries(s.spec_bytes()),
{
    let b = s.as_bytes();
    let n = b.len();
    let mut i: usize = 0;
    while i <= n
        invariant
            n == s.spec_bytes().len(),
            i % 2 == 0,
            forall|j: int| 0 <= j < i && j % 2 == 0 ==> vstd::utf8::is_char_boundary(s.spec_bytes(), j),
        decreases n + 2 - i,
    {
        if !s.is_char_boundary(i) {
            return false;
        }
        if n - i < 2 {
            return true;
        }
        i = i + 2;
    }
    true
}

fn value_hex(v: &[char]) -> (res: Option<Vec<u8>>)
    ensures
        match spec_value_hex(v@) {
            Some(b) => res matches Some(x) && x@ == b,
            None => res is None,
        },
{
    let s = string_of(v);
    let t = s.as_str();
    if !even_boundaries(t) {
        return None;
    }
    match parse_hex_string(t) {
        Ok(b) => Some(b),
        Err(_) => None,
    }
}

fn value_freq(v: &[char]) -> (res: Option<I2cFrequencyArg>)
    ensures
        res == spec_value_freq(v@),
{
    if is_lit(v, "standard") {
        Some(I2cFrequencyArg::Standard)
    } else if is_lit(v, "fast") {
        Some(I2cFrequencyArg::Fast)
    } else if is_lit(v, "fast-plus") {
        Some(I2cFrequencyArg::FastPlus)
    } else {
        None
    }
}

fn value_dir(v: &[char]) -> (res: Option<GpioDirectionArg>)
    ensures
        res == spec_value_dir(v@),
{
    if is_lit(v, "input") {
        Some(GpioDirectionArg::Input)
    } else if is_lit(v, "output") {
        Some(GpioDirectionArg::Output)
    } else {
        None
    }
}

fn value_pull(v: &[char]) -> (res: Option<GpioPullArg>)
    ensures
        res == spec_value_pull(v@),
{
    if is_lit(v, "none") {
        Some(GpioPullArg::NoPull)
    } else if is_lit(v, "up") {
        Some(GpioPullArg::Up)
    } else if is_lit(v, "down") {
        Some(GpioPullArg::Down)
    } else {
        None
    }
}

fn value_edge(v: &[char]) -> (res: Option<GpioEdgeArg>)
    ensures
        res == spec_value_edge(v@),
{
    if is_lit(v, "rising") {
        Some(GpioEdgeArg::Rising)
    } else if is_lit(v, "falling") {
        Some(GpioEdgeArg::Falling)
    } else if is_lit(v, "any") {
        Some(GpioEdgeArg::Any)
    } else {
        None
    }
}

fn value_format(v: &[char]) -> (res: Option<OutputFormat>)
    ensures
        res == spec_value_format(v@),
{
    if is_lit(v, "hex") {
        Some(OutputFormat::Hex)
    } else if is_lit(v, "binary") {
        Some(OutputFormat::Binary)
    } else if is_lit(v, "ascii") {
        Some(OutputFormat::Ascii)
    } else {
        None
    }
}


fn req_addr(st: &[OptSlot], k: usize) -> (res: Result<u8, CliErrorKind>)
    requires
        k < st@.len(),
        st@[k as int].seen ==> st@[k as int].values@.len() >= 1,
    ensures
        res == spec_req_addr(slots_view(st@), k as int),
{
    assert(slots_view(st@)[k as int] == (st@[k as int].seen, chars_view(st@[k as int].values@)));
    if !st[k].seen {
        return Err(CliErrorKind::MissingArgument);
    }
    assert(chars_view(st@[k as int].values@)[0] == st@[k as int].values@[0]@);
    match value_addr(st[k].values[0].as_slice()) {
        Some(x) => Ok(x),
        None => Err(CliErrorKind::InvalidValue),
    }
}

fn def_addr(st: &[OptSlot], k: usize, d: u8) -> (res: Result<u8, CliErrorKind>)
    requires
        k < st@.len(),
        st@[k as int].seen ==> st@[k as int].values@.len() >= 1,
    ensures
        res == spec_def_addr(slots_view(st@), k as int, d),
{
    assert(slots_view(st@)[k as int] == (st@[k as int].seen, chars_view(st@[k as int].values@)));
    if !st[k].seen {
        return Ok(d);
    }
    assert(chars_view(st@[k as int].values@)[0] == st@[k as int].values@[0]@);
    match value_addr(st[k].values[0].as_slice()) {
        Some(x) => Ok(x),
        None => Err(CliErrorKind::InvalidValue),
    }
}

fn req_u8(st: &[OptSlot], k: usize) -> (res: Result<u8, CliErrorKind>)
    requires
        k < st@.len(),
        st@[k as int].seen ==> st@[k as int].values@.len() >= 1,
    ensures
        res == spec_req_u8(slots_view(st@), k as int),
{
    assert(slots_view(st@)[k as int] == (st@[k as int].seen, chars_view(st@[k as int].values@)));
    if !st[k].seen {
        return Err(CliErrorKind::MissingArgument);
    }
    assert(chars_view(st@[k as int].values@)[0] == st@[k as int].values@[0]@);
    match value_u8(st[k].values[0].as_slice()) {
        Some(x) => Ok(x),
        None => Err(CliErrorKind::InvalidValue),
    }
}

fn def_u8(st: &[OptSlot], k: usize, d: u8) -> (res: Result<u8, CliErrorKind>)
    requires
        k < st@.len(),
        st@[k as int].seen ==> st@[k as int].values@.len() >= 1,
    ensures
        res == spec_def_u8(slots_view(st@), k as int, d),
{
    assert(slots_view(st@)[k as int] == (st@[k as int].seen, chars_view(st@[k as int].values@)));
    if !st[k].seen {
        return Ok(d);
    }
    assert(chars_view(st@[k as int].values@)[0] == st@[k as int].values@[0]@);
    match value_u8(st[k].values[0].as_slice()) {
        Some(x) => Ok(x),
        None => Err(CliErrorKind::InvalidValue),
    }
}

fn req_u16(st: &[OptSlot], k: usize) -> (res: Result<u16, CliErrorKind>)
    requires
        k < st@.len(),
        st@[k as int].seen ==> st@[k as int].values@.len() >= 1,
    ensures
        res == spec_req_u16(slots_view(st@), k as int),
{
    assert(slots_view(st@)[k as int] == (st@[k as int].seen, chars_view(st@[k as int].values@)));
    if !st[k].seen {
        return Err(CliErrorKind::MissingArgument);
    }
    assert(chars_view(st@[k as int].values@)[0] == st@[k as int].values@[0]@);
    match value_u16(st[k].values[0].as_slice()) {
        Some(x) => Ok(x),
        None => Err(CliErrorKind::InvalidValue),
    }
}

fn def_u16(st: &[OptSlot], k: usize, d: u16) -> (res: Result<u16, CliErrorKind>)
    requires
        k < st@.len(),
        st@[k as int].seen ==> st@[k as int].values@.len() >= 1,
    ensures
        res == spec_def_u16(slots_view(st@), k as int, d),
{
    assert(slots_view(st@)[k as int] == (st@[k as int].seen, chars_view(st@[k as int].values@)));
    if !st[k].seen {
        return Ok(d);
    }
    assert(chars_view(st@[k as int].values@)[0] == st@[k as int].values@[0]@);
    match value_u16(st[k].values[0].as_slice()) {
        Some(x) => Ok(x),
        None => Err(CliErrorKind::InvalidValue),
    }
}

fn req_u32(st: &[OptSlot], k: usize) -> (res: Result<u32, CliErrorKind>)
    requires
        k < st@.len(),
        st@[k as int].seen ==> st@[k as int].values@.len() >= 1,
    ensures
        res == spec_req_u32(slots_view(st@), k as int),
{
    assert(slots_view(st@)[k as int] == (st@[k as int].seen, chars_view(st@[k as int].values@)));
    if !st[k].seen {
        return Err(CliErrorKind::MissingArgument);
    }
    assert(chars_view(st@[k as int].values@)[0] == st@[k as int].values@[0]@);
    match value_u32(st[k].values[0].as_slice()) {
        Some(x) => Ok(x),
        None => Err(CliErrorKind::InvalidValue),
    }
}

fn def_u32(st: &[OptSlot], k: usize, d: u32) -> (res: Result<u32, CliErrorKind>)
    requires
        k < st@.len(),
        st@[k as int].seen ==> st@[k as int].values@.len() >= 1,
    ensures
        res == spec_def_u32(slots_view(st@), k as int, d),
{
    assert(slots_view(st@)[k as int] == (st@[k as int].seen, chars_view(st@[k as int].values@)));
    if !st[k].seen {
        return Ok(d);
    }
    assert(chars_view(st@[k as int].values@)[0] == st@[k as int].values@[0]@);
    match value_u32(st[k].values[0].as_slice()) {
        Some(x) => Ok(x),
        None => Err(CliErrorKind::InvalidValue),
    }
}

fn req_usize(st: &[OptSlot], k: usize) -> (res: Result<usize, CliErrorKind>)
    requires
        k < st@.len(),
        st@[k as int].seen ==> st@[k as int].values@.len() >= 1,
    ensures
        res == spec_req_usize(slots_view(st@), k as int),
{
    assert(slots_view(st@)[k as int] == (st@[k as int].seen, chars_view(st@[k as int].values@)));
    if !st[k].seen {
        return Err(CliErrorKind::MissingArgument);
    }
    assert(chars_view(st@[k as int].values@)[0] == st@[k as int].values@[0]@);
    match value_usize(st[k].values[0].as_slice()) {
        Some(x) => Ok(x),
        None => Err(CliErrorKind::InvalidValue),
    }
}

fn def_usize(st: &[OptSlot], k: usize, d: usize) -> (res: Result<usize, CliErrorKind>)
    requires
        k < st@.len(),
        st@[k as int].seen ==> st@[k as int].values@.len() >= 1,
    ensures
        res == spec_def_usize(slots_view(st@), k as int, d),
{
    assert(slots_view(st@)[k as int] == (st@[k as int].seen, chars_view(st@[k as int].values@)));
    if !st[k].seen {
        return Ok(d);
    }
    assert(chars_view(st@[k as int].values@)[0] == st@[k as int].values@[0]@);
    match value_usize(st[k].values[0].as_slice()) {
        Some(x) => Ok(x),
        None => Err(CliErrorKind::InvalidValue),
    }
}

fn req_hex(st: &[OptSlot], k: usize) -> (res: Result<Vec<u8>, CliErrorKind>)
    requires
        k < st@.len(),
        st@[k as int].seen ==> st@[k as int].values@.len() >= 1,
    ensures
        match spec_req_hex(slots_view(st@), k as int) {
            Ok(b) => res matches Ok(x) && x@ == b,
            Err(e) => res == Err::<Vec<u8>, CliErrorKind>(e),
        },
{
    assert(slots_view(st@)[k as int] == (st@[k as int].seen, chars_view(st@[k as int].values@)));
    if !st[k].seen {
        return Err(CliErrorKind::MissingArgument);
    }
    assert(chars_view(st@[k as int].values@)[0] == st@[k as int].values@[0]@);
    match value_hex(st[k].values[0].as_slice()) {
        Some(x) => Ok(x),
        None => Err(CliErrorKind::InvalidValue),
    }
}

fn req_freq(st: &[OptSlot], k: usize) -> (res: Result<I2cFrequencyArg, CliErrorKind>)
    requires
        k < st@.len(),
        st@[k as int].seen ==> st@[k as int].values@.len() >= 1,
    ensures
        res == spec_req_freq(slots_view(st@), k as int),
{
    assert(slots_view(st@)[k as int] == (st@[k as int].seen, chars_view(st@[k as int].values@)));
    if !st[k].seen {
        return Err(CliErrorKind::MissingArgument);
    }
    assert(chars_view(st@[k as int].values@)[0] == st@[k as int].values@[0]@);
    match value_freq(st[k].values[0].as_slice()) {
        Some(x) => Ok(x),
        None => Err(CliErrorKind::InvalidValue),
    }
}

fn def_freq(st: &[OptSlot], k: usize, d: I2cFrequencyArg) -> (res: Result<I2cFrequencyArg, CliErrorKind>)
    requires
        k < st@.len(),
        st@[k as int].seen ==> st@[k as int].values@.len() >= 1,
    ensures
        res == spec_def_freq(slots_view(st@), k as int, d),
{
    assert(slots_view(st@)[k as int] == (st@[k as int].seen, chars_view(st@[k as int].values@)));
    if !st[k].seen {
        return Ok(d);
    }
    assert(chars_view(st@[k as int].values@)[0] == st@[k as int].values@[0]@);
    match value_freq(st[k].values[0].as_slice()) {
        Some(x) => Ok(x),
        None => Err(CliErrorKind::InvalidValue),
    }
}

fn req_dir(st: &[OptSlot], k: usize) -> (res: Result<GpioDirectionArg, CliErrorKind>)
    requires
        k < st@.len(),
        st@[k as int].seen ==> st@[k as int].values@.len() >= 1,
    ensures
        res == spec_req_dir(slots_view(st@), k as int),
{
    assert(slots_view(st@)[k as int] == (st@[k as int].seen, chars_view(st@[k as int].values@)));
    if !st[k].seen {
        return Err(CliErrorKind::MissingArgument);
    }
    assert(chars_view(st@[k as int].values@)[0] == st@[k as int].values@[0]@);
    match value_dir(st[k].values[0].as_slice()) {
        Some(x) => Ok(x),
        None => Err(CliErrorKind::InvalidValue),
    }
}

fn def_dir(st: &[OptSlot], k: usize, d: GpioDirectionArg) -> (res: Result<GpioDirectionArg, CliErrorKind>)
    requires
        k < st@.len(),
        st@[k as int].seen ==> st@[k as int].values@.len() >= 1,
    ensures
        res == spec_def_dir(slots_view(st@), k as int, d),
{
    assert(slots_view(st@)[k as int] == (st@[k as int].seen, chars_view(st@[k as int].values@)));
    if !st[k].seen {
        return Ok(d);
    }
    assert(chars_view(st@[k as int].values@)[0] == st@[k as int].values@[0]@);
    match value_dir(st[k].values[0].as_slice()) {
        Some(x) => Ok(x),
        None => Err(CliErrorKind::InvalidValue),
    }
}

fn req_pull(st: &[OptSlot], k: usize) -> (res: Result<GpioPullArg, CliErrorKind>)
    requires
        k < st@.len(),
        st@[k as int].seen ==> st@[k as int].values@.len() >= 1,
    ensures
        res == spec_req_pull(slots_view(st@), k as int),
{
    assert(slots_view(st@)[k as int] == (st@[k as int].seen, chars_view(st@[k as int].values@)));
    if !st[k].seen {
        return Err(CliErrorKind::MissingArgument);
    }
    assert(chars_view(st@[k as int].values@)[0] == st@[k as int].values@[0]@);
    match value_pull(st[k].values[0].as_slice()) {
        Some(x) => Ok(x),
        None => Err(CliErrorKind::InvalidValue),
    }
}

fn def_pull(st: &[OptSlot], k: usize, d: GpioPullArg) -> (res: Result<GpioPullArg, CliErrorKind>)
    requires
        k < st@.len(),
        st@[k as int].seen ==> st@[k as int].values@.len() >= 1,
    ensures
        res == spec_def_pull(slots_view(st@), k as int, d),
{
    assert(slots_view(st@)[k as int] == (st@[k as int].seen, chars_view(st@[k as int].values@)));
    if !st[k].seen {
        return Ok(d);
    }
    assert(chars_view(st@[k as int].values@)[0] == st@[k as int].values@[0]@);
    match value_pull(st[k].values[0].as_slice()) {
        Some(x) => Ok(x),
        None => Err(CliErrorKind::InvalidValue),
    }
}

fn req_edge(st: &[OptSlot], k: usize) -> (res: Result<GpioEdgeArg, CliErrorKind>)
    requires
        k < st@.len(),
        st@[k as int].seen ==> st@[k as int].values@.len() >= 1,
    ensures
        res == spec_req_edge(slots_view(st@), k as int),
{
    assert(slots_view(st@)[k as int] == (st@[k as int].seen, chars_view(st@[k as int].values@)));
    if !st[k].seen {
        return Err(CliErrorKind::MissingArgument);
    }
    assert(chars_view(st@[k as int].values@)[0] == st@[k as int].values@[0]@);
    match value_edge(st[k].values[0].as_slice()) {
        Some(x) => Ok(x),
        None => Err(CliErrorKind::InvalidValue),
    }
}

fn def_edge(st: &[OptSlot], k: usize, d: GpioEdgeArg) -> (res: Result<GpioEdgeArg, CliErrorKind>)
    requires
        k < st@.len(),
        st@[k as int].seen ==> st@[k as int].values@.len() >= 1,
    ensures
        res == spec_def_edge(slots_view(st@), k as int, d),
{
    assert(slots_view(st@)[k as int] == (st@[k as int].seen, chars_view(st@[k as int].values@)));
    if !st[k].seen {
        return Ok(d);
    }
    assert(chars_view(st@[k as int].values@)[0] == st@[k as int].values@[0]@);
    match value_edge(st[k].values[0].as_slice()) {
        Some(x) => Ok(x),
        None => Err(CliErrorKind::InvalidValue),
    }
}

fn req_format(st: &[OptSlot], k: usize) -> (res: Result<OutputFormat, CliErrorKind>)
    requires
        k < st@.len(),
        st@[k as int].seen ==> st@[k as int].values@.len() >= 1,
    ensures
        res == spec_req_format(slots_view(st@), k as int),
{
    assert(slots_view(st@)[k as int] == (st@[k as int].seen, chars_view(st@[k as int].values@)));
    if !st[k].seen {
        return Err(CliErrorKind::MissingArgument);
    }
    assert(chars_view(st@[k as int].values@)[0] == st@[k as int].values@[0]@);
    match value_format(st[k].values[0].as_slice()) {
        Some(x) => Ok(x),
        None => Err(CliErrorKind::InvalidValue),
    }
}

fn def_format(st: &[OptSlot], k: usize, d: OutputFormat) -> (res: Result<OutputFormat, CliErrorKind>)
    requires
        k < st@.len(),
        st@[k as int].seen ==> st@[k as int].values@.len() >= 1,
    ensures
        res == spec_def_format(slots_view(st@), k as int, d),
{
    assert(slots_view(st@)[k as int] == (st@[k as int].seen, chars_view(st@[k as int].values@)));
    if !st[k].seen {
        return Ok(d);
    }
    assert(chars_view(st@[k as int].values@)[0] == st@[k as int].values@[0]@);
    match value_format(st[k].values[0].as_slice()) {
        Some(x) => Ok(x),
        None => Err(CliErrorKind::InvalidValue),
    }
}

fn multi_bytes(st: &[OptSlot], k: usize) -> (res: Result<Vec<u8>, CliErrorKind>)
    requires
        k < st@.len(),
    ensures
        match spec_multi_bytes(slots_view(st@), k as int) {
            Ok(b) => res matches Ok(x) && x@ == b,
            Err(e) => res == Err::<Vec<u8>, CliErrorKind>(e),
        },
{
    let vals = &st[k].values;
    let ghost vs = chars_view(vals@);
    assert(slots_view(st@)[k as int].1 == vs);
    let mut out: Vec<u8> = Vec::new();
    let mut i: usize = 0;
    while i < vals.len()
        invariant
            i <= vals@.len(),
            vs == chars_view(vals@),
            slots_view(st@)[k as int].1 == vs,
            spec_val_bytes(vs.take(i as int)) == Some(out@),
        decreases vals@.len() - i,
    {
        assert(vs.take(i + 1).drop_last() =~= vs.take(i as int));
        assert(vs.take(i + 1).last() == vals@[i as int]@);
        match parse_byte_chars(vals[i].as_slice()) {
            Ok(b) => {
                out.push(b);
            },
            Err(_) => {
                proof {
                    assert(spec_val_bytes(vs.take(i + 1)) is None);
                    lemma_val_bytes_none_sticks(vs, (i + 1) as nat);
                }
                return Err(CliErrorKind::InvalidValue);
            },
        }
        i = i + 1;
    }
    assert(vs.take(i as int) =~= vs);
    Ok(out)
}

proof fn lemma_val_bytes_none_sticks(vs: Seq<Seq<char>>, k: nat)
    requires
        k <= vs.len(),
        spec_val_bytes(vs.take(k as int)) is None,
    ensures
        spec_val_bytes(vs) is None,
    decreases vs.len() - k,
{
    if k < vs.len() {
        assert(vs.take(k + 1 as int).drop_last() =~= vs.take(k as int));
        lemma_val_bytes_none_sticks(vs, k + 1);
    } else {
        assert(vs.take(k as int) =~= vs);
    }
}

fn req_strs(st: &[OptSlot], k: usize) -> (res: Result<Vec<String>, CliErrorKind>)
    requires
        k < st@.len(),
    ensures
        match spec_req_strs(slots_view(st@), k as int) {
            Ok(v) => res matches Ok(x) && strings_view(x@) == v,
            Err(e) => res == Err::<Vec<String>, CliErrorKind>(e),
        },
{
    assert(slots_view(st@)[k as int] == (st@[k as int].seen, chars_view(st@[k as int].values@)));
    if !st[k].seen {
        return Err(CliErrorKind::MissingArgument);
    }
    let vals = &st[k].values;
    let mut out: Vec<String> = Vec::new();
    let mut i: usize = 0;
    while i < vals.len()
        invariant
            i <= vals@.len(),
            out@.len() == i,
            strings_view(out@) == chars_view(vals@).take(i as int),
        decreases vals@.len() - i,
    {
        let s = string_of(vals[i].as_slice());
        proof {
            assert(chars_view(vals@)[i as int] == vals@[i as int]@);
            assert forall|j: int| 0 <= j < i + 1 implies strings_view(out@.push(s))[j] == chars_view(vals@).take(i + 1)[j] by {
                if j < i {
                    assert(out@.push(s)[j] == out@[j]);
                    assert(strings_view(out@)[j] == chars_view(vals@).take(i as int)[j]);
                }
            }
            assert(strings_view(out@.push(s)) =~= chars_view(vals@).take(i + 1));
        }
        out.push(s);
        i = i + 1;
    }
    assert(chars_view(vals@).take(i as int) =~= chars_view(vals@));
    Ok(out)
}

/// The options each command declares.
pub open spec fn spec_leaf_table(leaf: Leaf) -> Seq<DeclView> {
    match leaf {
        Leaf::List => Seq::empty(),
        Leaf::Version => Seq::empty(),
        Leaf::I2cScan => seq![(Some('r'), "reserved"@, OptKind::Flag)],
        Leaf::I2cRead => seq![(Some('a'), "address"@, OptKind::Single), (Some('c'), "count"@, OptKind::Single)],
        Leaf::I2cWrite => seq![(Some('a'), "address"@, OptKind::Single), (Some('b'), "bytes"@, OptKind::Multi)],
        Leaf::I2cWriteRead => seq![(Some('a'), "address"@, OptKind::Single), (Some('b'), "bytes"@, OptKind::Multi), (Some('c'), "count"@, OptKind::Single)],
        Leaf::I2cSetConfig => seq![(None::<char>, "frequency"@, OptKind::Single)],
        Leaf::I2cGetConfig => Seq::empty(),
        Leaf::I2cBatch => seq![(Some('a'), "address"@, OptKind::Single), (None::<char>, "op"@, OptKind::Multi)],
        Leaf::SpiRead => seq![(Some('c'), "count"@, OptKind::Single)],
        Leaf::SpiWrite => seq![(Some('b'), "bytes"@, OptKind::Multi)],
        Leaf::SpiTransfer => seq![(Some('b'), "bytes"@, OptKind::Multi)],
        Leaf::SpiWriteRead => seq![(Some('c'), "count"@, OptKind::Single), (Some('b'), "bytes"@, OptKind::Multi)],
        Leaf::SpiSetConfig => seq![(None::<char>, "frequency"@, OptKind::Single), (None::<char>, "first-transition"@, OptKind::Flag), (None::<char>, "idle-low"@, OptKind::Flag)],
        Leaf::SpiGetConfig => Seq::empty(),
        Leaf::SpiBatch => seq![(None::<char>, "cs"@, OptKind::Single), (None::<char>, "op"@, OptKind::Multi)],
        Leaf::GpioGet => seq![(Some('p'), "pin"@, OptKind::Single)],
        Leaf::GpioPut => seq![(Some('p'), "pin"@, OptKind::Single), (Some('h'), "high"@, OptKind::Flag)],
        Leaf::GpioSetConfig => seq![(Some('p'), "pin"@, OptKind::Single), (Some('d'), "direction"@, OptKind::Single), (None::<char>, "pull"@, OptKind::Single)],
        Leaf::GpioMonitor => seq![(Some('p'), "pin"@, OptKind::Single), (Some('e'), "edge"@, OptKind::Single)],
        Leaf::UartRead => seq![(Some('c'), "count"@, OptKind::Single), (Some('t'), "timeout"@, OptKind::Single)],
        Leaf::UartWrite => seq![(Some('b'), "bytes"@, OptKind::Multi)],
        Leaf::UartFlush => Seq::empty(),
        Leaf::UartSetConfig => seq![(None::<char>, "baud-rate"@, OptKind::Single)],
        Leaf::UartGetConfig => Seq::empty(),
        Leaf::PwmSetDuty => seq![(Some('c'), "channel"@, OptKind::Single), (Some('d'), "duty"@, OptKind::Single)],
        Leaf::PwmGetDuty => seq![(Some('c'), "channel"@, OptKind::Single)],
        Leaf::PwmEnable => seq![(Some('c'), "channel"@, OptKind::Single)],
        Leaf::PwmDisable => seq![(Some('c'), "channel"@, OptKind::Single)],
        Leaf::PwmSetConfig => seq![(Some('c'), "channel"@, OptKind::Single), (Some('f'), "frequency"@, OptKind::Single), (Some('p'), "phase-correct"@, OptKind::Flag)],
        Leaf::PwmGetConfig => seq![(Some('c'), "channel"@, OptKind::Single)],
        Leaf::AdcRead => seq![(Some('c'), "channel"@, OptKind::Single)],
        Leaf::AdcInfo => Seq::empty(),
        Leaf::OneWireReset => Seq::empty(),
        Leaf::OneWireRead => seq![(Some('l'), "len"@, OptKind::Single)],
        Leaf::OneWireWrite => seq![(Some('d'), "data"@, OptKind::Single)],
        Leaf::OneWireWritePullup => seq![(Some('d'), "data"@, OptKind::Single), (Some('t'), "duration"@, OptKind::Single)],
        Leaf::OneWireSearch => Seq::empty(),
    }
}

/// The options a command declares.
pub fn leaf_table(leaf: Leaf) -> (res: Vec<OptDecl>)
    ensures
        decls_view(res@) == spec_leaf_table(leaf),
{
    let mut t: Vec<OptDecl> = Vec::new();
    match leaf {
        Leaf::I2cScan => {
            t.push(OptDecl { short: Some('r'), long: chars_of("reserved"), kind: OptKind::Flag });
        },
        Leaf::I2cRead => {
            t.push(OptDecl { short: Some('a'), long: chars_of("address"), kind: OptKind::Single });
            t.push(OptDecl { short: Some('c'), long: chars_of("count"), kind: OptKind::Single });
        },
        Leaf::I2cWrite => {
            t.push(OptDecl { short: Some('a'), long: chars_of("address"), kind: OptKind::Single });
            t.push(OptDecl { short: Some('b'), long: chars_of("bytes"), kind: OptKind::Multi });
        },
        Leaf::I2cWriteRead => {
            t.push(OptDecl { short: Some('a'), long: chars_of("address"), kind: OptKind::Single });
            t.push(OptDecl { short: Some('b'), long: chars_of("bytes"), kind: OptKind::Multi });
            t.push(OptDecl { short: Some('c'), long: chars_of("count"), kind: OptKind::Single });
        },
        Leaf::I2cSetConfig => {
            t.push(OptDecl { short: None, long: chars_of("frequency"), kind: OptKind::Single });
        },
        Leaf::I2cBatch => {
            t.push(OptDecl { short: Some('a'), long: chars_of("address"), kind: OptKind::Single });
            t.push(OptDecl { short: None, long: chars_of("op"), kind: OptKind::Multi });
        },
        Leaf::SpiRead => {
            t.push(OptDecl { short: Some('c'), long: chars_of("count"), kind: OptKind::Single });
        },
        Leaf::SpiWrite => {
            t.push(OptDecl { short: Some('b'), long: chars_of("bytes"), kind: OptKind::Multi });
        },
        Leaf::SpiTransfer => {
            t.push(OptDecl { short: Some('b'), long: chars_of("bytes"), kind: OptKind::Multi });
        },
        Leaf::SpiWriteRead => {
            t.push(OptDecl { short: Some('c'), long: chars_of("count"), kind: OptKind::Single });
            t.push(OptDecl { short: Some('b'), long: chars_of("bytes"), kind: OptKind::Multi });
        },
        Leaf::SpiSetConfig => {
            t.push(OptDecl { short: None, long: chars_of("frequency"), kind: OptKind::Single });
            t.push(OptDecl { short: None, long: chars_of("first-transition"), kind: OptKind::Flag });
            t.push(OptDecl { short: None, long: chars_of("idle-low"), kind: OptKind::Flag });
        },
        Leaf::SpiBatch => {
            t.push(OptDecl { short: None, long: chars_of("cs"), kind: OptKind::Single });
            t.push(OptDecl { short: None, long: chars_of("op"), kind: OptKind::Multi });
        },
        Leaf::GpioGet => {
            t.push(OptDecl { short: Some('p'), long: chars_of("pin"), kind: OptKind::Single });
        },
        Leaf::GpioPut => {
            t.push(OptDecl { short: Some('p'), long: chars_of("pin"), kind: OptKind::Single });
            t.push(OptDecl { short: Some('h'), long: chars_of("high"), kind: OptKind::Flag });
        },
        Leaf::GpioSetConfig => {
            t.push(OptDecl { short: Some('p'), long: chars_of("pin"), kind: OptKind::Single });
            t.push(OptDecl { short: Some('d'), long: chars_of("direction"), kind: OptKind::Single });
            t.push(OptDecl { short: None, long: chars_of("pull"), kind: OptKind::Single });
        },
        Leaf::GpioMonitor => {
            t.push(OptDecl { short: Some('p'), long: chars_of("pin"), kind: OptKind::Single });
            t.push(OptDecl { short: Some('e'), long: chars_of("edge"), kind: OptKind::Single });
        },
        Leaf::UartRead => {
            t.push(OptDecl { short: Some('c'), long: chars_of("count"), kind: OptKind::Single });
            t.push(OptDecl { short: Some('t'), long: chars_of("timeout"), kind: OptKind::Single });
        },
        Leaf::UartWrite => {
            t.push(OptDecl { short: Some('b'), long: chars_of("bytes"), kind: OptKind::Multi });
        },
        Leaf::UartSetConfig => {
            t.push(OptDecl { short: None, long: chars_of("baud-rate"), kind: OptKind::Single });
        },
        Leaf::PwmSetDuty => {
            t.push(OptDecl { short: Some('c'), long: chars_of("channel"), kind: OptKind::Single });
            t.push(OptDecl { short: Some('d'), long: chars_of("duty"), kind: OptKind::Single });
        },
        Leaf::PwmGetDuty => {
            t.push(OptDecl { short: Some('c'), long: chars_of("channel"), kind: OptKind::Single });
        },
        Leaf::PwmEnable => {
            t.push(OptDecl { short: Some('c'), long: chars_of("channel"), kind: OptKind::Single });
        },
        Leaf::PwmDisable => {
            t.push(OptDecl { short: Some('c'), long: chars_of("channel"), kind: OptKind::Single });
        },
        Leaf::PwmSetConfig => {
            t.push(OptDecl { short: Some('c'), long: chars_of("channel"), kind: OptKind::Single });
            t.push(OptDecl { short: Some('f'), long: chars_of("frequency"), kind: OptKind::Single });
            t.push(OptDecl { short: Some('p'), long: chars_of("phase-correct"), kind: OptKind::Flag });
        },
        Leaf::PwmGetConfig => {
            t.push(OptDecl { short: Some('c'), long: chars_of("channel"), kind: OptKind::Single });
        },
        Leaf::AdcRead => {
            t.push(OptDecl { short: Some('c'), long: chars_of("channel"), kind: OptKind::Single });
        },
        Leaf::OneWireRead => {
            t.push(OptDecl { short: Some('l'), long: chars_of("len"), kind: OptKind::Single });
        },
        Leaf::OneWireWrite => {
            t.push(OptDecl { short: Some('d'), long: chars_of("data"), kind: OptKind::Single });
        },
        Leaf::OneWireWritePullup => {
            t.push(OptDecl { short: Some('d'), long: chars_of("data"), kind: OptKind::Single });
            t.push(OptDecl { short: Some('t'), long: chars_of("duration"), kind: OptKind::Single });
        },
        _ => {},
    }
    assert(decls_view(t@) =~= spec_leaf_table(leaf));
    t
}

/// The command a scanned command line gives: the values of its options,
/// or the first missing or invalid one.
pub open spec fn spec_build(leaf: Leaf, st: Seq<SlotView>) -> Result<CommandModel, CliErrorKind> {
    match leaf {
        Leaf::List => Ok(CommandModel::List),
        Leaf::Version => Ok(CommandModel::Version),
        Leaf::I2cScan => match Ok::<bool, CliErrorKind>(st[0].0) { Err(e) => Err(e), Ok(x0) => Ok(CommandModel::I2cScan { reserved: x0 }) },
        Leaf::I2cRead => match spec_req_addr(st, 0) { Err(e) => Err(e), Ok(x0) => match spec_req_usize(st, 1) { Err(e) => Err(e), Ok(x1) => Ok(CommandModel::I2cRead { address: x0, count: x1 }) } },
        Leaf::I2cWrite => match spec_req_addr(st, 0) { Err(e) => Err(e), Ok(x0) => match spec_multi_bytes(st, 1) { Err(e) => Err(e), Ok(x1) => Ok(CommandModel::I2cWrite { address: x0, bytes: x1 }) } },
        Leaf::I2cWriteRead => match spec_req_addr(st, 0) { Err(e) => Err(e), Ok(x0) => match spec_multi_bytes(st, 1) { Err(e) => Err(e), Ok(x1) => match spec_req_usize(st, 2) { Err(e) => Err(e), Ok(x2) => Ok(CommandModel::I2cWriteRead { address: x0, bytes: x1, count: x2 }) } } },
        Leaf::I2cSetConfig => match spec_req_freq(st, 0) { Err(e) => Err(e), Ok(x0) => Ok(CommandModel::I2cSetConfig { frequency: x0 }) },
        Leaf::I2cGetConfig => Ok(CommandModel::I2cGetConfig),
        Leaf::I2cBatch => match spec_req_addr(st, 0) { Err(e) => Err(e), Ok(x0) => match spec_req_strs(st, 1) { Err(e) => Err(e), Ok(x1) => Ok(CommandModel::I2cBatch { address: x0, op: x1 }) } },
        Leaf::SpiRead => match spec_req_usize(st, 0) { Err(e) => Err(e), Ok(x0) => Ok(CommandModel::SpiRead { count: x0 }) },
        Leaf::SpiWrite => match spec_multi_bytes(st, 0) { Err(e) => Err(e), Ok(x0) => Ok(CommandModel::SpiWrite { bytes: x0 }) },
        Leaf::SpiTransfer => match spec_multi_bytes(st, 0) { Err(e) => Err(e), Ok(x0) => Ok(CommandModel::SpiTransfer { bytes: x0 }) },
        Leaf::SpiWriteRead => match spec_req_usize(st, 0) { Err(e) => Err(e), Ok(x0) => match spec_multi_bytes(st, 1) { Err(e) => Err(e), Ok(x1) => Ok(CommandModel::SpiWriteRead { count: x0, bytes: x1 }) } },
        Leaf::SpiSetConfig => match spec_req_u32(st, 0) { Err(e) => Err(e), Ok(x0) => match Ok::<bool, CliErrorKind>(st[1].0) { Err(e) => Err(e), Ok(x1) => match Ok::<bool, CliErrorKind>(st[2].0) { Err(e) => Err(e), Ok(x2) => Ok(CommandModel::SpiSetConfig { frequency: x0, first_transition: x1, idle_low: x2 }) } } },
        Leaf::SpiGetConfig => Ok(CommandModel::SpiGetConfig),
        Leaf::SpiBatch => match spec_req_u8(st, 0) { Err(e) => Err(e), Ok(x0) => match spec_req_strs(st, 1) { Err(e) => Err(e), Ok(x1) => Ok(CommandModel::SpiBatch { cs: x0, op: x1 }) } },
        Leaf::GpioGet => match spec_req_u8(st, 0) { Err(e) => Err(e), Ok(x0) => Ok(CommandModel::GpioGet { pin: x0 }) },
        Leaf::GpioPut => match spec_req_u8(st, 0) { Err(e) => Err(e), Ok(x0) => match Ok::<bool, CliErrorKind>(st[1].0) { Err(e) => Err(e), Ok(x1) => Ok(CommandModel::GpioPut { pin: x0, high: x1 }) } },
        Leaf::GpioSetConfig => match spec_req_u8(st, 0) { Err(e) => Err(e), Ok(x0) => match spec_req_dir(st, 1) { Err(e) => Err(e), Ok(x1) => match spec_def_pull(st, 2, GpioPullArg::NoPull) { Err(e) => Err(e), Ok(x2) => Ok(CommandModel::GpioSetConfig { pin: x0, direction: x1, pull: x2 }) } } },
        Leaf::GpioMonitor => match spec_req_u8(st, 0) { Err(e) => Err(e), Ok(x0) => match spec_def_edge(st, 1, GpioEdgeArg::Any) { Err(e) => Err(e), Ok(x1) => Ok(CommandModel::GpioMonitor { pin: x0, edge: x1 }) } },
        Leaf::UartRead => match spec_req_u16(st, 0) { Err(e) => Err(e), Ok(x0) => match spec_def_u32(st, 1, 1000) { Err(e) => Err(e), Ok(x1) => Ok(CommandModel::UartRead { count: x0, timeout: x1 }) } },
        Leaf::UartWrite => match spec_multi_bytes(st, 0) { Err(e) => Err(e), Ok(x0) => Ok(CommandModel::UartWrite { bytes: x0 }) },
        Leaf::UartFlush => Ok(CommandModel::UartFlush),
        Leaf::UartSetConfig => match spec_req_u32(st, 0) { Err(e) => Err(e), Ok(x0) => Ok(CommandModel::UartSetConfig { baud_rate: x0 }) },
        Leaf::UartGetConfig => Ok(CommandModel::UartGetConfig),
        Leaf::PwmSetDuty => match spec_req_u8(st, 0) { Err(e) => Err(e), Ok(x0) => match spec_req_u16(st, 1) { Err(e) => Err(e), Ok(x1) => Ok(CommandModel::PwmSetDuty { channel: x0, duty: x1 }) } },
        Leaf::PwmGetDuty => match spec_req_u8(st, 0) { Err(e) => Err(e), Ok(x0) => Ok(CommandModel::PwmGetDuty { channel: x0 }) },
        Leaf::PwmEnable => match spec_req_u8(st, 0) { Err(e) => Err(e), Ok(x0) => Ok(CommandModel::PwmEnable { channel: x0 }) },
        Leaf::PwmDisable => match spec_req_u8(st, 0) { Err(e) => Err(e), Ok(x0) => Ok(CommandModel::PwmDisable { channel: x0 }) },
        Leaf::PwmSetConfig => match spec_req_u8(st, 0) { Err(e) => Err(e), Ok(x0) => match spec_req_u32(st, 1) { Err(e) => Err(e), Ok(x1) => match Ok::<bool, CliErrorKind>(st[2].0) { Err(e) => Err(e), Ok(x2) => Ok(CommandModel::PwmSetConfig { channel: x0, frequency: x1, phase_correct: x2 }) } } },
        Leaf::PwmGetConfig => match spec_req_u8(st, 0) { Err(e) => Err(e), Ok(x0) => Ok(CommandModel::PwmGetConfig { channel: x0 }) },
        Leaf::AdcRead => match spec_req_u8(st, 0) { Err(e) => Err(e), Ok(x0) => Ok(CommandModel::AdcRead { channel: x0 }) },
        Leaf::AdcInfo => Ok(CommandModel::AdcInfo),
        Leaf::OneWireReset => Ok(CommandModel::OneWireReset),
        Leaf::OneWireRead => match spec_req_u16(st, 0) { Err(e) => Err(e), Ok(x0) => Ok(CommandModel::OneWireRead { len: x0 }) },
        Leaf::OneWireWrite => match spec_req_hex(st, 0) { Err(e) => Err(e), Ok(x0) => Ok(CommandModel::OneWireWrite { data: x0 }) },
        Leaf::OneWireWritePullup => match spec_req_hex(st, 0) { Err(e) => Err(e), Ok(x0) => match spec_def_u16(st, 1, 750) { Err(e) => Err(e), Ok(x1) => Ok(CommandModel::OneWireWritePullup { data: x0, duration: x1 }) } },
        Leaf::OneWireSearch => Ok(CommandModel::OneWireSearch),
    }
}

fn build_list(st: &[OptSlot]) -> (res: Result<Commands, CliErrorKind>)
    requires
        forall|k: int| 0 <= k < st@.len() && st@[k].seen && spec_leaf_table(Leaf::List)[k].2 == OptKind::Single ==> st@[k].values@.len() >= 1,
        st@.len() == spec_leaf_table(Leaf::List).len(),
    ensures
        match spec_build(Leaf::List, slots_view(st@)) {
            Ok(m) => res matches Ok(c) && c@ == m,
            Err(e) => res == Err::<Commands, CliErrorKind>(e),
        },
{
    Ok(Commands::List)
}

fn build_version(st: &[OptSlot]) -> (res: Result<Commands, CliErrorKind>)
    requires
        forall|k: int| 0 <= k < st@.len() && st@[k].seen && spec_leaf_table(Leaf::Version)[k].2 == OptKind::Single ==> st@[k].values@.len() >= 1,
        st@.len() == spec_leaf_table(Leaf::Version).len(),
    ensures
        match spec_build(Leaf::Version, slots_view(st@)) {
            Ok(m) => res matches Ok(c) && c@ == m,
            Err(e) => res == Err::<Commands, CliErrorKind>(e),
        },
{
    Ok(Commands::Version)
}

fn build_i2c_scan(st: &[OptSlot]) -> (res: Result<Commands, CliErrorKind>)
    requires
        forall|k: int| 0 <= k < st@.len() && st@[k].seen && spec_leaf_table(Leaf::I2cScan)[k].2 == OptKind::Single ==> st@[k].values@.len() >= 1,
        st@.len() == spec_leaf_table(Leaf::I2cScan).len(),
    ensures
        match spec_build(Leaf::I2cScan, slots_view(st@)) {
            Ok(m) => res matches Ok(c) && c@ == m,
            Err(e) => res == Err::<Commands, CliErrorKind>(e),
        },
{
    let x0 = match Ok::<bool, CliErrorKind>(st[0].seen) {
        Ok(x) => x,
        Err(e) => {
            return Err(e);
        },
    };
    Ok(Commands::I2c { command: I2cCommands::Scan { reserved: x0 } })
}

fn build_i2c_read(st: &[OptSlot]) -> (res: Result<Commands, CliErrorKind>)
    requires
        forall|k: int| 0 <= k < st@.len() && st@[k].seen && spec_leaf_table(Leaf::I2cRead)[k].2 == OptKind::Single ==> st@[k].values@.len() >= 1,
        st@.len() == spec_leaf_table(Leaf::I2cRead).len(),
    ensures
        match spec_build(Leaf::I2cRead, slots_view(st@)) {
            Ok(m) => res matches Ok(c) && c@ == m,
            Err(e) => res == Err::<Commands, CliErrorKind>(e),
        },
{
    let x0 = match req_addr(st, 0) {
        Ok(x) => x,
        Err(e) => {
            return Err(e);
        },
    };
    let x1 = match req_usize(st, 1) {
        Ok(x) => x,
        Err(e) => {
            return Err(e);
        },
    };
    Ok(Commands::I2c { command: I2cCommands::Read { address: x0, count: x1 } })
}

fn build_i2c_write(st: &[OptSlot]) -> (res: Result<Commands, CliErrorKind>)
    requires
        forall|k: int| 0 <= k < st@.len() && st@[k].seen && spec_leaf_table(Leaf::I2cWrite)[k].2 == OptKind::Single ==> st@[k].values@.len() >= 1,
        st@.len() == spec_leaf_table(Leaf::I2cWrite).len(),
    ensures
        match spec_build(Leaf::I2cWrite, slots_view(st@)) {
            Ok(m) => res matches Ok(c) && c@ == m,
            Err(e) => res == Err::<Commands, CliErrorKind>(e),
        },
{
    let x0 = match req_addr(st, 0) {
        Ok(x) => x,
        Err(e) => {
            return Err(e);
        },
    };
    let x1 = match multi_bytes(st, 1) {
        Ok(x) => x,
        Err(e) => {
            return Err(e);
        },
    };
    Ok(Commands::I2c { command: I2cCommands::Write { address: x0, bytes: x1 } })
}

fn build_i2c_write_read(st: &[OptSlot]) -> (res: Result<Commands, CliErrorKind>)
    requires
        forall|k: int| 0 <= k < st@.len() && st@[k].seen && spec_leaf_table(Leaf::I2cWriteRead)[k].2 == OptKind::Single ==> st@[k].values@.len() >= 1,
        st@.len() == spec_leaf_table(Leaf::I2cWriteRead).len(),
    ensures
        match spec_build(Leaf::I2cWriteRead, slots_view(st@)) {
            Ok(m) => res matches Ok(c) && c@ == m,
            Err(e) => res == Err::<Commands, CliErrorKind>(e),
        },
{
    let x0 = match req_addr(st, 0) {
        Ok(x) => x,
        Err(e) => {
            return Err(e);
        },
    };
    let x1 = match multi_bytes(st, 1) {
        Ok(x) => x,
        Err(e) => {
            return Err(e);
        },
    };
    let x2 = match req_usize(st, 2) {
        Ok(x) => x,
        Err(e) => {
            return Err(e);
        },
    };
    Ok(Commands::I2c { command: I2cCommands::WriteRead { address: x0, bytes: x1, count: x2 } })
}

fn build_i2c_set_config(st: &[OptSlot]) -> (res: Result<Commands, CliErrorKind>)
    requires
        forall|k: int| 0 <= k < st@.len() && st@[k].seen && spec_leaf_table(Leaf::I2cSetConfig)[k].2 == OptKind::Single ==> st@[k].values@.len() >= 1,
        st@.len() == spec_leaf_table(Leaf::I2cSetConfig).len(),
    ensures
        match spec_build(Leaf::I2cSetConfig, slots_view(st@)) {
            Ok(m) => res matches Ok(c) && c@ == m,
            Err(e) => res == Err::<Commands, CliErrorKind>(e),
        },
{
    let x0 = match req_freq(st, 0) {
        Ok(x) => x,
        Err(e) => {
            return Err(e);
        },
    };
    Ok(Commands::I2c { command: I2cCommands::SetConfig { frequency: x0 } })
}

fn build_i2c_get_config(st: &[OptSlot]) -> (res: Result<Commands, CliErrorKind>)
    requires
        forall|k: int| 0 <= k < st@.len() && st@[k].seen && spec_leaf_table(Leaf::I2cGetConfig)[k].2 == OptKind::Single ==> st@[k].values@.len() >= 1,
        st@.len() == spec_leaf_table(Leaf::I2cGetConfig).len(),
    ensures
        match spec_build(Leaf::I2cGetConfig, slots_view(st@)) {
            Ok(m) => res matches Ok(c) && c@ == m,
            Err(e) => res == Err::<Commands, CliErrorKind>(e),
        },
{
    Ok(Commands::I2c { command: I2cCommands::GetConfig })
}

fn build_i2c_batch(st: &[OptSlot]) -> (res: Result<Commands, CliErrorKind>)
    requires
        forall|k: int| 0 <= k < st@.len() && st@[k].seen && spec_leaf_table(Leaf::I2cBatch)[k].2 == OptKind::Single ==> st@[k].values@.len() >= 1,
        st@.len() == spec_leaf_table(Leaf::I2cBatch).len(),
    ensures
        match spec_build(Leaf::I2cBatch, slots_view(st@)) {
            Ok(m) => res matches Ok(c) && c@ == m,
            Err(e) => res == Err::<Commands, CliErrorKind>(e),
        },
{
    let x0 = match req_addr(st, 0) {
        Ok(x) => x,
        Err(e) => {
            return Err(e);
        },
    };
    let x1 = match req_strs(st, 1) {
        Ok(x) => x,
        Err(e) => {
            return Err(e);
        },
    };
    Ok(Commands::I2c { command: I2cCommands::Batch { address: x0, op: x1 } })
}

fn build_spi_read(st: &[OptSlot]) -> (res: Result<Commands, CliErrorKind>)
    requires
        forall|k: int| 0 <= k < st@.len() && st@[k].seen && spec_leaf_table(Leaf::SpiRead)[k].2 == OptKind::Single ==> st@[k].values@.len() >= 1,
        st@.len() == spec_leaf_table(Leaf::SpiRead).len(),
    ensures
        match spec_build(Leaf::SpiRead, slots_view(st@)) {
            Ok(m) => res matches Ok(c) && c@ == m,
            Err(e) => res == Err::<Commands, CliErrorKind>(e),
        },
{
    let x0 = match req_usize(st, 0) {
        Ok(x) => x,
        Err(e) => {
            return Err(e);
        },
    };
    Ok(Commands::Spi { command: SpiCommands::Read { count: x0 } })
}

fn build_spi_write(st: &[OptSlot]) -> (res: Result<Commands, CliErrorKind>)
    requires
        forall|k: int| 0 <= k < st@.len() && st@[k].seen && spec_leaf_table(Leaf::SpiWrite)[k].2 == OptKind::Single ==> st@[k].values@.len() >= 1,
        st@.len() == spec_leaf_table(Leaf::SpiWrite).len(),
    ensures
        match spec_build(Leaf::SpiWrite, slots_view(st@)) {
            Ok(m) => res matches Ok(c) && c@ == m,
            Err(e) => res == Err::<Commands, CliErrorKind>(e),
        },
{
    let x0 = match multi_bytes(st, 0) {
        Ok(x) => x,
        Err(e) => {
            return Err(e);
        },
    };
    Ok(Commands::Spi { command: SpiCommands::Write { bytes: x0 } })
}

fn build_spi_transfer(st: &[OptSlot]) -> (res: Result<Commands, CliErrorKind>)
    requires
        forall|k: int| 0 <= k < st@.len() && st@[k].seen && spec_leaf_table(Leaf::SpiTransfer)[k].2 == OptKind::Single ==> st@[k].values@.len() >= 1,
        st@.len() == spec_leaf_table(Leaf::SpiTransfer).len(),
    ensures
        match spec_build(Leaf::SpiTransfer, slots_view(st@)) {
            Ok(m) => res matches Ok(c) && c@ == m,
            Err(e) => res == Err::<Commands, CliErrorKind>(e),
        },
{
    let x0 = match multi_bytes(st, 0) {
        Ok(x) => x,
        Err(e) => {
            return Err(e);
        },
    };
    Ok(Commands::Spi { command: SpiCommands::Transfer { bytes: x0 } })
}

fn build_spi_write_read(st: &[OptSlot]) -> (res: Result<Commands, CliErrorKind>)
    requires
        forall|k: int| 0 <= k < st@.len() && st@[k].seen && spec_leaf_table(Leaf::SpiWriteRead)[k].2 == OptKind::Single ==> st@[k].values@.len() >= 1,
        st@.len() == spec_leaf_table(Leaf::SpiWriteRead).len(),
    ensures
        match spec_build(Leaf::SpiWriteRead, slots_view(st@)) {
            Ok(m) => res matches Ok(c) && c@ == m,
            Err(e) => res == Err::<Commands, CliErrorKind>(e),
        },
{
    let x0 = match req_usize(st, 0) {
        Ok(x) => x,
        Err(e) => {
            return Err(e);
        },
    };
    let x1 = match multi_bytes(st, 1) {
        Ok(x) => x,
        Err(e) => {
            return Err(e);
        },
    };
    Ok(Commands::Spi { command: SpiCommands::WriteRead { count: x0, bytes: x1 } })
}

fn build_spi_set_config(st: &[OptSlot]) -> (res: Result<Commands, CliErrorKind>)
    requires
        forall|k: int| 0 <= k < st@.len() && st@[k].seen && spec_leaf_table(Leaf::SpiSetConfig)[k].2 == OptKind::Single ==> st@[k].values@.len() >= 1,
        st@.len() == spec_leaf_table(Leaf::SpiSetConfig).len(),
    ensures
        match spec_build(Leaf::SpiSetConfig, slots_view(st@)) {
            Ok(m) => res matches Ok(c) && c@ == m,
            Err(e) => res == Err::<Commands, CliErrorKind>(e),
        },
{
    let x0 = match req_u32(st, 0) {
        Ok(x) => x,
        Err(e) => {
            return Err(e);
        },
    };
    let x1 = match Ok::<bool, CliErrorKind>(st[1].seen) {
        Ok(x) => x,
        Err(e) => {
            return Err(e);
        },
    };
    let x2 = match Ok::<bool, CliErrorKind>(st[2].seen) {
        Ok(x) => x,
        Err(e) => {
            return Err(e);
        },
    };
    Ok(Commands::Spi { command: SpiCommands::SetConfig { frequency: x0, first_transition: x1, idle_low: x2 } })
}

fn build_spi_get_config(st: &[OptSlot]) -> (res: Result<Commands, CliErrorKind>)
    requires
        forall|k: int| 0 <= k < st@.len() && st@[k].seen && spec_leaf_table(Leaf::SpiGetConfig)[k].2 == OptKind::Single ==> st@[k].values@.len() >= 1,
        st@.len() == spec_leaf_table(Leaf::SpiGetConfig).len(),
    ensures
        match spec_build(Leaf::SpiGetConfig, slots_view(st@)) {
            Ok(m) => res matches Ok(c) && c@ == m,
            Err(e) => res == Err::<Commands, CliErrorKind>(e),
        },
{
    Ok(Commands::Spi { command: SpiCommands::GetConfig })
}

fn build_spi_batch(st: &[OptSlot]) -> (res: Result<Commands, CliErrorKind>)
    requires
        forall|k: int| 0 <= k < st@.len() && st@[k].seen && spec_leaf_table(Leaf::SpiBatch)[k].2 == OptKind::Single ==> st@[k].values@.len() >= 1,
        st@.len() == spec_leaf_table(Leaf::SpiBatch).len(),
    ensures
        match spec_build(Leaf::SpiBatch, slots_view(st@)) {
            Ok(m) => res matches Ok(c) && c@ == m,
            Err(e) => res == Err::<Commands, CliErrorKind>(e),
        },
{
    let x0 = match req_u8(st, 0) {
        Ok(x) => x,
        Err(e) => {
            return Err(e);
        },
    };
    let x1 = match req_strs(st, 1) {
        Ok(x) => x,
        Err(e) => {
            return Err(e);
        },
    };
    Ok(Commands::Spi { command: SpiCommands::Batch { cs: x0, op: x1 } })
}

fn build_gpio_get(st: &[OptSlot]) -> (res: Result<Commands, CliErrorKind>)
    requires
        forall|k: int| 0 <= k < st@.len() && st@[k].seen && spec_leaf_table(Leaf::GpioGet)[k].2 == OptKind::Single ==> st@[k].values@.len() >= 1,
        st@.len() == spec_leaf_table(Leaf::GpioGet).len(),
    ensures
        match spec_build(Leaf::GpioGet, slots_view(st@)) {
            Ok(m) => res matches Ok(c) && c@ == m,
            Err(e) => res == Err::<Commands, CliErrorKind>(e),
        },
{
    let x0 = match req_u8(st, 0) {
        Ok(x) => x,
        Err(e) => {
            return Err(e);
        },
    };
    Ok(Commands::Gpio { command: GpioCommands::Get { pin: x0 } })
}

fn build_gpio_put(st: &[OptSlot]) -> (res: Result<Commands, CliErrorKind>)
    requires
        forall|k: int| 0 <= k < st@.len() && st@[k].seen && spec_leaf_table(Leaf::GpioPut)[k].2 == OptKind::Single ==> st@[k].values@.len() >= 1,
        st@.len() == spec_leaf_table(Leaf::GpioPut).len(),
    ensures
        match spec_build(Leaf::GpioPut, slots_view(st@)) {
            Ok(m) => res matches Ok(c) && c@ == m,
            Err(e) => res == Err::<Commands, CliErrorKind>(e),
        },
{
    let x0 = match req_u8(st, 0) {
        Ok(x) => x,
        Err(e) => {
            return Err(e);
        },
    };
    let x1 = match Ok::<bool, CliErrorKind>(st[1].seen) {
        Ok(x) => x,
        Err(e) => {
            return Err(e);
        },
    };
    Ok(Commands::Gpio { command: GpioCommands::Put { pin: x0, high: x1 } })
}

fn build_gpio_set_config(st: &[OptSlot]) -> (res: Result<Commands, CliErrorKind>)
    requires
        forall|k: int| 0 <= k < st@.len() && st@[k].seen && spec_leaf_table(Leaf::GpioSetConfig)[k].2 == OptKind::Single ==> st@[k].values@.len() >= 1,
        st@.len() == spec_leaf_table(Leaf::GpioSetConfig).len(),
    ensures
        match spec_build(Leaf::GpioSetConfig, slots_view(st@)) {
            Ok(m) => res matches Ok(c) && c@ == m,
            Err(e) => res == Err::<Commands, CliErrorKind>(e),
        },
{
    let x0 = match req_u8(st, 0) {
        Ok(x) => x,
        Err(e) => {
            return Err(e);
        },
    };
    let x1 = match req_dir(st, 1) {
        Ok(x) => x,
        Err(e) => {
            return Err(e);
        },
    };
    let x2 = match def_pull(st, 2, GpioPullArg::NoPull) {
        Ok(x) => x,
        Err(e) => {
            return Err(e);
        },
    };
    Ok(Commands::Gpio { command: GpioCommands::SetConfig { pin: x0, direction: x1, pull: x2 } })
}

fn build_gpio_monitor(st: &[OptSlot]) -> (res: Result<Commands, CliErrorKind>)
    requires
        forall|k: int| 0 <= k < st@.len() && st@[k].seen && spec_leaf_table(Leaf::GpioMonitor)[k].2 == OptKind::Single ==> st@[k].values@.len() >= 1,
        st@.len() == spec_leaf_table(Leaf::GpioMonitor).len(),
    ensures
        match spec_build(Leaf::GpioMonitor, slots_view(st@)) {
            Ok(m) => res matches Ok(c) && c@ == m,
            Err(e) => res == Err::<Commands, CliErrorKind>(e),
        },
{
    let x0 = match req_u8(st, 0) {
        Ok(x) => x,
        Err(e) => {
            return Err(e);
        },
    };
    let x1 = match def_edge(st, 1, GpioEdgeArg::Any) {
        Ok(x) => x,
        Err(e) => {
            return Err(e);
        },
    };
    Ok(Commands::Gpio { command: GpioCommands::Monitor { pin: x0, edge: x1 } })
}

fn build_uart_read(st: &[OptSlot]) -> (res: Result<Commands, CliErrorKind>)
    requires
        forall|k: int| 0 <= k < st@.len() && st@[k].seen && spec_leaf_table(Leaf::UartRead)[k].2 == OptKind::Single ==> st@[k].values@.len() >= 1,
        st@.len() == spec_leaf_table(Leaf::UartRead).len(),
    ensures
        match spec_build(Leaf::UartRead, slots_view(st@)) {
            Ok(m) => res matches Ok(c) && c@ == m,
            Err(e) => res == Err::<Commands, CliErrorKind>(e),
        },
{
    let x0 = match req_u16(st, 0) {
        Ok(x) => x,
        Err(e) => {
            return Err(e);
        },
    };
    let x1 = match def_u32(st, 1, 1000) {
        Ok(x) => x,
        Err(e) => {
            return Err(e);
        },
    };
    Ok(Commands::Uart { command: UartCommands::Read { count: x0, timeout: x1 } })
}

fn build_uart_write(st: &[OptSlot]) -> (res: Result<Commands, CliErrorKind>)
    requires
        forall|k: int| 0 <= k < st@.len() && st@[k].seen && spec_leaf_table(Leaf::UartWrite)[k].2 == OptKind::Single ==> st@[k].values@.len() >= 1,
        st@.len() == spec_leaf_table(Leaf::UartWrite).len(),
    ensures
        match spec_build(Leaf::UartWrite, slots_view(st@)) {
            Ok(m) => res matches Ok(c) && c@ == m,
            Err(e) => res == Err::<Commands, CliErrorKind>(e),
        },
{
    let x0 = match multi_bytes(st, 0) {
        Ok(x) => x,
        Err(e) => {
            return Err(e);
        },
    };
    Ok(Commands::Uart { command: UartCommands::Write { bytes: x0 } })
}

fn build_uart_flush(st: &[OptSlot]) -> (res: Result<Commands, CliErrorKind>)
    requires
        forall|k: int| 0 <= k < st@.len() && st@[k].seen && spec_leaf_table(Leaf::UartFlush)[k].2 == OptKind::Single ==> st@[k].values@.len() >= 1,
        st@.len() == spec_leaf_table(Leaf::UartFlush).len(),
    ensures
        match spec_build(Leaf::UartFlush, slots_view(st@)) {
            Ok(m) => res matches Ok(c) && c@ == m,
            Err(e) => res == Err::<Commands, CliErrorKind>(e),
        },
{
    Ok(Commands::Uart { command: UartCommands::Flush })
}

fn build_uart_set_config(st: &[OptSlot]) -> (res: Result<Commands, CliErrorKind>)
    requires
        forall|k: int| 0 <= k < st@.len() && st@[k].seen && spec_leaf_table(Leaf::UartSetConfig)[k].2 == OptKind::Single ==> st@[k].values@.len() >= 1,
        st@.len() == spec_leaf_table(Leaf::UartSetConfig).len(),
    ensures
        match spec_build(Leaf::UartSetConfig, slots_view(st@)) {
            Ok(m) => res matches Ok(c) && c@ == m,
            Err(e) => res == Err::<Commands, CliErrorKind>(e),
        },
{
    let x0 = match req_u32(st, 0) {
        Ok(x) => x,
        Err(e) => {
            return Err(e);
        },
    };
    Ok(Commands::Uart { command: UartCommands::SetConfig { baud_rate: x0 } })
}

fn build_uart_get_config(st: &[OptSlot]) -> (res: Result<Commands, CliErrorKind>)
    requires
        forall|k: int| 0 <= k < st@.len() && st@[k].seen && spec_leaf_table(Leaf::UartGetConfig)[k].2 == OptKind::Single ==> st@[k].values@.len() >= 1,
        st@.len() == spec_leaf_table(Leaf::UartGetConfig).len(),
    ensures
        match spec_build(Leaf::UartGetConfig, slots_view(st@)) {
            Ok(m) => res matches Ok(c) && c@ == m,
            Err(e) => res == Err::<Commands, CliErrorKind>(e),
        },
{
    Ok(Commands::Uart { command: UartCommands::GetConfig })
}

fn build_pwm_set_duty(st: &[OptSlot]) -> (res: Result<Commands, CliErrorKind>)
    requires
        forall|k: int| 0 <= k < st@.len() && st@[k].seen && spec_leaf_table(Leaf::PwmSetDuty)[k].2 == OptKind::Single ==> st@[k].values@.len() >= 1,
        st@.len() == spec_leaf_table(Leaf::PwmSetDuty).len(),
    ensures
        match spec_build(Leaf::PwmSetDuty, slots_view(st@)) {
            Ok(m) => res matches Ok(c) && c@ == m,
            Err(e) => res == Err::<Commands, CliErrorKind>(e),
        },
{
    let x0 = match req_u8(st, 0) {
        Ok(x) => x,
        Err(e) => {
            return Err(e);
        },
    };
    let x1 = match req_u16(st, 1) {
        Ok(x) => x,
        Err(e) => {
            return Err(e);
        },
    };
    Ok(Commands::Pwm { command: PwmCommands::SetDuty { channel: x0, duty: x1 } })
}

fn build_pwm_get_duty(st: &[OptSlot]) -> (res: Result<Commands, CliErrorKind>)
    requires
        forall|k: int| 0 <= k < st@.len() && st@[k].seen && spec_leaf_table(Leaf::PwmGetDuty)[k].2 == OptKind::Single ==> st@[k].values@.len() >= 1,
        st@.len() == spec_leaf_table(Leaf::PwmGetDuty).len(),
    ensures
        match spec_build(Leaf::PwmGetDuty, slots_view(st@)) {
            Ok(m) => res matches Ok(c) && c@ == m,
            Err(e) => res == Err::<Commands, CliErrorKind>(e),
        },
{
    let x0 = match req_u8(st, 0) {
        Ok(x) => x,
        Err(e) => {
            return Err(e);
        },
    };
    Ok(Commands::Pwm { command: PwmCommands::GetDuty { channel: x0 } })
}

fn build_pwm_enable(st: &[OptSlot]) -> (res: Result<Commands, CliErrorKind>)
    requires
        forall|k: int| 0 <= k < st@.len() && st@[k].seen && spec_leaf_table(Leaf::PwmEnable)[k].2 == OptKind::Single ==> st@[k].values@.len() >= 1,
        st@.len() == spec_leaf_table(Leaf::PwmEnable).len(),
    ensures
        match spec_build(Leaf::PwmEnable, slots_view(st@)) {
            Ok(m) => res matches Ok(c) && c@ == m,
            Err(e) => res == Err::<Commands, CliErrorKind>(e),
        },
{
    let x0 = match req_u8(st, 0) {
        Ok(x) => x,
        Err(e) => {
            return Err(e);
        },
    };
    Ok(Commands::Pwm { command: PwmCommands::Enable { channel: x0 } })
}

fn build_pwm_disable(st: &[OptSlot]) -> (res: Result<Commands, CliErrorKind>)
    requires
        forall|k: int| 0 <= k < st@.len() && st@[k].seen && spec_leaf_table(Leaf::PwmDisable)[k].2 == OptKind::Single ==> st@[k].values@.len() >= 1,
        st@.len() == spec_leaf_table(Leaf::PwmDisable).len(),
    ensures
        match spec_build(Leaf::PwmDisable, slots_view(st@)) {
            Ok(m) => res matches Ok(c) && c@ == m,
            Err(e) => res == Err::<Commands, CliErrorKind>(e),
        },
{
    let x0 = match req_u8(st, 0) {
        Ok(x) => x,
        Err(e) => {
            return Err(e);
        },
    };
    Ok(Commands::Pwm { command: PwmCommands::Disable { channel: x0 } })
}

fn build_pwm_set_config(st: &[OptSlot]) -> (res: Result<Commands, CliErrorKind>)
    requires
        forall|k: int| 0 <= k < st@.len() && st@[k].seen && spec_leaf_table(Leaf::PwmSetConfig)[k].2 == OptKind::Single ==> st@[k].values@.len() >= 1,
        st@.len() == spec_leaf_table(Leaf::PwmSetConfig).len(),
    ensures
        match spec_build(Leaf::PwmSetConfig, slots_view(st@)) {
            Ok(m) => res matches Ok(c) && c@ == m,
            Err(e) => res == Err::<Commands, CliErrorKind>(e),
        },
{
    let x0 = match req_u8(st, 0) {
        Ok(x) => x,
        Err(e) => {
            return Err(e);
        },
    };
    let x1 = match req_u32(st, 1) {
        Ok(x) => x,
        Err(e) => {
            return Err(e);
        },
    };
    let x2 = match Ok::<bool, CliErrorKind>(st[2].seen) {
        Ok(x) => x,
        Err(e) => {
            return Err(e);
        },
    };
    Ok(Commands::Pwm { command: PwmCommands::SetConfig { channel: x0, frequency: x1, phase_correct: x2 } })
}

fn build_pwm_get_config(st: &[OptSlot]) -> (res: Result<Commands, CliErrorKind>)
    requires
        forall|k: int| 0 <= k < st@.len() && st@[k].seen && spec_leaf_table(Leaf::PwmGetConfig)[k].2 == OptKind::Single ==> st@[k].values@.len() >= 1,
        st@.len() == spec_leaf_table(Leaf::PwmGetConfig).len(),
    ensures
        match spec_build(Leaf::PwmGetConfig, slots_view(st@)) {
            Ok(m) => res matches Ok(c) && c@ == m,
            Err(e) => res == Err::<Commands, CliErrorKind>(e),
        },
{
    let x0 = match req_u8(st, 0) {
        Ok(x) => x,
        Err(e) => {
            return Err(e);
        },
    };
    Ok(Commands::Pwm { command: PwmCommands::GetConfig { channel: x0 } })
}

fn build_adc_read(st: &[OptSlot]) -> (res: Result<Commands, CliErrorKind>)
    requires
        forall|k: int| 0 <= k < st@.len() && st@[k].seen && spec_leaf_table(Leaf::AdcRead)[k].2 == OptKind::Single ==> st@[k].values@.len() >= 1,
        st@.len() == spec_leaf_table(Leaf::AdcRead).len(),
    ensures
        match spec_build(Leaf::AdcRead, slots_view(st@)) {
            Ok(m) => res matches Ok(c) && c@ == m,
            Err(e) => res == Err::<Commands, CliErrorKind>(e),
        },
{
    let x0 = match req_u8(st, 0) {
        Ok(x) => x,
        Err(e) => {
            return Err(e);
        },
    };
    Ok(Commands::Adc { command: AdcCommands::Read { channel: x0 } })
}

fn build_adc_info(st: &[OptSlot]) -> (res: Result<Commands, CliErrorKind>)
    requires
        forall|k: int| 0 <= k < st@.len() && st@[k].seen && spec_leaf_table(Leaf::AdcInfo)[k].2 == OptKind::Single ==> st@[k].values@.len() >= 1,
        st@.len() == spec_leaf_table(Leaf::AdcInfo).len(),
    ensures
        match spec_build(Leaf::AdcInfo, slots_view(st@)) {
            Ok(m) => res matches Ok(c) && c@ == m,
            Err(e) => res == Err::<Commands, CliErrorKind>(e),
        },
{
    Ok(Commands::Adc { command: AdcCommands::Info })
}

fn build_one_wire_reset(st: &[OptSlot]) -> (res: Result<Commands, CliErrorKind>)
    requires
        forall|k: int| 0 <= k < st@.len() && st@[k].seen && spec_leaf_table(Leaf::OneWireReset)[k].2 == OptKind::Single ==> st@[k].values@.len() >= 1,
        st@.len() == spec_leaf_table(Leaf::OneWireReset).len(),
    ensures
        match spec_build(Leaf::OneWireReset, slots_view(st@)) {
            Ok(m) => res matches Ok(c) && c@ == m,
            Err(e) => res == Err::<Commands, CliErrorKind>(e),
        },
{
    Ok(Commands::OneWire { command: OneWireCommands::Reset })
}

fn build_one_wire_read(st: &[OptSlot]) -> (res: Result<Commands, CliErrorKind>)
    requires
        forall|k: int| 0 <= k < st@.len() && st@[k].seen && spec_leaf_table(Leaf::OneWireRead)[k].2 == OptKind::Single ==> st@[k].values@.len() >= 1,
        st@.len() == spec_leaf_table(Leaf::OneWireRead).len(),
    ensures
        match spec_build(Leaf::OneWireRead, slots_view(st@)) {
            Ok(m) => res matches Ok(c) && c@ == m,
            Err(e) => res == Err::<Commands, CliErrorKind>(e),
        },
{
    let x0 = match req_u16(st, 0) {
        Ok(x) => x,
        Err(e) => {
            return Err(e);
        },
    };
    Ok(Commands::OneWire { command: OneWireCommands::Read { len: x0 } })
}

fn build_one_wire_write(st: &[OptSlot]) -> (res: Result<Commands, CliErrorKind>)
    requires
        forall|k: int| 0 <= k < st@.len() && st@[k].seen && spec_leaf_table(Leaf::OneWireWrite)[k].2 == OptKind::Single ==> st@[k].values@.len() >= 1,
        st@.len() == spec_leaf_table(Leaf::OneWireWrite).len(),
    ensures
        match spec_build(Leaf::OneWireWrite, slots_view(st@)) {
            Ok(m) => res matches Ok(c) && c@ == m,
            Err(e) => res == Err::<Commands, CliErrorKind>(e),
        },
{
    let x0 = match req_hex(st, 0) {
        Ok(x) => x,
        Err(e) => {
            return Err(e);
        },
    };
    Ok(Commands::OneWire { command: OneWireCommands::Write { data: x0 } })
}

fn build_one_wire_write_pullup(st: &[OptSlot]) -> (res: Result<Commands, CliErrorKind>)
    requires
        forall|k: int| 0 <= k < st@.len() && st@[k].seen && spec_leaf_table(Leaf::OneWireWritePullup)[k].2 == OptKind::Single ==> st@[k].values@.len() >= 1,
        st@.len() == spec_leaf_table(Leaf::OneWireWritePullup).len(),
    ensures
        match spec_build(Leaf::OneWireWritePullup, slots_view(st@)) {
            Ok(m) => res matches Ok(c) && c@ == m,
            Err(e) => res == Err::<Commands, CliErrorKind>(e),
        },
{
    let x0 = match req_hex(st, 0) {
        Ok(x) => x,
        Err(e) => {
            return Err(e);
        },
    };
    let x1 = match def_u16(st, 1, 750) {
        Ok(x) => x,
        Err(e) => {
            return Err(e);
        },
    };
    Ok(Commands::OneWire { command: OneWireCommands::WritePullup { data: x0, duration: x1 } })
}

fn build_one_wire_search(st: &[OptSlot]) -> (res: Result<Commands, CliErrorKind>)
    requires
        forall|k: int| 0 <= k < st@.len() && st@[k].seen && spec_leaf_table(Leaf::OneWireSearch)[k].2 == OptKind::Single ==> st@[k].values@.len() >= 1,
        st@.len() == spec_leaf_table(Leaf::OneWireSearch).len(),
    ensures
        match spec_build(Leaf::OneWireSearch, slots_view(st@)) {
            Ok(m) => res matches Ok(c) && c@ == m,
            Err(e) => res == Err::<Commands, CliErrorKind>(e),
        },
{
    Ok(Commands::OneWire { command: OneWireCommands::Search })
}

/// Builds the command from the scanned options of `leaf`.
pub fn build(leaf: Leaf, st: &[OptSlot]) -> (res: Result<Commands, CliErrorKind>)
    requires
        slots_wf(slots_view(st@), spec_leaf_table(leaf)),
    ensures
        match spec_build(leaf, slots_view(st@)) {
            Ok(m) => res matches Ok(c) && c@ == m,
            Err(e) => res == Err::<Commands, CliErrorKind>(e),
        },
{
    proof {
        assert forall|k: int| 0 <= k < st@.len() && st@[k].seen && spec_leaf_table(leaf)[k].2 == OptKind::Single implies st@[k].values@.len() >= 1 by {
            assert(slots_view(st@)[k] == (st@[k].seen, chars_view(st@[k].values@)));
        }
    }
    match leaf {
        Leaf::List => build_list(st),
        Leaf::Version => build_version(st),
        Leaf::I2cScan => build_i2c_scan(st),
        Leaf::I2cRead => build_i2c_read(st),
        Leaf::I2cWrite => build_i2c_write(st),
        Leaf::I2cWriteRead => build_i2c_write_read(st),
        Leaf::I2cSetConfig => build_i2c_set_config(st),
        Leaf::I2cGetConfig => build_i2c_get_config(st),
        Leaf::I2cBatch => build_i2c_batch(st),
        Leaf::SpiRead => build_spi_read(st),
        Leaf::SpiWrite => build_spi_write(st),
        Leaf::SpiTransfer => build_spi_transfer(st),
        Leaf::SpiWriteRead => build_spi_write_read(st),
        Leaf::SpiSetConfig => build_spi_set_config(st),
        Leaf::SpiGetConfig => build_spi_get_config(st),
        Leaf::SpiBatch => build_spi_batch(st),
        Leaf::GpioGet => build_gpio_get(st),
        Leaf::GpioPut => build_gpio_put(st),
        Leaf::GpioSetConfig => build_gpio_set_config(st),
        Leaf::GpioMonitor => build_gpio_monitor(st),
        Leaf::UartRead => build_uart_read(st),
        Leaf::UartWrite => build_uart_write(st),
        Leaf::UartFlush => build_uart_flush(st),
        Leaf::UartSetConfig => build_uart_set_config(st),
        Leaf::UartGetConfig => build_uart_get_config(st),
        Leaf::PwmSetDuty => build_pwm_set_duty(st),
        Leaf::PwmGetDuty => build_pwm_get_duty(st),
        Leaf::PwmEnable => build_pwm_enable(st),
        Leaf::PwmDisable => build_pwm_disable(st),
        Leaf::PwmSetConfig => build_pwm_set_config(st),
        Leaf::PwmGetConfig => build_pwm_get_config(st),
        Leaf::AdcRead => build_adc_read(st),
        Leaf::AdcInfo => build_adc_info(st),
        Leaf::OneWireReset => build_one_wire_reset(st),
        Leaf::OneWireRead => build_one_wire_read(st),
        Leaf::OneWireWrite => build_one_wire_write(st),
        Leaf::OneWireWritePullup => build_one_wire_write_pullup(st),
        Leaf::OneWireSearch => build_one_wire_search(st),
    }
}

/// The command a group and subcommand name select.
pub open spec fn spec_leaf_of(group: Seq<char>, name: Seq<char>) -> Option<Leaf> {
    if group == "i2c"@ {
        if name == "scan"@ {
            Some(Leaf::I2cScan)
        } else if name == "read"@ {
            Some(Leaf::I2cRead)
        } else if name == "write"@ {
            Some(Leaf::I2cWrite)
        } else if name == "write-read"@ {
            Some(Leaf::I2cWriteRead)
        } else if name == "set-config"@ {
            Some(Leaf::I2cSetConfig)
        } else if name == "get-config"@ {
            Some(Leaf::I2cGetConfig)
        } else if name == "batch"@ {
            Some(Leaf::I2cBatch)
        } else {
            None
        }
    } else if group == "spi"@ {
        if name == "read"@ {
            Some(Leaf::SpiRead)
        } else if name == "write"@ {
            Some(Leaf::SpiWrite)
        } else if name == "transfer"@ {
            Some(Leaf::SpiTransfer)
        } else if name == "write-read"@ {
            Some(Leaf::SpiWriteRead)
        } else if name == "set-config"@ {
            Some(Leaf::SpiSetConfig)
        } else if name == "get-config"@ {
            Some(Leaf::SpiGetConfig)
        } else if name == "batch"@ {
            Some(Leaf::SpiBatch)
        } else {
            None
        }
    } else if group == "gpio"@ {
        if name == "get"@ {
            Some(Leaf::GpioGet)
        } else if name == "put"@ {
            Some(Leaf::GpioPut)
        } else if name == "set-config"@ {
            Some(Leaf::GpioSetConfig)
        } else if name == "monitor"@ {
            Some(Leaf::GpioMonitor)
        } else {
            None
        }
    } else if group == "uart"@ {
        if name == "read"@ {
            Some(Leaf::UartRead)
        } else if name == "write"@ {
            Some(Leaf::UartWrite)
        } else if name == "flush"@ {
            Some(Leaf::UartFlush)
        } else if name == "set-config"@ {
            Some(Leaf::UartSetConfig)
        } else if name == "get-config"@ {
            Some(Leaf::UartGetConfig)
        } else {
            None
        }
    } else if group == "pwm"@ {
        if name == "set-duty"@ {
            Some(Leaf::PwmSetDuty)
        } else if name == "get-duty"@ {
            Some(Leaf::PwmGetDuty)
        } else if name == "enable"@ {
            Some(Leaf::PwmEnable)
        } else if name == "disable"@ {
            Some(Leaf::PwmDisable)
        } else if name == "set-config"@ {
            Some(Leaf::PwmSetConfig)
        } else if name == "get-config"@ {
            Some(Leaf::PwmGetConfig)
        } else {
            None
        }
    } else if group == "adc"@ {
        if name == "read"@ {
            Some(Leaf::AdcRead)
        } else if name == "info"@ {
            Some(Leaf::AdcInfo)
        } else {
            None
        }
    } else if group == "onewire"@ {
        if name == "reset"@ {
            Some(Leaf::OneWireReset)
        } else if name == "read"@ {
            Some(Leaf::OneWireRead)
        } else if name == "write"@ {
            Some(Leaf::OneWireWrite)
        } else if name == "write-pullup"@ {
            Some(Leaf::OneWireWritePullup)
        } else if name == "search"@ {
            Some(Leaf::OneWireSearch)
        } else {
            None
        }
    } else {
        None
    }
}

/// Whether a command name is one of the groups.
pub open spec fn spec_is_group(name: Seq<char>) -> bool {
    name == "i2c"@ || name == "spi"@ || name == "gpio"@ || name == "uart"@ || name == "pwm"@ || name == "adc"@ || name == "onewire"@
}

fn is_group(name: &[char]) -> (res: bool)
    ensures
        res == spec_is_group(name@),
{
    is_lit(name, "i2c") || is_lit(name, "spi") || is_lit(name, "gpio") || is_lit(name, "uart") || is_lit(name, "pwm") || is_lit(name, "adc") || is_lit(name, "onewire")
}

fn leaf_of(group: &[char], name: &[char]) -> (res: Option<Leaf>)
    ensures
        res == spec_leaf_of(group@, name@),
{
    if is_lit(group, "i2c") {
        if is_lit(name, "scan") {
            Some(Leaf::I2cScan)
        } else if is_lit(name, "read") {
            Some(Leaf::I2cRead)
        } else if is_lit(name, "write") {
            Some(Leaf::I2cWrite)
        } else if is_lit(name, "write-read") {
            Some(Leaf::I2cWriteRead)
        } else if is_lit(name, "set-config") {
            Some(Leaf::I2cSetConfig)
        } else if is_lit(name, "get-config") {
            Some(Leaf::I2cGetConfig)
        } else if is_lit(name, "batch") {
            Some(Leaf::I2cBatch)
        } else {
            None
        }
    } else if is_lit(group, "spi") {
        if is_lit(name, "read") {
            Some(Leaf::SpiRead)
        } else if is_lit(name, "write") {
            Some(Leaf::SpiWrite)
        } else if is_lit(name, "transfer") {
            Some(Leaf::SpiTransfer)
        } else if is_lit(name, "write-read") {
            Some(Leaf::SpiWriteRead)
        } else if is_lit(name, "set-config") {
            Some(Leaf::SpiSetConfig)
        } else if is_lit(name, "get-config") {
            Some(Leaf::SpiGetConfig)
        } else if is_lit(name, "batch") {
            Some(Leaf::SpiBatch)
        } else {
            None
        }
    } else if is_lit(group, "gpio") {
        if is_lit(name, "get") {
            Some(Leaf::GpioGet)
        } else if is_lit(name, "put") {
            Some(Leaf::GpioPut)
        } else if is_lit(name, "set-config") {
            Some(Leaf::GpioSetConfig)
        } else if is_lit(name, "monitor") {
            Some(Leaf::GpioMonitor)
        } else {
            None
        }
    } else if is_lit(group, "uart") {
        if is_lit(name, "read") {
            Some(Leaf::UartRead)
        } else if is_lit(name, "write") {
            Some(Leaf::UartWrite)
        } else if is_lit(name, "flush") {
            Some(Leaf::UartFlush)
        } else if is_lit(name, "set-config") {
            Some(Leaf::UartSetConfig)
        } else if is_lit(name, "get-config") {
            Some(Leaf::UartGetConfig)
        } else {
            None
        }
    } else if is_lit(group, "pwm") {
        if is_lit(name, "set-duty") {
            Some(Leaf::PwmSetDuty)
        } else if is_lit(name, "get-duty") {
            Some(Leaf::PwmGetDuty)
        } else if is_lit(name, "enable") {
            Some(Leaf::PwmEnable)
        } else if is_lit(name, "disable") {
            Some(Leaf::PwmDisable)
        } else if is_lit(name, "set-config") {
            Some(Leaf::PwmSetConfig)
        } else if is_lit(name, "get-config") {
            Some(Leaf::PwmGetConfig)
        } else {
            None
        }
    } else if is_lit(group, "adc") {
        if is_lit(name, "read") {
            Some(Leaf::AdcRead)
        } else if is_lit(name, "info") {
            Some(Leaf::AdcInfo)
        } else {
            None
        }
    } else if is_lit(group, "onewire") {
        if is_lit(name, "reset") {
            Some(Leaf::OneWireReset)
        } else if is_lit(name, "read") {
            Some(Leaf::OneWireRead)
        } else if is_lit(name, "write") {
            Some(Leaf::OneWireWrite)
        } else if is_lit(name, "write-pullup") {
            Some(Leaf::OneWireWritePullup)
        } else if is_lit(name, "search") {
            Some(Leaf::OneWireSearch)
        } else {
            None
        }
    } else {
        None
    }
}

/// A parsed command line, as plain values.
pub struct CliModel {
    /// The serial number asked for.
    pub serial_number: Option<Seq<char>>,
    /// The output format.
    pub format: OutputFormat,
    /// The command.
    pub command: CommandModel,
}

impl View for Cli {
    type V = CliModel;

    open spec fn view(&self) -> CliModel {
        CliModel {
            serial_number: match self.serial_number {
                Some(s) => Some(s@),
                None => None,
            },
            format: self.format,
            command: self.command@,
        }
    }
}

/// The options that come before the command.
pub open spec fn spec_global_table() -> Seq<DeclView> {
    seq![(Some('s'), "serial-number"@, OptKind::Single), (Some('f'), "format"@, OptKind::Single)]
}

/// Reads the options of a command from token `start` on and builds it.
pub open spec fn spec_run_leaf(toks: Seq<Seq<char>>, start: nat, leaf: Leaf) -> Result<CommandModel, CliErrorKind> {
    let table = spec_leaf_table(leaf);
    match spec_scan(toks, start, table, spec_empty_slots(table.len()), false) {
        Err(e) => Err(e),
        Ok((st, _)) => spec_build(leaf, st),
    }
}

/// The command that starts at token `p`, which names it.
pub open spec fn spec_parse_command(toks: Seq<Seq<char>>, p: nat) -> Result<CommandModel, CliErrorKind> {
    let name = toks[p as int];
    if name == "help"@ {
        Err(CliErrorKind::DisplayHelp)
    } else if name == "list"@ {
        spec_run_leaf(toks, p + 1, Leaf::List)
    } else if name == "version"@ {
        spec_run_leaf(toks, p + 1, Leaf::Version)
    } else if spec_is_group(name) {
        if p + 1 >= toks.len() {
            Err(CliErrorKind::MissingSubcommand)
        } else {
            let sub = toks[p + 1 as int];
            if sub == "help"@ || sub == "-h"@ || sub == "--help"@ {
                Err(CliErrorKind::DisplayHelp)
            } else if crate::scan::spec_optionlike(sub) {
                Err(CliErrorKind::UnexpectedArgument)
            } else {
                match spec_leaf_of(name, sub) {
                    None => Err(CliErrorKind::UnknownSubcommand),
                    Some(leaf) => spec_run_leaf(toks, p + 2, leaf),
                }
            }
        }
    } else {
        Err(CliErrorKind::UnknownSubcommand)
    }
}

/// The meaning of a command line whose first argument is the program name:
/// nothing at all asks for help; the global options, then the command.
pub open spec fn spec_parse_cli(args: Seq<Seq<char>>) -> Result<CliModel, CliErrorKind> {
    let toks = if args.len() == 0 {
        args
    } else {
        args.drop_first()
    };
    if toks.len() == 0 {
        Err(CliErrorKind::DisplayHelp)
    } else {
        match spec_scan(toks, 0, spec_global_table(), spec_empty_slots(2), true) {
            Err(e) => Err(e),
            Ok((gst, p)) => match spec_def_format(gst, 1, OutputFormat::Hex) {
                Err(e) => Err(e),
                Ok(format) => if p >= toks.len() {
                    Err(CliErrorKind::MissingSubcommand)
                } else {
                    match spec_parse_command(toks, p) {
                        Err(e) => Err(e),
                        Ok(command) => Ok(
                            CliModel {
                                serial_number: if gst[0].0 {
                                    Some(gst[0].1[0])
                                } else {
                                    None
                                },
                                format,
                                command,
                            },
                        ),
                    }
                },
            },
        }
    }
}

fn run_leaf(toks: &[Vec<char>], start: usize, leaf: Leaf) -> (res: Result<Commands, CliErrorKind>)
    requires
        start <= toks@.len(),
    ensures
        match spec_run_leaf(chars_view(toks@), start as nat, leaf) {
            Ok(m) => res matches Ok(c) && c@ == m,
            Err(e) => res == Err::<Commands, CliErrorKind>(e),
        },
{
    let table = leaf_table(leaf);
    proof {
        assert(slots_wf(spec_empty_slots(table@.len()), decls_view(table@)));
        lemma_scan_wf(chars_view(toks@), start as nat, decls_view(table@), spec_empty_slots(table@.len()), false);
    }
    match scan(toks, start, table.as_slice(), false) {
        Err(e) => Err(e),
        Ok((st, _)) => build(leaf, st.as_slice()),
    }
}

fn parse_command(toks: &[Vec<char>], p: usize) -> (res: Result<Commands, CliErrorKind>)
    requires
        p < toks@.len(),
    ensures
        match spec_parse_command(chars_view(toks@), p as nat) {
            Ok(m) => res matches Ok(c) && c@ == m,
            Err(e) => res == Err::<Commands, CliErrorKind>(e),
        },
{
    let ghost tv = chars_view(toks@);
    let name = toks[p].as_slice();
    assert(tv[p as int] == name@);
    if is_lit(name, "help") {
        Err(CliErrorKind::DisplayHelp)
    } else if is_lit(name, "list") {
        run_leaf(toks, p + 1, Leaf::List)
    } else if is_lit(name, "version") {
        run_leaf(toks, p + 1, Leaf::Version)
    } else if is_group(name) {
        if p + 1 >= toks.len() {
            Err(CliErrorKind::MissingSubcommand)
        } else {
            let sub = toks[p + 1].as_slice();
            assert(tv[p + 1] == sub@);
            if is_lit(sub, "help") || is_lit(sub, "-h") || is_lit(sub, "--help") {
                Err(CliErrorKind::DisplayHelp)
            } else if crate::scan::optionlike(sub) {
                Err(CliErrorKind::UnexpectedArgument)
            } else {
                match leaf_of(name, sub) {
                    None => Err(CliErrorKind::UnknownSubcommand),
                    Some(leaf) => run_leaf(toks, p + 2, leaf),
                }
            }
        }
    } else {
        Err(CliErrorKind::UnknownSubcommand)
    }
}

/// The views of a list of string slices.
pub open spec fn strs_view(args: Seq<&str>) -> Seq<Seq<char>> {
    args.map_values(|s: &str| s@)
}

impl Cli {
    /// Parses a command line whose first argument is the program name.
    pub fn try_parse_from(args: &[&str]) -> (res: Result<Cli, CliErrorKind>)
        ensures
            match spec_parse_cli(strs_view(args@)) {
                Ok(m) => res matches Ok(c) && c@ == m,
                Err(e) => res == Err::<Cli, CliErrorKind>(e),
            },
    {
        let ghost av = strs_view(args@);
        let mut toks: Vec<Vec<char>> = Vec::new();
        let mut i: usize = 1;
        while i < args.len()
            invariant
                1 <= i,
                i <= args@.len() || (args@.len() == 0 && i == 1),
                av == strs_view(args@),
                chars_view(toks@) == (if args@.len() == 0 { Seq::<Seq<char>>::empty() } else { av.drop_first().take(i - 1) }),
            decreases args@.len() - i,
        {
            let cs = chars_of(args[i]);
            proof {
                crate::scan::lemma_chars_view_push(toks@, cs);
                assert(av[i as int] == args@[i as int]@);
                assert(av.drop_first().take(i as int) =~= av.drop_first().take(i - 1).push(av[i as int]));
            }
            toks.push(cs);
            i = i + 1;
        }
        proof {
            if args@.len() > 0 {
                assert(av.drop_first().take(i - 1) =~= av.drop_first());
            } else {
                assert(av =~= Seq::<Seq<char>>::empty());
            }
        }
        let ghost tv = chars_view(toks@);
        if toks.len() == 0 {
            return Err(CliErrorKind::DisplayHelp);
        }
        let mut gtable: Vec<OptDecl> = Vec::new();
        gtable.push(OptDecl { short: Some('s'), long: chars_of("serial-number"), kind: OptKind::Single });
        gtable.push(OptDecl { short: Some('f'), long: chars_of("format"), kind: OptKind::Single });
        assert(decls_view(gtable@) =~= spec_global_table());
        proof {
            assert(slots_wf(spec_empty_slots(2), spec_global_table()));
            lemma_scan_wf(tv, 0, spec_global_table(), spec_empty_slots(2), true);
        }
        let (gst, p) = match scan(toks.as_slice(), 0, gtable.as_slice(), true) {
            Err(e) => {
                return Err(e);
            },
            Ok(x) => x,
        };
        let ghost gv = slots_view(gst@);
        assert(slots_wf(gv, spec_global_table()));
        assert(gv[0] == (gst@[0].seen, chars_view(gst@[0].values@)));
        assert(gv[1] == (gst@[1].seen, chars_view(gst@[1].values@)));
        let format = match def_format(gst.as_slice(), 1, OutputFormat::Hex) {
            Err(e) => {
                return Err(e);
            },
            Ok(f) => f,
        };
        if p >= toks.len() {
            return Err(CliErrorKind::MissingSubcommand);
        }
        let command = match parse_command(toks.as_slice(), p) {
            Err(e) => {
                return Err(e);
            },
            Ok(c) => c,
        };
        let serial_number = if gst[0].seen {
            assert(chars_view(gst@[0].values@)[0] == gst@[0].values@[0]@);
            Some(string_of(gst[0].values[0].as_slice()))
        } else {
            None
        };
        Ok(Cli { serial_number, format, command })
    }
}

impl From<I2cFrequencyArg> for I2cFrequency {
    fn from(arg: I2cFrequencyArg) -> (res: I2cFrequency) {
        match arg {
            I2cFrequencyArg::Standard => I2cFrequency::Standard,
            I2cFrequencyArg::Fast => I2cFrequency::Fast,
            I2cFrequencyArg::FastPlus => I2cFrequency::FastPlus,
        }
    }
}

impl vstd::std_specs::convert::FromSpecImpl<I2cFrequencyArg> for I2cFrequency {
    open spec fn obeys_from_spec() -> bool {
        true
    }

    /// Each named frequency is the bus mode of the same name.
    open spec fn from_spec(arg: I2cFrequencyArg) -> I2cFrequency {
        match arg {
            I2cFrequencyArg::Standard => I2cFrequency::Standard,
            I2cFrequencyArg::Fast => I2cFrequency::Fast,
            I2cFrequencyArg::FastPlus => I2cFrequency::FastPlus,
        }
    }
}

impl From<GpioDirectionArg> for GpioDirection {
    fn from(arg: GpioDirectionArg) -> (res: GpioDirection) {
        match arg {
            GpioDirectionArg::Input => GpioDirection::Input,
            GpioDirectionArg::Output => GpioDirection::Output,
        }
    }
}

impl vstd::std_specs::convert::FromSpecImpl<GpioDirectionArg> for GpioDirection {
    open spec fn obeys_from_spec() -> bool {
        true
    }

    /// Each named direction is the direction of the same name.
    open spec fn from_spec(arg: GpioDirectionArg) -> GpioDirection {
        match arg {
            GpioDirectionArg::Input => GpioDirection::Input,
            GpioDirectionArg::Output => GpioDirection::Output,
        }
    }
}

impl From<GpioPullArg> for GpioPull {
    fn from(arg: GpioPullArg) -> (res: GpioPull) {
        match arg {
            GpioPullArg::NoPull => GpioPull::NoPull,
            GpioPullArg::Up => GpioPull::Up,
            GpioPullArg::Down => GpioPull::Down,
        }
    }
}

impl vstd::std_specs::convert::FromSpecImpl<GpioPullArg> for GpioPull {
    open spec fn obeys_from_spec() -> bool {
        true
    }

    /// Each named pull setting is the setting of the same name.
    open spec fn from_spec(arg: GpioPullArg) -> GpioPull {
        match arg {
            GpioPullArg::NoPull => GpioPull::NoPull,
            GpioPullArg::Up => GpioPull::Up,
            GpioPullArg::Down => GpioPull::Down,
        }
    }
}

impl From<GpioEdgeArg> for GpioEdge {
    fn from(arg: GpioEdgeArg) -> (res: GpioEdge) {
        match arg {
            GpioEdgeArg::Rising => GpioEdge::Rising,
            GpioEdgeArg::Falling => GpioEdge::Falling,
            GpioEdgeArg::Any => GpioEdge::Any,
        }
    }
}

impl vstd::std_specs::convert::FromSpecImpl<GpioEdgeArg> for GpioEdge {
    open spec fn obeys_from_spec() -> bool {
        true
    }

    /// Each named edge is the edge of the same name.
    open spec fn from_spec(arg: GpioEdgeArg) -> GpioEdge {
        match arg {
            GpioEdgeArg::Rising => GpioEdge::Rising,
            GpioEdgeArg::Falling => GpioEdge::Falling,
            GpioEdgeArg::Any => GpioEdge::Any,
        }
    }
}

/// When `gpio monitor` is given no `--edge`, the command watches for every
/// edge (`any`); an edge option that was given is what the command watches.
pub proof fn lemma_gpio_monitor_edge_default(st: Seq<SlotView>)
    requires
        st.len() == 2,
    ensures
        !st[1].0 ==> (spec_build(Leaf::GpioMonitor, st) matches Ok(m) ==> m matches CommandModel::GpioMonitor {
            edge,
            ..
        } && edge == GpioEdgeArg::Any),
        !st[1].0 && spec_req_u8(st, 0) is Ok ==> spec_build(Leaf::GpioMonitor, st) is Ok,
        st[1].0 && st[1].1.len() >= 1 && st[1].1[0] == "rising"@ ==> (spec_build(Leaf::GpioMonitor, st) matches Ok(
            m,
        ) ==> m matches CommandModel::GpioMonitor { edge, .. } && edge == GpioEdgeArg::Rising),
{
}

/// Whether a command-line token begins like the `--edge` option of `gpio
/// monitor`: `-e` (with or without an attached value) or `--edge`.
pub open spec fn spec_names_edge_option(t: Seq<char>) -> bool {
    (t.len() >= 2 && t[0] == '-' && t[1] == 'e') || (t.len() >= 6 && t.take(6) == "--edge"@)
}

/// A token that does not begin like the edge option is never read as it.
proof fn lemma_classify_not_edge(t: Seq<char>)
    requires
        crate::scan::spec_optionlike(t),
        !spec_names_edge_option(t),
    ensures
        !(crate::scan::spec_classify(t, spec_leaf_table(Leaf::GpioMonitor), false) matches Ok((k, _)) && k == 1),
{
    reveal_strlit("edge");
    reveal_strlit("pin");
    reveal_strlit("--edge");
    reveal_with_fuel(crate::scan::spec_find_long, 3);
    reveal_with_fuel(crate::scan::spec_find_short, 3);
    let table = spec_leaf_table(Leaf::GpioMonitor);
    assert(table[0].1 == "pin"@ && table[1].1 == "edge"@);
    assert(table[0].0 == Some('p') && table[1].0 == Some('e'));
    if t.len() > 2 && t[0] == '-' && t[1] == '-' {
        let body = t.skip(2);
        crate::scan::lemma_first_index_bound(body, '=');
        let name = match crate::scan::spec_first_index(body, '=') {
            Some(e) => body.take(e as int),
            None => body,
        };
        if name == "edge"@ {
            assert(name.len() == 4);
            match crate::scan::spec_first_index(body, '=') {
                Some(e) => {
                    assert(body.take(e as int) == name);
                },
                None => {},
            }
            assert(t.len() >= 6);
            assert forall|j: int| 2 <= j < 6 implies t[j] == name[j - 2] by {
                assert(t[j] == body[j - 2]);
                assert(name[j - 2] == body[j - 2]);
            }
            assert(t.take(6) =~= "--edge"@);
        }
    }
}

/// A `gpio monitor` command whose arguments, from `start` on, never begin
/// like the edge option watches for every edge (`any`).
pub proof fn lemma_gpio_monitor_run_default_edge(toks: Seq<Seq<char>>, start: nat)
    requires
        forall|j: int| start <= j < toks.len() ==> !spec_names_edge_option(#[trigger] toks[j]),
    ensures
        spec_run_leaf(toks, start, Leaf::GpioMonitor) matches Ok(m) ==> m matches CommandModel::GpioMonitor {
            edge,
            ..
        } && edge == GpioEdgeArg::Any,
{
    let table = spec_leaf_table(Leaf::GpioMonitor);
    let empty = spec_empty_slots(table.len());
    assert forall|j: int|
        start <= j < toks.len() && crate::scan::spec_optionlike(#[trigger] toks[j]) implies !(
        crate::scan::spec_classify(toks[j], table, false) matches Ok((kk, _)) && kk == 1) by {
        lemma_classify_not_edge(toks[j]);
    }
    crate::scan::lemma_scan_untouched_slot(toks, start, table, empty, false, 1);
    match spec_scan(toks, start, table, empty, false) {
        Ok((st, _)) => {
            assert(!st[1].0);
            lemma_gpio_monitor_edge_default(st);
        },
        Err(_) => {},
    }
}

/// Only the `gpio monitor` command builds a monitor command.
proof fn lemma_only_monitor_builds_monitor(leaf: Leaf, st: Seq<SlotView>)
    ensures
        spec_build(leaf, st) matches Ok(m) ==> (m is GpioMonitor ==> leaf == Leaf::GpioMonitor),
{
}

/// A command line that never names the edge option and parses as
/// `gpio monitor` watches for every edge (`any`), the option's default.
pub proof fn lemma_gpio_monitor_default_edge(args: Seq<Seq<char>>)
    requires
        forall|j: int| 0 <= j < args.len() ==> !spec_names_edge_option(#[trigger] args[j]),
    ensures
        spec_parse_cli(args) matches Ok(cli) ==> (cli.command is GpioMonitor ==> (cli.command matches CommandModel::GpioMonitor {
            edge,
            ..
        } && edge == GpioEdgeArg::Any)),
{
    if args.len() > 0 {
        let toks = args.drop_first();
        assert forall|j: int| 0 <= j < toks.len() implies !spec_names_edge_option(#[trigger] toks[j]) by {
            assert(toks[j] == args[j + 1]);
        }
        match spec_scan(toks, 0, spec_global_table(), spec_empty_slots(2), true) {
            Ok((gst, p)) => {
                if p < toks.len() {
                    let name = toks[p as int];
                    if spec_is_group(name) && p + 1 < toks.len() {
                        let sub = toks[p + 1 as int];
                        match spec_leaf_of(name, sub) {
                            Some(leaf) => {
                                let table = spec_leaf_table(leaf);
                                match spec_scan(toks, p + 2, table, spec_empty_slots(table.len()), false) {
                                    Ok((st, _)) => {
                                        lemma_only_monitor_builds_monitor(leaf, st);
                                    },
                                    Err(_) => {},
                                }
                                if leaf == Leaf::GpioMonitor {
                                    lemma_gpio_monitor_run_default_edge(toks, p + 2);
                                }
                            },
                            None => {},
                        }
                    }
                    let e0 = spec_empty_slots(0);
                    match spec_scan(toks, p + 1, Seq::<crate::scan::DeclView>::empty(), e0, false) {
                        Ok((st, _)) => {
                            lemma_only_monitor_builds_monitor(Leaf::List, st);
                            lemma_only_monitor_builds_monitor(Leaf::Version, st);
                        },
                        Err(_) => {},
                    }
                }
            },
            Err(_) => {},
        }
    }
}

/// Options left out take their declared defaults: no `--pull` is no pull
/// resistor, no `--timeout` is 1000 ms, no `--duration` is 750 ms, and an
/// absent flag is off.
pub proof fn lemma_option_defaults(st: Seq<SlotView>)
    ensures
        st.len() == 3 && !st[2].0 ==> (spec_build(Leaf::GpioSetConfig, st) matches Ok(m) ==> (
        m matches CommandModel::GpioSetConfig { pull, .. } && pull == GpioPullArg::NoPull)),
        st.len() == 2 && !st[1].0 ==> (spec_build(Leaf::UartRead, st) matches Ok(m) ==> (
        m matches CommandModel::UartRead { timeout, .. } && timeout == 1000)),
        st.len() == 2 && !st[1].0 ==> (spec_build(Leaf::OneWireWritePullup, st) matches Ok(m) ==> (
        m matches CommandModel::OneWireWritePullup { duration, .. } && duration == 750)),
        st.len() == 1 && !st[0].0 ==> (spec_build(Leaf::I2cScan, st) matches Ok(m) ==> (
        m matches CommandModel::I2cScan { reserved } && !reserved)),
        st.len() == 3 && !st[1].0 && !st[2].0 ==> (spec_build(Leaf::SpiSetConfig, st) matches Ok(m) ==> (
        m matches CommandModel::SpiSetConfig { first_transition, idle_low, .. } && !first_transition
            && !idle_low)),
        st.len() == 3 && !st[2].0 ==> (spec_build(Leaf::PwmSetConfig, st) matches Ok(m) ==> (
        m matches CommandModel::PwmSetConfig { phase_correct, .. } && !phase_correct)),
{
}

/// The command a parsed command is an instance of.
pub open spec fn spec_model_leaf(m: CommandModel) -> Leaf {
    match m {
        CommandModel::List { .. } => Leaf::List,
        CommandModel::Version { .. } => Leaf::Version,
        CommandModel::I2cScan { .. } => Leaf::I2cScan,
        CommandModel::I2cRead { .. } => Leaf::I2cRead,
        CommandModel::I2cWrite { .. } => Leaf::I2cWrite,
        CommandModel::I2cWriteRead { .. } => Leaf::I2cWriteRead,
        CommandModel::I2cSetConfig { .. } => Leaf::I2cSetConfig,
        CommandModel::I2cGetConfig { .. } => Leaf::I2cGetConfig,
        CommandModel::I2cBatch { .. } => Leaf::I2cBatch,
        CommandModel::SpiRead { .. } => Leaf::SpiRead,
        CommandModel::SpiWrite { .. } => Leaf::SpiWrite,
        CommandModel::SpiTransfer { .. } => Leaf::SpiTransfer,
        CommandModel::SpiWriteRead { .. } => Leaf::SpiWriteRead,
        CommandModel::SpiSetConfig { .. } => Leaf::SpiSetConfig,
        CommandModel::SpiGetConfig { .. } => Leaf::SpiGetConfig,
        CommandModel::SpiBatch { .. } => Leaf::SpiBatch,
        CommandModel::GpioGet { .. } => Leaf::GpioGet,
        CommandModel::GpioPut { .. } => Leaf::GpioPut,
        CommandModel::GpioSetConfig { .. } => Leaf::GpioSetConfig,
        CommandModel::GpioMonitor { .. } => Leaf::GpioMonitor,
        CommandModel::UartRead { .. } => Leaf::UartRead,
        CommandModel::UartWrite { .. } => Leaf::UartWrite,
        CommandModel::UartFlush { .. } => Leaf::UartFlush,
        CommandModel::UartSetConfig { .. } => Leaf::UartSetConfig,
        CommandModel::UartGetConfig { .. } => Leaf::UartGetConfig,
        CommandModel::PwmSetDuty { .. } => Leaf::PwmSetDuty,
        CommandModel::PwmGetDuty { .. } => Leaf::PwmGetDuty,
        CommandModel::PwmEnable { .. } => Leaf::PwmEnable,
        CommandModel::PwmDisable { .. } => Leaf::PwmDisable,
        CommandModel::PwmSetConfig { .. } => Leaf::PwmSetConfig,
        CommandModel::PwmGetConfig { .. } => Leaf::PwmGetConfig,
        CommandModel::AdcRead { .. } => Leaf::AdcRead,
        CommandModel::AdcInfo { .. } => Leaf::AdcInfo,
        CommandModel::OneWireReset { .. } => Leaf::OneWireReset,
        CommandModel::OneWireRead { .. } => Leaf::OneWireRead,
        CommandModel::OneWireWrite { .. } => Leaf::OneWireWrite,
        CommandModel::OneWireWritePullup { .. } => Leaf::OneWireWritePullup,
        CommandModel::OneWireSearch { .. } => Leaf::OneWireSearch,
    }
}

/// Building a command gives a command of that kind.
pub proof fn lemma_build_kind(leaf: Leaf, st: Seq<SlotView>)
    ensures
        spec_build(leaf, st) matches Ok(m) ==> spec_model_leaf(m) == leaf,
{
    match leaf {
        Leaf::List => {},
        Leaf::Version => {},
        Leaf::I2cScan => {},
        Leaf::I2cRead => {},
        Leaf::I2cWrite => {},
        Leaf::I2cWriteRead => {},
        Leaf::I2cSetConfig => {},
        Leaf::I2cGetConfig => {},
        Leaf::I2cBatch => {},
        Leaf::SpiRead => {},
        Leaf::SpiWrite => {},
        Leaf::SpiTransfer => {},
        Leaf::SpiWriteRead => {},
        Leaf::SpiSetConfig => {},
        Leaf::SpiGetConfig => {},
        Leaf::SpiBatch => {},
        Leaf::GpioGet => {},
        Leaf::GpioPut => {},
        Leaf::GpioSetConfig => {},
        Leaf::GpioMonitor => {},
        Leaf::UartRead => {},
        Leaf::UartWrite => {},
        Leaf::UartFlush => {},
        Leaf::UartSetConfig => {},
        Leaf::UartGetConfig => {},
        Leaf::PwmSetDuty => {},
        Leaf::PwmGetDuty => {},
        Leaf::PwmEnable => {},
        Leaf::PwmDisable => {},
        Leaf::PwmSetConfig => {},
        Leaf::PwmGetConfig => {},
        Leaf::AdcRead => {},
        Leaf::AdcInfo => {},
        Leaf::OneWireReset => {},
        Leaf::OneWireRead => {},
        Leaf::OneWireWrite => {},
        Leaf::OneWireWritePullup => {},
        Leaf::OneWireSearch => {},
    }
}

/// Whether a token begins like the option with short name `short` (when
/// it has one) or long name `long`.
pub open spec fn spec_names_option(t: Seq<char>, short: Option<char>, long: Seq<char>) -> bool {
    (short matches Some(c) && t.len() >= 2 && t[0] == '-' && t[1] == c) || (t.len() >= long.len() + 2
        && t.take(long.len() + 2int) == "--"@ + long)
}

proof fn lemma_find_long_names(table: Seq<crate::scan::DeclView>, name: Seq<char>, j: nat)
    ensures
        crate::scan::spec_find_long(table, name, j) matches Some(k) ==> k < table.len() && table[k as int].1
            == name,
    decreases table.len() - j,
{
    if j < table.len() && table[j as int].1 != name {
        lemma_find_long_names(table, name, j + 1);
    }
}

proof fn lemma_find_short_names(table: Seq<crate::scan::DeclView>, c: char, j: nat)
    ensures
        crate::scan::spec_find_short(table, c, j) matches Some(k) ==> k < table.len() && table[k as int].0
            == Some(c),
    decreases table.len() - j,
{
    if j < table.len() && table[j as int].0 != Some(c) {
        lemma_find_short_names(table, c, j + 1);
    }
}

/// A token that does not begin like option `k` is never read as it.
proof fn lemma_classify_not_named(t: Seq<char>, table: Seq<crate::scan::DeclView>, top: bool, k: nat)
    requires
        crate::scan::spec_optionlike(t),
        k < table.len(),
        !spec_names_option(t, table[k as int].0, table[k as int].1),
    ensures
        !(crate::scan::spec_classify(t, table, top) matches Ok((kk, _)) && kk == k),
{
    reveal_strlit("--");
    if t.len() > 2 && t[0] == '-' && t[1] == '-' {
        let body = t.skip(2);
        crate::scan::lemma_first_index_bound(body, '=');
        let name = match crate::scan::spec_first_index(body, '=') {
            Some(e) => body.take(e as int),
            None => body,
        };
        lemma_find_long_names(table, name, 0);
        if crate::scan::spec_find_long(table, name, 0) == Some(k) {
            let long = table[k as int].1;
            assert(name == long);
            assert(t.len() >= long.len() + 2);
            assert(t.take(long.len() + 2int) =~= "--"@ + long) by {
                assert forall|j: int| 2 <= j < long.len() + 2 implies t[j] == long[j - 2] by {
                    assert(t[j] == body[j - 2]);
                    assert(name[j - 2] == body[j - 2]);
                }
            }
        }
    } else {
        lemma_find_short_names(table, t[1], 0);
    }
}

/// When a command line parses, and no argument begins like option `k` of
/// the command it names, that option was never given: the command is
/// built from options in which slot `k` is unset.
pub proof fn lemma_unnamed_option_unset(args: Seq<Seq<char>>, leaf: Leaf, k: nat)
    requires
        k < spec_leaf_table(leaf).len(),
        forall|j: int|
            0 <= j < args.len() ==> !spec_names_option(
                #[trigger] args[j],
                spec_leaf_table(leaf)[k as int].0,
                spec_leaf_table(leaf)[k as int].1,
            ),
    ensures
        spec_parse_cli(args) matches Ok(cli) ==> (spec_model_leaf(cli.command) == leaf ==> exists|st: Seq<SlotView>|
            st.len() == spec_leaf_table(leaf).len() && !(#[trigger] st[k as int]).0 && spec_build(leaf, st)
                == Ok::<CommandModel, CliErrorKind>(cli.command)),
{
    let table = spec_leaf_table(leaf);
    if args.len() > 0 {
        let toks = args.drop_first();
        assert forall|j: int| 0 <= j < toks.len() && crate::scan::spec_optionlike(#[trigger] toks[j]) implies !(
        crate::scan::spec_classify(toks[j], table, false) matches Ok((kk, _)) && kk == k) by {
            assert(toks[j] == args[j + 1]);
            lemma_classify_not_named(toks[j], table, false, k);
        }
        match spec_scan(toks, 0, spec_global_table(), spec_empty_slots(2), true) {
            Ok((gst, p)) => {
                if p < toks.len() {
                    let name = toks[p as int];
                    let start: nat = if name == "list"@ || name == "version"@ { p + 1 } else { p + 2 };
                    let run_as: Leaf = if name == "list"@ {
                        Leaf::List
                    } else if name == "version"@ {
                        Leaf::Version
                    } else {
                        match spec_leaf_of(name, toks[p + 1 as int]) {
                            Some(l) => l,
                            None => Leaf::List,
                        }
                    };
                    let t2 = spec_leaf_table(run_as);
                    match spec_scan(toks, start, t2, spec_empty_slots(t2.len()), false) {
                        Ok((st, _)) => {
                            lemma_build_kind(run_as, st);
                            if run_as == leaf {
                                crate::scan::lemma_scan_untouched_slot(
                                    toks,
                                    start,
                                    table,
                                    spec_empty_slots(table.len()),
                                    false,
                                    k,
                                );
                                assert(st.len() == table.len() && !st[k as int].0);
                            }
                        },
                        Err(_) => {},
                    }
                }
            },
            Err(_) => {},
        }
    }
}

/// A command line that parses and never begins an argument like the
/// `--format` option shows data in hexadecimal, the default format.
pub proof fn lemma_format_default_on_command_line(args: Seq<Seq<char>>)
    requires
        forall|j: int| 0 <= j < args.len() ==> !spec_names_option(#[trigger] args[j], Some('f'), "format"@),
    ensures
        spec_parse_cli(args) matches Ok(cli) ==> cli.format == OutputFormat::Hex,
{
    let table = spec_global_table();
    if args.len() > 0 {
        let toks = args.drop_first();
        assert(table[1].0 == Some('f') && table[1].1 == "format"@);
        assert forall|j: int| 0 <= j < toks.len() && crate::scan::spec_optionlike(#[trigger] toks[j]) implies !(
        crate::scan::spec_classify(toks[j], table, true) matches Ok((kk, _)) && kk == 1) by {
            assert(toks[j] == args[j + 1]);
            lemma_classify_not_named(toks[j], table, true, 1);
        }
        crate::scan::lemma_scan_untouched_slot(toks, 0, table, spec_empty_slots(2), true, 1);
    }
}

/// A command line that parses and never begins an argument like the
/// option gets its default: `gpio set-config` without `--pull` has no pull resistor.
#[verifier::rlimit(60)]
pub proof fn lemma_default_gpio_set_config_pull(args: Seq<Seq<char>>)
    requires
        forall|j: int| 0 <= j < args.len() ==> !spec_names_option(#[trigger] args[j], None, "pull"@),
    ensures
        spec_parse_cli(args) matches Ok(cli) ==> (cli.command matches CommandModel::GpioSetConfig { pull, .. } ==> pull == GpioPullArg::NoPull),
{
    lemma_unnamed_option_unset(args, Leaf::GpioSetConfig, 2);
    match spec_parse_cli(args) {
        Ok(cli) => {
            if cli.command is GpioSetConfig {
                let st = choose|st: Seq<SlotView>|
                    st.len() == 3 && !(#[trigger] st[2]).0 && spec_build(Leaf::GpioSetConfig, st) == Ok::<
                        CommandModel,
                        CliErrorKind,
                    >(cli.command);
                lemma_option_defaults(st);
            }
        },
        Err(_) => {},
    }
}

/// A command line that parses and never begins an argument like the
/// option gets its default: `uart read` without `-t`/`--timeout` waits 1000 ms.
#[verifier::rlimit(60)]
pub proof fn lemma_default_uart_read_timeout(args: Seq<Seq<char>>)
    requires
        forall|j: int| 0 <= j < args.len() ==> !spec_names_option(#[trigger] args[j], Some('t'), "timeout"@),
    ensures
        spec_parse_cli(args) matches Ok(cli) ==> (cli.command matches CommandModel::UartRead { timeout, .. } ==> timeout == 1000),
{
    lemma_unnamed_option_unset(args, Leaf::UartRead, 1);
    match spec_parse_cli(args) {
        Ok(cli) => {
            if cli.command is UartRead {
                let st = choose|st: Seq<SlotView>|
                    st.len() == 2 && !(#[trigger] st[1]).0 && spec_build(Leaf::UartRead, st) == Ok::<
                        CommandModel,
                        CliErrorKind,
                    >(cli.command);
                lemma_option_defaults(st);
            }
        },
        Err(_) => {},
    }
}

/// A command line that parses and never begins an argument like the
/// option gets its default: `onewire write-pullup` without `-t`/`--duration` holds the pull-up
/// for 750 ms.
#[verifier::rlimit(60)]
pub proof fn lemma_default_onewire_pullup_duration(args: Seq<Seq<char>>)
    requires
        forall|j: int| 0 <= j < args.len() ==> !spec_names_option(#[trigger] args[j], Some('t'), "duration"@),
    ensures
        spec_parse_cli(args) matches Ok(cli) ==> (cli.command matches CommandModel::OneWireWritePullup { duration, .. } ==> duration == 750),
{
    lemma_unnamed_option_unset(args, Leaf::OneWireWritePullup, 1);
    match spec_parse_cli(args) {
        Ok(cli) => {
            if cli.command is OneWireWritePullup {
                let st = choose|st: Seq<SlotView>|
                    st.len() == 2 && !(#[trigger] st[1]).0 && spec_build(Leaf::OneWireWritePullup, st) == Ok::<
                        CommandModel,
                        CliErrorKind,
                    >(cli.command);
                lemma_option_defaults(st);
            }
        },
        Err(_) => {},
    }
}

/// A command line that parses and never begins an argument like the
/// option gets its default: `i2c scan` without `-r`/`--reserved` skips the reserved addresses.
pub proof fn lemma_default_i2c_scan_reserved(args: Seq<Seq<char>>)
    requires
        forall|j: int| 0 <= j < args.len() ==> !spec_names_option(#[trigger] args[j], Some('r'), "reserved"@),
    ensures
        spec_parse_cli(args) matches Ok(cli) ==> (cli.command matches CommandModel::I2cScan { reserved } ==> !reserved),
{
    lemma_unnamed_option_unset(args, Leaf::I2cScan, 0);
    match spec_parse_cli(args) {
        Ok(cli) => {
            if cli.command is I2cScan {
                let st = choose|st: Seq<SlotView>|
                    st.len() == 1 && !(#[trigger] st[0]).0 && spec_build(Leaf::I2cScan, st) == Ok::<
                        CommandModel,
                        CliErrorKind,
                    >(cli.command);
                lemma_option_defaults(st);
            }
        },
        Err(_) => {},
    }
}

/// A command line that parses and never begins an argument like the
/// option gets its default: `pwm set-config` without `-p`/`--phase-correct` is not phase-correct.
#[verifier::rlimit(60)]
pub proof fn lemma_default_pwm_phase_correct(args: Seq<Seq<char>>)
    requires
        forall|j: int| 0 <= j < args.len() ==> !spec_names_option(#[trigger] args[j], Some('p'), "phase-correct"@),
    ensures
        spec_parse_cli(args) matches Ok(cli) ==> (cli.command matches CommandModel::PwmSetConfig { phase_correct, .. } ==> !phase_correct),
{
    lemma_unnamed_option_unset(args, Leaf::PwmSetConfig, 2);
    match spec_parse_cli(args) {
        Ok(cli) => {
            if cli.command is PwmSetConfig {
                let st = choose|st: Seq<SlotView>|
                    st.len() == 3 && !(#[trigger] st[2]).0 && spec_build(Leaf::PwmSetConfig, st) == Ok::<
                        CommandModel,
                        CliErrorKind,
                    >(cli.command);
                lemma_option_defaults(st);
            }
        },
        Err(_) => {},
    }
}

} // verus!
