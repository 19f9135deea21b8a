use vstd::prelude::*;

verus! {

/// Number of data bits in each serial character.
#[derive(Clone, Copy, Debug, PartialEq, Eq, Structural)]
pub enum CharSize {
    Bits5,
    Bits6,
    Bits7,
    Bits8,
}

/// Number of stop bits after each serial character.
#[derive(Clone, Copy, Debug, PartialEq, Eq, Structural)]
pub enum StopBits {
    One,
    Two,
}

/// Parity checking on the serial line.
#[derive(Clone, Copy, Debug, PartialEq, Eq, Structural)]
pub enum Parity {
    Disabled,
    Even,
    Odd,
}

/// The line settings applied to the serial device in one step.
#[derive(Clone, Copy, Debug, PartialEq, Eq, Structural)]
pub struct LineSettings {
    pub baud_rate: u32,
    pub char_size: CharSize,
    pub stop_bits: StopBits,
    pub parity: Parity,
}

/// Everything the bridge needs to set up both endpoints.
#[derive(Clone, Debug)]
pub struct BridgeConfig {
    pub device: String,
    pub line: LineSettings,
    pub host: String,
    pub tcp_port: u16,
    pub verbose: bool,
}

/// Why a set of options cannot start a bridge.
#[derive(Clone, Copy, Debug, PartialEq, Eq, Structural)]
pub enum ConfigError {
    /// No serial device path was given.
    MissingDevice,
    /// A baud rate of zero was given.
    ZeroBaudRate,
    /// The TCP port does not fit in 16 bits.
    TcpPortOutOfRange,
}

pub const DEFAULT_BAUD_RATE: u32 = 115200;

pub const DEFAULT_TCP_PORT: u16 = 5761;

/// The character size selected by a requested number of data bits:
/// 5, 6 and 7 select themselves, anything else (or nothing) selects 8.
pub open spec fn char_size_spec(bits: Option<u8>) -> CharSize {
    match bits {
        Some(5) => CharSize::Bits5,
        Some(6) => CharSize::Bits6,
        Some(7) => CharSize::Bits7,
        _ => CharSize::Bits8,
    }
}

/// The stop bits selected by a name: only `Two` selects two.
pub open spec fn stop_bits_spec(name: Option<Seq<char>>) -> StopBits {
    if name == Some(seq!['T', 'w', 'o']) {
        StopBits::Two
    } else {
        StopBits::One
    }
}

/// The parity selected by a name: `Odd` and `Even` select themselves,
/// anything else selects no parity.
pub open spec fn parity_spec(name: Option<Seq<char>>) -> Parity {
    if name == Some(seq!['O', 'd', 'd']) {
        Parity::Odd
    } else if name == Some(seq!['E', 'v', 'e', 'n']) {
        Parity::Even
    } else {
        Parity::Disabled
    }
}

pub open spec fn opt_view(s: Option<String>) -> Option<Seq<char>> {
    match s {
        Some(t) => Some(t@),
        None => None,
    }
}

pub open spec fn default_host() -> Seq<char> {
    seq!['l', 'o', 'c', 'a', 'l', 'h', 'o', 's', 't']
}

/// The line settings selected by the requested values, each absent one
/// taking its default.
pub open spec fn line_settings_spec(
    baud: Option<u32>,
    bits: Option<u8>,
    stop: Option<Seq<char>>,
    parity: Option<Seq<char>>,
) -> LineSettings {
    LineSettings {
        baud_rate: match baud {
            Some(b) => b,
            None => DEFAULT_BAUD_RATE,
        },
        char_size: char_size_spec(bits),
        stop_bits: stop_bits_spec(stop),
        parity: parity_spec(parity),
    }
}

/// The first problem found in a set of options, if any: a missing device,
/// then a zero baud rate, then a TCP port beyond 16 bits.
pub open spec fn config_error_spec(
    device: Option<Seq<char>>,
    baud: Option<u32>,
    tcp_port: Option<u32>,
) -> Option<ConfigError> {
    if device is None {
        Some(ConfigError::MissingDevice)
    } else if baud == Some(0u32) {
        Some(ConfigError::ZeroBaudRate)
    } else if tcp_port is Some && tcp_port->0 > u16::MAX {
        Some(ConfigError::TcpPortOutOfRange)
    } else {
        None
    }
}

/// `c` is what the given options resolve to once they are known to be valid.
pub open spec fn resolved_from(
    c: BridgeConfig,
    device: Option<Seq<char>>,
    baud: Option<u32>,
    bits: Option<u8>,
    stop: Option<Seq<char>>,
    parity: Option<Seq<char>>,
    host: Option<Seq<char>>,
    tcp_port: Option<u32>,
    verbose: bool,
) -> bool {
    &&& Some(c.device@) == device
    &&& c.line == line_settings_spec(baud, bits, stop, parity)
    &&& c.host@ == match host {
        Some(h) => h,
        None => default_host(),
    }
    &&& c.tcp_port as int == match tcp_port {
        Some(p) => p as int,
        None => DEFAULT_TCP_PORT as int,
    }
    &&& c.verbose == verbose
}

impl ConfigError {
    /// The process exit status for a configuration error.
    pub fn exit_code(&self) -> (r: i32)
        ensures
            r == 1,
    {
        1
    }
}

impl LineSettings {
    /// The settings used when nothing is requested.
    pub fn default_line() -> (r: LineSettings)
        ensures
            r == line_settings_spec(None, None, None, None),
    {
        LineSettings {
            baud_rate: DEFAULT_BAUD_RATE,
            char_size: CharSize::Bits8,
            stop_bits: StopBits::One,
            parity: Parity::Disabled,
        }
    }
}

/// Resolves the options of a bridge, each absent one taking its default.
pub fn resolve_config(
    device: Option<String>,
    baud: Option<u32>,
    bits: Option<u8>,
    stop: Option<String>,
    parity: Option<String>,
    host: Option<String>,
    tcp_port: Option<u32>,
    verbose: bool,
) -> (r: Result<BridgeConfig, ConfigError>)
    ensures
        match r {
            Ok(c) => config_error_spec(opt_view(device), baud, tcp_port) is None
                && resolved_from(c, opt_view(device), baud, bits, opt_view(stop), opt_view(parity),
                opt_view(host), tcp_port, verbose),
            Err(e) => config_error_spec(opt_view(device), baud, tcp_port) == Some(e),
        },
{
    let device = match device {
        Some(d) => d,
        None => return Err(ConfigError::MissingDevice),
    };
    let baud_rate = match baud {
        Some(0) => return Err(ConfigError::ZeroBaudRate),
        Some(b) => b,
        None => DEFAULT_BAUD_RATE,
    };
    let tcp_port: u16 = match tcp_port {
        Some(p) => {
            if p > u16::MAX as u32 {
                return Err(ConfigError::TcpPortOutOfRange);
            }
            p as u16
        },
        None => DEFAULT_TCP_PORT,
    };
    let host = match host {
        Some(h) => h,
        None => {
            proof {
                reveal_strlit("localhost");
                assert("localhost"@ =~= default_host());
            }
            "localhost".to_owned()
        },
    };
    let line = LineSettings {
        baud_rate,
        char_size: char_size_from_bits(bits),
        stop_bits: stop_bits_from_name(&stop),
        parity: parity_from_name(&parity),
    };
    Ok(BridgeConfig { device, line, host, tcp_port, verbose })
}

/// Choosing the stop bits touches no other line setting: two requests that
/// differ only in the stop bits resolve to settings that differ only there.
pub proof fn lemma_stop_bits_alone(
    baud: Option<u32>,
    bits: Option<u8>,
    stop_a: Option<Seq<char>>,
    stop_b: Option<Seq<char>>,
    parity: Option<Seq<char>>,
)
    ensures
        ({
            let a = line_settings_spec(baud, bits, stop_a, parity);
            let b = line_settings_spec(baud, bits, stop_b, parity);
            &&& a.baud_rate == b.baud_rate
            &&& a.char_size == b.char_size
            &&& a.parity == b.parity
            &&& b.stop_bits == stop_bits_spec(stop_b)
            &&& b == LineSettings { stop_bits: b.stop_bits, ..a }
        }),
{
}

pub fn char_size_from_bits(bits: Option<u8>) -> (r: CharSize)
    ensures
        r == char_size_spec(bits),
{
    match bits {
        Some(5) => CharSize::Bits5,
        Some(6) => CharSize::Bits6,
        Some(7) => CharSize::Bits7,
        _ => CharSize::Bits8,
    }
}

fn is_named(name: &Option<String>, word: &str) -> (r: bool)
    ensures
        r == (opt_view(*name) == Some(word@)),
{
    match name {
        Some(s) => {
            let w = word.to_owned();
            *s == w
        },
        None => false,
    }
}

pub fn stop_bits_from_name(name: &Option<String>) -> (r: StopBits)
    ensures
        r == stop_bits_spec(opt_view(*name)),
{
    proof {
        reveal_strlit("Two");
        assert("Two"@ =~= seq!['T', 'w', 'o']);
    }
    if is_named(name, "Two") {
        StopBits::Two
    } else {
        StopBits::One
    }
}

pub fn parity_from_name(name: &Option<String>) -> (r: Parity)
    ensures
        r == parity_spec(opt_view(*name)),
{
    proof {
        reveal_strlit("Odd");
        reveal_strlit("Even");
        assert("Odd"@ =~= seq!['O', 'd', 'd']);
        assert("Even"@ =~= seq!['E', 'v', 'e', 'n']);
    }
    if is_named(name, "Odd") {
        Parity::Odd
    } else if is_named(name, "Even") {
        Parity::Even
    } else {
        Parity::Disabled
    }
}

} // verus!
