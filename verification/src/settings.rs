//! Line configuration of a serial connection.
//!
//! The controller opens every port with one fixed configuration: 115200
//! bits per second, a read timeout of 100 ms, and 8-N-1 framing.

use vstd::prelude::*;

verus! {

/// Bit rate of every connection, in bits per second.
pub const BAUD_RATE: u32 = 115_200;

/// Read timeout of every connection, in milliseconds.
pub const READ_TIMEOUT_MS: u64 = 100;

/// Number of data bits in a character on the line.
#[derive(Clone, Copy, Debug, PartialEq, Eq, Structural)]
pub enum DataBits {
    Five,
    Six,
    Seven,
    Eight,
}

/// Parity bit of a character on the line.
#[derive(Clone, Copy, Debug, PartialEq, Eq, Structural)]
pub enum Parity {
    NoParity,
    Odd,
    Even,
}

/// Number of stop bits after a character on the line.
#[derive(Clone, Copy, Debug, PartialEq, Eq, Structural)]
pub enum StopBits {
    One,
    Two,
}

/// How a port is to be opened.
#[derive(Clone, Copy, Debug, PartialEq, Eq, Structural)]
pub struct PortSettings {
    /// Bits per second.
    pub baud_rate: u32,
    /// How long a read waits for data, in milliseconds.
    pub timeout_ms: u64,
    pub data_bits: DataBits,
    pub parity: Parity,
    pub stop_bits: StopBits,
}

impl PortSettings {
    /// The configuration of every connection.
    pub open spec fn spec_fixed() -> PortSettings {
        PortSettings {
            baud_rate: BAUD_RATE,
            timeout_ms: READ_TIMEOUT_MS,
            data_bits: DataBits::Eight,
            parity: Parity::NoParity,
            stop_bits: StopBits::One,
        }
    }

    /// The configuration of every connection: 115200 bits per second, a
    /// read timeout of 100 ms, 8 data bits, no parity, 1 stop bit.
    #[verifier::when_used_as_spec(spec_fixed)]
    pub fn fixed() -> (settings: PortSettings)
        ensures
            settings == PortSettings::spec_fixed(),
            settings.baud_rate == 115_200,
            settings.timeout_ms == 100,
            settings.data_bits == DataBits::Eight,
            settings.parity == Parity::NoParity,
            settings.stop_bits == StopBits::One,
    {
        PortSettings {
            baud_rate: BAUD_RATE,
            timeout_ms: READ_TIMEOUT_MS,
            data_bits: DataBits::Eight,
            parity: Parity::NoParity,
            stop_bits: StopBits::One,
        }
    }
}

} // verus!
