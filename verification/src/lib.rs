//! Device-identity and type model for the PCA9685, a 16-channel PWM/servo/LED
//! controller on a shared two-wire serial bus: bus-address resolution from
//! hardware strap bits, channel selection, output polarity, and the error
//! taxonomy every fallible operation surfaces through.
use vstd::prelude::*;

mod types;

pub use types::Channel;
pub use types::Error;
pub use types::OutputLogicState;
pub use types::Pca9685;
pub use types::SlaveAddr;
pub use types::lemma_addr_deterministic;
pub use types::lemma_alternative_sets_strap_bits_exactly;
pub use types::lemma_default_resolves_to_base;
pub use types::lemma_error_variants_distinct;
pub use types::strap_offset;

verus! {

/// Factory base address of the chip family, with all address straps low.
pub const DEVICE_BASE_ADDRESS: u8 = 0b100_0000;

} // verus!
