use vstd::prelude::*;

verus! {

/// The outside configuration-repository type held by the device handle as its
/// register-state snapshot; opaque to this library.
#[verifier::external_type_specification]
#[verifier::external_body]
pub struct ExConfig(config::Config);

/// PCA9685 PWM/Servo/LED controller.
#[derive(Debug)]
pub struct Pca9685<I2C> {
    /// The concrete I2C device implementation.
    pub(crate) i2c: I2C,
    /// The I2C device address.
    pub(crate) address: u8,
    /// Current device configuration.
    pub(crate) config: config::Config,
}

/// Relies on config::Config::default: builds a fresh, empty configuration
/// snapshot; opaque to this library.
#[verifier::external_body]
fn default_config() -> config::Config {
    config::Config::default()
}

impl<I2C> Pca9685<I2C> {
    /// The bus address this handle targets.
    pub closed spec fn spec_address(self) -> u8 {
        self.address
    }

    /// The transport capability this handle exclusively owns.
    pub closed spec fn spec_transport(self) -> I2C {
        self.i2c
    }

    /// Creates the handle for one physical chip: takes exclusive ownership of
    /// the transport, resolves the bus address from the family base address
    /// and the given addressing mode, and starts from a freshly-initialized
    /// configuration snapshot. Construction itself cannot fail.
    pub fn new(i2c: I2C, address: SlaveAddr) -> (d: Pca9685<I2C>)
        ensures
            d.spec_transport() == i2c,
            d.spec_address() == address.resolved(crate::DEVICE_BASE_ADDRESS),
    {
        Pca9685 { i2c, address: address.addr(crate::DEVICE_BASE_ADDRESS), config: default_config() }
    }
}

/// All possible errors in this crate
#[derive(Debug)]
pub enum Error<E> {
    /// I2C bus error
    I2C(E),
    /// Invalid input data provided
    InvalidInputData,
}

/// Law: for every transport failure value, a wrapped bus error and the
/// invalid-input error are distinct, so downstream matching can always tell
/// a transport failure from a caller contract violation.
pub proof fn lemma_error_variants_distinct<E>(e: E)
    ensures
        Error::<E>::I2C(e) != Error::<E>::InvalidInputData,
{
}

/// Output channel selection
#[derive(Debug, Clone, Copy, PartialEq)]
pub enum Channel {
    /// Channel 0
    C0,
    /// Channel 1
    C1,
    /// Channel 2
    C2,
    /// Channel 3
    C3,
    /// Channel 4
    C4,
    /// Channel 5
    C5,
    /// Channel 6
    C6,
    /// Channel 7
    C7,
    /// Channel 8
    C8,
    /// Channel 9
    C9,
    /// Channel 10
    C10,
    /// Channel 11
    C11,
    /// Channel 12
    C12,
    /// Channel 13
    C13,
    /// Channel 14
    C14,
    /// Channel 15
    C15,
    /// All channels
    All,
}

/// Output logic state inversion
#[derive(Debug, Clone, Copy, PartialEq)]
pub enum OutputLogicState {
    /// Output logic state is not inverted.
    ///
    /// Value to set when external driver is used. Applicable when `OE = 0`.
    Direct,
    /// Output logic state is inverted.
    ///
    /// Value to set when no external driver is used. Applicable when `OE = 0`.
    Inverted,
}

/// Possible slave addresses
#[derive(Debug, Clone, Copy, PartialEq)]
pub enum SlaveAddr {
    /// Default slave address
    Default,
    /// Alternative slave address providing bit values for A5, A4, A3, A2, A1 and A0
    Alternative(bool, bool, bool, bool, bool, bool),
}

impl Default for SlaveAddr {
    /// Default slave address
    fn default() -> (s: Self)
        ensures
            s == SlaveAddr::Default,
    {
        SlaveAddr::Default
    }
}

/// The address contribution of the six strap pins A5..A0: each strap that is
/// wired high sets the bit at its own position, 5 down to 0.
pub open spec fn strap_offset(a5: bool, a4: bool, a3: bool, a2: bool, a1: bool, a0: bool) -> u8 {
    (if a5 { 1u8 << 5 } else { 0u8 })
        | (if a4 { 1u8 << 4 } else { 0u8 })
        | (if a3 { 1u8 << 3 } else { 0u8 })
        | (if a2 { 1u8 << 2 } else { 0u8 })
        | (if a1 { 1u8 << 1 } else { 0u8 })
        | (if a0 { 1u8 << 0 } else { 0u8 })
}

impl SlaveAddr {
    /// The bus address this addressing mode resolves to over the given factory
    /// base address: the base itself, or the base with each strap bit OR-ed
    /// into its designated bit position.
    pub open spec fn resolved(self, default: u8) -> u8 {
        match self {
            SlaveAddr::Default => default,
            SlaveAddr::Alternative(a5, a4, a3, a2, a1, a0) => default | strap_offset(
                a5,
                a4,
                a3,
                a2,
                a1,
                a0,
            ),
        }
    }

    /// Resolves the concrete bus address from the factory base address: total,
    /// pure, and defined for every strap combination.
    pub fn addr(self, default: u8) -> (r: u8)
        ensures
            r == self.resolved(default),
    {
        match self {
            SlaveAddr::Default => default,
            SlaveAddr::Alternative(a5, a4, a3, a2, a1, a0) => {
                default | ((if a5 {
                    1u8 << 5
                } else {
                    0u8
                }) | (if a4 {
                    1u8 << 4
                } else {
                    0u8
                }) | (if a3 {
                    1u8 << 3
                } else {
                    0u8
                }) | (if a2 {
                    1u8 << 2
                } else {
                    0u8
                }) | (if a1 {
                    1u8 << 1
                } else {
                    0u8
                }) | (if a0 {
                    1u8 << 0
                } else {
                    0u8
                }))
            },
        }
    }
}

/// Law: an alternative addressing mode over a base address that carries no
/// strap bits yields the base with bits 5 down to 0 set exactly to the strap
/// values A5 down to A0, and every bit above position 5 unchanged.
pub proof fn lemma_alternative_sets_strap_bits_exactly(
    base: u8,
    a5: bool,
    a4: bool,
    a3: bool,
    a2: bool,
    a1: bool,
    a0: bool,
)
    requires
        base & 0b011_1111 == 0,
    ensures
        SlaveAddr::Alternative(a5, a4, a3, a2, a1, a0).resolved(base) >> 6 == base >> 6,
        (SlaveAddr::Alternative(a5, a4, a3, a2, a1, a0).resolved(base) >> 5) & 1 == (if a5 { 1u8 } else { 0u8 }),
        (SlaveAddr::Alternative(a5, a4, a3, a2, a1, a0).resolved(base) >> 4) & 1 == (if a4 { 1u8 } else { 0u8 }),
        (SlaveAddr::Alternative(a5, a4, a3, a2, a1, a0).resolved(base) >> 3) & 1 == (if a3 { 1u8 } else { 0u8 }),
        (SlaveAddr::Alternative(a5, a4, a3, a2, a1, a0).resolved(base) >> 2) & 1 == (if a2 { 1u8 } else { 0u8 }),
        (SlaveAddr::Alternative(a5, a4, a3, a2, a1, a0).resolved(base) >> 1) & 1 == (if a1 { 1u8 } else { 0u8 }),
        (SlaveAddr::Alternative(a5, a4, a3, a2, a1, a0).resolved(base) >> 0) & 1 == (if a0 { 1u8 } else { 0u8 }),
{
    let r = SlaveAddr::Alternative(a5, a4, a3, a2, a1, a0).resolved(base);
    assert(r >> 6 == base >> 6 && (r >> 5) & 1 == (if a5 { 1u8 } else { 0u8 }) && (r >> 4) & 1
        == (if a4 { 1u8 } else { 0u8 }) && (r >> 3) & 1 == (if a3 { 1u8 } else { 0u8 }) && (r >> 2)
        & 1 == (if a2 { 1u8 } else { 0u8 }) && (r >> 1) & 1 == (if a1 { 1u8 } else { 0u8 }) && (r
        >> 0) & 1 == (if a0 { 1u8 } else { 0u8 })) by (bit_vector)
        requires
            base & 0b011_1111 == 0,
            r == base | strap_offset(a5, a4, a3, a2, a1, a0),
    ;
}

/// Law: the default addressing mode resolves to the base address itself.
pub proof fn lemma_default_resolves_to_base(base: u8)
    ensures
        SlaveAddr::Default.resolved(base) == base,
{
}

/// Law: address resolution is deterministic: any two results that meet the
/// contract of `SlaveAddr::addr` for the same arguments are equal.
pub proof fn lemma_addr_deterministic(mode: SlaveAddr, default: u8, r1: u8, r2: u8)
    requires
        r1 == mode.resolved(default),
        r2 == mode.resolved(default),
    ensures
        r1 == r2,
{
}

} // verus!
