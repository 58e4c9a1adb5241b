use pca9685::Channel;
use pca9685::DEVICE_BASE_ADDRESS as DEV_ADDR;
use pca9685::Error;
use pca9685::OutputLogicState;
use pca9685::Pca9685;
use pca9685::SlaveAddr;

#[test]
fn can_get_default_address() {
    let addr = SlaveAddr::default();
    assert_eq!(DEV_ADDR, addr.addr(DEV_ADDR));
}

#[test]
fn can_generate_alternative_addresses() {
    assert_eq!(
        0b100_0000,
        SlaveAddr::Alternative(false, false, false, false, false, false).addr(DEV_ADDR)
    );
    assert_eq!(
        0b100_0001,
        SlaveAddr::Alternative(false, false, false, false, false, true).addr(DEV_ADDR)
    );
    assert_eq!(
        0b100_0010,
        SlaveAddr::Alternative(false, false, false, false, true, false).addr(DEV_ADDR)
    );
    assert_eq!(
        0b100_0100,
        SlaveAddr::Alternative(false, false, false, true, false, false).addr(DEV_ADDR)
    );
    assert_eq!(
        0b100_1000,
        SlaveAddr::Alternative(false, false, true, false, false, false).addr(DEV_ADDR)
    );
    assert_eq!(
        0b101_0000,
        SlaveAddr::Alternative(false, true, false, false, false, false).addr(DEV_ADDR)
    );
    assert_eq!(
        0b110_0000,
        SlaveAddr::Alternative(true, false, false, false, false, false).addr(DEV_ADDR)
    );
    assert_eq!(
        0b111_1111,
        SlaveAddr::Alternative(true, true, true, true, true, true).addr(DEV_ADDR)
    );
}

#[test]
fn repeated_resolution_gives_identical_results() {
    let mode = SlaveAddr::Alternative(true, false, true, false, true, false);
    assert_eq!(mode.addr(DEV_ADDR), mode.addr(DEV_ADDR));
    assert_eq!(
        SlaveAddr::Default.addr(DEV_ADDR),
        SlaveAddr::Default.addr(DEV_ADDR)
    );
}

#[test]
fn broadcast_channel_is_distinct_from_every_single_channel() {
    let channels = vec![
        Channel::C0,
        Channel::C1,
        Channel::C2,
        Channel::C3,
        Channel::C4,
        Channel::C5,
        Channel::C6,
        Channel::C7,
        Channel::C8,
        Channel::C9,
        Channel::C10,
        Channel::C11,
        Channel::C12,
        Channel::C13,
        Channel::C14,
        Channel::C15,
        Channel::All,
    ];
    let mut singles: usize = 0;
    let mut broadcasts: usize = 0;
    for c in channels {
        // Exhaustive match, no default arm: the broadcast variant is covered
        // separately from the sixteen single channels.
        match c {
            Channel::C0
            | Channel::C1
            | Channel::C2
            | Channel::C3
            | Channel::C4
            | Channel::C5
            | Channel::C6
            | Channel::C7
            | Channel::C8
            | Channel::C9
            | Channel::C10
            | Channel::C11
            | Channel::C12
            | Channel::C13
            | Channel::C14
            | Channel::C15 => {
                singles += 1;
                assert!(c != Channel::All);
            }
            Channel::All => {
                broadcasts += 1;
            }
        }
    }
    assert_eq!(singles, 16);
    assert_eq!(broadcasts, 1);
}

#[test]
fn error_variants_are_distinguishable() {
    let transport: Error<u8> = Error::I2C(7);
    let invalid: Error<u8> = Error::InvalidInputData;
    assert!(matches!(transport, Error::I2C(7)));
    assert!(!matches!(transport, Error::InvalidInputData));
    assert!(matches!(invalid, Error::InvalidInputData));
    assert!(!matches!(invalid, Error::I2C(_)));

    let other: Error<&str> = Error::I2C("bus stuck");
    assert!(matches!(other, Error::I2C("bus stuck")));
}

#[test]
fn output_logic_states_are_distinct() {
    assert_ne!(OutputLogicState::Direct, OutputLogicState::Inverted);
    assert_eq!(OutputLogicState::Direct, OutputLogicState::Direct);
    assert_eq!(OutputLogicState::Inverted, OutputLogicState::Inverted);
}

#[test]
fn new_device_resolves_alternative_address() {
    let dev = Pca9685::new((), SlaveAddr::Alternative(false, false, false, false, false, true));
    let shown = format!("{:?}", dev);
    assert!(shown.contains("address: 65"));
}

#[test]
fn new_device_uses_base_address_by_default() {
    let dev = Pca9685::new((), SlaveAddr::default());
    let shown = format!("{:?}", dev);
    assert!(shown.contains("address: 64"));
}
