use ctrl8xl::{Ctrl8Xl, HPCF_Xl, ADDR};

const DEVICE: u8 = 0x6a;

/// A bus failure, as a test stand-in for what a real bus would report.
#[derive(Debug, PartialEq)]
struct Nack;

/// One recorded transaction: device address, sub-address, byte.
type Sent = Vec<(u8, u8, u8)>;

/// What the four one-bit fields and the cutoff selector decode to.
fn decoded(register: &mut Ctrl8Xl) -> (bool, bool, bool, bool, HPCF_Xl) {
    (
        register.low_pass_on_6d(),
        register.hp_slope_xl_en(),
        register.fastsettl_mode(),
        register.hp_ref_mode(),
        register.hpcf_xl(),
    )
}

/// Writes the one-bit field `field` (0 to 3, in the order of `decoded`)
/// over a bus that accepts everything.
fn write_flag(register: &mut Ctrl8Xl, field: usize, on: bool) {
    let bus = |_: u8, _: u8, _: u8| Ok::<(), Nack>(());
    let result = match field {
        0 => register.set_low_pass_on_6d(bus, on),
        1 => register.set_hp_slope_xl_en(bus, on),
        2 => register.set_fastsettl_mode(bus, on),
        3 => register.set_hp_ref_mode(bus, on),
        _ => unreachable!(),
    };
    assert_eq!(result, Ok(()));
}

const FLAG_MASKS: [u8; 4] = [0b0000_0001, 0b0000_0100, 0b0000_1000, 0b0001_0000];

const CUTOFFS: [HPCF_Xl; 8] = [
    HPCF_Xl::ODR_SLOPE_4,
    HPCF_Xl::ODR_10,
    HPCF_Xl::ODR_20,
    HPCF_Xl::ODR_45,
    HPCF_Xl::ODR_100,
    HPCF_Xl::ODR_200,
    HPCF_Xl::ODR_400,
    HPCF_Xl::ODR_800,
];

#[test]
fn sub_address_is_0x17() {
    assert_eq!(ADDR, 0x17);
}

#[test]
fn new_keeps_value_and_address() {
    let register = Ctrl8Xl::new(0xa5, DEVICE);
    assert_eq!(register.value(), 0xa5);
    assert_eq!(register.address, DEVICE);
}

#[test]
fn writing_the_cutoff_into_an_empty_register() {
    let mut register = Ctrl8Xl::new(0x00, DEVICE);
    let result = register.set_hpcf(|_, _, _| Ok::<(), Nack>(()), HPCF_Xl::ODR_45);
    assert_eq!(result, Ok(()));
    assert_eq!(register.value(), 0b0110_0000);
    assert_eq!(register.hpcf_xl(), HPCF_Xl::ODR_45);
    assert_eq!(register.hpcf(), 45);
    assert_eq!(f32::from(register.hpcf()), 45.0);
}

#[test]
fn clearing_low_pass_on_6d_in_a_full_register() {
    let mut register = Ctrl8Xl::new(0xff, DEVICE);
    let result = register.set_low_pass_on_6d(|_, _, _| Ok::<(), Nack>(()), false);
    assert_eq!(result, Ok(()));
    assert_eq!(register.value(), 0xfe);
    assert!(!register.low_pass_on_6d());
    assert!(register.hp_slope_xl_en());
    assert!(register.fastsettl_mode());
    assert!(register.hp_ref_mode());
    assert_eq!(register.hpcf_xl(), HPCF_Xl::ODR_800);
    assert_eq!(register.hpcf(), 800);
}

#[test]
fn each_getter_reads_its_own_bit() {
    let mut register = Ctrl8Xl::new(0b0000_0001, DEVICE);
    assert_eq!(decoded(&mut register), (true, false, false, false, HPCF_Xl::ODR_SLOPE_4));
    let mut register = Ctrl8Xl::new(0b0000_0100, DEVICE);
    assert_eq!(decoded(&mut register), (false, true, false, false, HPCF_Xl::ODR_SLOPE_4));
    let mut register = Ctrl8Xl::new(0b0000_1000, DEVICE);
    assert_eq!(decoded(&mut register), (false, false, true, false, HPCF_Xl::ODR_SLOPE_4));
    let mut register = Ctrl8Xl::new(0b0001_0000, DEVICE);
    assert_eq!(decoded(&mut register), (false, false, false, true, HPCF_Xl::ODR_SLOPE_4));
    let mut register = Ctrl8Xl::new(0b0000_0010, DEVICE);
    assert_eq!(decoded(&mut register), (false, false, false, false, HPCF_Xl::ODR_SLOPE_4));
}

#[test]
fn getters_leave_the_mirror_alone() {
    for value in 0u8..=255 {
        let mut register = Ctrl8Xl::new(value, DEVICE);
        decoded(&mut register);
        register.hpcf();
        assert_eq!(register.value(), value);
        assert_eq!(register.address, DEVICE);
    }
}

#[test]
fn cutoff_decodes_from_the_top_three_bits() {
    for value in 0u8..=255 {
        let register = Ctrl8Xl::new(value, DEVICE);
        assert_eq!(register.hpcf_xl(), CUTOFFS[(value >> 5) as usize]);
        assert_eq!(register.hpcf(), CUTOFFS[(value >> 5) as usize].ratio());
    }
}

#[test]
fn written_flag_reads_back_and_other_fields_stay() {
    for value in 0u8..=255 {
        for field in 0..4 {
            for on in [false, true] {
                let mut register = Ctrl8Xl::new(value, DEVICE);
                let before = decoded(&mut register);
                write_flag(&mut register, field, on);
                let mut expected = before;
                match field {
                    0 => expected.0 = on,
                    1 => expected.1 = on,
                    2 => expected.2 = on,
                    _ => expected.3 = on,
                }
                assert_eq!(decoded(&mut register), expected);
            }
        }
    }
}

#[test]
fn written_cutoff_reads_back_and_other_fields_stay() {
    for value in 0u8..=255 {
        for cutoff in CUTOFFS {
            let mut register = Ctrl8Xl::new(value, DEVICE);
            let before = decoded(&mut register);
            let result = register.set_hpcf(|_, _, _| Ok::<(), Nack>(()), cutoff);
            assert_eq!(result, Ok(()));
            assert_eq!(decoded(&mut register), (before.0, before.1, before.2, before.3, cutoff));
            assert_eq!(register.hpcf(), cutoff.ratio());
        }
    }
}

#[test]
fn flag_write_changes_no_bit_outside_its_mask() {
    for value in 0u8..=255 {
        for field in 0..4 {
            for on in [false, true] {
                let mut register = Ctrl8Xl::new(value, DEVICE);
                write_flag(&mut register, field, on);
                let mask = FLAG_MASKS[field];
                assert_eq!(register.value() & !mask, value & !mask);
                assert_eq!(register.value() & mask != 0, on);
            }
        }
    }
}

#[test]
fn cutoff_write_changes_no_bit_outside_its_mask() {
    for value in 0u8..=255 {
        for cutoff in CUTOFFS {
            let mut register = Ctrl8Xl::new(value, DEVICE);
            let result = register.set_hpcf(|_, _, _| Ok::<(), Nack>(()), cutoff);
            assert_eq!(result, Ok(()));
            assert_eq!(register.value() & 0b0001_1111, value & 0b0001_1111);
            assert_eq!(register.value() >> 5, cutoff.bits());
        }
    }
}

#[test]
fn a_write_is_one_transaction_of_the_whole_byte() {
    let mut sent = Sent::new();
    let mut register = Ctrl8Xl::new(0b0000_0010, DEVICE);

    let result = register.set_hpcf(
        |address, sub_address, byte| {
            sent.push((address, sub_address, byte));
            Ok::<(), Nack>(())
        },
        HPCF_Xl::ODR_200,
    );
    assert_eq!(result, Ok(()));
    assert_eq!(sent, vec![(DEVICE, 0x17, 0b1010_0010)]);

    let result = register.set_hp_slope_xl_en(
        |address, sub_address, byte| {
            sent.push((address, sub_address, byte));
            Ok::<(), Nack>(())
        },
        true,
    );
    assert_eq!(result, Ok(()));
    let result = register.set_fastsettl_mode(
        |address, sub_address, byte| {
            sent.push((address, sub_address, byte));
            Ok::<(), Nack>(())
        },
        true,
    );
    assert_eq!(result, Ok(()));
    let result = register.set_hp_ref_mode(
        |address, sub_address, byte| {
            sent.push((address, sub_address, byte));
            Ok::<(), Nack>(())
        },
        true,
    );
    assert_eq!(result, Ok(()));
    let result = register.set_low_pass_on_6d(
        |address, sub_address, byte| {
            sent.push((address, sub_address, byte));
            Ok::<(), Nack>(())
        },
        true,
    );
    assert_eq!(result, Ok(()));

    assert_eq!(
        sent,
        vec![
            (DEVICE, 0x17, 0b1010_0010),
            (DEVICE, 0x17, 0b1010_0110),
            (DEVICE, 0x17, 0b1010_1110),
            (DEVICE, 0x17, 0b1011_1110),
            (DEVICE, 0x17, 0b1011_1111),
        ]
    );
    assert_eq!(register.value(), 0b1011_1111);
}

#[test]
fn rewriting_what_is_there_still_commits_the_byte() {
    let mut sent = Sent::new();
    let mut register = Ctrl8Xl::new(0b0110_0100, 0x6b);
    let result = register.set_hp_slope_xl_en(
        |address, sub_address, byte| {
            sent.push((address, sub_address, byte));
            Ok::<(), Nack>(())
        },
        true,
    );
    assert_eq!(result, Ok(()));
    assert_eq!(register.value(), 0b0110_0100);
    assert_eq!(sent, vec![(0x6b, 0x17, 0b0110_0100)]);
}

#[test]
fn a_bus_failure_is_returned_as_it_came() {
    let mut register = Ctrl8Xl::new(0x00, DEVICE);
    assert_eq!(register.set_hpcf(|_, _, _| Err(Nack), HPCF_Xl::ODR_45), Err(Nack));
    assert_eq!(register.set_low_pass_on_6d(|_, _, _| Err(7u32), true), Err(7u32));
    assert_eq!(register.set_hp_slope_xl_en(|_, _, _| Err("arbitration lost"), true), Err("arbitration lost"));
    assert_eq!(register.set_fastsettl_mode(|_, _, _| Err(Nack), true), Err(Nack));
    assert_eq!(register.set_hp_ref_mode(|_, _, _| Err(Nack), true), Err(Nack));
}

#[test]
fn after_a_bus_failure_the_mirror_holds_the_byte_that_was_sent() {
    // The device took nothing, yet the mirror has moved on: after a
    // failure the two may differ until the register is read back.
    let device: u8 = 0x00;
    let mut sent = Sent::new();
    let mut register = Ctrl8Xl::new(device, DEVICE);
    let result = register.set_hpcf(
        |address, sub_address, byte| {
            sent.push((address, sub_address, byte));
            Err(Nack)
        },
        HPCF_Xl::ODR_45,
    );
    assert_eq!(result, Err(Nack));
    assert_eq!(sent, vec![(DEVICE, 0x17, 0x60)]);
    assert_eq!(register.value(), 0x60);
    assert_ne!(register.value(), device);
    assert_eq!(register.hpcf(), 45);

    let result = register.set_hp_ref_mode(|_, _, _| Err(Nack), true);
    assert_eq!(result, Err(Nack));
    assert_eq!(register.value(), 0x70);
    assert!(register.hp_ref_mode());
}
