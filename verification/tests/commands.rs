use ssd1331::command::{draw_area_sequence, init_sequence};
use ssd1331::{AddressIncrementMode, ColorMode, Command, DisplayRotation, Error, VcomhLevel};

fn all_frames(command: Command) -> Vec<Vec<u8>> {
    let mut out = Vec::new();
    for i in 0..command.frame_count() {
        out.push(command.frame(i));
    }
    out
}

#[test]
fn display_on_and_off_are_single_opcodes() {
    assert_eq!(all_frames(Command::DisplayOn(false)), vec![vec![0xAE]]);
    assert_eq!(all_frames(Command::DisplayOn(true)), vec![vec![0xAF]]);
}

#[test]
fn all_on_and_invert_are_single_opcodes() {
    assert_eq!(all_frames(Command::AllOn(true)), vec![vec![0xA5]]);
    assert_eq!(all_frames(Command::AllOn(false)), vec![vec![0xA4]]);
    assert_eq!(all_frames(Command::Invert(true)), vec![vec![0xA7]]);
    assert_eq!(all_frames(Command::Invert(false)), vec![vec![0xA6]]);
}

#[test]
fn clock_divider_packs_oscillator_high_and_divider_low() {
    assert_eq!(all_frames(Command::DisplayClockDiv(0x8, 0x0)), vec![vec![0xB3, 0x08]]);
    assert_eq!(all_frames(Command::DisplayClockDiv(0x3, 0xC)), vec![vec![0xB3, 0xC3]]);
    assert_eq!(all_frames(Command::DisplayClockDiv(0x0, 0xF)), vec![vec![0xB3, 0xF0]]);
}

#[test]
fn clock_divider_keeps_only_the_low_nibbles() {
    assert_eq!(all_frames(Command::DisplayClockDiv(0x12, 0x34)), vec![vec![0xB3, 0x42]]);
    assert_eq!(all_frames(Command::DisplayClockDiv(0xFF, 0xFF)), vec![vec![0xB3, 0xFF]]);
}

#[test]
fn pre_charge_packs_phase_two_high_and_phase_one_low() {
    assert_eq!(all_frames(Command::PreChargePeriod(0x1, 0xF)), vec![vec![0xB1, 0xF1]]);
    assert_eq!(all_frames(Command::PreChargePeriod(0xA, 0x5)), vec![vec![0xB1, 0x5A]]);
}

#[test]
fn single_operand_commands_carry_their_operand() {
    assert_eq!(all_frames(Command::Multiplex(63)), vec![vec![0xA8, 63]]);
    assert_eq!(all_frames(Command::DisplayOffset(7)), vec![vec![0xA2, 7]]);
    assert_eq!(all_frames(Command::StartLine(5)), vec![vec![0xA1, 5]]);
}

#[test]
fn operands_are_sent_as_given() {
    assert_eq!(all_frames(Command::StartLine(200)), vec![vec![0xA1, 200]]);
    assert_eq!(all_frames(Command::Multiplex(255)), vec![vec![0xA8, 255]]);
    assert_eq!(all_frames(Command::DisplayOffset(0)), vec![vec![0xA2, 0]]);
    assert_eq!(all_frames(Command::ColumnAddress(255, 0)), vec![vec![0x15, 255, 0]]);
}

#[test]
fn address_commands_carry_start_and_end() {
    assert_eq!(all_frames(Command::ColumnAddress(0, 95)), vec![vec![0x15, 0, 95]]);
    assert_eq!(all_frames(Command::RowAddress(3, 63)), vec![vec![0x75, 3, 63]]);
}

#[test]
fn contrast_is_one_frame_per_channel() {
    let command = Command::Contrast(0x91, 0x50, 0x7D);
    assert_eq!(command.frame_count(), 3);
    assert_eq!(
        all_frames(command),
        vec![vec![0x81, 0x91], vec![0x82, 0x50], vec![0x83, 0x7D]]
    );
}

#[test]
fn every_other_command_is_one_frame() {
    assert_eq!(Command::DisplayOn(true).frame_count(), 1);
    assert_eq!(Command::ColumnAddress(1, 2).frame_count(), 1);
    assert_eq!(Command::VcomhDeselect(VcomhLevel::V044).frame_count(), 1);
    assert_eq!(
        Command::RemapAndColorDepth(
            false,
            false,
            ColorMode::CM256,
            AddressIncrementMode::Horizontal
        )
        .frame_count(),
        1
    );
}

#[test]
fn vcomh_levels_have_their_register_codes() {
    assert_eq!(VcomhLevel::V044.bits(), 0x00);
    assert_eq!(VcomhLevel::V052.bits(), 0x10);
    assert_eq!(VcomhLevel::V061.bits(), 0x20);
    assert_eq!(VcomhLevel::V071.bits(), 0x30);
    assert_eq!(VcomhLevel::V083.bits(), 0x3E);
    assert_eq!(all_frames(Command::VcomhDeselect(VcomhLevel::V071)), vec![vec![0xBE, 0x30]]);
    assert_eq!(all_frames(Command::VcomhDeselect(VcomhLevel::V083)), vec![vec![0xBE, 0x3E]]);
}

#[test]
fn field_codes_of_colour_depth_and_increment() {
    assert_eq!(ColorMode::CM256.bits(), 0);
    assert_eq!(ColorMode::CM65k.bits(), 1);
    assert_eq!(AddressIncrementMode::Horizontal.bits(), 0);
    assert_eq!(AddressIncrementMode::Vertical.bits(), 1);
}

#[test]
fn remap_operand_packs_its_four_fields() {
    let plain =
        Command::RemapAndColorDepth(false, false, ColorMode::CM256, AddressIncrementMode::Horizontal);
    assert_eq!(all_frames(plain), vec![vec![0xA0, 0x20]]);
    let column =
        Command::RemapAndColorDepth(true, false, ColorMode::CM256, AddressIncrementMode::Horizontal);
    assert_eq!(all_frames(column), vec![vec![0xA0, 0x22]]);
    let flip =
        Command::RemapAndColorDepth(false, true, ColorMode::CM256, AddressIncrementMode::Horizontal);
    assert_eq!(all_frames(flip), vec![vec![0xA0, 0x30]]);
    let depth =
        Command::RemapAndColorDepth(false, false, ColorMode::CM65k, AddressIncrementMode::Horizontal);
    assert_eq!(all_frames(depth), vec![vec![0xA0, 0x60]]);
    let vertical =
        Command::RemapAndColorDepth(false, false, ColorMode::CM256, AddressIncrementMode::Vertical);
    assert_eq!(all_frames(vertical), vec![vec![0xA0, 0x21]]);
    let all = Command::RemapAndColorDepth(true, true, ColorMode::CM65k, AddressIncrementMode::Vertical);
    assert_eq!(all_frames(all), vec![vec![0xA0, 0x73]]);
}

#[test]
fn remap_command_of_each_rotation() {
    assert_eq!(
        Command::remap(DisplayRotation::Rotate0),
        Command::RemapAndColorDepth(false, false, ColorMode::CM65k, AddressIncrementMode::Horizontal)
    );
    assert_eq!(
        Command::remap(DisplayRotation::Rotate90),
        Command::RemapAndColorDepth(true, false, ColorMode::CM65k, AddressIncrementMode::Vertical)
    );
    assert_eq!(
        Command::remap(DisplayRotation::Rotate180),
        Command::RemapAndColorDepth(true, true, ColorMode::CM65k, AddressIncrementMode::Horizontal)
    );
    assert_eq!(
        Command::remap(DisplayRotation::Rotate270),
        Command::RemapAndColorDepth(false, true, ColorMode::CM65k, AddressIncrementMode::Vertical)
    );
    assert_eq!(all_frames(Command::remap(DisplayRotation::Rotate0)), vec![vec![0xA0, 0x60]]);
    assert_eq!(all_frames(Command::remap(DisplayRotation::Rotate90)), vec![vec![0xA0, 0x63]]);
    assert_eq!(all_frames(Command::remap(DisplayRotation::Rotate180)), vec![vec![0xA0, 0x72]]);
    assert_eq!(all_frames(Command::remap(DisplayRotation::Rotate270)), vec![vec![0xA0, 0x71]]);
}

#[test]
fn init_sequence_is_the_fixed_bring_up_order() {
    assert_eq!(
        init_sequence(DisplayRotation::Rotate180),
        vec![
            Command::DisplayOn(false),
            Command::DisplayClockDiv(0x8, 0x0),
            Command::Multiplex(63),
            Command::DisplayOffset(0),
            Command::StartLine(0),
            Command::RemapAndColorDepth(
                true,
                true,
                ColorMode::CM65k,
                AddressIncrementMode::Horizontal
            ),
            Command::Contrast(0x91, 0x50, 0x7D),
            Command::PreChargePeriod(0x1, 0xF),
            Command::VcomhDeselect(VcomhLevel::V071),
            Command::AllOn(false),
            Command::Invert(false),
            Command::DisplayOn(true),
        ]
    );
}

#[test]
fn draw_area_sequence_ends_one_before_the_end_corner() {
    assert_eq!(
        draw_area_sequence((0, 0), (96, 64)),
        vec![Command::ColumnAddress(0, 95), Command::RowAddress(0, 63)]
    );
    assert_eq!(
        draw_area_sequence((10, 20), (11, 21)),
        vec![Command::ColumnAddress(10, 10), Command::RowAddress(20, 20)]
    );
    assert_eq!(
        draw_area_sequence((9, 9), (1, 255)),
        vec![Command::ColumnAddress(9, 0), Command::RowAddress(9, 254)]
    );
}

#[test]
fn outcomes_map_to_their_error_kind() {
    assert_eq!(Error::from_comm(Ok(())), Ok(()));
    assert_eq!(Error::from_comm(Err(())), Err(Error::Comm));
    assert_eq!(Error::from_pin(Ok(())), Ok(()));
    assert_eq!(Error::from_pin(Err(())), Err(Error::Pin));
    assert_eq!(Error::blind(Ok(())), Ok(()));
    assert_eq!(Error::blind(Err(Error::Comm)), Err(()));
    assert_eq!(Error::blind(Err(Error::Pin)), Err(()));
}

#[test]
fn sideways_rotations() {
    assert!(!DisplayRotation::Rotate0.sideways());
    assert!(DisplayRotation::Rotate90.sideways());
    assert!(!DisplayRotation::Rotate180.sideways());
    assert!(DisplayRotation::Rotate270.sideways());
}
