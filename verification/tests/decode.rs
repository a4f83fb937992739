use pvm::instruction::{Instruction, InstructionType, LoadSize, LoadType, Operation, Register};

fn word_of(operation: u16, load_type: u16, load_size: u16, source: u16, destination: u16) -> u16 {
    operation | (load_type << 4) | (load_size << 6) | (source << 8) | (destination << 12)
}

#[test]
fn all_ones_is_the_no_operation() {
    let nop = Instruction::parse_instruction(0xFFFF);
    assert_eq!(nop.family(), InstructionType::Nop);
    assert_eq!(nop.operation(), Operation::Nop);
    assert_eq!(nop.load_type(), LoadType::NoLoad);
    assert_eq!(nop.load_size(), LoadSize::QWord);
    assert_eq!(nop.source(), Register::NoRegister);
    assert_eq!(nop.destination(), Register::NoRegister);
}

#[test]
fn zero_is_invalid_in_every_field() {
    let zero = Instruction::parse_instruction(0x0000);
    assert_eq!(zero.family(), InstructionType::Invalid);
    assert_eq!(zero.operation(), Operation::Invalid);
    assert_eq!(zero.load_type(), LoadType::Invalid);
    assert_eq!(zero.load_size(), LoadSize::Invalid);
    assert_eq!(zero.source(), Register::Invalid);
    assert_eq!(zero.destination(), Register::Invalid);
}

#[test]
fn or_of_a_into_b() {
    let or = Instruction::parse_instruction(0x30F5);
    assert_eq!(or.operation(), Operation::Or);
    assert_eq!(or.load_type(), LoadType::NoLoad);
    assert_eq!(or.load_size(), LoadSize::QWord);
    assert_eq!(or.source(), Register::A);
    assert_eq!(or.destination(), Register::B);
    assert_eq!(or.family(), InstructionType::Operation);
}

#[test]
fn operation_with_a_byte_size_is_invalid() {
    let word = word_of(5, 3, 0, 0, 3);
    assert_eq!(word, 0x3035);
    let sized = Instruction::parse_instruction(word);
    assert_eq!(sized.operation(), Operation::Or);
    assert_eq!(sized.load_type(), LoadType::NoLoad);
    assert_eq!(sized.load_size(), LoadSize::Byte);
    assert_eq!(sized.source(), Register::A);
    assert_eq!(sized.destination(), Register::B);
    assert_eq!(sized.family(), InstructionType::Invalid);
}

#[test]
fn sum_of_a_into_b_is_an_operation() {
    let word = word_of(0, 3, 3, 0, 3);
    assert_eq!(word, 0x30F0);
    let sum = Instruction::parse_instruction(word);
    assert_eq!(sum.operation(), Operation::Sum);
    assert_eq!(sum.load_type(), LoadType::NoLoad);
    assert_eq!(sum.load_size(), LoadSize::QWord);
    assert_eq!(sum.source(), Register::A);
    assert_eq!(sum.destination(), Register::B);
    assert_eq!(sum.family(), InstructionType::Operation);
}

#[test]
fn immediate_load_may_have_any_size() {
    for load_size in 0..4u16 {
        let load = Instruction::parse_instruction(word_of(15, 2, load_size, 2, 1));
        assert_eq!(load.family(), InstructionType::Load);
        assert_eq!(load.operation(), Operation::Nop);
        assert_eq!(load.load_type(), LoadType::Immediate);
        assert_eq!(load.load_size(), LoadSize::from(load_size as u8));
        assert_eq!(load.source(), Register::Y);
        assert_eq!(load.destination(), Register::X);
    }
    assert_eq!(
        Instruction::parse_instruction(0x12AF).load_size(),
        LoadSize::DWord
    );
}

#[test]
fn register_and_ram_loads_need_the_full_size() {
    for load_type in 0..2u16 {
        let full = Instruction::parse_instruction(word_of(15, load_type, 3, 1, 0));
        assert_eq!(full.family(), InstructionType::Load);
        for load_size in 0..3u16 {
            let short = Instruction::parse_instruction(word_of(15, load_type, load_size, 1, 0));
            assert_eq!(short.family(), InstructionType::Invalid);
        }
    }
    assert_eq!(
        Instruction::parse_instruction(0x01CF).family(),
        InstructionType::Load
    );
    assert_eq!(
        Instruction::parse_instruction(0x011F).family(),
        InstructionType::Invalid
    );
}

#[test]
fn operation_together_with_a_load_is_invalid() {
    let both = Instruction::parse_instruction(word_of(0, 2, 3, 0, 1));
    assert_eq!(both.operation(), Operation::Sum);
    assert_eq!(both.load_type(), LoadType::Immediate);
    assert_ne!(both.source(), both.destination());
    assert_eq!(both.family(), InstructionType::Invalid);
}

#[test]
fn neither_operation_nor_load_is_invalid() {
    let neither = Instruction::parse_instruction(word_of(15, 3, 3, 0, 1));
    assert_eq!(neither.operation(), Operation::Nop);
    assert_eq!(neither.load_type(), LoadType::NoLoad);
    assert_eq!(neither.load_size(), LoadSize::QWord);
    assert_ne!(neither.source(), neither.destination());
    assert_eq!(neither.family(), InstructionType::Invalid);
}

#[test]
fn same_source_and_destination_is_invalid() {
    for register in 0..16u16 {
        let operation = Instruction::parse_instruction(word_of(0, 3, 3, register, register));
        assert_eq!(operation.source(), operation.destination());
        assert_eq!(operation.family(), InstructionType::Invalid);
        let load = Instruction::parse_instruction(word_of(15, 2, 3, register, register));
        assert_eq!(load.source(), load.destination());
        assert_eq!(load.family(), InstructionType::Invalid);
    }
}

#[test]
fn fields_are_the_tables_applied_to_the_split_word() {
    for word in 1..0xFFFFu16 {
        let parts = Instruction::split_bits(word);
        let decoded = Instruction::parse_instruction(word);
        assert_eq!(decoded.operation(), Operation::from(parts.0));
        assert_eq!(decoded.load_type(), LoadType::from(parts.1));
        assert_eq!(decoded.load_size(), LoadSize::from(parts.2));
        assert_eq!(decoded.source(), Register::from(parts.3));
        assert_eq!(decoded.destination(), Register::from(parts.4));
    }
}

#[test]
fn family_is_invalid_exactly_when_a_rule_is_broken() {
    for word in 1..0xFFFFu16 {
        let decoded = Instruction::parse_instruction(word);
        let operation_and_load =
            decoded.operation() != Operation::Nop && decoded.load_type() != LoadType::NoLoad;
        let neither =
            decoded.operation() == Operation::Nop && decoded.load_type() == LoadType::NoLoad;
        let same_register = decoded.source() == decoded.destination();
        let bad_size =
            decoded.load_type() != LoadType::Immediate && decoded.load_size() != LoadSize::QWord;
        let broken = operation_and_load || neither || same_register || bad_size;
        assert_eq!(decoded.family() == InstructionType::Invalid, broken);
        if !broken {
            let expected = if decoded.load_type() != LoadType::NoLoad {
                InstructionType::Load
            } else {
                InstructionType::Operation
            };
            assert_eq!(decoded.family(), expected);
        }
    }
}

#[test]
fn every_word_decodes_to_one_of_the_four_families() {
    for word in 0..=0xFFFFu16 {
        let family = Instruction::parse_instruction(word).family();
        assert!(matches!(
            family,
            InstructionType::Nop
                | InstructionType::Invalid
                | InstructionType::Operation
                | InstructionType::Load
        ));
        assert_eq!(family == InstructionType::Nop, word == 0xFFFF);
    }
}

#[test]
fn only_zero_has_an_invalid_field() {
    for word in 1..=0xFFFFu16 {
        let decoded = Instruction::parse_instruction(word);
        assert_ne!(decoded.operation(), Operation::Invalid);
        assert_ne!(decoded.load_type(), LoadType::Invalid);
        assert_ne!(decoded.load_size(), LoadSize::Invalid);
        assert_ne!(decoded.source(), Register::Invalid);
        assert_ne!(decoded.destination(), Register::Invalid);
    }
}

#[test]
fn families_say_what_the_fields_hold() {
    for word in 0..=0xFFFFu16 {
        let decoded = Instruction::parse_instruction(word);
        match decoded.family() {
            InstructionType::Operation => {
                assert_ne!(decoded.operation(), Operation::Nop);
                assert_eq!(decoded.load_type(), LoadType::NoLoad);
                assert_eq!(decoded.load_size(), LoadSize::QWord);
                assert_ne!(decoded.source(), decoded.destination());
            }
            InstructionType::Load => {
                assert_eq!(decoded.operation(), Operation::Nop);
                assert_ne!(decoded.load_type(), LoadType::NoLoad);
                assert!(
                    decoded.load_type() == LoadType::Immediate
                        || decoded.load_size() == LoadSize::QWord
                );
                assert_ne!(decoded.source(), decoded.destination());
            }
            InstructionType::Nop => assert_eq!(word, 0xFFFF),
            InstructionType::Invalid => {}
        }
    }
}

#[test]
fn decoding_twice_gives_the_same_instruction() {
    for word in 0..=0xFFFFu16 {
        assert_eq!(
            Instruction::parse_instruction(word),
            Instruction::parse_instruction(word)
        );
    }
}
