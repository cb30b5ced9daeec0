use assembler::cond::Cond;
use assembler::error::{AssemblerError, ParseError};
use assembler::instructions::{
    FlexibleOperand, IndexMode, Instruction, Offset, Rd, Rm, Rn, Rotation, Rs, SetConditionCodes,
    Shift, UpDown,
};
use assembler::instructions::parse_reg_id;
use assembler::mnemonics::{BranchMnemonic, DataMnemonic, MemoryMnemonic, MultiplyMnemonic};
use assembler::program::{assemble_program, preprocess_asm_lines, INST_SIZE};

#[test]
fn test_add() {
    let add_inst_str = "add r4, r3, r5";
    let add_inst_expected = Instruction::DataProcessing(
        Cond::AL,
        DataMnemonic::ADD,
        SetConditionCodes::DontSetCodes,
        Rd(4),
        Rn(3),
        FlexibleOperand::RegisterWithShift(5, Shift(0)),
    );

    assert_eq!(Instruction::try_from(add_inst_str).unwrap(), add_inst_expected,);

    let expected_be: u32 = 0x05_40_83_E0;
    let encoding = add_inst_expected.to_machine_code();

    assert_eq!(
        encoding, expected_be,
        "\nactual: {encoding:#08x} | expected: {expected_be:#08x}"
    );
}

#[test]
fn test_sub() {
    let sub_inst_str = "sub r1, r0, r2";
    let sub_inst_expected = Instruction::DataProcessing(
        Cond::AL,
        DataMnemonic::SUB,
        SetConditionCodes::DontSetCodes,
        Rd(1),
        Rn(0),
        FlexibleOperand::RegisterWithShift(2, Shift(0)),
    );

    assert_eq!(Instruction::try_from(sub_inst_str).unwrap(), sub_inst_expected,);

    let expected_be: u32 = 0x02_10_40_E0;
    let expected_le = expected_be.to_le();
    let encoding = sub_inst_expected.to_machine_code();

    assert_eq!(
        encoding, expected_le,
        "\nactual: {encoding:#08x} | expected: {expected_le:#08x}"
    );
}

#[test]
fn test_mov() {
    let mov_inst_str = "mov r0, #1";
    let mov_inst_expected = Instruction::DataProcessing(
        Cond::AL,
        DataMnemonic::MOV,
        SetConditionCodes::DontSetCodes,
        Rd(0),
        Rn(0),
        FlexibleOperand::ImmediateWithRotation(1, Rotation(0)),
    );

    assert_eq!(Instruction::try_from(mov_inst_str).unwrap(), mov_inst_expected,);

    let expected_le = 0x01_00_a0_e3;
    let encoding = mov_inst_expected.to_machine_code();

    assert_eq!(
        encoding, expected_le,
        "\nactual: {encoding:#08x} | expected: {expected_le:#08x}"
    );
}

#[test]
fn test_mem() {
    let str_inst_str = "str r0, [sp, 8]";
    let str_inst_expected = Instruction::Mem(
        Cond::AL,
        MemoryMnemonic::STR,
        IndexMode::Offset,
        Rn(13),
        Rd(0),
        Offset::Immediate(8, UpDown::Up),
    );

    assert_eq!(Instruction::try_from(str_inst_str).unwrap(), str_inst_expected,);

    let encoding = str_inst_expected.to_machine_code();
    let expected = 0x08_00_8d_e5;
    assert_eq!(
        encoding, expected,
        "actual: {encoding:#8X} | expected: {expected:#8X}"
    );
}

#[test]
fn test_mul() {
    let mul_inst_str = "mul r0, r1, r2";
    let mul_inst_expected = Instruction::Mul(
        Cond::AL,
        MultiplyMnemonic::MUL,
        SetConditionCodes::DontSetCodes,
        Rd(0),
        Rn(0),
        Rs(2),
        Rm(1),
    );

    assert_eq!(Instruction::try_from(mul_inst_str).unwrap(), mul_inst_expected,);

    let encoding = mul_inst_expected.to_machine_code();
    let expected = 0x91_02_00_e0;
    assert_eq!(
        encoding, expected,
        "actual: {encoding:#8X} | expected: {expected:#8X}"
    );
}

// Each of the sixteen conditions lands, as its 4-bit code, in bits 7:4
// of the final byte-order-reversed word.
#[test]
fn test_all_conditions_in_final_word() {
    let conds: Vec<(Cond, u32)> = vec![
        (Cond::EQ, 0x0),
        (Cond::NE, 0x1),
        (Cond::CS, 0x2),
        (Cond::CC, 0x3),
        (Cond::MI, 0x4),
        (Cond::PL, 0x5),
        (Cond::VS, 0x6),
        (Cond::VC, 0x7),
        (Cond::HI, 0x8),
        (Cond::LS, 0x9),
        (Cond::GE, 0xA),
        (Cond::LT, 0xB),
        (Cond::GT, 0xC),
        (Cond::LE, 0xD),
        (Cond::AL, 0xE),
        (Cond::NV, 0xF),
    ];
    for (cond, code) in conds {
        let inst = Instruction::DataProcessing(
            cond,
            DataMnemonic::ADD,
            SetConditionCodes::DontSetCodes,
            Rd(0),
            Rn(1),
            FlexibleOperand::RegisterWithShift(2, Shift(0)),
        );
        let word = inst.to_machine_code();
        assert_eq!((word >> 4) & 0xF, code, "condition {code:#x}");
    }
}

#[test]
fn test_condition_suffix_parses() {
    let inst = Instruction::try_from("addeq r0, r1, r2").unwrap();
    assert_eq!(
        inst,
        Instruction::DataProcessing(
            Cond::EQ,
            DataMnemonic::ADD,
            SetConditionCodes::DontSetCodes,
            Rd(0),
            Rn(1),
            FlexibleOperand::RegisterWithShift(2, Shift(0)),
        )
    );
    let upper = Instruction::try_from("ADDEQ r0, r1, r2").unwrap();
    assert_eq!(inst, upper);
}

#[test]
fn test_cond_try_from() {
    assert_eq!(Cond::try_from("eq").unwrap(), Cond::EQ);
    assert_eq!(Cond::try_from("EQ").unwrap(), Cond::EQ);
    assert_eq!(Cond::try_from("nv").unwrap(), Cond::NV);
    assert!(matches!(
        Cond::try_from("zz"),
        Err(AssemblerError::BadCondition(s)) if s == "zz"
    ));
}

// The no-marker dialect: "mov r0, 1" encodes like "mov r0, #1".
#[test]
fn test_mov_without_marker() {
    let inst = Instruction::try_from("mov r0, 1").unwrap();
    assert_eq!(inst.to_machine_code(), 0x01_00_a0_e3);
}

#[test]
fn test_case_insensitive_mnemonic() {
    let encoding = Instruction::try_from("ADD R4, R3, R5").unwrap().to_machine_code();
    assert_eq!(encoding, 0x05_40_83_E0);
}

#[test]
fn test_special_register_names() {
    assert_eq!(parse_reg_id("fp").unwrap(), 11);
    assert_eq!(parse_reg_id("ip").unwrap(), 12);
    assert_eq!(parse_reg_id("sp").unwrap(), 13);
    assert_eq!(parse_reg_id("lr").unwrap(), 14);
    assert_eq!(parse_reg_id("pc").unwrap(), 15);
    assert_eq!(parse_reg_id("[sp").unwrap(), 13);
    assert_eq!(parse_reg_id("r0").unwrap(), 0);
    assert_eq!(parse_reg_id("R15").unwrap(), 15);
}

// A malformed register token always yields BadRegister, never a
// silently-assumed default register.
#[test]
fn test_bad_register() {
    assert!(matches!(
        parse_reg_id("x5"),
        Err(AssemblerError::Parse(ParseError::BadRegister(s))) if s == "x5"
    ));
    assert!(matches!(
        parse_reg_id(""),
        Err(AssemblerError::Parse(ParseError::BadRegister(s))) if s.is_empty()
    ));
    assert!(matches!(
        parse_reg_id("r16"),
        Err(AssemblerError::Parse(ParseError::BadRegister(_)))
    ));
    assert!(matches!(
        parse_reg_id("r"),
        Err(AssemblerError::Parse(ParseError::BadRegister(_)))
    ));
    assert!(matches!(
        Instruction::try_from("add x0, r1, r2"),
        Err(AssemblerError::Parse(ParseError::BadRegister(s))) if s == "x0"
    ));
}

#[test]
fn test_bad_mnemonic() {
    assert!(matches!(
        Instruction::try_from("foo r0, r1"),
        Err(AssemblerError::Parse(ParseError::BadMnemonic(s))) if s == "foo"
    ));
}

#[test]
fn test_ran_out_of_operands() {
    assert!(matches!(
        Instruction::try_from("add"),
        Err(AssemblerError::Parse(ParseError::RanOutOfOperands))
    ));
    assert!(matches!(
        Instruction::try_from("add r0"),
        Err(AssemblerError::Parse(ParseError::RanOutOfOperands))
    ));
}

#[test]
fn test_bad_flex_operand() {
    assert!(matches!(
        Instruction::try_from("add r0, r1, xyz"),
        Err(AssemblerError::Parse(ParseError::BadFlexOperand(s))) if s == "xyz"
    ));
    assert!(matches!(
        FlexibleOperand::try_from("xyz"),
        Err(AssemblerError::Parse(ParseError::BadFlexOperand(s))) if s == "xyz"
    ));
}

#[test]
fn test_bad_numeric_literal() {
    assert!(matches!(
        Instruction::try_from("mov r0, #300"),
        Err(AssemblerError::BadNumericLiteral(s)) if s == "300"
    ));
    assert!(matches!(
        Instruction::try_from("mov r0, 300"),
        Err(AssemblerError::BadNumericLiteral(s)) if s == "300"
    ));
    assert!(matches!(
        Instruction::try_from("b zz"),
        Err(AssemblerError::BadNumericLiteral(s)) if s == "zz"
    ));
}

#[test]
fn test_bad_condition_suffix() {
    assert!(matches!(
        Instruction::try_from("addqq r0, r1, r2"),
        Err(AssemblerError::BadCondition(s)) if s == "qq"
    ));
}

#[test]
fn test_classifier_priority() {
    // "bic" is data processing even though it starts with "b".
    let inst = Instruction::try_from("bic r0, r1, r2").unwrap();
    assert!(matches!(
        inst,
        Instruction::DataProcessing(_, DataMnemonic::BIC, _, _, _, _)
    ));
    // "strb" is the byte transfer, not "str" with a suffix.
    assert!(matches!(
        MemoryMnemonic::try_from("strb"),
        Ok(MemoryMnemonic::STRB)
    ));
    assert!(matches!(MemoryMnemonic::try_from("str"), Ok(MemoryMnemonic::STR)));
    // "bl" is the link branch, not "b" with a suffix.
    assert!(matches!(BranchMnemonic::try_from("bl"), Ok(BranchMnemonic::BL)));
    assert!(matches!(BranchMnemonic::try_from("b"), Ok(BranchMnemonic::B)));
    // "bx" is branch-and-exchange.
    let bx = Instruction::try_from("bx r3").unwrap();
    assert_eq!(bx, Instruction::BranchExec(Cond::AL, Rn(3)));
}

#[test]
fn test_spellings() {
    assert_eq!(DataMnemonic::ADD.spelling(), "add");
    assert_eq!(DataMnemonic::MVN.spelling(), "mvn");
    assert_eq!(MemoryMnemonic::STRB.spelling(), "strb");
    assert_eq!(BranchMnemonic::BL.spelling(), "bl");
}

#[test]
fn test_dp_opcodes() {
    assert_eq!(DataMnemonic::AND.opcode(), 0x0);
    assert_eq!(DataMnemonic::ADD.opcode(), 0x4);
    assert_eq!(DataMnemonic::MOV.opcode(), 0xD);
    assert_eq!(DataMnemonic::MVN.opcode(), 0xF);
}

#[test]
fn test_cond_codes() {
    assert_eq!(Cond::EQ.code(), 0x0);
    assert_eq!(Cond::AL.code(), 0xE);
    assert_eq!(Cond::NV.code(), 0xF);
}

#[test]
fn test_mul_four_operand_form() {
    let inst = Instruction::try_from("mul r0, r1, r2, r3").unwrap();
    assert_eq!(
        inst,
        Instruction::Mul(
            Cond::AL,
            MultiplyMnemonic::MUL,
            SetConditionCodes::DontSetCodes,
            Rd(0),
            Rn(1),
            Rs(3),
            Rm(2),
        )
    );
    assert_eq!(inst.to_machine_code(), 0x921300E0);
}

#[test]
fn test_branch_encodings() {
    let beq = Instruction::try_from("beq 4").unwrap();
    assert_eq!(beq, Instruction::Branch(Cond::EQ, BranchMnemonic::B, 4));
    assert_eq!(beq.to_machine_code(), 0x0400000A);

    let bl = Instruction::try_from("bl 8").unwrap();
    assert_eq!(bl, Instruction::Branch(Cond::AL, BranchMnemonic::BL, 8));
    assert_eq!(bl.to_machine_code(), 0x080000EB);

    // A negative offset keeps only its low 24 bits in the word.
    let back = Instruction::try_from("b -32").unwrap();
    assert_eq!(back, Instruction::Branch(Cond::AL, BranchMnemonic::B, 0xFFFF_FFE0));
    assert_eq!(back.to_machine_code(), 0xE0FFFFEA);
}

#[test]
fn test_bx_encoding() {
    let bx = Instruction::try_from("bx r3").unwrap();
    assert_eq!(bx.to_machine_code(), 0x13FF2FE1);
}

#[test]
fn test_mem_variants() {
    assert_eq!(
        Instruction::try_from("strb r1, [sp, 4]").unwrap().to_machine_code(),
        0x0410CDE5
    );
    assert_eq!(
        Instruction::try_from("ldr r2, [sp, 12]").unwrap().to_machine_code(),
        0x0C209DE5
    );
    // Without an offset token the offset defaults to 0.
    let ldrb = Instruction::try_from("ldrb r2, [sp]").unwrap();
    assert_eq!(
        ldrb,
        Instruction::Mem(
            Cond::AL,
            MemoryMnemonic::LDRB,
            IndexMode::Offset,
            Rn(13),
            Rd(2),
            Offset::Immediate(0, UpDown::Up),
        )
    );
    assert_eq!(ldrb.to_machine_code(), 0x0020DDE5);
}

#[test]
fn test_rotation_and_shift_fields() {
    let rot = Instruction::DataProcessing(
        Cond::AL,
        DataMnemonic::MOV,
        SetConditionCodes::DontSetCodes,
        Rd(0),
        Rn(0),
        FlexibleOperand::ImmediateWithRotation(1, Rotation(2)),
    );
    assert_eq!(rot.to_machine_code(), 0x0102A0E3);

    let sh = Instruction::DataProcessing(
        Cond::AL,
        DataMnemonic::ADD,
        SetConditionCodes::DontSetCodes,
        Rd(0),
        Rn(1),
        FlexibleOperand::RegisterWithShift(2, Shift(3)),
    );
    assert_eq!(sh.to_machine_code(), 0x320081E0);
}

#[test]
fn test_set_condition_codes_bit() {
    let s = Instruction::DataProcessing(
        Cond::AL,
        DataMnemonic::ADD,
        SetConditionCodes::SetCodes,
        Rd(0),
        Rn(0),
        FlexibleOperand::RegisterWithShift(1, Shift(0)),
    );
    assert_eq!(s.to_machine_code(), 0x010090E0);
}

// The 12-bit truncation of an oversized memory offset is deliberate.
#[test]
fn test_mem_offset_truncated_to_12_bits() {
    let inst = Instruction::Mem(
        Cond::AL,
        MemoryMnemonic::STR,
        IndexMode::Offset,
        Rn(13),
        Rd(0),
        Offset::Immediate(0xF008, UpDown::Up),
    );
    let full = Instruction::Mem(
        Cond::AL,
        MemoryMnemonic::STR,
        IndexMode::Offset,
        Rn(13),
        Rd(0),
        Offset::Immediate(0x008, UpDown::Up),
    );
    assert_eq!(inst.to_machine_code(), full.to_machine_code());
}

// Label resolution: the branch offset equals the label's address minus
// the branch line's address, and the rewritten line assembles.
#[test]
fn test_label_resolution() {
    let lines: Vec<String> = vec![
        "loop:".to_string(),
        "add r0,r0,r1".to_string(),
        "b loop".to_string(),
    ];
    let resolved = preprocess_asm_lines(&lines, INST_SIZE).unwrap();
    assert_eq!(resolved, vec!["add r0,r0,r1".to_string(), "b -32".to_string()]);

    let out = assemble_program(&lines, INST_SIZE).unwrap();
    assert_eq!(out.len(), 2);
    assert_eq!(out[0].0, "add r0,r0,r1");
    assert_eq!(out[1].0, "b loop");
    assert_eq!(out[1].1, Instruction::try_from("b -32").unwrap().to_machine_code());
}

#[test]
fn test_label_resolution_other_stride() {
    let lines: Vec<String> = vec![
        "loop:".to_string(),
        "add r0,r0,r1".to_string(),
        "b loop".to_string(),
    ];
    let resolved = preprocess_asm_lines(&lines, 4).unwrap();
    assert_eq!(resolved, vec!["add r0,r0,r1".to_string(), "b -4".to_string()]);
}

#[test]
fn test_forward_label() {
    let lines: Vec<String> = vec![
        "b end".to_string(),
        "add r0,r0,r1".to_string(),
        "end:".to_string(),
        "mov r0, #0".to_string(),
    ];
    let resolved = preprocess_asm_lines(&lines, INST_SIZE).unwrap();
    assert_eq!(
        resolved,
        vec![
            "b 64".to_string(),
            "add r0,r0,r1".to_string(),
            "mov r0, #0".to_string(),
        ]
    );
}

#[test]
fn test_undefined_label_is_fatal() {
    let lines: Vec<String> = vec!["b nowhere".to_string()];
    assert!(matches!(
        assemble_program(&lines, INST_SIZE),
        Err(AssemblerError::UndefinedLabel(s)) if s == "nowhere"
    ));
    assert!(matches!(
        preprocess_asm_lines(&lines, INST_SIZE),
        Err(AssemblerError::UndefinedLabel(s)) if s == "nowhere"
    ));
}

// Duplicate label names keep their later binding.
#[test]
fn test_duplicate_label_later_wins() {
    let lines: Vec<String> = vec![
        "x:".to_string(),
        "add r0,r0,r1".to_string(),
        "x:".to_string(),
        "b x".to_string(),
    ];
    let resolved = preprocess_asm_lines(&lines, INST_SIZE).unwrap();
    assert_eq!(resolved[1], "b 0");
}

// An unparseable non-branch line is skipped, not fatal; it still
// occupies an address.
#[test]
fn test_skip_and_continue_policy() {
    let lines: Vec<String> = vec![
        "add r0,r0,r1".to_string(),
        "".to_string(),
        "loop:".to_string(),
        "b loop".to_string(),
    ];
    let out = assemble_program(&lines, INST_SIZE).unwrap();
    assert_eq!(out.len(), 2);
    assert_eq!(out[0].0, "add r0,r0,r1");
    assert_eq!(out[1].0, "b loop");
    // The label sits past the empty line, so the branch offset is 0.
    assert_eq!(out[1].1, Instruction::try_from("b 0").unwrap().to_machine_code());
}

// Re-running the pipeline on the same input yields identical output,
// and encoding the same value twice yields identical words.
#[test]
fn test_pipeline_is_pure() {
    let lines: Vec<String> = vec![
        "loop:".to_string(),
        "add r0,r0,r1".to_string(),
        "str r0, [sp, 8]".to_string(),
        "b loop".to_string(),
    ];
    let once = assemble_program(&lines, INST_SIZE).unwrap();
    let twice = assemble_program(&lines, INST_SIZE).unwrap();
    assert_eq!(once, twice);

    let inst = Instruction::try_from("add r4, r3, r5").unwrap();
    assert_eq!(inst.clone().to_machine_code(), inst.to_machine_code());
}
