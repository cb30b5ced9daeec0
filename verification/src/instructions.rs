//! The typed instruction model, its operand parser and its encoder.
//!
//! An [`Instruction`] is a closed tagged union over five families, each
//! holding exactly the operands its encoding needs.  Parsing turns one
//! source line into an `Instruction`; encoding packs an `Instruction`
//! into a 32-bit machine word and finally reverses the word's byte
//! order, since the target stores instructions in the opposite byte
//! order from the conventional bit numbering of the field layout.

use crate::cond::{cond_code, cond_of_suffix, spec_cond_of_suffix, Cond};
use crate::error::{AssemblerError, AssemblerErrorView, ParseError, ParseErrorView};
use crate::mnemonics::{classify, dp_opcode, lemma_classify_spelling_prefix, mnemonic_spelling,
    mnemonic_spelling_len, spec_classify, BranchMnemonic, DataMnemonic, MemoryMnemonic, Mnemonic,
    MultiplyMnemonic};
use crate::text::{chars2, chars_to_string, contains_char, contains_char_exec, contains_seq,
    contains_seq_exec, dec_value, find_char, find_char_exec, is_dec, is_dec_exec,
    lemma_dec_value_nonneg, lemma_find_char, parse_dec_bounded, parse_signed_exec, remove_char,
    remove_char_exec, spec_parse_signed, split_on, split_on_exec, str_to_chars, subvec, trim_chars,
    trim_spec};
use vstd::prelude::*;

verus! {

/// The architectural register ids reachable by plain `r<n>` names, by
/// default.  Some revisions of the architecture permit ids up to 31;
/// the parser therefore takes the bound as an argument, and the plain
/// entry points use this default.
pub const DEFAULT_REG_BOUND: u8 = 15;

/// Transfer sizes of the architecture's memory operations.
#[derive(Clone, Copy, Debug, Eq, PartialEq, Structural)]
pub enum DataType {
    SignedWord,
    UnsignedWord,
    SignedHalfWord,
    UnsignedHalfWord,
    SignedByte,
    UnsignedByte,
}

/// The two broad shapes an operand can take.
#[derive(Clone, Copy, Debug, Eq, PartialEq, Structural)]
pub enum Operand {
    Register,
    Immediate(u64),
}

/// Destination register.
#[derive(Clone, Copy, Debug, Eq, PartialEq, Structural)]
pub struct Rd(pub u8);

/// First source register.
#[derive(Clone, Copy, Debug, Eq, PartialEq, Structural)]
pub struct Rn(pub u8);

/// Second source register.
#[derive(Clone, Copy, Debug, Eq, PartialEq, Structural)]
pub struct Rs(pub u8);

/// Third source register.
#[derive(Clone, Copy, Debug, Eq, PartialEq, Structural)]
pub struct Rm(pub u8);

/// A 4-bit rotation applied to an 8-bit immediate.
#[derive(Clone, Copy, Debug, Eq, PartialEq, Structural)]
pub struct Rotation(pub u8);

/// A 4-bit shift applied to a register operand.
#[derive(Clone, Copy, Debug, Eq, PartialEq, Structural)]
pub struct Shift(pub u8);

/// An ALU second operand: a shifted register, or a rotated immediate.
#[derive(Clone, Copy, Debug, Eq, PartialEq, Structural)]
pub enum FlexibleOperand {
    RegisterWithShift(u8, Shift),
    ImmediateWithRotation(u8, Rotation),
}

/// Whether an instruction updates the comparison flags.
#[derive(Clone, Copy, Debug, Eq, PartialEq, Structural)]
pub enum SetConditionCodes {
    SetCodes,
    DontSetCodes,
}

/// Direction of a memory offset.
#[derive(Clone, Copy, Debug, Eq, PartialEq, Structural)]
pub enum UpDown {
    Up,
    Down,
}

/// A memory-transfer offset.  Only the immediate, up-direction form is
/// reachable from this dialect's parser; the register-shifted and
/// down-direction forms exist in the model but are currently
/// unparseable.
#[derive(Clone, Copy, Debug, Eq, PartialEq, Structural)]
pub enum Offset {
    RegisterWithShift(u8, Shift, UpDown),
    Immediate(u16, UpDown),
}

/// Whether a memory instruction computes its effective address before
/// or after the transfer, and whether it writes the address back.
#[derive(Clone, Copy, Debug, Eq, PartialEq, Structural)]
pub enum IndexMode {
    PostIndex,
    Offset,
    PreIndex,
}

/// A structured instruction, one variant per format family.
#[derive(Clone, Debug, Eq, PartialEq, Structural)]
pub enum Instruction {
    DataProcessing(Cond, DataMnemonic, SetConditionCodes, Rd, Rn, FlexibleOperand),
    Mem(Cond, MemoryMnemonic, IndexMode, Rn, Rd, Offset),
    Branch(Cond, BranchMnemonic, u32),
    BranchExec(Cond, Rn),
    Mul(Cond, MultiplyMnemonic, SetConditionCodes, Rd, Rn, Rs, Rm),
}

impl FlexibleOperand {
    /// Register and shift (or rotation) values fit their 4-bit fields.
    pub open spec fn wf(self) -> bool {
        match self {
            FlexibleOperand::RegisterWithShift(reg, sh) => reg <= 15 && sh.0 <= 15,
            FlexibleOperand::ImmediateWithRotation(_, rot) => rot.0 <= 15,
        }
    }
}

impl Offset {
    /// Register and shift values fit their 4-bit fields.  An immediate
    /// offset may exceed 12 bits; the encoder truncates it visibly.
    pub open spec fn wf(self) -> bool {
        match self {
            Offset::RegisterWithShift(reg, sh, _) => reg <= 15 && sh.0 <= 15,
            Offset::Immediate(_, _) => true,
        }
    }
}

impl Instruction {
    /// Every register id and sub-word field fits the 4-bit field that
    /// the encoding assigns to it.
    pub open spec fn wf(self) -> bool {
        match self {
            Instruction::DataProcessing(_, _, _, rd, rn, op2) => rd.0 <= 15 && rn.0 <= 15
                && op2.wf(),
            Instruction::Mem(_, _, _, rn, rd, offset) => rn.0 <= 15 && rd.0 <= 15 && offset.wf(),
            Instruction::Branch(_, _, _) => true,
            Instruction::BranchExec(_, rn) => rn.0 <= 15,
            Instruction::Mul(_, _, _, rd, rn, rs, rm) => rd.0 <= 15 && rn.0 <= 15 && rs.0 <= 15
                && rm.0 <= 15,
        }
    }

    /// The condition under which this instruction executes.
    pub open spec fn spec_cond(self) -> Cond {
        match self {
            Instruction::DataProcessing(c, _, _, _, _, _) => c,
            Instruction::Mem(c, _, _, _, _, _) => c,
            Instruction::Branch(c, _, _) => c,
            Instruction::BranchExec(c, _) => c,
            Instruction::Mul(c, _, _, _, _, _, _) => c,
        }
    }
}

/// The register id named by a token, if any.
///
/// A token containing one of the special names `fp`, `ip`, `sp`, `lr`,
/// `pc` (tried in that order) resolves to its fixed id.  Otherwise the
/// token must be a register-prefix letter (`r` or `R`) followed by a
/// decimal id no greater than `max`.
pub open spec fn spec_reg_id(t: Seq<char>, max: u8) -> Option<u8> {
    if contains_seq(t, seq!['f', 'p']) {
        Some(11)
    } else if contains_seq(t, seq!['i', 'p']) {
        Some(12)
    } else if contains_seq(t, seq!['s', 'p']) {
        Some(13)
    } else if contains_seq(t, seq!['l', 'r']) {
        Some(14)
    } else if contains_seq(t, seq!['p', 'c']) {
        Some(15)
    } else if t.len() >= 2 && (t[0] == 'r' || t[0] == 'R') && is_dec(t.drop_first()) && dec_value(
        t.drop_first(),
    ) <= max {
        Some(dec_value(t.drop_first()) as u8)
    } else {
        None
    }
}

/// The register id named by a token, if any.
pub(crate) fn reg_id_of(t: &Vec<char>, max: u8) -> (r: Option<u8>)
    ensures
        r == spec_reg_id(t@, max),
{
    if contains_seq_exec(t, &chars2('f', 'p')) {
        return Some(11);
    }
    if contains_seq_exec(t, &chars2('i', 'p')) {
        return Some(12);
    }
    if contains_seq_exec(t, &chars2('s', 'p')) {
        return Some(13);
    }
    if contains_seq_exec(t, &chars2('l', 'r')) {
        return Some(14);
    }
    if contains_seq_exec(t, &chars2('p', 'c')) {
        return Some(15);
    }
    if t.len() >= 2 && (t[0] == 'r' || t[0] == 'R') {
        let digits = subvec(t, 1, t.len());
        proof {
            assert(digits@ =~= t@.drop_first());
        }
        match parse_dec_bounded(&digits, max as u32) {
            Some(v) => Some(v as u8),
            None => None,
        }
    } else {
        None
    }
}

/// Resolve a register token under the given upper bound on plain
/// register ids.  A token outside the register-name grammar yields
/// `BadRegister`, never a silently-assumed default register.
pub fn parse_reg_id_bounded(value: &str, max: u8) -> (r: Result<u8, AssemblerError>)
    ensures
        match r {
            Ok(id) => spec_reg_id(value@, max) == Some(id),
            Err(e) => spec_reg_id(value@, max) is None && e@ == AssemblerErrorView::Parse(
                ParseErrorView::BadRegister(value@),
            ),
        },
{
    let t = str_to_chars(value);
    match reg_id_of(&t, max) {
        Some(id) => Ok(id),
        None => Err(AssemblerError::Parse(ParseError::BadRegister(value.to_owned()))),
    }
}

/// Resolve a register token under the default register bound.
pub fn parse_reg_id(value: &str) -> (r: Result<u8, AssemblerError>)
    ensures
        match r {
            Ok(id) => spec_reg_id(value@, DEFAULT_REG_BOUND) == Some(id),
            Err(e) => spec_reg_id(value@, DEFAULT_REG_BOUND) is None && e@
                == AssemblerErrorView::Parse(ParseErrorView::BadRegister(value@)),
        },
{
    parse_reg_id_bounded(value, DEFAULT_REG_BOUND)
}

/// A resolved register id fits the encoder's 4-bit register fields
/// whenever the bound does.
pub proof fn lemma_reg_id_wf(t: Seq<char>, max: u8)
    requires
        max <= 15,
        spec_reg_id(t, max) is Some,
    ensures
        spec_reg_id(t, max)->Some_0 <= 15,
{
    if !contains_seq(t, seq!['f', 'p']) && !contains_seq(t, seq!['i', 'p']) && !contains_seq(
        t,
        seq!['s', 'p'],
    ) && !contains_seq(t, seq!['l', 'r']) && !contains_seq(t, seq!['p', 'c']) {
        lemma_dec_value_nonneg(t.drop_first());
    }
}

/// The flexible operand denoted by a token, if any.
///
/// A register token becomes a register operand with shift 0.  Otherwise
/// a decimal literal, optionally marked with `#` characters (which are
/// stripped wherever they stand), becomes an 8-bit immediate with
/// rotation 0; a marked or unmarked literal out of 8-bit range is a
/// numeric-literal error.  Anything else is `BadFlexOperand`.
pub open spec fn spec_flex_operand(t: Seq<char>, max: u8) -> Result<
    FlexibleOperand,
    AssemblerErrorView,
> {
    if spec_reg_id(t, max) is Some {
        Ok(FlexibleOperand::RegisterWithShift(spec_reg_id(t, max)->Some_0, Shift(0)))
    } else if contains_char(t, '#') {
        let digits = remove_char(t, '#');
        if is_dec(digits) && dec_value(digits) <= 255 {
            Ok(FlexibleOperand::ImmediateWithRotation(dec_value(digits) as u8, Rotation(0)))
        } else {
            Err(AssemblerErrorView::BadNumericLiteral(digits))
        }
    } else if is_dec(t) {
        if dec_value(t) <= 255 {
            Ok(FlexibleOperand::ImmediateWithRotation(dec_value(t) as u8, Rotation(0)))
        } else {
            Err(AssemblerErrorView::BadNumericLiteral(t))
        }
    } else {
        Err(AssemblerErrorView::Parse(ParseErrorView::BadFlexOperand(t)))
    }
}

/// The flexible operand denoted by a token, if any.
pub(crate) fn flex_operand_of(t: &Vec<char>, max: u8) -> (r: Result<
    FlexibleOperand,
    AssemblerError,
>)
    ensures
        match r {
            Ok(f) => spec_flex_operand(t@, max) == Ok::<FlexibleOperand, AssemblerErrorView>(f),
            Err(e) => spec_flex_operand(t@, max) == Err::<FlexibleOperand, AssemblerErrorView>(e@),
        },
{
    if let Some(reg) = reg_id_of(t, max) {
        return Ok(FlexibleOperand::RegisterWithShift(reg, Shift(0)));
    }
    if contains_char_exec(t, '#') {
        let digits = remove_char_exec(t, '#');
        match parse_dec_bounded(&digits, 255) {
            Some(v) => Ok(FlexibleOperand::ImmediateWithRotation(v as u8, Rotation(0))),
            None => Err(AssemblerError::BadNumericLiteral(chars_to_string(&digits))),
        }
    } else {
        match parse_dec_bounded(t, 255) {
            Some(v) => Ok(FlexibleOperand::ImmediateWithRotation(v as u8, Rotation(0))),
            None => {
                if is_dec_exec(t) {
                    Err(AssemblerError::BadNumericLiteral(chars_to_string(t)))
                } else {
                    Err(AssemblerError::Parse(ParseError::BadFlexOperand(chars_to_string(t))))
                }
            },
        }
    }
}


/// A parse result, with the error taken to its spec-level view.
pub open spec fn res_view(r: Result<Instruction, AssemblerError>) -> Result<
    Instruction,
    AssemblerErrorView,
> {
    match r {
        Ok(i) => Ok(i),
        Err(e) => Err(e@),
    }
}

/// The two's-complement 32-bit word holding a signed offset.
pub open spec fn offset_word(n: int) -> u32
    recommends
        -0x1_0000_0000 < n < 0x1_0000_0000,
{
    if n >= 0 {
        n as u32
    } else {
        (n + 0x1_0000_0000) as u32
    }
}

/// Data-processing operands: a destination register, then (except for
/// `mov`, whose first source register is fixed to 0) a source register,
/// then a flexible operand.  The set-condition-codes flag is never set
/// by this dialect's parser.
pub open spec fn spec_parse_dp(
    dm: DataMnemonic,
    cond: Cond,
    ops: Seq<Seq<char>>,
    max: u8,
) -> Result<Instruction, AssemblerErrorView> {
    if ops.len() < 1 {
        Err(AssemblerErrorView::Parse(ParseErrorView::RanOutOfOperands))
    } else {
        let t0 = trim_spec(ops[0]);
        match spec_reg_id(t0, max) {
            None => Err(AssemblerErrorView::Parse(ParseErrorView::BadRegister(t0))),
            Some(rd) => {
                if dm == DataMnemonic::MOV {
                    if ops.len() < 2 {
                        Err(AssemblerErrorView::Parse(ParseErrorView::RanOutOfOperands))
                    } else {
                        match spec_flex_operand(trim_spec(ops[1]), max) {
                            Err(e) => Err(e),
                            Ok(fo) => Ok(
                                Instruction::DataProcessing(
                                    cond,
                                    dm,
                                    SetConditionCodes::DontSetCodes,
                                    Rd(rd),
                                    Rn(0),
                                    fo,
                                ),
                            ),
                        }
                    }
                } else {
                    if ops.len() < 2 {
                        Err(AssemblerErrorView::Parse(ParseErrorView::RanOutOfOperands))
                    } else {
                        let t1 = trim_spec(ops[1]);
                        match spec_reg_id(t1, max) {
                            None => Err(AssemblerErrorView::Parse(ParseErrorView::BadRegister(t1))),
                            Some(rn) => {
                                if ops.len() < 3 {
                                    Err(AssemblerErrorView::Parse(ParseErrorView::RanOutOfOperands))
                                } else {
                                    match spec_flex_operand(trim_spec(ops[2]), max) {
                                        Err(e) => Err(e),
                                        Ok(fo) => Ok(
                                            Instruction::DataProcessing(
                                                cond,
                                                dm,
                                                SetConditionCodes::DontSetCodes,
                                                Rd(rd),
                                                Rn(rn),
                                                fo,
                                            ),
                                        ),
                                    }
                                }
                            },
                        }
                    }
                }
            },
        }
    }
}

/// The memory offset among the remaining operand tokens: each token is
/// stripped of closing brackets and trimmed, and the first one that
/// reads as an unsigned 16-bit decimal is the offset; 0 if none does.
pub open spec fn spec_mem_offset(rest: Seq<Seq<char>>) -> u16
    decreases rest.len(),
{
    if rest.len() == 0 {
        0
    } else {
        let u = trim_spec(remove_char(rest[0], ']'));
        if is_dec(u) && dec_value(u) <= 0xFFFF {
            dec_value(u) as u16
        } else {
            spec_mem_offset(rest.drop_first())
        }
    }
}

/// Memory-transfer operands: destination register, base register, then
/// an optional bracketed immediate offset.  The index mode is always
/// `Offset` and the direction always `Up` in this dialect.
pub open spec fn spec_parse_mem(
    mm: MemoryMnemonic,
    cond: Cond,
    ops: Seq<Seq<char>>,
    max: u8,
) -> Result<Instruction, AssemblerErrorView> {
    if ops.len() < 1 {
        Err(AssemblerErrorView::Parse(ParseErrorView::RanOutOfOperands))
    } else {
        let t0 = trim_spec(ops[0]);
        match spec_reg_id(t0, max) {
            None => Err(AssemblerErrorView::Parse(ParseErrorView::BadRegister(t0))),
            Some(rd) => {
                if ops.len() < 2 {
                    Err(AssemblerErrorView::Parse(ParseErrorView::RanOutOfOperands))
                } else {
                    let t1 = trim_spec(ops[1]);
                    match spec_reg_id(t1, max) {
                        None => Err(AssemblerErrorView::Parse(ParseErrorView::BadRegister(t1))),
                        Some(rn) => Ok(
                            Instruction::Mem(
                                cond,
                                mm,
                                IndexMode::Offset,
                                Rn(rn),
                                Rd(rd),
                                Offset::Immediate(spec_mem_offset(ops.skip(2)), UpDown::Up),
                            ),
                        ),
                    }
                }
            },
        }
    }
}

/// Multiply operands: a destination register and two or three source
/// registers.  With a fourth register present, the three non-destination
/// operands bind in order to the accumulator slot, the multiplicand and
/// the multiplier; with only two, the accumulator slot defaults to
/// register 0 and the two registers bind to multiplicand and multiplier.
/// The asymmetry between the two forms is part of the dialect.
pub open spec fn spec_parse_mul(cond: Cond, ops: Seq<Seq<char>>, max: u8) -> Result<
    Instruction,
    AssemblerErrorView,
> {
    if ops.len() < 1 {
        Err(AssemblerErrorView::Parse(ParseErrorView::RanOutOfOperands))
    } else {
        let t0 = trim_spec(ops[0]);
        match spec_reg_id(t0, max) {
            None => Err(AssemblerErrorView::Parse(ParseErrorView::BadRegister(t0))),
            Some(rd) => {
                if ops.len() < 2 {
                    Err(AssemblerErrorView::Parse(ParseErrorView::RanOutOfOperands))
                } else {
                    let t1 = trim_spec(ops[1]);
                    match spec_reg_id(t1, max) {
                        None => Err(AssemblerErrorView::Parse(ParseErrorView::BadRegister(t1))),
                        Some(r2) => {
                            if ops.len() < 3 {
                                Err(AssemblerErrorView::Parse(ParseErrorView::RanOutOfOperands))
                            } else {
                                let t2 = trim_spec(ops[2]);
                                match spec_reg_id(t2, max) {
                                    None => Err(
                                        AssemblerErrorView::Parse(ParseErrorView::BadRegister(t2)),
                                    ),
                                    Some(r3) => {
                                        if ops.len() >= 4 && spec_reg_id(trim_spec(ops[3]), max)
                                            is Some {
                                            Ok(
                                                Instruction::Mul(
                                                    cond,
                                                    MultiplyMnemonic::MUL,
                                                    SetConditionCodes::DontSetCodes,
                                                    Rd(rd),
                                                    Rn(r2),
                                                    Rs(spec_reg_id(trim_spec(ops[3]), max)->Some_0),
                                                    Rm(r3),
                                                ),
                                            )
                                        } else {
                                            Ok(
                                                Instruction::Mul(
                                                    cond,
                                                    MultiplyMnemonic::MUL,
                                                    SetConditionCodes::DontSetCodes,
                                                    Rd(rd),
                                                    Rn(0),
                                                    Rs(r3),
                                                    Rm(r2),
                                                ),
                                            )
                                        }
                                    },
                                }
                            }
                        },
                    }
                }
            },
        }
    }
}

/// Branch operand: a single signed decimal, the relative word offset
/// already substituted by the label resolver.  Its low 32 bits are kept
/// as a two's-complement word.
pub open spec fn spec_parse_branch(bm: BranchMnemonic, cond: Cond, ops: Seq<Seq<char>>) -> Result<
    Instruction,
    AssemblerErrorView,
> {
    if ops.len() < 1 {
        Err(AssemblerErrorView::Parse(ParseErrorView::RanOutOfOperands))
    } else {
        let t0 = trim_spec(ops[0]);
        match spec_parse_signed(t0) {
            None => Err(AssemblerErrorView::BadNumericLiteral(t0)),
            Some(n) => if -0xFFFF_FFFF <= n <= 0xFFFF_FFFF {
                Ok(Instruction::Branch(cond, bm, offset_word(n)))
            } else {
                Err(AssemblerErrorView::BadNumericLiteral(t0))
            },
        }
    }
}

/// Branch-and-exchange operand: a single target register.
pub open spec fn spec_parse_bx(cond: Cond, ops: Seq<Seq<char>>, max: u8) -> Result<
    Instruction,
    AssemblerErrorView,
> {
    if ops.len() < 1 {
        Err(AssemblerErrorView::Parse(ParseErrorView::RanOutOfOperands))
    } else {
        let t0 = trim_spec(ops[0]);
        match spec_reg_id(t0, max) {
            None => Err(AssemblerErrorView::Parse(ParseErrorView::BadRegister(t0))),
            Some(rn) => Ok(Instruction::BranchExec(cond, Rn(rn))),
        }
    }
}

/// Operand parsing for a classified mnemonic.
pub open spec fn spec_parse_operands(
    m: Mnemonic,
    cond: Cond,
    ops: Seq<Seq<char>>,
    max: u8,
) -> Result<Instruction, AssemblerErrorView> {
    match m {
        Mnemonic::Data(dm) => spec_parse_dp(dm, cond, ops, max),
        Mnemonic::Mem(mm) => spec_parse_mem(mm, cond, ops, max),
        Mnemonic::Mul(_) => spec_parse_mul(cond, ops, max),
        Mnemonic::Branch(bm) => spec_parse_branch(bm, cond, ops),
        Mnemonic::BranchExec(_) => spec_parse_bx(cond, ops, max),
    }
}

/// Parsing of one whole source line.
///
/// The trimmed line splits at its first space into an opcode token and
/// the operand text.  A line without a space has no operands and fails
/// with `RanOutOfOperands`.  The opcode token is classified
/// most-specific-first; the text left after the matched spelling is the
/// condition suffix, empty meaning `AL`.  The operand text splits on
/// commas and parses per family.
pub open spec fn spec_parse_line(s: Seq<char>, max: u8) -> Result<
    Instruction,
    AssemblerErrorView,
> {
    let t = trim_spec(s);
    let i = find_char(t, ' ');
    if !(0 <= i < t.len()) {
        Err(AssemblerErrorView::Parse(ParseErrorView::RanOutOfOperands))
    } else {
        let head = t.subrange(0, i);
        let rest = t.subrange(i + 1, t.len() as int);
        match spec_classify(head) {
            None => Err(AssemblerErrorView::Parse(ParseErrorView::BadMnemonic(head))),
            Some(m) => {
                match spec_head_cond(head, m) {
                    None => Err(
                        AssemblerErrorView::BadCondition(
                            head.skip(mnemonic_spelling(m).len() as int),
                        ),
                    ),
                    Some(cond) => spec_parse_operands(m, cond, split_on(rest, ','), max),
                }
            },
        }
    }
}

/// The condition suffix of a classified opcode token: the text left
/// after the matched spelling, empty meaning `AL`.
pub open spec fn spec_head_cond(head: Seq<char>, m: Mnemonic) -> Option<Cond> {
    let suffix = head.skip(mnemonic_spelling(m).len() as int);
    if suffix.len() == 0 {
        Some(Cond::AL)
    } else {
        spec_cond_of_suffix(suffix)
    }
}

/// The memory offset among the operand tokens from position `k` on.
fn mem_offset_from(
    ops: &Vec<Vec<char>>,
    k: usize,
    Ghost(opsv): Ghost<Seq<Seq<char>>>,
) -> (r: u16)
    requires
        k <= ops@.len(),
        opsv.len() == ops@.len(),
        forall|j: int| 0 <= j < opsv.len() ==> opsv[j] == ops@[j]@,
    ensures
        r == spec_mem_offset(opsv.skip(k as int)),
    decreases ops@.len() - k,
{
    if k == ops.len() {
        proof {
            assert(opsv.skip(k as int) =~= Seq::<Seq<char>>::empty());
        }
        0
    } else {
        let stripped = remove_char_exec(&ops[k], ']');
        let u = trim_chars(&stripped);
        proof {
            assert(opsv.skip(k as int)[0] == opsv[k as int]);
        }
        match parse_dec_bounded(&u, 0xFFFF) {
            Some(v) => v as u16,
            None => {
                proof {
                    assert(opsv.skip(k as int).drop_first() =~= opsv.skip(k + 1));
                }
                mem_offset_from(ops, k + 1, Ghost(opsv))
            },
        }
    }
}

/// Operand parsing for a classified mnemonic, on split operand tokens.
fn parse_operands(
    m: Mnemonic,
    cond: Cond,
    ops: &Vec<Vec<char>>,
    max: u8,
    Ghost(opsv): Ghost<Seq<Seq<char>>>,
) -> (r: Result<Instruction, AssemblerError>)
    requires
        opsv.len() == ops@.len(),
        forall|j: int| 0 <= j < opsv.len() ==> opsv[j] == ops@[j]@,
    ensures
        res_view(r) == spec_parse_operands(m, cond, opsv, max),
{
    match m {
        Mnemonic::Data(dm) => {
            if ops.len() < 1 {
                return Err(AssemblerError::Parse(ParseError::RanOutOfOperands));
            }
            let t0 = trim_chars(&ops[0]);
            let rd = match reg_id_of(&t0, max) {
                Some(rd) => rd,
                None => {
                    return Err(
                        AssemblerError::Parse(ParseError::BadRegister(chars_to_string(&t0))),
                    );
                },
            };
            if matches!(dm, DataMnemonic::MOV) {
                if ops.len() < 2 {
                    return Err(AssemblerError::Parse(ParseError::RanOutOfOperands));
                }
                let t1 = trim_chars(&ops[1]);
                match flex_operand_of(&t1, max) {
                    Err(e) => Err(e),
                    Ok(fo) => Ok(
                        Instruction::DataProcessing(
                            cond,
                            dm,
                            SetConditionCodes::DontSetCodes,
                            Rd(rd),
                            Rn(0),
                            fo,
                        ),
                    ),
                }
            } else {
                if ops.len() < 2 {
                    return Err(AssemblerError::Parse(ParseError::RanOutOfOperands));
                }
                let t1 = trim_chars(&ops[1]);
                let rn = match reg_id_of(&t1, max) {
                    Some(rn) => rn,
                    None => {
                        return Err(
                            AssemblerError::Parse(ParseError::BadRegister(chars_to_string(&t1))),
                        );
                    },
                };
                if ops.len() < 3 {
                    return Err(AssemblerError::Parse(ParseError::RanOutOfOperands));
                }
                let t2 = trim_chars(&ops[2]);
                match flex_operand_of(&t2, max) {
                    Err(e) => Err(e),
                    Ok(fo) => Ok(
                        Instruction::DataProcessing(
                            cond,
                            dm,
                            SetConditionCodes::DontSetCodes,
                            Rd(rd),
                            Rn(rn),
                            fo,
                        ),
                    ),
                }
            }
        },
        Mnemonic::Mem(mm) => {
            if ops.len() < 1 {
                return Err(AssemblerError::Parse(ParseError::RanOutOfOperands));
            }
            let t0 = trim_chars(&ops[0]);
            let rd = match reg_id_of(&t0, max) {
                Some(rd) => rd,
                None => {
                    return Err(
                        AssemblerError::Parse(ParseError::BadRegister(chars_to_string(&t0))),
                    );
                },
            };
            if ops.len() < 2 {
                return Err(AssemblerError::Parse(ParseError::RanOutOfOperands));
            }
            let t1 = trim_chars(&ops[1]);
            let rn = match reg_id_of(&t1, max) {
                Some(rn) => rn,
                None => {
                    return Err(
                        AssemblerError::Parse(ParseError::BadRegister(chars_to_string(&t1))),
                    );
                },
            };
            let off = mem_offset_from(ops, 2, Ghost(opsv));
            Ok(
                Instruction::Mem(
                    cond,
                    mm,
                    IndexMode::Offset,
                    Rn(rn),
                    Rd(rd),
                    Offset::Immediate(off, UpDown::Up),
                ),
            )
        },
        Mnemonic::Mul(_) => {
            if ops.len() < 1 {
                return Err(AssemblerError::Parse(ParseError::RanOutOfOperands));
            }
            let t0 = trim_chars(&ops[0]);
            let rd = match reg_id_of(&t0, max) {
                Some(rd) => rd,
                None => {
                    return Err(
                        AssemblerError::Parse(ParseError::BadRegister(chars_to_string(&t0))),
                    );
                },
            };
            if ops.len() < 2 {
                return Err(AssemblerError::Parse(ParseError::RanOutOfOperands));
            }
            let t1 = trim_chars(&ops[1]);
            let r2 = match reg_id_of(&t1, max) {
                Some(r2) => r2,
                None => {
                    return Err(
                        AssemblerError::Parse(ParseError::BadRegister(chars_to_string(&t1))),
                    );
                },
            };
            if ops.len() < 3 {
                return Err(AssemblerError::Parse(ParseError::RanOutOfOperands));
            }
            let t2 = trim_chars(&ops[2]);
            let r3 = match reg_id_of(&t2, max) {
                Some(r3) => r3,
                None => {
                    return Err(
                        AssemblerError::Parse(ParseError::BadRegister(chars_to_string(&t2))),
                    );
                },
            };
            if ops.len() >= 4 {
                let t3 = trim_chars(&ops[3]);
                if let Some(r4) = reg_id_of(&t3, max) {
                    return Ok(
                        Instruction::Mul(
                            cond,
                            MultiplyMnemonic::MUL,
                            SetConditionCodes::DontSetCodes,
                            Rd(rd),
                            Rn(r2),
                            Rs(r4),
                            Rm(r3),
                        ),
                    );
                }
            }
            Ok(
                Instruction::Mul(
                    cond,
                    MultiplyMnemonic::MUL,
                    SetConditionCodes::DontSetCodes,
                    Rd(rd),
                    Rn(0),
                    Rs(r3),
                    Rm(r2),
                ),
            )
        },
        Mnemonic::Branch(bm) => {
            if ops.len() < 1 {
                return Err(AssemblerError::Parse(ParseError::RanOutOfOperands));
            }
            let t0 = trim_chars(&ops[0]);
            match parse_signed_exec(&t0) {
                None => Err(AssemblerError::BadNumericLiteral(chars_to_string(&t0))),
                Some(n) => {
                    let w: u32 = if n >= 0 {
                        n as u32
                    } else {
                        ((n + 0x1_0000_0000i64) as u32)
                    };
                    Ok(Instruction::Branch(cond, bm, w))
                },
            }
        },
        Mnemonic::BranchExec(_) => {
            if ops.len() < 1 {
                return Err(AssemblerError::Parse(ParseError::RanOutOfOperands));
            }
            let t0 = trim_chars(&ops[0]);
            match reg_id_of(&t0, max) {
                Some(rn) => Ok(Instruction::BranchExec(cond, Rn(rn))),
                None => Err(AssemblerError::Parse(ParseError::BadRegister(chars_to_string(&t0)))),
            }
        },
    }
}

impl Instruction {
    /// Parse one source line under the given register bound.
    pub fn try_from_bounded(value: &str, max: u8) -> (r: Result<Instruction, AssemblerError>)
        ensures
            res_view(r) == spec_parse_line(value@, max),
    {
        let chars = str_to_chars(value);
        Self::parse_line_chars(&chars, max)
    }

    /// Parse one source line under the default register bound.
    pub fn try_from(value: &str) -> (r: Result<Instruction, AssemblerError>)
        ensures
            res_view(r) == spec_parse_line(value@, DEFAULT_REG_BOUND),
    {
        Self::try_from_bounded(value, DEFAULT_REG_BOUND)
    }

    /// Parse one source line given as characters.
    pub(crate) fn parse_line_chars(chars: &Vec<char>, max: u8) -> (r: Result<
        Instruction,
        AssemblerError,
    >)
        ensures
            res_view(r) == spec_parse_line(chars@, max),
    {
        let t = trim_chars(chars);
        proof {
            lemma_find_char(t@, ' ');
        }
        let i = match find_char_exec(&t, ' ') {
            None => {
                return Err(AssemblerError::Parse(ParseError::RanOutOfOperands));
            },
            Some(i) => i,
        };
        let head = subvec(&t, 0, i);
        let n = t.len();
        let rest = subvec(&t, i + 1, n);
        let m = match classify(&head) {
            None => {
                return Err(AssemblerError::Parse(ParseError::BadMnemonic(chars_to_string(&head))));
            },
            Some(m) => m,
        };
        proof {
            lemma_classify_spelling_prefix(head@);
        }
        let sl = mnemonic_spelling_len(m);
        let suffix = subvec(&head, sl, head.len());
        proof {
            assert(suffix@ =~= head@.skip(mnemonic_spelling(m).len() as int));
        }
        let cond = if suffix.len() == 0 {
            Cond::AL
        } else {
            match cond_of_suffix(&suffix) {
                Some(c) => c,
                None => {
                    return Err(AssemblerError::BadCondition(chars_to_string(&suffix)));
                },
            }
        };
        let ops = split_on_exec(&rest, ',');
        parse_operands(m, cond, &ops, max, Ghost(split_on(rest@, ',')))
    }
}

/// The final byte-order reversal: the four bytes of the conventional
/// word, most significant first, become the word's bytes least
/// significant first.
pub open spec fn spec_swap_bytes(w: u32) -> u32 {
    ((w & 0xFF) << 24) | (((w >> 8) & 0xFF) << 16) | (((w >> 16) & 0xFF) << 8) | ((w >> 24) & 0xFF)
}

/// The low 12 bits of a data-processing word: `(shift << 4) | register`
/// for a register operand, `(rotation << 8) | immediate` for an
/// immediate operand.
pub open spec fn spec_flex_bits(op2: FlexibleOperand) -> u32 {
    match op2 {
        FlexibleOperand::RegisterWithShift(reg, sh) => ((sh.0 as u32) << 4) | (reg as u32),
        FlexibleOperand::ImmediateWithRotation(imm, rot) => ((rot.0 as u32) << 8) | (imm as u32),
    }
}

/// The low 12 bits of a memory word: a register offset as in the
/// data-processing case, or the immediate truncated to 12 bits.
pub open spec fn spec_offset_bits(offset: Offset) -> u32 {
    match offset {
        Offset::RegisterWithShift(reg, sh, _) => ((sh.0 as u32) << 4) | (reg as u32),
        Offset::Immediate(imm, _) => (imm & 0x0FFF) as u32,
    }
}

/// The conventional data-processing word.  Bits 31:28 condition; 25 the
/// immediate bit; 24:21 the family opcode; 20 the set-condition-codes
/// flag; 19:16 the first source register; 15:12 the destination
/// register; 11:0 the flexible operand.
pub open spec fn spec_encode_dp(
    cond: Cond,
    dm: DataMnemonic,
    scc: SetConditionCodes,
    rd: Rd,
    rn: Rn,
    op2: FlexibleOperand,
) -> u32 {
    ((cond_code(cond) as u32) << 28) | (match op2 {
        FlexibleOperand::RegisterWithShift(_, _) => 0u32,
        FlexibleOperand::ImmediateWithRotation(_, _) => (1u32 << 25),
    }) | ((dp_opcode(dm) as u32) << 21) | (match scc {
        SetConditionCodes::SetCodes => (1u32 << 20),
        SetConditionCodes::DontSetCodes => 0u32,
    }) | ((rn.0 as u32) << 16) | ((rd.0 as u32) << 12) | spec_flex_bits(op2)
}

/// The conventional memory-transfer word.  Bits 31:28 condition; 26
/// fixed 1; 25 the register-offset bit; 24 clear only for post-index;
/// 23 the direction bit; 22 the byte-transfer bit; 21 the write-back
/// bit; 20 the load bit; 19:16 the base register; 15:12 the
/// destination or source register; 11:0 the offset.
pub open spec fn spec_encode_mem(
    cond: Cond,
    mm: MemoryMnemonic,
    im: IndexMode,
    rn: Rn,
    rd: Rd,
    offset: Offset,
) -> u32 {
    ((cond_code(cond) as u32) << 28) | (1u32 << 26) | (match offset {
        Offset::RegisterWithShift(_, _, _) => (1u32 << 25),
        Offset::Immediate(_, _) => 0u32,
    }) | (match im {
        IndexMode::PostIndex => 0u32,
        IndexMode::Offset => (1u32 << 24),
        IndexMode::PreIndex => (1u32 << 24),
    }) | (match offset {
        Offset::RegisterWithShift(_, _, UpDown::Up) => (1u32 << 23),
        Offset::RegisterWithShift(_, _, UpDown::Down) => 0u32,
        Offset::Immediate(_, UpDown::Up) => (1u32 << 23),
        Offset::Immediate(_, UpDown::Down) => 0u32,
    }) | (match mm {
        MemoryMnemonic::STR => 0u32,
        MemoryMnemonic::LDR => 0u32,
        MemoryMnemonic::STRB => (1u32 << 22),
        MemoryMnemonic::LDRB => (1u32 << 22),
    }) | (match im {
        IndexMode::PostIndex => 0u32,
        IndexMode::Offset => 0u32,
        IndexMode::PreIndex => (1u32 << 21),
    }) | (match mm {
        MemoryMnemonic::STR => 0u32,
        MemoryMnemonic::STRB => 0u32,
        MemoryMnemonic::LDR => (1u32 << 20),
        MemoryMnemonic::LDRB => (1u32 << 20),
    }) | ((rn.0 as u32) << 16) | ((rd.0 as u32) << 12) | spec_offset_bits(offset)
}

/// The conventional multiply word.  Bits 31:28 condition; 21 fixed 0
/// (plain multiply only); 20 the set-condition-codes flag; 19:16 the
/// destination; 15:12 the accumulator slot; 11:8 one multiplicand; 7:4
/// the fixed marker 1001; 3:0 the other multiplicand.
pub open spec fn spec_encode_mul(
    cond: Cond,
    scc: SetConditionCodes,
    rd: Rd,
    rn: Rn,
    rs: Rs,
    rm: Rm,
) -> u32 {
    ((cond_code(cond) as u32) << 28) | (match scc {
        SetConditionCodes::SetCodes => (1u32 << 20),
        SetConditionCodes::DontSetCodes => 0u32,
    }) | ((rd.0 as u32) << 16) | ((rn.0 as u32) << 12) | ((rs.0 as u32) << 8) | (0b1001u32 << 4) | (
    rm.0 as u32)
}

/// The conventional branch word.  Bits 31:28 condition; 27:25 fixed
/// 101; 24 the link bit; 23:0 the low 24 bits of the relative offset.
pub open spec fn spec_encode_branch(cond: Cond, bm: BranchMnemonic, offset: u32) -> u32 {
    ((cond_code(cond) as u32) << 28) | (0b101u32 << 25) | (match bm {
        BranchMnemonic::B => 0u32,
        BranchMnemonic::BL => (1u32 << 24),
    }) | (offset & 0x00FF_FFFF)
}

/// The conventional branch-and-exchange word.  Bits 31:28 condition;
/// 27:4 the fixed marker pattern; 3:0 the target register.
pub open spec fn spec_encode_branch_exec(cond: Cond, rn: Rn) -> u32 {
    ((cond_code(cond) as u32) << 28) | (0b0001_0010_1111_1111_1111_0001u32 << 4) | (rn.0 as u32)
}

/// The conventional word of any instruction, before byte reversal.
pub open spec fn spec_encode_conventional(i: Instruction) -> u32 {
    match i {
        Instruction::DataProcessing(cond, dm, scc, rd, rn, op2) => spec_encode_dp(
            cond,
            dm,
            scc,
            rd,
            rn,
            op2,
        ),
        Instruction::Mem(cond, mm, im, rn, rd, offset) => spec_encode_mem(
            cond,
            mm,
            im,
            rn,
            rd,
            offset,
        ),
        Instruction::Branch(cond, bm, offset) => spec_encode_branch(cond, bm, offset),
        Instruction::BranchExec(cond, rn) => spec_encode_branch_exec(cond, rn),
        Instruction::Mul(cond, _, scc, rd, rn, rs, rm) => spec_encode_mul(cond, scc, rd, rn, rs, rm),
    }
}

/// The final machine word: the conventional word with its byte order
/// reversed.
pub open spec fn spec_to_machine_code(i: Instruction) -> u32 {
    spec_swap_bytes(spec_encode_conventional(i))
}

/// Reverse the byte order of a 32-bit word.
pub fn reverse_word_bytes(w: u32) -> (r: u32)
    ensures
        r == spec_swap_bytes(w),
{
    ((w & 0xFF) << 24) | (((w >> 8) & 0xFF) << 16) | (((w >> 16) & 0xFF) << 8) | ((w >> 24) & 0xFF)
}

impl Instruction {
    /// Pack a data-processing instruction into its conventional word.
    pub fn encode_dp_inst(
        cond: Cond,
        dp_mnemonic: DataMnemonic,
        set_condition_codes: SetConditionCodes,
        rd: Rd,
        rn: Rn,
        op2: FlexibleOperand,
    ) -> (r: u32)
        ensures
            r == spec_encode_dp(cond, dp_mnemonic, set_condition_codes, rd, rn, op2),
    {
        let cond_mask = (cond.code() as u32) << 28;

        let i_mask: u32 = match op2 {
            FlexibleOperand::RegisterWithShift(_, _) => 0u32,
            FlexibleOperand::ImmediateWithRotation(_, _) => (1u32 << 25),
        };

        let dp_mnemonic_mask = (dp_mnemonic.opcode() as u32) << 21;

        let s_mask: u32 = match set_condition_codes {
            SetConditionCodes::SetCodes => (1u32 << 20),
            SetConditionCodes::DontSetCodes => 0u32,
        };

        let rn_mask = (rn.0 as u32) << 16;
        let rd_mask = (rd.0 as u32) << 12;

        let op2_mask: u32 = match op2 {
            FlexibleOperand::RegisterWithShift(reg, shift) => ((shift.0 as u32) << 4) | (
            reg as u32),
            FlexibleOperand::ImmediateWithRotation(imm, rotation) => ((rotation.0 as u32) << 8) | (
            imm as u32),
        };

        cond_mask | i_mask | dp_mnemonic_mask | s_mask | rn_mask | rd_mask | op2_mask
    }

    /// Pack a memory-transfer instruction into its conventional word.
    pub fn encode_mem_inst(
        cond: Cond,
        mem_mnemonic: MemoryMnemonic,
        index_mode: IndexMode,
        rn: Rn,
        rd: Rd,
        offset: Offset,
    ) -> (r: u32)
        ensures
            r == spec_encode_mem(cond, mem_mnemonic, index_mode, rn, rd, offset),
    {
        let cond_mask = (cond.code() as u32) << 28;

        let fixed_bit_mask = 1u32 << 26;

        let i_mask: u32 = match offset {
            Offset::RegisterWithShift(_, _, _) => (1u32 << 25),
            Offset::Immediate(_, _) => 0u32,
        };

        let p_mask: u32 = match index_mode {
            IndexMode::PostIndex => 0u32,
            IndexMode::Offset => (1u32 << 24),
            IndexMode::PreIndex => (1u32 << 24),
        };

        let u_mask: u32 = match offset {
            Offset::RegisterWithShift(_, _, UpDown::Up) => (1u32 << 23),
            Offset::RegisterWithShift(_, _, UpDown::Down) => 0u32,
            Offset::Immediate(_, UpDown::Up) => (1u32 << 23),
            Offset::Immediate(_, UpDown::Down) => 0u32,
        };

        let b_mask: u32 = match mem_mnemonic {
            MemoryMnemonic::STR => 0u32,
            MemoryMnemonic::LDR => 0u32,
            MemoryMnemonic::STRB => (1u32 << 22),
            MemoryMnemonic::LDRB => (1u32 << 22),
        };

        let w_mask: u32 = match index_mode {
            IndexMode::PostIndex => 0u32,
            IndexMode::Offset => 0u32,
            IndexMode::PreIndex => (1u32 << 21),
        };

        let l_mask: u32 = match mem_mnemonic {
            MemoryMnemonic::STR => 0u32,
            MemoryMnemonic::STRB => 0u32,
            MemoryMnemonic::LDR => (1u32 << 20),
            MemoryMnemonic::LDRB => (1u32 << 20),
        };

        let rn_mask = (rn.0 as u32) << 16;
        let rd_mask = (rd.0 as u32) << 12;

        let offset_mask: u32 = match offset {
            Offset::RegisterWithShift(reg, shift, _) => ((shift.0 as u32) << 4) | (reg as u32),
            // Truncate the immediate value to 12 bits, visibly.
            Offset::Immediate(imm, _) => (imm & 0x0FFF) as u32,
        };

        cond_mask | fixed_bit_mask | i_mask | p_mask | u_mask | b_mask | w_mask | l_mask | rn_mask
            | rd_mask | offset_mask
    }

    /// Pack a multiply instruction into its conventional word.
    pub fn encode_mul_inst(
        cond: Cond,
        mul_mnemonic: MultiplyMnemonic,
        set_condition_codes: SetConditionCodes,
        rd: Rd,
        rn: Rn,
        rs: Rs,
        rm: Rm,
    ) -> (r: u32)
        ensures
            r == spec_encode_mul(cond, set_condition_codes, rd, rn, rs, rm),
    {
        let cond_mask = (cond.code() as u32) << 28;

        // Plain multiply only: the accumulate bit stays 0.
        let _ = mul_mnemonic;

        let s_mask: u32 = match set_condition_codes {
            SetConditionCodes::SetCodes => (1u32 << 20),
            SetConditionCodes::DontSetCodes => 0u32,
        };

        let rd_mask = (rd.0 as u32) << 16;
        let rn_mask = (rn.0 as u32) << 12;
        let rs_mask = (rs.0 as u32) << 8;
        let magic_bits = 0b1001u32 << 4;
        let rm_mask = rm.0 as u32;

        cond_mask | s_mask | rd_mask | rn_mask | rs_mask | magic_bits | rm_mask
    }

    /// Pack a branch instruction into its conventional word.
    pub fn encode_branch_inst(cond: Cond, b_mnemonic: BranchMnemonic, offset: u32) -> (r: u32)
        ensures
            r == spec_encode_branch(cond, b_mnemonic, offset),
    {
        let cond_mask = (cond.code() as u32) << 28;

        let magic_bits = 0b101u32 << 25;

        let link_mask: u32 = match b_mnemonic {
            BranchMnemonic::B => 0u32,
            BranchMnemonic::BL => (1u32 << 24),
        };

        // Keep the lower 24 bits of the offset.
        let offset_mask = offset & 0x00FF_FFFF;

        cond_mask | magic_bits | link_mask | offset_mask
    }

    /// Pack a branch-and-exchange instruction into its conventional
    /// word.
    pub fn encode_branch_exec_inst(cond: Cond, rn: Rn) -> (r: u32)
        ensures
            r == spec_encode_branch_exec(cond, rn),
    {
        let cond_mask = (cond.code() as u32) << 28;
        let magic_bits = 0b0001_0010_1111_1111_1111_0001u32 << 4;
        cond_mask | magic_bits | (rn.0 as u32)
    }

    /// The 32-bit machine word of this instruction: the conventional
    /// per-family packing, then the byte-order reversal.
    pub fn to_machine_code(self) -> (r: u32)
        ensures
            r == spec_to_machine_code(self),
    {
        let encoding = match self {
            Instruction::DataProcessing(cond, dp_mnemonic, set_condition_codes, rd, rn, op2) => {
                Self::encode_dp_inst(cond, dp_mnemonic, set_condition_codes, rd, rn, op2)
            },
            Instruction::Mem(cond, opcode, index_mode, rn, rd, offset) => {
                Self::encode_mem_inst(cond, opcode, index_mode, rn, rd, offset)
            },
            Instruction::Mul(cond, mul_mnemonic, set_condition_codes, rd, rn, rs, rm) => {
                Self::encode_mul_inst(cond, mul_mnemonic, set_condition_codes, rd, rn, rs, rm)
            },
            Instruction::Branch(cond, b_mnemonic, offset) => {
                Self::encode_branch_inst(cond, b_mnemonic, offset)
            },
            Instruction::BranchExec(cond, rn) => Self::encode_branch_exec_inst(cond, rn),
        };

        reverse_word_bytes(encoding)
    }
}

/// Byte reversal moves the top nibble of the conventional word into
/// bits 7:4 of the final word.
pub proof fn lemma_swap_nibble(w: u32)
    ensures
        (spec_swap_bytes(w) >> 4) & 0xF == w >> 28,
{
    assert(((((w & 0xFF) << 24) | (((w >> 8) & 0xFF) << 16) | (((w >> 16) & 0xFF) << 8) | ((w
        >> 24) & 0xFF)) >> 4) & 0xF == w >> 28) by (bit_vector);
}

/// The top nibble of every well-formed instruction's conventional word
/// is its condition code.
pub proof fn lemma_encode_cond_nibble(i: Instruction)
    requires
        i.wf(),
    ensures
        spec_encode_conventional(i) >> 28 == cond_code(i.spec_cond()),
{
    match i {
        Instruction::DataProcessing(c, dm, scc, rd, rn, op2) => {
            let cc = cond_code(c) as u32;
            let ib: u32 = match op2 {
                FlexibleOperand::RegisterWithShift(_, _) => 0u32,
                FlexibleOperand::ImmediateWithRotation(_, _) => (1u32 << 25),
            };
            let op = dp_opcode(dm) as u32;
            let sb: u32 = match scc {
                SetConditionCodes::SetCodes => (1u32 << 20),
                SetConditionCodes::DontSetCodes => 0u32,
            };
            let rnv = rn.0 as u32;
            let rdv = rd.0 as u32;
            let o2 = spec_flex_bits(op2);
            match op2 {
                FlexibleOperand::RegisterWithShift(reg, sh) => {
                    let shv = sh.0 as u32;
                    let regv = reg as u32;
                    assert(((shv << 4) | regv) <= 0xFFF) by (bit_vector)
                        requires
                            shv <= 15,
                            regv <= 15,
                    ;
                },
                FlexibleOperand::ImmediateWithRotation(imm, rot) => {
                    let rotv = rot.0 as u32;
                    let immv = imm as u32;
                    assert(((rotv << 8) | immv) <= 0xFFF) by (bit_vector)
                        requires
                            rotv <= 15,
                            immv <= 255,
                    ;
                },
            }
            assert(((cc << 28) | ib | (op << 21) | sb | (rnv << 16) | (rdv << 12) | o2) >> 28 == cc)
                by (bit_vector)
                requires
                    cc <= 15,
                    op <= 15,
                    ib == 0 || ib == (1u32 << 25),
                    sb == 0 || sb == (1u32 << 20),
                    rnv <= 15,
                    rdv <= 15,
                    o2 <= 0xFFF,
            ;
        },
        Instruction::Mem(c, mm, im, rn, rd, offset) => {
            let cc = cond_code(c) as u32;
            let ib: u32 = match offset {
                Offset::RegisterWithShift(_, _, _) => (1u32 << 25),
                Offset::Immediate(_, _) => 0u32,
            };
            let pb: u32 = match im {
                IndexMode::PostIndex => 0u32,
                IndexMode::Offset => (1u32 << 24),
                IndexMode::PreIndex => (1u32 << 24),
            };
            let ub: u32 = match offset {
                Offset::RegisterWithShift(_, _, UpDown::Up) => (1u32 << 23),
                Offset::RegisterWithShift(_, _, UpDown::Down) => 0u32,
                Offset::Immediate(_, UpDown::Up) => (1u32 << 23),
                Offset::Immediate(_, UpDown::Down) => 0u32,
            };
            let bb: u32 = match mm {
                MemoryMnemonic::STR => 0u32,
                MemoryMnemonic::LDR => 0u32,
                MemoryMnemonic::STRB => (1u32 << 22),
                MemoryMnemonic::LDRB => (1u32 << 22),
            };
            let wb: u32 = match im {
                IndexMode::PostIndex => 0u32,
                IndexMode::Offset => 0u32,
                IndexMode::PreIndex => (1u32 << 21),
            };
            let lb: u32 = match mm {
                MemoryMnemonic::STR => 0u32,
                MemoryMnemonic::STRB => 0u32,
                MemoryMnemonic::LDR => (1u32 << 20),
                MemoryMnemonic::LDRB => (1u32 << 20),
            };
            let rnv = rn.0 as u32;
            let rdv = rd.0 as u32;
            let ob = spec_offset_bits(offset);
            match offset {
                Offset::RegisterWithShift(reg, sh, _) => {
                    let shv = sh.0 as u32;
                    let regv = reg as u32;
                    assert(((shv << 4) | regv) <= 0xFFF) by (bit_vector)
                        requires
                            shv <= 15,
                            regv <= 15,
                    ;
                },
                Offset::Immediate(imm, _) => {
                    let immv = imm;
                    assert(((immv & 0x0FFF) as u32) <= 0xFFF) by (bit_vector);
                },
            }
            assert(((cc << 28) | (1u32 << 26) | ib | pb | ub | bb | wb | lb | (rnv << 16) | (rdv
                << 12) | ob) >> 28 == cc) by (bit_vector)
                requires
                    cc <= 15,
                    ib == 0 || ib == (1u32 << 25),
                    pb == 0 || pb == (1u32 << 24),
                    ub == 0 || ub == (1u32 << 23),
                    bb == 0 || bb == (1u32 << 22),
                    wb == 0 || wb == (1u32 << 21),
                    lb == 0 || lb == (1u32 << 20),
                    rnv <= 15,
                    rdv <= 15,
                    ob <= 0xFFF,
            ;
        },
        Instruction::Branch(c, bm, offset) => {
            let cc = cond_code(c) as u32;
            let lk: u32 = match bm {
                BranchMnemonic::B => 0u32,
                BranchMnemonic::BL => (1u32 << 24),
            };
            assert(((cc << 28) | (0b101u32 << 25) | lk | (offset & 0x00FF_FFFF)) >> 28 == cc)
                by (bit_vector)
                requires
                    cc <= 15,
                    lk == 0 || lk == (1u32 << 24),
            ;
        },
        Instruction::BranchExec(c, rn) => {
            let cc = cond_code(c) as u32;
            let rnv = rn.0 as u32;
            assert(((cc << 28) | (0b0001_0010_1111_1111_1111_0001u32 << 4) | rnv) >> 28 == cc)
                by (bit_vector)
                requires
                    cc <= 15,
                    rnv <= 15,
            ;
        },
        Instruction::Mul(c, _, scc, rd, rn, rs, rm) => {
            let cc = cond_code(c) as u32;
            let sb: u32 = match scc {
                SetConditionCodes::SetCodes => (1u32 << 20),
                SetConditionCodes::DontSetCodes => 0u32,
            };
            let rdv = rd.0 as u32;
            let rnv = rn.0 as u32;
            let rsv = rs.0 as u32;
            let rmv = rm.0 as u32;
            assert(((cc << 28) | sb | (rdv << 16) | (rnv << 12) | (rsv << 8) | (0b1001u32 << 4)
                | rmv) >> 28 == cc) by (bit_vector)
                requires
                    cc <= 15,
                    sb == 0 || sb == (1u32 << 20),
                    rdv <= 15,
                    rnv <= 15,
                    rsv <= 15,
                    rmv <= 15,
            ;
        },
    }
}

/// Encoding any well-formed instruction places its condition's 4-bit
/// code in the top nibble of the first-stored byte of the final
/// byte-order-reversed word, that is, in bits 7:4 of the word.
pub proof fn lemma_cond_code_position(i: Instruction)
    requires
        i.wf(),
    ensures
        (spec_to_machine_code(i) >> 4) & 0xF == cond_code(i.spec_cond()),
{
    lemma_encode_cond_nibble(i);
    lemma_swap_nibble(spec_encode_conventional(i));
}

/// Encoding is a pure function of the instruction value: equal values
/// always encode to identical machine words, so encoding twice changes
/// nothing.
pub proof fn lemma_encode_deterministic(a: Instruction, b: Instruction)
    requires
        a == b,
    ensures
        spec_to_machine_code(a) == spec_to_machine_code(b),
{
}

/// A successfully parsed flexible operand is well formed whenever the
/// register bound fits the 4-bit register fields.
pub proof fn lemma_flex_wf(t: Seq<char>, max: u8)
    requires
        max <= 15,
        spec_flex_operand(t, max) is Ok,
    ensures
        (spec_flex_operand(t, max)->Ok_0).wf(),
{
    if spec_reg_id(t, max) is Some {
        lemma_reg_id_wf(t, max);
    }
}

/// A successfully parsed line is a well-formed instruction whenever the
/// register bound fits the 4-bit register fields.
pub proof fn lemma_parse_line_wf(s: Seq<char>, max: u8)
    requires
        max <= 15,
        spec_parse_line(s, max) is Ok,
    ensures
        (spec_parse_line(s, max)->Ok_0).wf(),
{
    let t = trim_spec(s);
    let i = find_char(t, ' ');
    let head = t.subrange(0, i);
    let rest = t.subrange(i + 1, t.len() as int);
    let m = spec_classify(head)->Some_0;
    let ops = split_on(rest, ',');
    match m {
        Mnemonic::Data(dm) => {
            lemma_reg_id_wf(trim_spec(ops[0]), max);
            if dm == DataMnemonic::MOV {
                lemma_flex_wf(trim_spec(ops[1]), max);
            } else {
                lemma_reg_id_wf(trim_spec(ops[1]), max);
                lemma_flex_wf(trim_spec(ops[2]), max);
            }
        },
        Mnemonic::Mem(_) => {
            lemma_reg_id_wf(trim_spec(ops[0]), max);
            lemma_reg_id_wf(trim_spec(ops[1]), max);
        },
        Mnemonic::Mul(_) => {
            lemma_reg_id_wf(trim_spec(ops[0]), max);
            lemma_reg_id_wf(trim_spec(ops[1]), max);
            lemma_reg_id_wf(trim_spec(ops[2]), max);
            if ops.len() >= 4 && spec_reg_id(trim_spec(ops[3]), max) is Some {
                lemma_reg_id_wf(trim_spec(ops[3]), max);
            }
        },
        Mnemonic::Branch(_) => {
        },
        Mnemonic::BranchExec(_) => {
            lemma_reg_id_wf(trim_spec(ops[0]), max);
        },
    }
}

impl FlexibleOperand {
    /// Parse a flexible-operand token under the default register bound.
    pub fn try_from(value: &str) -> (r: Result<FlexibleOperand, AssemblerError>)
        ensures
            match r {
                Ok(f) => spec_flex_operand(value@, DEFAULT_REG_BOUND) == Ok::<
                    FlexibleOperand,
                    AssemblerErrorView,
                >(f),
                Err(e) => spec_flex_operand(value@, DEFAULT_REG_BOUND) == Err::<
                    FlexibleOperand,
                    AssemblerErrorView,
                >(e@),
            },
    {
        let t = str_to_chars(value);
        flex_operand_of(&t, DEFAULT_REG_BOUND)
    }
}

} // verus!
