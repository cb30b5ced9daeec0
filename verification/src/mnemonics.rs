//! Mnemonic classification: maps an opcode token (a mnemonic possibly
//! fused with a condition suffix) to an instruction family.
//!
//! Several mnemonic spellings are prefixes of others (`str`/`strb`,
//! `b`/`bl`), so families are tried in most-specific-first order:
//! data-processing, then memory (with the longer `strb`/`ldrb` spellings
//! before `str`/`ldr`), then multiply, then branch-and-exchange, and
//! branch last, so that a bare `b` can never swallow a longer mnemonic.
//! Matching is case-insensitive.

use crate::error::{AssemblerError, AssemblerErrorView, ParseError, ParseErrorView};
use crate::text::{chars1, chars2, chars3, chars4, starts_with_ci, starts_with_ci_chars,
    str_to_chars};
use vstd::prelude::*;

verus! {

/// A data-processing operation.
#[derive(Clone, Copy, Debug, Eq, PartialEq, Structural)]
pub enum DataMnemonic {
    AND,
    EOR,
    SUB,
    RSB,
    ADD,
    ADC,
    SBC,
    RSC,
    TST,
    TEQ,
    CMP,
    CMN,
    ORR,
    MOV,
    BIC,
    MVN,
}

/// A single-register memory transfer operation.
#[derive(Clone, Copy, Debug, Eq, PartialEq, Structural)]
pub enum MemoryMnemonic {
    STR,
    STRB,
    LDR,
    LDRB,
}

/// A branch operation: plain jump, or call with return.
#[derive(Clone, Copy, Debug, Eq, PartialEq, Structural)]
pub enum BranchMnemonic {
    B,
    BL,
}

/// The multiply operation.
#[derive(Clone, Copy, Debug, Eq, PartialEq, Structural)]
pub enum MultiplyMnemonic {
    MUL,
}

/// The branch-and-exchange operation.
#[derive(Clone, Copy, Debug, Eq, PartialEq, Structural)]
pub enum BranchExchangeMnemonic {
    BX,
}

/// An opcode token's instruction family together with the
/// family-specific operation.
#[derive(Clone, Copy, Debug, Eq, PartialEq, Structural)]
pub enum Mnemonic {
    Data(DataMnemonic),
    Mem(MemoryMnemonic),
    Mul(MultiplyMnemonic),
    Branch(BranchMnemonic),
    BranchExec(BranchExchangeMnemonic),
}

/// The spelling of a data-processing mnemonic, in lower case.
pub open spec fn dp_spelling(m: DataMnemonic) -> Seq<char> {
    match m {
        DataMnemonic::AND => seq!['a', 'n', 'd'],
        DataMnemonic::EOR => seq!['e', 'o', 'r'],
        DataMnemonic::SUB => seq!['s', 'u', 'b'],
        DataMnemonic::RSB => seq!['r', 's', 'b'],
        DataMnemonic::ADD => seq!['a', 'd', 'd'],
        DataMnemonic::ADC => seq!['a', 'd', 'c'],
        DataMnemonic::SBC => seq!['s', 'b', 'c'],
        DataMnemonic::RSC => seq!['r', 's', 'c'],
        DataMnemonic::TST => seq!['t', 's', 't'],
        DataMnemonic::TEQ => seq!['t', 'e', 'q'],
        DataMnemonic::CMP => seq!['c', 'm', 'p'],
        DataMnemonic::CMN => seq!['c', 'm', 'n'],
        DataMnemonic::ORR => seq!['o', 'r', 'r'],
        DataMnemonic::MOV => seq!['m', 'o', 'v'],
        DataMnemonic::BIC => seq!['b', 'i', 'c'],
        DataMnemonic::MVN => seq!['m', 'v', 'n'],
    }
}

/// The 4-bit family opcode of a data-processing mnemonic.
pub open spec fn dp_opcode(m: DataMnemonic) -> u8 {
    match m {
        DataMnemonic::AND => 0x0,
        DataMnemonic::EOR => 0x1,
        DataMnemonic::SUB => 0x2,
        DataMnemonic::RSB => 0x3,
        DataMnemonic::ADD => 0x4,
        DataMnemonic::ADC => 0x5,
        DataMnemonic::SBC => 0x6,
        DataMnemonic::RSC => 0x7,
        DataMnemonic::TST => 0x8,
        DataMnemonic::TEQ => 0x9,
        DataMnemonic::CMP => 0xA,
        DataMnemonic::CMN => 0xB,
        DataMnemonic::ORR => 0xC,
        DataMnemonic::MOV => 0xD,
        DataMnemonic::BIC => 0xE,
        DataMnemonic::MVN => 0xF,
    }
}

/// The spelling of a memory mnemonic, in lower case.
pub open spec fn mem_spelling(m: MemoryMnemonic) -> Seq<char> {
    match m {
        MemoryMnemonic::STR => seq!['s', 't', 'r'],
        MemoryMnemonic::STRB => seq!['s', 't', 'r', 'b'],
        MemoryMnemonic::LDR => seq!['l', 'd', 'r'],
        MemoryMnemonic::LDRB => seq!['l', 'd', 'r', 'b'],
    }
}

/// The spelling of a branch mnemonic, in lower case.
pub open spec fn branch_spelling(m: BranchMnemonic) -> Seq<char> {
    match m {
        BranchMnemonic::B => seq!['b'],
        BranchMnemonic::BL => seq!['b', 'l'],
    }
}

/// The spelling of the multiply mnemonic.
pub open spec fn mul_spelling(m: MultiplyMnemonic) -> Seq<char> {
    seq!['m', 'u', 'l']
}

/// The spelling of the branch-and-exchange mnemonic.
pub open spec fn bx_spelling(m: BranchExchangeMnemonic) -> Seq<char> {
    seq!['b', 'x']
}

/// The spelling of any mnemonic, in lower case.
pub open spec fn mnemonic_spelling(m: Mnemonic) -> Seq<char> {
    match m {
        Mnemonic::Data(d) => dp_spelling(d),
        Mnemonic::Mem(mm) => mem_spelling(mm),
        Mnemonic::Mul(mu) => mul_spelling(mu),
        Mnemonic::Branch(b) => branch_spelling(b),
        Mnemonic::BranchExec(bx) => bx_spelling(bx),
    }
}

/// The data-processing mnemonic whose spelling is a case-insensitive
/// prefix of the token, if any.
pub open spec fn spec_dp_mnemonic(t: Seq<char>) -> Option<DataMnemonic> {
    if starts_with_ci(t, dp_spelling(DataMnemonic::AND)) {
        Some(DataMnemonic::AND)
    } else if starts_with_ci(t, dp_spelling(DataMnemonic::EOR)) {
        Some(DataMnemonic::EOR)
    } else if starts_with_ci(t, dp_spelling(DataMnemonic::SUB)) {
        Some(DataMnemonic::SUB)
    } else if starts_with_ci(t, dp_spelling(DataMnemonic::RSB)) {
        Some(DataMnemonic::RSB)
    } else if starts_with_ci(t, dp_spelling(DataMnemonic::ADD)) {
        Some(DataMnemonic::ADD)
    } else if starts_with_ci(t, dp_spelling(DataMnemonic::ADC)) {
        Some(DataMnemonic::ADC)
    } else if starts_with_ci(t, dp_spelling(DataMnemonic::SBC)) {
        Some(DataMnemonic::SBC)
    } else if starts_with_ci(t, dp_spelling(DataMnemonic::RSC)) {
        Some(DataMnemonic::RSC)
    } else if starts_with_ci(t, dp_spelling(DataMnemonic::TST)) {
        Some(DataMnemonic::TST)
    } else if starts_with_ci(t, dp_spelling(DataMnemonic::TEQ)) {
        Some(DataMnemonic::TEQ)
    } else if starts_with_ci(t, dp_spelling(DataMnemonic::CMP)) {
        Some(DataMnemonic::CMP)
    } else if starts_with_ci(t, dp_spelling(DataMnemonic::CMN)) {
        Some(DataMnemonic::CMN)
    } else if starts_with_ci(t, dp_spelling(DataMnemonic::ORR)) {
        Some(DataMnemonic::ORR)
    } else if starts_with_ci(t, dp_spelling(DataMnemonic::MOV)) {
        Some(DataMnemonic::MOV)
    } else if starts_with_ci(t, dp_spelling(DataMnemonic::BIC)) {
        Some(DataMnemonic::BIC)
    } else if starts_with_ci(t, dp_spelling(DataMnemonic::MVN)) {
        Some(DataMnemonic::MVN)
    } else {
        None
    }
}

/// The memory mnemonic matching the token, longer spellings first.
pub open spec fn spec_mem_mnemonic(t: Seq<char>) -> Option<MemoryMnemonic> {
    if starts_with_ci(t, mem_spelling(MemoryMnemonic::STRB)) {
        Some(MemoryMnemonic::STRB)
    } else if starts_with_ci(t, mem_spelling(MemoryMnemonic::STR)) {
        Some(MemoryMnemonic::STR)
    } else if starts_with_ci(t, mem_spelling(MemoryMnemonic::LDRB)) {
        Some(MemoryMnemonic::LDRB)
    } else if starts_with_ci(t, mem_spelling(MemoryMnemonic::LDR)) {
        Some(MemoryMnemonic::LDR)
    } else {
        None
    }
}

/// The branch mnemonic matching the token, `bl` before `b`.
pub open spec fn spec_branch_mnemonic(t: Seq<char>) -> Option<BranchMnemonic> {
    if starts_with_ci(t, branch_spelling(BranchMnemonic::BL)) {
        Some(BranchMnemonic::BL)
    } else if starts_with_ci(t, branch_spelling(BranchMnemonic::B)) {
        Some(BranchMnemonic::B)
    } else {
        None
    }
}

/// Classify an opcode token, trying families most-specific-first:
/// data-processing, memory, multiply, branch-and-exchange, branch.
pub open spec fn spec_classify(t: Seq<char>) -> Option<Mnemonic> {
    if spec_dp_mnemonic(t) is Some {
        Some(Mnemonic::Data(spec_dp_mnemonic(t)->Some_0))
    } else if spec_mem_mnemonic(t) is Some {
        Some(Mnemonic::Mem(spec_mem_mnemonic(t)->Some_0))
    } else if starts_with_ci(t, mul_spelling(MultiplyMnemonic::MUL)) {
        Some(Mnemonic::Mul(MultiplyMnemonic::MUL))
    } else if starts_with_ci(t, bx_spelling(BranchExchangeMnemonic::BX)) {
        Some(Mnemonic::BranchExec(BranchExchangeMnemonic::BX))
    } else if spec_branch_mnemonic(t) is Some {
        Some(Mnemonic::Branch(spec_branch_mnemonic(t)->Some_0))
    } else {
        None
    }
}

/// The data-processing mnemonic whose spelling prefixes the token.
pub(crate) fn dp_mnemonic_of(t: &Vec<char>) -> (r: Option<DataMnemonic>)
    ensures
        r == spec_dp_mnemonic(t@),
{
    if starts_with_ci_chars(t, &chars3('a', 'n', 'd')) {
        Some(DataMnemonic::AND)
    } else if starts_with_ci_chars(t, &chars3('e', 'o', 'r')) {
        Some(DataMnemonic::EOR)
    } else if starts_with_ci_chars(t, &chars3('s', 'u', 'b')) {
        Some(DataMnemonic::SUB)
    } else if starts_with_ci_chars(t, &chars3('r', 's', 'b')) {
        Some(DataMnemonic::RSB)
    } else if starts_with_ci_chars(t, &chars3('a', 'd', 'd')) {
        Some(DataMnemonic::ADD)
    } else if starts_with_ci_chars(t, &chars3('a', 'd', 'c')) {
        Some(DataMnemonic::ADC)
    } else if starts_with_ci_chars(t, &chars3('s', 'b', 'c')) {
        Some(DataMnemonic::SBC)
    } else if starts_with_ci_chars(t, &chars3('r', 's', 'c')) {
        Some(DataMnemonic::RSC)
    } else if starts_with_ci_chars(t, &chars3('t', 's', 't')) {
        Some(DataMnemonic::TST)
    } else if starts_with_ci_chars(t, &chars3('t', 'e', 'q')) {
        Some(DataMnemonic::TEQ)
    } else if starts_with_ci_chars(t, &chars3('c', 'm', 'p')) {
        Some(DataMnemonic::CMP)
    } else if starts_with_ci_chars(t, &chars3('c', 'm', 'n')) {
        Some(DataMnemonic::CMN)
    } else if starts_with_ci_chars(t, &chars3('o', 'r', 'r')) {
        Some(DataMnemonic::ORR)
    } else if starts_with_ci_chars(t, &chars3('m', 'o', 'v')) {
        Some(DataMnemonic::MOV)
    } else if starts_with_ci_chars(t, &chars3('b', 'i', 'c')) {
        Some(DataMnemonic::BIC)
    } else if starts_with_ci_chars(t, &chars3('m', 'v', 'n')) {
        Some(DataMnemonic::MVN)
    } else {
        None
    }
}

/// The memory mnemonic matching the token, longer spellings first.
pub(crate) fn mem_mnemonic_of(t: &Vec<char>) -> (r: Option<MemoryMnemonic>)
    ensures
        r == spec_mem_mnemonic(t@),
{
    if starts_with_ci_chars(t, &chars4('s', 't', 'r', 'b')) {
        Some(MemoryMnemonic::STRB)
    } else if starts_with_ci_chars(t, &chars3('s', 't', 'r')) {
        Some(MemoryMnemonic::STR)
    } else if starts_with_ci_chars(t, &chars4('l', 'd', 'r', 'b')) {
        Some(MemoryMnemonic::LDRB)
    } else if starts_with_ci_chars(t, &chars3('l', 'd', 'r')) {
        Some(MemoryMnemonic::LDR)
    } else {
        None
    }
}

/// The branch mnemonic matching the token, `bl` before `b`.
pub(crate) fn branch_mnemonic_of(t: &Vec<char>) -> (r: Option<BranchMnemonic>)
    ensures
        r == spec_branch_mnemonic(t@),
{
    if starts_with_ci_chars(t, &chars2('b', 'l')) {
        Some(BranchMnemonic::BL)
    } else if starts_with_ci_chars(t, &chars1('b')) {
        Some(BranchMnemonic::B)
    } else {
        None
    }
}

/// Classify an opcode token, most-specific family first.
pub(crate) fn classify(t: &Vec<char>) -> (r: Option<Mnemonic>)
    ensures
        r == spec_classify(t@),
{
    if let Some(d) = dp_mnemonic_of(t) {
        Some(Mnemonic::Data(d))
    } else if let Some(mm) = mem_mnemonic_of(t) {
        Some(Mnemonic::Mem(mm))
    } else if starts_with_ci_chars(t, &chars3('m', 'u', 'l')) {
        Some(Mnemonic::Mul(MultiplyMnemonic::MUL))
    } else if starts_with_ci_chars(t, &chars2('b', 'x')) {
        Some(Mnemonic::BranchExec(BranchExchangeMnemonic::BX))
    } else if let Some(b) = branch_mnemonic_of(t) {
        Some(Mnemonic::Branch(b))
    } else {
        None
    }
}

/// A classified token starts with the spelling of its mnemonic.
pub proof fn lemma_classify_spelling_prefix(t: Seq<char>)
    requires
        spec_classify(t) is Some,
    ensures
        starts_with_ci(t, mnemonic_spelling(spec_classify(t)->Some_0)),
{
}

/// The spelling length of a mnemonic, for stripping the condition
/// suffix off a classified token.
pub(crate) fn mnemonic_spelling_len(m: Mnemonic) -> (n: usize)
    ensures
        n == mnemonic_spelling(m).len(),
{
    match m {
        Mnemonic::Data(_) => 3,
        Mnemonic::Mem(MemoryMnemonic::STR) => 3,
        Mnemonic::Mem(MemoryMnemonic::STRB) => 4,
        Mnemonic::Mem(MemoryMnemonic::LDR) => 3,
        Mnemonic::Mem(MemoryMnemonic::LDRB) => 4,
        Mnemonic::Mul(_) => 3,
        Mnemonic::Branch(BranchMnemonic::B) => 1,
        Mnemonic::Branch(BranchMnemonic::BL) => 2,
        Mnemonic::BranchExec(_) => 2,
    }
}

impl DataMnemonic {
    /// The 4-bit family opcode of this mnemonic.
    pub fn opcode(self) -> (r: u8)
        ensures
            r == dp_opcode(self),
    {
        match self {
            DataMnemonic::AND => 0x0,
            DataMnemonic::EOR => 0x1,
            DataMnemonic::SUB => 0x2,
            DataMnemonic::RSB => 0x3,
            DataMnemonic::ADD => 0x4,
            DataMnemonic::ADC => 0x5,
            DataMnemonic::SBC => 0x6,
            DataMnemonic::RSC => 0x7,
            DataMnemonic::TST => 0x8,
            DataMnemonic::TEQ => 0x9,
            DataMnemonic::CMP => 0xA,
            DataMnemonic::CMN => 0xB,
            DataMnemonic::ORR => 0xC,
            DataMnemonic::MOV => 0xD,
            DataMnemonic::BIC => 0xE,
            DataMnemonic::MVN => 0xF,
        }
    }

    /// The lower-case spelling of this mnemonic.  Replaces display
    /// formatting, which the library's types do not implement.
    pub fn spelling(self) -> (r: &'static str)
        ensures
            r@ == dp_spelling(self),
    {
        match self {
            DataMnemonic::AND => {
                proof {
                    reveal_strlit("and");
                    assert("and"@ =~= dp_spelling(DataMnemonic::AND));
                }
                "and"
            },
            DataMnemonic::EOR => {
                proof {
                    reveal_strlit("eor");
                    assert("eor"@ =~= dp_spelling(DataMnemonic::EOR));
                }
                "eor"
            },
            DataMnemonic::SUB => {
                proof {
                    reveal_strlit("sub");
                    assert("sub"@ =~= dp_spelling(DataMnemonic::SUB));
                }
                "sub"
            },
            DataMnemonic::RSB => {
                proof {
                    reveal_strlit("rsb");
                    assert("rsb"@ =~= dp_spelling(DataMnemonic::RSB));
                }
                "rsb"
            },
            DataMnemonic::ADD => {
                proof {
                    reveal_strlit("add");
                    assert("add"@ =~= dp_spelling(DataMnemonic::ADD));
                }
                "add"
            },
            DataMnemonic::ADC => {
                proof {
                    reveal_strlit("adc");
                    assert("adc"@ =~= dp_spelling(DataMnemonic::ADC));
                }
                "adc"
            },
            DataMnemonic::SBC => {
                proof {
                    reveal_strlit("sbc");
                    assert("sbc"@ =~= dp_spelling(DataMnemonic::SBC));
                }
                "sbc"
            },
            DataMnemonic::RSC => {
                proof {
                    reveal_strlit("rsc");
                    assert("rsc"@ =~= dp_spelling(DataMnemonic::RSC));
                }
                "rsc"
            },
            DataMnemonic::TST => {
                proof {
                    reveal_strlit("tst");
                    assert("tst"@ =~= dp_spelling(DataMnemonic::TST));
                }
                "tst"
            },
            DataMnemonic::TEQ => {
                proof {
                    reveal_strlit("teq");
                    assert("teq"@ =~= dp_spelling(DataMnemonic::TEQ));
                }
                "teq"
            },
            DataMnemonic::CMP => {
                proof {
                    reveal_strlit("cmp");
                    assert("cmp"@ =~= dp_spelling(DataMnemonic::CMP));
                }
                "cmp"
            },
            DataMnemonic::CMN => {
                proof {
                    reveal_strlit("cmn");
                    assert("cmn"@ =~= dp_spelling(DataMnemonic::CMN));
                }
                "cmn"
            },
            DataMnemonic::ORR => {
                proof {
                    reveal_strlit("orr");
                    assert("orr"@ =~= dp_spelling(DataMnemonic::ORR));
                }
                "orr"
            },
            DataMnemonic::MOV => {
                proof {
                    reveal_strlit("mov");
                    assert("mov"@ =~= dp_spelling(DataMnemonic::MOV));
                }
                "mov"
            },
            DataMnemonic::BIC => {
                proof {
                    reveal_strlit("bic");
                    assert("bic"@ =~= dp_spelling(DataMnemonic::BIC));
                }
                "bic"
            },
            DataMnemonic::MVN => {
                proof {
                    reveal_strlit("mvn");
                    assert("mvn"@ =~= dp_spelling(DataMnemonic::MVN));
                }
                "mvn"
            },
        }
    }

    /// Classify a token as a data-processing mnemonic.
    pub fn try_from(s: &str) -> (r: Result<DataMnemonic, AssemblerError>)
        ensures
            match r {
                Ok(m) => spec_dp_mnemonic(s@) == Some(m),
                Err(e) => spec_dp_mnemonic(s@) is None && e@ == AssemblerErrorView::Parse(
                    ParseErrorView::BadMnemonic(s@),
                ),
            },
    {
        let v = str_to_chars(s);
        match dp_mnemonic_of(&v) {
            Some(m) => Ok(m),
            None => Err(AssemblerError::Parse(ParseError::BadMnemonic(s.to_owned()))),
        }
    }
}

impl MemoryMnemonic {
    /// The lower-case spelling of this mnemonic.  Replaces display
    /// formatting, which the library's types do not implement.
    pub fn spelling(self) -> (r: &'static str)
        ensures
            r@ == mem_spelling(self),
    {
        match self {
            MemoryMnemonic::STR => {
                proof {
                    reveal_strlit("str");
                    assert("str"@ =~= mem_spelling(MemoryMnemonic::STR));
                }
                "str"
            },
            MemoryMnemonic::STRB => {
                proof {
                    reveal_strlit("strb");
                    assert("strb"@ =~= mem_spelling(MemoryMnemonic::STRB));
                }
                "strb"
            },
            MemoryMnemonic::LDR => {
                proof {
                    reveal_strlit("ldr");
                    assert("ldr"@ =~= mem_spelling(MemoryMnemonic::LDR));
                }
                "ldr"
            },
            MemoryMnemonic::LDRB => {
                proof {
                    reveal_strlit("ldrb");
                    assert("ldrb"@ =~= mem_spelling(MemoryMnemonic::LDRB));
                }
                "ldrb"
            },
        }
    }

    /// Classify a token as a memory mnemonic.
    pub fn try_from(s: &str) -> (r: Result<MemoryMnemonic, AssemblerError>)
        ensures
            match r {
                Ok(m) => spec_mem_mnemonic(s@) == Some(m),
                Err(e) => spec_mem_mnemonic(s@) is None && e@ == AssemblerErrorView::Parse(
                    ParseErrorView::BadMnemonic(s@),
                ),
            },
    {
        let v = str_to_chars(s);
        match mem_mnemonic_of(&v) {
            Some(m) => Ok(m),
            None => Err(AssemblerError::Parse(ParseError::BadMnemonic(s.to_owned()))),
        }
    }
}

impl BranchMnemonic {
    /// The lower-case spelling of this mnemonic.  Replaces display
    /// formatting, which the library's types do not implement.
    pub fn spelling(self) -> (r: &'static str)
        ensures
            r@ == branch_spelling(self),
    {
        match self {
            BranchMnemonic::B => {
                proof {
                    reveal_strlit("b");
                    assert("b"@ =~= branch_spelling(BranchMnemonic::B));
                }
                "b"
            },
            BranchMnemonic::BL => {
                proof {
                    reveal_strlit("bl");
                    assert("bl"@ =~= branch_spelling(BranchMnemonic::BL));
                }
                "bl"
            },
        }
    }

    /// Classify a token as a branch mnemonic.
    pub fn try_from(s: &str) -> (r: Result<BranchMnemonic, AssemblerError>)
        ensures
            match r {
                Ok(m) => spec_branch_mnemonic(s@) == Some(m),
                Err(e) => spec_branch_mnemonic(s@) is None && e@ == AssemblerErrorView::Parse(
                    ParseErrorView::BadMnemonic(s@),
                ),
            },
    {
        let v = str_to_chars(s);
        match branch_mnemonic_of(&v) {
            Some(m) => Ok(m),
            None => Err(AssemblerError::Parse(ParseError::BadMnemonic(s.to_owned()))),
        }
    }
}

impl Mnemonic {
    /// Classify an opcode token into its instruction family.
    pub fn try_from(s: &str) -> (r: Result<Mnemonic, AssemblerError>)
        ensures
            match r {
                Ok(m) => spec_classify(s@) == Some(m),
                Err(e) => spec_classify(s@) is None && e@ == AssemblerErrorView::Parse(
                    ParseErrorView::BadMnemonic(s@),
                ),
            },
    {
        let v = str_to_chars(s);
        match classify(&v) {
            Some(m) => Ok(m),
            None => Err(AssemblerError::Parse(ParseError::BadMnemonic(s.to_owned()))),
        }
    }
}

} // verus!
