//! The closed error taxonomy of the assembler.
//!
//! Every parsing failure is reported as one of these values; the
//! spec-level mirror types carry the offending text as a `Seq<char>` so
//! that contracts can say exactly which error an input produces.

use vstd::prelude::*;

verus! {

/// Spec-level mirror of [`ParseError`].
pub enum ParseErrorView {
    BadMnemonic(Seq<char>),
    BadRegister(Seq<char>),
    RanOutOfOperands,
    BadFlexOperand(Seq<char>),
}

/// Spec-level mirror of [`AssemblerError`].
pub enum AssemblerErrorView {
    Parse(ParseErrorView),
    BadNumericLiteral(Seq<char>),
    BadCondition(Seq<char>),
    UndefinedLabel(Seq<char>),
}

/// A failure of the operand parser or the mnemonic classifier.
#[derive(Debug)]
pub enum ParseError {
    /// The opcode token matches no instruction family.
    BadMnemonic(String),
    /// A token outside the register-name grammar.
    BadRegister(String),
    /// Fewer comma-separated tokens than the family requires.
    RanOutOfOperands,
    /// An operand that is neither a valid register nor a valid literal.
    BadFlexOperand(String),
}

/// Any failure of the assembler.
#[derive(Debug)]
pub enum AssemblerError {
    /// A failure of the operand parser or the mnemonic classifier.
    Parse(ParseError),
    /// A numeric literal that is malformed or out of range.
    BadNumericLiteral(String),
    /// A leftover opcode suffix that names no condition.
    BadCondition(String),
    /// A branch operand that names no known label; always fatal.
    UndefinedLabel(String),
}

impl View for ParseError {
    type V = ParseErrorView;

    open spec fn view(&self) -> ParseErrorView {
        match self {
            ParseError::BadMnemonic(s) => ParseErrorView::BadMnemonic(s@),
            ParseError::BadRegister(s) => ParseErrorView::BadRegister(s@),
            ParseError::RanOutOfOperands => ParseErrorView::RanOutOfOperands,
            ParseError::BadFlexOperand(s) => ParseErrorView::BadFlexOperand(s@),
        }
    }
}

impl View for AssemblerError {
    type V = AssemblerErrorView;

    open spec fn view(&self) -> AssemblerErrorView {
        match self {
            AssemblerError::Parse(e) => AssemblerErrorView::Parse(e@),
            AssemblerError::BadNumericLiteral(s) => AssemblerErrorView::BadNumericLiteral(s@),
            AssemblerError::BadCondition(s) => AssemblerErrorView::BadCondition(s@),
            AssemblerError::UndefinedLabel(s) => AssemblerErrorView::UndefinedLabel(s@),
        }
    }
}

} // verus!
