//! Numeric literals of any family: integers, real numbers and named
//! constants.

use vstd::prelude::*;
use crate::ast::{Integer, MathematicalConstant, NumericLiteral};
use crate::float_literal::{float_literal, parse_float_literal, FloatView};
use crate::integer::{integer_literal, parse_integer_literal};
use crate::math::{constant_named, parse_constant};
use crate::parser_errors::InternalParserError;

verus! {

/// What a numeric literal is to the contracts.
pub enum NumericLiteralView {
    Integer(Integer),
    Float(FloatView),
    MathematicalConstant(MathematicalConstant),
}

impl View for NumericLiteral {
    type V = NumericLiteralView;

    open spec fn view(&self) -> NumericLiteralView {
        match self {
            NumericLiteral::Integer(i) => NumericLiteralView::Integer(*i),
            NumericLiteral::Float(f) => NumericLiteralView::Float(f@),
            NumericLiteral::MathematicalConstant(c) => NumericLiteralView::MathematicalConstant(*c),
        }
    }
}

/// The numeric literal that `text` is. The families are tried in turn:
/// integer, real number, constant. A family that knows the text but finds
/// it faulty decides with its error; a text that no family knows is
/// unrecognized.
pub open spec fn numeric_literal(text: Seq<char>) -> Result<
    NumericLiteralView,
    InternalParserError,
> {
    match integer_literal(text) {
        Ok(i) => Ok(NumericLiteralView::Integer(i)),
        Err(InternalParserError::UnrecognizedLexeme) => match float_literal(text) {
            Ok(f) => Ok(NumericLiteralView::Float(f)),
            Err(InternalParserError::UnrecognizedLexeme) => match constant_named(text) {
                Some(c) => Ok(NumericLiteralView::MathematicalConstant(c)),
                None => Err(InternalParserError::UnrecognizedLexeme),
            },
            Err(e) => Err(e),
        },
        Err(e) => Err(e),
    }
}

/// Reads a numeric literal of any family.
pub fn parse_numeric_literal(text: &str) -> (r: Result<NumericLiteral, InternalParserError>)
    ensures
        match r {
            Ok(literal) => numeric_literal(text@) == Ok::<
                NumericLiteralView,
                InternalParserError,
            >(literal@),
            Err(e) => numeric_literal(text@) == Err::<NumericLiteralView, InternalParserError>(e),
        },
{
    match parse_integer_literal(text) {
        Ok(i) => Ok(NumericLiteral::Integer(i)),
        Err(InternalParserError::UnrecognizedLexeme) => match parse_float_literal(text) {
            Ok(f) => Ok(NumericLiteral::Float(f)),
            Err(InternalParserError::UnrecognizedLexeme) => match parse_constant(text) {
                Ok(c) => Ok(NumericLiteral::MathematicalConstant(c)),
                Err(e) => Err(e),
            },
            Err(e) => Err(e),
        },
        Err(e) => Err(e),
    }
}

} // verus!
