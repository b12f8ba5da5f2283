//! Token values produced by the recognizers.

use vstd::prelude::*;

verus! {

/// A literal expression.
#[derive(Clone, Debug, PartialEq, PartialOrd)]
pub enum LiteralExpression {
    NumericLiteral(NumericLiteral),
}

/// Words with a fixed meaning in the language.
#[derive(Clone, Copy, Debug, PartialEq, Eq, PartialOrd, Structural)]
pub enum Keyword {
    As,
    Break,
    Const,
    Continue,
    Else,
    Enum,
    False,
    Fn,
    For,
    If,
    Impl,
    In,
    Loop,
    Match,
    Missing,
    Mod,
    Pub,
    Reserved(ReservedKeyword),
    Return,
    SelfValue,
    SelfType,
    Static,
    Struct,
    Super,
    Trait,
    True,
    Type,
    Use,
    Where,
    While,
}

/// Words set aside for later use.
#[derive(Clone, Copy, Debug, PartialEq, Eq, PartialOrd, Structural)]
pub enum ReservedKeyword {
    Abstract,
    Async,
    Await,
    Crate,
    Do,
    Dyn,
    Export,
    Extern,
    Final,
    Import,
    Let,
    Macro,
    Move,
    Mut,
    Override,
    Priv,
    Proc,
    Ref,
    Typeof,
    Unsafe,
    Unsized,
    Virtual,
    Yield,
}

/// A comment, holding its whole text with the markers.
#[derive(Clone, Debug, PartialEq, Eq, PartialOrd)]
pub enum Comment {
    LineComment { comment: String },
    BlockComment { comment: String },
    DocComment(DocComment),
}

/// A documentation comment, holding its whole text with the markers.
#[derive(Clone, Debug, PartialEq, Eq, PartialOrd)]
pub enum DocComment {
    InnerLineDocComment { comment: String },
    InnerBlockDocComment { comment: String },
    OuterLineDocComment { comment: String },
    OuterBlockDocComment { comment: String },
}

/// The six shapes a comment can have.
#[derive(Clone, Copy, Debug, PartialEq, Eq, PartialOrd, Structural)]
pub enum CommentKind {
    Line,
    Block,
    InnerLineDoc,
    InnerBlockDoc,
    OuterLineDoc,
    OuterBlockDoc,
}

impl DocComment {
    /// The shape of the comment.
    pub open spec fn kind(&self) -> CommentKind {
        match self {
            DocComment::InnerLineDocComment { .. } => CommentKind::InnerLineDoc,
            DocComment::InnerBlockDocComment { .. } => CommentKind::InnerBlockDoc,
            DocComment::OuterLineDocComment { .. } => CommentKind::OuterLineDoc,
            DocComment::OuterBlockDocComment { .. } => CommentKind::OuterBlockDoc,
        }
    }

    /// The text of the comment.
    pub open spec fn text(&self) -> Seq<char> {
        match self {
            DocComment::InnerLineDocComment { comment } => comment@,
            DocComment::InnerBlockDocComment { comment } => comment@,
            DocComment::OuterLineDocComment { comment } => comment@,
            DocComment::OuterBlockDocComment { comment } => comment@,
        }
    }
}

impl Comment {
    /// The shape of the comment.
    pub open spec fn kind(&self) -> CommentKind {
        match self {
            Comment::LineComment { .. } => CommentKind::Line,
            Comment::BlockComment { .. } => CommentKind::Block,
            Comment::DocComment(doc) => doc.kind(),
        }
    }

    /// The text of the comment.
    pub open spec fn text(&self) -> Seq<char> {
        match self {
            Comment::LineComment { comment } => comment@,
            Comment::BlockComment { comment } => comment@,
            Comment::DocComment(doc) => doc.text(),
        }
    }
}

/// A numeric literal of any family.
#[derive(Clone, Debug, PartialEq, PartialOrd)]
pub enum NumericLiteral {
    Integer(Integer),
    Float(Float),
    MathematicalConstant(MathematicalConstant),
}

/// An integer of a stated width and signedness.
#[derive(Clone, Copy, Debug, PartialEq, Eq, PartialOrd, Structural)]
#[allow(inconsistent_fields)]
pub enum Integer {
    U8 { n: u8 },
    U16 { n: u16 },
    U32 { n: u32 },
    U64 { n: u64 },
    U128 { n: u128 },
    USize { n: usize },
    I8 { n: i8 },
    I16 { n: i16 },
    I32 { n: i32 },
    I64 { n: i64 },
    I128 { n: i128 },
    ISize { n: isize },
}

/// The twelve integer widths a literal can name.
#[derive(Clone, Copy, Debug, PartialEq, Eq, PartialOrd, Structural)]
pub enum IntegerSuffix {
    U8,
    U16,
    U32,
    U64,
    U128,
    USize,
    I8,
    I16,
    I32,
    I64,
    I128,
    ISize,
}

impl Integer {
    /// The number held.
    pub open spec fn value(&self) -> int {
        match self {
            Integer::U8 { n } => *n as int,
            Integer::U16 { n } => *n as int,
            Integer::U32 { n } => *n as int,
            Integer::U64 { n } => *n as int,
            Integer::U128 { n } => *n as int,
            Integer::USize { n } => *n as int,
            Integer::I8 { n } => *n as int,
            Integer::I16 { n } => *n as int,
            Integer::I32 { n } => *n as int,
            Integer::I64 { n } => *n as int,
            Integer::I128 { n } => *n as int,
            Integer::ISize { n } => *n as int,
        }
    }

    /// The width and signedness.
    pub open spec fn suffix(&self) -> IntegerSuffix {
        match self {
            Integer::U8 { .. } => IntegerSuffix::U8,
            Integer::U16 { .. } => IntegerSuffix::U16,
            Integer::U32 { .. } => IntegerSuffix::U32,
            Integer::U64 { .. } => IntegerSuffix::U64,
            Integer::U128 { .. } => IntegerSuffix::U128,
            Integer::USize { .. } => IntegerSuffix::USize,
            Integer::I8 { .. } => IntegerSuffix::I8,
            Integer::I16 { .. } => IntegerSuffix::I16,
            Integer::I32 { .. } => IntegerSuffix::I32,
            Integer::I64 { .. } => IntegerSuffix::I64,
            Integer::I128 { .. } => IntegerSuffix::I128,
            Integer::ISize { .. } => IntegerSuffix::ISize,
        }
    }
}

/// The two widths a real-number literal can name.
#[derive(Clone, Copy, Debug, PartialEq, Eq, PartialOrd, Structural)]
pub enum FloatSuffix {
    F32,
    F64,
}

/// A real-number literal of a stated precision. The value is held in decimal
/// notation, digit separators removed: digits, an optional point and
/// fraction, an optional exponent with its sign.
#[derive(Clone, Debug, PartialEq, Eq, PartialOrd)]
pub enum Float {
    F32 { decimal: String },
    F64 { decimal: String },
}

impl Float {
    /// The precision.
    pub open spec fn suffix(&self) -> FloatSuffix {
        match self {
            Float::F32 { .. } => FloatSuffix::F32,
            Float::F64 { .. } => FloatSuffix::F64,
        }
    }

    /// The value in decimal notation.
    pub open spec fn decimal(&self) -> Seq<char> {
        match self {
            Float::F32 { decimal } => decimal@,
            Float::F64 { decimal } => decimal@,
        }
    }
}

/// A named constant with its value as the bits of an IEEE-754 double.
#[derive(Clone, Copy, Debug, PartialEq, Eq, PartialOrd, Structural)]
pub enum MathematicalConstant {
    Pi { bits: u64 },
    Euler { bits: u64 },
    EulerMascheroni { bits: u64 },
    Tau { bits: u64 },
    Catalan { bits: u64 },
    GoldenRatio { bits: u64 },
    Infinity { bits: u64 },
    NotANumber,
}

/// Operators and separators.
#[derive(Clone, Copy, Debug, PartialEq, Eq, PartialOrd, Structural)]
pub enum Punctuation {
    Plus,
    Minus,
    Star,
    Slash,
    Backslash,
    Percent,
    Caret,
    Not,
    And,
    Or,
    AndAnd,
    OrOr,
    PlusEquals,
    MinusEquals,
    StarEquals,
    SlashEquals,
    PercentEquals,
    CaretEquals,
    AndEquals,
    OrEquals,
    Equals,
    DoubleEquals,
    NotEqual,
    LessThan,
    LessThanEqual,
    GreaterThan,
    GreaterThanEqual,
    Underscore,
    Dot,
    DotDot,
    DotDotDot,
    DotDotEquals,
    Comma,
    Colon,
    Semicolon,
    PathSeparator,
    RightArrow,
    LeftArrow,
    FatRightArrow,
    FatLeftArrow,
    Pound,
    Dollar,
    Question,
    Apostrophe,
    Quote,
}

/// Brackets.
#[derive(Clone, Copy, Debug, PartialEq, Eq, PartialOrd, Structural)]
pub enum Delimiter {
    LeftParen,
    RightParen,
    LeftBracket,
    RightBracket,
    LeftBrace,
    RightBrace,
}

/// Symbols of mathematical notation.
#[derive(Clone, Copy, Debug, PartialEq, Eq, PartialOrd, Structural)]
pub enum MathematicalSymbol {
    Root { exponent: i8 },
    Power { exponent: i8 },
    Division,
    ProportionalTo,
    Intersection,
    Union,
    Integral,
    Sum,
    Therefore,
    Because,
    ApproximatelyEqual,
    NotApproximatelyEqual,
    IdenticalTo,
    NotIdenticalTo,
    SubsetOf,
    SubsetOfOrEqualTo,
    NotSubsetOf,
    SupersetOf,
    NotSupersetOf,
    SupersetOfOrEqualTo,
    Logarithm,
    NaturalLogarithm,
}

/// The exponent of a power or a root.
#[derive(Clone, Copy, Debug, PartialEq, Eq, PartialOrd, Structural)]
pub struct Exponent {
    pub value: i8,
}

/// An integer written in superscript digits.
#[derive(Clone, Copy, Debug, PartialEq, Eq, PartialOrd, Structural)]
pub struct SuperscriptIntegerLiteral {
    pub n: i8,
}

/// One superscript digit, by its value from 0 to 9.
#[derive(Clone, Copy, Debug, PartialEq, Eq, PartialOrd, Structural)]
pub struct SuperscriptDecimalDigit {
    pub digit: i8,
}

/// The superscript signs and parentheses.
#[derive(Clone, Copy, Debug, PartialEq, Eq, PartialOrd, Structural)]
pub enum SuperscriptPunctuation {
    Plus,
    Minus,
    LeftParen,
    RightParen,
}

/// A path of plain segments.
#[derive(Clone, Debug, PartialEq, Eq, PartialOrd)]
pub struct SimplePath {
    pub segments: Vec<SimplePathSegment>,
}

/// One segment of a path. The variants are named so as to keep clear of the
/// words `crate`, `self` and `super` themselves.
#[derive(Clone, Debug, PartialEq, Eq, PartialOrd)]
pub enum SimplePathSegment {
    IdentifierSegment { segment: String },
    SuperSegment { segment: String },
    SelfValueSegment { segment: String },
    CrateSegment { segment: String },
}

/// A truth value that may be missing.
#[derive(Clone, Copy, Debug, PartialEq, Eq, PartialOrd, Structural)]
pub enum LogicLiteral {
    True { value: bool },
    False { value: bool },
    Missing,
}

/// A name.
#[derive(Clone, Debug, PartialEq, Eq, PartialOrd)]
pub struct Identifier {
    pub name: String,
}

impl Default for Exponent {
    /// Where no exponent is written, a power or a root has the exponent 2.
    fn default() -> (exponent: Exponent)
        ensures
            exponent.value == 2,
    {
        Exponent { value: 2 }
    }
}

impl LogicLiteral {
    /// The value held agrees with the variant.
    pub open spec fn well_formed(&self) -> bool {
        match self {
            LogicLiteral::True { value } => *value,
            LogicLiteral::False { value } => !*value,
            LogicLiteral::Missing => true,
        }
    }
}

impl SuperscriptDecimalDigit {
    /// The digit is one of 0 to 9.
    pub open spec fn well_formed(&self) -> bool {
        0 <= self.digit <= 9
    }
}

} // verus!
