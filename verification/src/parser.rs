use vstd::prelude::*;
use vstd::string::StringSliceAdditionalSpecFns;

use crate::instruction::operation::{
    ascii_upper, operation_of_letters, spec_operation_from_bytes_folded, Operation,
};
use crate::token::Token;

verus! {

/// The token classes the assembly grammar distinguishes.
#[derive(Debug, Clone, Copy, PartialEq, Eq, Structural)]
pub enum AssemblyTokensType {
    CloseBrackets,
    Colon,
    Comma,
    Hash,
    Hex,
    Number,
    OpenBrackets,
    Text,
    X,
    Y,
}

/// A failure while parsing a token stream.
#[derive(Debug, Clone, Copy, PartialEq, Eq, Structural)]
pub enum ParseError {
    /// The stream ended where the grammar still required a token.
    UnexpectedEndOfProgram,
    /// No `name :` pair stands at the front of the stream.
    LabelNotFound,
    /// The text names no 6502 mnemonic.
    UnknownOperation,
    /// The token's text is not a decimal number that fits in 16 bits.
    ExpectedDecimalNumber,
    /// No hexadecimal marker token stands at the front of the stream.
    HexNumberNotFound,
    /// The token's text is not a hexadecimal number that fits in 16 bits.
    ExpectedHexNumber,
    /// Neither a decimal nor a hexadecimal number could be read.
    NumberNotFound,
    /// The number read does not fit the single-byte bound.
    ByteOverflow,
    HashNotFound,
    XNotFound,
    YNotFound,
    CommaNotFound,
    OpenBracketsNotFound,
    CloseBracketsNotFound,
    /// No addressing expression form matched.
    ExpressionNotFound,
}

/// An addressing expression as written in assembly source.
#[derive(Debug, Clone, Copy, PartialEq, Eq, Structural)]
pub enum Expression {
    Number(u16),
    Immediate(u16),
    AbsoluteIndirect(u16),
    AbsoluteIndexedWithX(u16),
    AbsoluteIndexedWithY(u16),
    ZeroPageIndexedWithX(u8),
    ZeroPageIndexedWithY(u8),
    ZeroPageIndexedIndirect(u8),
    ZeroPageIndirectIndexedWithY(u8),
    ZeroPage(u8),
}

/// One parsed statement: an optional label, the operation, and its
/// addressing expression.
#[derive(Debug, Clone, Copy)]
pub struct Statement<'a> {
    pub label: Option<&'a str>,
    pub operation: Operation,
    pub expression: Expression,
}

/// A parsed program: its statements in source order.
#[derive(Debug)]
pub struct Program<'a> {
    pub statements: Vec<Statement<'a>>,
}

pub type TokenList<'a> = &'a [Token<'a, AssemblyTokensType>];

pub type ParserResult<'a, ParsedType> = Result<(TokenList<'a>, ParsedType), ParseError>;

/// The value of one ASCII digit: 0 to 9 for `0`-`9`, 10 to 15 for the hex
/// letters in either case, and the out-of-range marker 99 for every other
/// byte.
pub open spec fn spec_digit_value(b: u8) -> int {
    if 48 <= b && b <= 57 {
        b - 48
    } else if 65 <= b && b <= 70 {
        b - 55
    } else if 97 <= b && b <= 102 {
        b - 87
    } else {
        99
    }
}

/// Whether a byte is a digit of the given radix.
pub open spec fn spec_is_digit(b: u8, radix: int) -> bool {
    spec_digit_value(b) < radix
}

/// Whether every byte is a digit of the given radix.
pub open spec fn spec_all_digits(bytes: Seq<u8>, radix: int) -> bool {
    forall|i: int| 0 <= i < bytes.len() ==> spec_is_digit(#[trigger] bytes[i], radix)
}

/// The number the digit bytes spell in the given radix, most significant
/// digit first.
pub open spec fn spec_number_value(bytes: Seq<u8>, radix: int) -> int
    decreases bytes.len(),
{
    if bytes.len() == 0 {
        0
    } else {
        spec_number_value(bytes.drop_last(), radix) * radix + spec_digit_value(bytes.last())
    }
}

/// A 16-bit number read from text in the given radix: an optional leading
/// plus sign, then one or more digits, whose value must fit in 16 bits.
pub open spec fn spec_parse_u16_radix(bytes: Seq<u8>, radix: int) -> Option<u16> {
    let digits = if bytes.len() >= 1 && bytes[0] == 43 {
        bytes.drop_first()
    } else {
        bytes
    };
    if digits.len() >= 1 && spec_all_digits(digits, radix) && spec_number_value(digits, radix)
        <= 0xFFFF {
        Some(spec_number_value(digits, radix) as u16)
    } else {
        None
    }
}

proof fn lemma_number_value_nonneg(bytes: Seq<u8>, radix: int)
    requires
        radix >= 1,
    ensures
        spec_number_value(bytes, radix) >= 0,
    decreases bytes.len(),
{
    if bytes.len() > 0 {
        lemma_number_value_nonneg(bytes.drop_last(), radix);
        let v = spec_number_value(bytes.drop_last(), radix);
        assert(v * radix >= 0) by (nonlinear_arith)
            requires
                v >= 0,
                radix >= 1,
        ;
    }
}

proof fn lemma_number_value_prefix(bytes: Seq<u8>, k: int, radix: int)
    requires
        0 <= k <= bytes.len(),
        radix >= 1,
    ensures
        spec_number_value(bytes.take(k), radix) <= spec_number_value(bytes, radix),
    decreases bytes.len() - k,
{
    if k == bytes.len() {
        assert(bytes.take(k) =~= bytes);
    } else {
        lemma_number_value_prefix(bytes, k + 1, radix);
        assert(bytes.take(k + 1).drop_last() =~= bytes.take(k));
        let v = spec_number_value(bytes.take(k), radix);
        lemma_number_value_nonneg(bytes.take(k), radix);
        assert(v * radix >= v) by (nonlinear_arith)
            requires
                v >= 0,
                radix >= 1,
        ;
        assert(bytes.take(k + 1).last() == bytes[k]);
    }
}

fn digit_value(b: u8) -> (r: u8)
    ensures
        r as int == spec_digit_value(b),
{
    if 48 <= b && b <= 57 {
        b - 48
    } else if 65 <= b && b <= 70 {
        b - 55
    } else if 97 <= b && b <= 102 {
        b - 87
    } else {
        99
    }
}

/// Reads a 16-bit number out of text in the given radix, as the number
/// tokens of the grammar require.
fn parse_u16_radix(s: &str, radix: u32) -> (r: Option<u16>)
    requires
        radix == 10 || radix == 16,
    ensures
        r == spec_parse_u16_radix(s.spec_bytes(), radix as int),
{
    let bytes = s.as_bytes();
    let start: usize = if bytes.len() >= 1 && bytes[0] == 43 {
        1
    } else {
        0
    };
    let ghost digits = s.spec_bytes().skip(start as int);
    proof {
        if start == 1 {
            assert(digits =~= s.spec_bytes().drop_first());
        } else {
            assert(digits =~= s.spec_bytes());
        }
    }
    if bytes.len() == start {
        return None;
    }
    let mut value: u32 = 0;
    let mut i: usize = start;
    while i < bytes.len()
        invariant
            radix == 10 || radix == 16,
            bytes@ == s.spec_bytes(),
            start <= i <= bytes@.len(),
            start <= 1,
            start < bytes@.len(),
            digits == s.spec_bytes().skip(start as int),
            digits == (if s.spec_bytes().len() >= 1 && s.spec_bytes()[0] == 43 {
                s.spec_bytes().drop_first()
            } else {
                s.spec_bytes()
            }),
            value <= 0xFFFF,
            value as int == spec_number_value(digits.take(i - start), radix as int),
            forall|j: int| 0 <= j < i - start ==> spec_is_digit(#[trigger] digits[j], radix as int),
        decreases bytes@.len() - i,
    {
        let b = bytes[i];
        let dv = digit_value(b);
        proof {
            assert(digits[i - start] == bytes@[i as int]);
        }
        if dv as u32 >= radix {
            proof {
                let k = i - start;
                let sb = s.spec_bytes();
                let spec_digits = if sb.len() >= 1 && sb[0] == 43 {
                    sb.drop_first()
                } else {
                    sb
                };
                assert(spec_digits == digits);
                assert(0 <= k < digits.len());
                assert(spec_digits[k] == digits[k]);
                assert(!spec_is_digit(spec_digits[k], radix as int));
                assert(!spec_is_digit(digits[k], radix as int));
                assert(!(forall|j: int|
                    0 <= j < digits.len() ==> spec_is_digit(#[trigger] digits[j], radix as int)));
                assert(spec_parse_u16_radix(s.spec_bytes(), radix as int) is None);
            }
            return None;
        }
        proof {
            assert(digits.take(i - start + 1).drop_last() =~= digits.take(i - start));
            assert(digits.take(i - start + 1).last() == digits[i - start]);
        }
        proof {
            assert(value * radix <= 0xFFFF * 16) by (nonlinear_arith)
                requires
                    value <= 0xFFFF,
                    radix <= 16,
            ;
        }
        let next = value * radix + dv as u32;
        if next > 0xFFFF {
            proof {
                if spec_all_digits(digits, radix as int) {
                    lemma_number_value_prefix(digits, i - start + 1, radix as int);
                }
            }
            return None;
        }
        value = next;
        i = i + 1;
    }
    proof {
        assert(digits.take(i - start) =~= digits);
        assert(spec_all_digits(digits, radix as int));
    }
    Some(value as u16)
}

/// One token of the required type is consumed; an empty stream and a
/// token of another type fail, each with its own error.
pub open spec fn spec_expect_token_type<'a>(
    tokens: Seq<Token<'a, AssemblyTokensType>>,
    token_type: AssemblyTokensType,
    error: ParseError,
) -> Result<Seq<Token<'a, AssemblyTokensType>>, ParseError> {
    if tokens.len() == 0 {
        Err(ParseError::UnexpectedEndOfProgram)
    } else if tokens[0].token_type == token_type {
        Ok(tokens.skip(1))
    } else {
        Err(error)
    }
}

fn expect_token_type<'a>(
    tokens: TokenList<'a>,
    token_type: AssemblyTokensType,
    error: ParseError,
) -> (r: ParserResult<'a, ()>)
    ensures
        spec_expect_token_type(tokens@, token_type, error) matches Ok(rest) ==> r matches Ok(q)
            && q.0@ == rest,
        spec_expect_token_type(tokens@, token_type, error) matches Err(e) ==> r matches Err(e2)
            && e2 == e,
{
    if tokens.len() == 0 {
        return Err(ParseError::UnexpectedEndOfProgram);
    }
    if tokens[0].token_type == token_type {
        Ok((&tokens[1..tokens.len()], ()))
    } else {
        Err(error)
    }
}

/// A label: a text token followed by a colon token.
pub open spec fn spec_parse_label<'a>(tokens: Seq<Token<'a, AssemblyTokensType>>) -> Result<
    (Seq<Token<'a, AssemblyTokensType>>, &'a str),
    ParseError,
> {
    if tokens.len() < 2 {
        Err(ParseError::UnexpectedEndOfProgram)
    } else if tokens[0].token_type == AssemblyTokensType::Text && tokens[1].token_type
        == AssemblyTokensType::Colon {
        Ok((tokens.skip(2), tokens[0].text))
    } else {
        Err(ParseError::LabelNotFound)
    }
}

/// Reads a label off the front of the stream.
pub fn parse_label<'a>(tokens: TokenList<'a>) -> (r: ParserResult<'a, &'a str>)
    ensures
        spec_parse_label(tokens@) matches Ok(p) ==> r matches Ok(q) && q.0@ == p.0 && q.1@ == p.1@,
        spec_parse_label(tokens@) matches Err(e) ==> r matches Err(e2) && e2 == e,
{
    if tokens.len() < 2 {
        return Err(ParseError::UnexpectedEndOfProgram);
    }
    if matches!(tokens[0].token_type, AssemblyTokensType::Text) && matches!(
        tokens[1].token_type,
        AssemblyTokensType::Colon,
    ) {
        Ok((&tokens[2..tokens.len()], tokens[0].text))
    } else {
        Err(ParseError::LabelNotFound)
    }
}

/// An operation: one text token naming a mnemonic, read
/// case-insensitively by folding the token text to upper case first.
pub open spec fn spec_parse_operation<'a>(tokens: Seq<Token<'a, AssemblyTokensType>>) -> Result<
    (Seq<Token<'a, AssemblyTokensType>>, Operation),
    ParseError,
> {
    if tokens.len() == 0 {
        Err(ParseError::UnexpectedEndOfProgram)
    } else {
        match spec_operation_from_bytes_folded(tokens[0].text.spec_bytes()) {
            Some(op) => Ok((tokens.skip(1), op)),
            None => Err(ParseError::UnknownOperation),
        }
    }
}

/// Reads an operation mnemonic off the front of the stream.
pub fn parse_operation<'a>(tokens: TokenList<'a>) -> (r: ParserResult<'a, Operation>)
    ensures
        spec_parse_operation(tokens@) matches Ok(p) ==> r matches Ok(q) && q.0@ == p.0 && q.1
            == p.1,
        spec_parse_operation(tokens@) matches Err(e) ==> r matches Err(e2) && e2 == e,
{
    if tokens.len() == 0 {
        return Err(ParseError::UnexpectedEndOfProgram);
    }
    let bytes = tokens[0].text.as_bytes();
    let found = if bytes.len() == 3 {
        operation_of_letters(ascii_upper(bytes[0]), ascii_upper(bytes[1]), ascii_upper(bytes[2]))
    } else {
        None
    };
    match found {
        Some(op) => Ok((&tokens[1..tokens.len()], op)),
        None => Err(ParseError::UnknownOperation),
    }
}

/// A decimal number: one token whose text is a decimal 16-bit number.
pub open spec fn spec_parse_decimal_number<'a>(
    tokens: Seq<Token<'a, AssemblyTokensType>>,
) -> Result<(Seq<Token<'a, AssemblyTokensType>>, u16), ParseError> {
    if tokens.len() == 0 {
        Err(ParseError::UnexpectedEndOfProgram)
    } else {
        match spec_parse_u16_radix(tokens[0].text.spec_bytes(), 10) {
            Some(value) => Ok((tokens.skip(1), value)),
            None => Err(ParseError::ExpectedDecimalNumber),
        }
    }
}

/// Reads a decimal number token off the front of the stream.
pub fn parse_decimal_number<'a>(tokens: TokenList<'a>) -> (r: ParserResult<'a, u16>)
    ensures
        spec_parse_decimal_number(tokens@) matches Ok(p) ==> r matches Ok(q) && q.0@ == p.0 && q.1
            == p.1,
        spec_parse_decimal_number(tokens@) matches Err(e) ==> r matches Err(e2) && e2 == e,
{
    if tokens.len() == 0 {
        return Err(ParseError::UnexpectedEndOfProgram);
    }
    match parse_u16_radix(tokens[0].text, 10) {
        Some(value) => Ok((&tokens[1..tokens.len()], value)),
        None => Err(ParseError::ExpectedDecimalNumber),
    }
}

/// A hexadecimal number: the hex marker token, then one token whose text
/// is a hexadecimal 16-bit number.
pub open spec fn spec_parse_hex_number<'a>(tokens: Seq<Token<'a, AssemblyTokensType>>) -> Result<
    (Seq<Token<'a, AssemblyTokensType>>, u16),
    ParseError,
> {
    if tokens.len() == 0 {
        Err(ParseError::UnexpectedEndOfProgram)
    } else if tokens[0].token_type != AssemblyTokensType::Hex {
        Err(ParseError::HexNumberNotFound)
    } else if tokens.len() < 2 {
        Err(ParseError::UnexpectedEndOfProgram)
    } else {
        match spec_parse_u16_radix(tokens[1].text.spec_bytes(), 16) {
            Some(value) => Ok((tokens.skip(2), value)),
            None => Err(ParseError::ExpectedHexNumber),
        }
    }
}

/// Reads a hexadecimal number off the front of the stream.
pub fn parse_hex_number<'a>(tokens: TokenList<'a>) -> (r: ParserResult<'a, u16>)
    ensures
        spec_parse_hex_number(tokens@) matches Ok(p) ==> r matches Ok(q) && q.0@ == p.0 && q.1
            == p.1,
        spec_parse_hex_number(tokens@) matches Err(e) ==> r matches Err(e2) && e2 == e,
{
    if tokens.len() == 0 {
        return Err(ParseError::UnexpectedEndOfProgram);
    }
    if !matches!(tokens[0].token_type, AssemblyTokensType::Hex) {
        return Err(ParseError::HexNumberNotFound);
    }
    if tokens.len() < 2 {
        return Err(ParseError::UnexpectedEndOfProgram);
    }
    match parse_u16_radix(tokens[1].text, 16) {
        Some(value) => Ok((&tokens[2..tokens.len()], value)),
        None => Err(ParseError::ExpectedHexNumber),
    }
}

/// A number in either notation: decimal first, hexadecimal second.
pub open spec fn spec_parse_word<'a>(tokens: Seq<Token<'a, AssemblyTokensType>>) -> Result<
    (Seq<Token<'a, AssemblyTokensType>>, u16),
    ParseError,
> {
    match spec_parse_decimal_number(tokens) {
        Ok(p) => Ok(p),
        Err(_) => match spec_parse_hex_number(tokens) {
            Ok(p) => Ok(p),
            Err(_) => Err(ParseError::NumberNotFound),
        },
    }
}

pub fn parse_word<'a>(tokens: TokenList<'a>) -> (r: ParserResult<'a, u16>)
    ensures
        spec_parse_word(tokens@) matches Ok(p) ==> r matches Ok(q) && q.0@ == p.0 && q.1 == p.1,
        spec_parse_word(tokens@) matches Err(e) ==> r matches Err(e2) && e2 == e,
{
    match parse_decimal_number(tokens) {
        Ok(p) => Ok(p),
        Err(_) => match parse_hex_number(tokens) {
            Ok(p) => Ok(p),
            Err(_) => Err(ParseError::NumberNotFound),
        },
    }
}

/// A number small enough for one byte: strictly below 255.
pub open spec fn spec_parse_byte<'a>(tokens: Seq<Token<'a, AssemblyTokensType>>) -> Result<
    (Seq<Token<'a, AssemblyTokensType>>, u8),
    ParseError,
> {
    match spec_parse_word(tokens) {
        Err(e) => Err(e),
        Ok((rest, word)) => if word < 255 {
            Ok((rest, word as u8))
        } else {
            Err(ParseError::ByteOverflow)
        },
    }
}

pub fn parse_byte<'a>(tokens: TokenList<'a>) -> (r: ParserResult<'a, u8>)
    ensures
        spec_parse_byte(tokens@) matches Ok(p) ==> r matches Ok(q) && q.0@ == p.0 && q.1 == p.1,
        spec_parse_byte(tokens@) matches Err(e) ==> r matches Err(e2) && e2 == e,
{
    match parse_word(tokens) {
        Err(e) => Err(e),
        Ok((rest, word)) => if word < 255 {
            Ok((rest, word as u8))
        } else {
            Err(ParseError::ByteOverflow)
        },
    }
}

pub fn parse_hash<'a>(tokens: TokenList<'a>) -> (r: ParserResult<'a, ()>)
    ensures
        spec_expect_token_type(tokens@, AssemblyTokensType::Hash, ParseError::HashNotFound)
            matches Ok(rest) ==> r matches Ok(q) && q.0@ == rest,
        spec_expect_token_type(tokens@, AssemblyTokensType::Hash, ParseError::HashNotFound)
            matches Err(e) ==> r matches Err(e2) && e2 == e,
{
    expect_token_type(tokens, AssemblyTokensType::Hash, ParseError::HashNotFound)
}

pub fn parse_x<'a>(tokens: TokenList<'a>) -> (r: ParserResult<'a, ()>)
    ensures
        spec_expect_token_type(tokens@, AssemblyTokensType::X, ParseError::XNotFound) matches Ok(
            rest,
        ) ==> r matches Ok(q) && q.0@ == rest,
        spec_expect_token_type(tokens@, AssemblyTokensType::X, ParseError::XNotFound) matches Err(
            e,
        ) ==> r matches Err(e2) && e2 == e,
{
    expect_token_type(tokens, AssemblyTokensType::X, ParseError::XNotFound)
}

pub fn parse_y<'a>(tokens: TokenList<'a>) -> (r: ParserResult<'a, ()>)
    ensures
        spec_expect_token_type(tokens@, AssemblyTokensType::Y, ParseError::YNotFound) matches Ok(
            rest,
        ) ==> r matches Ok(q) && q.0@ == rest,
        spec_expect_token_type(tokens@, AssemblyTokensType::Y, ParseError::YNotFound) matches Err(
            e,
        ) ==> r matches Err(e2) && e2 == e,
{
    expect_token_type(tokens, AssemblyTokensType::Y, ParseError::YNotFound)
}

pub fn parse_comma<'a>(tokens: TokenList<'a>) -> (r: ParserResult<'a, ()>)
    ensures
        spec_expect_token_type(tokens@, AssemblyTokensType::Comma, ParseError::CommaNotFound)
            matches Ok(rest) ==> r matches Ok(q) && q.0@ == rest,
        spec_expect_token_type(tokens@, AssemblyTokensType::Comma, ParseError::CommaNotFound)
            matches Err(e) ==> r matches Err(e2) && e2 == e,
{
    expect_token_type(tokens, AssemblyTokensType::Comma, ParseError::CommaNotFound)
}

pub fn parse_open_brackets<'a>(tokens: TokenList<'a>) -> (r: ParserResult<'a, ()>)
    ensures
        spec_expect_token_type(
            tokens@,
            AssemblyTokensType::OpenBrackets,
            ParseError::OpenBracketsNotFound,
        ) matches Ok(rest) ==> r matches Ok(q) && q.0@ == rest,
        spec_expect_token_type(
            tokens@,
            AssemblyTokensType::OpenBrackets,
            ParseError::OpenBracketsNotFound,
        ) matches Err(e) ==> r matches Err(e2) && e2 == e,
{
    expect_token_type(tokens, AssemblyTokensType::OpenBrackets, ParseError::OpenBracketsNotFound)
}

pub fn parse_close_brackets<'a>(tokens: TokenList<'a>) -> (r: ParserResult<'a, ()>)
    ensures
        spec_expect_token_type(
            tokens@,
            AssemblyTokensType::CloseBrackets,
            ParseError::CloseBracketsNotFound,
        ) matches Ok(rest) ==> r matches Ok(q) && q.0@ == rest,
        spec_expect_token_type(
            tokens@,
            AssemblyTokensType::CloseBrackets,
            ParseError::CloseBracketsNotFound,
        ) matches Err(e) ==> r matches Err(e2) && e2 == e,
{
    expect_token_type(tokens, AssemblyTokensType::CloseBrackets, ParseError::CloseBracketsNotFound)
}

/// A parenthesised word: open bracket, number, close bracket.
pub open spec fn spec_parse_absolute_indirect<'a>(
    tokens: Seq<Token<'a, AssemblyTokensType>>,
) -> Result<(Seq<Token<'a, AssemblyTokensType>>, u16), ParseError> {
    match spec_expect_token_type(
        tokens,
        AssemblyTokensType::OpenBrackets,
        ParseError::OpenBracketsNotFound,
    ) {
        Err(e) => Err(e),
        Ok(t1) => match spec_parse_word(t1) {
            Err(e) => Err(e),
            Ok((t2, num)) => match spec_expect_token_type(
                t2,
                AssemblyTokensType::CloseBrackets,
                ParseError::CloseBracketsNotFound,
            ) {
                Err(e) => Err(e),
                Ok(t3) => Ok((t3, num)),
            },
        },
    }
}

pub fn parse_absolute_indirect_addressing<'a>(tokens: TokenList<'a>) -> (r: ParserResult<'a, u16>)
    ensures
        spec_parse_absolute_indirect(tokens@) matches Ok(p) ==> r matches Ok(q) && q.0@ == p.0
            && q.1 == p.1,
        spec_parse_absolute_indirect(tokens@) matches Err(e) ==> r matches Err(e2) && e2 == e,
{
    let t1 = match parse_open_brackets(tokens) {
        Ok(p) => p.0,
        Err(e) => {
            return Err(e);
        },
    };
    let (t2, num) = match parse_word(t1) {
        Ok(p) => p,
        Err(e) => {
            return Err(e);
        },
    };
    let t3 = match parse_close_brackets(t2) {
        Ok(p) => p.0,
        Err(e) => {
            return Err(e);
        },
    };
    Ok((t3, num))
}

/// An immediate expression: a hash, then a number.
pub open spec fn spec_parse_immediate<'a>(tokens: Seq<Token<'a, AssemblyTokensType>>) -> Result<
    (Seq<Token<'a, AssemblyTokensType>>, u16),
    ParseError,
> {
    match spec_expect_token_type(tokens, AssemblyTokensType::Hash, ParseError::HashNotFound) {
        Err(e) => Err(e),
        Ok(t1) => match spec_parse_word(t1) {
            Err(e) => Err(e),
            Ok((t2, num)) => Ok((t2, num)),
        },
    }
}

pub fn parse_immediate_addressing<'a>(tokens: TokenList<'a>) -> (r: ParserResult<'a, u16>)
    ensures
        spec_parse_immediate(tokens@) matches Ok(p) ==> r matches Ok(q) && q.0@ == p.0 && q.1
            == p.1,
        spec_parse_immediate(tokens@) matches Err(e) ==> r matches Err(e2) && e2 == e,
{
    let t1 = match parse_hash(tokens) {
        Ok(p) => p.0,
        Err(e) => {
            return Err(e);
        },
    };
    match parse_word(t1) {
        Ok(p) => Ok(p),
        Err(e) => Err(e),
    }
}

/// A word followed by a comma and the named index register.
pub open spec fn spec_parse_word_indexed<'a>(
    tokens: Seq<Token<'a, AssemblyTokensType>>,
    index: AssemblyTokensType,
    index_error: ParseError,
) -> Result<(Seq<Token<'a, AssemblyTokensType>>, u16), ParseError> {
    match spec_parse_word(tokens) {
        Err(e) => Err(e),
        Ok((t1, num)) => match spec_expect_token_type(
            t1,
            AssemblyTokensType::Comma,
            ParseError::CommaNotFound,
        ) {
            Err(e) => Err(e),
            Ok(t2) => match spec_expect_token_type(t2, index, index_error) {
                Err(e) => Err(e),
                Ok(t3) => Ok((t3, num)),
            },
        },
    }
}

pub fn parse_absolute_with_x_addressing<'a>(tokens: TokenList<'a>) -> (r: ParserResult<'a, u16>)
    ensures
        spec_parse_word_indexed(tokens@, AssemblyTokensType::X, ParseError::XNotFound) matches Ok(
            p,
        ) ==> r matches Ok(q) && q.0@ == p.0 && q.1 == p.1,
        spec_parse_word_indexed(tokens@, AssemblyTokensType::X, ParseError::XNotFound) matches Err(
            e,
        ) ==> r matches Err(e2) && e2 == e,
{
    let (t1, num) = match parse_word(tokens) {
        Ok(p) => p,
        Err(e) => {
            return Err(e);
        },
    };
    let t2 = match parse_comma(t1) {
        Ok(p) => p.0,
        Err(e) => {
            return Err(e);
        },
    };
    let t3 = match parse_x(t2) {
        Ok(p) => p.0,
        Err(e) => {
            return Err(e);
        },
    };
    Ok((t3, num))
}

pub fn parse_absolute_with_y_addressing<'a>(tokens: TokenList<'a>) -> (r: ParserResult<'a, u16>)
    ensures
        spec_parse_word_indexed(tokens@, AssemblyTokensType::Y, ParseError::YNotFound) matches Ok(
            p,
        ) ==> r matches Ok(q) && q.0@ == p.0 && q.1 == p.1,
        spec_parse_word_indexed(tokens@, AssemblyTokensType::Y, ParseError::YNotFound) matches Err(
            e,
        ) ==> r matches Err(e2) && e2 == e,
{
    let (t1, num) = match parse_word(tokens) {
        Ok(p) => p,
        Err(e) => {
            return Err(e);
        },
    };
    let t2 = match parse_comma(t1) {
        Ok(p) => p.0,
        Err(e) => {
            return Err(e);
        },
    };
    let t3 = match parse_y(t2) {
        Ok(p) => p.0,
        Err(e) => {
            return Err(e);
        },
    };
    Ok((t3, num))
}

pub fn parse_zero_page<'a>(tokens: TokenList<'a>) -> (r: ParserResult<'a, u8>)
    ensures
        spec_parse_byte(tokens@) matches Ok(p) ==> r matches Ok(q) && q.0@ == p.0 && q.1 == p.1,
        spec_parse_byte(tokens@) matches Err(e) ==> r matches Err(e2) && e2 == e,
{
    parse_byte(tokens)
}

/// A byte followed by a comma and the named index register.
pub open spec fn spec_parse_byte_indexed<'a>(
    tokens: Seq<Token<'a, AssemblyTokensType>>,
    index: AssemblyTokensType,
    index_error: ParseError,
) -> Result<(Seq<Token<'a, AssemblyTokensType>>, u8), ParseError> {
    match spec_parse_byte(tokens) {
        Err(e) => Err(e),
        Ok((t1, num)) => match spec_expect_token_type(
            t1,
            AssemblyTokensType::Comma,
            ParseError::CommaNotFound,
        ) {
            Err(e) => Err(e),
            Ok(t2) => match spec_expect_token_type(t2, index, index_error) {
                Err(e) => Err(e),
                Ok(t3) => Ok((t3, num)),
            },
        },
    }
}

pub fn parse_zero_page_indexed_with_x<'a>(tokens: TokenList<'a>) -> (r: ParserResult<'a, u8>)
    ensures
        spec_parse_byte_indexed(tokens@, AssemblyTokensType::X, ParseError::XNotFound) matches Ok(
            p,
        ) ==> r matches Ok(q) && q.0@ == p.0 && q.1 == p.1,
        spec_parse_byte_indexed(tokens@, AssemblyTokensType::X, ParseError::XNotFound) matches Err(
            e,
        ) ==> r matches Err(e2) && e2 == e,
{
    let (t1, num) = match parse_byte(tokens) {
        Ok(p) => p,
        Err(e) => {
            return Err(e);
        },
    };
    let t2 = match parse_comma(t1) {
        Ok(p) => p.0,
        Err(e) => {
            return Err(e);
        },
    };
    let t3 = match parse_x(t2) {
        Ok(p) => p.0,
        Err(e) => {
            return Err(e);
        },
    };
    Ok((t3, num))
}

pub fn parse_zero_page_indexed_with_y<'a>(tokens: TokenList<'a>) -> (r: ParserResult<'a, u8>)
    ensures
        spec_parse_byte_indexed(tokens@, AssemblyTokensType::Y, ParseError::YNotFound) matches Ok(
            p,
        ) ==> r matches Ok(q) && q.0@ == p.0 && q.1 == p.1,
        spec_parse_byte_indexed(tokens@, AssemblyTokensType::Y, ParseError::YNotFound) matches Err(
            e,
        ) ==> r matches Err(e2) && e2 == e,
{
    let (t1, num) = match parse_byte(tokens) {
        Ok(p) => p,
        Err(e) => {
            return Err(e);
        },
    };
    let t2 = match parse_comma(t1) {
        Ok(p) => p.0,
        Err(e) => {
            return Err(e);
        },
    };
    let t3 = match parse_y(t2) {
        Ok(p) => p.0,
        Err(e) => {
            return Err(e);
        },
    };
    Ok((t3, num))
}

/// A parenthesised byte followed by a comma and Y: the written form the
/// indirect zero-page modes share.
pub open spec fn spec_parse_byte_indirect_y<'a>(
    tokens: Seq<Token<'a, AssemblyTokensType>>,
) -> Result<(Seq<Token<'a, AssemblyTokensType>>, u8), ParseError> {
    match spec_expect_token_type(
        tokens,
        AssemblyTokensType::OpenBrackets,
        ParseError::OpenBracketsNotFound,
    ) {
        Err(e) => Err(e),
        Ok(t1) => match spec_parse_byte(t1) {
            Err(e) => Err(e),
            Ok((t2, num)) => match spec_expect_token_type(
                t2,
                AssemblyTokensType::CloseBrackets,
                ParseError::CloseBracketsNotFound,
            ) {
                Err(e) => Err(e),
                Ok(t3) => match spec_expect_token_type(
                    t3,
                    AssemblyTokensType::Comma,
                    ParseError::CommaNotFound,
                ) {
                    Err(e) => Err(e),
                    Ok(t4) => match spec_expect_token_type(
                        t4,
                        AssemblyTokensType::Y,
                        ParseError::YNotFound,
                    ) {
                        Err(e) => Err(e),
                        Ok(t5) => Ok((t5, num)),
                    },
                },
            },
        },
    }
}

fn parse_byte_indirect_y<'a>(tokens: TokenList<'a>) -> (r: ParserResult<'a, u8>)
    ensures
        spec_parse_byte_indirect_y(tokens@) matches Ok(p) ==> r matches Ok(q) && q.0@ == p.0
            && q.1 == p.1,
        spec_parse_byte_indirect_y(tokens@) matches Err(e) ==> r matches Err(e2) && e2 == e,
{
    let t1 = match parse_open_brackets(tokens) {
        Ok(p) => p.0,
        Err(e) => {
            return Err(e);
        },
    };
    let (t2, num) = match parse_byte(t1) {
        Ok(p) => p,
        Err(e) => {
            return Err(e);
        },
    };
    let t3 = match parse_close_brackets(t2) {
        Ok(p) => p.0,
        Err(e) => {
            return Err(e);
        },
    };
    let t4 = match parse_comma(t3) {
        Ok(p) => p.0,
        Err(e) => {
            return Err(e);
        },
    };
    let t5 = match parse_y(t4) {
        Ok(p) => p.0,
        Err(e) => {
            return Err(e);
        },
    };
    Ok((t5, num))
}

pub fn parse_zero_page_indexed_indirect<'a>(tokens: TokenList<'a>) -> (r: ParserResult<'a, u8>)
    ensures
        spec_parse_byte_indirect_y(tokens@) matches Ok(p) ==> r matches Ok(q) && q.0@ == p.0
            && q.1 == p.1,
        spec_parse_byte_indirect_y(tokens@) matches Err(e) ==> r matches Err(e2) && e2 == e,
{
    parse_byte_indirect_y(tokens)
}

pub fn parse_zero_page_indirect_indexed_with_y<'a>(tokens: TokenList<'a>) -> (r: ParserResult<'a, u8>)
    ensures
        spec_parse_byte_indirect_y(tokens@) matches Ok(p) ==> r matches Ok(q) && q.0@ == p.0
            && q.1 == p.1,
        spec_parse_byte_indirect_y(tokens@) matches Err(e) ==> r matches Err(e2) && e2 == e,
{
    parse_byte_indirect_y(tokens)
}

/// An addressing expression, tried form by form: a bare number, an
/// immediate, a zero-page byte, then the indexed and indirect zero-page
/// forms.
pub open spec fn spec_parse_expression<'a>(tokens: Seq<Token<'a, AssemblyTokensType>>) -> Result<
    (Seq<Token<'a, AssemblyTokensType>>, Expression),
    ParseError,
> {
    match spec_parse_word(tokens) {
        Ok((t, v)) => Ok((t, Expression::Number(v))),
        Err(_) => match spec_parse_immediate(tokens) {
            Ok((t, v)) => Ok((t, Expression::Immediate(v))),
            Err(_) => match spec_parse_byte(tokens) {
                Ok((t, v)) => Ok((t, Expression::ZeroPage(v))),
                Err(_) => match spec_parse_byte_indirect_y(tokens) {
                    Ok((t, v)) => Ok((t, Expression::ZeroPageIndexedIndirect(v))),
                    Err(_) => match spec_parse_byte_indexed(
                        tokens,
                        AssemblyTokensType::X,
                        ParseError::XNotFound,
                    ) {
                        Ok((t, v)) => Ok((t, Expression::ZeroPageIndexedWithX(v))),
                        Err(_) => match spec_parse_byte_indexed(
                            tokens,
                            AssemblyTokensType::Y,
                            ParseError::YNotFound,
                        ) {
                            Ok((t, v)) => Ok((t, Expression::ZeroPageIndexedWithY(v))),
                            Err(_) => match spec_parse_byte_indirect_y(tokens) {
                                Ok((t, v)) => Ok((t, Expression::ZeroPageIndirectIndexedWithY(v))),
                                Err(_) => Err(ParseError::ExpressionNotFound),
                            },
                        },
                    },
                },
            },
        },
    }
}

/// Reads an addressing expression off the front of the stream.
pub fn parse_expression<'a>(tokens: TokenList<'a>) -> (r: ParserResult<'a, Expression>)
    ensures
        spec_parse_expression(tokens@) matches Ok(p) ==> r matches Ok(q) && q.0@ == p.0 && q.1
            == p.1,
        spec_parse_expression(tokens@) matches Err(e) ==> r matches Err(e2) && e2 == e,
{
    match parse_word(tokens) {
        Ok((t, v)) => {
            return Ok((t, Expression::Number(v)));
        },
        Err(_) => {},
    }
    match parse_immediate_addressing(tokens) {
        Ok((t, v)) => {
            return Ok((t, Expression::Immediate(v)));
        },
        Err(_) => {},
    }
    match parse_byte(tokens) {
        Ok((t, v)) => {
            return Ok((t, Expression::ZeroPage(v)));
        },
        Err(_) => {},
    }
    match parse_zero_page_indexed_indirect(tokens) {
        Ok((t, v)) => {
            return Ok((t, Expression::ZeroPageIndexedIndirect(v)));
        },
        Err(_) => {},
    }
    match parse_zero_page_indexed_with_x(tokens) {
        Ok((t, v)) => {
            return Ok((t, Expression::ZeroPageIndexedWithX(v)));
        },
        Err(_) => {},
    }
    match parse_zero_page_indexed_with_y(tokens) {
        Ok((t, v)) => {
            return Ok((t, Expression::ZeroPageIndexedWithY(v)));
        },
        Err(_) => {},
    }
    match parse_zero_page_indirect_indexed_with_y(tokens) {
        Ok((t, v)) => {
            return Ok((t, Expression::ZeroPageIndirectIndexedWithY(v)));
        },
        Err(_) => {},
    }
    Err(ParseError::ExpressionNotFound)
}

/// Whether a parsed statement carries the same content as its model: the
/// same label text, operation and expression.
pub open spec fn statement_matches<'a>(a: Statement<'a>, b: Statement<'a>) -> bool {
    &&& match (a.label, b.label) {
        (Option::None, Option::None) => true,
        (Option::Some(x), Option::Some(y)) => x@ == y@,
        _ => false,
    }
    &&& a.operation == b.operation
    &&& a.expression == b.expression
}

/// One statement: an optional label, then an operation. The addressing
/// expression is not consumed from the stream; it is left as the bare
/// number zero.
pub open spec fn spec_parse_statement<'a>(tokens: Seq<Token<'a, AssemblyTokensType>>) -> Result<
    (Seq<Token<'a, AssemblyTokensType>>, Statement<'a>),
    ParseError,
> {
    let after_label = match spec_parse_label(tokens) {
        Ok(p) => (p.0, Option::Some(p.1)),
        Err(_) => (tokens, Option::None),
    };
    match spec_parse_operation(after_label.0) {
        Err(e) => Err(e),
        Ok((rest, operation)) => Ok(
            (
                rest,
                Statement { label: after_label.1, operation, expression: Expression::Number(0) },
            ),
        ),
    }
}

proof fn lemma_parse_statement_consumes<'a>(tokens: Seq<Token<'a, AssemblyTokensType>>)
    ensures
        spec_parse_statement(tokens) matches Ok(p) ==> p.0.len() < tokens.len(),
{
}

pub fn parse_statement<'a>(tokens: TokenList<'a>) -> (r: ParserResult<'a, Statement<'a>>)
    ensures
        spec_parse_statement(tokens@) matches Ok(p) ==> r matches Ok(q) && q.0@ == p.0
            && statement_matches(q.1, p.1),
        spec_parse_statement(tokens@) matches Err(e) ==> r matches Err(e2) && e2 == e,
{
    let mut current_tokens = tokens;
    let mut label: Option<&'a str> = None;
    match parse_label(tokens) {
        Ok((rest, found)) => {
            label = Some(found);
            current_tokens = rest;
        },
        Err(_) => {},
    }
    match parse_operation(current_tokens) {
        Err(e) => Err(e),
        Ok((rest, operation)) => Ok(
            (rest, Statement { label, operation, expression: Expression::Number(0) }),
        ),
    }
}

/// A whole program: statements until the stream is exhausted.
pub open spec fn spec_parse<'a>(tokens: Seq<Token<'a, AssemblyTokensType>>) -> Result<
    Seq<Statement<'a>>,
    ParseError,
>
    decreases tokens.len(),
{
    if tokens.len() == 0 {
        Ok(Seq::empty())
    } else {
        match spec_parse_statement(tokens) {
            Err(e) => Err(e),
            Ok((rest, statement)) => if rest.len() < tokens.len() {
                match spec_parse(rest) {
                    Err(e) => Err(e),
                    Ok(tail) => Ok(seq![statement] + tail),
                }
            } else {
                Err(ParseError::UnexpectedEndOfProgram)
            },
        }
    }
}

/// Parses a whole token stream into a program, stopping at the first
/// failure.
pub fn parse<'a>(tokens: TokenList<'a>) -> (r: Result<Program<'a>, ParseError>)
    ensures
        spec_parse(tokens@) matches Ok(models) ==> r matches Ok(program)
            && program.statements@.len() == models.len() && (forall|i: int|
            0 <= i < models.len() ==> statement_matches(
                #[trigger] program.statements@[i],
                models[i],
            )),
        spec_parse(tokens@) matches Err(e) ==> r matches Err(e2) && e2 == e,
{
    let mut remaining: TokenList<'a> = tokens;
    let mut statements: Vec<Statement<'a>> = Vec::new();
    let ghost mut done: Seq<Statement<'a>> = Seq::empty();
    while remaining.len() > 0
        invariant
            statements@.len() == done.len(),
            forall|i: int|
                0 <= i < done.len() ==> statement_matches(#[trigger] statements@[i], done[i]),
            spec_parse(tokens@) == (match spec_parse(remaining@) {
                Ok(tail) => Ok::<Seq<Statement<'a>>, ParseError>(done + tail),
                Err(e) => Err(e),
            }),
        decreases remaining@.len(),
    {
        let ghost before = remaining@;
        match parse_statement(remaining) {
            Err(e) => {
                return Err(e);
            },
            Ok((rest, statement)) => {
                proof {
                    lemma_parse_statement_consumes(before);
                    let p = spec_parse_statement(before)->Ok_0;
                    if let Ok(tail) = spec_parse(p.0) {
                        assert(done + (seq![p.1] + tail) =~= (done + seq![p.1]) + tail);
                    }
                    done = done + seq![p.1];
                }
                statements.push(statement);
                remaining = rest;
            },
        }
    }
    proof {
        assert(done + Seq::<Statement<'a>>::empty() =~= done);
    }
    Ok(Program { statements })
}

} // verus!
