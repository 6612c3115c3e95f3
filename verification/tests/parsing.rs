use std::fmt::Debug;

use nestegg::instruction::operation::Operation;
use nestegg::parser::{
    parse, parse_decimal_number, parse_expression, parse_hex_number, parse_label,
    AssemblyTokensType, Expression, ParseError, TokenList,
};
use nestegg::token::Token;

/// Asserts that `parser(tokens)` returns `expected_value` and consumes
/// `expected_consumed_tokens` values from `tokens`
fn assert_parsing_tokens_with_func_gives_and_consumes<'a, T: PartialEq + Debug, E: Debug>(
    tokens: TokenList<'a>,
    parser: fn(TokenList<'a>) -> Result<(TokenList<'a>, T), E>,
    expected_value: T,
    expected_consumed_tokens: usize,
) {
    let (returned_tokens, returned_val) = parser(tokens).unwrap();
    assert_eq!(returned_val, expected_value);
    assert_eq!(returned_tokens.len(), tokens.len() - expected_consumed_tokens)
}

#[test]
fn it_works_correctly() {
    let mock_tokens = vec![
        Token {
            token_type: AssemblyTokensType::Text,
            text: "GotoLabel",
        },
        Token {
            token_type: AssemblyTokensType::Colon,
            text: ":",
        },
    ];

    assert_parsing_tokens_with_func_gives_and_consumes(&mock_tokens, parse_label, "GotoLabel", 2);
}

#[test]
fn it_works_correctly_for_decimal_numbers() {
    let mock_tokens = vec![Token {
        token_type: AssemblyTokensType::Number,
        text: "5312",
    }];

    assert_parsing_tokens_with_func_gives_and_consumes(
        &mock_tokens,
        parse_expression,
        Expression::Number(5312),
        1,
    );
}

#[test]
fn it_parses_hex_numbers() {
    let mock_tokens = vec![
        Token {
            token_type: AssemblyTokensType::Hex,
            text: "$",
        },
        Token {
            token_type: AssemblyTokensType::Number,
            text: "1fF",
        },
    ];

    assert_parsing_tokens_with_func_gives_and_consumes(&mock_tokens, parse_hex_number, 0x1ff, 2);
}

#[test]
fn it_parses_immediate_expressions() {
    let mock_tokens = vec![
        Token {
            token_type: AssemblyTokensType::Hash,
            text: "#",
        },
        Token {
            token_type: AssemblyTokensType::Number,
            text: "200",
        },
    ];

    assert_parsing_tokens_with_func_gives_and_consumes(
        &mock_tokens,
        parse_expression,
        Expression::Immediate(200),
        2,
    );
}

#[test]
fn it_parses_labelled_statements() {
    let mock_tokens = vec![
        Token {
            token_type: AssemblyTokensType::Text,
            text: "loop",
        },
        Token {
            token_type: AssemblyTokensType::Colon,
            text: ":",
        },
        Token {
            token_type: AssemblyTokensType::Text,
            text: "nop",
        },
        Token {
            token_type: AssemblyTokensType::Text,
            text: "TYA",
        },
    ];

    let program = parse(&mock_tokens).unwrap();
    assert_eq!(program.statements.len(), 2);
    assert_eq!(program.statements[0].label, Some("loop"));
    assert_eq!(program.statements[0].operation, Operation::NOP);
    assert_eq!(program.statements[1].label, None);
    assert_eq!(program.statements[1].operation, Operation::TYA);
}

#[test]
fn it_rejects_unknown_operations() {
    let mock_tokens = vec![Token {
        token_type: AssemblyTokensType::Text,
        text: "xyz",
    }];

    assert_eq!(parse(&mock_tokens).unwrap_err(), ParseError::UnknownOperation);
}

#[test]
fn it_rejects_oversized_decimal_numbers() {
    let mock_tokens = vec![Token {
        token_type: AssemblyTokensType::Number,
        text: "65536",
    }];

    assert_eq!(
        parse_decimal_number(&mock_tokens).unwrap_err(),
        ParseError::ExpectedDecimalNumber
    );
}

#[test]
fn it_rejects_empty_streams_where_a_number_is_required() {
    let empty: Vec<Token<AssemblyTokensType>> = vec![];

    assert_eq!(
        parse_decimal_number(&empty).unwrap_err(),
        ParseError::UnexpectedEndOfProgram
    );
}

#[test]
fn it_rejects_expressions_of_no_known_form() {
    let mock_tokens = vec![Token {
        token_type: AssemblyTokensType::Comma,
        text: ",",
    }];

    assert_eq!(
        parse_expression(&mock_tokens).unwrap_err(),
        ParseError::ExpressionNotFound
    );
}

#[test]
fn it_parses_indirect_indexed_expressions() {
    let mock_tokens = vec![
        Token {
            token_type: AssemblyTokensType::OpenBrackets,
            text: "(",
        },
        Token {
            token_type: AssemblyTokensType::Number,
            text: "32",
        },
        Token {
            token_type: AssemblyTokensType::CloseBrackets,
            text: ")",
        },
        Token {
            token_type: AssemblyTokensType::Comma,
            text: ",",
        },
        Token {
            token_type: AssemblyTokensType::Y,
            text: "y",
        },
    ];

    assert_parsing_tokens_with_func_gives_and_consumes(
        &mock_tokens,
        parse_expression,
        Expression::ZeroPageIndexedIndirect(32),
        5,
    );
}
