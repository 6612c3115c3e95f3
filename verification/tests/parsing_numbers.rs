use nestegg::parser::{parse_decimal_number, AssemblyTokensType};
use nestegg::token::Token;

use std::fmt::Debug;

use nestegg::parser::TokenList;

/// Asserts that `parser(tokens)` returns `expected_value` and consumes
/// `expected_consumed_tokens` values from `tokens`
fn assert_parsing_tokens_with_func_gives_and_consumes<'a, T: PartialEq + Debug, E: Debug>(
    tokens: TokenList<'a>,
    parser: fn(TokenList<'a>) -> Result<(TokenList<'a>, T), E>,
    expected_value: T,
    expected_consumed_tokens: usize,
) {
    let (returned_tokens, returned_val) = parser(tokens).unwrap();
    assert_eq!(returned_val, expected_value);
    assert_eq!(returned_tokens.len(), tokens.len() - expected_consumed_tokens)
}

#[test]
fn mod_it_works_correctly_for_numbers() {
    let mock_tokens = vec![Token {
        token_type: AssemblyTokensType::Number,
        text: "5312",
    }];

    assert_parsing_tokens_with_func_gives_and_consumes(
        &mock_tokens,
        parse_decimal_number,
        5312,
        1,
    );
}
