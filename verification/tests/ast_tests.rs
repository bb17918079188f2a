use monkey_ast::ast::Expression;
use monkey_ast::ast::ExpressionStatement;
use monkey_ast::ast::Identifier;
use monkey_ast::ast::LetStatement;
use monkey_ast::ast::Literal;
use monkey_ast::ast::Node;
use monkey_ast::ast::Program;
use monkey_ast::ast::ReturnStatement;
use monkey_ast::ast::Statement;
use monkey_ast::token::Token;
use monkey_ast::token::TokenKind;

fn let_statement(keyword: &str, name: &str, value: Expression) -> LetStatement {
    LetStatement {
        token: Token {
            kind: TokenKind::Let,
            literal: keyword.to_string(),
        },
        name: Identifier {
            name: name.to_string(),
        },
        value,
    }
}

fn return_statement(value: Expression) -> ReturnStatement {
    ReturnStatement {
        token: Token {
            kind: TokenKind::Return,
            literal: "return".to_string(),
        },
        return_value: value,
    }
}

fn identifier(name: &str) -> Expression {
    Expression::Identifier(Identifier {
        name: name.to_string(),
    })
}

fn literal(value: &str) -> Expression {
    Expression::Literal(Literal {
        value: value.to_string(),
    })
}

#[test]
fn test_to_string_1() {
    let program = Program {
        statements: vec![
            Statement::Let(LetStatement {
                token: Token {
                    kind: TokenKind::Let,
                    literal: "let".to_string(),
                },
                name: Identifier {
                    name: "myVar".to_string(),
                },
                value: Expression::Identifier(Identifier {
                    name: "anotherVar".to_string(),
                }),
            }),
            Statement::Return(ReturnStatement {
                token: Token {
                    kind: TokenKind::Return,
                    literal: "return".to_string(),
                },
                return_value: Expression::Literal(Literal {
                    value: "10".to_string(),
                }),
            }),
        ],
    };

    assert_eq!(program.to_string(), "let myVar = anotherVar;return 10;");
}

#[test]
fn rendering_same_program_twice_is_identical() {
    let program = Program {
        statements: vec![
            Statement::Let(let_statement("let", "x", literal("5"))),
            Statement::Return(return_statement(identifier("x"))),
        ],
    };

    assert_eq!(program.to_string(), program.to_string());
}

#[test]
fn let_and_return_renderings_end_with_semicolon() {
    let ls = let_statement("let", "x", literal("5"));
    let rs = return_statement(identifier("y"));

    assert!(ls.to_string().ends_with(';'));
    assert!(rs.to_string().ends_with(';'));
}

#[test]
fn expression_statement_adds_no_terminator() {
    let es = ExpressionStatement {
        token: Token {
            kind: TokenKind::Ident,
            literal: "x".to_string(),
        },
        expression: identifier("x"),
    };

    assert_eq!(es.to_string(), "x");
    assert!(!es.to_string().ends_with(';'));
}

#[test]
fn lone_expression_statement_program_renders_bare() {
    let program = Program {
        statements: vec![Statement::Expression(ExpressionStatement {
            token: Token {
                kind: TokenKind::Ident,
                literal: "x".to_string(),
            },
            expression: identifier("x"),
        })],
    };

    assert_eq!(program.to_string(), "x");
}

#[test]
fn program_rendering_concatenates_statements_in_order() {
    let s1 = Statement::Let(let_statement("let", "a", literal("1")));
    let s2 = Statement::Expression(ExpressionStatement {
        token: Token {
            kind: TokenKind::Ident,
            literal: "b".to_string(),
        },
        expression: identifier("b"),
    });
    let s3 = Statement::Return(return_statement(literal("2")));

    let parts = [
        "let a = 1;".to_string(),
        "b".to_string(),
        "return 2;".to_string(),
    ];
    let program = Program {
        statements: vec![s1, s2, s3],
    };

    assert_eq!(program.to_string(), parts.concat());
    assert_eq!(program.to_string(), "let a = 1;breturn 2;");
}

#[test]
fn program_token_literal_delegates_to_first_statement() {
    let program = Program {
        statements: vec![
            Statement::Return(return_statement(literal("1"))),
            Statement::Let(let_statement("let", "x", literal("2"))),
        ],
    };

    let first = return_statement(literal("1"));
    assert_eq!(program.token_literal(), first.token_literal());
    assert_eq!(program.token_literal(), "return");
}

#[test]
fn let_token_literal_ignores_name_and_value() {
    let a = let_statement("let", "x", literal("1"));
    let b = let_statement("let", "someLongName", identifier("other"));

    assert_eq!(a.token_literal(), "let");
    assert_eq!(b.token_literal(), "let");
}

#[test]
fn empty_program_token_literal_is_empty_string() {
    let program = Program { statements: vec![] };

    assert_eq!(program.token_literal(), "");
}

#[test]
fn return_rendering_uses_fixed_keyword() {
    let rs = ReturnStatement {
        token: Token {
            kind: TokenKind::Return,
            literal: "RETURN".to_string(),
        },
        return_value: literal("10"),
    };

    assert_eq!(rs.to_string(), "return 10;");
    assert_eq!(rs.token_literal(), "RETURN");
}

#[test]
fn let_rendering_uses_stored_keyword_text() {
    let ls = let_statement("Let", "x", literal("1"));

    assert_eq!(ls.to_string(), "Let x = 1;");
}

#[test]
fn expression_to_string_renders_stored_text_verbatim() {
    assert_eq!(identifier("foobar").to_string(), "foobar");
    assert_eq!(literal("10").to_string(), "10");
}

#[test]
fn identifier_and_literal_have_empty_token_literal() {
    let ident = Identifier {
        name: "x".to_string(),
    };
    let lit = Literal {
        value: "10".to_string(),
    };

    assert_eq!(ident.token_literal(), "");
    assert_eq!(lit.token_literal(), "");
}

#[test]
fn empty_program_renders_to_empty_string() {
    let program = Program { statements: vec![] };

    assert_eq!(program.to_string(), "");
}
