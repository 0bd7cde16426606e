//! The front half of the compile service: the lexer and the parser of the
//! Fusabi frontend, each behind one trusted call, and text decoding from
//! std.
//!
//! Both stages are pure functions of what they are handed, so each result
//! has a name that contracts elsewhere in the crate can speak of. The
//! compiler itself is not called from here: on some programs it does not
//! return, so the caller makes that call and hands its result back.

use fusabi_frontend::{CompileError, LexError, Lexer, ParseError, Parser, Program, TokenWithPos};
use std::string::FromUtf8Error;
use vstd::prelude::*;
use vstd::utf8::{decode_utf8, valid_utf8};

verus! {

/// A token together with its position in the source text.
#[verifier::external_type_specification]
#[verifier::external_body]
pub struct ExTokenWithPos(TokenWithPos);

/// Why lexical analysis stopped.
#[verifier::external_type_specification]
#[verifier::external_body]
pub struct ExLexError(LexError);

/// A parsed program.
#[verifier::external_type_specification]
#[verifier::external_body]
pub struct ExProgram(Program);

/// Why parsing stopped.
#[verifier::external_type_specification]
#[verifier::external_body]
pub struct ExParseError(ParseError);

/// Why compilation stopped.
#[verifier::external_type_specification]
#[verifier::external_body]
pub struct ExCompileError(CompileError);

/// Why a byte buffer is not UTF-8 text.
#[verifier::external_type_specification]
#[verifier::external_body]
pub struct ExFromUtf8Error(FromUtf8Error);

/// The token stream of `source`, or the lexer's error.
pub uninterp spec fn lexed(source: Seq<char>) -> Result<Seq<TokenWithPos>, LexError>;

/// The program that `tokens` parse to, or the parser's error.
pub uninterp spec fn parsed(tokens: Seq<TokenWithPos>) -> Result<Program, ParseError>;

/// The debug rendering of a lexer error.
pub uninterp spec fn lex_error_text(error: LexError) -> Seq<char>;

/// The debug rendering of a parser error.
pub uninterp spec fn parse_error_text(error: ParseError) -> Seq<char>;

/// The debug rendering of a compiler error.
pub uninterp spec fn compile_error_text(error: CompileError) -> Seq<char>;

/// The error that decoding `bytes` as text reports when they are not UTF-8.
pub uninterp spec fn utf8_fault(bytes: Seq<u8>) -> FromUtf8Error;

/// A lexing result with its tokens taken as a sequence.
pub open spec fn lexing_of(r: Result<Vec<TokenWithPos>, LexError>) -> Result<
    Seq<TokenWithPos>,
    LexError,
> {
    match r {
        Ok(tokens) => Ok(tokens@),
        Err(error) => Err(error),
    }
}

/// Runs `Lexer::new(source).tokenize()`. Trusted: the outcome is a function
/// of the source text alone.
#[verifier::external_body]
pub(crate) fn tokenize(source: &str) -> (r: Result<Vec<TokenWithPos>, LexError>)
    ensures
        lexing_of(r) == lexed(source@),
{
    Lexer::new(source).tokenize()
}

/// Runs `Parser::new(tokens).parse_program()`. Trusted: the outcome is a
/// function of the token stream alone. The parser goes as deep as the
/// tokens nest.
#[verifier::external_body]
pub(crate) fn parse_program(tokens: Vec<TokenWithPos>) -> (r: Result<Program, ParseError>)
    ensures
        r == parsed(tokens@),
{
    Parser::new(tokens).parse_program()
}

/// Renders a lexer error through its `Debug` impl.
#[verifier::external_body]
pub(crate) fn describe_lex_error(error: &LexError) -> (text: String)
    ensures
        text@ == lex_error_text(*error),
{
    format!("{:?}", error)
}

/// Renders a parser error through its `Debug` impl.
#[verifier::external_body]
pub(crate) fn describe_parse_error(error: &ParseError) -> (text: String)
    ensures
        text@ == parse_error_text(*error),
{
    format!("{:?}", error)
}

/// Renders a compiler error through its `Debug` impl.
#[verifier::external_body]
pub(crate) fn describe_compile_error(error: &CompileError) -> (text: String)
    ensures
        text@ == compile_error_text(*error),
{
    format!("{:?}", error)
}

/// `String::from_utf8` succeeds exactly on well-formed UTF-8 and then
/// yields the text those bytes encode; its error is a function of the bytes.
pub assume_specification[ String::from_utf8 ](bytes: Vec<u8>) -> (r: Result<String, FromUtf8Error>)
    ensures
        r is Ok <==> valid_utf8(bytes@),
        r matches Ok(text) ==> text@ == decode_utf8(bytes@),
        r matches Err(error) ==> error == utf8_fault(bytes@),
;

} // verus!
