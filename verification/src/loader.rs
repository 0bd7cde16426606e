//! The asset loader: from raw bytes and a file extension to a script asset.
//!
//! Precompiled bytecode passes through untouched; anything else is decoded
//! as text and taken through the compile service stage by stage.
//!
//! A load is made in steps. [`FusabiLoader::begin`] does everything up to
//! the parsed program and says what is left to do. Where that is a
//! compilation, the caller runs the compiler and hands what it returned to
//! [`compiled_chunk`]; it then serializes the chunk and hands what the
//! serializer returned to [`FusabiLoader::finish`], which makes the asset.
//! Neither the compiler nor the serializer returns on every input, so
//! neither is called from here.

use crate::asset::{FusabiScript, ScriptModel};
use crate::codec::{has_container_header, starts_with_header};
use crate::frontend::{
    compile_error_text, describe_compile_error, describe_lex_error, describe_parse_error,
    lex_error_text, lexed, parse_error_text, parse_program, parsed, tokenize, utf8_fault,
};
use fusabi_frontend::{CompileError, Program};
use fusabi_vm::Chunk;
use std::string::FromUtf8Error;
use vstd::prelude::*;
use vstd::utf8::{decode_utf8, valid_utf8};

verus! {

/// Loads `.fsx` source and `.fzb` bytecode files as script assets.
#[derive(Debug, Clone, Copy, Default)]
pub struct FusabiLoader;

/// Why a script could not be loaded. Each variant carries the message, or
/// the error itself, of the stage that failed.
#[derive(Debug, PartialEq, Eq)]
pub enum FusabiLoaderError {
    /// The raw bytes could not be read.
    Io(String),
    /// Lexical analysis rejected the source.
    Lexer(String),
    /// The token stream does not parse.
    Parser(String),
    /// The program does not compile.
    Compiler(String),
    /// The compiled chunk could not be serialized.
    Bytecode(String),
    /// The bytes of a source file are not UTF-8 text.
    Utf8(FromUtf8Error),
}

/// A load failure with its message as text.
pub enum LoadFault {
    Io(Seq<char>),
    Lexer(Seq<char>),
    Parser(Seq<char>),
    Compiler(Seq<char>),
    Bytecode(Seq<char>),
    Utf8(FromUtf8Error),
}

impl View for FusabiLoaderError {
    type V = LoadFault;

    open spec fn view(&self) -> LoadFault {
        match self {
            FusabiLoaderError::Io(message) => LoadFault::Io(message@),
            FusabiLoaderError::Lexer(message) => LoadFault::Lexer(message@),
            FusabiLoaderError::Parser(message) => LoadFault::Parser(message@),
            FusabiLoaderError::Compiler(message) => LoadFault::Compiler(message@),
            FusabiLoaderError::Bytecode(message) => LoadFault::Bytecode(message@),
            FusabiLoaderError::Utf8(error) => LoadFault::Utf8(*error),
        }
    }
}

/// The name an asset gets: the file stem, or `unknown` where there is none.
pub open spec fn script_name(stem: Option<Seq<char>>) -> Seq<char> {
    match stem {
        Some(name) => name,
        None => "unknown"@,
    }
}

/// Whether the extension marks precompiled bytecode. Every other
/// extension, and none at all, is treated as source text.
pub open spec fn is_precompiled(extension: Option<Seq<char>>) -> bool {
    extension == Some("fzb"@)
}

/// What parsing `source` comes to: the program, or the failure of the
/// first stage that refused. Lexing comes before parsing, and the parser
/// does not run on text that does not lex.
pub open spec fn parse_outcome(source: Seq<char>) -> Result<Program, LoadFault> {
    match lexed(source) {
        Err(error) => Err(LoadFault::Lexer(lex_error_text(error))),
        Ok(tokens) => match parsed(tokens) {
            Err(error) => Err(LoadFault::Parser(parse_error_text(error))),
            Ok(program) => Ok(program),
        },
    }
}

/// What the bytes of a source file come to: a text decoding failure, or
/// the outcome of parsing the text they encode.
pub open spec fn source_outcome(bytes: Seq<u8>) -> Result<Program, LoadFault> {
    if valid_utf8(bytes) {
        parse_outcome(decode_utf8(bytes))
    } else {
        Err(LoadFault::Utf8(utf8_fault(bytes)))
    }
}

/// What the compiler's result comes to: its chunk, or a compilation
/// failure with the rendering of its error.
pub open spec fn compilation_outcome(compiled: Result<Chunk, CompileError>) -> Result<
    Chunk,
    LoadFault,
> {
    match compiled {
        Ok(chunk) => Ok(chunk),
        Err(error) => Err(LoadFault::Compiler(compile_error_text(error))),
    }
}

/// A fallible result with its error taken by its view.
pub open spec fn fault_of<T>(r: Result<T, FusabiLoaderError>) -> Result<T, LoadFault> {
    match r {
        Ok(value) => Ok(value),
        Err(error) => Err(error@),
    }
}

/// Where a load stands after its first step.
#[derive(Debug)]
pub enum LoadStep {
    /// The file held precompiled bytecode: this is its asset.
    Loaded(FusabiScript),
    /// The file is refused, for this reason.
    Refused(FusabiLoaderError),
    /// The file held source text that parses: the asset's name and the
    /// program that is left to compile.
    Compile(String, Program),
}

/// A load step with its asset, failure and name taken by their views.
pub enum Loading {
    Loaded(ScriptModel),
    Refused(LoadFault),
    Compile(Seq<char>, Program),
}

impl View for LoadStep {
    type V = Loading;

    open spec fn view(&self) -> Loading {
        match self {
            LoadStep::Loaded(script) => Loading::Loaded(script@),
            LoadStep::Refused(error) => Loading::Refused(error@),
            LoadStep::Compile(name, program) => Loading::Compile(name@, *program),
        }
    }
}

/// The first step of loading a file with this stem, extension and content.
///
/// A `.fzb` file is loaded as it is. Any other file is source: it is
/// refused where its bytes are not text or the text does not lex or parse,
/// and otherwise its program is left to compile.
pub open spec fn begun(stem: Option<Seq<char>>, extension: Option<Seq<char>>, bytes: Seq<u8>) -> Loading {
    if is_precompiled(extension) {
        Loading::Loaded(ScriptModel { name: script_name(stem), bytecode: bytes })
    } else {
        match source_outcome(bytes) {
            Err(fault) => Loading::Refused(fault),
            Ok(program) => Loading::Compile(script_name(stem), program),
        }
    }
}

/// Takes source text through the first two stages of compilation: lexing,
/// then parsing, stopping at the first stage that fails. The parser goes
/// as deep as the text nests.
pub fn parse_source(source: &str) -> (r: Result<Program, FusabiLoaderError>)
    ensures
        fault_of(r) == parse_outcome(source@),
{
    let tokens = match tokenize(source) {
        Ok(tokens) => tokens,
        Err(error) => {
            return Err(FusabiLoaderError::Lexer(describe_lex_error(&error)));
        },
    };
    match parse_program(tokens) {
        Ok(program) => Ok(program),
        Err(error) => Err(FusabiLoaderError::Parser(describe_parse_error(&error))),
    }
}

/// Takes what the compiler returned for a parsed program: the last stage
/// of compiling source text. The chunk is handed on as it is; a compiler
/// error becomes a `Compiler` failure with its rendering.
pub fn compiled_chunk(compiled: Result<Chunk, CompileError>) -> (r: Result<
    Chunk,
    FusabiLoaderError,
>)
    ensures
        fault_of(r) == compilation_outcome(compiled),
{
    match compiled {
        Ok(chunk) => Ok(chunk),
        Err(error) => Err(FusabiLoaderError::Compiler(describe_compile_error(&error))),
    }
}

/// Decodes the bytes of a source file as UTF-8 text.
pub fn decode_source(bytes: Vec<u8>) -> (r: Result<String, FusabiLoaderError>)
    ensures
        valid_utf8(bytes@) ==> (r matches Ok(text) && text@ == decode_utf8(bytes@)),
        !valid_utf8(bytes@) ==> (r matches Err(error) && error@ == LoadFault::Utf8(
            utf8_fault(bytes@),
        )),
{
    match String::from_utf8(bytes) {
        Ok(text) => Ok(text),
        Err(error) => Err(FusabiLoaderError::Utf8(error)),
    }
}

/// Parses the bytes of a source file: text decoding, then lexing and
/// parsing.
pub fn parse_bytes(bytes: Vec<u8>) -> (r: Result<Program, FusabiLoaderError>)
    ensures
        fault_of(r) == source_outcome(bytes@),
{
    match decode_source(bytes) {
        Ok(text) => parse_source(text.as_str()),
        Err(error) => Err(error),
    }
}

/// The message of a load that ends because the serializer's bytes do not
/// open with the container header.
pub open spec fn headerless_text() -> Seq<char> {
    "serialized bytecode lacks the container header"@
}

/// What a serialization result comes to for an asset called `name`: the
/// asset with those bytes where they open with the container header, and
/// a `Bytecode` failure otherwise, with the serializer's message where it
/// gave one.
pub open spec fn encoding_outcome(name: Seq<char>, encoding: Result<Seq<u8>, Seq<char>>) -> Result<
    ScriptModel,
    LoadFault,
> {
    match encoding {
        Err(message) => Err(LoadFault::Bytecode(message)),
        Ok(bytes) => if has_container_header(bytes) {
            Ok(ScriptModel { name, bytecode: bytes })
        } else {
            Err(LoadFault::Bytecode(headerless_text()))
        },
    }
}

/// A serialization result with its bytes and its message taken by their
/// views.
pub open spec fn encoding_of(encoding: Result<Vec<u8>, String>) -> Result<Seq<u8>, Seq<char>> {
    match encoding {
        Ok(bytes) => Ok(bytes@),
        Err(message) => Err(message@),
    }
}

/// A load result with its asset and its failure taken by their views.
pub open spec fn loaded_of(r: Result<FusabiScript, FusabiLoaderError>) -> Result<
    ScriptModel,
    LoadFault,
> {
    match r {
        Ok(script) => Ok(script@),
        Err(error) => Err(error@),
    }
}

/// Builds the asset from a serialization result: the bytes become the
/// asset's bytecode as they are, a serializer message becomes a `Bytecode`
/// failure.
pub fn script_from_encoding(name: String, encoding: Result<Vec<u8>, String>) -> (r: Result<
    FusabiScript,
    FusabiLoaderError,
>)
    ensures
        match encoding {
            Ok(bytes) => r matches Ok(script) && script@ == (ScriptModel {
                name: name@,
                bytecode: bytes@,
            }),
            Err(message) => r matches Err(error) && error@ == LoadFault::Bytecode(message@),
        },
{
    match encoding {
        Ok(bytes) => Ok(FusabiScript::new(name, bytes)),
        Err(message) => Err(FusabiLoaderError::Bytecode(message)),
    }
}

/// An optional piece of a path, taken as text.
pub open spec fn text_of(part: Option<&str>) -> Option<Seq<char>> {
    match part {
        Some(text) => Some(text@),
        None => None,
    }
}

/// The asset name for a file stem.
pub fn name_for(stem: Option<&str>) -> (name: String)
    ensures
        name@ == script_name(text_of(stem)),
{
    match stem {
        Some(text) => text.to_owned(),
        None => "unknown".to_owned(),
    }
}

/// Whether a file extension marks precompiled bytecode.
pub fn marks_precompiled(extension: Option<&str>) -> (yes: bool)
    ensures
        yes == is_precompiled(text_of(extension)),
{
    match extension {
        Some(text) => {
            let given = text.to_owned();
            let wanted = "fzb".to_owned();
            given == wanted
        },
        None => false,
    }
}

impl FusabiLoader {
    /// Begins the load of one file: `stem` and `extension` are those of its
    /// path, where it has them, and `bytes` is its whole content.
    ///
    /// A `.fzb` file is taken as it is, without a look at its bytes: a
    /// malformed one is only found out when its bytecode is decoded. Any
    /// other file is read as source text and parsed; what is left to do
    /// then is to compile the program, to serialize the chunk, and to hand
    /// the serializer's result to [`FusabiLoader::finish`], with the name
    /// given here.
    pub fn begin(&self, stem: Option<&str>, extension: Option<&str>, bytes: Vec<u8>) -> (step:
        LoadStep)
        ensures
            step@ == begun(text_of(stem), text_of(extension), bytes@),
    {
        let name = name_for(stem);
        if marks_precompiled(extension) {
            return LoadStep::Loaded(FusabiScript::new(name, bytes));
        }
        match parse_bytes(bytes) {
            Ok(program) => LoadStep::Compile(name, program),
            Err(error) => LoadStep::Refused(error),
        }
    }

    /// Finishes the load of a source file from what the serializer
    /// returned for its compiled chunk.
    ///
    /// Bytes that open with the container header become the bytecode of
    /// the asset, under the given name. A serializer message ends the load
    /// with a `Bytecode` failure, and so do bytes without the header: no
    /// asset made from source ever holds bytecode that the decoder would
    /// refuse for its header.
    pub fn finish(&self, name: String, encoding: Result<Vec<u8>, String>) -> (r: Result<
        FusabiScript,
        FusabiLoaderError,
    >)
        ensures
            loaded_of(r) == encoding_outcome(name@, encoding_of(encoding)),
    {
        let headed = match &encoding {
            Ok(bytes) => starts_with_header(bytes.as_slice()),
            Err(_) => true,
        };
        if headed {
            script_from_encoding(name, encoding)
        } else {
            Err(
                FusabiLoaderError::Bytecode(
                    "serialized bytecode lacks the container header".to_owned(),
                ),
            )
        }
    }

    /// The file extensions this loader is registered for.
    pub fn extensions(&self) -> (list: [&'static str; 2])
        ensures
            list[0]@ == "fsx"@,
            list[1]@ == "fzb"@,
    {
        ["fsx", "fzb"]
    }
}

} // verus!
