use bevy_fusabi::asset::{FusabiHeader, FusabiScript, MAGIC_WORD};
use bevy_fusabi::codec::{starts_with_header, FORMAT_VERSION, HEADER_LEN};
use bevy_fusabi::loader::{compiled_chunk, parse_source, FusabiLoader, LoadStep};
use bevy_fusabi::runner::{PassOutcome, PassStep, RunScript};
use fusabi_frontend::Compiler;
use fusabi_vm::{serialize_chunk, Chunk, Vm};

/// Loads source text: the library's two steps, with the compiler run in
/// between.
fn load_text(source: &str) -> FusabiScript {
    match FusabiLoader.begin(Some("s"), Some("fsx"), source.as_bytes().to_vec()) {
        LoadStep::Compile(name, program) => {
            let chunk = compiled_chunk(Compiler::compile_program(&program)).unwrap();
            FusabiLoader.finish(name, serialize_chunk(&chunk).map_err(|e| e.to_string())).unwrap()
        }
        other => panic!("expected a program to compile, got {:?}", other),
    }
}

fn compile_text(source: &str) -> Chunk {
    Compiler::compile_program(&parse_source(source).unwrap()).unwrap()
}

/// A whole pass over one runner, with the machine run in between.
fn pass(runner: &mut RunScript, script: &FusabiScript) -> PassOutcome {
    match runner.plan(Some(script)) {
        PassStep::Done(outcome) => outcome,
        PassStep::Run(chunk) => runner.finish(&Vm::new().execute(chunk)),
    }
}

const PREFIX: [u8; 5] = [0x46, 0x5A, 0x42, 0x01, 0x01];

#[test]
fn the_container_prefix_is_magic_then_version() {
    assert_eq!(HEADER_LEN, 5);
    assert_eq!(FORMAT_VERSION, 1);
    assert_eq!(&PREFIX[..4], fusabi_vm::FZB_MAGIC);
    assert_eq!(PREFIX[4], fusabi_vm::FZB_VERSION);
    assert!(starts_with_header(&PREFIX));
    assert!(starts_with_header(&[0x46, 0x5A, 0x42, 0x01, 0x01, 0xFF, 0x00]));
}

#[test]
fn bytes_without_the_prefix_have_no_header() {
    assert!(!starts_with_header(&[]));
    assert!(!starts_with_header(&[0xDE, 0xAD]));
    assert!(!starts_with_header(&PREFIX[..4]));
    assert!(!starts_with_header(&[0x46, 0x5A, 0x42, 0x01, 0x02]));
    assert!(!starts_with_header(&[0x46, 0x5A, 0x42, 0x02, 0x01]));
    assert!(!starts_with_header(&[0x47, 0x5A, 0x42, 0x01, 0x01]));
    assert!(!starts_with_header(&[0x46, 0x5B, 0x42, 0x01, 0x01]));
    assert!(!starts_with_header(&[0x46, 0x5A, 0x43, 0x01, 0x01]));
}

#[test]
fn a_new_header_is_supported() {
    let header = FusabiHeader::new(1_700_000_000);
    assert_eq!(header.magic, 0x465A_4201);
    assert_eq!(header.magic, MAGIC_WORD);
    assert_eq!(header.version, 1);
    assert_eq!(header.timestamp, 1_700_000_000);
    assert!(header.supported());
}

#[test]
fn a_header_with_another_magic_or_version_is_not_supported() {
    assert!(!FusabiHeader { magic: 0, version: 1, timestamp: 0 }.supported());
    assert!(!FusabiHeader { magic: MAGIC_WORD, version: 2, timestamp: 0 }.supported());
    assert!(!FusabiHeader { magic: 0x0142_5A46, version: 1, timestamp: 0 }.supported());
    assert!(FusabiHeader { magic: MAGIC_WORD, version: 1, timestamp: u64::MAX }.supported());
}

#[test]
fn the_header_is_read_off_the_front_of_a_container() {
    let header = FusabiHeader::of_container(&[0x46, 0x5A, 0x42, 0x01, 0x01, 9, 9], 42).unwrap();
    assert_eq!(header, FusabiHeader { magic: 0x465A_4201, version: 1, timestamp: 42 });
    assert!(header.supported());

    let header = FusabiHeader::of_container(&[0xDE, 0xAD, 0xBE, 0xEF, 0x07], 0).unwrap();
    assert_eq!(header, FusabiHeader { magic: 0xDEAD_BEEF, version: 7, timestamp: 0 });
    assert!(!header.supported());

    let header = FusabiHeader::of_container(&[0xFF, 0xFF, 0xFF, 0xFF, 0xFF], 1).unwrap();
    assert_eq!(header, FusabiHeader { magic: u32::MAX, version: 255, timestamp: 1 });

    assert_eq!(FusabiHeader::of_container(&[0x46, 0x5A, 0x42, 0x01], 42), None);
    assert_eq!(FusabiHeader::of_container(&[], 42), None);
}

#[test]
fn the_header_of_a_compiled_asset_is_supported() {
    let script = load_text("1 + 1");
    let header = FusabiHeader::of_container(&script.bytecode, 0).unwrap();
    assert!(header.supported());
}

#[test]
fn an_asset_keeps_its_name_and_bytes() {
    let script = FusabiScript::new("hello".to_string(), vec![1, 2, 3]);
    assert_eq!(script.name, "hello");
    assert_eq!(script.bytecode, vec![1, 2, 3]);
}

#[test]
fn bytes_without_a_header_do_not_decode() {
    let short = FusabiScript::new("x".to_string(), vec![0xDE, 0xAD]);
    assert_eq!(short.to_chunk().unwrap_err(), "File too short");
    let magic = FusabiScript::new("x".to_string(), vec![0x46, 0x5A, 0x42, 0x02, 1, 0]);
    assert_eq!(magic.to_chunk().unwrap_err(), "Invalid magic bytes");
    let version = FusabiScript::new("x".to_string(), vec![0x46, 0x5A, 0x42, 0x01, 2, 0]);
    assert_eq!(version.to_chunk().unwrap_err(), "Unsupported version: 2");
    let empty = FusabiScript::new("x".to_string(), Vec::new());
    assert!(empty.to_chunk().is_err());
}

#[test]
fn a_header_alone_does_not_decode() {
    let bare = FusabiScript::new("x".to_string(), PREFIX.to_vec());
    assert!(starts_with_header(&bare.bytecode));
    assert!(bare.to_chunk().is_err());
}

#[test]
fn a_truncated_container_does_not_decode() {
    let mut script = load_text("1 + 1");
    assert!(script.to_chunk().is_ok());
    script.bytecode.truncate(9);
    assert!(script.to_chunk().is_err());
}

#[test]
fn a_compiled_asset_decodes_to_the_chunk_that_was_compiled() {
    for source in ["1 + 1", "let x = 5 in x * 2", "\"hi\"", "let f x = x + 1 in f 41"] {
        let compiled = compile_text(source);
        let script = load_text(source);
        let decoded = script.to_chunk().unwrap();
        assert_eq!(decoded.instructions, compiled.instructions);
        assert_eq!(decoded.constants, compiled.constants);
    }
}

fn run_directly(source: &str) -> Result<String, String> {
    let chunk = compile_text(source);
    let mut vm = Vm::new();
    match vm.execute(chunk) {
        Ok(value) => Ok(format!("{:?}", value)),
        Err(error) => Err(format!("{:?}", error)),
    }
}

#[test]
fn a_decoded_chunk_runs_as_the_compiled_one_does() {
    let corpus = [
        ("1 + 1", Ok("Int(2)")),
        ("let x = 5 in x * 2", Ok("Int(10)")),
        ("if true then 1 else 2", Ok("Int(1)")),
        ("\"hi\"", Ok("Str(\"hi\")")),
        ("let f x = x + 1 in f 41", Ok("Int(42)")),
        ("(1, 2)", Ok("Tuple([Int(1), Int(2)])")),
        ("1 / 0", Err("DivisionByZero")),
        ("x + 1", Err("Runtime(\"Undefined global: x\")")),
    ];
    for (source, expected) in corpus {
        let expected = expected.map(str::to_string).map_err(str::to_string);
        assert_eq!(run_directly(source), expected);
        let script = load_text(source);
        let mut runner = RunScript::new(0);
        let outcome = pass(&mut runner, &script);
        match expected {
            Ok(value) => assert_eq!(outcome, PassOutcome::Succeeded(value)),
            Err(message) => assert_eq!(outcome, PassOutcome::Failed(message)),
        }
    }
}
