use wamr_rust_sdk::boundary::{ListArg, WasiArgs};
use wamr_rust_sdk::error::RuntimeError;
use wamr_rust_sdk::helper::DEFAULT_ERROR_BUF_SIZE;
use wamr_rust_sdk::module::Module;
use wamr_rust_sdk::wasi_context::WasiCtxBuilder;

// (module
//   (func (export "add") (param i32 i32) (result i32)
//     (local.get 0)
//     (local.get 1)
//     (i32.add)
//   )
// )
fn add_module() -> Vec<u8> {
    let binary = vec![
        0x00, 0x61, 0x73, 0x6d, 0x01, 0x00, 0x00, 0x00, 0x01, 0x07, 0x01, 0x60, 0x02, 0x7f, 0x7f,
        0x01, 0x7f, 0x03, 0x02, 0x01, 0x00, 0x07, 0x07, 0x01, 0x03, 0x61, 0x64, 0x64, 0x00, 0x00,
        0x0a, 0x09, 0x01, 0x07, 0x00, 0x20, 0x00, 0x20, 0x01, 0x6a, 0x0b,
    ];
    binary.into_iter().map(|c| c as u8).collect::<Vec<u8>>()
}

fn empty_error_buf() -> Vec<u8> {
    vec![0u8; DEFAULT_ERROR_BUF_SIZE]
}

fn error_buf_with(text: &str) -> Vec<u8> {
    let mut buf = empty_error_buf();
    buf[..text.len()].copy_from_slice(text.as_bytes());
    buf
}

// The engine's handle is stood for by an integer: these tests exercise what
// the library decides from what the engine hands back.
const HANDLE: usize = 0x1000;

#[test]
fn test_module_not_exist() {
    let read: Result<Vec<u8>, String> =
        Err(String::from("No such file or directory (os error 2)"));
    let module = Module::<usize>::from_file(read, None, &empty_error_buf());
    assert!(module.is_err());
}

#[test]
fn test_module_from_buf() {
    let binary = add_module();
    let module = Module::from_buf(binary, Some(HANDLE), &empty_error_buf());
    assert!(module.is_ok());
}

#[test]
fn test_module_from_file() {
    let read: Result<Vec<u8>, String> = Ok(add_module());
    let module = Module::from_file(read, Some(HANDLE), &empty_error_buf());
    assert!(module.is_ok());
}

#[test]
fn test_module_with_wasi_args() {
    let binary = add_module();
    let module = Module::from_buf(binary, Some(HANDLE), &empty_error_buf());
    assert!(module.is_ok());
    let mut module = module.unwrap();

    let wasi_ctx = WasiCtxBuilder::new()
        .set_pre_open_path(vec!["."], vec![])
        .set_env_vars(vec![])
        .set_allowed_address(vec![])
        .set_allowed_dns(vec![])
        .build();

    assert!(wasi_ctx.fits_boundary());
    module.set_wasi_context(wasi_ctx);
}

#[test]
fn missing_file_is_a_file_error_not_a_compilation_error() {
    let read: Result<Vec<u8>, String> = Err(String::from("permission denied"));
    let r = Module::<usize>::from_file(read, None, &error_buf_with("should not be read"));
    let e = r.unwrap_err();
    assert!(e.is_file_error());
    assert_eq!(e, RuntimeError::WasmFileFSError(String::from("permission denied")));
}

#[test]
fn missing_file_ignores_a_handle() {
    let read: Result<Vec<u8>, String> = Err(String::from("not found"));
    let r = Module::from_file(read, Some(HANDLE), &empty_error_buf());
    assert_eq!(r.unwrap_err().message(), "not found");
}

#[test]
fn minimal_module_keeps_handle_and_bytes() {
    let m = Module::from_buf(add_module(), Some(HANDLE), &empty_error_buf()).unwrap();
    assert_eq!(*m.get_inner_module(), HANDLE);
    assert_ne!(*m.get_inner_module(), 0);
    assert_eq!(m.get_content(), &add_module());
    assert!(m.get_wasi_context().get_preopen_real_paths().is_empty());
    assert!(m.get_wasi_context().get_arguments().is_empty());
}

#[test]
fn empty_buffer_rejected_without_diagnostic_gets_fallback() {
    let r = Module::<usize>::from_buf(Vec::new(), None, &empty_error_buf());
    assert_eq!(
        r.unwrap_err(),
        RuntimeError::CompilationError(String::from("load module failed"))
    );
}

#[test]
fn corrupted_magic_carries_engine_diagnostic() {
    let mut binary = add_module();
    binary[0] = 0x01;
    let r = Module::<usize>::from_buf(
        binary,
        None,
        &error_buf_with("WASM module load failed: magic header not detected"),
    );
    let e = r.unwrap_err();
    assert!(!e.is_file_error());
    assert_eq!(e.message(), "WASM module load failed: magic header not detected");
}

#[test]
fn rejection_from_file_bytes_is_a_compilation_error() {
    let read: Result<Vec<u8>, String> = Ok(vec![0x00, 0x61, 0x73]);
    let r = Module::<usize>::from_file(read, None, &error_buf_with("unexpected end"));
    assert_eq!(
        r.unwrap_err(),
        RuntimeError::CompilationError(String::from("unexpected end"))
    );
}

#[test]
fn two_modules_from_one_buffer_are_independent() {
    let binary = add_module();
    let first = Module::from_buf(binary.clone(), Some(1usize), &empty_error_buf()).unwrap();
    let second = Module::from_buf(binary.clone(), Some(2usize), &empty_error_buf()).unwrap();
    drop(first);
    assert_eq!(*second.get_inner_module(), 2);
    assert_eq!(second.get_content(), &binary);
}

#[test]
fn single_preopen_flattens_to_one_pair_and_null_lists() {
    let mut m = Module::from_buf(add_module(), Some(HANDLE), &empty_error_buf()).unwrap();
    let ctx = WasiCtxBuilder::new().add_preopen(".", None).build();
    let args = m.set_wasi_context(ctx);
    assert_eq!(args.real_paths, ListArg::Table(1));
    assert_eq!(args.mapped_paths, ListArg::Table(1));
    assert_eq!(args.env_vars, ListArg::Null);
    assert_eq!(args.arguments, ListArg::Null);
    assert_eq!(args.allowed_dns, ListArg::Null);
    assert_eq!(args.allowed_address, ListArg::Null);
    assert_eq!(args.env_vars.count(), 0);
    assert!(args.arguments.is_null());
    let held = m.get_wasi_context();
    assert_eq!(held.get_preopen_real_paths(), &vec![String::from(".")]);
    assert_eq!(held.get_preopen_mapped_paths(), &vec![String::from(".")]);
}

#[test]
fn second_attachment_replaces_the_first() {
    let mut m = Module::from_buf(add_module(), Some(HANDLE), &empty_error_buf()).unwrap();
    let a = WasiCtxBuilder::new()
        .add_preopen("/tmp", Some("/sandbox"))
        .set_arguments(vec!["prog", "-v"])
        .build();
    let b = WasiCtxBuilder::new().set_env_vars(vec!["A=1"]).build();
    let first = m.set_wasi_context(a);
    assert_eq!(first.arguments, ListArg::Table(2));
    let second = m.set_wasi_context(b);
    assert_eq!(
        second,
        WasiArgs {
            real_paths: ListArg::Null,
            mapped_paths: ListArg::Null,
            env_vars: ListArg::Table(1),
            arguments: ListArg::Null,
            allowed_dns: ListArg::Null,
            allowed_address: ListArg::Null,
        }
    );
    assert!(m.get_wasi_context().get_preopen_real_paths().is_empty());
    assert!(m.get_wasi_context().get_arguments().is_empty());
    assert_eq!(m.get_wasi_context().get_env_vars(), &vec![String::from("A=1")]);
    assert_eq!(*m.get_inner_module(), HANDLE);
    assert_eq!(m.get_content(), &add_module());
}
