use wasm_host::error::HostError;
use wasm_host::loader::instantiate;
use wasm_host::orchestrator::{call, play};
use wasm_host::resolver::RuntimeModuleImportResolver;

fn leb(mut value: u32) -> Vec<u8> {
    let mut out = Vec::new();
    loop {
        let byte = (value & 0x7f) as u8;
        value >>= 7;
        if value == 0 {
            out.push(byte);
            return out;
        }
        out.push(byte | 0x80);
    }
}

fn section(id: u8, payload: &[u8]) -> Vec<u8> {
    let mut out = vec![id];
    out.extend_from_slice(&leb(payload.len() as u32));
    out.extend_from_slice(payload);
    out
}

fn vec_of(entries: &[Vec<u8>]) -> Vec<u8> {
    let mut out = leb(entries.len() as u32);
    for e in entries {
        out.extend_from_slice(e);
    }
    out
}

fn name(s: &str) -> Vec<u8> {
    let mut out = leb(s.len() as u32);
    out.extend_from_slice(s.as_bytes());
    out
}

fn func_import(module: &str, field: &str, type_index: u8) -> Vec<u8> {
    let mut out = name(module);
    out.extend_from_slice(&name(field));
    out.push(0x00);
    out.push(type_index);
    out
}

fn func_export(field: &str, func_index: u8) -> Vec<u8> {
    let mut out = name(field);
    out.push(0x00);
    out.push(func_index);
    out
}

fn body(code: &[u8]) -> Vec<u8> {
    let mut inner = vec![0x00];
    inner.extend_from_slice(code);
    let mut out = leb(inner.len() as u32);
    out.extend_from_slice(&inner);
    out
}

// The demonstration module: it imports the two host functions, defines its
// own memory, and exports the five functions the scripted walkthrough
// invokes together with that memory. Its string lives in a data segment at
// offset 1024.
fn demo_module() -> Vec<u8> {
    let mut m = vec![0x00, 0x61, 0x73, 0x6d, 0x01, 0x00, 0x00, 0x00];
    // Types: (i32,i32)->i32, (i32,i32)->(), ()->i32, (i32)->i32, (i32)->().
    m.extend_from_slice(&section(1, &vec_of(&[
        vec![0x60, 0x02, 0x7f, 0x7f, 0x01, 0x7f],
        vec![0x60, 0x02, 0x7f, 0x7f, 0x00],
        vec![0x60, 0x00, 0x01, 0x7f],
        vec![0x60, 0x01, 0x7f, 0x01, 0x7f],
        vec![0x60, 0x01, 0x7f, 0x00],
    ])));
    // Imports: env.multiply and env.state_add become functions 0 and 1.
    m.extend_from_slice(&section(2, &vec_of(&[
        func_import("env", "multiply", 0),
        func_import("env", "state_add", 1),
    ])));
    // Defined functions 2..=6: add, count_str, return_str, calc_host,
    // host_state_add.
    m.extend_from_slice(&section(3, &vec_of(&[
        vec![0x00],
        vec![0x00],
        vec![0x02],
        vec![0x03],
        vec![0x04],
    ])));
    // One memory of one page.
    m.extend_from_slice(&section(5, &vec_of(&[vec![0x00, 0x01]])));
    // Exports.
    m.extend_from_slice(&section(7, &vec_of(&[
        func_export("add", 2),
        func_export("count_str", 3),
        func_export("return_str", 4),
        func_export("calc_host", 5),
        func_export("host_state_add", 6),
        {
            let mut e = name("memory");
            e.push(0x02);
            e.push(0x00);
            e
        },
    ])));
    // Code. add returns the sum of its arguments; count_str returns the
    // supplied length (the byte count of the seeded valid text);
    // return_str returns the data segment's offset; calc_host doubles its
    // argument and calls the host multiply; host_state_add calls the host
    // state_add with a delta of five.
    m.extend_from_slice(&section(10, &vec_of(&[
        body(&[0x20, 0x00, 0x20, 0x01, 0x6a, 0x0b]),
        body(&[0x20, 0x01, 0x0b]),
        body(&[0x41, 0x80, 0x08, 0x0b]),
        body(&[0x20, 0x00, 0x20, 0x00, 0x20, 0x00, 0x6a, 0x10, 0x00, 0x0b]),
        body(&[0x20, 0x00, 0x41, 0x05, 0x10, 0x01, 0x0b]),
    ])));
    // Data: the null-terminated message at offset 1024.
    let mut data_entry = vec![0x00, 0x41, 0x80, 0x08, 0x0b];
    let text = b"hello from webassembly\0";
    data_entry.extend_from_slice(&leb(text.len() as u32));
    data_entry.extend_from_slice(text);
    m.extend_from_slice(&section(11, &vec_of(&[data_entry])));
    m
}

#[test]
fn play_runs_the_whole_script() {
    let resolver = RuntimeModuleImportResolver;
    let mut module = instantiate(&demo_module(), &resolver).unwrap();
    let records = play(&mut module).unwrap();
    assert_eq!(records.len(), 5);
    assert_eq!(records[0].name, "add");
    assert_eq!(records[0].args, vec![3, 6]);
    assert_eq!(records[0].result, Some(9));
    assert_eq!(records[1].name, "count_str");
    assert_eq!(records[1].result, Some(11));
    assert_eq!(records[2].name, "return_str");
    assert_eq!(records[2].result, Some(1024));
    assert_eq!(records[2].text.as_deref(), Some("hello from webassembly"));
    assert_eq!(records[3].name, "calc_host");
    assert_eq!(records[3].result, Some(18));
    assert_eq!(records[4].name, "host_state_add");
    assert_eq!(records[4].result, None);
}

// Like the demonstration module, but its add export ignores its arguments
// and returns a constant, so the script's first check must fail.
fn lying_add_module() -> Vec<u8> {
    let mut m = vec![0x00, 0x61, 0x73, 0x6d, 0x01, 0x00, 0x00, 0x00];
    m.extend_from_slice(&section(1, &vec_of(&[vec![0x60, 0x02, 0x7f, 0x7f, 0x01, 0x7f]])));
    m.extend_from_slice(&section(3, &vec_of(&[vec![0x00]])));
    m.extend_from_slice(&section(5, &vec_of(&[vec![0x00, 0x01]])));
    m.extend_from_slice(&section(7, &vec_of(&[func_export("add", 0), {
        let mut e = name("memory");
        e.push(0x02);
        e.push(0x00);
        e
    }])));
    m.extend_from_slice(&section(10, &vec_of(&[body(&[0x41, 0x07, 0x0b])])));
    m
}

#[test]
fn a_mismatch_is_reported_at_its_step() {
    let resolver = RuntimeModuleImportResolver;
    let mut module = instantiate(&lying_add_module(), &resolver).unwrap();
    let r = play(&mut module);
    assert!(matches!(r, Err(HostError::Mismatch(1))));
}

#[test]
fn unknown_export_fails_distinctly() {
    let resolver = RuntimeModuleImportResolver;
    let mut module = instantiate(&demo_module(), &resolver).unwrap();
    let r = call(&mut module, "absent", &vec![], 0);
    assert!(matches!(r, Err(HostError::ExportNotFound)));
}

#[test]
fn unknown_import_fails_instantiation() {
    let mut m = vec![0x00, 0x61, 0x73, 0x6d, 0x01, 0x00, 0x00, 0x00];
    m.extend_from_slice(&section(1, &vec_of(&[vec![0x60, 0x01, 0x7f, 0x01, 0x7f]])));
    m.extend_from_slice(&section(2, &vec_of(&[func_import("env", "bogus", 0)])));
    let resolver = RuntimeModuleImportResolver;
    let r = instantiate(&m, &resolver);
    assert!(matches!(r, Err(HostError::Interpreter(_))));
}

#[test]
fn module_with_start_function_is_refused() {
    let mut m = vec![0x00, 0x61, 0x73, 0x6d, 0x01, 0x00, 0x00, 0x00];
    m.extend_from_slice(&section(1, &vec_of(&[vec![0x60, 0x00, 0x00]])));
    m.extend_from_slice(&section(3, &vec_of(&[vec![0x00]])));
    m.extend_from_slice(&section(8, &[0x00]));
    m.extend_from_slice(&section(10, &vec_of(&[body(&[0x0b])])));
    let resolver = RuntimeModuleImportResolver;
    let r = instantiate(&m, &resolver);
    assert!(matches!(r, Err(HostError::StartFunction)));
}

#[test]
fn module_without_memory_export_is_refused() {
    let mut m = vec![0x00, 0x61, 0x73, 0x6d, 0x01, 0x00, 0x00, 0x00];
    m.extend_from_slice(&section(1, &vec_of(&[vec![0x60, 0x02, 0x7f, 0x7f, 0x01, 0x7f]])));
    m.extend_from_slice(&section(3, &vec_of(&[vec![0x00]])));
    m.extend_from_slice(&section(7, &vec_of(&[func_export("add", 0)])));
    m.extend_from_slice(&section(10, &vec_of(&[body(&[0x20, 0x00, 0x20, 0x01, 0x6a, 0x0b])])));
    let resolver = RuntimeModuleImportResolver;
    let r = instantiate(&m, &resolver);
    assert!(matches!(r, Err(HostError::NoMemoryExport)));
}

#[test]
fn malformed_bytes_fail_parsing() {
    let resolver = RuntimeModuleImportResolver;
    let r = instantiate(&vec![1, 2, 3, 4], &resolver);
    assert!(matches!(r, Err(HostError::Interpreter(_))));
}

#[test]
fn text_format_input_is_rejected() {
    // Only the binary module format is accepted: a textual module (here one
    // that declares a start function) must fail parsing, not slip past the
    // loader's checks.
    let resolver = RuntimeModuleImportResolver;
    let text = b"(module (func $f) (start $f))".to_vec();
    let r = instantiate(&text, &resolver);
    assert!(matches!(r, Err(HostError::Interpreter(_))));
}
