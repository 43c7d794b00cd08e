use std::sync::{Arc, Mutex};
use wapps::bridge::update_frame;
use wapps::frame::HostInterface;
use wapps::loader::load_wapp;
use wapps::sandbox::{call_result, resolve_entry_points, CallOutcome, EntryPoint, EntryTable, SandboxError};
use wasmtime::{Caller, Config, Engine, Linker, Module, Store, TypedFunc};

const HEADER: [u8; 8] = [0x00, 0x61, 0x73, 0x6d, 0x01, 0x00, 0x00, 0x00];

fn export(name: &str, kind: u8, index: u8) -> Vec<u8> {
    let mut e = vec![name.len() as u8];
    e.extend_from_slice(name.as_bytes());
    e.push(kind);
    e.push(index);
    e
}

fn section(id: u8, content: &[u8]) -> Vec<u8> {
    let mut s = vec![id, content.len() as u8];
    s.extend_from_slice(content);
    s
}

/// A module exporting `memory` and an `update(f64)` that does nothing.
fn update_only_module() -> Vec<u8> {
    let mut m = HEADER.to_vec();
    m.extend(section(1, &[0x01, 0x60, 0x01, 0x7c, 0x00]));
    m.extend(section(3, &[0x01, 0x00]));
    m.extend(section(5, &[0x01, 0x00, 0x01]));
    let mut exports = vec![0x02];
    exports.extend(export("update", 0x00, 0));
    exports.extend(export("memory", 0x02, 0));
    m.extend(section(7, &exports));
    m.extend(section(10, &[0x01, 0x02, 0x00, 0x0b]));
    m
}

/// A module exporting `memory` only.
fn memory_only_module() -> Vec<u8> {
    let mut m = HEADER.to_vec();
    m.extend(section(5, &[0x01, 0x00, 0x01]));
    let mut exports = vec![0x01];
    exports.extend(export("memory", 0x02, 0));
    m.extend(section(7, &exports));
    m
}

/// A module whose `update` calls `update_frame(2, 2, 16)`, with the bytes
/// 1..=16 at address 16 of its memory.
fn frame_module() -> Vec<u8> {
    let mut m = HEADER.to_vec();
    m.extend(section(1, &[0x02, 0x60, 0x03, 0x7f, 0x7f, 0x7f, 0x00, 0x60, 0x01, 0x7c, 0x00]));
    let mut import = vec![0x01, 0x05];
    import.extend_from_slice(b"wapps");
    import.push(0x0c);
    import.extend_from_slice(b"update_frame");
    import.extend_from_slice(&[0x00, 0x00]);
    m.extend(section(2, &import));
    m.extend(section(3, &[0x01, 0x01]));
    m.extend(section(5, &[0x01, 0x00, 0x01]));
    let mut exports = vec![0x02];
    exports.extend(export("update", 0x00, 1));
    exports.extend(export("memory", 0x02, 0));
    m.extend(section(7, &exports));
    m.extend(section(10, &[0x01, 0x0a, 0x00, 0x41, 0x02, 0x41, 0x02, 0x41, 0x10, 0x10, 0x00, 0x0b]));
    let mut data = vec![0x01, 0x00, 0x41, 0x10, 0x0b, 0x10];
    data.extend(1..=16u8);
    m.extend(section(11, &data));
    m
}

fn wrap_package(metadata: &[u8], payload: &[u8]) -> Vec<u8> {
    let mut d = b"WAPP".to_vec();
    d.extend_from_slice(&1u32.to_le_bytes());
    d.extend_from_slice(&(metadata.len() as u32).to_le_bytes());
    d.extend_from_slice(metadata);
    d.extend_from_slice(payload);
    d
}

struct Guest {
    store: Store<Arc<Mutex<HostInterface>>>,
    update: TypedFunc<f64, ()>,
    host: Arc<Mutex<HostInterface>>,
}

fn start(wasm: &[u8]) -> Result<Guest, SandboxError> {
    // Small, growable memories: no multi-gigabyte address space reservation.
    let mut config = Config::new();
    config
        .static_memory_maximum_size(0)
        .dynamic_memory_guard_size(0x10000)
        .dynamic_memory_reserved_for_growth(0)
        .guard_before_linear_memory(false);
    let engine = Engine::new(&config).unwrap();
    let host = Arc::new(Mutex::new(HostInterface::new()));
    let mut store = Store::new(&engine, host.clone());
    let mut linker: Linker<Arc<Mutex<HostInterface>>> = Linker::new(&engine);
    linker
        .func_wrap(
            "wapps",
            "update_frame",
            |mut caller: Caller<'_, Arc<Mutex<HostInterface>>>, w: i32, h: i32, p: i32| {
                let memory = caller.get_export("memory").and_then(|e| e.into_memory()).unwrap();
                let (data, state) = memory.data_and_store_mut(&mut caller);
                let mut frame = state.lock().unwrap();
                update_frame(&mut frame, data, w, h, p);
            },
        )
        .unwrap();
    let module = Module::new(&engine, wasm).map_err(|_| SandboxError::CompileFailed)?;
    let instance = linker.instantiate(&mut store, &module).map_err(|_| SandboxError::InstantiateFailed)?;
    let has_memory = instance.get_memory(&mut store, "memory").is_some();
    let update = instance.get_typed_func::<f64, ()>(&mut store, "update").ok();
    let exports = EntryTable {
        update: update.is_some(),
        on_resize: instance.get_typed_func::<(i32, i32), ()>(&mut store, "on_resize").is_ok(),
        on_pointer_move: instance.get_typed_func::<(i32, i32), ()>(&mut store, "on_pointer_move").is_ok(),
        on_pointer_down: instance.get_typed_func::<(i32, i32, i32), ()>(&mut store, "on_pointer_down").is_ok(),
        on_pointer_up: instance.get_typed_func::<(i32, i32, i32), ()>(&mut store, "on_pointer_up").is_ok(),
        on_key_down: instance.get_typed_func::<i32, ()>(&mut store, "on_key_down").is_ok(),
        on_key_up: instance.get_typed_func::<i32, ()>(&mut store, "on_key_up").is_ok(),
    };
    let table = resolve_entry_points(has_memory, exports)?;
    assert!(table.is_present(EntryPoint::Update));
    Ok(Guest { store, update: update.unwrap(), host })
}

#[test]
fn update_only_guest_runs_without_frame() {
    let data = wrap_package(b"{}", &update_only_module());
    let (payload, _) = load_wapp(&data).unwrap();
    let mut guest = start(&payload).unwrap();
    let outcome = match guest.update.call(&mut guest.store, 0.016) {
        Ok(()) => CallOutcome::Completed,
        Err(_) => CallOutcome::Trapped,
    };
    assert_eq!(call_result(EntryPoint::Update, outcome), Ok(()));
    assert!(guest.host.lock().unwrap().borrow_frame().is_none());
}

#[test]
fn guest_without_update_is_refused() {
    assert_eq!(start(&memory_only_module()).err(), Some(SandboxError::MissingRequiredExport));
}

#[test]
fn guest_frame_reaches_consumer() {
    let mut guest = start(&frame_module()).unwrap();
    guest.update.call(&mut guest.store, 0.016).unwrap();
    let mut host = guest.host.lock().unwrap();
    let expected: Vec<u8> = (1..=16).collect();
    assert_eq!(host.borrow_frame(), Some((2, 2, &expected[..])));
    assert!(host.borrow_frame().is_none());
}

#[test]
fn payload_that_does_not_compile_is_refused() {
    let mut bad = HEADER.to_vec();
    bad.push(0xff);
    assert_eq!(start(&bad).err(), Some(SandboxError::CompileFailed));
}
