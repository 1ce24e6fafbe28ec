//! Tests for symbol resolution and the all-or-nothing construction of the
//! entry-point table.

use std::cell::RefCell;

use cac_gl_bindings::gl43::{Api, EntryPoint};
use cac_gl_bindings::{resolve, Error};

fn all_entry_points() -> Vec<EntryPoint> {
    vec![
        EntryPoint::DebugMessageCallback,
        EntryPoint::Enable,
        EntryPoint::Clear,
        EntryPoint::ClearColor,
        EntryPoint::DrawArrays,
        EntryPoint::GenVertexArrays,
        EntryPoint::BindVertexArray,
        EntryPoint::EnableVertexAttribArray,
        EntryPoint::VertexAttribPointer,
        EntryPoint::DeleteVertexArrays,
        EntryPoint::GenBuffers,
        EntryPoint::BindBuffer,
        EntryPoint::BufferData,
        EntryPoint::DeleteBuffer,
        EntryPoint::CreateShader,
        EntryPoint::ShaderSource,
        EntryPoint::CompileShader,
        EntryPoint::DeleteShader,
        EntryPoint::CreateProgram,
        EntryPoint::AttachShader,
        EntryPoint::LinkProgram,
        EntryPoint::UseProgram,
        EntryPoint::DetachShader,
        EntryPoint::DeleteProgram,
    ]
}

/// A deterministic fake address per symbol name: nonzero, distinct for
/// distinct required names.
fn fake_address(symbol: &str) -> usize {
    1000 + symbol.len() * 131 + symbol.chars().map(|c| c as usize).sum::<usize>()
}

#[test]
fn resolve_returns_the_found_address() {
    let loader = |s: &'static str| -> usize { fake_address(s) };
    let r = resolve(&loader, "glEnable");
    match r {
        Ok(addr) => assert_eq!(addr, fake_address("glEnable")),
        Err(_) => panic!("resolution must succeed for a non-null address"),
    }
}

#[test]
fn resolve_null_address_is_failed_to_load() {
    let loader = |_s: &'static str| -> usize { 0 };
    let r = resolve(&loader, "glEnable");
    match r {
        Ok(_) => panic!("resolution must fail for the null address"),
        Err(Error::FailedToLoad(name)) => assert_eq!(name, "glEnable"),
    }
}

#[test]
fn error_carries_the_symbol_name() {
    let loader = |_s: &'static str| -> usize { 0 };
    let err = resolve(&loader, "glClearColor").unwrap_err();
    assert_eq!(err.symbol(), "glClearColor");
}

#[test]
fn entry_point_names_are_the_exported_symbols() {
    let expected = vec![
        "glDebugMessageCallback",
        "glEnable",
        "glClear",
        "glClearColor",
        "glDrawArrays",
        "glGenVertexArrays",
        "glBindVertexArray",
        "glEnableVertexAttribArray",
        "glVertexAttribPointer",
        "glDeleteVertexArrays",
        "glGenBuffers",
        "glBindBuffer",
        "glBufferData",
        "glDeleteBuffer",
        "glCreateShader",
        "glShaderSource",
        "glCompileShader",
        "glDeleteShader",
        "glCreateProgram",
        "glAttachShader",
        "glLinkProgram",
        "glUseProgram",
        "glDetachShader",
        "glDeleteProgram",
    ];
    let entries = all_entry_points();
    assert_eq!(entries.len(), expected.len());
    for (e, name) in entries.iter().zip(expected.iter()) {
        assert_eq!(e.name(), *name);
    }
}

#[test]
fn construction_succeeds_when_every_symbol_resolves() {
    let loader = |s: &'static str| -> usize { fake_address(s) };
    let api = Api::with_loader(&loader).expect("all symbols resolve");
    for e in all_entry_points() {
        let addr = api.addr(e);
        assert_ne!(addr, 0, "entry {:?} must be callable", e);
        assert_eq!(addr, fake_address(e.name()), "entry {:?} must hold the resolved address", e);
    }
}

#[test]
fn missing_create_program_is_reported_by_name() {
    let loader = |s: &'static str| -> usize {
        if s == "glCreateProgram" {
            0
        } else {
            fake_address(s)
        }
    };
    match Api::with_loader(&loader) {
        Ok(_) => panic!("construction must fail when a symbol is missing"),
        Err(Error::FailedToLoad(name)) => assert_eq!(name, "glCreateProgram"),
    }
}

#[test]
fn missing_debug_message_callback_is_reported_by_name() {
    let loader = |s: &'static str| -> usize {
        if s == "glDebugMessageCallback" {
            0
        } else {
            fake_address(s)
        }
    };
    match Api::with_loader(&loader) {
        Ok(_) => panic!("construction must fail when a symbol is missing"),
        Err(Error::FailedToLoad(name)) => assert_eq!(name, "glDebugMessageCallback"),
    }
}

#[test]
fn missing_delete_program_is_reported_by_name() {
    let loader = |s: &'static str| -> usize {
        if s == "glDeleteProgram" {
            0
        } else {
            fake_address(s)
        }
    };
    match Api::with_loader(&loader) {
        Ok(_) => panic!("construction must fail when a symbol is missing"),
        Err(Error::FailedToLoad(name)) => assert_eq!(name, "glDeleteProgram"),
    }
}

#[test]
fn no_partial_surface_when_everything_is_missing() {
    let loader = |_s: &'static str| -> usize { 0 };
    match Api::with_loader(&loader) {
        Ok(_) => panic!("construction must fail when every symbol is missing"),
        Err(Error::FailedToLoad(name)) => {
            // Some required symbol is reported; it must be one of the set.
            let names: Vec<&str> = all_entry_points().iter().map(|e| e.name()).collect();
            assert!(names.contains(&name.as_str()));
        }
    }
}

#[test]
fn resolution_asks_each_symbol_once() {
    let asked: RefCell<Vec<String>> = RefCell::new(Vec::new());
    let loader = |s: &'static str| -> usize {
        asked.borrow_mut().push(s.to_string());
        fake_address(s)
    };
    Api::with_loader(&loader).expect("all symbols resolve");
    let asked = asked.into_inner();
    assert_eq!(asked.len(), all_entry_points().len());
    for e in all_entry_points() {
        assert_eq!(asked.iter().filter(|n| n.as_str() == e.name()).count(), 1);
    }
}
