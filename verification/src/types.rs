//! Fixed-width numeric aliases matching the native graphics ABI.
//!
//! These are the raw wire types every entry point speaks at the ABI level;
//! the typed wrappers in [`crate::gl43`] lower to them. The native
//! floating-point type has no alias here: operations that carry one pass its
//! 32-bit pattern through unchanged, so the verified layer handles it as its
//! bits.

#![allow(non_camel_case_types)]

use vstd::prelude::*;

verus! {

pub type GLbitField = u32;

pub type GLboolean = u8;

pub type GLbyte = i8;

pub type GLchar = i8;

pub type GLenum = u32;

pub type GLfixed = GLint;

pub type GLhalf = u16;

pub type GLint = i32;

pub type GLintptr = isize;

pub type GLsizei = i32;

pub type GLsizeiptr = isize;

pub type GLuint = u32;

} // verus!
