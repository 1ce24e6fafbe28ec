//! A typed binding layer over a native graphics driver interface.
//!
//! The driver exports its entry points as named symbols; a host obtains a
//! name-to-address lookup function from its windowing toolkit and hands it to
//! this crate, which resolves every required entry point up front
//! (fail-fast, all-or-nothing) and exposes the resolved addresses together
//! with the strongly-typed handle and enumerant vocabulary of the native API.
//!
//! Reinterpreting a resolved address as a typed callable, and the call itself,
//! are inherently unsafe and live outside this crate; everything that can be
//! checked — the null-address validation, the all-or-nothing construction,
//! the numeric codes of the enumerant constants — is specified and verified
//! here.

use vstd::prelude::*;

pub mod gl43;
pub mod types;

verus! {

/// The one recoverable failure of this layer: a required entry-point symbol
/// resolved to the null address. Carries the symbol name that failed.
#[derive(Debug)]
pub enum Error {
    FailedToLoad(String),
}

impl Error {
    /// The name of the symbol that could not be resolved.
    pub fn symbol(&self) -> (r: &str)
        ensures
            self matches Error::FailedToLoad(s) && r@ == s@,
    {
        match self {
            Error::FailedToLoad(s) => s.as_str(),
        }
    }
}

/// Resolves one named entry point through the caller-supplied lookup
/// function. An address of zero is the null sentinel: resolution fails with
/// [`Error::FailedToLoad`] carrying the symbol name; any other address is
/// returned as found. The lookup function itself is the only source of
/// addresses — this layer adds nothing but the null check.
pub fn resolve<F: Fn(&'static str) -> usize>(loader: &F, symbol: &'static str) -> (r: Result<
    usize,
    Error,
>)
    requires
        call_requires(*loader, (symbol,)),
    ensures
        match r {
            Ok(addr) => addr != 0 && call_ensures(*loader, (symbol,), addr),
            Err(e) => e matches Error::FailedToLoad(s) && s@ == symbol@ && call_ensures(
                *loader,
                (symbol,),
                0usize,
            ),
        },
{
    let addr = loader(symbol);
    if addr == 0 {
        Err(Error::FailedToLoad(String::from_str(symbol)))
    } else {
        Ok(addr)
    }
}

} // verus!
