//! The module loader's resolution rule.
//!
//! The platform layer maps the shared library at the fixed load path and
//! looks up the four contract symbols by name; what it found is reported
//! here as plain values.  This module decides whether the load attempt
//! yields a usable module: the file must have mapped, and all four entry
//! points must be present — partial contracts are not supported, a single
//! missing symbol fails the whole load.

use vstd::prelude::*;

use crate::abi::EntryPoint;

verus! {

/// Outcome of the platform call that maps the shared library file.
#[derive(Clone, Copy, PartialEq, Eq, Structural, Debug)]
pub enum MapOutcome {
    /// The file mapped into the process.
    Mapped,
    /// The file was missing or unreadable.
    NotFound,
    /// The file mapped call rejected the file as not a loadable library.
    InvalidFormat,
}

/// Which of the four contract symbols the platform resolved by name.
/// Meaningful only when the file mapped.
#[derive(Clone, Copy, PartialEq, Eq, Structural, Debug)]
pub struct SymbolReport {
    pub create: bool,
    pub destroy: bool,
    pub update: bool,
    pub on_resize: bool,
}

/// Everything the platform reports about one load attempt.
#[derive(Clone, Copy, PartialEq, Eq, Structural, Debug)]
pub struct LoadReport {
    pub mapped: MapOutcome,
    pub symbols: SymbolReport,
}

/// Why a load attempt failed.
#[derive(Clone, Copy, PartialEq, Eq, Structural, Debug)]
pub enum LoadError {
    /// The library file was missing or unreadable.
    NotFound,
    /// The file was not a loadable library (for instance, a copy that
    /// raced with an in-progress rewrite of the build output).
    InvalidFormat,
    /// The named entry point is not exported by the module: a contract
    /// violation, fatal with no fallback.
    MissingSymbol(EntryPoint),
}

/// All four contract symbols resolved.
pub open spec fn spec_all_symbols(s: SymbolReport) -> bool {
    s.create && s.destroy && s.update && s.on_resize
}

/// The resolution rule: a report yields a usable module exactly when the
/// file mapped and every entry point resolved; otherwise the error names
/// the cause, and for a missing symbol the first absent entry point in
/// the fixed order create, destroy, update, on_resize.
pub open spec fn spec_resolve(r: LoadReport) -> Result<(), LoadError> {
    if r.mapped == MapOutcome::NotFound {
        Err(LoadError::NotFound)
    } else if r.mapped == MapOutcome::InvalidFormat {
        Err(LoadError::InvalidFormat)
    } else if !r.symbols.create {
        Err(LoadError::MissingSymbol(EntryPoint::Create))
    } else if !r.symbols.destroy {
        Err(LoadError::MissingSymbol(EntryPoint::Destroy))
    } else if !r.symbols.update {
        Err(LoadError::MissingSymbol(EntryPoint::Update))
    } else if !r.symbols.on_resize {
        Err(LoadError::MissingSymbol(EntryPoint::OnResize))
    } else {
        Ok(())
    }
}

/// Decide one load attempt: `Ok` exactly when the file mapped and all
/// four entry points resolved, the precise error otherwise.
pub fn resolve(report: &LoadReport) -> (r: Result<(), LoadError>)
    ensures
        r == spec_resolve(*report),
        r is Ok <==> report.mapped == MapOutcome::Mapped && spec_all_symbols(report.symbols),
{
    match report.mapped {
        MapOutcome::NotFound => Err(LoadError::NotFound),
        MapOutcome::InvalidFormat => Err(LoadError::InvalidFormat),
        MapOutcome::Mapped => {
            if !report.symbols.create {
                Err(LoadError::MissingSymbol(EntryPoint::Create))
            } else if !report.symbols.destroy {
                Err(LoadError::MissingSymbol(EntryPoint::Destroy))
            } else if !report.symbols.update {
                Err(LoadError::MissingSymbol(EntryPoint::Update))
            } else if !report.symbols.on_resize {
                Err(LoadError::MissingSymbol(EntryPoint::OnResize))
            } else {
                Ok(())
            }
        }
    }
}

} // verus!
