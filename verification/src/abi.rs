//! The fixed entry-point contract between the host and an application module.
//!
//! A module is usable only if it exports exactly these four symbols; the
//! loader resolves them by name, so the names here and the names the module
//! exports must agree letter for letter.

use vstd::prelude::*;

verus! {

/// The four entry points every application module must export.
#[derive(Clone, Copy, PartialEq, Eq, Structural, Debug)]
pub enum EntryPoint {
    /// `create(window) -> handle`: allocate the application instance.
    Create,
    /// `destroy(handle)`: reclaim the instance; the handle becomes invalid.
    Destroy,
    /// `update(handle)`: advance one frame and submit it.
    Update,
    /// `on_resize(handle, width, height)`: adjust size-dependent resources.
    OnResize,
}

/// The exported symbol name of each entry point, as a character sequence.
pub open spec fn spec_symbol_name(ep: EntryPoint) -> Seq<char> {
    match ep {
        EntryPoint::Create => "lux_app_new"@,
        EntryPoint::Destroy => "lux_app_drop"@,
        EntryPoint::Update => "lux_app_update"@,
        EntryPoint::OnResize => "lux_app_on_resize"@,
    }
}

/// The exported symbol name the loader must look up for `ep`.
pub fn symbol_name(ep: EntryPoint) -> (r: &'static str)
    ensures
        r@ == spec_symbol_name(ep),
{
    match ep {
        EntryPoint::Create => "lux_app_new",
        EntryPoint::Destroy => "lux_app_drop",
        EntryPoint::Update => "lux_app_update",
        EntryPoint::OnResize => "lux_app_on_resize",
    }
}

/// The contract gives the four entry points pairwise distinct exported
/// names, so resolving one symbol can never yield another entry point.
pub proof fn lemma_symbol_names_distinct(a: EntryPoint, b: EntryPoint)
    ensures
        a != b ==> spec_symbol_name(a) != spec_symbol_name(b),
{
    reveal_strlit("lux_app_new");
    reveal_strlit("lux_app_drop");
    reveal_strlit("lux_app_update");
    reveal_strlit("lux_app_on_resize");
    assert("lux_app_new"@.len() == 11);
    assert("lux_app_drop"@.len() == 12);
    assert("lux_app_update"@.len() == 14);
    assert("lux_app_on_resize"@.len() == 17);
}

} // verus!
