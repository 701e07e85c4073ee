//! The shape under which a handle is described to readers of a contract's
//! interface: that of the unit type, as borsh's schema has it.

use vstd::prelude::*;
use std::collections::HashMap;

verus! {

/// The structure of a type in a borsh schema. Nothing here looks inside one.
#[verifier::external_type_specification]
#[verifier::external_body]
pub struct ExDefinition(borsh::schema::Definition);

/// The name under which borsh's schema knows the unit type.
pub open spec fn unit_declaration_name() -> Seq<char> {
    "nil"@
}

/// Calls borsh's `BorshSchema::declaration` for the unit type `()`. That
/// function takes nothing and returns the string `nil`, which is what the
/// contract says.
#[verifier::external_body]
pub(crate) fn unit_declaration() -> (name: String)
    ensures
        name@ == unit_declaration_name(),
{
    <() as borsh::BorshSchema>::declaration()
}

/// Calls borsh's `BorshSchema::add_definitions_recursively` for the unit type
/// `()`. Its body is empty: the unit type adds no definition, so the map comes
/// back as it went in.
#[verifier::external_body]
pub(crate) fn unit_add_definitions(
    definitions: &mut HashMap<String, borsh::schema::Definition>,
)
    ensures
        final(definitions)@ == old(definitions)@,
{
    <() as borsh::BorshSchema>::add_definitions_recursively(definitions)
}

} // verus!
