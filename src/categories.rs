//! One entry point per identifier category of the grammar, each an alias
//! of the general identifier or of the hierarchical identifier.
use crate::hierarchy::{hierarchical_identifier, hierarchical_identifier_spec};
use crate::lexical::{identifier, identifier_spec};
use crate::outcome::{agrees, PResult};
use crate::syntax::{HierarchicalIdentifier, Identifier};
use vstd::prelude::*;

verus! {

/// An array identifier.
pub fn array_identifier<'a>(s: &'a str) -> (r: PResult<'a, Identifier<'a>>)
    ensures
        agrees(s@, r, identifier_spec(s@)),
{
    identifier(s)
}

/// A block identifier.
pub fn block_identifier<'a>(s: &'a str) -> (r: PResult<'a, Identifier<'a>>)
    ensures
        agrees(s@, r, identifier_spec(s@)),
{
    identifier(s)
}

/// A bin identifier.
pub fn bin_identifier<'a>(s: &'a str) -> (r: PResult<'a, Identifier<'a>>)
    ensures
        agrees(s@, r, identifier_spec(s@)),
{
    identifier(s)
}

/// A cell identifier.
pub fn cell_identifier<'a>(s: &'a str) -> (r: PResult<'a, Identifier<'a>>)
    ensures
        agrees(s@, r, identifier_spec(s@)),
{
    identifier(s)
}

/// A checker identifier.
pub fn checker_identifier<'a>(s: &'a str) -> (r: PResult<'a, Identifier<'a>>)
    ensures
        agrees(s@, r, identifier_spec(s@)),
{
    identifier(s)
}

/// A class identifier.
pub fn class_identifier<'a>(s: &'a str) -> (r: PResult<'a, Identifier<'a>>)
    ensures
        agrees(s@, r, identifier_spec(s@)),
{
    identifier(s)
}

/// A class variable identifier.
pub fn class_variable_identifier<'a>(s: &'a str) -> (r: PResult<'a, Identifier<'a>>)
    ensures
        agrees(s@, r, identifier_spec(s@)),
{
    variable_identifier(s)
}

/// A clocking identifier.
pub fn clocking_identifier<'a>(s: &'a str) -> (r: PResult<'a, Identifier<'a>>)
    ensures
        agrees(s@, r, identifier_spec(s@)),
{
    identifier(s)
}

/// A config identifier.
pub fn config_identifier<'a>(s: &'a str) -> (r: PResult<'a, Identifier<'a>>)
    ensures
        agrees(s@, r, identifier_spec(s@)),
{
    identifier(s)
}

/// A const identifier.
pub fn const_identifier<'a>(s: &'a str) -> (r: PResult<'a, Identifier<'a>>)
    ensures
        agrees(s@, r, identifier_spec(s@)),
{
    identifier(s)
}

/// A constraint identifier.
pub fn constraint_identifier<'a>(s: &'a str) -> (r: PResult<'a, Identifier<'a>>)
    ensures
        agrees(s@, r, identifier_spec(s@)),
{
    identifier(s)
}

/// A covergroup identifier.
pub fn covergroup_identifier<'a>(s: &'a str) -> (r: PResult<'a, Identifier<'a>>)
    ensures
        agrees(s@, r, identifier_spec(s@)),
{
    identifier(s)
}

/// A covergroup variable identifier.
pub fn covergroup_variable_identifier<'a>(s: &'a str) -> (r: PResult<'a, Identifier<'a>>)
    ensures
        agrees(s@, r, identifier_spec(s@)),
{
    variable_identifier(s)
}

/// A cover point identifier.
pub fn cover_point_identifier<'a>(s: &'a str) -> (r: PResult<'a, Identifier<'a>>)
    ensures
        agrees(s@, r, identifier_spec(s@)),
{
    identifier(s)
}

/// A cross identifier.
pub fn cross_identifier<'a>(s: &'a str) -> (r: PResult<'a, Identifier<'a>>)
    ensures
        agrees(s@, r, identifier_spec(s@)),
{
    identifier(s)
}

/// A dynamic array variable identifier.
pub fn dynamic_array_variable_identifier<'a>(s: &'a str) -> (r: PResult<'a, Identifier<'a>>)
    ensures
        agrees(s@, r, identifier_spec(s@)),
{
    variable_identifier(s)
}

/// An enum identifier.
pub fn enum_identifier<'a>(s: &'a str) -> (r: PResult<'a, Identifier<'a>>)
    ensures
        agrees(s@, r, identifier_spec(s@)),
{
    identifier(s)
}

/// A formal identifier.
pub fn formal_identifier<'a>(s: &'a str) -> (r: PResult<'a, Identifier<'a>>)
    ensures
        agrees(s@, r, identifier_spec(s@)),
{
    identifier(s)
}

/// A formal port identifier.
pub fn formal_port_identifier<'a>(s: &'a str) -> (r: PResult<'a, Identifier<'a>>)
    ensures
        agrees(s@, r, identifier_spec(s@)),
{
    identifier(s)
}

/// A function identifier.
pub fn function_identifier<'a>(s: &'a str) -> (r: PResult<'a, Identifier<'a>>)
    ensures
        agrees(s@, r, identifier_spec(s@)),
{
    identifier(s)
}

/// A generate block identifier.
pub fn generate_block_identifier<'a>(s: &'a str) -> (r: PResult<'a, Identifier<'a>>)
    ensures
        agrees(s@, r, identifier_spec(s@)),
{
    identifier(s)
}

/// A genvar identifier.
pub fn genvar_identifier<'a>(s: &'a str) -> (r: PResult<'a, Identifier<'a>>)
    ensures
        agrees(s@, r, identifier_spec(s@)),
{
    identifier(s)
}

/// A hierarchical array identifier.
pub fn hierarchical_array_identifier<'a>(s: &'a str) -> (r: PResult<'a, HierarchicalIdentifier<'a>>)
    ensures
        agrees(s@, r, hierarchical_identifier_spec(s@)),
{
    hierarchical_identifier(s)
}

/// A hierarchical block identifier.
pub fn hierarchical_block_identifier<'a>(s: &'a str) -> (r: PResult<'a, HierarchicalIdentifier<'a>>)
    ensures
        agrees(s@, r, hierarchical_identifier_spec(s@)),
{
    hierarchical_identifier(s)
}

/// A hierarchical event identifier.
pub fn hierarchical_event_identifier<'a>(s: &'a str) -> (r: PResult<'a, HierarchicalIdentifier<'a>>)
    ensures
        agrees(s@, r, hierarchical_identifier_spec(s@)),
{
    hierarchical_identifier(s)
}

/// A hierarchical net identifier.
pub fn hierarchical_net_identifier<'a>(s: &'a str) -> (r: PResult<'a, HierarchicalIdentifier<'a>>)
    ensures
        agrees(s@, r, hierarchical_identifier_spec(s@)),
{
    hierarchical_identifier(s)
}

/// A hierarchical parameter identifier.
pub fn hierarchical_parameter_identifier<'a>(s: &'a str) -> (r: PResult<'a, HierarchicalIdentifier<'a>>)
    ensures
        agrees(s@, r, hierarchical_identifier_spec(s@)),
{
    hierarchical_identifier(s)
}

/// A hierarchical property identifier.
pub fn hierarchical_property_identifier<'a>(s: &'a str) -> (r: PResult<'a, HierarchicalIdentifier<'a>>)
    ensures
        agrees(s@, r, hierarchical_identifier_spec(s@)),
{
    hierarchical_identifier(s)
}

/// A hierarchical sequence identifier.
pub fn hierarchical_sequence_identifier<'a>(s: &'a str) -> (r: PResult<'a, HierarchicalIdentifier<'a>>)
    ensures
        agrees(s@, r, hierarchical_identifier_spec(s@)),
{
    hierarchical_identifier(s)
}

/// A hierarchical task identifier.
pub fn hierarchical_task_identifier<'a>(s: &'a str) -> (r: PResult<'a, HierarchicalIdentifier<'a>>)
    ensures
        agrees(s@, r, hierarchical_identifier_spec(s@)),
{
    hierarchical_identifier(s)
}

/// A hierarchical tf identifier.
pub fn hierarchical_tf_identifier<'a>(s: &'a str) -> (r: PResult<'a, HierarchicalIdentifier<'a>>)
    ensures
        agrees(s@, r, hierarchical_identifier_spec(s@)),
{
    hierarchical_identifier(s)
}

/// A hierarchical variable identifier.
pub fn hierarchical_variable_identifier<'a>(s: &'a str) -> (r: PResult<'a, HierarchicalIdentifier<'a>>)
    ensures
        agrees(s@, r, hierarchical_identifier_spec(s@)),
{
    hierarchical_identifier(s)
}

/// An index variable identifier.
pub fn index_variable_identifier<'a>(s: &'a str) -> (r: PResult<'a, Identifier<'a>>)
    ensures
        agrees(s@, r, identifier_spec(s@)),
{
    identifier(s)
}

/// An interface identifier.
pub fn interface_identifier<'a>(s: &'a str) -> (r: PResult<'a, Identifier<'a>>)
    ensures
        agrees(s@, r, identifier_spec(s@)),
{
    identifier(s)
}

/// An interface instance identifier.
pub fn interface_instance_identifier<'a>(s: &'a str) -> (r: PResult<'a, Identifier<'a>>)
    ensures
        agrees(s@, r, identifier_spec(s@)),
{
    identifier(s)
}

/// An inout port identifier.
pub fn inout_port_identifier<'a>(s: &'a str) -> (r: PResult<'a, Identifier<'a>>)
    ensures
        agrees(s@, r, identifier_spec(s@)),
{
    identifier(s)
}

/// An input port identifier.
pub fn input_port_identifier<'a>(s: &'a str) -> (r: PResult<'a, Identifier<'a>>)
    ensures
        agrees(s@, r, identifier_spec(s@)),
{
    identifier(s)
}

/// An instance identifier.
pub fn instance_identifier<'a>(s: &'a str) -> (r: PResult<'a, Identifier<'a>>)
    ensures
        agrees(s@, r, identifier_spec(s@)),
{
    identifier(s)
}

/// A library identifier.
pub fn library_identifier<'a>(s: &'a str) -> (r: PResult<'a, Identifier<'a>>)
    ensures
        agrees(s@, r, identifier_spec(s@)),
{
    identifier(s)
}

/// A member identifier.
pub fn member_identifier<'a>(s: &'a str) -> (r: PResult<'a, Identifier<'a>>)
    ensures
        agrees(s@, r, identifier_spec(s@)),
{
    identifier(s)
}

/// A method identifier.
pub fn method_identifier<'a>(s: &'a str) -> (r: PResult<'a, Identifier<'a>>)
    ensures
        agrees(s@, r, identifier_spec(s@)),
{
    identifier(s)
}

/// A modport identifier.
pub fn modport_identifier<'a>(s: &'a str) -> (r: PResult<'a, Identifier<'a>>)
    ensures
        agrees(s@, r, identifier_spec(s@)),
{
    identifier(s)
}

/// A module identifier.
pub fn module_identifier<'a>(s: &'a str) -> (r: PResult<'a, Identifier<'a>>)
    ensures
        agrees(s@, r, identifier_spec(s@)),
{
    identifier(s)
}

/// A net identifier.
pub fn net_identifier<'a>(s: &'a str) -> (r: PResult<'a, Identifier<'a>>)
    ensures
        agrees(s@, r, identifier_spec(s@)),
{
    identifier(s)
}

/// An output port identifier.
pub fn output_port_identifier<'a>(s: &'a str) -> (r: PResult<'a, Identifier<'a>>)
    ensures
        agrees(s@, r, identifier_spec(s@)),
{
    identifier(s)
}

/// A package identifier.
pub fn package_identifier<'a>(s: &'a str) -> (r: PResult<'a, Identifier<'a>>)
    ensures
        agrees(s@, r, identifier_spec(s@)),
{
    identifier(s)
}

/// A parameter identifier.
pub fn parameter_identifier<'a>(s: &'a str) -> (r: PResult<'a, Identifier<'a>>)
    ensures
        agrees(s@, r, identifier_spec(s@)),
{
    identifier(s)
}

/// A port identifier.
pub fn port_identifier<'a>(s: &'a str) -> (r: PResult<'a, Identifier<'a>>)
    ensures
        agrees(s@, r, identifier_spec(s@)),
{
    identifier(s)
}

/// A production identifier.
pub fn production_identifier<'a>(s: &'a str) -> (r: PResult<'a, Identifier<'a>>)
    ensures
        agrees(s@, r, identifier_spec(s@)),
{
    identifier(s)
}

/// A program identifier.
pub fn program_identifier<'a>(s: &'a str) -> (r: PResult<'a, Identifier<'a>>)
    ensures
        agrees(s@, r, identifier_spec(s@)),
{
    identifier(s)
}

/// A property identifier.
pub fn property_identifier<'a>(s: &'a str) -> (r: PResult<'a, Identifier<'a>>)
    ensures
        agrees(s@, r, identifier_spec(s@)),
{
    identifier(s)
}

/// A sequence identifier.
pub fn sequence_identifier<'a>(s: &'a str) -> (r: PResult<'a, Identifier<'a>>)
    ensures
        agrees(s@, r, identifier_spec(s@)),
{
    identifier(s)
}

/// A signal identifier.
pub fn signal_identifier<'a>(s: &'a str) -> (r: PResult<'a, Identifier<'a>>)
    ensures
        agrees(s@, r, identifier_spec(s@)),
{
    identifier(s)
}

/// A specparam identifier.
pub fn specparam_identifier<'a>(s: &'a str) -> (r: PResult<'a, Identifier<'a>>)
    ensures
        agrees(s@, r, identifier_spec(s@)),
{
    identifier(s)
}

/// A task identifier.
pub fn task_identifier<'a>(s: &'a str) -> (r: PResult<'a, Identifier<'a>>)
    ensures
        agrees(s@, r, identifier_spec(s@)),
{
    identifier(s)
}

/// A tf identifier.
pub fn tf_identifier<'a>(s: &'a str) -> (r: PResult<'a, Identifier<'a>>)
    ensures
        agrees(s@, r, identifier_spec(s@)),
{
    identifier(s)
}

/// A terminal identifier.
pub fn terminal_identifier<'a>(s: &'a str) -> (r: PResult<'a, Identifier<'a>>)
    ensures
        agrees(s@, r, identifier_spec(s@)),
{
    identifier(s)
}

/// A topmodule identifier.
pub fn topmodule_identifier<'a>(s: &'a str) -> (r: PResult<'a, Identifier<'a>>)
    ensures
        agrees(s@, r, identifier_spec(s@)),
{
    identifier(s)
}

/// A type identifier.
pub fn type_identifier<'a>(s: &'a str) -> (r: PResult<'a, Identifier<'a>>)
    ensures
        agrees(s@, r, identifier_spec(s@)),
{
    identifier(s)
}

/// An udp identifier.
pub fn udp_identifier<'a>(s: &'a str) -> (r: PResult<'a, Identifier<'a>>)
    ensures
        agrees(s@, r, identifier_spec(s@)),
{
    identifier(s)
}

/// A variable identifier.
pub fn variable_identifier<'a>(s: &'a str) -> (r: PResult<'a, Identifier<'a>>)
    ensures
        agrees(s@, r, identifier_spec(s@)),
{
    identifier(s)
}

} // verus!
