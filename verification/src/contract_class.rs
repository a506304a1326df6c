//! Compiled contract classes and the lookup of their entry points.

use crate::felt::Felt;
use crate::vec_map::{ExecEq, VecMap};
use cairo_vm::types::program::Program;
use vstd::prelude::*;

verus! {

/// `cairo_vm::types::program::Program`, the executable body of a class as
/// the virtual machine loads it.  Nothing of its inside is known here.
#[verifier::external_type_specification]
#[verifier::external_body]
pub struct ExProgram(Program);

/// `Program::clone`, which the type derives: the copy equals the program copied.
pub assume_specification[ <Program as Clone>::clone ](program: &Program) -> (r: Program)
    ensures
        r == *program,
;

/// The ways in which an entry point may be invoked.
#[derive(Clone, Copy, Debug, PartialEq, Eq, Hash, Structural)]
pub enum EntryPointType {
    External,
    L1Handler,
    Constructor,
    Library,
}

/// What identifies an entry point within a class.
#[derive(Clone, Copy, Debug, PartialEq, Eq, Hash, Structural)]
pub struct EntryPointKey {
    pub entry_point_type: EntryPointType,
    pub selector: Felt,
}

impl ExecEq for EntryPointKey {
    fn exec_eq(&self, other: &Self) -> (r: bool) {
        self.entry_point_type == other.entry_point_type && self.selector.exec_eq(&other.selector)
    }
}

/// A compiled class: its executable body and, per kind of entry point, the
/// code offset of each selector.
#[derive(Debug)]
pub struct ContractClass {
    pub program: Program,
    pub entry_points: VecMap<EntryPointKey, usize>,
}

impl ContractClass {
    /// A class with the given body and no entry point.
    pub fn new(program: Program) -> (r: Self)
        ensures
            r.program == program,
            r.entry_points@ == Map::<EntryPointKey, usize>::empty(),
    {
        ContractClass { program, entry_points: VecMap::new() }
    }

    /// Declares the code offset of `selector` for the given kind of entry
    /// point, replacing an earlier declaration.
    pub fn add_entry_point(&mut self, entry_point_type: EntryPointType, selector: Felt, offset: usize)
        ensures
            final(self).program == old(self).program,
            final(self).entry_points@ == old(self).entry_points@.insert(
                (EntryPointKey { entry_point_type, selector }),
                offset,
            ),
    {
        self.entry_points.insert(EntryPointKey { entry_point_type, selector }, offset);
    }

    /// The code offset that the class declares for `selector` among the
    /// entry points of the given kind, if any.
    pub open spec fn spec_entry_point_offset(&self, entry_point_type: EntryPointType, selector: Felt) -> Option<
        usize,
    > {
        if self.entry_points@.contains_key((EntryPointKey { entry_point_type, selector })) {
            Some(self.entry_points@[(EntryPointKey { entry_point_type, selector })])
        } else {
            None
        }
    }

    /// The code offset of `selector` among the entry points of the given
    /// kind, if the class declares it.
    pub fn entry_point_offset(&self, entry_point_type: EntryPointType, selector: Felt) -> (r: Option<usize>)
        ensures
            r == self.spec_entry_point_offset(entry_point_type, selector),
    {
        match self.entry_points.get(&EntryPointKey { entry_point_type, selector }) {
            Some(offset) => Some(*offset),
            None => None,
        }
    }
}

impl Clone for ContractClass {
    fn clone(&self) -> (r: Self)
        ensures
            r.program == self.program,
            r.entry_points@ == self.entry_points@,
    {
        ContractClass { program: self.program.clone(), entry_points: self.entry_points.duplicate() }
    }
}

} // verus!
