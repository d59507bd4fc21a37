//! One loadable unit: what it exports, what it needs bound, and the units it
//! depends on.

use crate::dispatch_table::DispatchTable;
use crate::module_info::ModuleInfo;
use crate::type_lut::TypeLut;
use vstd::prelude::*;

verus! {

/// One loadable unit, the grain at which the host loads and relinks.
#[derive(Debug)]
pub struct AssemblyInfo<'a> {
    /// What the unit exports.
    pub symbols: ModuleInfo<'a>,
    /// The functions the unit needs bound.
    pub dispatch_table: DispatchTable<'a>,
    /// The types the unit needs bound.
    pub type_lut: TypeLut<'a>,
    /// Where the names of the units this one depends on start.
    pub dependencies: &'a [&'a str],
    /// How many units this one depends on.
    pub num_dependencies: u32,
}

impl<'a> AssemblyInfo<'a> {
    /// Whether the array of dependencies holds as many names as the count
    /// says.
    pub open spec fn wf(&self) -> bool {
        self.num_dependencies as int <= self.dependencies@.len()
    }

    /// Whether the unit and everything it holds are well formed.
    pub open spec fn valid(&self) -> bool {
        &&& self.wf()
        &&& self.symbols.valid()
        &&& self.dispatch_table.valid()
        &&& self.type_lut.wf()
    }

    /// Tests whether the array of dependencies holds as many names as the
    /// count says.
    pub fn is_wf(&self) -> (ok: bool)
        ensures
            ok == self.wf(),
    {
        self.num_dependencies as usize <= self.dependencies.len()
    }

    /// Tests whether the unit and everything it holds are well formed.
    pub fn is_valid(&self) -> (ok: bool)
        ensures
            ok == self.valid(),
    {
        self.is_wf() && self.symbols.is_valid() && self.dispatch_table.is_valid()
            && self.type_lut.is_wf()
    }

    /// The names of the units this one depends on, in order.
    pub open spec fn depends_on(&self) -> Seq<&'a str> {
        self.dependencies@.take(self.num_dependencies as int)
    }

    /// A unit that depends on all of `dependencies`, if they can be counted
    /// in 32 bits.
    pub fn new(
        symbols: ModuleInfo<'a>,
        dispatch_table: DispatchTable<'a>,
        type_lut: TypeLut<'a>,
        dependencies: &'a [&'a str],
    ) -> (assembly: Option<Self>)
        ensures
            assembly is Some <==> dependencies@.len() <= u32::MAX,
            assembly is Some ==> {
                let assembly = assembly.unwrap();
                &&& assembly.symbols == symbols
                &&& assembly.dispatch_table == dispatch_table
                &&& assembly.type_lut == type_lut
                &&& assembly.dependencies == dependencies
                &&& assembly.num_dependencies == dependencies@.len()
                &&& assembly.wf()
                &&& assembly.depends_on() == dependencies@
            },
    {
        if dependencies.len() <= u32::MAX as usize {
            let num_dependencies = dependencies.len() as u32;
            Some(AssemblyInfo { symbols, dispatch_table, type_lut, dependencies, num_dependencies })
        } else {
            None
        }
    }

    /// The names of the units this one depends on, in order. A count of zero
    /// gives an empty slice.
    pub fn dependencies(&self) -> (dependencies: &'a [&'a str])
        requires
            self.wf(),
        ensures
            dependencies@ == self.depends_on(),
    {
        vstd::slice::slice_subrange(self.dependencies, 0, self.num_dependencies as usize)
    }
}

} // verus!
