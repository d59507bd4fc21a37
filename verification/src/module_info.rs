//! What a unit exports: its functions and its types.

use crate::function_info::FunctionDefinition;
use crate::type_info::TypeDefinition;
use vstd::prelude::*;

verus! {

/// The functions and types that a unit exports. The arrays belong to the
/// loaded unit; this is a view over them.
#[derive(Clone, Copy, Debug)]
pub struct ModuleInfo<'a> {
    /// The path of the unit.
    pub path: &'a str,
    /// Where the exported functions start.
    pub functions: &'a [FunctionDefinition<'a>],
    /// Where the exported types start.
    pub types: &'a [TypeDefinition<'a>],
    /// How many functions the unit exports.
    pub num_functions: u32,
    /// How many types the unit exports.
    pub num_types: u32,
}

impl<'a> ModuleInfo<'a> {
    /// Whether both arrays hold as many items as their counts say.
    pub open spec fn wf(&self) -> bool {
        &&& self.num_functions as int <= self.functions@.len()
        &&& self.num_types as int <= self.types@.len()
    }

    /// Whether the view and each function and type that it exports are well
    /// formed.
    pub open spec fn valid(&self) -> bool {
        &&& self.wf()
        &&& forall|i: int| 0 <= i < self.num_functions ==> (#[trigger] self.functions@[i]).wf()
        &&& forall|i: int| 0 <= i < self.num_types ==> (#[trigger] self.types@[i]).wf()
    }

    /// Tests whether both arrays hold as many items as their counts say.
    pub fn is_wf(&self) -> (ok: bool)
        ensures
            ok == self.wf(),
    {
        self.num_functions as usize <= self.functions.len() && self.num_types as usize
            <= self.types.len()
    }

    /// Tests whether the view and each function and type that it exports are
    /// well formed.
    pub fn is_valid(&self) -> (ok: bool)
        ensures
            ok == self.valid(),
    {
        if !self.is_wf() {
            return false;
        }
        let num_functions = self.num_functions as usize;
        let mut i: usize = 0;
        while i < num_functions
            invariant
                self.wf(),
                num_functions == self.num_functions,
                i <= num_functions,
                forall|k: int| 0 <= k < i ==> (#[trigger] self.functions@[k]).wf(),
            decreases num_functions - i,
        {
            if !self.functions[i].is_wf() {
                return false;
            }
            i += 1;
        }
        let num_types = self.num_types as usize;
        let mut j: usize = 0;
        while j < num_types
            invariant
                self.wf(),
                num_types == self.num_types,
                j <= num_types,
                forall|k: int| 0 <= k < self.num_functions ==> (#[trigger] self.functions@[k]).wf(),
                forall|k: int| 0 <= k < j ==> (#[trigger] self.types@[k]).wf(),
            decreases num_types - j,
        {
            if !self.types[j].is_wf() {
                return false;
            }
            j += 1;
        }
        true
    }

    /// The exported functions, in order.
    pub open spec fn exported_functions(&self) -> Seq<FunctionDefinition<'a>> {
        self.functions@.take(self.num_functions as int)
    }

    /// The exported types, in order.
    pub open spec fn exported_types(&self) -> Seq<TypeDefinition<'a>> {
        self.types@.take(self.num_types as int)
    }

    /// A view over all of `functions` and `types`, if each can be counted in
    /// 32 bits.
    pub fn new(
        path: &'a str,
        functions: &'a [FunctionDefinition<'a>],
        types: &'a [TypeDefinition<'a>],
    ) -> (module: Option<Self>)
        ensures
            module is Some <==> functions@.len() <= u32::MAX && types@.len() <= u32::MAX,
            module is Some ==> {
                let module = module.unwrap();
                &&& module == (ModuleInfo {
                    path,
                    functions,
                    types,
                    num_functions: functions@.len() as u32,
                    num_types: types@.len() as u32,
                })
                &&& module.wf()
                &&& module.exported_functions() == functions@
                &&& module.exported_types() == types@
            },
    {
        if functions.len() <= u32::MAX as usize && types.len() <= u32::MAX as usize {
            let num_functions = functions.len() as u32;
            let num_types = types.len() as u32;
            Some(ModuleInfo { path, functions, types, num_functions, num_types })
        } else {
            None
        }
    }

    /// The path of the unit.
    pub fn path(&self) -> (path: &'a str)
        ensures
            path@ == self.path@,
    {
        self.path
    }

    /// The exported functions, in order. A count of zero gives an empty
    /// slice.
    pub fn functions(&self) -> (functions: &'a [FunctionDefinition<'a>])
        requires
            self.wf(),
        ensures
            functions@ == self.exported_functions(),
    {
        vstd::slice::slice_subrange(self.functions, 0, self.num_functions as usize)
    }

    /// The exported types, in order. A count of zero gives an empty slice.
    pub fn types(&self) -> (types: &'a [TypeDefinition<'a>])
        requires
            self.wf(),
        ensures
            types@ == self.exported_types(),
    {
        vstd::slice::slice_subrange(self.types, 0, self.num_types as usize)
    }
}

} // verus!
