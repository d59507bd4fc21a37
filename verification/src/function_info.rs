//! What a unit says of its functions: signature, prototype and definition.

use crate::primitive::primitive_type_id;
use crate::type_id::{HasStaticTypeId, TypeId};
use vstd::prelude::*;

verus! {

/// The identity that stands for "no value": a function that returns nothing
/// carries it in place of a return type.
pub open spec fn void_type_id() -> TypeId<'static> {
    primitive_type_id("core::empty"@)
}

/// The types a function takes and the type it returns.
#[derive(Clone, Copy, Debug)]
pub struct FunctionSignature<'a> {
    /// Where the argument types start.
    pub arg_types: &'a [TypeId<'a>],
    /// The return type, or the identity that stands for "no value".
    pub return_type: TypeId<'a>,
    /// How many argument types there are.
    pub num_arg_types: u16,
}

impl<'a> FunctionSignature<'a> {
    /// Whether the place where the argument types start holds as many as the
    /// count says.
    pub open spec fn wf(&self) -> bool {
        self.num_arg_types as int <= self.arg_types@.len()
    }

    /// Tests whether the signature is well formed.
    pub fn is_wf(&self) -> (ok: bool)
        ensures
            ok == self.wf(),
    {
        self.num_arg_types as usize <= self.arg_types.len()
    }

    /// The argument types, in order.
    pub open spec fn args(&self) -> Seq<TypeId<'a>> {
        self.arg_types@.take(self.num_arg_types as int)
    }

    /// The return type unless it is `absent`.
    pub open spec fn returns_unless(&self, absent: TypeId<'a>) -> Option<TypeId<'a>> {
        if self.return_type == absent {
            None
        } else {
            Some(self.return_type)
        }
    }

    /// A signature over all of `arg_types`, if they can be counted in 16 bits.
    pub fn new(arg_types: &'a [TypeId<'a>], return_type: TypeId<'a>) -> (signature: Option<Self>)
        ensures
            signature is Some <==> arg_types@.len() <= u16::MAX,
            signature is Some ==> signature.unwrap() == (FunctionSignature {
                arg_types,
                return_type,
                num_arg_types: arg_types@.len() as u16,
            }),
            signature is Some ==> signature.unwrap().wf() && signature.unwrap().args()
                == arg_types@,
    {
        if arg_types.len() <= u16::MAX as usize {
            let num_arg_types = arg_types.len() as u16;
            Some(FunctionSignature { arg_types, return_type, num_arg_types })
        } else {
            None
        }
    }

    /// The argument types, in order. A count of zero gives an empty slice
    /// whatever `arg_types` holds.
    pub fn arg_types(&self) -> (types: &'a [TypeId<'a>])
        requires
            self.wf(),
        ensures
            types@ == self.args(),
            self.num_arg_types == 0 ==> types@.len() == 0,
    {
        vstd::slice::slice_subrange(self.arg_types, 0, self.num_arg_types as usize)
    }

    /// The return type, or `None` where the signature carries `absent` in its
    /// place.
    pub fn return_type_unless(&self, absent: &TypeId<'a>) -> (ret: Option<TypeId<'a>>)
        ensures
            ret == self.returns_unless(*absent),
    {
        if *absent == self.return_type {
            None
        } else {
            Some(self.return_type)
        }
    }

    /// The return type, or `None` for a function that returns nothing.
    pub fn return_type(&self) -> (ret: Option<TypeId<'a>>)
        ensures
            ret == self.returns_unless(void_type_id()),
    {
        let void = <() as HasStaticTypeId>::type_id();
        self.return_type_unless(&void)
    }
}

/// A function's name and signature: what a caller needs to know to bind it.
#[derive(Clone, Copy, Debug)]
pub struct FunctionPrototype<'a> {
    /// The function's name.
    pub name: &'a str,
    /// The function's signature.
    pub signature: FunctionSignature<'a>,
}

impl<'a> FunctionPrototype<'a> {
    /// Whether the signature is well formed.
    pub open spec fn wf(&self) -> bool {
        self.signature.wf()
    }

    /// Tests whether the prototype is well formed.
    pub fn is_wf(&self) -> (ok: bool)
        ensures
            ok == self.wf(),
    {
        self.signature.is_wf()
    }

    /// The function's name.
    pub fn name(&self) -> (name: &'a str)
        ensures
            name@ == self.name@,
    {
        self.name
    }
}

/// A function that a unit exports: its prototype and the address of its code.
#[derive(Clone, Copy, Debug)]
pub struct FunctionDefinition<'a> {
    /// The function's prototype.
    pub prototype: FunctionPrototype<'a>,
    /// The address of the function's code.
    pub fn_ptr: usize,
}

impl<'a> FunctionDefinition<'a> {
    /// Whether the prototype is well formed.
    pub open spec fn wf(&self) -> bool {
        self.prototype.wf()
    }

    /// Tests whether the definition is well formed.
    pub fn is_wf(&self) -> (ok: bool)
        ensures
            ok == self.wf(),
    {
        self.prototype.is_wf()
    }
}

} // verus!
