//! The intermediate representation: types, values and instructions, held
//! as plain data, and the builder that appends instructions to a function
//! body.

use crate::types::{name_is, prim, Ty, TyName};
use vstd::prelude::*;

verus! {

/// The memory region that a pointer refers to.
#[derive(Clone, Copy, Debug, PartialEq, Eq)]
pub enum AddressSpace {
    /// Host memory.
    Generic,
    /// Device memory that may be written.
    Global,
    /// Device memory that is read-only.
    Constant,
}

impl AddressSpace {
    /// The number by which the target names this address space.
    pub open spec fn spec_code(self) -> u32 {
        match self {
            AddressSpace::Generic => 0,
            AddressSpace::Global => 1,
            AddressSpace::Constant => 4,
        }
    }

    /// The number by which the target names this address space.
    #[verifier::when_used_as_spec(spec_code)]
    pub fn code(self) -> (n: u32)
        ensures
            n == self.spec_code(),
    {
        match self {
            AddressSpace::Generic => 0,
            AddressSpace::Global => 1,
            AddressSpace::Constant => 4,
        }
    }
}

/// A type of the intermediate representation.
#[derive(Debug, PartialEq, Eq)]
pub enum IrType {
    Void,
    /// An integer of the given width in bits.
    Int(u32),
    /// A single-precision floating-point number.
    Float,
    /// A double-precision floating-point number.
    Double,
    /// A pointer to values of the inner type, in an address space.
    Pointer(Box<IrType>, AddressSpace),
}

impl IrType {
    /// The type that a pointer of this type points to; `Void` where this
    /// is no pointer type.
    pub open spec fn spec_pointee(&self) -> IrType {
        match *self {
            IrType::Pointer(inner, _) => *inner,
            _ => IrType::Void,
        }
    }

    /// The address space of this pointer type, if it is one.
    pub open spec fn spec_address_space(&self) -> Option<AddressSpace> {
        match *self {
            IrType::Pointer(_, space) => Some(space),
            _ => None,
        }
    }

    /// An equal type.
    pub fn duplicate(&self) -> (copy: IrType)
        ensures
            copy == *self,
        decreases self,
    {
        match self {
            IrType::Void => IrType::Void,
            IrType::Int(width) => IrType::Int(*width),
            IrType::Float => IrType::Float,
            IrType::Double => IrType::Double,
            IrType::Pointer(inner, space) => IrType::Pointer(
                Box::new((&**inner).duplicate()),
                *space,
            ),
        }
    }

    /// The type that a pointer of this type points to; `Void` where this
    /// is no pointer type.
    #[verifier::when_used_as_spec(spec_pointee)]
    pub fn pointee(&self) -> (inner: IrType)
        ensures
            inner == self.spec_pointee(),
    {
        match self {
            IrType::Pointer(inner, _) => (&**inner).duplicate(),
            _ => IrType::Void,
        }
    }

    /// The address space of this pointer type, if it is one.
    #[verifier::when_used_as_spec(spec_address_space)]
    pub fn address_space(&self) -> (space: Option<AddressSpace>)
        ensures
            space == self.spec_address_space(),
    {
        match self {
            IrType::Pointer(_, space) => Some(*space),
            _ => None,
        }
    }
}

impl Clone for IrType {
    fn clone(&self) -> (copy: Self)
        ensures
            copy == *self,
    {
        self.duplicate()
    }
}

/// The address space of a pointer declared on the host or device side, to
/// data that is or is not assignable.
pub open spec fn pointer_space(set_mut: bool, device_side: bool) -> AddressSpace {
    if !device_side {
        AddressSpace::Generic
    } else if set_mut {
        AddressSpace::Global
    } else {
        AddressSpace::Constant
    }
}

/// The representation of a type of the language.
///
/// A primitive maps to the integer or floating-point type of its width and
/// an array to a pointer to its elements' representation, in the address
/// space that `pointer_space` gives; an assignable binding is represented
/// as what it binds. Anything else has no representation and maps to
/// `Void`.
pub open spec fn ir_type_of(ty: Ty, set_mut: bool, device_side: bool) -> IrType
    decreases ty,
{
    match ty {
        Ty::Name(name) => {
            if name == "bool"@ {
                IrType::Int(1)
            } else if name == "i8"@ {
                IrType::Int(8)
            } else if name == "i16"@ {
                IrType::Int(16)
            } else if name == "i32"@ {
                IrType::Int(32)
            } else if name == "i64"@ {
                IrType::Int(64)
            } else if name == "f32"@ {
                IrType::Float
            } else if name == "f64"@ {
                IrType::Double
            } else {
                IrType::Void
            }
        },
        Ty::Array(inner) => IrType::Pointer(
            Box::new(ir_type_of(*inner, false, device_side)),
            pointer_space(set_mut, device_side),
        ),
        Ty::Mut(inner) => ir_type_of(*inner, true, device_side),
        _ => IrType::Void,
    }
}

/// The type of the language that a representation stands for.
///
/// Pointers are arrays of what they point to; integers of width 1, 8, 16,
/// 32 and 64 and the two floating-point types are the primitives; anything
/// else is `Unit`.
pub open spec fn language_type_of(ir: IrType) -> Ty
    decreases ir,
{
    match ir {
        IrType::Pointer(inner, _) => Ty::Array(Box::new(language_type_of(*inner))),
        IrType::Float => prim("f32"),
        IrType::Double => prim("f64"),
        IrType::Int(width) => {
            if width == 1 {
                prim("bool")
            } else if width == 8 {
                prim("i8")
            } else if width == 16 {
                prim("i16")
            } else if width == 32 {
                prim("i32")
            } else if width == 64 {
                prim("i64")
            } else {
                Ty::Unit
            }
        },
        IrType::Void => Ty::Unit,
    }
}

/// The seven primitives are told apart by their representations: each maps
/// back to itself. An array maps back to an array of what its elements
/// map back to, on either side and whether assignable or not.
pub proof fn law_representation_maps_back(ty: Ty, set_mut: bool, device_side: bool)
    ensures
        ty == prim("bool") || ty == prim("i8") || ty == prim("i16") || ty == prim("i32") || ty
            == prim("i64") || ty == prim("f32") || ty == prim("f64") ==> language_type_of(
            ir_type_of(ty, set_mut, device_side),
        ) == ty,
        ty matches Ty::Array(inner) ==> language_type_of(ir_type_of(ty, set_mut, device_side))
            == Ty::Array(Box::new(language_type_of(ir_type_of(*inner, false, device_side)))),
{
    reveal_strlit("bool");
    reveal_strlit("i8");
    reveal_strlit("i16");
    reveal_strlit("i32");
    reveal_strlit("i64");
    reveal_strlit("f32");
    reveal_strlit("f64");
    assert("bool"@.len() == 4);
    assert("i8"@.len() == 2);
    assert("i16"@[1] != "i32"@[1]);
    assert("i16"@[1] != "i64"@[1]);
    assert("i16"@[0] != "f32"@[0]);
    assert("i16"@[0] != "f64"@[0]);
    assert("i32"@[1] != "i64"@[1]);
    assert("i32"@[0] != "f32"@[0]);
    assert("i32"@[0] != "f64"@[0]);
    assert("i64"@[0] != "f32"@[0]);
    assert("i64"@[0] != "f64"@[0]);
    assert("f32"@[1] != "f64"@[1]);
}

/// Maps a type of the language to its representation.
pub fn map_type(ty: &TyName, set_mut: bool, device_side: bool) -> (ir: IrType)
    ensures
        ir == ir_type_of(ty@, set_mut, device_side),
    decreases ty,
{
    match ty {
        TyName::NameBind(name) => {
            if name_is(name, "bool") {
                IrType::Int(1)
            } else if name_is(name, "i8") {
                IrType::Int(8)
            } else if name_is(name, "i16") {
                IrType::Int(16)
            } else if name_is(name, "i32") {
                IrType::Int(32)
            } else if name_is(name, "i64") {
                IrType::Int(64)
            } else if name_is(name, "f32") {
                IrType::Float
            } else if name_is(name, "f64") {
                IrType::Double
            } else {
                IrType::Void
            }
        },
        TyName::Array(inner) => {
            let space = if !device_side {
                AddressSpace::Generic
            } else if set_mut {
                AddressSpace::Global
            } else {
                AddressSpace::Constant
            };
            IrType::Pointer(Box::new(map_type(&**inner, false, device_side)), space)
        },
        TyName::MutBind(inner) => map_type(&**inner, true, device_side),
        _ => IrType::Void,
    }
}

/// Maps a representation back to the type of the language it stands for.
pub fn reverse_type(ir: &IrType) -> (ty: TyName)
    ensures
        ty@ == language_type_of(*ir),
    decreases ir,
{
    match ir {
        IrType::Pointer(inner, _) => TyName::Array(Box::new(reverse_type(&**inner))),
        IrType::Float => TyName::named("f32"),
        IrType::Double => TyName::named("f64"),
        IrType::Int(width) => {
            if *width == 1 {
                TyName::named("bool")
            } else if *width == 8 {
                TyName::named("i8")
            } else if *width == 16 {
                TyName::named("i16")
            } else if *width == 32 {
                TyName::named("i32")
            } else if *width == 64 {
                TyName::named("i64")
            } else {
                TyName::Unit
            }
        },
        IrType::Void => TyName::Unit,
    }
}

} // verus!
