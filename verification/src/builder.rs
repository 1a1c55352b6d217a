//! Values and instructions of the intermediate representation, and the
//! builder that appends instructions to the body of one function.

use crate::ir::IrType;
use vstd::prelude::*;

verus! {

/// A handle to a value of the function under construction.
#[derive(Clone, Copy, Debug, PartialEq, Eq)]
pub enum Value {
    /// No value.
    Null,
    /// A signed 64-bit integer constant.
    ConstInt(i64),
    /// A double-precision constant, by the bits of its encoding.
    ConstReal(u64),
    /// The parameter at the given position.
    Param(usize),
    /// The result of the instruction at the given position of the body.
    Inst(usize),
}

/// An implicit conversion between numeric representations.
#[derive(Clone, Copy, Debug, PartialEq, Eq)]
pub enum CastOp {
    /// Widens a signed integer.
    SignExtend,
    /// Converts a signed integer to a floating-point number.
    SignedToFloat,
    /// Widens a floating-point number.
    FloatExtend,
}

/// A binary arithmetic operation.
#[derive(Clone, Copy, Debug, PartialEq, Eq)]
pub enum BinOp {
    Add,
    Sub,
    Mul,
    /// Division whose dividend is a multiple of the divisor.
    ExactDiv,
}

/// An instruction of a function body.
#[derive(Debug)]
pub enum Inst {
    Cast { kind: CastOp, value: Value, to: IrType },
    Binary { op: BinOp, lhs: Value, rhs: Value },
    /// The address of the element at `index` counted from `base`.
    ElementPtr { base: Value, index: Value },
    Load { ptr: Value },
    Store { value: Value, ptr: Value },
    /// A call of the module's function at position `callee`, whose result
    /// is called `name`.
    Call { callee: usize, args: Vec<Value>, name: String },
    Ret { value: Value },
    RetVoid,
}

/// The mathematical value of an [`Inst`].
pub enum InstV {
    Cast { kind: CastOp, value: Value, to: IrType },
    Binary { op: BinOp, lhs: Value, rhs: Value },
    ElementPtr { base: Value, index: Value },
    Load { ptr: Value },
    Store { value: Value, ptr: Value },
    Call { callee: usize, args: Seq<Value>, name: Seq<char> },
    Ret { value: Value },
    RetVoid,
}

impl View for Inst {
    type V = InstV;

    open spec fn view(&self) -> InstV {
        match *self {
            Inst::Cast { kind, value, to } => InstV::Cast { kind, value, to },
            Inst::Binary { op, lhs, rhs } => InstV::Binary { op, lhs, rhs },
            Inst::ElementPtr { base, index } => InstV::ElementPtr { base, index },
            Inst::Load { ptr } => InstV::Load { ptr },
            Inst::Store { value, ptr } => InstV::Store { value, ptr },
            Inst::Call { callee, args, name } => InstV::Call { callee, args: args@, name: name@ },
            Inst::Ret { value } => InstV::Ret { value },
            Inst::RetVoid => InstV::RetVoid,
        }
    }
}

/// The body of a function under construction: the types of its parameters
/// and its instructions in order, each with the type of its result.
#[derive(Debug)]
pub struct Builder {
    pub params: Vec<IrType>,
    pub code: Vec<(Inst, IrType)>,
}

/// The mathematical value of a [`Builder`].
pub struct BuilderV {
    pub params: Seq<IrType>,
    pub code: Seq<(InstV, IrType)>,
}

impl BuilderV {
    /// The type of a value: that of a constant, of the parameter or of the
    /// instruction's result; `Void` where the handle refers to nothing.
    pub open spec fn type_of(self, value: Value) -> IrType {
        match value {
            Value::Null => IrType::Void,
            Value::ConstInt(_) => IrType::Int(64),
            Value::ConstReal(_) => IrType::Double,
            Value::Param(i) => if i < self.params.len() {
                self.params[i as int]
            } else {
                IrType::Void
            },
            Value::Inst(i) => if i < self.code.len() {
                self.code[i as int].1
            } else {
                IrType::Void
            },
        }
    }

    /// The body with one more instruction at its end.
    pub open spec fn emit(self, inst: InstV, ty: IrType) -> BuilderV {
        BuilderV { params: self.params, code: self.code.push((inst, ty)) }
    }

    /// The handle of the instruction that is appended next.
    pub open spec fn next(self) -> Value {
        Value::Inst(self.code.len() as usize)
    }

    /// The body after a conversion of `value` to `to`.
    pub open spec fn cast(self, op: CastOp, value: Value, to: IrType) -> BuilderV {
        self.emit(InstV::Cast { kind: op, value, to }, to)
    }

    /// The body after an arithmetic operation, whose result has the type
    /// of the left operand.
    pub open spec fn binary(self, op: BinOp, lhs: Value, rhs: Value) -> BuilderV {
        self.emit(InstV::Binary { op, lhs, rhs }, self.type_of(lhs))
    }

    /// The body after an element address computation, whose result has the
    /// type of the base pointer.
    pub open spec fn element_ptr(self, base: Value, index: Value) -> BuilderV {
        self.emit(InstV::ElementPtr { base, index }, self.type_of(base))
    }

    /// The body after a load, whose result has the type that `ptr` points
    /// to.
    pub open spec fn load(self, ptr: Value) -> BuilderV {
        self.emit(InstV::Load { ptr }, self.type_of(ptr).spec_pointee())
    }

    /// The body after a store.
    pub open spec fn store(self, value: Value, ptr: Value) -> BuilderV {
        self.emit(InstV::Store { value, ptr }, IrType::Void)
    }

    /// The body after a call of a function that returns `ret`.
    pub open spec fn call(
        self,
        callee: usize,
        ret: IrType,
        args: Seq<Value>,
        name: Seq<char>,
    ) -> BuilderV {
        self.emit(InstV::Call { callee, args, name }, ret)
    }

    /// The body after a return of `value`.
    pub open spec fn ret(self, value: Value) -> BuilderV {
        self.emit(InstV::Ret { value }, IrType::Void)
    }

    /// The body after a return of nothing.
    pub open spec fn ret_void(self) -> BuilderV {
        self.emit(InstV::RetVoid, IrType::Void)
    }
}

impl View for Builder {
    type V = BuilderV;

    open spec fn view(&self) -> BuilderV {
        BuilderV {
            params: self.params@,
            code: Seq::new(self.code@.len(), |i: int| (self.code@[i].0@, self.code@[i].1)),
        }
    }
}

impl Builder {
    /// The empty body of a function with the given parameter types.
    pub fn new(params: Vec<IrType>) -> (builder: Builder)
        ensures
            builder@ == (BuilderV { params: params@, code: Seq::empty() }),
    {
        let builder = Builder { params, code: Vec::new() };
        assert(builder@.code =~= Seq::empty());
        builder
    }

    /// The number of instructions in the body.
    pub fn len(&self) -> (n: usize)
        ensures
            n == self@.code.len(),
    {
        self.code.len()
    }

    /// The type of a value.
    pub fn type_of(&self, value: Value) -> (ty: IrType)
        ensures
            ty == self@.type_of(value),
    {
        match value {
            Value::Null => IrType::Void,
            Value::ConstInt(_) => IrType::Int(64),
            Value::ConstReal(_) => IrType::Double,
            Value::Param(i) => if i < self.params.len() {
                self.params[i].duplicate()
            } else {
                IrType::Void
            },
            Value::Inst(i) => if i < self.code.len() {
                self.code[i].1.duplicate()
            } else {
                IrType::Void
            },
        }
    }

    /// Appends an instruction whose result has type `ty`.
    fn emit(&mut self, inst: Inst, ty: IrType) -> (result: Value)
        ensures
            final(self)@ == old(self)@.emit(inst@, ty),
            result == old(self)@.next(),
    {
        let at = self.code.len();
        self.code.push((inst, ty));
        assert(self@.code =~= old(self)@.code.push((inst@, ty)));
        Value::Inst(at)
    }

    /// Appends a conversion of `value` to the type `to`.
    pub fn build_cast(&mut self, op: CastOp, value: Value, to: IrType) -> (result: Value)
        ensures
            final(self)@ == old(self)@.cast(op, value, to),
            result == old(self)@.next(),
    {
        let ty = to.duplicate();
        self.emit(Inst::Cast { kind: op, value, to }, ty)
    }

    /// Appends an arithmetic operation.
    pub fn build_binary(&mut self, op: BinOp, lhs: Value, rhs: Value) -> (result: Value)
        ensures
            final(self)@ == old(self)@.binary(op, lhs, rhs),
            result == old(self)@.next(),
    {
        let ty = self.type_of(lhs);
        self.emit(Inst::Binary { op, lhs, rhs }, ty)
    }

    /// Appends the computation of an element's address.
    pub fn build_element_ptr(&mut self, base: Value, index: Value) -> (result: Value)
        ensures
            final(self)@ == old(self)@.element_ptr(base, index),
            result == old(self)@.next(),
    {
        let ty = self.type_of(base);
        self.emit(Inst::ElementPtr { base, index }, ty)
    }

    /// Appends a load through `ptr`.
    pub fn build_load(&mut self, ptr: Value) -> (result: Value)
        ensures
            final(self)@ == old(self)@.load(ptr),
            result == old(self)@.next(),
    {
        let ty = self.type_of(ptr).pointee();
        self.emit(Inst::Load { ptr }, ty)
    }

    /// Appends a store of `value` through `ptr`.
    pub fn build_store(&mut self, value: Value, ptr: Value) -> (result: Value)
        ensures
            final(self)@ == old(self)@.store(value, ptr),
            result == old(self)@.next(),
    {
        self.emit(Inst::Store { value, ptr }, IrType::Void)
    }

    /// Appends a call of the function at position `callee`, which returns
    /// `ret`, and calls the result `name`.
    pub fn build_call(
        &mut self,
        callee: usize,
        ret: IrType,
        args: Vec<Value>,
        name: String,
    ) -> (result: Value)
        ensures
            final(self)@ == old(self)@.call(callee, ret, args@, name@),
            result == old(self)@.next(),
    {
        self.emit(Inst::Call { callee, args, name }, ret)
    }

    /// Appends a return of `value`.
    pub fn build_ret(&mut self, value: Value) -> (result: Value)
        ensures
            final(self)@ == old(self)@.ret(value),
            result == old(self)@.next(),
    {
        self.emit(Inst::Ret { value }, IrType::Void)
    }

    /// Appends a return of nothing.
    pub fn build_ret_void(&mut self) -> (result: Value)
        ensures
            final(self)@ == old(self)@.ret_void(),
            result == old(self)@.next(),
    {
        self.emit(Inst::RetVoid, IrType::Void)
    }
}

} // verus!
