//! The module under construction: the functions that the compilation
//! declares, and the bodies that it defines.

use crate::builder::{Inst, InstV};
use crate::decls::FuncRef;
use crate::ir::IrType;
use vstd::prelude::*;

verus! {

/// A parameter of a function.
#[derive(Debug)]
pub struct Param {
    pub name: String,
    pub ty: IrType,
}

/// A function of the module. Without a body it is a declaration.
#[derive(Debug)]
pub struct Function {
    pub name: String,
    pub params: Vec<Param>,
    pub ret: IrType,
    /// Whether the function is marked as a kernel, which the device runs
    /// once per thread.
    pub kernel: bool,
    /// The instructions of the body in order, each with the type of its
    /// result.
    pub body: Option<Vec<(Inst, IrType)>>,
}

/// The mathematical value of a [`Function`].
pub struct FunctionV {
    pub name: Seq<char>,
    pub params: Seq<(Seq<char>, IrType)>,
    pub ret: IrType,
    pub kernel: bool,
    pub body: Option<Seq<(InstV, IrType)>>,
}

/// The mathematical value of a list of parameters.
pub open spec fn param_models(params: Seq<Param>) -> Seq<(Seq<char>, IrType)> {
    Seq::new(params.len(), |i: int| (params[i].name@, params[i].ty))
}

/// The mathematical value of a list of instructions.
pub open spec fn code_models(code: Seq<(Inst, IrType)>) -> Seq<(InstV, IrType)> {
    Seq::new(code.len(), |i: int| (code[i].0@, code[i].1))
}

impl View for Function {
    type V = FunctionV;

    open spec fn view(&self) -> FunctionV {
        FunctionV {
            name: self.name@,
            params: param_models(self.params@),
            ret: self.ret,
            kernel: self.kernel,
            body: match self.body {
                Some(code) => Some(code_models(code@)),
                None => None,
            },
        }
    }
}

/// A module: its name and its functions in the order of declaration.
#[derive(Debug)]
pub struct Module {
    pub name: String,
    pub functions: Vec<Function>,
}

/// The mathematical value of a [`Module`].
pub struct ModuleV {
    pub name: Seq<char>,
    pub functions: Seq<FunctionV>,
}

impl View for Module {
    type V = ModuleV;

    open spec fn view(&self) -> ModuleV {
        ModuleV {
            name: self.name@,
            functions: Seq::new(self.functions@.len(), |i: int| self.functions@[i]@),
        }
    }
}

/// A declaration of a function named `name` that takes nothing and returns
/// `ret`.
pub open spec fn nullary_declaration(name: Seq<char>, ret: IrType) -> FunctionV {
    FunctionV { name, params: Seq::empty(), ret, kernel: false, body: None }
}

impl Module {
    /// The number of functions.
    pub fn len(&self) -> (n: usize)
        ensures
            n == self@.functions.len(),
    {
        self.functions.len()
    }

    /// Adds `function` after the functions of the module and hands back
    /// its handle.
    pub fn add_function(&mut self, function: Function) -> (func: FuncRef)
        ensures
            final(self)@ == (ModuleV {
                name: old(self)@.name,
                functions: old(self)@.functions.push(function@),
            }),
            func == (FuncRef { index: old(self)@.functions.len() as usize, ret: function.ret }),
    {
        let func = FuncRef { index: self.functions.len(), ret: function.ret.duplicate() };
        self.functions.push(function);
        assert(self@.functions =~= old(self)@.functions.push(function@));
        func
    }
}

/// The handles of the functions by which a kernel asks for the position of
/// its thread, one for each dimension, and of the barrier at which the
/// threads of a block wait for one another.
#[derive(Debug)]
pub struct NVIntrinsics {
    pub thread_x: FuncRef,
    pub thread_y: FuncRef,
    pub thread_z: FuncRef,
    pub sync_thread: FuncRef,
}

/// The source of the modules of one compilation.
#[derive(Debug)]
pub struct Context {}

impl Context {
    pub fn new() -> (context: Context) {
        Context {  }
    }

    /// A module named `name`, without functions.
    pub fn create_module(&self, name: String) -> (module: Module)
        ensures
            module@ == (ModuleV { name: name@, functions: Seq::empty() }),
    {
        let module = Module { name, functions: Vec::new() };
        assert(module@.functions =~= Seq::empty());
        module
    }

    /// The name of the function behind a handle; the empty name where the
    /// handle refers to no function of the module.
    pub fn get_value_name(module: &Module, func: &FuncRef) -> (name: String)
        ensures
            name@ == if func.index < module@.functions.len() {
                module@.functions[func.index as int].name
            } else {
                Seq::empty()
            },
    {
        if func.index < module.functions.len() {
            module.functions[func.index].name.clone()
        } else {
            String::new()
        }
    }

    /// Declares the thread-position queries and the barrier of the device
    /// in `module`: three functions that take nothing and return a 32-bit
    /// integer, for the dimensions x, y and z, and one that takes and
    /// returns nothing.
    pub fn init_nvptx_intrinsics(&self, module: &mut Module) -> (intrinsics: NVIntrinsics)
        ensures
            final(module)@.name == old(module)@.name,
            final(module)@.functions == old(module)@.functions
                + seq![
                nullary_declaration("llvm.nvvm.read.ptx.sreg.tid.x"@, IrType::Int(32)),
                nullary_declaration("llvm.nvvm.read.ptx.sreg.tid.y"@, IrType::Int(32)),
                nullary_declaration("llvm.nvvm.read.ptx.sreg.tid.z"@, IrType::Int(32)),
                nullary_declaration("llvm.nvvm.barrier0"@, IrType::Void),
            ],
            intrinsics.thread_x == (FuncRef {
                index: old(module)@.functions.len() as usize,
                ret: IrType::Int(32),
            }),
            intrinsics.thread_y == (FuncRef {
                index: (old(module)@.functions.len() + 1) as usize,
                ret: IrType::Int(32),
            }),
            intrinsics.thread_z == (FuncRef {
                index: (old(module)@.functions.len() + 2) as usize,
                ret: IrType::Int(32),
            }),
            intrinsics.sync_thread == (FuncRef {
                index: (old(module)@.functions.len() + 3) as usize,
                ret: IrType::Void,
            }),
    {
        let thread_x = module.add_function(
            nullary("llvm.nvvm.read.ptx.sreg.tid.x", IrType::Int(32)),
        );
        let thread_y = module.add_function(
            nullary("llvm.nvvm.read.ptx.sreg.tid.y", IrType::Int(32)),
        );
        let thread_z = module.add_function(
            nullary("llvm.nvvm.read.ptx.sreg.tid.z", IrType::Int(32)),
        );
        let sync_thread = module.add_function(nullary("llvm.nvvm.barrier0", IrType::Void));
        assert(module@.functions =~= old(module)@.functions
            + seq![
            nullary_declaration("llvm.nvvm.read.ptx.sreg.tid.x"@, IrType::Int(32)),
            nullary_declaration("llvm.nvvm.read.ptx.sreg.tid.y"@, IrType::Int(32)),
            nullary_declaration("llvm.nvvm.read.ptx.sreg.tid.z"@, IrType::Int(32)),
            nullary_declaration("llvm.nvvm.barrier0"@, IrType::Void),
        ]);
        NVIntrinsics { thread_x, thread_y, thread_z, sync_thread }
    }
}

/// A declaration of a function named `name` that takes nothing and returns
/// `ret`.
fn nullary(name: &str, ret: IrType) -> (function: Function)
    ensures
        function@ == nullary_declaration(name@, ret),
{
    let function = Function {
        name: String::from_str(name),
        params: Vec::new(),
        ret,
        kernel: false,
        body: None,
    };
    assert(function@.params =~= Seq::empty());
    function
}

} // verus!
