//! The two passes of a compilation: every function is declared before any
//! body is lowered, so that functions may call one another in any order.

use crate::assemble::{
    declaration_text, declared, declared_params, definition_of, definition_text,
    llvm_declare_func, llvm_define_func, llvm_embedded_ir, llvm_embedded_kernel_decl,
};
use crate::decls::{DeclTable, Declaration, FuncRef};
use crate::error::CompileError;
use crate::expr::{typed_model, typed_models, BaseExpr, ExprV, Node, TypedExpr};
use crate::ir::{ir_type_of, IrType};
use crate::module::{
    code_models, nullary_declaration, Context, FunctionV, Module, ModuleV, NVIntrinsics,
};
use crate::text::{legal_name, rename_illegal};
use vstd::prelude::*;

verus! {

/// The nodes among the first `upto` of a file that are no placeholders, in
/// order.
pub open spec fn kept(list: Seq<Node>, upto: nat) -> Seq<Node>
    decreases upto,
{
    if upto == 0 {
        Seq::empty()
    } else {
        let before = kept(list, (upto - 1) as nat);
        if list[upto - 1].0 is Nope {
            before
        } else {
            before.push(list[upto - 1])
        }
    }
}

/// The nodes of the first `upto` files that are no placeholders, file
/// after file.
pub open spec fn functions_of(files: Seq<Seq<Node>>, upto: nat) -> Seq<Node>
    decreases upto,
{
    if upto == 0 {
        Seq::empty()
    } else {
        functions_of(files, (upto - 1) as nat) + kept(files[upto - 1], files[upto - 1].len())
    }
}

/// The mathematical values of the nodes behind a list of borrows.
pub open spec fn nodes_of(borrowed: Seq<&TypedExpr>) -> Seq<Node> {
    Seq::new(borrowed.len(), |i: int| typed_model(*borrowed[i]))
}

/// The mathematical values of a list of files.
pub open spec fn file_models(files: Seq<Vec<TypedExpr>>) -> Seq<Seq<Node>> {
    Seq::new(files.len(), |i: int| typed_models(files[i]@))
}

/// What the declaration pass has built: the functions of the module and
/// the table of declarations.
pub struct Declared {
    pub functions: Seq<FunctionV>,
    pub decls: Seq<Declaration>,
}

/// The outcome of declaring the first `upto` nodes, in order, in a module
/// that holds the functions `start`. Each node adds its function to the
/// module and its name, handle and signature to the table; a node that
/// declares no function fails the pass with `UnsupportedConstruct`.
pub open spec fn declared_upto(nodes: Seq<Node>, upto: nat, start: Seq<FunctionV>) -> Result<
    Declared,
    CompileError,
>
    decreases upto,
{
    if upto == 0 {
        Ok(Declared { functions: start, decls: Seq::empty() })
    } else {
        match declared_upto(nodes, (upto - 1) as nat, start) {
            Err(e) => Err(e),
            Ok(before) => match declared(nodes[upto - 1].0) {
                None => Err(CompileError::UnsupportedConstruct),
                Some(function) => Ok(
                    Declared {
                        functions: before.functions.push(function),
                        decls: before.decls.push(
                            (
                                function.name,
                                FuncRef {
                                    index: before.functions.len() as usize,
                                    ret: function.ret,
                                },
                                nodes[upto - 1].1,
                            ),
                        ),
                    },
                ),
            },
        }
    }
}

/// What the definition pass has built: the functions of the module and the
/// text of the secondary module.
pub struct Assembled {
    pub functions: Seq<FunctionV>,
    pub text: Seq<char>,
}

/// The outcome of defining the function at position `index`, which `decl`
/// declared.
///
/// The function's name is made legal. A body given as text is written as a
/// definition to the secondary module, followed by an empty line; a
/// function that is defined elsewhere is written there as a declaration;
/// any other function gets the body that its statements lower to.
pub open spec fn define_step(
    decl: ExprV,
    index: int,
    decls: Seq<Declaration>,
    nv: NVIntrinsics,
    so_far: Assembled,
) -> Result<Assembled, CompileError> {
    let function = so_far.functions[index];
    let name = legal_name(function.name);
    let renamed = FunctionV { name, ..function };
    match decl {
        ExprV::IntrinsicsFuncDecl(_, params, ret, body) => Ok(
            Assembled {
                functions: so_far.functions.update(index, renamed),
                text: so_far.text + definition_text(
                    name,
                    declared_params(params, false),
                    ir_type_of(ret, false, false),
                    body,
                ) + "\n\n"@,
            },
        ),
        ExprV::FuncVirtualDecl(_, params, ret) => Ok(
            Assembled {
                functions: so_far.functions.update(index, renamed),
                text: so_far.text + declaration_text(
                    name,
                    declared_params(params, false),
                    ir_type_of(ret, false, false),
                ),
            },
        ),
        _ => match definition_of(decl, decls, nv) {
            Ok(code) => Ok(
                Assembled {
                    functions: so_far.functions.update(
                        index,
                        FunctionV { body: Some(code), ..renamed },
                    ),
                    text: so_far.text,
                },
            ),
            Err(e) => Err(e),
        },
    }
}

/// The outcome of defining the functions of the first `upto` nodes, in the
/// order of declaration; the function of the first node stands at position
/// `first` of the module.
pub open spec fn defined_upto(
    nodes: Seq<Node>,
    upto: nat,
    first: nat,
    decls: Seq<Declaration>,
    nv: NVIntrinsics,
    start: Assembled,
) -> Result<Assembled, CompileError>
    decreases upto,
{
    if upto == 0 {
        Ok(start)
    } else {
        match defined_upto(nodes, (upto - 1) as nat, first, decls, nv, start) {
            Err(e) => Err(e),
            Ok(before) => define_step(nodes[upto - 1].0, first + upto - 1, decls, nv, before),
        }
    }
}

/// The functions that every module starts with: the thread-position
/// queries of the device and its barrier.
pub open spec fn device_functions() -> Seq<FunctionV> {
    seq![
        nullary_declaration("llvm.nvvm.read.ptx.sreg.tid.x"@, IrType::Int(32)),
        nullary_declaration("llvm.nvvm.read.ptx.sreg.tid.y"@, IrType::Int(32)),
        nullary_declaration("llvm.nvvm.read.ptx.sreg.tid.z"@, IrType::Int(32)),
        nullary_declaration("llvm.nvvm.barrier0"@, IrType::Void),
    ]
}

/// The handles of the functions that every module starts with.
pub open spec fn device_intrinsics() -> NVIntrinsics {
    NVIntrinsics {
        thread_x: FuncRef { index: 0, ret: IrType::Int(32) },
        thread_y: FuncRef { index: 1, ret: IrType::Int(32) },
        thread_z: FuncRef { index: 2, ret: IrType::Int(32) },
        sync_thread: FuncRef { index: 3, ret: IrType::Void },
    }
}

/// The first line of the secondary module.
pub open spec fn secondary_header() -> Seq<char> {
    "; ModuleID = 'canoe_kernel'\n\n"@
}

/// The outcome of compiling the files: the module named `canoe` and the
/// text of the secondary module.
///
/// The module starts with the functions of the device. Every node of every
/// file that is no placeholder is declared, file after file; only then are
/// the functions defined, in the order of declaration, against the
/// complete table of declarations.
pub open spec fn compiled(files: Seq<Seq<Node>>) -> Result<(ModuleV, Seq<char>), CompileError> {
    let nodes = functions_of(files, files.len());
    match declared_upto(nodes, nodes.len(), device_functions()) {
        Err(e) => Err(e),
        Ok(declared) => match defined_upto(
            nodes,
            nodes.len(),
            4,
            declared.decls,
            device_intrinsics(),
            Assembled { functions: declared.functions, text: secondary_header() },
        ) {
            Err(e) => Err(e),
            Ok(assembled) => Ok(
                (ModuleV { name: "canoe"@, functions: assembled.functions }, assembled.text),
            ),
        },
    }
}

proof fn lemma_declared_error_stays(
    nodes: Seq<Node>,
    failed: nat,
    upto: nat,
    start: Seq<FunctionV>,
)
    requires
        failed <= upto,
        declared_upto(nodes, failed, start) is Err,
    ensures
        declared_upto(nodes, upto, start) == declared_upto(nodes, failed, start),
    decreases upto,
{
    if failed < upto {
        lemma_declared_error_stays(nodes, failed, (upto - 1) as nat, start);
    }
}

proof fn lemma_defined_error_stays(
    nodes: Seq<Node>,
    failed: nat,
    upto: nat,
    first: nat,
    decls: Seq<Declaration>,
    nv: NVIntrinsics,
    start: Assembled,
)
    requires
        failed <= upto,
        defined_upto(nodes, failed, first, decls, nv, start) is Err,
    ensures
        defined_upto(nodes, upto, first, decls, nv, start) == defined_upto(
            nodes,
            failed,
            first,
            decls,
            nv,
            start,
        ),
    decreases upto,
{
    if failed < upto {
        lemma_defined_error_stays(nodes, failed, (upto - 1) as nat, first, decls, nv, start);
    }
}

/// The declaration pass adds one function for each node.
pub proof fn lemma_declared_count(nodes: Seq<Node>, upto: nat, start: Seq<FunctionV>)
    ensures
        declared_upto(nodes, upto, start) matches Ok(declared) ==> declared.functions.len()
            == start.len() + upto && declared.decls.len() == upto,
    decreases upto,
{
    if upto > 0 {
        lemma_declared_count(nodes, (upto - 1) as nat, start);
    }
}

/// The nodes of the files that are no placeholders, file after file.
pub fn collect_functions<'a>(files: &'a Vec<Vec<TypedExpr>>) -> (nodes: Vec<&'a TypedExpr>)
    ensures
        nodes_of(nodes@) == functions_of(file_models(files@), files@.len()),
{
    let mut nodes: Vec<&'a TypedExpr> = Vec::new();
    let mut file: usize = 0;
    assert(nodes_of(nodes@) =~= Seq::empty());
    while file < files.len()
        invariant
            file <= files.len(),
            nodes_of(nodes@) == functions_of(file_models(files@), file as nat),
        decreases files.len() - file,
    {
        let list = &files[file];
        let ghost before = nodes_of(nodes@);
        let ghost models = typed_models(list@);
        assert(models == file_models(files@)[file as int]);
        let mut at: usize = 0;
        assert(nodes_of(nodes@) =~= before + kept(models, 0));
        while at < list.len()
            invariant
                at <= list.len(),
                models == typed_models(list@),
                nodes_of(nodes@) == before + kept(models, at as nat),
            decreases list.len() - at,
        {
            let ghost had = nodes_of(nodes@);
            assert(models[at as int] == typed_model(list@[at as int]));
            match &list[at].0 {
                BaseExpr::Nope => {},
                _ => {
                    nodes.push(&list[at]);
                    assert(nodes_of(nodes@) =~= had.push(models[at as int]));
                    assert(had.push(models[at as int]) =~= before + kept(models, at as nat).push(
                        models[at as int],
                    ));
                },
            }
            at += 1;
        }
        file += 1;
    }
    nodes
}

/// Declares the functions of `nodes` in `module`, in order, and hands back
/// the table of declarations.
pub fn declare_pass(nodes: &Vec<&TypedExpr>, module: &mut Module) -> (result: Result<
    DeclTable,
    CompileError,
>)
    ensures
        match declared_upto(nodes_of(nodes@), nodes@.len(), old(module)@.functions) {
            Ok(declared) => {
                &&& result matches Ok(table)
                &&& table@ == declared.decls
                &&& final(module)@ == (ModuleV {
                    functions: declared.functions,
                    ..old(module)@
                })
            },
            Err(e) => result matches Err(got) && got == e,
        },
{
    let ghost list = nodes_of(nodes@);
    let ghost start = old(module)@.functions;
    let mut table = DeclTable::new();
    let mut at: usize = 0;
    while at < nodes.len()
        invariant
            at <= nodes.len(),
            list == nodes_of(nodes@),
            start == old(module)@.functions,
            module@.name == old(module)@.name,
            declared_upto(list, at as nat, start) == Ok::<Declared, CompileError>(
                Declared { functions: module@.functions, decls: table@ },
            ),
        decreases nodes.len() - at,
    {
        let node: &TypedExpr = nodes[at];
        assert(typed_model(*node) == list[at as int]);
        match llvm_declare_func(&node.0, module) {
            Ok((func, ident)) => {
                table.declare(ident, func, node.1.clone());
            },
            Err(e) => {
                proof {
                    lemma_declared_error_stays(list, (at + 1) as nat, nodes@.len(), start);
                }
                return Err(e);
            },
        }
        at += 1;
    }
    Ok(table)
}

/// Defines the functions of `nodes`, in order; the function of the first
/// node stands at position `first` of `module`. Hands back the text of the
/// secondary module.
pub fn define_pass(
    nodes: &Vec<&TypedExpr>,
    first: usize,
    decls: &DeclTable,
    nv: &NVIntrinsics,
    module: &mut Module,
) -> (result: Result<String, CompileError>)
    requires
        first + nodes@.len() <= old(module)@.functions.len(),
    ensures
        final(module)@.functions.len() == old(module)@.functions.len(),
        final(module)@.name == old(module)@.name,
        match defined_upto(
            nodes_of(nodes@),
            nodes@.len(),
            first as nat,
            decls@,
            *nv,
            Assembled { functions: old(module)@.functions, text: secondary_header() },
        ) {
            Ok(assembled) => {
                &&& result matches Ok(text)
                &&& text@ == assembled.text
                &&& final(module)@ == (ModuleV {
                    functions: assembled.functions,
                    ..old(module)@
                })
            },
            Err(e) => result matches Err(got) && got == e,
        },
{
    let ghost list = nodes_of(nodes@);
    let ghost start = Assembled { functions: old(module)@.functions, text: secondary_header() };
    let mut text = String::from_str("; ModuleID = 'canoe_kernel'\n\n");
    let total: usize = module.len();
    let mut at: usize = 0;
    while at < nodes.len()
        invariant
            at <= nodes.len(),
            total == module@.functions.len(),
            list == nodes_of(nodes@),
            start == (Assembled { functions: old(module)@.functions, text: secondary_header() }),
            module@.name == old(module)@.name,
            module@.functions.len() == old(module)@.functions.len(),
            first + nodes@.len() <= module@.functions.len(),
            defined_upto(list, at as nat, first as nat, decls@, *nv, start) == Ok::<
                Assembled,
                CompileError,
            >(Assembled { functions: module@.functions, text: text@ }),
        decreases nodes.len() - at,
    {
        let node: &TypedExpr = nodes[at];
        assert(typed_model(*node) == list[at as int]);
        let index: usize = first + at;
        let ghost before = module@.functions;
        let ghost function = before[index as int];
        let renamed = rename_illegal(&module.functions[index].name);
        module.functions[index].name = renamed;
        assert(module@.functions =~= before.update(
            index as int,
            FunctionV { name: legal_name(function.name), ..function },
        ));
        match &node.0 {
            BaseExpr::IntrinsicsFuncDecl(_, params, ret, body) => {
                let definition = llvm_embedded_ir(&module.functions[index].name, params, ret, body);
                text.append(definition.as_str());
                text.append("\n\n");
            },
            BaseExpr::FuncVirtualDecl(_, params, ret) => {
                let declaration = llvm_embedded_kernel_decl(
                    &module.functions[index].name,
                    params,
                    ret,
                );
                text.append(declaration.as_str());
            },
            other => match llvm_define_func(other, decls, nv) {
                Ok(code) => {
                    module.functions[index].body = Some(code);
                    assert(module@.functions =~= before.update(
                        index as int,
                        FunctionV {
                            name: legal_name(function.name),
                            body: Some(code_models(code@)),
                            ..function
                        },
                    ));
                },
                Err(e) => {
                    proof {
                        lemma_defined_error_stays(
                            list,
                            (at + 1) as nat,
                            nodes@.len(),
                            first as nat,
                            decls@,
                            *nv,
                            start,
                        );
                    }
                    return Err(e);
                },
            },
        }
        at += 1;
    }
    Ok(text)
}

/// How far the assembly of a module has come.
#[derive(Clone, Copy, Debug, PartialEq, Eq)]
pub enum Stage {
    /// Every function is declared; no body is lowered yet.
    Declared,
    /// Every function that has statements has its body.
    Defined,
    /// The secondary module is linked into the module.
    Linked,
    /// The linked module passed its final check. Only now may the module
    /// be written out.
    Verified,
}

/// A module on its way through the stages of its assembly.
///
/// The library declares and defines the functions. The back end reads,
/// checks and links the secondary module, which holds the bodies given as
/// text and the declarations of the functions that are defined elsewhere,
/// and checks the whole; it reports how each step ended with `linked` and
/// `verified`.
#[derive(Debug)]
pub struct Assembly {
    files: Vec<Vec<TypedExpr>>,
    module: Module,
    table: DeclTable,
    intrinsics: NVIntrinsics,
    kernel_source: String,
    stage: Stage,
}

/// The mathematical value of an [`Assembly`].
pub struct AssemblyV {
    pub module: ModuleV,
    pub kernel_source: Seq<char>,
    pub stage: Stage,
}

impl View for Assembly {
    type V = AssemblyV;

    closed spec fn view(&self) -> AssemblyV {
        AssemblyV {
            module: self.module@,
            kernel_source: self.kernel_source@,
            stage: self.stage,
        }
    }
}

impl Assembly {
    /// The files that are assembled.
    pub closed spec fn source(&self) -> Seq<Seq<Node>> {
        file_models(self.files@)
    }

    #[verifier::type_invariant]
    spec fn declarations_stand(&self) -> bool {
        let nodes = functions_of(file_models(self.files@), self.files@.len());
        &&& self.intrinsics == device_intrinsics()
        &&& self.module@.functions.len() == 4 + nodes.len()
        &&& declared_upto(nodes, nodes.len(), device_functions()) matches Ok(declared)
        &&& self.table@ == declared.decls
        &&& self.stage == Stage::Declared ==> self.module@ == (ModuleV {
            name: "canoe"@,
            functions: declared.functions,
        })
    }

    /// Declares every function of every file in a module named `canoe`,
    /// which starts with the functions of the device.
    ///
    /// A node that is neither a function nor a placeholder is refused with
    /// `UnsupportedConstruct`.
    pub fn declare(files: Vec<Vec<TypedExpr>>) -> (result: Result<Assembly, CompileError>)
        ensures
            match declared_upto(
                functions_of(file_models(files@), files@.len()),
                functions_of(file_models(files@), files@.len()).len(),
                device_functions(),
            ) {
                Ok(declared) => {
                    &&& result matches Ok(assembly)
                    &&& assembly.source() == file_models(files@)
                    &&& assembly@ == (AssemblyV {
                        module: ModuleV { name: "canoe"@, functions: declared.functions },
                        kernel_source: secondary_header(),
                        stage: Stage::Declared,
                    })
                },
                Err(e) => result matches Err(got) && got == e,
            },
    {
        let context = Context::new();
        let mut module = context.create_module(String::from_str("canoe"));
        let intrinsics = context.init_nvptx_intrinsics(&mut module);
        assert(module@.functions =~= device_functions());
        let nodes = collect_functions(&files);
        proof {
            lemma_declared_count(nodes_of(nodes@), nodes@.len(), device_functions());
        }
        let table = match declare_pass(&nodes, &mut module) {
            Ok(table) => table,
            Err(e) => {
                return Err(e);
            },
        };
        let kernel_source = String::from_str("; ModuleID = 'canoe_kernel'\n\n");
        Ok(Assembly { files, module, table, intrinsics, kernel_source, stage: Stage::Declared })
    }

    /// Defines the functions in the order of their declaration, against
    /// the complete table of declarations, and writes the secondary
    /// module. The first failure ends the pass, and the assembly with it.
    pub fn define(self) -> (result: Result<Assembly, CompileError>)
        requires
            self@.stage == Stage::Declared,
        ensures
            match compiled(self.source()) {
                Ok((module, text)) => {
                    &&& result matches Ok(assembly)
                    &&& assembly.source() == self.source()
                    &&& assembly@ == (AssemblyV {
                        module,
                        kernel_source: text,
                        stage: Stage::Defined,
                    })
                },
                Err(e) => result matches Err(got) && got == e,
            },
    {
        proof {
            use_type_invariant(&self);
        }
        let Assembly { files, module, table, intrinsics, kernel_source: _, stage: _ } = self;
        let mut module = module;
        let kernel_source = {
            let nodes = collect_functions(&files);
            match define_pass(&nodes, 4, &table, &intrinsics, &mut module) {
                Ok(text) => text,
                Err(e) => {
                    return Err(e);
                },
            }
        };
        Ok(Assembly { files, module, table, intrinsics, kernel_source, stage: Stage::Defined })
    }

    /// The module.
    pub fn module(&self) -> (module: &Module)
        ensures
            module@ == self@.module,
    {
        &self.module
    }

    /// The text of the secondary module.
    pub fn kernel_source(&self) -> (text: &String)
        ensures
            text@ == self@.kernel_source,
    {
        &self.kernel_source
    }

    /// How far the assembly has come.
    pub fn stage(&self) -> (stage: Stage)
        ensures
            stage == self@.stage,
    {
        self.stage
    }

    /// Records how reading, checking and linking the secondary module
    /// ended. A success moves the assembly on to `Linked`; a failure is
    /// `ModuleLinkFailure` and leaves it where it is.
    pub fn linked(&mut self, succeeded: bool) -> (result: Result<(), CompileError>)
        requires
            old(self)@.stage == Stage::Defined,
        ensures
            final(self).source() == old(self).source(),
            succeeded ==> result is Ok && final(self)@ == (AssemblyV {
                stage: Stage::Linked,
                ..old(self)@
            }),
            !succeeded ==> result == Err::<(), CompileError>(CompileError::ModuleLinkFailure)
                && final(self)@ == old(self)@,
    {
        proof {
            use_type_invariant(&*self);
        }
        if succeeded {
            self.stage = Stage::Linked;
            Ok(())
        } else {
            Err(CompileError::ModuleLinkFailure)
        }
    }

    /// Records how the final check of the linked module ended. A success
    /// moves the assembly on to `Verified`; a failure is
    /// `ModuleVerificationFailure` and leaves it where it is.
    pub fn verified(&mut self, succeeded: bool) -> (result: Result<(), CompileError>)
        requires
            old(self)@.stage == Stage::Linked,
        ensures
            final(self).source() == old(self).source(),
            succeeded ==> result is Ok && final(self)@ == (AssemblyV {
                stage: Stage::Verified,
                ..old(self)@
            }),
            !succeeded ==> result == Err::<(), CompileError>(
                CompileError::ModuleVerificationFailure,
            ) && final(self)@ == old(self)@,
    {
        proof {
            use_type_invariant(&*self);
        }
        if succeeded {
            self.stage = Stage::Verified;
            Ok(())
        } else {
            Err(CompileError::ModuleVerificationFailure)
        }
    }

    /// Whether the module may be written out: only once it is verified.
    pub fn may_serialize(&self) -> (allowed: bool)
        ensures
            allowed == (self@.stage == Stage::Verified),
    {
        match self.stage {
            Stage::Verified => true,
            _ => false,
        }
    }
}

/// Compiles the files into one module, up to the stage `Defined`.
///
/// Every function of every file is declared before any body is lowered.
/// The first failure ends the compilation; failures of the declaration
/// pass come before those of the definition pass.
pub fn do_compile(files: Vec<Vec<TypedExpr>>) -> (result: Result<Assembly, CompileError>)
    ensures
        match compiled(file_models(files@)) {
            Ok((module, text)) => {
                &&& result matches Ok(assembly)
                &&& assembly.source() == file_models(files@)
                &&& assembly@ == (AssemblyV {
                    module,
                    kernel_source: text,
                    stage: Stage::Defined,
                })
            },
            Err(e) => result matches Err(got) && got == e,
        },
{
    match Assembly::declare(files) {
        Ok(assembly) => assembly.define(),
        Err(e) => Err(e),
    }
}

} // verus!
