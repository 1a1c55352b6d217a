//! A compiler for a small typed, imperative language with GPU kernels.
//!
//! The library lowers typed syntax trees to a portable low-level
//! intermediate representation, held as plain data: every function of
//! every file is declared, then every body is lowered against the complete
//! table of declarations. Calls are resolved among the overloads of a name
//! by the implicit widenings that the arguments need.

pub mod assemble;
pub mod builder;
pub mod cast;
pub mod compile;
pub mod decls;
pub mod error;
pub mod expr;
pub mod imports;
pub mod ir;
pub mod lower;
pub mod module;
pub mod number;
pub mod parser;
pub mod pool;
pub mod resolve;
pub mod scope;
pub mod subtype;
pub mod text;
pub mod types;

pub use assemble::{
    build_trivial_body, llvm_declare_func, llvm_define_func, llvm_embedded_ir,
    llvm_embedded_kernel_decl, llvm_set_param_name,
};
pub use builder::{BinOp, Builder, CastOp, Inst, Value};
pub use cast::{gen_subtype_cast, select_cast};
pub use compile::{do_compile, Assembly, Stage};
pub use decls::{DeclTable, FuncRef};
pub use error::CompileError;
pub use expr::{BaseExpr, TypedExpr};
pub use imports::ImportQueue;
pub use ir::{map_type, reverse_type, AddressSpace, IrType};
pub use lower::{build_intrinsics, build_recurse_expr};
pub use module::{Context, Function, Module, NVIntrinsics, Param};
pub use number::parse_number;
pub use parser::{
    gen_bin_op, walk_fun_body, walk_func, walk_pairs, walk_ty, walk_value_expr,
    walk_value_expr_with_climber, walk_value_node, Pair, RudaParser, Rule,
};
pub use pool::StringPool;
pub use resolve::{resolve, Resolved};
pub use scope::ScopeStack;
pub use subtype::{is_subtype, subtype_check};
pub use types::{Ty, TyName};
