//! The table of declared functions, which calls are resolved against.

use crate::ir::IrType;
use crate::types::{Ty, TyName};
use vstd::prelude::*;

verus! {

/// A handle to a function of the module: its position among the module's
/// functions and the representation of what it returns.
#[derive(Debug, PartialEq, Eq)]
pub struct FuncRef {
    pub index: usize,
    pub ret: IrType,
}

impl FuncRef {
    /// An equal handle.
    pub fn duplicate(&self) -> (copy: FuncRef)
        ensures
            copy == *self,
    {
        FuncRef { index: self.index, ret: self.ret.duplicate() }
    }
}

impl Clone for FuncRef {
    fn clone(&self) -> (copy: Self)
        ensures
            copy == *self,
    {
        self.duplicate()
    }
}

/// One declaration: the declared name, the function and its signature.
pub type Declaration = (Seq<char>, FuncRef, Ty);

/// A function together with its signature.
pub type Overload = (FuncRef, Ty);

/// The functions declared under `name`, in the order of declaration.
pub open spec fn overloads(table: Seq<Declaration>, name: Seq<char>) -> Seq<Overload>
    decreases table.len(),
{
    if table.len() == 0 {
        Seq::empty()
    } else {
        let earlier = overloads(table.drop_last(), name);
        if table.last().0 == name {
            earlier.push((table.last().1, table.last().2))
        } else {
            earlier
        }
    }
}

/// The mathematical values of a list of overloads, item by item.
pub open spec fn overload_models(list: Seq<(FuncRef, TyName)>) -> Seq<Overload> {
    Seq::new(list.len(), |i: int| (list[i].0, list[i].1@))
}

/// Every declaration of a compilation, in the order in which it was made.
/// A name may be declared several times: each declaration is one overload.
#[derive(Debug)]
pub struct DeclTable {
    entries: Vec<(String, FuncRef, TyName)>,
}

impl View for DeclTable {
    type V = Seq<Declaration>;

    closed spec fn view(&self) -> Seq<Declaration> {
        Seq::new(
            self.entries@.len(),
            |i: int| (self.entries@[i].0@, self.entries@[i].1, self.entries@[i].2@),
        )
    }
}

impl DeclTable {
    /// A table without declarations.
    pub fn new() -> (table: DeclTable)
        ensures
            table@ == Seq::<Declaration>::empty(),
    {
        let table = DeclTable { entries: Vec::new() };
        assert(table@ =~= Seq::empty());
        table
    }

    /// The number of declarations.
    pub fn len(&self) -> (n: usize)
        ensures
            n == self@.len(),
    {
        self.entries.len()
    }

    /// Records that `func`, of signature `ty`, is declared under `name`,
    /// after everything declared before.
    pub fn declare(&mut self, name: String, func: FuncRef, ty: TyName)
        ensures
            final(self)@ == old(self)@.push((name@, func, ty@)),
    {
        self.entries.push((name, func, ty));
        assert(self@ =~= old(self)@.push((name@, func, ty@)));
    }

    /// The functions declared under `name`, in the order of declaration.
    pub fn overloads_of(&self, name: &String) -> (list: Vec<(FuncRef, TyName)>)
        ensures
            overload_models(list@) == overloads(self@, name@),
    {
        let mut list: Vec<(FuncRef, TyName)> = Vec::new();
        let mut at: usize = 0;
        assert(self@.take(0) =~= Seq::empty());
        assert(overload_models(list@) =~= Seq::empty());
        while at < self.entries.len()
            invariant
                at <= self.entries.len(),
                overload_models(list@) == overloads(self@.take(at as int), name@),
            decreases self.entries.len() - at,
        {
            let ghost before = overload_models(list@);
            assert(self@.take(at as int + 1).drop_last() =~= self@.take(at as int));
            if self.entries[at].0 == *name {
                let func = self.entries[at].1.duplicate();
                let ty = self.entries[at].2.clone();
                list.push((func, ty));
                assert(overload_models(list@) =~= before.push((func, ty@)));
            }
            at += 1;
        }
        assert(self@.take(at as int) =~= self@);
        list
    }
}

/// A declaration adds one overload to its own name, after those declared
/// before, and none to any other name.
pub proof fn law_declare_appends_one_overload(
    table: Seq<Declaration>,
    declared: Declaration,
    name: Seq<char>,
)
    ensures
        overloads(table.push(declared), name) == if name == declared.0 {
            overloads(table, name).push((declared.1, declared.2))
        } else {
            overloads(table, name)
        },
{
    assert(table.push(declared).drop_last() =~= table);
}

} // verus!
