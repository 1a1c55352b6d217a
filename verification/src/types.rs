//! The structural type model of the language.

use vstd::prelude::*;

verus! {

/// A type of the language.
///
/// `NameBind` is a primitive named by its spelling, `VarBind` a placeholder
/// that stands for the type of a call site or identifier until the
/// surrounding context determines it, `MutBind` marks an assignable binding,
/// `Array` is an addressable reference to elements of the inner type,
/// `Tuple` a parameter list and `Arrow` a callable signature.
#[derive(Debug)]
pub enum TyName {
    NameBind(String),
    VarBind(String),
    MutBind(Box<TyName>),
    Array(Box<TyName>),
    Arrow(Box<TyName>, Box<TyName>),
    Tuple(Vec<TyName>),
    Unit,
}

/// The mathematical value of a [`TyName`]: names are sequences of
/// characters and parameter lists are sequences of types.
pub enum Ty {
    Name(Seq<char>),
    Var(Seq<char>),
    Mut(Box<Ty>),
    Array(Box<Ty>),
    Arrow(Box<Ty>, Box<Ty>),
    Tuple(Seq<Ty>),
    Unit,
}

impl TyName {
    /// The mathematical value of this type.
    pub open spec fn model(self) -> Ty
        decreases self,
    {
        match self {
            TyName::NameBind(name) => Ty::Name(name@),
            TyName::VarBind(tag) => Ty::Var(tag@),
            TyName::MutBind(inner) => Ty::Mut(Box::new((*inner).model())),
            TyName::Array(inner) => Ty::Array(Box::new((*inner).model())),
            TyName::Arrow(params, ret) => Ty::Arrow(
                Box::new((*params).model()),
                Box::new((*ret).model()),
            ),
            TyName::Tuple(items) => Ty::Tuple(
                Seq::new(
                    items@.len(),
                    |i: int|
                        if 0 <= i < items@.len() {
                            items@[i].model()
                        } else {
                            Ty::Unit
                        },
                ),
            ),
            TyName::Unit => Ty::Unit,
        }
    }
}

impl View for TyName {
    type V = Ty;

    open spec fn view(&self) -> Ty {
        self.model()
    }
}

/// The primitive type spelled `name`.
pub open spec fn prim(name: &str) -> Ty {
    Ty::Name(name@)
}

/// Whether `name` is spelled as `spelling`.
pub fn name_is(name: &String, spelling: &str) -> (same: bool)
    ensures
        same == (name@ == spelling@),
{
    *name == String::from_str(spelling)
}

/// The mathematical values of a list of types, item by item.
pub open spec fn models(items: Seq<TyName>) -> Seq<Ty> {
    Seq::new(items.len(), |i: int| items[i]@)
}

/// The value of a parameter list is the list of its items' values.
pub proof fn lemma_tuple_model(items: Vec<TyName>)
    ensures
        TyName::Tuple(items)@ == Ty::Tuple(models(items@)),
{
    assert(TyName::Tuple(items)@->Tuple_0 =~= models(items@));
}

impl TyName {
    /// The signature of a callable that takes `params` and returns `ret`.
    pub fn get_arrow(params: Vec<TyName>, ret: TyName) -> (arrow: TyName)
        ensures
            arrow@ == Ty::Arrow(Box::new(Ty::Tuple(models(params@))), Box::new(ret@)),
    {
        proof {
            lemma_tuple_model(params);
        }
        TyName::Arrow(Box::new(TyName::Tuple(params)), Box::new(ret))
    }

    /// A primitive type with the given spelling.
    pub fn named(name: &str) -> (ty: TyName)
        ensures
            ty@ == Ty::Name(name@),
    {
        TyName::NameBind(String::from_str(name))
    }

    /// Structural equality: the variants and all sub-fields match.
    pub fn same(&self, other: &TyName) -> (eq: bool)
        ensures
            eq == (self@ == other@),
        decreases self,
    {
        match (self, other) {
            (TyName::NameBind(a), TyName::NameBind(b)) => *a == *b,
            (TyName::VarBind(a), TyName::VarBind(b)) => *a == *b,
            (TyName::MutBind(a), TyName::MutBind(b)) => (&**a).same(&**b),
            (TyName::Array(a), TyName::Array(b)) => (&**a).same(&**b),
            (TyName::Arrow(p, r), TyName::Arrow(q, s)) => {
                (&**p).same(&**q) && (&**r).same(&**s)
            },
            (TyName::Tuple(xs), TyName::Tuple(ys)) => {
                if xs.len() != ys.len() {
                    assert(self@->Tuple_0.len() != other@->Tuple_0.len());
                    return false;
                }
                let mut i: usize = 0;
                while i < xs.len()
                    invariant
                        i <= xs.len(),
                        xs.len() == ys.len(),
                        *self == TyName::Tuple(*xs),
                        *other == TyName::Tuple(*ys),
                        forall|j: int| 0 <= j < i ==> xs@[j]@ == ys@[j]@,
                    decreases xs.len() - i,
                {
                    if !xs[i].same(&ys[i]) {
                        assert(self@->Tuple_0[i as int] != other@->Tuple_0[i as int]);
                        return false;
                    }
                    i += 1;
                }
                assert(self@->Tuple_0 =~= other@->Tuple_0);
                true
            },
            (TyName::Unit, TyName::Unit) => true,
            _ => false,
        }
    }
}

impl TyName {
    /// A copy with the same mathematical value.
    pub fn duplicate(&self) -> (copy: Self)
        ensures
            copy@ == self@,
        decreases self,
    {
        match self {
            TyName::NameBind(name) => TyName::NameBind(name.clone()),
            TyName::VarBind(tag) => TyName::VarBind(tag.clone()),
            TyName::MutBind(inner) => TyName::MutBind(Box::new((&**inner).duplicate())),
            TyName::Array(inner) => TyName::Array(Box::new((&**inner).duplicate())),
            TyName::Arrow(params, ret) => TyName::Arrow(
                Box::new((&**params).duplicate()),
                Box::new((&**ret).duplicate()),
            ),
            TyName::Tuple(items) => {
                let mut out: Vec<TyName> = Vec::new();
                let mut i: usize = 0;
                while i < items.len()
                    invariant
                        i <= items.len(),
                        out@.len() == i,
                        *self == TyName::Tuple(*items),
                        forall|j: int| 0 <= j < i ==> out@[j]@ == items@[j]@,
                    decreases items.len() - i,
                {
                    assert(decreases_to!(*self => self->Tuple_0));
                    let item = items[i].duplicate();
                    out.push(item);
                    i += 1;
                }
                let copy = TyName::Tuple(out);
                assert(copy@->Tuple_0 =~= self@->Tuple_0);
                copy
            },
            TyName::Unit => TyName::Unit,
        }
    }
}

/// Copies of the given types, in the same order.
pub fn clone_types(items: &Vec<TyName>) -> (copies: Vec<TyName>)
    ensures
        models(copies@) == models(items@),
{
    let mut copies: Vec<TyName> = Vec::new();
    let mut at: usize = 0;
    while at < items.len()
        invariant
            at <= items.len(),
            copies@.len() == at,
            forall|j: int| 0 <= j < at ==> copies@[j]@ == items@[j]@,
        decreases items.len() - at,
    {
        copies.push(items[at].duplicate());
        at += 1;
    }
    assert(models(copies@) =~= models(items@));
    copies
}

impl Clone for TyName {
    fn clone(&self) -> (copy: Self)
        ensures
            copy@ == self@,
    {
        self.duplicate()
    }
}

impl PartialEq for TyName {
    fn eq(&self, other: &TyName) -> (eq: bool) {
        self.same(other)
    }
}

impl vstd::std_specs::cmp::PartialEqSpecImpl for TyName {
    open spec fn obeys_eq_spec() -> bool {
        true
    }

    open spec fn eq_spec(&self, other: &TyName) -> bool {
        self@ == other@
    }
}

impl Eq for TyName {}

} // verus!
