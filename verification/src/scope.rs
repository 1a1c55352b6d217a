//! The stack of lexical scopes that a function body is lowered against.

use crate::builder::Value;
use crate::error::CompileError;
use crate::types::{Ty, TyName};
use vstd::prelude::*;

verus! {

/// What a name is bound to: a value and its type.
pub type Binding = (Value, Ty);

/// One frame as a mapping: of the bindings made for a name, the last one
/// counts.
pub open spec fn frame_model(entries: Seq<(String, Value, TyName)>) -> Map<Seq<char>, Binding>
    decreases entries.len(),
{
    if entries.len() == 0 {
        Map::empty()
    } else {
        frame_model(entries.drop_last()).insert(
            entries.last().0@,
            (entries.last().1, entries.last().2@),
        )
    }
}

/// What `name` refers to in a stack of frames: its binding in the
/// innermost frame that has one.
pub open spec fn resolve_in(frames: Seq<Map<Seq<char>, Binding>>, name: Seq<char>) -> Option<
    Binding,
>
    decreases frames.len(),
{
    if frames.len() == 0 {
        None
    } else if frames.last().dom().contains(name) {
        Some(frames.last()[name])
    } else {
        resolve_in(frames.drop_last(), name)
    }
}

/// The stack of frames after `name` is bound in the innermost one.
pub open spec fn bind_in(
    frames: Seq<Map<Seq<char>, Binding>>,
    name: Seq<char>,
    binding: Binding,
) -> Seq<Map<Seq<char>, Binding>>
    recommends
        frames.len() > 0,
{
    frames.update(frames.len() - 1, frames.last().insert(name, binding))
}

/// A binding shadows every other binding of its name and leaves the other
/// names as they are.
pub proof fn law_binding_shadows(
    frames: Seq<Map<Seq<char>, Binding>>,
    name: Seq<char>,
    binding: Binding,
    other: Seq<char>,
)
    requires
        frames.len() > 0,
    ensures
        resolve_in(bind_in(frames, name, binding), name) == Some(binding),
        other != name ==> resolve_in(bind_in(frames, name, binding), other) == resolve_in(
            frames,
            other,
        ),
{
    let bound = bind_in(frames, name, binding);
    assert(bound.drop_last() =~= frames.drop_last());
}

/// What a name refers to is the same after a frame was opened and
/// discarded again, whatever was bound in it.
pub proof fn law_frames_nest(
    frames: Seq<Map<Seq<char>, Binding>>,
    inner: Map<Seq<char>, Binding>,
    name: Seq<char>,
)
    ensures
        resolve_in(frames.push(inner).drop_last(), name) == resolve_in(frames, name),
        !inner.dom().contains(name) ==> resolve_in(frames.push(inner), name) == resolve_in(
            frames,
            name,
        ),
        inner.dom().contains(name) ==> resolve_in(frames.push(inner), name) == Some(inner[name]),
{
    assert(frames.push(inner).drop_last() =~= frames);
}

proof fn lemma_frame_last_match(entries: Seq<(String, Value, TyName)>, name: Seq<char>, at: int)
    requires
        0 <= at < entries.len(),
        entries[at].0@ == name,
        forall|k: int| at < k < entries.len() ==> entries[k].0@ != name,
    ensures
        frame_model(entries).dom().contains(name),
        frame_model(entries)[name] == (entries[at].1, entries[at].2@),
    decreases entries.len(),
{
    if at < entries.len() - 1 {
        lemma_frame_last_match(entries.drop_last(), name, at);
    }
}

proof fn lemma_frame_no_match(entries: Seq<(String, Value, TyName)>, name: Seq<char>)
    requires
        forall|k: int| 0 <= k < entries.len() ==> entries[k].0@ != name,
    ensures
        !frame_model(entries).dom().contains(name),
    decreases entries.len(),
{
    if entries.len() > 0 {
        lemma_frame_no_match(entries.drop_last(), name);
    }
}

/// Nested lexical environments, innermost last.
#[derive(Debug)]
pub struct ScopeStack {
    frames: Vec<Vec<(String, Value, TyName)>>,
}

impl View for ScopeStack {
    type V = Seq<Map<Seq<char>, Binding>>;

    closed spec fn view(&self) -> Seq<Map<Seq<char>, Binding>> {
        Seq::new(self.frames@.len(), |i: int| frame_model(self.frames@[i]@))
    }
}

/// Looks `name` up in one frame.
fn frame_lookup(entries: &Vec<(String, Value, TyName)>, name: &String) -> (found: Option<
    (Value, TyName),
>)
    ensures
        found is Some <==> frame_model(entries@).dom().contains(name@),
        found matches Some((value, ty)) ==> frame_model(entries@)[name@] == (value, ty@),
{
    let mut at: usize = entries.len();
    while at > 0
        invariant
            at <= entries.len(),
            forall|k: int| at <= k < entries.len() ==> entries@[k].0@ != name@,
        decreases at,
    {
        at -= 1;
        if entries[at].0 == *name {
            proof {
                lemma_frame_last_match(entries@, name@, at as int);
            }
            return Some((entries[at].1, entries[at].2.clone()));
        }
    }
    proof {
        lemma_frame_no_match(entries@, name@);
    }
    None
}

impl ScopeStack {
    /// A stack without frames.
    pub fn new() -> (scope: ScopeStack)
        ensures
            scope@ == Seq::<Map<Seq<char>, Binding>>::empty(),
    {
        let scope = ScopeStack { frames: Vec::new() };
        assert(scope@ =~= Seq::empty());
        scope
    }

    /// The number of frames.
    pub fn depth(&self) -> (n: usize)
        ensures
            n == self@.len(),
    {
        self.frames.len()
    }

    /// Opens a new innermost frame, without bindings.
    pub fn push_frame(&mut self)
        ensures
            final(self)@ == old(self)@.push(Map::empty()),
    {
        self.frames.push(Vec::new());
        assert(self@ =~= old(self)@.push(Map::empty()));
    }

    /// Discards the innermost frame, if there is one.
    pub fn pop_frame(&mut self)
        ensures
            old(self)@.len() > 0 ==> final(self)@ == old(self)@.drop_last(),
            old(self)@.len() == 0 ==> final(self)@ == old(self)@,
    {
        let _ = self.frames.pop();
        assert(old(self)@.len() > 0 ==> self@ =~= old(self)@.drop_last());
        assert(old(self)@.len() == 0 ==> self@ =~= old(self)@);
    }

    /// Binds `name` in the innermost frame. The binding shadows those of
    /// the same name in outer frames and replaces an earlier one in this
    /// frame.
    pub fn bind(&mut self, name: String, value: Value, ty: TyName)
        requires
            old(self)@.len() > 0,
        ensures
            final(self)@ == bind_in(old(self)@, name@, (value, ty@)),
    {
        let last: usize = self.frames.len() - 1;
        let ghost before = self.frames@[last as int]@;
        self.frames[last].push((name, value, ty));
        proof {
            let after = self.frames@[last as int]@;
            assert(after.drop_last() =~= before);
            assert(self@ =~= bind_in(old(self)@, name@, (value, ty@)));
        }
    }

    /// What `name` refers to: its binding in the innermost frame that has
    /// one.
    pub fn lookup(&self, name: &String) -> (found: Result<(Value, TyName), CompileError>)
        ensures
            match resolve_in(self@, name@) {
                Some((value, ty)) => found matches Ok((v, t)) && v == value && t@ == ty,
                None => found == Err::<(Value, TyName), CompileError>(
                    CompileError::UnresolvedIdentifier,
                ),
            },
    {
        let mut at: usize = self.frames.len();
        assert(self@.take(at as int) =~= self@);
        while at > 0
            invariant
                at <= self.frames.len(),
                resolve_in(self@, name@) == resolve_in(self@.take(at as int), name@),
            decreases at,
        {
            at -= 1;
            proof {
                let outer = self@.take(at as int + 1);
                assert(outer.last() == frame_model(self.frames@[at as int]@));
                assert(outer.drop_last() =~= self@.take(at as int));
            }
            match frame_lookup(&self.frames[at], name) {
                Some(binding) => {
                    return Ok(binding);
                },
                None => {},
            }
        }
        Err(CompileError::UnresolvedIdentifier)
    }
}

} // verus!
