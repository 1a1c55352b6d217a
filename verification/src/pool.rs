//! An append-only pool that owns the source texts of a compilation run.

use vstd::prelude::*;

verus! {

/// Owns every source text handed to it, in the order of insertion.
pub struct StringPool {
    data: Vec<String>,
}

impl View for StringPool {
    type V = Seq<Seq<char>>;

    closed spec fn view(&self) -> Seq<Seq<char>> {
        Seq::new(self.data@.len(), |i: int| self.data@[i]@)
    }
}

impl StringPool {
    /// An empty pool.
    pub fn new() -> (pool: Self)
        ensures
            pool@ == Seq::<Seq<char>>::empty(),
    {
        let pool = StringPool { data: Vec::new() };
        assert(pool@ =~= Seq::<Seq<char>>::empty());
        pool
    }

    /// The number of texts in the pool.
    pub fn len(&self) -> (n: usize)
        ensures
            n == self@.len(),
    {
        self.data.len()
    }

    /// Stores `text` at the end of the pool and hands back a borrow of the
    /// stored copy; the texts stored before are unchanged.
    pub fn insert(&mut self, text: String) -> (stored: &str)
        ensures
            final(self)@ == old(self)@.push(text@),
            stored@ == text@,
    {
        self.data.push(text);
        assert(self@ =~= old(self)@.push(text@));
        let last = self.data.len() - 1;
        self.data[last].as_str()
    }

    /// The text stored at position `i`.
    pub fn get(&self, i: usize) -> (stored: &str)
        requires
            i < self@.len(),
        ensures
            stored@ == self@[i as int],
    {
        self.data[i].as_str()
    }
}

} // verus!
