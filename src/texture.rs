//! Texture identifiers and the ordered accumulator of texture changes.

use vstd::prelude::*;

verus! {

/// Identifies a texture known to the painter.
#[derive(Clone, Copy, Debug, PartialEq, Eq, Structural)]
pub enum TexId {
    /// A texture allocated by the GUI context itself (font atlas, images).
    Managed(u64),
    /// A texture registered by the application.
    User(u64),
}

/// Texture changes waiting to be applied by the painter: `set` is uploaded
/// before drawing, `free` is released after drawing, both in order.
pub struct TextureDelta<D> {
    pub set: Vec<(TexId, D)>,
    pub free: Vec<TexId>,
}

/// The mathematical content of a [`TextureDelta`].
pub struct TextureDeltaView<D> {
    pub set: Seq<(TexId, D)>,
    pub free: Seq<TexId>,
}

impl<D> TextureDeltaView<D> {
    /// No uploads and no frees.
    pub open spec fn empty() -> Self {
        TextureDeltaView { set: Seq::empty(), free: Seq::empty() }
    }

    pub open spec fn is_empty(self) -> bool {
        self.set.len() == 0 && self.free.len() == 0
    }

    /// The changes of `self` followed by those of `newer`, each category
    /// keeping its order.
    pub open spec fn concat(self, newer: Self) -> Self {
        TextureDeltaView { set: self.set + newer.set, free: self.free + newer.free }
    }

    /// The identifiers of the uploads, in order.
    pub open spec fn set_ids(self) -> Seq<TexId> {
        self.set.map_values(|e: (TexId, D)| e.0)
    }
}

impl<D> View for TextureDelta<D> {
    type V = TextureDeltaView<D>;

    open spec fn view(&self) -> TextureDeltaView<D> {
        TextureDeltaView { set: self.set@, free: self.free@ }
    }
}

impl<D> TextureDelta<D> {
    /// A delta with nothing to upload and nothing to free.
    pub fn new() -> (r: Self)
        ensures
            r@ == TextureDeltaView::<D>::empty(),
    {
        TextureDelta { set: Vec::new(), free: Vec::new() }
    }

    pub fn is_empty(&self) -> (r: bool)
        ensures
            r == self@.is_empty(),
    {
        self.set.len() == 0 && self.free.len() == 0
    }

    /// Appends the changes of a later frame after those already held.
    pub fn append(&mut self, newer: Self)
        ensures
            final(self)@ == old(self)@.concat(newer@),
    {
        let TextureDelta { set: mut newer_set, free: mut newer_free } = newer;
        self.set.append(&mut newer_set);
        self.free.append(&mut newer_free);
    }

    /// The identifiers of the pending uploads, in order.
    pub fn set_ids(&self) -> (r: Vec<TexId>)
        ensures
            r@ == self@.set_ids(),
    {
        let mut r: Vec<TexId> = Vec::new();
        let mut i: usize = 0;
        while i < self.set.len()
            invariant
                i <= self.set@.len(),
                r@ == self@.set_ids().subrange(0, i as int),
            decreases self.set@.len() - i,
        {
            r.push(self.set[i].0);
            i = i + 1;
            assert(r@ =~= self@.set_ids().subrange(0, i as int));
        }
        assert(r@ =~= self@.set_ids());
        r
    }

    /// The identifiers of the pending frees, in order.
    pub fn free_ids(&self) -> (r: Vec<TexId>)
        ensures
            r@ == self@.free,
    {
        let mut r: Vec<TexId> = Vec::new();
        let mut i: usize = 0;
        while i < self.free.len()
            invariant
                i <= self.free@.len(),
                r@ == self@.free.subrange(0, i as int),
            decreases self.free@.len() - i,
        {
            r.push(self.free[i]);
            i = i + 1;
            assert(r@ =~= self@.free.subrange(0, i as int));
        }
        assert(r@ =~= self@.free);
        r
    }
}

} // verus!
