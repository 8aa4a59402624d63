use std::sync::Arc;
use vstd::prelude::*;

verus! {

/// A shared handle to an immutable layer adapter `L`, which may be unsized
/// (a trait object), so that adapters of different concrete types share one
/// handle type.
pub struct BoxLayer<L: ?Sized> {
    boxed: Arc<L>,
}

impl<L: ?Sized> BoxLayer<L> {
    /// The adapter this handle points to.
    pub closed spec fn adapter(&self) -> &L {
        &*self.boxed
    }

    /// Whether two handles point to the same adapter.
    pub open spec fn shares_with(&self, other: &BoxLayer<L>) -> bool {
        self.adapter() == other.adapter()
    }

    /// Makes a handle from an adapter that is already shared, for example one
    /// whose concrete type was erased to a trait object.
    pub fn from_shared(boxed: Arc<L>) -> (r: Self)
        ensures
            r.adapter() == &*boxed,
    {
        BoxLayer { boxed }
    }

    /// The adapter this handle points to.
    pub fn get_ref(&self) -> (r: &L)
        ensures
            r == self.adapter(),
    {
        &*self.boxed
    }

    /// Applies the adapter to `inner`, producing a new service. The handle is
    /// not changed: every call is independent of the ones before it.
    pub fn layer<In, S>(&self, inner: In) -> (r: S) where L: Fn(In) -> S
        requires
            self.adapter().requires((inner,)),
        ensures
            self.adapter().ensures((inner,), r),
    {
        (*self.boxed)(inner)
    }
}

impl<L> BoxLayer<L> {
    /// Moves `inner_layer` behind a new shared handle.
    pub fn new(inner_layer: L) -> (r: Self)
        ensures
            *r.adapter() == inner_layer,
    {
        BoxLayer { boxed: Arc::new(inner_layer) }
    }
}

impl<L: ?Sized> Clone for BoxLayer<L> {
    /// Another handle to the same adapter: the reference count grows, the
    /// adapter is not copied.
    fn clone(&self) -> (r: Self)
        ensures
            r.shares_with(self),
    {
        BoxLayer { boxed: Arc::clone(&self.boxed) }
    }
}

/// A handle and any clone of it behave alike: applied to equal inputs, both
/// accept the same inputs and admit exactly the same produced services,
/// because they delegate to one shared adapter.
pub proof fn lemma_clone_same_behaviour<L: ?Sized, In, S>(
    original: &BoxLayer<L>,
    copy: &BoxLayer<L>,
    inner: In,
) where L: Fn(In) -> S
    requires
        copy.shares_with(original),
    ensures
        original.adapter().requires((inner,)) <==> copy.adapter().requires((inner,)),
        forall|r: S|
            #[trigger] original.adapter().ensures((inner,), r) <==> copy.adapter().ensures(
                (inner,),
                r,
            ),
{
}

/// A layer that applies `wrap` to an inner value and then at once hands the
/// produced service to `erase`, which hides its concrete type.
pub struct EraseLayer<W, E> {
    wrap: W,
    erase: E,
}

impl<W, E> EraseLayer<W, E> {
    /// The concrete layer step.
    pub closed spec fn wrap_step(&self) -> W {
        self.wrap
    }

    /// The erasing step.
    pub closed spec fn erase_step(&self) -> E {
        self.erase
    }

    /// Composes the concrete layer step `wrap` with the erasing step `erase`.
    pub fn new(wrap: W, erase: E) -> (r: Self)
        ensures
            r.wrap_step() == wrap,
            r.erase_step() == erase,
    {
        EraseLayer { wrap, erase }
    }

    /// Applies the concrete layer to `inner` and erases the service it
    /// produced. The result is exactly an erased service of the concrete
    /// layer's output on `inner`.
    pub fn layer<In, M, S>(&self, inner: In) -> (r: S) where W: Fn(In) -> M, E: Fn(M) -> S
        requires
            self.wrap_step().requires((inner,)),
            forall|m: M| #[trigger]
                self.wrap_step().ensures((inner,), m) ==> self.erase_step().requires((m,)),
        ensures
            exists|m: M| #[trigger]
                self.wrap_step().ensures((inner,), m) && self.erase_step().ensures((m,), r),
    {
        let out = (self.wrap)(inner);
        (self.erase)(out)
    }
}

} // verus!
