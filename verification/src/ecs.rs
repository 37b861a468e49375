//! Embedded Entity-Component System (ECS).
//!
//! An entity is wrapped in layers of components.  Polling a layer stack asks
//! each component, outermost first, for a pending event; the first event
//! found is tagged with the layer it came from ([`List`]) and routed back to
//! that layer's component for processing.

use vstd::prelude::*;

verus! {

/// Used to chain the results of each layer together
pub enum List<A, B> {
    /// Event for the first layer
    Head(A),
    /// Events for the rest of the layers
    Rest(B),
}

/// Trait to allow for borrowing a reference to the inner type
pub trait RefGuard<T>: core::ops::Deref<Target = T> {}

/// Trait to allow for borrowing a mutable reference to the inner type
pub trait RefMutGuard<T>: core::ops::DerefMut<Target = T> {}

impl<'a, T> RefGuard<T> for &'a T {}

impl<'a, T> RefMutGuard<T> for &'a mut T {}

/// Core component type
pub trait Component<T> {
    /// Event type that we're waiting for
    type Event;

    /// The event pending for `entity`, if any.  Components verified in this
    /// crate define it; for others it is left unspecified.
    closed spec fn pending_event(&self, entity: T) -> Option<Self::Event> {
        vstd::pervasive::arbitrary()
    }

    /// The entity after processing `event`.  Components verified in this
    /// crate define it; for others it is left unspecified.
    closed spec fn processed(&self, entity: T, event: Self::Event) -> T {
        vstd::pervasive::arbitrary()
    }

    /// Polls for an event
    fn wait_event(&self, entity: &T) -> (r: Option<Self::Event>)
        ensures
            r == self.pending_event(*entity),
    ;

    /// Process the event
    fn process(&self, entity: &mut T, event: Self::Event)
        ensures
            *final(entity) == self.processed(*old(entity), event),
    ;
}

/// Entity trait
pub trait Entity: Sized {
    /// Underlying type of the entity
    type Inner;

    /// The entity held.
    spec fn entity(&self) -> Self::Inner;

    /// This holder with `entity` in place of the entity it holds.
    spec fn with_entity(self, entity: Self::Inner) -> Self;

    /// A holder given an entity holds that entity.
    proof fn lemma_with_entity(self, entity: Self::Inner)
        ensures
            self.with_entity(entity).entity() == entity,
            self.with_entity(entity).with_entity(self.entity()) == self,
            self.with_entity(self.entity()) == self,
    ;

    /// Get a reference to the inner entity
    fn get_entity(&self) -> (r: &Self::Inner)
        ensures
            *r == self.entity(),
    ;

    /// Get a mutable reference to the inner entity
    fn get_entity_mut(&mut self) -> (r: &mut Self::Inner)
        ensures
            *r == old(self).entity(),
            *final(self) == (*old(self)).with_entity(*final(r)),
    ;
}

/// Layer trait
pub trait Layer: Entity + Component<<Self as Entity>::Inner> + Sized {
    /// Process an event of this layer stack on the entity it holds
    fn process_event(&mut self, event: <Self as Component<<Self as Entity>::Inner>>::Event)
        ensures
            final(self).entity() == old(self).processed(old(self).entity(), event),
            *final(self) == (*old(self)).with_entity(final(self).entity()),
    ;

    /// Process the pending event, if any, for the layer and layers below it
    fn process_all(&mut self)
        ensures
            final(self).entity() == match old(self).pending_event(old(self).entity()) {
                Some(e) => old(self).processed(old(self).entity(), e),
                None => old(self).entity(),
            },
            *final(self) == (*old(self)).with_entity(final(self).entity()),
    ;
}

/// Layer wrapper that provides common functionality and chaining logic
pub struct LayerWrapper<L: Layer, C: Component<<L as Entity>::Inner>> {
    inner: L,
    component: C,
}

impl<L: Layer, C: Component<<L as Entity>::Inner>> LayerWrapper<L, C> {
    /// The layers below this one.
    pub closed spec fn layer(&self) -> L {
        self.inner
    }

    /// The component of this layer.
    pub closed spec fn component(&self) -> C {
        self.component
    }

    /// Create a new layer wrapper
    pub fn new(layer: L, component: C) -> (r: Self)
        ensures
            r.layer() == layer,
            r.component() == component,
    {
        Self { inner: layer, component }
    }

    /// Add a new component as a new layer on top of us
    pub fn add_component<C2: Component<<L as Entity>::Inner>>(self, component: C2) -> (r: LayerWrapper<
        Self,
        C2,
    >)
        ensures
            r.layer() == self,
            r.component() == component,
    {
        LayerWrapper::new(self, component)
    }
}

impl<L: Layer, C: Component<<L as Entity>::Inner>> Entity for LayerWrapper<L, C> {
    type Inner = <L as Entity>::Inner;

    open spec fn entity(&self) -> Self::Inner {
        self.layer().entity()
    }

    closed spec fn with_entity(self, entity: Self::Inner) -> Self {
        LayerWrapper { inner: self.layer().with_entity(entity), component: self.component() }
    }

    proof fn lemma_with_entity(self, entity: Self::Inner) {
        self.layer().lemma_with_entity(entity);
        self.layer().with_entity(entity).lemma_with_entity(self.layer().entity());
    }

    fn get_entity(&self) -> (r: &Self::Inner) {
        self.inner.get_entity()
    }

    fn get_entity_mut(&mut self) -> (r: &mut Self::Inner) {
        self.inner.get_entity_mut()
    }
}

impl<L: Layer, C: Component<<L as Entity>::Inner>> Component<<L as Entity>::Inner> for LayerWrapper<
    L,
    C,
> {
    type Event = List<C::Event, <L as Component<<L as Entity>::Inner>>::Event>;

    open spec fn pending_event(&self, entity: <L as Entity>::Inner) -> Option<Self::Event> {
        match self.component().pending_event(entity) {
            Some(e) => Some(List::Head(e)),
            None => match self.layer().pending_event(entity) {
                Some(e) => Some(List::Rest(e)),
                None => None,
            },
        }
    }

    open spec fn processed(&self, entity: <L as Entity>::Inner, event: Self::Event) -> <L as Entity>::Inner {
        match event {
            List::Head(e) => self.component().processed(entity, e),
            List::Rest(e) => self.layer().processed(entity, e),
        }
    }

    fn wait_event(&self, entity: &<L as Entity>::Inner) -> (r: Option<Self::Event>) {
        match self.component.wait_event(entity) {
            Some(event) => Some(List::Head(event)),
            None => match self.inner.wait_event(entity) {
                Some(event) => Some(List::Rest(event)),
                None => None,
            },
        }
    }

    fn process(&self, entity: &mut <L as Entity>::Inner, event: Self::Event) {
        match event {
            List::Head(event) => self.component.process(entity, event),
            List::Rest(event) => self.inner.process(entity, event),
        }
    }
}

impl<L: Layer, C: Component<<L as Entity>::Inner>> Layer for LayerWrapper<L, C> {
    fn process_event(&mut self, event: <Self as Component<<Self as Entity>::Inner>>::Event) {
        match event {
            List::Head(event) => {
                let ghost old_inner = self.inner;
                let entity = self.inner.get_entity_mut();
                self.component.process(entity, event);
                proof {
                    old_inner.lemma_with_entity(*entity);
                }
            },
            List::Rest(event) => {
                let ghost old_inner = self.inner;
                self.inner.process_event(event);
                proof {
                    old_inner.lemma_with_entity(self.inner.entity());
                }
            },
        }
    }

    fn process_all(&mut self) {
        let ghost old_self = *self;
        let event = self.wait_event(self.get_entity());
        match event {
            Some(event) => {
                self.process_event(event);
                proof {
                    old_self.lemma_with_entity(self.entity());
                }
            },
            None => {
                proof {
                    old_self.lemma_with_entity(old_self.entity());
                }
            },
        }
    }
}

/// Law: an event pending on a layer's own component is the one the layer
/// reports (the outer component is served first); the layers below report
/// only when the component has nothing pending.
pub proof fn lemma_outer_component_first<L: Layer, C: Component<<L as Entity>::Inner>>(
    layer: LayerWrapper<L, C>,
    entity: <L as Entity>::Inner,
)
    ensures
        layer.component().pending_event(entity) matches Some(e) ==> layer.pending_event(entity) == Some(
            List::<C::Event, <L as Component<<L as Entity>::Inner>>::Event>::Head(e),
        ),
        layer.component().pending_event(entity) is None ==> (layer.pending_event(entity) is Some
            <==> layer.layer().pending_event(entity) is Some),
{
}

/// Law: an event is processed by the component that raised it: an event
/// reported by a layer and processed by it has the effect its source
/// component gives it.
pub proof fn lemma_event_routed_to_source<L: Layer, C: Component<<L as Entity>::Inner>>(
    layer: LayerWrapper<L, C>,
    entity: <L as Entity>::Inner,
)
    ensures
        layer.pending_event(entity) matches Some(ev) ==> layer.processed(entity, ev) == match ev {
            List::Head(e) => layer.component().processed(entity, e),
            List::Rest(e) => layer.layer().processed(entity, e),
        },
{
}

/// Law: a bare entity never raises an event, so a stack's events all come
/// from its components.
pub proof fn lemma_bare_entity_is_quiet<T>(e: EntityRef<T>, entity: T)
    ensures
        e.pending_event(entity) is None,
{
}

/// Entity that stores its value
pub struct EntityRef<T> {
    inner: T,
}

impl<T> EntityRef<T> {
    /// Create a new entity reference
    pub fn new(entity: T) -> (r: Self)
        ensures
            r.entity() == entity,
    {
        Self { inner: entity }
    }

    /// Wrap the entity in a new component layer
    pub fn add_component<C: Component<T>>(self, component: C) -> (r: LayerWrapper<Self, C>)
        ensures
            r.layer() == self,
            r.component() == component,
    {
        LayerWrapper::new(self, component)
    }
}

impl<T> Entity for EntityRef<T> {
    type Inner = T;

    closed spec fn entity(&self) -> T {
        self.inner
    }

    closed spec fn with_entity(self, entity: T) -> Self {
        EntityRef { inner: entity }
    }

    proof fn lemma_with_entity(self, entity: T) {
    }

    fn get_entity(&self) -> (r: &T) {
        &self.inner
    }

    fn get_entity_mut(&mut self) -> (r: &mut T) {
        &mut self.inner
    }
}

impl<T> Component<T> for EntityRef<T> {
    type Event = ();

    /// A bare entity never has an event pending.
    open spec fn pending_event(&self, entity: T) -> Option<()> {
        None
    }

    open spec fn processed(&self, entity: T, event: ()) -> T {
        entity
    }

    fn wait_event(&self, entity: &T) -> (r: Option<()>) {
        None
    }

    fn process(&self, entity: &mut T, event: ()) {
    }
}

impl<T> Layer for EntityRef<T> {
    fn process_event(&mut self, event: ()) {
    }

    fn process_all(&mut self) {
    }
}

} // verus!
