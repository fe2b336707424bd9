//! The pipeline that runs the runtime's components: what runs once before
//! the first tick, what runs on every tick, and what runs after each tick,
//! each in the order it was added.
use vstd::prelude::*;

verus! {

/// The configuration that pipeline components are made with: they take
/// none of their own.
#[derive(Copy, Clone, Debug, PartialEq, Eq, Structural)]
pub struct NullConfig {}

/// A component that runs on every tick of the pipeline.
pub trait Component: Sized {
    fn new(config: NullConfig) -> Self;
}

/// A component that runs once, before the first tick.
pub trait InitComponent: Sized {
    fn new(config: NullConfig) -> Self;
}

/// A component that runs after every tick, to pass on what the tick
/// produced.
pub trait PostComponent: Sized {
    fn new(config: NullConfig) -> Self;
}

/// Holds the components of the pipeline in the order they run.
pub struct ComponentExecutor<I, T, P> {
    init_components: Vec<I>,
    tick_components: Vec<T>,
    post_components: Vec<P>,
}

impl<I, T, P> ComponentExecutor<I, T, P> {
    /// The components that run before the first tick, in order.
    pub closed spec fn spec_init(&self) -> Seq<I> {
        self.init_components@
    }

    /// The components that run on every tick, in order.
    pub closed spec fn spec_tick(&self) -> Seq<T> {
        self.tick_components@
    }

    /// The components that run after every tick, in order.
    pub closed spec fn spec_post(&self) -> Seq<P> {
        self.post_components@
    }

    /// A pipeline without components.
    pub fn new() -> (executor: Self)
        ensures
            executor.spec_init() == Seq::<I>::empty(),
            executor.spec_tick() == Seq::<T>::empty(),
            executor.spec_post() == Seq::<P>::empty(),
    {
        Self { init_components: Vec::new(), tick_components: Vec::new(), post_components: Vec::new() }
    }

    /// Adds a component that runs on every tick, after those added before.
    pub fn add_component(&mut self, component: T)
        ensures
            final(self).spec_tick() == old(self).spec_tick().push(component),
            final(self).spec_init() == old(self).spec_init(),
            final(self).spec_post() == old(self).spec_post(),
    {
        self.tick_components.push(component);
    }

    /// Adds a tick component made with the default configuration: the
    /// component that `T::new` returns for it.
    pub fn add_component_default(&mut self) where T: Component
        ensures
            final(self).spec_tick().len() == old(self).spec_tick().len() + 1,
            final(self).spec_tick().drop_last() == old(self).spec_tick(),
            call_ensures(T::new, ((NullConfig {}),), final(self).spec_tick().last()),
            final(self).spec_init() == old(self).spec_init(),
            final(self).spec_post() == old(self).spec_post(),
    {
        let component = T::new(NullConfig {});
        self.add_component(component);
        assert(self.spec_tick().drop_last() =~= old(self).spec_tick());
    }

    /// Adds a component that runs before the first tick: the one that
    /// `I::new` returns for the default configuration.
    pub fn add_init_component(&mut self) where I: InitComponent
        ensures
            final(self).spec_init().len() == old(self).spec_init().len() + 1,
            final(self).spec_init().drop_last() == old(self).spec_init(),
            call_ensures(I::new, ((NullConfig {}),), final(self).spec_init().last()),
            final(self).spec_tick() == old(self).spec_tick(),
            final(self).spec_post() == old(self).spec_post(),
    {
        self.init_components.push(I::new(NullConfig {}));
        assert(self.spec_init().drop_last() =~= old(self).spec_init());
    }

    /// Adds a component that runs after every tick: the one that `P::new`
    /// returns for the default configuration.
    pub fn add_post_component(&mut self) where P: PostComponent
        ensures
            final(self).spec_post().len() == old(self).spec_post().len() + 1,
            final(self).spec_post().drop_last() == old(self).spec_post(),
            call_ensures(P::new, ((NullConfig {}),), final(self).spec_post().last()),
            final(self).spec_init() == old(self).spec_init(),
            final(self).spec_tick() == old(self).spec_tick(),
    {
        self.post_components.push(P::new(NullConfig {}));
        assert(self.spec_post().drop_last() =~= old(self).spec_post());
    }

    /// The components that run before the first tick, in order.
    pub fn init_components(&self) -> (components: &[I])
        ensures
            components@ == self.spec_init(),
    {
        self.init_components.as_slice()
    }

    /// The components that run on every tick, in order.
    pub fn tick_components(&self) -> (components: &[T])
        ensures
            components@ == self.spec_tick(),
    {
        self.tick_components.as_slice()
    }

    /// The components that run after every tick, in order.
    pub fn post_components(&self) -> (components: &[P])
        ensures
            components@ == self.spec_post(),
    {
        self.post_components.as_slice()
    }
}

impl<I, T, P> Default for ComponentExecutor<I, T, P> {
    fn default() -> (executor: Self)
        ensures
            executor.spec_init() == Seq::<I>::empty(),
            executor.spec_tick() == Seq::<T>::empty(),
            executor.spec_post() == Seq::<P>::empty(),
    {
        Self::new()
    }
}

} // verus!
