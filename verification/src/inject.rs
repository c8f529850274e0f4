//! An explicit dependency container: values are built through `Init`
//! on every request, while singletons are created once, stored in a
//! field of the container itself, and handed out as copies afterwards.
//! There is no process-wide implicit registry; the container is built
//! once at process start and passed by reference to whatever needs it.

use vstd::prelude::*;

verus! {

/// A hook for types that want to observe their own construction.
pub trait Lifecycle {
    fn on_create();
}

/// Builds a fresh value from the container on every request.
pub trait Init: Sized {
    fn new(container: &mut Container) -> Self;
}

/// Builds the container-wide instance of a type; the container calls
/// this at most once and hands out copies of the stored value
/// afterwards.
pub trait Singleton: Sized {
    fn new(container: &mut Container) -> Self;
}

/// A per-request system around a value built through `Init`.
pub struct System<T: Init> {
    #[allow(dead_code)]
    value: T,
}

impl<T: Init> System<T> {
    /// Builds a fresh value of `T` from the container.
    pub fn get_or_create(container: &mut Container) -> T {
        T::new(container)
    }
}

/// A system around a singleton value that may not have been created
/// yet.
pub struct SingletonSystem<T: Singleton> {
    #[allow(dead_code)]
    value: Option<T>,
}

/// The container: one explicit struct holding each singleton in a
/// field of its own.
pub struct Container {
    c_instance: Option<C>,
}

impl Container {
    /// The stored singleton `C`, if it was created already.
    pub closed spec fn stored_c(&self) -> Option<C> {
        self.c_instance
    }

    /// An empty container: no singleton has been created yet.
    pub fn new() -> (r: Container)
        ensures
            r.stored_c() is None,
    {
        Container { c_instance: None }
    }

    /// Builds a fresh value of `T` from the container.
    pub fn get_or_create<T: Init>(&mut self) -> T {
        T::new(self)
    }

    /// Returns the single `C`, creating and storing it on first use:
    /// once a value is stored, every later call returns that same
    /// value and leaves the container unchanged.
    pub fn get_or_create_singleton(&mut self) -> (r: C)
        ensures
            final(self).stored_c() == Some(r),
            old(self).stored_c() matches Some(c) ==> r == c && *final(self) == *old(self),
    {
        match self.c_instance {
            Some(c) => c,
            None => {
                let c = <C as Singleton>::new(self);
                self.c_instance = Some(c);
                c
            },
        }
    }
}

pub struct A(pub u32);

pub struct B(pub A, pub C);

#[derive(Debug, Clone, Copy, PartialEq, Eq, Structural)]
pub struct C(pub u32);

impl Init for A {
    fn new(_container: &mut Container) -> Self {
        A(0)
    }
}

impl Init for C {
    fn new(_container: &mut Container) -> Self {
        C(2)
    }
}

impl Singleton for C {
    fn new(_container: &mut Container) -> Self {
        C(1)
    }
}

impl Init for B {
    fn new(container: &mut Container) -> Self {
        let a = System::<A>::get_or_create(container);
        let c = container.get_or_create_singleton();
        B(a, c)
    }
}

impl B {
    /// Overwrites the inner `A` value; the shared `C` is untouched.
    pub fn change_value(&mut self, value: u32)
        ensures
            final(self).0.0 == value,
            final(self).1 == old(self).1,
    {
        self.0.0 = value;
    }
}

} // verus!
