use vstd::prelude::*;

verus! {

/// The latches of the publish pipeline.
#[derive(Clone, Copy, Debug, PartialEq, Eq, Structural)]
pub enum Guard {
    /// A block was published at the present height.
    Publish,
    /// The block was not ready to be summarized.
    Summarize,
    /// The block was not ready to be finalized.
    Finalize,
}

/// A set of guards.
#[derive(Clone, Copy, Debug)]
pub struct Guards {
    publish: bool,
    summarize: bool,
    finalize: bool,
}

impl View for Guards {
    type V = Set<Guard>;

    closed spec fn view(&self) -> Set<Guard> {
        Set::new(
            |guard: Guard|
                match guard {
                    Guard::Publish => self.publish,
                    Guard::Summarize => self.summarize,
                    Guard::Finalize => self.finalize,
                },
        )
    }
}

impl Guards {
    /// The empty set.
    pub fn new() -> (guards: Guards)
        ensures
            guards@ == Set::<Guard>::empty(),
    {
        let guards = Guards { publish: false, summarize: false, finalize: false };
        assert(guards@ =~= Set::<Guard>::empty());
        guards
    }

    /// Whether a guard is set.
    pub fn contains(&self, guard: &Guard) -> (set: bool)
        ensures
            set == self@.contains(*guard),
    {
        match guard {
            Guard::Publish => self.publish,
            Guard::Summarize => self.summarize,
            Guard::Finalize => self.finalize,
        }
    }

    /// Sets a guard, and says whether it was not set before.
    pub fn insert(&mut self, guard: Guard) -> (fresh: bool)
        ensures
            final(self)@ == old(self)@.insert(guard),
            fresh == !old(self)@.contains(guard),
    {
        let fresh: bool = !self.contains(&guard);
        match guard {
            Guard::Publish => {
                self.publish = true;
            },
            Guard::Summarize => {
                self.summarize = true;
            },
            Guard::Finalize => {
                self.finalize = true;
            },
        }
        assert(self@ =~= old(self)@.insert(guard));
        fresh
    }

    /// Clears a guard, and says whether it was set before.
    pub fn remove(&mut self, guard: &Guard) -> (present: bool)
        ensures
            final(self)@ == old(self)@.remove(*guard),
            present == old(self)@.contains(*guard),
    {
        let present: bool = self.contains(guard);
        match guard {
            Guard::Publish => {
                self.publish = false;
            },
            Guard::Summarize => {
                self.summarize = false;
            },
            Guard::Finalize => {
                self.finalize = false;
            },
        }
        assert(self@ =~= old(self)@.remove(*guard));
        present
    }
}

} // verus!
