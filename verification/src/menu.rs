//! The menu of demo scenes: which scenes are registered, and which one, if
//! any, is open.

use vstd::prelude::*;

verus! {

/// The registered scenes by name, in the order of registration, and the
/// scene that is open.
pub struct TestMenu {
    current_test: Option<usize>,
    tests: Vec<String>,
}

impl TestMenu {
    #[verifier::type_invariant]
    spec fn inv(self) -> bool {
        self.current_test matches Some(index) ==> index < self.tests@.len()
    }

    /// The names of the registered scenes.
    pub closed spec fn names(&self) -> Seq<Seq<char>> {
        Seq::new(self.tests@.len(), |i: int| self.tests@[i]@)
    }

    /// The position of the open scene among the registered ones.
    pub closed spec fn current(&self) -> Option<int> {
        match self.current_test {
            Some(index) => Some(index as int),
            None => None,
        }
    }

    /// A menu with no scene registered and none open.
    pub fn new() -> (menu: Self)
        ensures
            menu.names() == Seq::<Seq<char>>::empty(),
            menu.current() is None,
    {
        let menu = Self { current_test: None, tests: Vec::new() };
        assert(menu.names() =~= Seq::<Seq<char>>::empty());
        menu
    }

    /// Registers a scene under `name`, after those registered before.
    pub fn register_test(&mut self, name: &str)
        ensures
            final(self).names() == old(self).names().push(name@),
            final(self).current() == old(self).current(),
    {
        proof {
            use_type_invariant(&*self);
        }
        let mut taken = Self { current_test: None, tests: Vec::new() };
        core::mem::swap(self, &mut taken);
        let current_test = taken.current_test;
        let mut tests = taken.tests;
        tests.push(name.to_owned());
        *self = Self { current_test, tests };
        assert(self.names() =~= old(self).names().push(name@));
    }

    /// How many scenes are registered.
    pub fn test_count(&self) -> (count: usize)
        ensures
            count == self.names().len(),
    {
        self.tests.len()
    }

    /// The name of the scene at `index`.
    pub fn test_name(&self, index: usize) -> (name: &str)
        requires
            index < self.names().len(),
        ensures
            name@ == self.names()[index as int],
    {
        self.tests[index].as_str()
    }

    /// The position of the open scene, if one is open. It is always that of
    /// a registered scene.
    pub fn current_test(&self) -> (current: Option<usize>)
        ensures
            match current {
                Some(index) => self.current() == Some(index as int) && index < self.names().len(),
                None => self.current() is None,
            },
    {
        proof {
            use_type_invariant(self);
        }
        self.current_test
    }

    /// Opens the scene at `index`, in place of the one that was open.
    pub fn open(&mut self, index: usize)
        requires
            index < old(self).names().len(),
        ensures
            final(self).names() == old(self).names(),
            final(self).current() == Some(index as int),
    {
        self.current_test = Some(index);
    }

    /// Closes the open scene, if any, and so goes back to the menu.
    pub fn close(&mut self)
        ensures
            final(self).names() == old(self).names(),
            final(self).current() is None,
    {
        self.current_test = None;
    }
}

} // verus!
