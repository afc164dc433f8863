//! The descriptor of one generator.
use vstd::prelude::*;

verus! {

/// A generator as its manifest record names it.
#[derive(Debug)]
pub struct Generator {
    /// The name by which the generator is selected.
    pub name: String,
    /// The root directory of the package that owns the generator.
    pub crate_path: String,
    /// The path of the callable that makes the generator, package first.
    pub factory: String,
}

/// What a `Generator` holds, as plain sequences of characters.
pub ghost struct Descriptor {
    pub name: Seq<char>,
    pub crate_path: Seq<char>,
    pub factory: Seq<char>,
}

impl View for Generator {
    type V = Descriptor;

    open spec fn view(&self) -> Descriptor {
        Descriptor { name: self.name@, crate_path: self.crate_path@, factory: self.factory@ }
    }
}

impl Generator {
    /// A descriptor made of the three given texts, none of them altered.
    pub fn new(name: String, crate_path: String, factory: String) -> (generator: Generator)
        ensures
            generator@ == (Descriptor { name: name@, crate_path: crate_path@, factory: factory@ }),
    {
        Generator { name, crate_path, factory }
    }

    /// A second descriptor with the same three texts.
    pub fn duplicate(&self) -> (copy: Generator)
        ensures
            copy@ == self@,
    {
        Generator {
            name: self.name.clone(),
            crate_path: self.crate_path.clone(),
            factory: self.factory.clone(),
        }
    }
}

} // verus!
