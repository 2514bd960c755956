//! Birds, and the narrower family of birds that fly: a penguin is a bird
//! without being made to fly.
use vstd::prelude::*;

verus! {

/// A named bird.
pub trait Bird {
    /// The bird's name.
    spec fn spec_name(&self) -> Seq<char>;

    fn new(name: &str) -> (r: Self) where Self: Sized
        ensures
            r.spec_name() == name@,
    ;

    fn name(&self) -> (r: &str)
        ensures
            r@ == self.spec_name(),
    ;
}

/// A bird that flies; `fly` gives the line that reports the flight.
pub trait FlyingBird: Bird {
    fn fly(&self) -> (r: String)
        ensures
            r@ == "Flying..."@,
    ;
}

/// An eagle: it flies, and it dives.
pub struct Eagle {
    name: String,
}

impl Bird for Eagle {
    closed spec fn spec_name(&self) -> Seq<char> {
        self.name@
    }

    fn new(name: &str) -> (r: Self) {
        Eagle { name: String::from_str(name) }
    }

    fn name(&self) -> (r: &str) {
        self.name.as_str()
    }
}

impl FlyingBird for Eagle {
    fn fly(&self) -> (r: String) {
        String::from_str("Flying...")
    }
}

impl Eagle {
    /// The line that reports a dive.
    pub fn dive(&self) -> (r: String)
        ensures
            r@ == "Diving..."@,
    {
        String::from_str("Diving...")
    }
}

/// A penguin: a bird that does not fly.
pub struct Penguin {
    pub name: String,
}

impl Bird for Penguin {
    open spec fn spec_name(&self) -> Seq<char> {
        self.name@
    }

    fn new(name: &str) -> (r: Self) {
        Penguin { name: String::from_str(name) }
    }

    fn name(&self) -> (r: &str) {
        self.name.as_str()
    }
}

} // verus!
