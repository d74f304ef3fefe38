use vstd::prelude::*;

verus! {

/// The greeting built from a name: `"Hello, "`, the name, then `"!"`.
pub open spec fn greeting_of(name: Seq<char>) -> Seq<char> {
    "Hello, "@ + name + "!"@
}

/// A person record: a name and a non-negative age, both fixed at construction.
pub struct Person {
    name: String,
    age: u32,
}

impl Person {
    /// The name this person was constructed with.
    pub closed spec fn spec_name(self) -> Seq<char> {
        self.name@
    }

    /// The age this person was constructed with.
    pub closed spec fn spec_age(self) -> u32 {
        self.age
    }

    /// Builds a person holding the given name and age verbatim.
    pub fn new(name: String, age: u32) -> (p: Person)
        ensures
            p.spec_name() == name@,
            p.spec_age() == age,
    {
        Person { name, age }
    }

    /// Returns the greeting `"Hello, {name}!"` for this person's name.
    pub fn greet(&self) -> (r: String)
        ensures
            r@ == greeting_of(self.spec_name()),
    {
        let mut s = String::from_str("Hello, ");
        s.append(self.name.as_str());
        s.append("!");
        proof {
            assert(s@ =~= greeting_of(self.spec_name()));
        }
        s
    }

    /// Returns the stored name, unchanged.
    pub fn name(&self) -> (r: &str)
        ensures
            r@ == self.spec_name(),
    {
        self.name.as_str()
    }

    /// Returns the stored age, unchanged.
    pub fn age(&self) -> (r: u32)
        ensures
            r == self.spec_age(),
    {
        self.age
    }
}

/// For any name and any age: a person constructed with them greets with
/// exactly `"Hello, "`, the name, and `"!"`, nothing more on either side.
pub proof fn lemma_greeting_exact(name: Seq<char>, age: u32, p: Person, g: Seq<char>)
    requires
        p.spec_name() == name,
        p.spec_age() == age,
        g == greeting_of(p.spec_name()),
    ensures
        g == "Hello, "@ + name + "!"@,
{
}

/// The age handed to the constructor is retrieved unchanged: a round trip
/// through a person leaves it identical.
pub proof fn lemma_age_round_trip(name: Seq<char>, age: u32, p: Person, a: u32)
    requires
        p.spec_name() == name,
        p.spec_age() == age,
        a == p.spec_age(),
    ensures
        a == age,
{
}

} // verus!
