use crate::pet::Pet;
use vstd::prelude::*;

verus! {

/// A stored person, with the identity the store gave it.
#[derive(Debug, Clone)]
pub struct Person {
    pub id: i32,
    pub name: String,
    pub age: i32,
    pub pets: Vec<Pet>,
}

/// A person not yet stored: it has no identity, which the store gives on insertion.
#[derive(Debug, Clone)]
pub struct NewPerson {
    pub name: String,
    pub age: i32,
    pub pets: Vec<Pet>,
}

impl NewPerson {
    /// A person to insert, with the given name, age and pets in the order given.
    pub fn new(name: &str, age: i32, pets: Vec<Pet>) -> (r: NewPerson)
        ensures
            r.name@ == name@,
            r.age == age,
            r.pets@ == pets@,
    {
        NewPerson { name: name.to_owned(), age, pets }
    }
}

} // verus!
