pub mod animal;
pub mod person;
pub mod pet;
pub mod wire;

pub use animal::{AnimalType, PgAnimalType};
pub use person::{NewPerson, Person};
pub use pet::{Pet, PetView, PgPet};
pub use wire::{DecodeError, EncodeError, TEXT_OID};
