use crate::animal::{lemma_label_round_trip, AnimalType};
use crate::wire::{
    check_pair_in_bounds, lemma_pair_frame_reads, pair_frame, pair_in_bounds, read_text_pair,
    text_pair, write_be_u32, write_bytes, DecodeError, EncodeError, MAX_FIELD_LEN, TEXT_OID,
};
use vstd::prelude::*;
use vstd::utf8::{decode_utf8, encode_utf8, encode_utf8_decode_utf8, encode_utf8_valid_utf8};

verus! {

/// The SQL type of a pet: the database composite type `pet`, of a `text` name and an
/// `animal_type`.
pub struct PgPet;

impl PgPet {
    /// The name of the composite type in the database catalog.
    pub fn catalog_name() -> (r: &'static str)
        ensures
            r@ == seq!['p', 'e', 't'],
    {
        proof {
            reveal_strlit("pet");
        }
        let r = "pet";
        assert(r@ =~= seq!['p', 'e', 't']);
        r
    }
}

/// A pet: a name and the kind of animal it is.
#[derive(Debug, Clone)]
pub struct Pet {
    pub name: String,
    pub animal_type: AnimalType,
}

/// What a pet is, as a value: its name's characters and its kind.
pub struct PetView {
    pub name: Seq<char>,
    pub animal_type: AnimalType,
}

impl View for Pet {
    type V = PetView;

    open spec fn view(&self) -> PetView {
        PetView { name: self.name@, animal_type: self.animal_type }
    }
}

impl PartialEq for Pet {
    fn eq(&self, other: &Pet) -> (r: bool)
        ensures
            r == (self@ == other@),
    {
        self.name == other.name && self.animal_type == other.animal_type
    }
}

impl vstd::std_specs::cmp::PartialEqSpecImpl for Pet {
    open spec fn obeys_eq_spec() -> bool {
        true
    }

    open spec fn eq_spec(&self, other: &Pet) -> bool {
        self@ == other@
    }
}

/// The wire form of a pet, where the animal type's OID is `oid`: a record of two fields, the
/// name as `text` and the animal type's label.
pub open spec fn pet_frame(p: PetView, oid: u32) -> Seq<u8> {
    pair_frame(TEXT_OID, encode_utf8(p.name), oid, encode_utf8(p.animal_type.label()))
}

/// The pet that a wire form holds: a record of two present UTF-8 fields, the name and the
/// animal type's label.
pub open spec fn pet_of_frame(b: Seq<u8>) -> Option<PetView> {
    match text_pair(b) {
        Some(t) => Some(
            PetView {
                name: decode_utf8(t.0),
                animal_type: AnimalType::from_label(decode_utf8(t.1)),
            },
        ),
        None => None,
    }
}

/// Whether a pet's name fits in one field of the wire form.
pub open spec fn name_fits(p: PetView) -> bool {
    encode_utf8(p.name).len() <= MAX_FIELD_LEN
}

impl Pet {
    /// Writes the pet's wire form at the end of `out`, where `animal_type_oid` is the OID of
    /// the animal type. A name too long for one field is refused, and `out` is left as it was.
    pub fn to_sql(&self, animal_type_oid: u32, out: &mut Vec<u8>) -> (r: Result<(), EncodeError>)
        ensures
            r is Ok <==> name_fits(self@),
            r is Ok ==> final(out)@ == old(out)@ + pet_frame(self@, animal_type_oid),
            r is Err ==> r == Err::<(), EncodeError>(EncodeError::FieldTooLong) && final(out)@
                == old(out)@,
    {
        let name = self.name.as_str().as_bytes();
        if name.len() > MAX_FIELD_LEN {
            return Err(EncodeError::FieldTooLong);
        }
        let label = self.animal_type.as_str().as_bytes();
        proof {
            self.animal_type.lemma_label_bytes();
        }
        let ghost start = out@;
        write_be_u32(2, out);
        write_be_u32(TEXT_OID, out);
        write_be_u32(name.len() as u32, out);
        write_bytes(name, out);
        write_be_u32(animal_type_oid, out);
        write_be_u32(label.len() as u32, out);
        write_bytes(label, out);
        assert(out@ =~= start + pet_frame(self@, animal_type_oid));
        Ok(())
    }

    /// Reads a pet from its wire form. Absent bytes, and bytes that are not a record of two
    /// present UTF-8 fields, are refused.
    pub fn from_sql(bytes: Option<&[u8]>) -> (r: Result<Pet, DecodeError>)
        ensures
            bytes is None ==> r == Err::<Pet, DecodeError>(DecodeError::UnexpectedNull),
            bytes is Some ==> match pet_of_frame(bytes->0@) {
                Some(v) => r matches Ok(p) && p@ == v,
                None => r == Err::<Pet, DecodeError>(DecodeError::Malformed),
            },
    {
        let b = match bytes {
            Some(b) => b,
            None => {
                return Err(DecodeError::UnexpectedNull);
            },
        };
        if !check_pair_in_bounds(b) {
            return Err(DecodeError::Malformed);
        }
        match read_text_pair(bytes) {
            Some((name, label)) => {
                proof {
                    encode_utf8_decode_utf8(name@);
                    encode_utf8_decode_utf8(label@);
                }
                Ok(Pet { name, animal_type: AnimalType::from(label.as_str()) })
            },
            None => Err(DecodeError::Malformed),
        }
    }
}

/// A pet whose name fits reads back from its wire form as the same pet, whatever the animal
/// type's OID.
pub proof fn lemma_pet_round_trip(p: PetView, oid: u32)
    requires
        name_fits(p),
    ensures
        pair_in_bounds(pet_frame(p, oid)),
        pet_of_frame(pet_frame(p, oid)) == Some(p),
{
    let f0 = encode_utf8(p.name);
    let f1 = encode_utf8(p.animal_type.label());
    p.animal_type.lemma_label_bytes();
    lemma_pair_frame_reads(TEXT_OID, f0, oid, f1);
    encode_utf8_valid_utf8(p.name);
    encode_utf8_valid_utf8(p.animal_type.label());
    encode_utf8_decode_utf8(p.name);
    encode_utf8_decode_utf8(p.animal_type.label());
    lemma_label_round_trip(p.animal_type);
}

/// A sequence of pets whose names fit, each written in its wire form and each form read back,
/// gives the same pets in the same order; an empty sequence gives an empty one.
pub proof fn lemma_pets_round_trip(ps: Seq<PetView>, oid: u32)
    requires
        forall|i: int| 0 <= i < ps.len() ==> name_fits(#[trigger] ps[i]),
    ensures
        ps.map_values(|p: PetView| pet_frame(p, oid)).map_values(|b: Seq<u8>| pet_of_frame(b))
            == ps.map_values(|p: PetView| Some(p)),
{
    let back = ps.map_values(|p: PetView| pet_frame(p, oid)).map_values(
        |b: Seq<u8>| pet_of_frame(b),
    );
    assert forall|i: int| 0 <= i < ps.len() implies back[i] == Some(ps[i]) by {
        lemma_pet_round_trip(ps[i], oid);
    }
    assert(back =~= ps.map_values(|p: PetView| Some(p)));
}

} // verus!
