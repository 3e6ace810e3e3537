use pg_pets::{AnimalType, DecodeError, NewPerson, Pet, PgAnimalType, PgPet, TEXT_OID};

const ANIMAL_OID: u32 = 16385;

fn pet(name: &str, animal_type: AnimalType) -> Pet {
    Pet {
        name: name.to_string(),
        animal_type,
    }
}

fn encode(p: &Pet) -> Vec<u8> {
    let mut out = Vec::new();
    p.to_sql(ANIMAL_OID, &mut out).unwrap();
    out
}

fn field(oid: u32, payload: &[u8]) -> Vec<u8> {
    let mut v = Vec::new();
    v.extend_from_slice(&oid.to_be_bytes());
    v.extend_from_slice(&(payload.len() as i32).to_be_bytes());
    v.extend_from_slice(payload);
    v
}

#[test]
fn animal_labels_read_back() {
    for v in [AnimalType::Cat, AnimalType::Fish] {
        assert_eq!(AnimalType::from(v.as_str()), v);
    }
    assert_eq!(AnimalType::Cat.as_str(), "Cat");
    assert_eq!(AnimalType::Fish.as_str(), "Fish");
}

#[test]
fn unknown_labels_read_as_cat() {
    assert_eq!(AnimalType::from("Fish"), AnimalType::Fish);
    assert_eq!(AnimalType::from("Cat"), AnimalType::Cat);
    assert_eq!(AnimalType::from("Dog"), AnimalType::Cat);
    assert_eq!(AnimalType::from("fish"), AnimalType::Cat);
    assert_eq!(AnimalType::from("Fish "), AnimalType::Cat);
    assert_eq!(AnimalType::from(""), AnimalType::Cat);
}

#[test]
fn animal_wire_form() {
    let mut out = vec![9u8];
    AnimalType::Fish.to_sql(&mut out);
    assert_eq!(out, b"\x09Fish".to_vec());
    assert_eq!(AnimalType::from_sql(Some(b"Fish")), Ok(AnimalType::Fish));
    assert_eq!(AnimalType::from_sql(Some(b"Cat")), Ok(AnimalType::Cat));
    assert_eq!(AnimalType::from_sql(Some(b"Horse")), Ok(AnimalType::Cat));
    assert_eq!(AnimalType::from_sql(None), Err(DecodeError::UnexpectedNull));
    assert_eq!(AnimalType::from_sql(Some(&[0xff, 0x46])), Err(DecodeError::Malformed));
}

#[test]
fn pet_wire_form_is_exact() {
    let bytes = encode(&pet("John", AnimalType::Cat));
    let mut expected = vec![0, 0, 0, 2];
    expected.extend(field(TEXT_OID, b"John"));
    expected.extend(field(ANIMAL_OID, b"Cat"));
    assert_eq!(bytes, expected);
    assert_eq!(
        bytes,
        vec![
            0, 0, 0, 2, 0, 0, 0, 25, 0, 0, 0, 4, b'J', b'o', b'h', b'n', 0, 0, 0x40, 0x01, 0, 0,
            0, 3, b'C', b'a', b't'
        ]
    );
}

#[test]
fn pet_encoding_appends() {
    let mut out = vec![7u8, 7];
    pet("Cena", AnimalType::Fish).to_sql(1, &mut out).unwrap();
    let mut expected = vec![7u8, 7, 0, 0, 0, 2];
    expected.extend(field(TEXT_OID, b"Cena"));
    expected.extend(field(1, b"Fish"));
    assert_eq!(out, expected);
}

#[test]
fn pet_round_trip() {
    for name in ["John", "", "Müller 🐟", "a,b\"c"] {
        for v in [AnimalType::Cat, AnimalType::Fish] {
            let p = pet(name, v);
            let bytes = encode(&p);
            assert_eq!(Pet::from_sql(Some(&bytes)), Ok(p));
        }
    }
}

#[test]
fn pets_keep_their_order() {
    let pets = vec![
        pet("Tom", AnimalType::Cat),
        pet("Nemo", AnimalType::Fish),
        pet("Dory", AnimalType::Fish),
    ];
    let frames: Vec<Vec<u8>> = pets.iter().map(encode).collect();
    let back: Vec<Pet> = frames
        .iter()
        .map(|b| Pet::from_sql(Some(b)).unwrap())
        .collect();
    assert_eq!(back, pets);
}

#[test]
fn no_pets_read_back_as_none() {
    let pets: Vec<Pet> = Vec::new();
    let frames: Vec<Vec<u8>> = pets.iter().map(encode).collect();
    let back: Vec<Pet> = frames
        .iter()
        .map(|b| Pet::from_sql(Some(b)).unwrap())
        .collect();
    assert!(back.is_empty());
    let p = NewPerson::new("Nobody", 3, Vec::new());
    assert!(p.pets.is_empty());
}

#[test]
fn new_person_scenario() {
    let p = NewPerson::new(
        "iNverse",
        21,
        vec![pet("John", AnimalType::Cat), pet("Cena", AnimalType::Fish)],
    );
    assert_eq!(p.name, "iNverse");
    assert_eq!(p.age, 21);
    assert_eq!(
        p.pets,
        vec![pet("John", AnimalType::Cat), pet("Cena", AnimalType::Fish)]
    );
    let back: Vec<Pet> = p
        .pets
        .iter()
        .map(|x| Pet::from_sql(Some(&encode(x))).unwrap())
        .collect();
    assert_eq!(back, p.pets);
}

#[test]
fn absent_pet_is_refused() {
    assert_eq!(Pet::from_sql(None), Err(DecodeError::UnexpectedNull));
}

#[test]
fn malformed_pets_are_refused() {
    let good = encode(&pet("John", AnimalType::Cat));
    // too short
    assert_eq!(Pet::from_sql(Some(&[1, 2, 3])), Err(DecodeError::Malformed));
    assert_eq!(Pet::from_sql(Some(&[])), Err(DecodeError::Malformed));
    // wrong field count
    let mut three = good.clone();
    three[3] = 3;
    assert_eq!(Pet::from_sql(Some(&three)), Err(DecodeError::Malformed));
    // bytes after the last field
    let mut longer = good.clone();
    longer.push(0);
    assert_eq!(Pet::from_sql(Some(&longer)), Err(DecodeError::Malformed));
    // cut short
    assert_eq!(
        Pet::from_sql(Some(&good[..good.len() - 1])),
        Err(DecodeError::Malformed)
    );
    // a null field
    let mut null_name = vec![0, 0, 0, 2];
    null_name.extend_from_slice(&TEXT_OID.to_be_bytes());
    null_name.extend_from_slice(&(-1i32).to_be_bytes());
    null_name.extend(field(ANIMAL_OID, b"Cat"));
    assert_eq!(Pet::from_sql(Some(&null_name)), Err(DecodeError::Malformed));
    // a length that points past the end
    let mut overrun = good.clone();
    overrun[11] = 200;
    assert_eq!(Pet::from_sql(Some(&overrun)), Err(DecodeError::Malformed));
    let mut negative = good.clone();
    negative[8] = 0xff;
    assert_eq!(Pet::from_sql(Some(&negative)), Err(DecodeError::Malformed));
    // a second length that points past the end
    let mut overrun2 = good.clone();
    overrun2[23] = 9;
    assert_eq!(Pet::from_sql(Some(&overrun2)), Err(DecodeError::Malformed));
    // a name that is not UTF-8
    let mut bad_text = vec![0, 0, 0, 2];
    bad_text.extend(field(TEXT_OID, &[0xc3, 0x28]));
    bad_text.extend(field(ANIMAL_OID, b"Cat"));
    assert_eq!(Pet::from_sql(Some(&bad_text)), Err(DecodeError::Malformed));
}

#[test]
fn unknown_animal_label_in_pet_reads_as_cat() {
    let mut bytes = vec![0, 0, 0, 2];
    bytes.extend(field(TEXT_OID, b"Rex"));
    bytes.extend(field(ANIMAL_OID, b"Dog"));
    assert_eq!(
        Pet::from_sql(Some(&bytes)),
        Ok(pet("Rex", AnimalType::Cat))
    );
}

#[test]
fn catalog_names() {
    assert_eq!(PgAnimalType::catalog_name(), "animal_type");
    assert_eq!(PgPet::catalog_name(), "pet");
}
