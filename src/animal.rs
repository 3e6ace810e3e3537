use crate::wire::{read_text, write_bytes, DecodeError};
use vstd::prelude::*;
use vstd::utf8::{
    decode_utf8, encode_utf8, encode_utf8_decode_utf8, is_ascii_chars, is_ascii_chars_encode_utf8,
    valid_utf8,
};

verus! {

/// The SQL type of an animal type: the database enum `animal_type`, whose labels are `Cat`
/// and `Fish`.
pub struct PgAnimalType;

impl PgAnimalType {
    /// The name of the enum type in the database catalog.
    pub fn catalog_name() -> (r: &'static str)
        ensures
            r@ == seq!['a', 'n', 'i', 'm', 'a', 'l', '_', 't', 'y', 'p', 'e'],
    {
        proof {
            reveal_strlit("animal_type");
        }
        let r = "animal_type";
        assert(r@ =~= seq!['a', 'n', 'i', 'm', 'a', 'l', '_', 't', 'y', 'p', 'e']);
        r
    }
}

/// The kind of animal a pet is: a closed set of two variants.
#[derive(Debug, Clone, Copy, PartialEq, Eq, Structural)]
pub enum AnimalType {
    Cat,
    Fish,
}

/// The text label of "Cat".
pub open spec fn cat_label() -> Seq<char> {
    seq!['C', 'a', 't']
}

/// The text label of "Fish".
pub open spec fn fish_label() -> Seq<char> {
    seq!['F', 'i', 's', 'h']
}

impl AnimalType {
    /// The variant's name, spelled as declared.
    pub open spec fn label(self) -> Seq<char> {
        match self {
            AnimalType::Cat => cat_label(),
            AnimalType::Fish => fish_label(),
        }
    }

    /// The variant a text label reads as: the one it names, and `Cat` for any other text.
    pub open spec fn from_label(s: Seq<char>) -> AnimalType {
        if s == fish_label() {
            AnimalType::Fish
        } else {
            AnimalType::Cat
        }
    }

    /// The variant's name is ASCII: its UTF-8 form has one byte per character.
    pub proof fn lemma_label_bytes(self)
        ensures
            encode_utf8(self.label()).len() == self.label().len(),
            self.label().len() <= 4,
    {
        assert(is_ascii_chars(self.label()));
        is_ascii_chars_encode_utf8(self.label());
    }

    /// The variant's name as text.
    pub fn as_str(&self) -> (r: &'static str)
        ensures
            r@ == self.label(),
    {
        match self {
            AnimalType::Cat => {
                proof {
                    reveal_strlit("Cat");
                }
                "Cat"
            },
            AnimalType::Fish => {
                proof {
                    reveal_strlit("Fish");
                }
                "Fish"
            },
        }
    }

    /// Writes the variant's wire form, its name as UTF-8 text, at the end of `out`.
    pub fn to_sql(&self, out: &mut Vec<u8>)
        ensures
            final(out)@ == old(out)@ + encode_utf8(self.label()),
    {
        write_bytes(self.as_str().as_bytes(), out);
    }

    /// Reads a variant from its wire form: UTF-8 text, read as `from` reads a label.
    /// Absent bytes and bytes that are not UTF-8 are refused.
    pub fn from_sql(bytes: Option<&[u8]>) -> (r: Result<AnimalType, DecodeError>)
        ensures
            bytes is None ==> r == Err::<AnimalType, DecodeError>(DecodeError::UnexpectedNull),
            bytes is Some ==> r == if valid_utf8(bytes->0@) {
                Ok::<AnimalType, DecodeError>(AnimalType::from_label(decode_utf8(bytes->0@)))
            } else {
                Err(DecodeError::Malformed)
            },
    {
        if bytes.is_none() {
            return Err(DecodeError::UnexpectedNull);
        }
        match read_text(bytes) {
            Some(s) => {
                proof {
                    encode_utf8_decode_utf8(s@);
                }
                Ok(AnimalType::from(s.as_str()))
            },
            None => Err(DecodeError::Malformed),
        }
    }
}

/// Every variant reads back from its own label.
pub proof fn lemma_label_round_trip(v: AnimalType)
    ensures
        AnimalType::from_label(v.label()) == v,
{
}

/// Any text other than the two labels reads as `Cat`.
pub proof fn lemma_unknown_label_is_cat(s: Seq<char>)
    requires
        s != cat_label(),
        s != fish_label(),
    ensures
        AnimalType::from_label(s) == AnimalType::Cat,
{
}

/// Whether two character sequences are the same text.
fn same_text(a: &str, b: &str) -> (r: bool)
    ensures
        r == (a@ == b@),
{
    let n = a.unicode_len();
    if n != b.unicode_len() {
        return false;
    }
    let mut i: usize = 0;
    while i < n
        invariant
            n == a@.len(),
            n == b@.len(),
            i <= n,
            forall|j: int| 0 <= j < i ==> a@[j] == b@[j],
        decreases n - i,
    {
        if a.get_char(i) != b.get_char(i) {
            return false;
        }
        i = i + 1;
    }
    assert(a@ =~= b@);
    true
}

impl<'a> From<&'a str> for AnimalType {
    /// Reads a text label: "Cat" and "Fish" name their variants, any other text reads as `Cat`.
    fn from(s: &'a str) -> (r: AnimalType)
        ensures
            r == AnimalType::from_label(s@),
    {
        proof {
            reveal_strlit("Cat");
            reveal_strlit("Fish");
            assert("Cat"@ =~= cat_label());
            assert("Fish"@ =~= fish_label());
        }
        if same_text(s, "Cat") {
            AnimalType::Cat
        } else if same_text(s, "Fish") {
            AnimalType::Fish
        } else {
            AnimalType::Cat
        }
    }
}

impl<'a> vstd::std_specs::convert::FromSpecImpl<&'a str> for AnimalType {
    open spec fn obeys_from_spec() -> bool {
        true
    }

    open spec fn from_spec(s: &'a str) -> AnimalType {
        AnimalType::from_label(s@)
    }
}

} // verus!
