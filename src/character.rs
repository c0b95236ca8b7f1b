//! Characters: what the roster shows of them, and the one the bot creates
//! when it has none.
use vstd::prelude::*;

verus! {

/// A playable species.
#[derive(Clone, Copy, Debug, PartialEq, Eq, Structural)]
pub enum Species {
    Danari,
    Dwarf,
    Elf,
    Human,
    Orc,
    Draugr,
}

#[derive(Clone, Copy, Debug, PartialEq, Eq, Structural)]
pub enum BodyType {
    Female,
    Male,
}

/// The appearance of a humanoid character.
#[derive(Clone, Copy, Debug, PartialEq, Eq, Structural)]
pub struct Appearance {
    pub species: Species,
    pub body_type: BodyType,
    pub hair_style: u8,
    pub beard: u8,
    pub eyes: u8,
    pub accessory: u8,
    pub hair_color: u8,
    pub skin: u8,
    pub eye_color: u8,
}

/// One entry of the character roster. The identifier is assigned by the
/// server and may be missing until it has been.
#[derive(Clone, Debug, PartialEq, Eq)]
pub struct CharacterSummary {
    pub id: Option<i64>,
    pub alias: String,
}

/// A character to be created on the server.
#[derive(Clone, Debug, PartialEq, Eq)]
pub struct NewCharacter {
    pub name: String,
    pub appearance: Appearance,
}

pub open spec fn default_appearance() -> Appearance {
    Appearance {
        species: Species::Draugr,
        body_type: BodyType::Female,
        hair_style: 0,
        beard: 1,
        eyes: 0,
        accessory: 1,
        hair_color: 0,
        skin: 0,
        eye_color: 0,
    }
}

pub open spec fn default_character_name() -> Seq<char> {
    "Inventory Character"@
}

/// Whether `c` is the character that the bot creates when its roster is
/// empty.
pub open spec fn is_default_character(c: NewCharacter) -> bool {
    c.name@ == default_character_name() && c.appearance == default_appearance()
}

/// The character that the bot creates when its roster is empty.
pub fn default_character() -> (r: NewCharacter)
    ensures
        is_default_character(r),
{
    let name = "Inventory Character".to_owned();
    NewCharacter {
        name,
        appearance: Appearance {
            species: Species::Draugr,
            body_type: BodyType::Female,
            hair_style: 0,
            beard: 1,
            eyes: 0,
            accessory: 1,
            hair_color: 0,
            skin: 0,
            eye_color: 0,
        },
    }
}

} // verus!
