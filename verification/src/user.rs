//! The author of a post: an in-game persona with a race, a career and a
//! level, as shown beside each post.

use vstd::prelude::*;

verus! {

/// The race of a user's persona.
#[derive(Clone, Copy, Debug, PartialEq, Eq, Structural)]
pub enum UserRace {
    Human,
    Elf,
    Dwarf,
    Ork,
    Unknown,
}

impl UserRace {
    /// The race's display name.
    pub fn label(&self) -> (r: String)
        ensures
            r@ == match *self {
                UserRace::Human => "人類"@,
                UserRace::Elf => "妖精"@,
                UserRace::Dwarf => "矮人"@,
                UserRace::Ork => "獸人"@,
                UserRace::Unknown => "未知"@,
            },
    {
        match self {
            UserRace::Human => "人類".to_owned(),
            UserRace::Elf => "妖精".to_owned(),
            UserRace::Dwarf => "矮人".to_owned(),
            UserRace::Ork => "獸人".to_owned(),
            UserRace::Unknown => "未知".to_owned(),
        }
    }
}

/// The career of a user's persona.
#[derive(Clone, Copy, Debug, PartialEq, Eq, Structural)]
pub enum UserCareer {
    Noob,
    Sword,
    Archer,
    Preist,
    Wizard,
    Fighter,
    Business,
    Assassin,
    Unknown,
}

impl UserCareer {
    /// The career's display name.
    pub fn label(&self) -> (r: String)
        ensures
            r@ == match *self {
                UserCareer::Noob => "初心者"@,
                UserCareer::Sword => "劍士"@,
                UserCareer::Archer => "弓箭手"@,
                UserCareer::Preist => "僧侶"@,
                UserCareer::Wizard => "法師"@,
                UserCareer::Fighter => "武鬥家"@,
                UserCareer::Business => "商人"@,
                UserCareer::Assassin => "盜賊"@,
                UserCareer::Unknown => "未知"@,
            },
    {
        match self {
            UserCareer::Noob => "初心者".to_owned(),
            UserCareer::Sword => "劍士".to_owned(),
            UserCareer::Archer => "弓箭手".to_owned(),
            UserCareer::Preist => "僧侶".to_owned(),
            UserCareer::Wizard => "法師".to_owned(),
            UserCareer::Fighter => "武鬥家".to_owned(),
            UserCareer::Business => "商人".to_owned(),
            UserCareer::Assassin => "盜賊".to_owned(),
            UserCareer::Unknown => "未知".to_owned(),
        }
    }
}

/// A user as extracted from a post's header.
#[derive(Debug)]
pub struct User {
    pub id: String,
    pub race: UserRace,
    pub carrer: UserCareer,
    pub name: String,
    pub lv: u8,
}

impl Clone for User {
    fn clone(&self) -> (r: Self)
        ensures
            r == *self,
    {
        User {
            id: self.id.clone(),
            race: self.race,
            carrer: self.carrer,
            name: self.name.clone(),
            lv: self.lv,
        }
    }
}

impl Default for User {
    /// A placeholder user: anonymous, level one.
    fn default() -> (r: Self)
        ensures
            r.id@ == Seq::<char>::empty(),
            r.race == UserRace::Dwarf,
            r.carrer == UserCareer::Noob,
            r.name@ == Seq::<char>::empty(),
            r.lv == 1,
    {
        User {
            id: String::new(),
            race: UserRace::Dwarf,
            carrer: UserCareer::Noob,
            name: String::new(),
            lv: 1,
        }
    }
}

} // verus!
