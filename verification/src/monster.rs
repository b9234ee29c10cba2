//! A small monster-taming model: monsters with a fixed maximum HP and
//! attack power, battling (attacking and taking damage, with HP never
//! falling below zero), naming tamed monsters, and taming a slime once it is
//! weak enough.

use vstd::prelude::*;
use vstd::std_specs::convert::FromSpecImpl;

verus! {

/// A kind of monster: each kind has a fixed maximum HP and attack power,
/// and each monster a current HP and a name.
pub trait Monster {
    /// The maximum HP of this kind.
    spec fn spec_max_hp() -> u32;

    /// The attack power of this kind.
    spec fn spec_power() -> u32;

    /// The current HP of this monster.
    spec fn spec_hp(&self) -> u32;

    /// The name of this monster.
    spec fn spec_name(&self) -> Seq<char>;

    /// The maximum HP of this kind.
    fn max_hp() -> (r: u32)
        ensures
            r == Self::spec_max_hp(),
    ;

    /// The attack power of this kind.
    fn power() -> (r: u32)
        ensures
            r == Self::spec_power(),
    ;
}

/// A monster that can fight: it deals damage equal to its attack power and
/// takes damage without its HP ever falling below zero.
pub trait Battle: Monster {
    /// The damage dealt by one attack.
    fn attack(&self) -> (r: u32)
        ensures
            r == Self::spec_power(),
    ;

    /// Takes a hit: HP drops by the damage dealt, saturating at zero; the
    /// name is unchanged.
    fn damage(&mut self, damage: u32)
        ensures
            final(self).spec_hp() as int == if damage <= old(self).spec_hp() {
                old(self).spec_hp() - damage
            } else {
                0
            },
            final(self).spec_name() == old(self).spec_name(),
    ;
}

/// A monster that has been tamed and so can be given a name.
pub trait Tamed: Monster {
    /// Renames the monster; its HP is unchanged.
    fn set_name(&mut self, name: String)
        ensures
            final(self).spec_name() == name@,
            final(self).spec_hp() == old(self).spec_hp(),
    ;
}

/// The default name every slime starts with.
pub open spec fn slime_default_name() -> Seq<char> {
    "スライム"@
}

/// A wild slime.
#[derive(Debug, Clone)]
pub struct Slime {
    pub hp: u32,
    pub name: String,
}

/// A tamed slime.
#[derive(Debug, Clone)]
pub struct TamedSlime {
    pub hp: u32,
    pub name: String,
}

impl Monster for Slime {
    open spec fn spec_max_hp() -> u32 {
        70
    }

    open spec fn spec_power() -> u32 {
        3
    }

    open spec fn spec_hp(&self) -> u32 {
        self.hp
    }

    open spec fn spec_name(&self) -> Seq<char> {
        self.name@
    }

    fn max_hp() -> u32 {
        70
    }

    fn power() -> u32 {
        3
    }
}

impl Monster for TamedSlime {
    open spec fn spec_max_hp() -> u32 {
        70
    }

    open spec fn spec_power() -> u32 {
        3
    }

    open spec fn spec_hp(&self) -> u32 {
        self.hp
    }

    open spec fn spec_name(&self) -> Seq<char> {
        self.name@
    }

    fn max_hp() -> u32 {
        70
    }

    fn power() -> u32 {
        3
    }
}

impl Battle for Slime {
    fn attack(&self) -> u32 {
        3
    }

    fn damage(&mut self, damage: u32) {
        self.hp = if damage <= self.hp {
            self.hp - damage
        } else {
            0
        };
    }
}

impl Battle for TamedSlime {
    fn attack(&self) -> u32 {
        3
    }

    fn damage(&mut self, damage: u32) {
        self.hp = if damage <= self.hp {
            self.hp - damage
        } else {
            0
        };
    }
}

impl Tamed for TamedSlime {
    fn set_name(&mut self, name: String) {
        self.name = name;
    }
}

impl Slime {
    /// A slime with the given name, starting at full HP.
    pub fn new(name: String) -> (r: Self)
        ensures
            r.hp == Slime::spec_max_hp(),
            r.name == name,
    {
        Slime { hp: 70, name }
    }

    /// Tames a slime: possible exactly when its HP has dropped to half its
    /// maximum or below; otherwise the attempt is rejected with a message.
    pub fn tame(self) -> (r: Result<TamedSlime, String>)
        ensures
            r is Ok <==> self.hp <= Slime::spec_max_hp() / 2,
            r matches Ok(t) ==> t.hp == self.hp && t.name == self.name,
    {
        if self.hp <= 35 {
            Ok(TamedSlime { hp: self.hp, name: self.name })
        } else {
            Err("the slime is still too strong to tame".to_owned())
        }
    }
}

impl TamedSlime {
    /// A tamed slime with the given name, starting at full HP.
    pub fn new(name: String) -> (r: Self)
        ensures
            r.hp == TamedSlime::spec_max_hp(),
            r.name == name,
    {
        TamedSlime { hp: 70, name }
    }
}

impl Default for Slime {
    /// A wild slime with the default name, at full HP.
    fn default() -> (r: Self)
        ensures
            r.hp == Slime::spec_max_hp(),
            r.name@ == slime_default_name(),
    {
        Slime { hp: 70, name: "スライム".to_owned() }
    }
}

impl Default for TamedSlime {
    /// A tamed slime with the default name, at full HP.
    fn default() -> (r: Self)
        ensures
            r.hp == TamedSlime::spec_max_hp(),
            r.name@ == slime_default_name(),
    {
        TamedSlime { hp: 70, name: "スライム".to_owned() }
    }
}

impl From<TamedSlime> for Slime {
    /// Releasing a tamed slime turns it back into a wild one, keeping its
    /// HP and name.
    fn from(tamed: TamedSlime) -> (r: Slime) {
        Slime { hp: tamed.hp, name: tamed.name }
    }
}

impl FromSpecImpl<TamedSlime> for Slime {
    open spec fn obeys_from_spec() -> bool {
        true
    }

    open spec fn from_spec(tamed: TamedSlime) -> Slime {
        Slime { hp: tamed.hp, name: tamed.name }
    }
}

} // verus!
