//! The types of monsters and how effective an attack of one type is
//! against a defender of another.
//!
//! Multipliers are counted in halves, so that they stay whole numbers: 0
//! stands for no effect, 1 for half, 2 for normal and 4 for double damage.
//! Against a defender of two types the two multipliers are multiplied, which
//! gives quarters: 4 is normal damage, 16 is fourfold.

use vstd::prelude::*;
use vstd::string::StringExecFns;

verus! {

/// The number of types.
pub const TYPE_COUNT: usize = 17;

#[derive(PartialEq, Eq, Structural, Hash, Debug, Clone, Copy)]
pub enum PokemonType {
    Normal,
    Fighting,
    Flying,
    Poison,
    Ground,
    Rock,
    Bug,
    /// The type of ghosts.
    GhostType,
    Steel,
    Fire,
    Water,
    Grass,
    Electric,
    Psychic,
    Ice,
    Dragon,
    Dark,
}

impl PokemonType {
    /// The position of the type in the table, from 0.
    pub open spec fn spec_index(self) -> int {
        match self {
            PokemonType::Normal => 0,
            PokemonType::Fighting => 1,
            PokemonType::Flying => 2,
            PokemonType::Poison => 3,
            PokemonType::Ground => 4,
            PokemonType::Rock => 5,
            PokemonType::Bug => 6,
            PokemonType::GhostType => 7,
            PokemonType::Steel => 8,
            PokemonType::Fire => 9,
            PokemonType::Water => 10,
            PokemonType::Grass => 11,
            PokemonType::Electric => 12,
            PokemonType::Psychic => 13,
            PokemonType::Ice => 14,
            PokemonType::Dragon => 15,
            PokemonType::Dark => 16,
        }
    }

    /// The name of the type, written as its variant is.
    pub open spec fn name_text(self) -> Seq<char> {
        match self {
            PokemonType::Normal => "Normal"@,
            PokemonType::Fighting => "Fighting"@,
            PokemonType::Flying => "Flying"@,
            PokemonType::Poison => "Poison"@,
            PokemonType::Ground => "Ground"@,
            PokemonType::Rock => "Rock"@,
            PokemonType::Bug => "Bug"@,
            PokemonType::GhostType => "Ghost"@,
            PokemonType::Steel => "Steel"@,
            PokemonType::Fire => "Fire"@,
            PokemonType::Water => "Water"@,
            PokemonType::Grass => "Grass"@,
            PokemonType::Electric => "Electric"@,
            PokemonType::Psychic => "Psychic"@,
            PokemonType::Ice => "Ice"@,
            PokemonType::Dragon => "Dragon"@,
            PokemonType::Dark => "Dark"@,
        }
    }

    pub fn index(self) -> (i: usize)
        ensures
            i == self.spec_index(),
            i < TYPE_COUNT,
    {
        match self {
            PokemonType::Normal => 0,
            PokemonType::Fighting => 1,
            PokemonType::Flying => 2,
            PokemonType::Poison => 3,
            PokemonType::Ground => 4,
            PokemonType::Rock => 5,
            PokemonType::Bug => 6,
            PokemonType::GhostType => 7,
            PokemonType::Steel => 8,
            PokemonType::Fire => 9,
            PokemonType::Water => 10,
            PokemonType::Grass => 11,
            PokemonType::Electric => 12,
            PokemonType::Psychic => 13,
            PokemonType::Ice => 14,
            PokemonType::Dragon => 15,
            PokemonType::Dark => 16,
        }
    }

    /// The type at position `i` of the table.
    pub fn from_index(i: usize) -> (kind: Option<PokemonType>)
        ensures
            kind is Some <==> i < TYPE_COUNT,
            kind matches Some(t) ==> t.spec_index() == i,
    {
        if i == 0 {
            Some(PokemonType::Normal)
        } else if i == 1 {
            Some(PokemonType::Fighting)
        } else if i == 2 {
            Some(PokemonType::Flying)
        } else if i == 3 {
            Some(PokemonType::Poison)
        } else if i == 4 {
            Some(PokemonType::Ground)
        } else if i == 5 {
            Some(PokemonType::Rock)
        } else if i == 6 {
            Some(PokemonType::Bug)
        } else if i == 7 {
            Some(PokemonType::GhostType)
        } else if i == 8 {
            Some(PokemonType::Steel)
        } else if i == 9 {
            Some(PokemonType::Fire)
        } else if i == 10 {
            Some(PokemonType::Water)
        } else if i == 11 {
            Some(PokemonType::Grass)
        } else if i == 12 {
            Some(PokemonType::Electric)
        } else if i == 13 {
            Some(PokemonType::Psychic)
        } else if i == 14 {
            Some(PokemonType::Ice)
        } else if i == 15 {
            Some(PokemonType::Dragon)
        } else if i == 16 {
            Some(PokemonType::Dark)
        } else {
            None
        }
    }

    pub fn get_debug_name(&self) -> (name: String)
        ensures
            name@ == self.name_text(),
    {
        match self {
            PokemonType::Normal => String::from_str("Normal"),
            PokemonType::Fighting => String::from_str("Fighting"),
            PokemonType::Flying => String::from_str("Flying"),
            PokemonType::Poison => String::from_str("Poison"),
            PokemonType::Ground => String::from_str("Ground"),
            PokemonType::Rock => String::from_str("Rock"),
            PokemonType::Bug => String::from_str("Bug"),
            PokemonType::GhostType => String::from_str("Ghost"),
            PokemonType::Steel => String::from_str("Steel"),
            PokemonType::Fire => String::from_str("Fire"),
            PokemonType::Water => String::from_str("Water"),
            PokemonType::Grass => String::from_str("Grass"),
            PokemonType::Electric => String::from_str("Electric"),
            PokemonType::Psychic => String::from_str("Psychic"),
            PokemonType::Ice => String::from_str("Ice"),
            PokemonType::Dragon => String::from_str("Dragon"),
            PokemonType::Dark => String::from_str("Dark"),
        }
    }
}

/// The multipliers of an attack of the type at position `attacker`, in
/// halves, by the position of the defender's type.
pub open spec fn effectiveness_row(attacker: int) -> Seq<u8> {
    if attacker == 0 {
        seq![2u8, 2u8, 2u8, 2u8, 2u8, 1u8, 2u8, 0u8, 1u8, 2u8, 2u8, 2u8, 2u8, 2u8, 2u8, 2u8, 2u8]
    } else if attacker == 1 {
        seq![4u8, 2u8, 1u8, 1u8, 2u8, 4u8, 1u8, 0u8, 4u8, 2u8, 2u8, 2u8, 2u8, 1u8, 4u8, 2u8, 4u8]
    } else if attacker == 2 {
        seq![2u8, 4u8, 2u8, 2u8, 2u8, 1u8, 4u8, 2u8, 1u8, 2u8, 2u8, 4u8, 1u8, 2u8, 2u8, 2u8, 2u8]
    } else if attacker == 3 {
        seq![2u8, 2u8, 2u8, 1u8, 1u8, 1u8, 2u8, 1u8, 0u8, 2u8, 2u8, 4u8, 2u8, 2u8, 2u8, 2u8, 2u8]
    } else if attacker == 4 {
        seq![2u8, 2u8, 0u8, 4u8, 2u8, 4u8, 1u8, 2u8, 4u8, 4u8, 2u8, 1u8, 4u8, 2u8, 2u8, 2u8, 2u8]
    } else if attacker == 5 {
        seq![2u8, 1u8, 4u8, 2u8, 1u8, 2u8, 4u8, 2u8, 1u8, 4u8, 2u8, 2u8, 2u8, 2u8, 4u8, 2u8, 2u8]
    } else if attacker == 6 {
        seq![2u8, 1u8, 1u8, 1u8, 2u8, 2u8, 2u8, 1u8, 1u8, 2u8, 2u8, 4u8, 2u8, 4u8, 2u8, 2u8, 4u8]
    } else if attacker == 7 {
        seq![0u8, 2u8, 2u8, 2u8, 2u8, 2u8, 2u8, 4u8, 2u8, 2u8, 2u8, 2u8, 2u8, 4u8, 2u8, 2u8, 1u8]
    } else if attacker == 8 {
        seq![2u8, 2u8, 2u8, 2u8, 2u8, 4u8, 2u8, 2u8, 1u8, 1u8, 1u8, 2u8, 1u8, 2u8, 4u8, 2u8, 2u8]
    } else if attacker == 9 {
        seq![2u8, 2u8, 2u8, 2u8, 1u8, 4u8, 4u8, 2u8, 4u8, 1u8, 1u8, 4u8, 2u8, 2u8, 4u8, 1u8, 2u8]
    } else if attacker == 10 {
        seq![2u8, 2u8, 2u8, 2u8, 4u8, 4u8, 2u8, 2u8, 2u8, 4u8, 1u8, 1u8, 2u8, 2u8, 2u8, 1u8, 2u8]
    } else if attacker == 11 {
        seq![2u8, 2u8, 1u8, 1u8, 4u8, 4u8, 1u8, 2u8, 1u8, 1u8, 4u8, 1u8, 2u8, 2u8, 2u8, 1u8, 2u8]
    } else if attacker == 12 {
        seq![2u8, 2u8, 4u8, 2u8, 0u8, 2u8, 2u8, 2u8, 2u8, 2u8, 4u8, 1u8, 1u8, 2u8, 2u8, 1u8, 2u8]
    } else if attacker == 13 {
        seq![2u8, 4u8, 2u8, 4u8, 2u8, 2u8, 2u8, 2u8, 1u8, 2u8, 2u8, 2u8, 2u8, 1u8, 2u8, 2u8, 0u8]
    } else if attacker == 14 {
        seq![2u8, 2u8, 4u8, 2u8, 4u8, 2u8, 2u8, 2u8, 1u8, 1u8, 1u8, 4u8, 2u8, 2u8, 1u8, 4u8, 2u8]
    } else if attacker == 15 {
        seq![2u8, 2u8, 2u8, 2u8, 2u8, 2u8, 2u8, 2u8, 1u8, 2u8, 2u8, 2u8, 2u8, 2u8, 2u8, 4u8, 2u8]
    } else {
        seq![2u8, 1u8, 2u8, 2u8, 2u8, 2u8, 4u8, 2u8, 2u8, 2u8, 2u8, 2u8, 2u8, 4u8, 2u8, 2u8, 1u8]
    }
}

/// The multiplier of an attack of type `attacker` on a defender of type
/// `defender`, in halves.
pub open spec fn effectiveness_halves(attacker: PokemonType, defender: PokemonType) -> u8 {
    effectiveness_row(attacker.spec_index())[defender.spec_index()]
}

/// The multiplier against a defender of up to two types, in quarters: the
/// product of the multipliers against each type that is there.
pub open spec fn effectiveness_quarters(
    attacker: PokemonType,
    first: Option<PokemonType>,
    second: Option<PokemonType>,
) -> u8 {
    let a: int = match first {
        Some(defender) => effectiveness_halves(attacker, defender) as int,
        None => 2,
    };
    let b: int = match second {
        Some(defender) => effectiveness_halves(attacker, defender) as int,
        None => 2,
    };
    (a * b) as u8
}

fn row(attacker: usize) -> (row: [u8; 17])
    requires
        attacker < TYPE_COUNT,
    ensures
        row@ == effectiveness_row(attacker as int),
{
    if attacker == 0 {
        let row = [2u8, 2u8, 2u8, 2u8, 2u8, 1u8, 2u8, 0u8, 1u8, 2u8, 2u8, 2u8, 2u8, 2u8, 2u8, 2u8, 2u8];
        assert(row@ =~= effectiveness_row(0));
        row
    } else if attacker == 1 {
        let row = [4u8, 2u8, 1u8, 1u8, 2u8, 4u8, 1u8, 0u8, 4u8, 2u8, 2u8, 2u8, 2u8, 1u8, 4u8, 2u8, 4u8];
        assert(row@ =~= effectiveness_row(1));
        row
    } else if attacker == 2 {
        let row = [2u8, 4u8, 2u8, 2u8, 2u8, 1u8, 4u8, 2u8, 1u8, 2u8, 2u8, 4u8, 1u8, 2u8, 2u8, 2u8, 2u8];
        assert(row@ =~= effectiveness_row(2));
        row
    } else if attacker == 3 {
        let row = [2u8, 2u8, 2u8, 1u8, 1u8, 1u8, 2u8, 1u8, 0u8, 2u8, 2u8, 4u8, 2u8, 2u8, 2u8, 2u8, 2u8];
        assert(row@ =~= effectiveness_row(3));
        row
    } else if attacker == 4 {
        let row = [2u8, 2u8, 0u8, 4u8, 2u8, 4u8, 1u8, 2u8, 4u8, 4u8, 2u8, 1u8, 4u8, 2u8, 2u8, 2u8, 2u8];
        assert(row@ =~= effectiveness_row(4));
        row
    } else if attacker == 5 {
        let row = [2u8, 1u8, 4u8, 2u8, 1u8, 2u8, 4u8, 2u8, 1u8, 4u8, 2u8, 2u8, 2u8, 2u8, 4u8, 2u8, 2u8];
        assert(row@ =~= effectiveness_row(5));
        row
    } else if attacker == 6 {
        let row = [2u8, 1u8, 1u8, 1u8, 2u8, 2u8, 2u8, 1u8, 1u8, 2u8, 2u8, 4u8, 2u8, 4u8, 2u8, 2u8, 4u8];
        assert(row@ =~= effectiveness_row(6));
        row
    } else if attacker == 7 {
        let row = [0u8, 2u8, 2u8, 2u8, 2u8, 2u8, 2u8, 4u8, 2u8, 2u8, 2u8, 2u8, 2u8, 4u8, 2u8, 2u8, 1u8];
        assert(row@ =~= effectiveness_row(7));
        row
    } else if attacker == 8 {
        let row = [2u8, 2u8, 2u8, 2u8, 2u8, 4u8, 2u8, 2u8, 1u8, 1u8, 1u8, 2u8, 1u8, 2u8, 4u8, 2u8, 2u8];
        assert(row@ =~= effectiveness_row(8));
        row
    } else if attacker == 9 {
        let row = [2u8, 2u8, 2u8, 2u8, 1u8, 4u8, 4u8, 2u8, 4u8, 1u8, 1u8, 4u8, 2u8, 2u8, 4u8, 1u8, 2u8];
        assert(row@ =~= effectiveness_row(9));
        row
    } else if attacker == 10 {
        let row = [2u8, 2u8, 2u8, 2u8, 4u8, 4u8, 2u8, 2u8, 2u8, 4u8, 1u8, 1u8, 2u8, 2u8, 2u8, 1u8, 2u8];
        assert(row@ =~= effectiveness_row(10));
        row
    } else if attacker == 11 {
        let row = [2u8, 2u8, 1u8, 1u8, 4u8, 4u8, 1u8, 2u8, 1u8, 1u8, 4u8, 1u8, 2u8, 2u8, 2u8, 1u8, 2u8];
        assert(row@ =~= effectiveness_row(11));
        row
    } else if attacker == 12 {
        let row = [2u8, 2u8, 4u8, 2u8, 0u8, 2u8, 2u8, 2u8, 2u8, 2u8, 4u8, 1u8, 1u8, 2u8, 2u8, 1u8, 2u8];
        assert(row@ =~= effectiveness_row(12));
        row
    } else if attacker == 13 {
        let row = [2u8, 4u8, 2u8, 4u8, 2u8, 2u8, 2u8, 2u8, 1u8, 2u8, 2u8, 2u8, 2u8, 1u8, 2u8, 2u8, 0u8];
        assert(row@ =~= effectiveness_row(13));
        row
    } else if attacker == 14 {
        let row = [2u8, 2u8, 4u8, 2u8, 4u8, 2u8, 2u8, 2u8, 1u8, 1u8, 1u8, 4u8, 2u8, 2u8, 1u8, 4u8, 2u8];
        assert(row@ =~= effectiveness_row(14));
        row
    } else if attacker == 15 {
        let row = [2u8, 2u8, 2u8, 2u8, 2u8, 2u8, 2u8, 2u8, 1u8, 2u8, 2u8, 2u8, 2u8, 2u8, 2u8, 4u8, 2u8];
        assert(row@ =~= effectiveness_row(15));
        row
    } else {
        let row = [2u8, 1u8, 2u8, 2u8, 2u8, 2u8, 4u8, 2u8, 2u8, 2u8, 2u8, 2u8, 2u8, 4u8, 2u8, 2u8, 1u8];
        assert(row@ =~= effectiveness_row(16));
        row
    }
}

/// Every multiplier is none, half, normal or double.
pub proof fn lemma_row_values(attacker: int, defender: int)
    requires
        0 <= attacker < TYPE_COUNT,
        0 <= defender < TYPE_COUNT,
    ensures
        effectiveness_row(attacker).len() == TYPE_COUNT,
        effectiveness_row(attacker)[defender] == 0 || effectiveness_row(attacker)[defender] == 1
            || effectiveness_row(attacker)[defender] == 2 || effectiveness_row(attacker)[defender]
            == 4,
{
}

/// The multiplier of an attack on a defender of one type, in halves.
pub fn attack_effectiveness_single(attacker: PokemonType, defender: PokemonType) -> (halves: u8)
    ensures
        halves == effectiveness_halves(attacker, defender),
        halves == 0 || halves == 1 || halves == 2 || halves == 4,
{
    let row = row(attacker.index());
    proof {
        lemma_row_values(attacker.spec_index(), defender.spec_index());
    }
    row[defender.index()]
}

/// The multiplier of an attack on a defender of up to two types, in
/// quarters. A type that is not there does not change the damage.
pub fn attack_effectiveness_double(attacker: PokemonType, defenders: [Option<PokemonType>; 2]) -> (quarters:
    u8)
    ensures
        quarters == effectiveness_quarters(attacker, defenders@[0], defenders@[1]),
        quarters <= 16,
{
    let a: u8 = match defenders[0] {
        Some(defender) => attack_effectiveness_single(attacker, defender),
        None => 2,
    };
    let b: u8 = match defenders[1] {
        Some(defender) => attack_effectiveness_single(attacker, defender),
        None => 2,
    };
    assert(a * b <= 16) by (nonlinear_arith)
        requires
            a <= 4,
            b <= 4,
    ;
    a * b
}

/// How a multiplier is shown: weak, normal or strong.
#[derive(PartialEq, Eq, Structural, Hash, Debug, Clone, Copy)]
pub enum EffectivenessClass {
    /// Less than three quarters of the normal damage.
    Weak,
    Normal,
    /// More than five quarters of the normal damage.
    Strong,
}

/// The class of a multiplier that is given in halves.
pub fn classify_effectiveness(halves: u8) -> (class: EffectivenessClass)
    ensures
        class == (if halves < 2 {
            EffectivenessClass::Weak
        } else if halves > 2 {
            EffectivenessClass::Strong
        } else {
            EffectivenessClass::Normal
        }),
{
    if halves < 2 {
        EffectivenessClass::Weak
    } else if halves > 2 {
        EffectivenessClass::Strong
    } else {
        EffectivenessClass::Normal
    }
}

/// The position of a type and the type at a position are each other's
/// inverse, so the table has one row and one column for every type.
pub proof fn lemma_type_positions(a: PokemonType, b: PokemonType)
    ensures
        0 <= a.spec_index() < TYPE_COUNT,
        a.spec_index() == b.spec_index() <==> a == b,
{
}

/// How many types the table shows: all but the last.
pub const SHOWN_TYPE_COUNT: usize = 16;

/// How a multiplier that is given in halves is written in the table.
pub open spec fn label_text(halves: u8) -> Seq<char> {
    if halves == 0 {
        "x0.0"@
    } else if halves == 1 {
        "x0.5"@
    } else if halves == 2 {
        "x1.0"@
    } else if halves == 4 {
        "x2.0"@
    } else {
        "x?"@
    }
}

/// Writes a multiplier for the table.
pub fn effectiveness_label(halves: u8) -> (label: String)
    ensures
        label@ == label_text(halves),
{
    if halves == 0 {
        String::from_str("x0.0")
    } else if halves == 1 {
        String::from_str("x0.5")
    } else if halves == 2 {
        String::from_str("x1.0")
    } else if halves == 4 {
        String::from_str("x2.0")
    } else {
        String::from_str("x?")
    }
}

/// Whether a cell is set off: it lies in the column or in the row of the
/// cell that the pointer rested on in the last frame.
pub fn is_highlighted(last_hovered: Option<(usize, usize)>, column: usize, row: usize) -> (yes:
    bool)
    ensures
        yes == (match last_hovered {
            Some((c, r)) => c == column || r == row,
            None => false,
        }),
{
    match last_hovered {
        Some((c, r)) => c == column || r == row,
        None => false,
    }
}

/// The name of the icon of a type.
pub fn type_icon_name(kind: PokemonType) -> (name: String)
    ensures
        name@ == "type_"@ + kind.name_text(),
{
    let mut name = String::from_str("type_");
    name.append(kind.get_debug_name().as_str());
    name
}

} // verus!
