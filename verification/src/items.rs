//! The items of the game: their names, prices, weights, categories and the
//! equipment slots they fit, and owned items with quality and modifier.
use vstd::prelude::*;
use crate::text::{chars_eq, chars_of};

verus! {

/// A part of the body that equipment can cover.
#[derive(Clone, Copy, PartialEq, Eq, Structural, Debug)]
pub enum Limb {
    Head,
    Neck,
    Torso,
    LeftUpperArm,
    RightUpperArm,
    LeftLowerArm,
    RightLowerArm,
    LeftHand,
    RightHand,
    LeftUpperLeg,
    RightUpperLeg,
    LeftLowerLeg,
    RightLowerLeg,
    LeftFoot,
    RightFoot,
}

/// A modifier that an owned item may carry.
#[derive(Clone, Copy, PartialEq, Eq, Structural, Debug)]
pub enum Modifier {
    Normal,
    Lousy,
    Dull,
    Light,
    Heavy,
    Bulky,
    Intimidating,
    Superior,
    Legendary,
}

/// Every kind of item in the game.
#[derive(Clone, Copy, PartialEq, Eq, Structural, Debug)]
pub enum BaseItem {
    LeafHandful,
    LeafPile,
    LeafBucket,
    LeafBarrel,
    LeafTruckload,
    TankTop,
    Tshirt,
    Sneaker,
    Shorts,
    BaseballCap,
    PropellerHat,
    Sweater,
    Hoodie,
    Jacket,
    Coat,
    LatexGlove,
    CottonGlove,
    LeatherGlove,
    ArmSleeve,
    LegSleeve,
    PaperKnife,
    TreeStick,
    BrassKnuckles,
    SpikedBrassKnuckles,
    BladedBrassKnuckles,
    Orangeberries,
    PenPineappleApplePen,
    HealthPotion,
    InstantRamen,
    Ramen,
    CarolinaReaperRamen,
    Milk,
    FriedSnow,
    Scarf,
}

/// The item whose number is `i`, if there is one.
pub open spec fn base_from_repr(i: int) -> Option<BaseItem> {
    if i == 0 {
        Some(BaseItem::LeafHandful)
    } else if i == 1 {
        Some(BaseItem::LeafPile)
    } else if i == 2 {
        Some(BaseItem::LeafBucket)
    } else if i == 3 {
        Some(BaseItem::LeafBarrel)
    } else if i == 4 {
        Some(BaseItem::LeafTruckload)
    } else if i == 5 {
        Some(BaseItem::TankTop)
    } else if i == 6 {
        Some(BaseItem::Tshirt)
    } else if i == 7 {
        Some(BaseItem::Sneaker)
    } else if i == 8 {
        Some(BaseItem::Shorts)
    } else if i == 9 {
        Some(BaseItem::BaseballCap)
    } else if i == 10 {
        Some(BaseItem::PropellerHat)
    } else if i == 11 {
        Some(BaseItem::Sweater)
    } else if i == 12 {
        Some(BaseItem::Hoodie)
    } else if i == 13 {
        Some(BaseItem::Jacket)
    } else if i == 14 {
        Some(BaseItem::Coat)
    } else if i == 15 {
        Some(BaseItem::LatexGlove)
    } else if i == 16 {
        Some(BaseItem::CottonGlove)
    } else if i == 17 {
        Some(BaseItem::LeatherGlove)
    } else if i == 18 {
        Some(BaseItem::ArmSleeve)
    } else if i == 19 {
        Some(BaseItem::LegSleeve)
    } else if i == 20 {
        Some(BaseItem::PaperKnife)
    } else if i == 21 {
        Some(BaseItem::TreeStick)
    } else if i == 22 {
        Some(BaseItem::BrassKnuckles)
    } else if i == 23 {
        Some(BaseItem::SpikedBrassKnuckles)
    } else if i == 24 {
        Some(BaseItem::BladedBrassKnuckles)
    } else if i == 25 {
        Some(BaseItem::Orangeberries)
    } else if i == 26 {
        Some(BaseItem::PenPineappleApplePen)
    } else if i == 27 {
        Some(BaseItem::HealthPotion)
    } else if i == 28 {
        Some(BaseItem::InstantRamen)
    } else if i == 29 {
        Some(BaseItem::Ramen)
    } else if i == 30 {
        Some(BaseItem::CarolinaReaperRamen)
    } else if i == 31 {
        Some(BaseItem::Milk)
    } else if i == 32 {
        Some(BaseItem::FriedSnow)
    } else if i == 33 {
        Some(BaseItem::Scarf)
    } else {
        None
    }
}

/// The item whose display name is `s`, if there is one.
pub open spec fn base_from_name(s: Seq<char>) -> Option<BaseItem> {
    if s == "Handful of Leaves"@ {
        Some(BaseItem::LeafHandful)
    } else if s == "Pile of Leaves"@ {
        Some(BaseItem::LeafPile)
    } else if s == "Bucket of Leaves"@ {
        Some(BaseItem::LeafBucket)
    } else if s == "Barrel of Leaves"@ {
        Some(BaseItem::LeafBarrel)
    } else if s == "Truckload of Leaves"@ {
        Some(BaseItem::LeafTruckload)
    } else if s == "Tank Top"@ {
        Some(BaseItem::TankTop)
    } else if s == "T-Shirt"@ {
        Some(BaseItem::Tshirt)
    } else if s == "Sneaker"@ {
        Some(BaseItem::Sneaker)
    } else if s == "Shorts"@ {
        Some(BaseItem::Shorts)
    } else if s == "Baseball Cap"@ {
        Some(BaseItem::BaseballCap)
    } else if s == "Propeller Hat"@ {
        Some(BaseItem::PropellerHat)
    } else if s == "Sweater"@ {
        Some(BaseItem::Sweater)
    } else if s == "Hoodie"@ {
        Some(BaseItem::Hoodie)
    } else if s == "Jacket"@ {
        Some(BaseItem::Jacket)
    } else if s == "Coat"@ {
        Some(BaseItem::Coat)
    } else if s == "Latex Glove"@ {
        Some(BaseItem::LatexGlove)
    } else if s == "Cotton Glove"@ {
        Some(BaseItem::CottonGlove)
    } else if s == "Leather Glove"@ {
        Some(BaseItem::LeatherGlove)
    } else if s == "Arm Sleeve"@ {
        Some(BaseItem::ArmSleeve)
    } else if s == "Leg Sleeve"@ {
        Some(BaseItem::LegSleeve)
    } else if s == "Paper Knife"@ {
        Some(BaseItem::PaperKnife)
    } else if s == "Tree Stick"@ {
        Some(BaseItem::TreeStick)
    } else if s == "Brass Knuckles"@ {
        Some(BaseItem::BrassKnuckles)
    } else if s == "Spiked Brass Knuckles"@ {
        Some(BaseItem::SpikedBrassKnuckles)
    } else if s == "Bladed Brass Knuckles"@ {
        Some(BaseItem::BladedBrassKnuckles)
    } else if s == "Orangeberries"@ {
        Some(BaseItem::Orangeberries)
    } else if s == "Pen Pineapple Apple Pen"@ {
        Some(BaseItem::PenPineappleApplePen)
    } else if s == "Health Potion"@ {
        Some(BaseItem::HealthPotion)
    } else if s == "Instant Ramen"@ {
        Some(BaseItem::InstantRamen)
    } else if s == "Ramen"@ {
        Some(BaseItem::Ramen)
    } else if s == "Carolina Reaper Ramen"@ {
        Some(BaseItem::CarolinaReaperRamen)
    } else if s == "Milk"@ {
        Some(BaseItem::Milk)
    } else if s == "Fried Snow"@ {
        Some(BaseItem::FriedSnow)
    } else if s == "Scarf"@ {
        Some(BaseItem::Scarf)
    } else {
        None
    }
}

/// The modifier whose number is `i`, if there is one.
pub open spec fn modifier_from_repr(i: int) -> Option<Modifier> {
    if i == 0 {
        Some(Modifier::Normal)
    } else if i == 1 {
        Some(Modifier::Lousy)
    } else if i == 2 {
        Some(Modifier::Dull)
    } else if i == 3 {
        Some(Modifier::Light)
    } else if i == 4 {
        Some(Modifier::Heavy)
    } else if i == 5 {
        Some(Modifier::Bulky)
    } else if i == 6 {
        Some(Modifier::Intimidating)
    } else if i == 7 {
        Some(Modifier::Superior)
    } else if i == 8 {
        Some(Modifier::Legendary)
    } else {
        None
    }
}

/// The modifier whose name is `s`, if there is one.
pub open spec fn modifier_from_name(s: Seq<char>) -> Option<Modifier> {
    if s == "Normal"@ {
        Some(Modifier::Normal)
    } else if s == "Lousy"@ {
        Some(Modifier::Lousy)
    } else if s == "Dull"@ {
        Some(Modifier::Dull)
    } else if s == "Light"@ {
        Some(Modifier::Light)
    } else if s == "Heavy"@ {
        Some(Modifier::Heavy)
    } else if s == "Bulky"@ {
        Some(Modifier::Bulky)
    } else if s == "Intimidating"@ {
        Some(Modifier::Intimidating)
    } else if s == "Superior"@ {
        Some(Modifier::Superior)
    } else if s == "Legendary"@ {
        Some(Modifier::Legendary)
    } else {
        None
    }
}

impl Modifier {
    pub open spec fn spec_repr(self) -> int {
        match self {
            Modifier::Normal => 0,
            Modifier::Lousy => 1,
            Modifier::Dull => 2,
            Modifier::Light => 3,
            Modifier::Heavy => 4,
            Modifier::Bulky => 5,
            Modifier::Intimidating => 6,
            Modifier::Superior => 7,
            Modifier::Legendary => 8,
        }
    }

    pub open spec fn spec_name(self) -> Seq<char> {
        match self {
            Modifier::Normal => "Normal"@,
            Modifier::Lousy => "Lousy"@,
            Modifier::Dull => "Dull"@,
            Modifier::Light => "Light"@,
            Modifier::Heavy => "Heavy"@,
            Modifier::Bulky => "Bulky"@,
            Modifier::Intimidating => "Intimidating"@,
            Modifier::Superior => "Superior"@,
            Modifier::Legendary => "Legendary"@,
        }
    }

    /// The number under which the modifier is stored.
    pub fn repr(&self) -> (r: u8)
        ensures
            r as int == self.spec_repr(),
    {
        match self {
            Modifier::Normal => 0,
            Modifier::Lousy => 1,
            Modifier::Dull => 2,
            Modifier::Light => 3,
            Modifier::Heavy => 4,
            Modifier::Bulky => 5,
            Modifier::Intimidating => 6,
            Modifier::Superior => 7,
            Modifier::Legendary => 8,
        }
    }

    /// The modifier stored under number `i`.
    pub fn from_repr(i: usize) -> (r: Option<Modifier>)
        ensures
            r == modifier_from_repr(i as int),
    {
        match i {
            0 => Some(Modifier::Normal),
            1 => Some(Modifier::Lousy),
            2 => Some(Modifier::Dull),
            3 => Some(Modifier::Light),
            4 => Some(Modifier::Heavy),
            5 => Some(Modifier::Bulky),
            6 => Some(Modifier::Intimidating),
            7 => Some(Modifier::Superior),
            8 => Some(Modifier::Legendary),
            _ => None,
        }
    }

    /// The name of the modifier.
    pub fn name(&self) -> (r: &'static str)
        ensures
            r@ == self.spec_name(),
    {
        match self {
            Modifier::Normal => "Normal",
            Modifier::Lousy => "Lousy",
            Modifier::Dull => "Dull",
            Modifier::Light => "Light",
            Modifier::Heavy => "Heavy",
            Modifier::Bulky => "Bulky",
            Modifier::Intimidating => "Intimidating",
            Modifier::Superior => "Superior",
            Modifier::Legendary => "Legendary",
        }
    }

    /// The modifier named `s`, if any.
    pub fn from_name(s: &[char]) -> (r: Option<Modifier>)
        ensures
            r == modifier_from_name(s@),
    {
        if chars_eq(s, "Normal") {
            Some(Modifier::Normal)
        } else if chars_eq(s, "Lousy") {
            Some(Modifier::Lousy)
        } else if chars_eq(s, "Dull") {
            Some(Modifier::Dull)
        } else if chars_eq(s, "Light") {
            Some(Modifier::Light)
        } else if chars_eq(s, "Heavy") {
            Some(Modifier::Heavy)
        } else if chars_eq(s, "Bulky") {
            Some(Modifier::Bulky)
        } else if chars_eq(s, "Intimidating") {
            Some(Modifier::Intimidating)
        } else if chars_eq(s, "Superior") {
            Some(Modifier::Superior)
        } else if chars_eq(s, "Legendary") {
            Some(Modifier::Legendary)
        } else {
            None
        }
    }
}

impl BaseItem {
    pub open spec fn spec_repr(self) -> int {
        match self {
            BaseItem::LeafHandful => 0,
            BaseItem::LeafPile => 1,
            BaseItem::LeafBucket => 2,
            BaseItem::LeafBarrel => 3,
            BaseItem::LeafTruckload => 4,
            BaseItem::TankTop => 5,
            BaseItem::Tshirt => 6,
            BaseItem::Sneaker => 7,
            BaseItem::Shorts => 8,
            BaseItem::BaseballCap => 9,
            BaseItem::PropellerHat => 10,
            BaseItem::Sweater => 11,
            BaseItem::Hoodie => 12,
            BaseItem::Jacket => 13,
            BaseItem::Coat => 14,
            BaseItem::LatexGlove => 15,
            BaseItem::CottonGlove => 16,
            BaseItem::LeatherGlove => 17,
            BaseItem::ArmSleeve => 18,
            BaseItem::LegSleeve => 19,
            BaseItem::PaperKnife => 20,
            BaseItem::TreeStick => 21,
            BaseItem::BrassKnuckles => 22,
            BaseItem::SpikedBrassKnuckles => 23,
            BaseItem::BladedBrassKnuckles => 24,
            BaseItem::Orangeberries => 25,
            BaseItem::PenPineappleApplePen => 26,
            BaseItem::HealthPotion => 27,
            BaseItem::InstantRamen => 28,
            BaseItem::Ramen => 29,
            BaseItem::CarolinaReaperRamen => 30,
            BaseItem::Milk => 31,
            BaseItem::FriedSnow => 32,
            BaseItem::Scarf => 33,
        }
    }

    pub open spec fn spec_name(self) -> Seq<char> {
        match self {
            BaseItem::LeafHandful => "Handful of Leaves"@,
            BaseItem::LeafPile => "Pile of Leaves"@,
            BaseItem::LeafBucket => "Bucket of Leaves"@,
            BaseItem::LeafBarrel => "Barrel of Leaves"@,
            BaseItem::LeafTruckload => "Truckload of Leaves"@,
            BaseItem::TankTop => "Tank Top"@,
            BaseItem::Tshirt => "T-Shirt"@,
            BaseItem::Sneaker => "Sneaker"@,
            BaseItem::Shorts => "Shorts"@,
            BaseItem::BaseballCap => "Baseball Cap"@,
            BaseItem::PropellerHat => "Propeller Hat"@,
            BaseItem::Sweater => "Sweater"@,
            BaseItem::Hoodie => "Hoodie"@,
            BaseItem::Jacket => "Jacket"@,
            BaseItem::Coat => "Coat"@,
            BaseItem::LatexGlove => "Latex Glove"@,
            BaseItem::CottonGlove => "Cotton Glove"@,
            BaseItem::LeatherGlove => "Leather Glove"@,
            BaseItem::ArmSleeve => "Arm Sleeve"@,
            BaseItem::LegSleeve => "Leg Sleeve"@,
            BaseItem::PaperKnife => "Paper Knife"@,
            BaseItem::TreeStick => "Tree Stick"@,
            BaseItem::BrassKnuckles => "Brass Knuckles"@,
            BaseItem::SpikedBrassKnuckles => "Spiked Brass Knuckles"@,
            BaseItem::BladedBrassKnuckles => "Bladed Brass Knuckles"@,
            BaseItem::Orangeberries => "Orangeberries"@,
            BaseItem::PenPineappleApplePen => "Pen Pineapple Apple Pen"@,
            BaseItem::HealthPotion => "Health Potion"@,
            BaseItem::InstantRamen => "Instant Ramen"@,
            BaseItem::Ramen => "Ramen"@,
            BaseItem::CarolinaReaperRamen => "Carolina Reaper Ramen"@,
            BaseItem::Milk => "Milk"@,
            BaseItem::FriedSnow => "Fried Snow"@,
            BaseItem::Scarf => "Scarf"@,
        }
    }

    pub open spec fn spec_description(self) -> Seq<char> {
        match self {
            BaseItem::LeafHandful => "It's a handful of leaves! Mind if I take some?"@,
            BaseItem::LeafPile => "Are you really just gonna ***leave*** them on the ground like that?"@,
            BaseItem::LeafBucket => "A bucket o' leaves."@,
            BaseItem::LeafBarrel => "Currency in an alcohol container."@,
            BaseItem::LeafTruckload => "So much leaves that you can swim in them!"@,
            BaseItem::TankTop => "Does not come with a turret."@,
            BaseItem::Tshirt => "A normal T-shirt. Luckily, you don't have to wash it everyday."@,
            BaseItem::Sneaker => "A shoe for your foot. Nothing remarkable."@,
            BaseItem::Shorts => "Too short for you? That's too bad."@,
            BaseItem::BaseballCap => "No cap, this is a cap."@,
            BaseItem::PropellerHat => "\"Become an attack helicopter today!\""@,
            BaseItem::Sweater => "A pink sweater, made by a grandma's love and care."@,
            BaseItem::Hoodie => "Gangster enough to give you some fighting spirit."@,
            BaseItem::Jacket => "Who is Jack why are they et."@,
            BaseItem::Coat => "Oh wait, that diamond on the zipper is fake..."@,
            BaseItem::LatexGlove => "You're not going to use it more than once, are you...?"@,
            BaseItem::CottonGlove => "Perfect for the winter season."@,
            BaseItem::LeatherGlove => "Gangsta."@,
            BaseItem::ArmSleeve => "Your best companion for normal workouts."@,
            BaseItem::LegSleeve => "Prevent shin splits"@,
            BaseItem::PaperKnife => "Don't underestimate the power of paper cuts."@,
            BaseItem::TreeStick => "Instead of using it as fire fuel, you're gonna swing it around like a madman, aren't you?"@,
            BaseItem::BrassKnuckles => "Dangerous if used in the wrong hands"@,
            BaseItem::SpikedBrassKnuckles => "Quite spikey."@,
            BaseItem::BladedBrassKnuckles => "Punch and cut at the same time. Win-win."@,
            BaseItem::Orangeberries => "Tastes exactly the opposite of blueberries."@,
            BaseItem::PenPineappleApplePen => "I don't have a pen\nI don't have an apple\nno apple pen!\nI don't have a pen\nI don't have pineapple\nno pineapple pen!\nNo apple pen, no pineaple pen, no pen pineapple apple pen!\nNo pen pineapple apple pen!"@,
            BaseItem::HealthPotion => "A classic consumable item."@,
            BaseItem::InstantRamen => "Don't tell me you're going to eat it dry?"@,
            BaseItem::Ramen => "Steaming hot, but not spicy hot."@,
            BaseItem::CarolinaReaperRamen => "You have a death wish if you want to eat this abomination."@,
            BaseItem::Milk => "Dad went to get milk, but never came back. Did you see him on the way?"@,
            BaseItem::FriedSnow => "It's got too much sentimental value to be eaten... or does it?"@,
            BaseItem::Scarf => "Scarfing down a snowman?"@,
        }
    }

    pub open spec fn spec_buying_price(self) -> int {
        match self {
            BaseItem::LeafHandful => 20,
            BaseItem::LeafPile => 100,
            BaseItem::LeafBucket => 400,
            BaseItem::LeafBarrel => 2000,
            BaseItem::LeafTruckload => 10000,
            BaseItem::TankTop => 10,
            BaseItem::Tshirt => 10,
            BaseItem::Sneaker => 20,
            BaseItem::Shorts => 30,
            BaseItem::BaseballCap => 10,
            BaseItem::PropellerHat => 50,
            BaseItem::Sweater => 100,
            BaseItem::Hoodie => 200,
            BaseItem::Jacket => 450,
            BaseItem::Coat => 1999,
            BaseItem::LatexGlove => 1,
            BaseItem::CottonGlove => 30,
            BaseItem::LeatherGlove => 50,
            BaseItem::ArmSleeve => 25,
            BaseItem::LegSleeve => 30,
            BaseItem::PaperKnife => 5,
            BaseItem::TreeStick => 20,
            BaseItem::BrassKnuckles => 150,
            BaseItem::SpikedBrassKnuckles => 400,
            BaseItem::BladedBrassKnuckles => 999,
            BaseItem::Orangeberries => 20,
            BaseItem::PenPineappleApplePen => 50,
            BaseItem::HealthPotion => 100,
            BaseItem::InstantRamen => 5,
            BaseItem::Ramen => 150,
            BaseItem::CarolinaReaperRamen => 666,
            BaseItem::Milk => 250,
            BaseItem::FriedSnow => 99999,
            BaseItem::Scarf => 40,
        }
    }

    pub open spec fn spec_selling_price(self) -> int {
        match self {
            BaseItem::LeafHandful => 20,
            BaseItem::LeafPile => 100,
            BaseItem::LeafBucket => 400,
            BaseItem::LeafBarrel => 2000,
            BaseItem::LeafTruckload => 10000,
            BaseItem::TankTop => 5,
            BaseItem::Tshirt => 5,
            BaseItem::Sneaker => 10,
            BaseItem::Shorts => 15,
            BaseItem::BaseballCap => 5,
            BaseItem::PropellerHat => 25,
            BaseItem::Sweater => 50,
            BaseItem::Hoodie => 100,
            BaseItem::Jacket => 200,
            BaseItem::Coat => 50,
            BaseItem::LatexGlove => 0,
            BaseItem::CottonGlove => 10,
            BaseItem::LeatherGlove => 20,
            BaseItem::ArmSleeve => 5,
            BaseItem::LegSleeve => 5,
            BaseItem::PaperKnife => 0,
            BaseItem::TreeStick => 0,
            BaseItem::BrassKnuckles => 100,
            BaseItem::SpikedBrassKnuckles => 300,
            BaseItem::BladedBrassKnuckles => 666,
            BaseItem::Orangeberries => 15,
            BaseItem::PenPineappleApplePen => 40,
            BaseItem::HealthPotion => 100,
            BaseItem::InstantRamen => 5,
            BaseItem::Ramen => 100,
            BaseItem::CarolinaReaperRamen => 444,
            BaseItem::Milk => 200,
            BaseItem::FriedSnow => -99999,
            BaseItem::Scarf => 15,
        }
    }

    pub open spec fn spec_weight(self) -> int {
        match self {
            BaseItem::LeafHandful => 0,
            BaseItem::LeafPile => 0,
            BaseItem::LeafBucket => 0,
            BaseItem::LeafBarrel => 0,
            BaseItem::LeafTruckload => 0,
            BaseItem::TankTop => 64,
            BaseItem::Tshirt => 64,
            BaseItem::Sneaker => 16,
            BaseItem::Shorts => 16,
            BaseItem::BaseballCap => 8,
            BaseItem::PropellerHat => 2,
            BaseItem::Sweater => 16,
            BaseItem::Hoodie => 16,
            BaseItem::Jacket => 8,
            BaseItem::Coat => 8,
            BaseItem::LatexGlove => 16,
            BaseItem::CottonGlove => 8,
            BaseItem::LeatherGlove => 8,
            BaseItem::ArmSleeve => 8,
            BaseItem::LegSleeve => 8,
            BaseItem::PaperKnife => 64,
            BaseItem::TreeStick => 64,
            BaseItem::BrassKnuckles => 32,
            BaseItem::SpikedBrassKnuckles => 16,
            BaseItem::BladedBrassKnuckles => 8,
            BaseItem::Orangeberries => 64,
            BaseItem::PenPineappleApplePen => 16,
            BaseItem::HealthPotion => 32,
            BaseItem::InstantRamen => 32,
            BaseItem::Ramen => 16,
            BaseItem::CarolinaReaperRamen => 8,
            BaseItem::Milk => 64,
            BaseItem::FriedSnow => 4,
            BaseItem::Scarf => 8,
        }
    }

    pub open spec fn spec_equipable_limbs(self) -> Seq<Limb> {
        match self {
            BaseItem::LeafHandful => seq![],
            BaseItem::LeafPile => seq![],
            BaseItem::LeafBucket => seq![],
            BaseItem::LeafBarrel => seq![],
            BaseItem::LeafTruckload => seq![],
            BaseItem::TankTop => seq![Limb::Torso],
            BaseItem::Tshirt => seq![Limb::Torso, Limb::LeftUpperArm, Limb::RightUpperArm],
            BaseItem::Sneaker => seq![Limb::LeftFoot, Limb::RightFoot],
            BaseItem::Shorts => seq![Limb::LeftUpperLeg, Limb::RightUpperLeg],
            BaseItem::BaseballCap => seq![Limb::Head],
            BaseItem::PropellerHat => seq![Limb::Head],
            BaseItem::Sweater => seq![Limb::Torso, Limb::LeftUpperArm, Limb::RightUpperArm, Limb::LeftLowerArm, Limb::RightLowerArm],
            BaseItem::Hoodie => seq![Limb::Torso, Limb::LeftUpperArm, Limb::RightUpperArm, Limb::LeftLowerArm, Limb::RightLowerArm],
            BaseItem::Jacket => seq![Limb::Torso, Limb::LeftUpperArm, Limb::RightUpperArm, Limb::LeftLowerArm, Limb::RightLowerArm],
            BaseItem::Coat => seq![Limb::Torso, Limb::LeftUpperArm, Limb::RightUpperArm, Limb::LeftLowerArm, Limb::RightLowerArm],
            BaseItem::LatexGlove => seq![Limb::LeftHand, Limb::RightHand],
            BaseItem::CottonGlove => seq![Limb::LeftHand, Limb::RightHand],
            BaseItem::LeatherGlove => seq![Limb::LeftHand, Limb::RightHand],
            BaseItem::ArmSleeve => seq![Limb::LeftLowerArm, Limb::RightLowerArm],
            BaseItem::LegSleeve => seq![Limb::LeftLowerLeg, Limb::RightLowerLeg],
            BaseItem::PaperKnife => seq![],
            BaseItem::TreeStick => seq![],
            BaseItem::BrassKnuckles => seq![],
            BaseItem::SpikedBrassKnuckles => seq![],
            BaseItem::BladedBrassKnuckles => seq![],
            BaseItem::Orangeberries => seq![],
            BaseItem::PenPineappleApplePen => seq![],
            BaseItem::HealthPotion => seq![],
            BaseItem::InstantRamen => seq![],
            BaseItem::Ramen => seq![],
            BaseItem::CarolinaReaperRamen => seq![],
            BaseItem::Milk => seq![],
            BaseItem::FriedSnow => seq![],
            BaseItem::Scarf => seq![Limb::Neck],
        }
    }

    pub open spec fn spec_equipments() -> Seq<BaseItem> {
        seq![BaseItem::TankTop, BaseItem::Tshirt, BaseItem::Sweater, BaseItem::Hoodie, BaseItem::Jacket, BaseItem::Coat, BaseItem::Sneaker, BaseItem::Shorts, BaseItem::BaseballCap, BaseItem::PropellerHat, BaseItem::LatexGlove, BaseItem::CottonGlove, BaseItem::LeatherGlove, BaseItem::ArmSleeve, BaseItem::LegSleeve, BaseItem::Scarf]
    }

    pub open spec fn spec_weapons() -> Seq<BaseItem> {
        seq![BaseItem::PaperKnife, BaseItem::TreeStick, BaseItem::BrassKnuckles, BaseItem::SpikedBrassKnuckles, BaseItem::BladedBrassKnuckles]
    }

    pub open spec fn spec_consumables() -> Seq<BaseItem> {
        seq![BaseItem::Orangeberries, BaseItem::PenPineappleApplePen, BaseItem::HealthPotion, BaseItem::InstantRamen, BaseItem::Ramen, BaseItem::CarolinaReaperRamen, BaseItem::Milk, BaseItem::FriedSnow]
    }

    /// The number under which the item is stored.
    pub fn repr(&self) -> (r: u32)
        ensures
            r as int == self.spec_repr(),
    {
        match self {
            BaseItem::LeafHandful => 0,
            BaseItem::LeafPile => 1,
            BaseItem::LeafBucket => 2,
            BaseItem::LeafBarrel => 3,
            BaseItem::LeafTruckload => 4,
            BaseItem::TankTop => 5,
            BaseItem::Tshirt => 6,
            BaseItem::Sneaker => 7,
            BaseItem::Shorts => 8,
            BaseItem::BaseballCap => 9,
            BaseItem::PropellerHat => 10,
            BaseItem::Sweater => 11,
            BaseItem::Hoodie => 12,
            BaseItem::Jacket => 13,
            BaseItem::Coat => 14,
            BaseItem::LatexGlove => 15,
            BaseItem::CottonGlove => 16,
            BaseItem::LeatherGlove => 17,
            BaseItem::ArmSleeve => 18,
            BaseItem::LegSleeve => 19,
            BaseItem::PaperKnife => 20,
            BaseItem::TreeStick => 21,
            BaseItem::BrassKnuckles => 22,
            BaseItem::SpikedBrassKnuckles => 23,
            BaseItem::BladedBrassKnuckles => 24,
            BaseItem::Orangeberries => 25,
            BaseItem::PenPineappleApplePen => 26,
            BaseItem::HealthPotion => 27,
            BaseItem::InstantRamen => 28,
            BaseItem::Ramen => 29,
            BaseItem::CarolinaReaperRamen => 30,
            BaseItem::Milk => 31,
            BaseItem::FriedSnow => 32,
            BaseItem::Scarf => 33,
        }
    }

    /// The item stored under number `i`.
    pub fn from_repr(i: usize) -> (r: Option<BaseItem>)
        ensures
            r == base_from_repr(i as int),
    {
        match i {
            0 => Some(BaseItem::LeafHandful),
            1 => Some(BaseItem::LeafPile),
            2 => Some(BaseItem::LeafBucket),
            3 => Some(BaseItem::LeafBarrel),
            4 => Some(BaseItem::LeafTruckload),
            5 => Some(BaseItem::TankTop),
            6 => Some(BaseItem::Tshirt),
            7 => Some(BaseItem::Sneaker),
            8 => Some(BaseItem::Shorts),
            9 => Some(BaseItem::BaseballCap),
            10 => Some(BaseItem::PropellerHat),
            11 => Some(BaseItem::Sweater),
            12 => Some(BaseItem::Hoodie),
            13 => Some(BaseItem::Jacket),
            14 => Some(BaseItem::Coat),
            15 => Some(BaseItem::LatexGlove),
            16 => Some(BaseItem::CottonGlove),
            17 => Some(BaseItem::LeatherGlove),
            18 => Some(BaseItem::ArmSleeve),
            19 => Some(BaseItem::LegSleeve),
            20 => Some(BaseItem::PaperKnife),
            21 => Some(BaseItem::TreeStick),
            22 => Some(BaseItem::BrassKnuckles),
            23 => Some(BaseItem::SpikedBrassKnuckles),
            24 => Some(BaseItem::BladedBrassKnuckles),
            25 => Some(BaseItem::Orangeberries),
            26 => Some(BaseItem::PenPineappleApplePen),
            27 => Some(BaseItem::HealthPotion),
            28 => Some(BaseItem::InstantRamen),
            29 => Some(BaseItem::Ramen),
            30 => Some(BaseItem::CarolinaReaperRamen),
            31 => Some(BaseItem::Milk),
            32 => Some(BaseItem::FriedSnow),
            33 => Some(BaseItem::Scarf),
            _ => None,
        }
    }

    /// The display name of the item.
    pub fn name(&self) -> (r: &'static str)
        ensures
            r@ == self.spec_name(),
    {
        match self {
            BaseItem::LeafHandful => "Handful of Leaves",
            BaseItem::LeafPile => "Pile of Leaves",
            BaseItem::LeafBucket => "Bucket of Leaves",
            BaseItem::LeafBarrel => "Barrel of Leaves",
            BaseItem::LeafTruckload => "Truckload of Leaves",
            BaseItem::TankTop => "Tank Top",
            BaseItem::Tshirt => "T-Shirt",
            BaseItem::Sneaker => "Sneaker",
            BaseItem::Shorts => "Shorts",
            BaseItem::BaseballCap => "Baseball Cap",
            BaseItem::PropellerHat => "Propeller Hat",
            BaseItem::Sweater => "Sweater",
            BaseItem::Hoodie => "Hoodie",
            BaseItem::Jacket => "Jacket",
            BaseItem::Coat => "Coat",
            BaseItem::LatexGlove => "Latex Glove",
            BaseItem::CottonGlove => "Cotton Glove",
            BaseItem::LeatherGlove => "Leather Glove",
            BaseItem::ArmSleeve => "Arm Sleeve",
            BaseItem::LegSleeve => "Leg Sleeve",
            BaseItem::PaperKnife => "Paper Knife",
            BaseItem::TreeStick => "Tree Stick",
            BaseItem::BrassKnuckles => "Brass Knuckles",
            BaseItem::SpikedBrassKnuckles => "Spiked Brass Knuckles",
            BaseItem::BladedBrassKnuckles => "Bladed Brass Knuckles",
            BaseItem::Orangeberries => "Orangeberries",
            BaseItem::PenPineappleApplePen => "Pen Pineapple Apple Pen",
            BaseItem::HealthPotion => "Health Potion",
            BaseItem::InstantRamen => "Instant Ramen",
            BaseItem::Ramen => "Ramen",
            BaseItem::CarolinaReaperRamen => "Carolina Reaper Ramen",
            BaseItem::Milk => "Milk",
            BaseItem::FriedSnow => "Fried Snow",
            BaseItem::Scarf => "Scarf",
        }
    }

    /// The item whose display name is exactly `s`, if any.
    pub fn from_name(s: &[char]) -> (r: Option<BaseItem>)
        ensures
            r == base_from_name(s@),
    {
        if chars_eq(s, "Handful of Leaves") {
            Some(BaseItem::LeafHandful)
        } else if chars_eq(s, "Pile of Leaves") {
            Some(BaseItem::LeafPile)
        } else if chars_eq(s, "Bucket of Leaves") {
            Some(BaseItem::LeafBucket)
        } else if chars_eq(s, "Barrel of Leaves") {
            Some(BaseItem::LeafBarrel)
        } else if chars_eq(s, "Truckload of Leaves") {
            Some(BaseItem::LeafTruckload)
        } else if chars_eq(s, "Tank Top") {
            Some(BaseItem::TankTop)
        } else if chars_eq(s, "T-Shirt") {
            Some(BaseItem::Tshirt)
        } else if chars_eq(s, "Sneaker") {
            Some(BaseItem::Sneaker)
        } else if chars_eq(s, "Shorts") {
            Some(BaseItem::Shorts)
        } else if chars_eq(s, "Baseball Cap") {
            Some(BaseItem::BaseballCap)
        } else if chars_eq(s, "Propeller Hat") {
            Some(BaseItem::PropellerHat)
        } else if chars_eq(s, "Sweater") {
            Some(BaseItem::Sweater)
        } else if chars_eq(s, "Hoodie") {
            Some(BaseItem::Hoodie)
        } else if chars_eq(s, "Jacket") {
            Some(BaseItem::Jacket)
        } else if chars_eq(s, "Coat") {
            Some(BaseItem::Coat)
        } else if chars_eq(s, "Latex Glove") {
            Some(BaseItem::LatexGlove)
        } else if chars_eq(s, "Cotton Glove") {
            Some(BaseItem::CottonGlove)
        } else if chars_eq(s, "Leather Glove") {
            Some(BaseItem::LeatherGlove)
        } else if chars_eq(s, "Arm Sleeve") {
            Some(BaseItem::ArmSleeve)
        } else if chars_eq(s, "Leg Sleeve") {
            Some(BaseItem::LegSleeve)
        } else if chars_eq(s, "Paper Knife") {
            Some(BaseItem::PaperKnife)
        } else if chars_eq(s, "Tree Stick") {
            Some(BaseItem::TreeStick)
        } else if chars_eq(s, "Brass Knuckles") {
            Some(BaseItem::BrassKnuckles)
        } else if chars_eq(s, "Spiked Brass Knuckles") {
            Some(BaseItem::SpikedBrassKnuckles)
        } else if chars_eq(s, "Bladed Brass Knuckles") {
            Some(BaseItem::BladedBrassKnuckles)
        } else if chars_eq(s, "Orangeberries") {
            Some(BaseItem::Orangeberries)
        } else if chars_eq(s, "Pen Pineapple Apple Pen") {
            Some(BaseItem::PenPineappleApplePen)
        } else if chars_eq(s, "Health Potion") {
            Some(BaseItem::HealthPotion)
        } else if chars_eq(s, "Instant Ramen") {
            Some(BaseItem::InstantRamen)
        } else if chars_eq(s, "Ramen") {
            Some(BaseItem::Ramen)
        } else if chars_eq(s, "Carolina Reaper Ramen") {
            Some(BaseItem::CarolinaReaperRamen)
        } else if chars_eq(s, "Milk") {
            Some(BaseItem::Milk)
        } else if chars_eq(s, "Fried Snow") {
            Some(BaseItem::FriedSnow)
        } else if chars_eq(s, "Scarf") {
            Some(BaseItem::Scarf)
        } else {
            None
        }
    }

    /// The item whose display name is exactly `s`, if any.
    pub fn from_str(s: &str) -> (r: Option<BaseItem>)
        ensures
            r == base_from_name(s@),
    {
        let cs = chars_of(s);
        Self::from_name(&cs)
    }

    /// The description shown for the item.
    pub fn description(&self) -> (r: &'static str)
        ensures
            r@ == self.spec_description(),
    {
        match self {
            BaseItem::LeafHandful => "It's a handful of leaves! Mind if I take some?",
            BaseItem::LeafPile => "Are you really just gonna ***leave*** them on the ground like that?",
            BaseItem::LeafBucket => "A bucket o' leaves.",
            BaseItem::LeafBarrel => "Currency in an alcohol container.",
            BaseItem::LeafTruckload => "So much leaves that you can swim in them!",
            BaseItem::TankTop => "Does not come with a turret.",
            BaseItem::Tshirt => "A normal T-shirt. Luckily, you don't have to wash it everyday.",
            BaseItem::Sneaker => "A shoe for your foot. Nothing remarkable.",
            BaseItem::Shorts => "Too short for you? That's too bad.",
            BaseItem::BaseballCap => "No cap, this is a cap.",
            BaseItem::PropellerHat => "\"Become an attack helicopter today!\"",
            BaseItem::Sweater => "A pink sweater, made by a grandma's love and care.",
            BaseItem::Hoodie => "Gangster enough to give you some fighting spirit.",
            BaseItem::Jacket => "Who is Jack why are they et.",
            BaseItem::Coat => "Oh wait, that diamond on the zipper is fake...",
            BaseItem::LatexGlove => "You're not going to use it more than once, are you...?",
            BaseItem::CottonGlove => "Perfect for the winter season.",
            BaseItem::LeatherGlove => "Gangsta.",
            BaseItem::ArmSleeve => "Your best companion for normal workouts.",
            BaseItem::LegSleeve => "Prevent shin splits",
            BaseItem::PaperKnife => "Don't underestimate the power of paper cuts.",
            BaseItem::TreeStick => "Instead of using it as fire fuel, you're gonna swing it around like a madman, aren't you?",
            BaseItem::BrassKnuckles => "Dangerous if used in the wrong hands",
            BaseItem::SpikedBrassKnuckles => "Quite spikey.",
            BaseItem::BladedBrassKnuckles => "Punch and cut at the same time. Win-win.",
            BaseItem::Orangeberries => "Tastes exactly the opposite of blueberries.",
            BaseItem::PenPineappleApplePen => "I don't have a pen\nI don't have an apple\nno apple pen!\nI don't have a pen\nI don't have pineapple\nno pineapple pen!\nNo apple pen, no pineaple pen, no pen pineapple apple pen!\nNo pen pineapple apple pen!",
            BaseItem::HealthPotion => "A classic consumable item.",
            BaseItem::InstantRamen => "Don't tell me you're going to eat it dry?",
            BaseItem::Ramen => "Steaming hot, but not spicy hot.",
            BaseItem::CarolinaReaperRamen => "You have a death wish if you want to eat this abomination.",
            BaseItem::Milk => "Dad went to get milk, but never came back. Did you see him on the way?",
            BaseItem::FriedSnow => "It's got too much sentimental value to be eaten... or does it?",
            BaseItem::Scarf => "Scarfing down a snowman?",
        }
    }

    /// What the shop asks for the item.
    pub fn buying_price(&self) -> (r: i32)
        ensures
            r as int == self.spec_buying_price(),
    {
        match self {
            BaseItem::LeafHandful => 20,
            BaseItem::LeafPile => 100,
            BaseItem::LeafBucket => 400,
            BaseItem::LeafBarrel => 2000,
            BaseItem::LeafTruckload => 10000,
            BaseItem::TankTop => 10,
            BaseItem::Tshirt => 10,
            BaseItem::Sneaker => 20,
            BaseItem::Shorts => 30,
            BaseItem::BaseballCap => 10,
            BaseItem::PropellerHat => 50,
            BaseItem::Sweater => 100,
            BaseItem::Hoodie => 200,
            BaseItem::Jacket => 450,
            BaseItem::Coat => 1999,
            BaseItem::LatexGlove => 1,
            BaseItem::CottonGlove => 30,
            BaseItem::LeatherGlove => 50,
            BaseItem::ArmSleeve => 25,
            BaseItem::LegSleeve => 30,
            BaseItem::PaperKnife => 5,
            BaseItem::TreeStick => 20,
            BaseItem::BrassKnuckles => 150,
            BaseItem::SpikedBrassKnuckles => 400,
            BaseItem::BladedBrassKnuckles => 999,
            BaseItem::Orangeberries => 20,
            BaseItem::PenPineappleApplePen => 50,
            BaseItem::HealthPotion => 100,
            BaseItem::InstantRamen => 5,
            BaseItem::Ramen => 150,
            BaseItem::CarolinaReaperRamen => 666,
            BaseItem::Milk => 250,
            BaseItem::FriedSnow => 99999,
            BaseItem::Scarf => 40,
        }
    }

    /// What the shop pays for the item.
    pub fn selling_price(&self) -> (r: i32)
        ensures
            r as int == self.spec_selling_price(),
    {
        match self {
            BaseItem::LeafHandful => 20,
            BaseItem::LeafPile => 100,
            BaseItem::LeafBucket => 400,
            BaseItem::LeafBarrel => 2000,
            BaseItem::LeafTruckload => 10000,
            BaseItem::TankTop => 5,
            BaseItem::Tshirt => 5,
            BaseItem::Sneaker => 10,
            BaseItem::Shorts => 15,
            BaseItem::BaseballCap => 5,
            BaseItem::PropellerHat => 25,
            BaseItem::Sweater => 50,
            BaseItem::Hoodie => 100,
            BaseItem::Jacket => 200,
            BaseItem::Coat => 50,
            BaseItem::LatexGlove => 0,
            BaseItem::CottonGlove => 10,
            BaseItem::LeatherGlove => 20,
            BaseItem::ArmSleeve => 5,
            BaseItem::LegSleeve => 5,
            BaseItem::PaperKnife => 0,
            BaseItem::TreeStick => 0,
            BaseItem::BrassKnuckles => 100,
            BaseItem::SpikedBrassKnuckles => 300,
            BaseItem::BladedBrassKnuckles => 666,
            BaseItem::Orangeberries => 15,
            BaseItem::PenPineappleApplePen => 40,
            BaseItem::HealthPotion => 100,
            BaseItem::InstantRamen => 5,
            BaseItem::Ramen => 100,
            BaseItem::CarolinaReaperRamen => 444,
            BaseItem::Milk => 200,
            BaseItem::FriedSnow => -99999,
            BaseItem::Scarf => 15,
        }
    }

    /// The relative likelihood that the shop offers the item.
    pub fn weight(&self) -> (r: u32)
        ensures
            r as int == self.spec_weight(),
    {
        match self {
            BaseItem::TankTop => 64,
            BaseItem::Tshirt => 64,
            BaseItem::Sneaker => 16,
            BaseItem::Shorts => 16,
            BaseItem::BaseballCap => 8,
            BaseItem::PropellerHat => 2,
            BaseItem::Sweater => 16,
            BaseItem::Hoodie => 16,
            BaseItem::Jacket => 8,
            BaseItem::Coat => 8,
            BaseItem::LatexGlove => 16,
            BaseItem::CottonGlove => 8,
            BaseItem::LeatherGlove => 8,
            BaseItem::ArmSleeve => 8,
            BaseItem::LegSleeve => 8,
            BaseItem::PaperKnife => 64,
            BaseItem::TreeStick => 64,
            BaseItem::BrassKnuckles => 32,
            BaseItem::SpikedBrassKnuckles => 16,
            BaseItem::BladedBrassKnuckles => 8,
            BaseItem::Orangeberries => 64,
            BaseItem::PenPineappleApplePen => 16,
            BaseItem::HealthPotion => 32,
            BaseItem::InstantRamen => 32,
            BaseItem::Ramen => 16,
            BaseItem::CarolinaReaperRamen => 8,
            BaseItem::Milk => 64,
            BaseItem::FriedSnow => 4,
            BaseItem::Scarf => 8,
            _ => 0,
        }
    }

    /// The limbs the item covers when equipped.
    pub fn equipable_limbs(&self) -> (r: Vec<Limb>)
        ensures
            r@ == self.spec_equipable_limbs(),
    {
        let mut v: Vec<Limb> = Vec::new();
        match self {
            BaseItem::TankTop => {
                v.push(Limb::Torso);
            },
            BaseItem::Tshirt => {
                v.push(Limb::Torso);
                v.push(Limb::LeftUpperArm);
                v.push(Limb::RightUpperArm);
            },
            BaseItem::Sneaker => {
                v.push(Limb::LeftFoot);
                v.push(Limb::RightFoot);
            },
            BaseItem::Shorts => {
                v.push(Limb::LeftUpperLeg);
                v.push(Limb::RightUpperLeg);
            },
            BaseItem::BaseballCap | BaseItem::PropellerHat => {
                v.push(Limb::Head);
            },
            BaseItem::Sweater | BaseItem::Hoodie | BaseItem::Jacket | BaseItem::Coat => {
                v.push(Limb::Torso);
                v.push(Limb::LeftUpperArm);
                v.push(Limb::RightUpperArm);
                v.push(Limb::LeftLowerArm);
                v.push(Limb::RightLowerArm);
            },
            BaseItem::LatexGlove | BaseItem::CottonGlove | BaseItem::LeatherGlove => {
                v.push(Limb::LeftHand);
                v.push(Limb::RightHand);
            },
            BaseItem::ArmSleeve => {
                v.push(Limb::LeftLowerArm);
                v.push(Limb::RightLowerArm);
            },
            BaseItem::LegSleeve => {
                v.push(Limb::LeftLowerLeg);
                v.push(Limb::RightLowerLeg);
            },
            BaseItem::Scarf => {
                v.push(Limb::Neck);
            },
            _ => {},
        }
        proof {
            assert(v@ =~= self.spec_equipable_limbs());
        }
        v
    }

    /// The items that can be equipped.
    pub fn equipments() -> (r: [BaseItem; 16])
        ensures
            r@ == Self::spec_equipments(),
    {
        let r = [BaseItem::TankTop, BaseItem::Tshirt, BaseItem::Sweater, BaseItem::Hoodie, BaseItem::Jacket, BaseItem::Coat, BaseItem::Sneaker, BaseItem::Shorts, BaseItem::BaseballCap, BaseItem::PropellerHat, BaseItem::LatexGlove, BaseItem::CottonGlove, BaseItem::LeatherGlove, BaseItem::ArmSleeve, BaseItem::LegSleeve, BaseItem::Scarf];
        assert(r@ =~= Self::spec_equipments());
        r
    }

    /// Whether the item is one of the equipments.
    pub fn is_equipment(&self) -> (r: bool)
        ensures
            r == Self::spec_equipments().contains(*self),
    {
        let all = Self::equipments();
        let mut i: usize = 0;
        while i < 16
            invariant
                all@ == Self::spec_equipments(),
                i <= 16,
                forall|j: int| 0 <= j < i ==> all@[j] != *self,
            decreases 16 - i,
        {
            if all[i] == *self {
                assert(all@[i as int] == *self);
                return true;
            }
            i = i + 1;
        }
        false
    }

    /// The items that are weapons.
    pub fn weapons() -> (r: [BaseItem; 5])
        ensures
            r@ == Self::spec_weapons(),
    {
        let r = [BaseItem::PaperKnife, BaseItem::TreeStick, BaseItem::BrassKnuckles, BaseItem::SpikedBrassKnuckles, BaseItem::BladedBrassKnuckles];
        assert(r@ =~= Self::spec_weapons());
        r
    }

    /// The items that can be consumed.
    pub fn consumables() -> (r: [BaseItem; 8])
        ensures
            r@ == Self::spec_consumables(),
    {
        let r = [BaseItem::Orangeberries, BaseItem::PenPineappleApplePen, BaseItem::HealthPotion, BaseItem::InstantRamen, BaseItem::Ramen, BaseItem::CarolinaReaperRamen, BaseItem::Milk, BaseItem::FriedSnow];
        assert(r@ =~= Self::spec_consumables());
        r
    }
}

/// Each item's display name reads back as that item.
pub proof fn lemma_base_name_round_trip(b: BaseItem)
    ensures
        base_from_name(b.spec_name()) == Some(b),
{
    match b {
        BaseItem::LeafHandful => {
            reveal_strlit("Handful of Leaves");
        },
        BaseItem::LeafPile => {
            reveal_strlit("Pile of Leaves");
            reveal_strlit("Handful of Leaves");
            assert("Handful of Leaves"@.len() != "Pile of Leaves"@.len());
        },
        BaseItem::LeafBucket => {
            reveal_strlit("Bucket of Leaves");
            reveal_strlit("Handful of Leaves");
            assert("Handful of Leaves"@.len() != "Bucket of Leaves"@.len());
            reveal_strlit("Pile of Leaves");
            assert("Pile of Leaves"@.len() != "Bucket of Leaves"@.len());
        },
        BaseItem::LeafBarrel => {
            reveal_strlit("Barrel of Leaves");
            reveal_strlit("Handful of Leaves");
            assert("Handful of Leaves"@.len() != "Barrel of Leaves"@.len());
            reveal_strlit("Pile of Leaves");
            assert("Pile of Leaves"@.len() != "Barrel of Leaves"@.len());
            reveal_strlit("Bucket of Leaves");
            assert("Bucket of Leaves"@[1] != "Barrel of Leaves"@[1]);
        },
        BaseItem::LeafTruckload => {
            reveal_strlit("Truckload of Leaves");
            reveal_strlit("Handful of Leaves");
            assert("Handful of Leaves"@.len() != "Truckload of Leaves"@.len());
            reveal_strlit("Pile of Leaves");
            assert("Pile of Leaves"@.len() != "Truckload of Leaves"@.len());
            reveal_strlit("Bucket of Leaves");
            assert("Bucket of Leaves"@.len() != "Truckload of Leaves"@.len());
            reveal_strlit("Barrel of Leaves");
            assert("Barrel of Leaves"@.len() != "Truckload of Leaves"@.len());
        },
        BaseItem::TankTop => {
            reveal_strlit("Tank Top");
            reveal_strlit("Handful of Leaves");
            assert("Handful of Leaves"@.len() != "Tank Top"@.len());
            reveal_strlit("Pile of Leaves");
            assert("Pile of Leaves"@.len() != "Tank Top"@.len());
            reveal_strlit("Bucket of Leaves");
            assert("Bucket of Leaves"@.len() != "Tank Top"@.len());
            reveal_strlit("Barrel of Leaves");
            assert("Barrel of Leaves"@.len() != "Tank Top"@.len());
            reveal_strlit("Truckload of Leaves");
            assert("Truckload of Leaves"@.len() != "Tank Top"@.len());
        },
        BaseItem::Tshirt => {
            reveal_strlit("T-Shirt");
            reveal_strlit("Handful of Leaves");
            assert("Handful of Leaves"@.len() != "T-Shirt"@.len());
            reveal_strlit("Pile of Leaves");
            assert("Pile of Leaves"@.len() != "T-Shirt"@.len());
            reveal_strlit("Bucket of Leaves");
            assert("Bucket of Leaves"@.len() != "T-Shirt"@.len());
            reveal_strlit("Barrel of Leaves");
            assert("Barrel of Leaves"@.len() != "T-Shirt"@.len());
            reveal_strlit("Truckload of Leaves");
            assert("Truckload of Leaves"@.len() != "T-Shirt"@.len());
            reveal_strlit("Tank Top");
            assert("Tank Top"@.len() != "T-Shirt"@.len());
        },
        BaseItem::Sneaker => {
            reveal_strlit("Sneaker");
            reveal_strlit("Handful of Leaves");
            assert("Handful of Leaves"@.len() != "Sneaker"@.len());
            reveal_strlit("Pile of Leaves");
            assert("Pile of Leaves"@.len() != "Sneaker"@.len());
            reveal_strlit("Bucket of Leaves");
            assert("Bucket of Leaves"@.len() != "Sneaker"@.len());
            reveal_strlit("Barrel of Leaves");
            assert("Barrel of Leaves"@.len() != "Sneaker"@.len());
            reveal_strlit("Truckload of Leaves");
            assert("Truckload of Leaves"@.len() != "Sneaker"@.len());
            reveal_strlit("Tank Top");
            assert("Tank Top"@.len() != "Sneaker"@.len());
            reveal_strlit("T-Shirt");
            assert("T-Shirt"@[0] != "Sneaker"@[0]);
        },
        BaseItem::Shorts => {
            reveal_strlit("Shorts");
            reveal_strlit("Handful of Leaves");
            assert("Handful of Leaves"@.len() != "Shorts"@.len());
            reveal_strlit("Pile of Leaves");
            assert("Pile of Leaves"@.len() != "Shorts"@.len());
            reveal_strlit("Bucket of Leaves");
            assert("Bucket of Leaves"@.len() != "Shorts"@.len());
            reveal_strlit("Barrel of Leaves");
            assert("Barrel of Leaves"@.len() != "Shorts"@.len());
            reveal_strlit("Truckload of Leaves");
            assert("Truckload of Leaves"@.len() != "Shorts"@.len());
            reveal_strlit("Tank Top");
            assert("Tank Top"@.len() != "Shorts"@.len());
            reveal_strlit("T-Shirt");
            assert("T-Shirt"@.len() != "Shorts"@.len());
            reveal_strlit("Sneaker");
            assert("Sneaker"@.len() != "Shorts"@.len());
        },
        BaseItem::BaseballCap => {
            reveal_strlit("Baseball Cap");
            reveal_strlit("Handful of Leaves");
            assert("Handful of Leaves"@.len() != "Baseball Cap"@.len());
            reveal_strlit("Pile of Leaves");
            assert("Pile of Leaves"@.len() != "Baseball Cap"@.len());
            reveal_strlit("Bucket of Leaves");
            assert("Bucket of Leaves"@.len() != "Baseball Cap"@.len());
            reveal_strlit("Barrel of Leaves");
            assert("Barrel of Leaves"@.len() != "Baseball Cap"@.len());
            reveal_strlit("Truckload of Leaves");
            assert("Truckload of Leaves"@.len() != "Baseball Cap"@.len());
            reveal_strlit("Tank Top");
            assert("Tank Top"@.len() != "Baseball Cap"@.len());
            reveal_strlit("T-Shirt");
            assert("T-Shirt"@.len() != "Baseball Cap"@.len());
            reveal_strlit("Sneaker");
            assert("Sneaker"@.len() != "Baseball Cap"@.len());
            reveal_strlit("Shorts");
            assert("Shorts"@.len() != "Baseball Cap"@.len());
        },
        BaseItem::PropellerHat => {
            reveal_strlit("Propeller Hat");
            reveal_strlit("Handful of Leaves");
            assert("Handful of Leaves"@.len() != "Propeller Hat"@.len());
            reveal_strlit("Pile of Leaves");
            assert("Pile of Leaves"@.len() != "Propeller Hat"@.len());
            reveal_strlit("Bucket of Leaves");
            assert("Bucket of Leaves"@.len() != "Propeller Hat"@.len());
            reveal_strlit("Barrel of Leaves");
            assert("Barrel of Leaves"@.len() != "Propeller Hat"@.len());
            reveal_strlit("Truckload of Leaves");
            assert("Truckload of Leaves"@.len() != "Propeller Hat"@.len());
            reveal_strlit("Tank Top");
            assert("Tank Top"@.len() != "Propeller Hat"@.len());
            reveal_strlit("T-Shirt");
            assert("T-Shirt"@.len() != "Propeller Hat"@.len());
            reveal_strlit("Sneaker");
            assert("Sneaker"@.len() != "Propeller Hat"@.len());
            reveal_strlit("Shorts");
            assert("Shorts"@.len() != "Propeller Hat"@.len());
            reveal_strlit("Baseball Cap");
            assert("Baseball Cap"@.len() != "Propeller Hat"@.len());
        },
        BaseItem::Sweater => {
            reveal_strlit("Sweater");
            reveal_strlit("Handful of Leaves");
            assert("Handful of Leaves"@.len() != "Sweater"@.len());
            reveal_strlit("Pile of Leaves");
            assert("Pile of Leaves"@.len() != "Sweater"@.len());
            reveal_strlit("Bucket of Leaves");
            assert("Bucket of Leaves"@.len() != "Sweater"@.len());
            reveal_strlit("Barrel of Leaves");
            assert("Barrel of Leaves"@.len() != "Sweater"@.len());
            reveal_strlit("Truckload of Leaves");
            assert("Truckload of Leaves"@.len() != "Sweater"@.len());
            reveal_strlit("Tank Top");
            assert("Tank Top"@.len() != "Sweater"@.len());
            reveal_strlit("T-Shirt");
            assert("T-Shirt"@[0] != "Sweater"@[0]);
            reveal_strlit("Sneaker");
            assert("Sneaker"@[1] != "Sweater"@[1]);
            reveal_strlit("Shorts");
            assert("Shorts"@.len() != "Sweater"@.len());
            reveal_strlit("Baseball Cap");
            assert("Baseball Cap"@.len() != "Sweater"@.len());
            reveal_strlit("Propeller Hat");
            assert("Propeller Hat"@.len() != "Sweater"@.len());
        },
        BaseItem::Hoodie => {
            reveal_strlit("Hoodie");
            reveal_strlit("Handful of Leaves");
            assert("Handful of Leaves"@.len() != "Hoodie"@.len());
            reveal_strlit("Pile of Leaves");
            assert("Pile of Leaves"@.len() != "Hoodie"@.len());
            reveal_strlit("Bucket of Leaves");
            assert("Bucket of Leaves"@.len() != "Hoodie"@.len());
            reveal_strlit("Barrel of Leaves");
            assert("Barrel of Leaves"@.len() != "Hoodie"@.len());
            reveal_strlit("Truckload of Leaves");
            assert("Truckload of Leaves"@.len() != "Hoodie"@.len());
            reveal_strlit("Tank Top");
            assert("Tank Top"@.len() != "Hoodie"@.len());
            reveal_strlit("T-Shirt");
            assert("T-Shirt"@.len() != "Hoodie"@.len());
            reveal_strlit("Sneaker");
            assert("Sneaker"@.len() != "Hoodie"@.len());
            reveal_strlit("Shorts");
            assert("Shorts"@[0] != "Hoodie"@[0]);
            reveal_strlit("Baseball Cap");
            assert("Baseball Cap"@.len() != "Hoodie"@.len());
            reveal_strlit("Propeller Hat");
            assert("Propeller Hat"@.len() != "Hoodie"@.len());
            reveal_strlit("Sweater");
            assert("Sweater"@.len() != "Hoodie"@.len());
        },
        BaseItem::Jacket => {
            reveal_strlit("Jacket");
            reveal_strlit("Handful of Leaves");
            assert("Handful of Leaves"@.len() != "Jacket"@.len());
            reveal_strlit("Pile of Leaves");
            assert("Pile of Leaves"@.len() != "Jacket"@.len());
            reveal_strlit("Bucket of Leaves");
            assert("Bucket of Leaves"@.len() != "Jacket"@.len());
            reveal_strlit("Barrel of Leaves");
            assert("Barrel of Leaves"@.len() != "Jacket"@.len());
            reveal_strlit("Truckload of Leaves");
            assert("Truckload of Leaves"@.len() != "Jacket"@.len());
            reveal_strlit("Tank Top");
            assert("Tank Top"@.len() != "Jacket"@.len());
            reveal_strlit("T-Shirt");
            assert("T-Shirt"@.len() != "Jacket"@.len());
            reveal_strlit("Sneaker");
            assert("Sneaker"@.len() != "Jacket"@.len());
            reveal_strlit("Shorts");
            assert("Shorts"@[0] != "Jacket"@[0]);
            reveal_strlit("Baseball Cap");
            assert("Baseball Cap"@.len() != "Jacket"@.len());
            reveal_strlit("Propeller Hat");
            assert("Propeller Hat"@.len() != "Jacket"@.len());
            reveal_strlit("Sweater");
            assert("Sweater"@.len() != "Jacket"@.len());
            reveal_strlit("Hoodie");
            assert("Hoodie"@[0] != "Jacket"@[0]);
        },
        BaseItem::Coat => {
            reveal_strlit("Coat");
            reveal_strlit("Handful of Leaves");
            assert("Handful of Leaves"@.len() != "Coat"@.len());
            reveal_strlit("Pile of Leaves");
            assert("Pile of Leaves"@.len() != "Coat"@.len());
            reveal_strlit("Bucket of Leaves");
            assert("Bucket of Leaves"@.len() != "Coat"@.len());
            reveal_strlit("Barrel of Leaves");
            assert("Barrel of Leaves"@.len() != "Coat"@.len());
            reveal_strlit("Truckload of Leaves");
            assert("Truckload of Leaves"@.len() != "Coat"@.len());
            reveal_strlit("Tank Top");
            assert("Tank Top"@.len() != "Coat"@.len());
            reveal_strlit("T-Shirt");
            assert("T-Shirt"@.len() != "Coat"@.len());
            reveal_strlit("Sneaker");
            assert("Sneaker"@.len() != "Coat"@.len());
            reveal_strlit("Shorts");
            assert("Shorts"@.len() != "Coat"@.len());
            reveal_strlit("Baseball Cap");
            assert("Baseball Cap"@.len() != "Coat"@.len());
            reveal_strlit("Propeller Hat");
            assert("Propeller Hat"@.len() != "Coat"@.len());
            reveal_strlit("Sweater");
            assert("Sweater"@.len() != "Coat"@.len());
            reveal_strlit("Hoodie");
            assert("Hoodie"@.len() != "Coat"@.len());
            reveal_strlit("Jacket");
            assert("Jacket"@.len() != "Coat"@.len());
        },
        BaseItem::LatexGlove => {
            reveal_strlit("Latex Glove");
            reveal_strlit("Handful of Leaves");
            assert("Handful of Leaves"@.len() != "Latex Glove"@.len());
            reveal_strlit("Pile of Leaves");
            assert("Pile of Leaves"@.len() != "Latex Glove"@.len());
            reveal_strlit("Bucket of Leaves");
            assert("Bucket of Leaves"@.len() != "Latex Glove"@.len());
            reveal_strlit("Barrel of Leaves");
            assert("Barrel of Leaves"@.len() != "Latex Glove"@.len());
            reveal_strlit("Truckload of Leaves");
            assert("Truckload of Leaves"@.len() != "Latex Glove"@.len());
            reveal_strlit("Tank Top");
            assert("Tank Top"@.len() != "Latex Glove"@.len());
            reveal_strlit("T-Shirt");
            assert("T-Shirt"@.len() != "Latex Glove"@.len());
            reveal_strlit("Sneaker");
            assert("Sneaker"@.len() != "Latex Glove"@.len());
            reveal_strlit("Shorts");
            assert("Shorts"@.len() != "Latex Glove"@.len());
            reveal_strlit("Baseball Cap");
            assert("Baseball Cap"@.len() != "Latex Glove"@.len());
            reveal_strlit("Propeller Hat");
            assert("Propeller Hat"@.len() != "Latex Glove"@.len());
            reveal_strlit("Sweater");
            assert("Sweater"@.len() != "Latex Glove"@.len());
            reveal_strlit("Hoodie");
            assert("Hoodie"@.len() != "Latex Glove"@.len());
            reveal_strlit("Jacket");
            assert("Jacket"@.len() != "Latex Glove"@.len());
            reveal_strlit("Coat");
            assert("Coat"@.len() != "Latex Glove"@.len());
        },
        BaseItem::CottonGlove => {
            reveal_strlit("Cotton Glove");
            reveal_strlit("Handful of Leaves");
            assert("Handful of Leaves"@.len() != "Cotton Glove"@.len());
            reveal_strlit("Pile of Leaves");
            assert("Pile of Leaves"@.len() != "Cotton Glove"@.len());
            reveal_strlit("Bucket of Leaves");
            assert("Bucket of Leaves"@.len() != "Cotton Glove"@.len());
            reveal_strlit("Barrel of Leaves");
            assert("Barrel of Leaves"@.len() != "Cotton Glove"@.len());
            reveal_strlit("Truckload of Leaves");
            assert("Truckload of Leaves"@.len() != "Cotton Glove"@.len());
            reveal_strlit("Tank Top");
            assert("Tank Top"@.len() != "Cotton Glove"@.len());
            reveal_strlit("T-Shirt");
            assert("T-Shirt"@.len() != "Cotton Glove"@.len());
            reveal_strlit("Sneaker");
            assert("Sneaker"@.len() != "Cotton Glove"@.len());
            reveal_strlit("Shorts");
            assert("Shorts"@.len() != "Cotton Glove"@.len());
            reveal_strlit("Baseball Cap");
            assert("Baseball Cap"@[0] != "Cotton Glove"@[0]);
            reveal_strlit("Propeller Hat");
            assert("Propeller Hat"@.len() != "Cotton Glove"@.len());
            reveal_strlit("Sweater");
            assert("Sweater"@.len() != "Cotton Glove"@.len());
            reveal_strlit("Hoodie");
            assert("Hoodie"@.len() != "Cotton Glove"@.len());
            reveal_strlit("Jacket");
            assert("Jacket"@.len() != "Cotton Glove"@.len());
            reveal_strlit("Coat");
            assert("Coat"@.len() != "Cotton Glove"@.len());
            reveal_strlit("Latex Glove");
            assert("Latex Glove"@.len() != "Cotton Glove"@.len());
        },
        BaseItem::LeatherGlove => {
            reveal_strlit("Leather Glove");
            reveal_strlit("Handful of Leaves");
            assert("Handful of Leaves"@.len() != "Leather Glove"@.len());
            reveal_strlit("Pile of Leaves");
            assert("Pile of Leaves"@.len() != "Leather Glove"@.len());
            reveal_strlit("Bucket of Leaves");
            assert("Bucket of Leaves"@.len() != "Leather Glove"@.len());
            reveal_strlit("Barrel of Leaves");
            assert("Barrel of Leaves"@.len() != "Leather Glove"@.len());
            reveal_strlit("Truckload of Leaves");
            assert("Truckload of Leaves"@.len() != "Leather Glove"@.len());
            reveal_strlit("Tank Top");
            assert("Tank Top"@.len() != "Leather Glove"@.len());
            reveal_strlit("T-Shirt");
            assert("T-Shirt"@.len() != "Leather Glove"@.len());
            reveal_strlit("Sneaker");
            assert("Sneaker"@.len() != "Leather Glove"@.len());
            reveal_strlit("Shorts");
            assert("Shorts"@.len() != "Leather Glove"@.len());
            reveal_strlit("Baseball Cap");
            assert("Baseball Cap"@.len() != "Leather Glove"@.len());
            reveal_strlit("Propeller Hat");
            assert("Propeller Hat"@[0] != "Leather Glove"@[0]);
            reveal_strlit("Sweater");
            assert("Sweater"@.len() != "Leather Glove"@.len());
            reveal_strlit("Hoodie");
            assert("Hoodie"@.len() != "Leather Glove"@.len());
            reveal_strlit("Jacket");
            assert("Jacket"@.len() != "Leather Glove"@.len());
            reveal_strlit("Coat");
            assert("Coat"@.len() != "Leather Glove"@.len());
            reveal_strlit("Latex Glove");
            assert("Latex Glove"@.len() != "Leather Glove"@.len());
            reveal_strlit("Cotton Glove");
            assert("Cotton Glove"@.len() != "Leather Glove"@.len());
        },
        BaseItem::ArmSleeve => {
            reveal_strlit("Arm Sleeve");
            reveal_strlit("Handful of Leaves");
            assert("Handful of Leaves"@.len() != "Arm Sleeve"@.len());
            reveal_strlit("Pile of Leaves");
            assert("Pile of Leaves"@.len() != "Arm Sleeve"@.len());
            reveal_strlit("Bucket of Leaves");
            assert("Bucket of Leaves"@.len() != "Arm Sleeve"@.len());
            reveal_strlit("Barrel of Leaves");
            assert("Barrel of Leaves"@.len() != "Arm Sleeve"@.len());
            reveal_strlit("Truckload of Leaves");
            assert("Truckload of Leaves"@.len() != "Arm Sleeve"@.len());
            reveal_strlit("Tank Top");
            assert("Tank Top"@.len() != "Arm Sleeve"@.len());
            reveal_strlit("T-Shirt");
            assert("T-Shirt"@.len() != "Arm Sleeve"@.len());
            reveal_strlit("Sneaker");
            assert("Sneaker"@.len() != "Arm Sleeve"@.len());
            reveal_strlit("Shorts");
            assert("Shorts"@.len() != "Arm Sleeve"@.len());
            reveal_strlit("Baseball Cap");
            assert("Baseball Cap"@.len() != "Arm Sleeve"@.len());
            reveal_strlit("Propeller Hat");
            assert("Propeller Hat"@.len() != "Arm Sleeve"@.len());
            reveal_strlit("Sweater");
            assert("Sweater"@.len() != "Arm Sleeve"@.len());
            reveal_strlit("Hoodie");
            assert("Hoodie"@.len() != "Arm Sleeve"@.len());
            reveal_strlit("Jacket");
            assert("Jacket"@.len() != "Arm Sleeve"@.len());
            reveal_strlit("Coat");
            assert("Coat"@.len() != "Arm Sleeve"@.len());
            reveal_strlit("Latex Glove");
            assert("Latex Glove"@.len() != "Arm Sleeve"@.len());
            reveal_strlit("Cotton Glove");
            assert("Cotton Glove"@.len() != "Arm Sleeve"@.len());
            reveal_strlit("Leather Glove");
            assert("Leather Glove"@.len() != "Arm Sleeve"@.len());
        },
        BaseItem::LegSleeve => {
            reveal_strlit("Leg Sleeve");
            reveal_strlit("Handful of Leaves");
            assert("Handful of Leaves"@.len() != "Leg Sleeve"@.len());
            reveal_strlit("Pile of Leaves");
            assert("Pile of Leaves"@.len() != "Leg Sleeve"@.len());
            reveal_strlit("Bucket of Leaves");
            assert("Bucket of Leaves"@.len() != "Leg Sleeve"@.len());
            reveal_strlit("Barrel of Leaves");
            assert("Barrel of Leaves"@.len() != "Leg Sleeve"@.len());
            reveal_strlit("Truckload of Leaves");
            assert("Truckload of Leaves"@.len() != "Leg Sleeve"@.len());
            reveal_strlit("Tank Top");
            assert("Tank Top"@.len() != "Leg Sleeve"@.len());
            reveal_strlit("T-Shirt");
            assert("T-Shirt"@.len() != "Leg Sleeve"@.len());
            reveal_strlit("Sneaker");
            assert("Sneaker"@.len() != "Leg Sleeve"@.len());
            reveal_strlit("Shorts");
            assert("Shorts"@.len() != "Leg Sleeve"@.len());
            reveal_strlit("Baseball Cap");
            assert("Baseball Cap"@.len() != "Leg Sleeve"@.len());
            reveal_strlit("Propeller Hat");
            assert("Propeller Hat"@.len() != "Leg Sleeve"@.len());
            reveal_strlit("Sweater");
            assert("Sweater"@.len() != "Leg Sleeve"@.len());
            reveal_strlit("Hoodie");
            assert("Hoodie"@.len() != "Leg Sleeve"@.len());
            reveal_strlit("Jacket");
            assert("Jacket"@.len() != "Leg Sleeve"@.len());
            reveal_strlit("Coat");
            assert("Coat"@.len() != "Leg Sleeve"@.len());
            reveal_strlit("Latex Glove");
            assert("Latex Glove"@.len() != "Leg Sleeve"@.len());
            reveal_strlit("Cotton Glove");
            assert("Cotton Glove"@.len() != "Leg Sleeve"@.len());
            reveal_strlit("Leather Glove");
            assert("Leather Glove"@.len() != "Leg Sleeve"@.len());
            reveal_strlit("Arm Sleeve");
            assert("Arm Sleeve"@[0] != "Leg Sleeve"@[0]);
        },
        BaseItem::PaperKnife => {
            reveal_strlit("Paper Knife");
            reveal_strlit("Handful of Leaves");
            assert("Handful of Leaves"@.len() != "Paper Knife"@.len());
            reveal_strlit("Pile of Leaves");
            assert("Pile of Leaves"@.len() != "Paper Knife"@.len());
            reveal_strlit("Bucket of Leaves");
            assert("Bucket of Leaves"@.len() != "Paper Knife"@.len());
            reveal_strlit("Barrel of Leaves");
            assert("Barrel of Leaves"@.len() != "Paper Knife"@.len());
            reveal_strlit("Truckload of Leaves");
            assert("Truckload of Leaves"@.len() != "Paper Knife"@.len());
            reveal_strlit("Tank Top");
            assert("Tank Top"@.len() != "Paper Knife"@.len());
            reveal_strlit("T-Shirt");
            assert("T-Shirt"@.len() != "Paper Knife"@.len());
            reveal_strlit("Sneaker");
            assert("Sneaker"@.len() != "Paper Knife"@.len());
            reveal_strlit("Shorts");
            assert("Shorts"@.len() != "Paper Knife"@.len());
            reveal_strlit("Baseball Cap");
            assert("Baseball Cap"@.len() != "Paper Knife"@.len());
            reveal_strlit("Propeller Hat");
            assert("Propeller Hat"@.len() != "Paper Knife"@.len());
            reveal_strlit("Sweater");
            assert("Sweater"@.len() != "Paper Knife"@.len());
            reveal_strlit("Hoodie");
            assert("Hoodie"@.len() != "Paper Knife"@.len());
            reveal_strlit("Jacket");
            assert("Jacket"@.len() != "Paper Knife"@.len());
            reveal_strlit("Coat");
            assert("Coat"@.len() != "Paper Knife"@.len());
            reveal_strlit("Latex Glove");
            assert("Latex Glove"@[0] != "Paper Knife"@[0]);
            reveal_strlit("Cotton Glove");
            assert("Cotton Glove"@.len() != "Paper Knife"@.len());
            reveal_strlit("Leather Glove");
            assert("Leather Glove"@.len() != "Paper Knife"@.len());
            reveal_strlit("Arm Sleeve");
            assert("Arm Sleeve"@.len() != "Paper Knife"@.len());
            reveal_strlit("Leg Sleeve");
            assert("Leg Sleeve"@.len() != "Paper Knife"@.len());
        },
        BaseItem::TreeStick => {
            reveal_strlit("Tree Stick");
            reveal_strlit("Handful of Leaves");
            assert("Handful of Leaves"@.len() != "Tree Stick"@.len());
            reveal_strlit("Pile of Leaves");
            assert("Pile of Leaves"@.len() != "Tree Stick"@.len());
            reveal_strlit("Bucket of Leaves");
            assert("Bucket of Leaves"@.len() != "Tree Stick"@.len());
            reveal_strlit("Barrel of Leaves");
            assert("Barrel of Leaves"@.len() != "Tree Stick"@.len());
            reveal_strlit("Truckload of Leaves");
            assert("Truckload of Leaves"@.len() != "Tree Stick"@.len());
            reveal_strlit("Tank Top");
            assert("Tank Top"@.len() != "Tree Stick"@.len());
            reveal_strlit("T-Shirt");
            assert("T-Shirt"@.len() != "Tree Stick"@.len());
            reveal_strlit("Sneaker");
            assert("Sneaker"@.len() != "Tree Stick"@.len());
            reveal_strlit("Shorts");
            assert("Shorts"@.len() != "Tree Stick"@.len());
            reveal_strlit("Baseball Cap");
            assert("Baseball Cap"@.len() != "Tree Stick"@.len());
            reveal_strlit("Propeller Hat");
            assert("Propeller Hat"@.len() != "Tree Stick"@.len());
            reveal_strlit("Sweater");
            assert("Sweater"@.len() != "Tree Stick"@.len());
            reveal_strlit("Hoodie");
            assert("Hoodie"@.len() != "Tree Stick"@.len());
            reveal_strlit("Jacket");
            assert("Jacket"@.len() != "Tree Stick"@.len());
            reveal_strlit("Coat");
            assert("Coat"@.len() != "Tree Stick"@.len());
            reveal_strlit("Latex Glove");
            assert("Latex Glove"@.len() != "Tree Stick"@.len());
            reveal_strlit("Cotton Glove");
            assert("Cotton Glove"@.len() != "Tree Stick"@.len());
            reveal_strlit("Leather Glove");
            assert("Leather Glove"@.len() != "Tree Stick"@.len());
            reveal_strlit("Arm Sleeve");
            assert("Arm Sleeve"@[0] != "Tree Stick"@[0]);
            reveal_strlit("Leg Sleeve");
            assert("Leg Sleeve"@[0] != "Tree Stick"@[0]);
            reveal_strlit("Paper Knife");
            assert("Paper Knife"@.len() != "Tree Stick"@.len());
        },
        BaseItem::BrassKnuckles => {
            reveal_strlit("Brass Knuckles");
            reveal_strlit("Handful of Leaves");
            assert("Handful of Leaves"@.len() != "Brass Knuckles"@.len());
            reveal_strlit("Pile of Leaves");
            assert("Pile of Leaves"@[0] != "Brass Knuckles"@[0]);
            reveal_strlit("Bucket of Leaves");
            assert("Bucket of Leaves"@.len() != "Brass Knuckles"@.len());
            reveal_strlit("Barrel of Leaves");
            assert("Barrel of Leaves"@.len() != "Brass Knuckles"@.len());
            reveal_strlit("Truckload of Leaves");
            assert("Truckload of Leaves"@.len() != "Brass Knuckles"@.len());
            reveal_strlit("Tank Top");
            assert("Tank Top"@.len() != "Brass Knuckles"@.len());
            reveal_strlit("T-Shirt");
            assert("T-Shirt"@.len() != "Brass Knuckles"@.len());
            reveal_strlit("Sneaker");
            assert("Sneaker"@.len() != "Brass Knuckles"@.len());
            reveal_strlit("Shorts");
            assert("Shorts"@.len() != "Brass Knuckles"@.len());
            reveal_strlit("Baseball Cap");
            assert("Baseball Cap"@.len() != "Brass Knuckles"@.len());
            reveal_strlit("Propeller Hat");
            assert("Propeller Hat"@.len() != "Brass Knuckles"@.len());
            reveal_strlit("Sweater");
            assert("Sweater"@.len() != "Brass Knuckles"@.len());
            reveal_strlit("Hoodie");
            assert("Hoodie"@.len() != "Brass Knuckles"@.len());
            reveal_strlit("Jacket");
            assert("Jacket"@.len() != "Brass Knuckles"@.len());
            reveal_strlit("Coat");
            assert("Coat"@.len() != "Brass Knuckles"@.len());
            reveal_strlit("Latex Glove");
            assert("Latex Glove"@.len() != "Brass Knuckles"@.len());
            reveal_strlit("Cotton Glove");
            assert("Cotton Glove"@.len() != "Brass Knuckles"@.len());
            reveal_strlit("Leather Glove");
            assert("Leather Glove"@.len() != "Brass Knuckles"@.len());
            reveal_strlit("Arm Sleeve");
            assert("Arm Sleeve"@.len() != "Brass Knuckles"@.len());
            reveal_strlit("Leg Sleeve");
            assert("Leg Sleeve"@.len() != "Brass Knuckles"@.len());
            reveal_strlit("Paper Knife");
            assert("Paper Knife"@.len() != "Brass Knuckles"@.len());
            reveal_strlit("Tree Stick");
            assert("Tree Stick"@.len() != "Brass Knuckles"@.len());
        },
        BaseItem::SpikedBrassKnuckles => {
            reveal_strlit("Spiked Brass Knuckles");
            reveal_strlit("Handful of Leaves");
            assert("Handful of Leaves"@.len() != "Spiked Brass Knuckles"@.len());
            reveal_strlit("Pile of Leaves");
            assert("Pile of Leaves"@.len() != "Spiked Brass Knuckles"@.len());
            reveal_strlit("Bucket of Leaves");
            assert("Bucket of Leaves"@.len() != "Spiked Brass Knuckles"@.len());
            reveal_strlit("Barrel of Leaves");
            assert("Barrel of Leaves"@.len() != "Spiked Brass Knuckles"@.len());
            reveal_strlit("Truckload of Leaves");
            assert("Truckload of Leaves"@.len() != "Spiked Brass Knuckles"@.len());
            reveal_strlit("Tank Top");
            assert("Tank Top"@.len() != "Spiked Brass Knuckles"@.len());
            reveal_strlit("T-Shirt");
            assert("T-Shirt"@.len() != "Spiked Brass Knuckles"@.len());
            reveal_strlit("Sneaker");
            assert("Sneaker"@.len() != "Spiked Brass Knuckles"@.len());
            reveal_strlit("Shorts");
            assert("Shorts"@.len() != "Spiked Brass Knuckles"@.len());
            reveal_strlit("Baseball Cap");
            assert("Baseball Cap"@.len() != "Spiked Brass Knuckles"@.len());
            reveal_strlit("Propeller Hat");
            assert("Propeller Hat"@.len() != "Spiked Brass Knuckles"@.len());
            reveal_strlit("Sweater");
            assert("Sweater"@.len() != "Spiked Brass Knuckles"@.len());
            reveal_strlit("Hoodie");
            assert("Hoodie"@.len() != "Spiked Brass Knuckles"@.len());
            reveal_strlit("Jacket");
            assert("Jacket"@.len() != "Spiked Brass Knuckles"@.len());
            reveal_strlit("Coat");
            assert("Coat"@.len() != "Spiked Brass Knuckles"@.len());
            reveal_strlit("Latex Glove");
            assert("Latex Glove"@.len() != "Spiked Brass Knuckles"@.len());
            reveal_strlit("Cotton Glove");
            assert("Cotton Glove"@.len() != "Spiked Brass Knuckles"@.len());
            reveal_strlit("Leather Glove");
            assert("Leather Glove"@.len() != "Spiked Brass Knuckles"@.len());
            reveal_strlit("Arm Sleeve");
            assert("Arm Sleeve"@.len() != "Spiked Brass Knuckles"@.len());
            reveal_strlit("Leg Sleeve");
            assert("Leg Sleeve"@.len() != "Spiked Brass Knuckles"@.len());
            reveal_strlit("Paper Knife");
            assert("Paper Knife"@.len() != "Spiked Brass Knuckles"@.len());
            reveal_strlit("Tree Stick");
            assert("Tree Stick"@.len() != "Spiked Brass Knuckles"@.len());
            reveal_strlit("Brass Knuckles");
            assert("Brass Knuckles"@.len() != "Spiked Brass Knuckles"@.len());
        },
        BaseItem::BladedBrassKnuckles => {
            reveal_strlit("Bladed Brass Knuckles");
            reveal_strlit("Handful of Leaves");
            assert("Handful of Leaves"@.len() != "Bladed Brass Knuckles"@.len());
            reveal_strlit("Pile of Leaves");
            assert("Pile of Leaves"@.len() != "Bladed Brass Knuckles"@.len());
            reveal_strlit("Bucket of Leaves");
            assert("Bucket of Leaves"@.len() != "Bladed Brass Knuckles"@.len());
            reveal_strlit("Barrel of Leaves");
            assert("Barrel of Leaves"@.len() != "Bladed Brass Knuckles"@.len());
            reveal_strlit("Truckload of Leaves");
            assert("Truckload of Leaves"@.len() != "Bladed Brass Knuckles"@.len());
            reveal_strlit("Tank Top");
            assert("Tank Top"@.len() != "Bladed Brass Knuckles"@.len());
            reveal_strlit("T-Shirt");
            assert("T-Shirt"@.len() != "Bladed Brass Knuckles"@.len());
            reveal_strlit("Sneaker");
            assert("Sneaker"@.len() != "Bladed Brass Knuckles"@.len());
            reveal_strlit("Shorts");
            assert("Shorts"@.len() != "Bladed Brass Knuckles"@.len());
            reveal_strlit("Baseball Cap");
            assert("Baseball Cap"@.len() != "Bladed Brass Knuckles"@.len());
            reveal_strlit("Propeller Hat");
            assert("Propeller Hat"@.len() != "Bladed Brass Knuckles"@.len());
            reveal_strlit("Sweater");
            assert("Sweater"@.len() != "Bladed Brass Knuckles"@.len());
            reveal_strlit("Hoodie");
            assert("Hoodie"@.len() != "Bladed Brass Knuckles"@.len());
            reveal_strlit("Jacket");
            assert("Jacket"@.len() != "Bladed Brass Knuckles"@.len());
            reveal_strlit("Coat");
            assert("Coat"@.len() != "Bladed Brass Knuckles"@.len());
            reveal_strlit("Latex Glove");
            assert("Latex Glove"@.len() != "Bladed Brass Knuckles"@.len());
            reveal_strlit("Cotton Glove");
            assert("Cotton Glove"@.len() != "Bladed Brass Knuckles"@.len());
            reveal_strlit("Leather Glove");
            assert("Leather Glove"@.len() != "Bladed Brass Knuckles"@.len());
            reveal_strlit("Arm Sleeve");
            assert("Arm Sleeve"@.len() != "Bladed Brass Knuckles"@.len());
            reveal_strlit("Leg Sleeve");
            assert("Leg Sleeve"@.len() != "Bladed Brass Knuckles"@.len());
            reveal_strlit("Paper Knife");
            assert("Paper Knife"@.len() != "Bladed Brass Knuckles"@.len());
            reveal_strlit("Tree Stick");
            assert("Tree Stick"@.len() != "Bladed Brass Knuckles"@.len());
            reveal_strlit("Brass Knuckles");
            assert("Brass Knuckles"@.len() != "Bladed Brass Knuckles"@.len());
            reveal_strlit("Spiked Brass Knuckles");
            assert("Spiked Brass Knuckles"@[0] != "Bladed Brass Knuckles"@[0]);
        },
        BaseItem::Orangeberries => {
            reveal_strlit("Orangeberries");
            reveal_strlit("Handful of Leaves");
            assert("Handful of Leaves"@.len() != "Orangeberries"@.len());
            reveal_strlit("Pile of Leaves");
            assert("Pile of Leaves"@.len() != "Orangeberries"@.len());
            reveal_strlit("Bucket of Leaves");
            assert("Bucket of Leaves"@.len() != "Orangeberries"@.len());
            reveal_strlit("Barrel of Leaves");
            assert("Barrel of Leaves"@.len() != "Orangeberries"@.len());
            reveal_strlit("Truckload of Leaves");
            assert("Truckload of Leaves"@.len() != "Orangeberries"@.len());
            reveal_strlit("Tank Top");
            assert("Tank Top"@.len() != "Orangeberries"@.len());
            reveal_strlit("T-Shirt");
            assert("T-Shirt"@.len() != "Orangeberries"@.len());
            reveal_strlit("Sneaker");
            assert("Sneaker"@.len() != "Orangeberries"@.len());
            reveal_strlit("Shorts");
            assert("Shorts"@.len() != "Orangeberries"@.len());
            reveal_strlit("Baseball Cap");
            assert("Baseball Cap"@.len() != "Orangeberries"@.len());
            reveal_strlit("Propeller Hat");
            assert("Propeller Hat"@[0] != "Orangeberries"@[0]);
            reveal_strlit("Sweater");
            assert("Sweater"@.len() != "Orangeberries"@.len());
            reveal_strlit("Hoodie");
            assert("Hoodie"@.len() != "Orangeberries"@.len());
            reveal_strlit("Jacket");
            assert("Jacket"@.len() != "Orangeberries"@.len());
            reveal_strlit("Coat");
            assert("Coat"@.len() != "Orangeberries"@.len());
            reveal_strlit("Latex Glove");
            assert("Latex Glove"@.len() != "Orangeberries"@.len());
            reveal_strlit("Cotton Glove");
            assert("Cotton Glove"@.len() != "Orangeberries"@.len());
            reveal_strlit("Leather Glove");
            assert("Leather Glove"@[0] != "Orangeberries"@[0]);
            reveal_strlit("Arm Sleeve");
            assert("Arm Sleeve"@.len() != "Orangeberries"@.len());
            reveal_strlit("Leg Sleeve");
            assert("Leg Sleeve"@.len() != "Orangeberries"@.len());
            reveal_strlit("Paper Knife");
            assert("Paper Knife"@.len() != "Orangeberries"@.len());
            reveal_strlit("Tree Stick");
            assert("Tree Stick"@.len() != "Orangeberries"@.len());
            reveal_strlit("Brass Knuckles");
            assert("Brass Knuckles"@.len() != "Orangeberries"@.len());
            reveal_strlit("Spiked Brass Knuckles");
            assert("Spiked Brass Knuckles"@.len() != "Orangeberries"@.len());
            reveal_strlit("Bladed Brass Knuckles");
            assert("Bladed Brass Knuckles"@.len() != "Orangeberries"@.len());
        },
        BaseItem::PenPineappleApplePen => {
            reveal_strlit("Pen Pineapple Apple Pen");
            reveal_strlit("Handful of Leaves");
            assert("Handful of Leaves"@.len() != "Pen Pineapple Apple Pen"@.len());
            reveal_strlit("Pile of Leaves");
            assert("Pile of Leaves"@.len() != "Pen Pineapple Apple Pen"@.len());
            reveal_strlit("Bucket of Leaves");
            assert("Bucket of Leaves"@.len() != "Pen Pineapple Apple Pen"@.len());
            reveal_strlit("Barrel of Leaves");
            assert("Barrel of Leaves"@.len() != "Pen Pineapple Apple Pen"@.len());
            reveal_strlit("Truckload of Leaves");
            assert("Truckload of Leaves"@.len() != "Pen Pineapple Apple Pen"@.len());
            reveal_strlit("Tank Top");
            assert("Tank Top"@.len() != "Pen Pineapple Apple Pen"@.len());
            reveal_strlit("T-Shirt");
            assert("T-Shirt"@.len() != "Pen Pineapple Apple Pen"@.len());
            reveal_strlit("Sneaker");
            assert("Sneaker"@.len() != "Pen Pineapple Apple Pen"@.len());
            reveal_strlit("Shorts");
            assert("Shorts"@.len() != "Pen Pineapple Apple Pen"@.len());
            reveal_strlit("Baseball Cap");
            assert("Baseball Cap"@.len() != "Pen Pineapple Apple Pen"@.len());
            reveal_strlit("Propeller Hat");
            assert("Propeller Hat"@.len() != "Pen Pineapple Apple Pen"@.len());
            reveal_strlit("Sweater");
            assert("Sweater"@.len() != "Pen Pineapple Apple Pen"@.len());
            reveal_strlit("Hoodie");
            assert("Hoodie"@.len() != "Pen Pineapple Apple Pen"@.len());
            reveal_strlit("Jacket");
            assert("Jacket"@.len() != "Pen Pineapple Apple Pen"@.len());
            reveal_strlit("Coat");
            assert("Coat"@.len() != "Pen Pineapple Apple Pen"@.len());
            reveal_strlit("Latex Glove");
            assert("Latex Glove"@.len() != "Pen Pineapple Apple Pen"@.len());
            reveal_strlit("Cotton Glove");
            assert("Cotton Glove"@.len() != "Pen Pineapple Apple Pen"@.len());
            reveal_strlit("Leather Glove");
            assert("Leather Glove"@.len() != "Pen Pineapple Apple Pen"@.len());
            reveal_strlit("Arm Sleeve");
            assert("Arm Sleeve"@.len() != "Pen Pineapple Apple Pen"@.len());
            reveal_strlit("Leg Sleeve");
            assert("Leg Sleeve"@.len() != "Pen Pineapple Apple Pen"@.len());
            reveal_strlit("Paper Knife");
            assert("Paper Knife"@.len() != "Pen Pineapple Apple Pen"@.len());
            reveal_strlit("Tree Stick");
            assert("Tree Stick"@.len() != "Pen Pineapple Apple Pen"@.len());
            reveal_strlit("Brass Knuckles");
            assert("Brass Knuckles"@.len() != "Pen Pineapple Apple Pen"@.len());
            reveal_strlit("Spiked Brass Knuckles");
            assert("Spiked Brass Knuckles"@.len() != "Pen Pineapple Apple Pen"@.len());
            reveal_strlit("Bladed Brass Knuckles");
            assert("Bladed Brass Knuckles"@.len() != "Pen Pineapple Apple Pen"@.len());
            reveal_strlit("Orangeberries");
            assert("Orangeberries"@.len() != "Pen Pineapple Apple Pen"@.len());
        },
        BaseItem::HealthPotion => {
            reveal_strlit("Health Potion");
            reveal_strlit("Handful of Leaves");
            assert("Handful of Leaves"@.len() != "Health Potion"@.len());
            reveal_strlit("Pile of Leaves");
            assert("Pile of Leaves"@.len() != "Health Potion"@.len());
            reveal_strlit("Bucket of Leaves");
            assert("Bucket of Leaves"@.len() != "Health Potion"@.len());
            reveal_strlit("Barrel of Leaves");
            assert("Barrel of Leaves"@.len() != "Health Potion"@.len());
            reveal_strlit("Truckload of Leaves");
            assert("Truckload of Leaves"@.len() != "Health Potion"@.len());
            reveal_strlit("Tank Top");
            assert("Tank Top"@.len() != "Health Potion"@.len());
            reveal_strlit("T-Shirt");
            assert("T-Shirt"@.len() != "Health Potion"@.len());
            reveal_strlit("Sneaker");
            assert("Sneaker"@.len() != "Health Potion"@.len());
            reveal_strlit("Shorts");
            assert("Shorts"@.len() != "Health Potion"@.len());
            reveal_strlit("Baseball Cap");
            assert("Baseball Cap"@.len() != "Health Potion"@.len());
            reveal_strlit("Propeller Hat");
            assert("Propeller Hat"@[0] != "Health Potion"@[0]);
            reveal_strlit("Sweater");
            assert("Sweater"@.len() != "Health Potion"@.len());
            reveal_strlit("Hoodie");
            assert("Hoodie"@.len() != "Health Potion"@.len());
            reveal_strlit("Jacket");
            assert("Jacket"@.len() != "Health Potion"@.len());
            reveal_strlit("Coat");
            assert("Coat"@.len() != "Health Potion"@.len());
            reveal_strlit("Latex Glove");
            assert("Latex Glove"@.len() != "Health Potion"@.len());
            reveal_strlit("Cotton Glove");
            assert("Cotton Glove"@.len() != "Health Potion"@.len());
            reveal_strlit("Leather Glove");
            assert("Leather Glove"@[0] != "Health Potion"@[0]);
            reveal_strlit("Arm Sleeve");
            assert("Arm Sleeve"@.len() != "Health Potion"@.len());
            reveal_strlit("Leg Sleeve");
            assert("Leg Sleeve"@.len() != "Health Potion"@.len());
            reveal_strlit("Paper Knife");
            assert("Paper Knife"@.len() != "Health Potion"@.len());
            reveal_strlit("Tree Stick");
            assert("Tree Stick"@.len() != "Health Potion"@.len());
            reveal_strlit("Brass Knuckles");
            assert("Brass Knuckles"@.len() != "Health Potion"@.len());
            reveal_strlit("Spiked Brass Knuckles");
            assert("Spiked Brass Knuckles"@.len() != "Health Potion"@.len());
            reveal_strlit("Bladed Brass Knuckles");
            assert("Bladed Brass Knuckles"@.len() != "Health Potion"@.len());
            reveal_strlit("Orangeberries");
            assert("Orangeberries"@[0] != "Health Potion"@[0]);
            reveal_strlit("Pen Pineapple Apple Pen");
            assert("Pen Pineapple Apple Pen"@.len() != "Health Potion"@.len());
        },
        BaseItem::InstantRamen => {
            reveal_strlit("Instant Ramen");
            reveal_strlit("Handful of Leaves");
            assert("Handful of Leaves"@.len() != "Instant Ramen"@.len());
            reveal_strlit("Pile of Leaves");
            assert("Pile of Leaves"@.len() != "Instant Ramen"@.len());
            reveal_strlit("Bucket of Leaves");
            assert("Bucket of Leaves"@.len() != "Instant Ramen"@.len());
            reveal_strlit("Barrel of Leaves");
            assert("Barrel of Leaves"@.len() != "Instant Ramen"@.len());
            reveal_strlit("Truckload of Leaves");
            assert("Truckload of Leaves"@.len() != "Instant Ramen"@.len());
            reveal_strlit("Tank Top");
            assert("Tank Top"@.len() != "Instant Ramen"@.len());
            reveal_strlit("T-Shirt");
            assert("T-Shirt"@.len() != "Instant Ramen"@.len());
            reveal_strlit("Sneaker");
            assert("Sneaker"@.len() != "Instant Ramen"@.len());
            reveal_strlit("Shorts");
            assert("Shorts"@.len() != "Instant Ramen"@.len());
            reveal_strlit("Baseball Cap");
            assert("Baseball Cap"@.len() != "Instant Ramen"@.len());
            reveal_strlit("Propeller Hat");
            assert("Propeller Hat"@[0] != "Instant Ramen"@[0]);
            reveal_strlit("Sweater");
            assert("Sweater"@.len() != "Instant Ramen"@.len());
            reveal_strlit("Hoodie");
            assert("Hoodie"@.len() != "Instant Ramen"@.len());
            reveal_strlit("Jacket");
            assert("Jacket"@.len() != "Instant Ramen"@.len());
            reveal_strlit("Coat");
            assert("Coat"@.len() != "Instant Ramen"@.len());
            reveal_strlit("Latex Glove");
            assert("Latex Glove"@.len() != "Instant Ramen"@.len());
            reveal_strlit("Cotton Glove");
            assert("Cotton Glove"@.len() != "Instant Ramen"@.len());
            reveal_strlit("Leather Glove");
            assert("Leather Glove"@[0] != "Instant Ramen"@[0]);
            reveal_strlit("Arm Sleeve");
            assert("Arm Sleeve"@.len() != "Instant Ramen"@.len());
            reveal_strlit("Leg Sleeve");
            assert("Leg Sleeve"@.len() != "Instant Ramen"@.len());
            reveal_strlit("Paper Knife");
            assert("Paper Knife"@.len() != "Instant Ramen"@.len());
            reveal_strlit("Tree Stick");
            assert("Tree Stick"@.len() != "Instant Ramen"@.len());
            reveal_strlit("Brass Knuckles");
            assert("Brass Knuckles"@.len() != "Instant Ramen"@.len());
            reveal_strlit("Spiked Brass Knuckles");
            assert("Spiked Brass Knuckles"@.len() != "Instant Ramen"@.len());
            reveal_strlit("Bladed Brass Knuckles");
            assert("Bladed Brass Knuckles"@.len() != "Instant Ramen"@.len());
            reveal_strlit("Orangeberries");
            assert("Orangeberries"@[0] != "Instant Ramen"@[0]);
            reveal_strlit("Pen Pineapple Apple Pen");
            assert("Pen Pineapple Apple Pen"@.len() != "Instant Ramen"@.len());
            reveal_strlit("Health Potion");
            assert("Health Potion"@[0] != "Instant Ramen"@[0]);
        },
        BaseItem::Ramen => {
            reveal_strlit("Ramen");
            reveal_strlit("Handful of Leaves");
            assert("Handful of Leaves"@.len() != "Ramen"@.len());
            reveal_strlit("Pile of Leaves");
            assert("Pile of Leaves"@.len() != "Ramen"@.len());
            reveal_strlit("Bucket of Leaves");
            assert("Bucket of Leaves"@.len() != "Ramen"@.len());
            reveal_strlit("Barrel of Leaves");
            assert("Barrel of Leaves"@.len() != "Ramen"@.len());
            reveal_strlit("Truckload of Leaves");
            assert("Truckload of Leaves"@.len() != "Ramen"@.len());
            reveal_strlit("Tank Top");
            assert("Tank Top"@.len() != "Ramen"@.len());
            reveal_strlit("T-Shirt");
            assert("T-Shirt"@.len() != "Ramen"@.len());
            reveal_strlit("Sneaker");
            assert("Sneaker"@.len() != "Ramen"@.len());
            reveal_strlit("Shorts");
            assert("Shorts"@.len() != "Ramen"@.len());
            reveal_strlit("Baseball Cap");
            assert("Baseball Cap"@.len() != "Ramen"@.len());
            reveal_strlit("Propeller Hat");
            assert("Propeller Hat"@.len() != "Ramen"@.len());
            reveal_strlit("Sweater");
            assert("Sweater"@.len() != "Ramen"@.len());
            reveal_strlit("Hoodie");
            assert("Hoodie"@.len() != "Ramen"@.len());
            reveal_strlit("Jacket");
            assert("Jacket"@.len() != "Ramen"@.len());
            reveal_strlit("Coat");
            assert("Coat"@.len() != "Ramen"@.len());
            reveal_strlit("Latex Glove");
            assert("Latex Glove"@.len() != "Ramen"@.len());
            reveal_strlit("Cotton Glove");
            assert("Cotton Glove"@.len() != "Ramen"@.len());
            reveal_strlit("Leather Glove");
            assert("Leather Glove"@.len() != "Ramen"@.len());
            reveal_strlit("Arm Sleeve");
            assert("Arm Sleeve"@.len() != "Ramen"@.len());
            reveal_strlit("Leg Sleeve");
            assert("Leg Sleeve"@.len() != "Ramen"@.len());
            reveal_strlit("Paper Knife");
            assert("Paper Knife"@.len() != "Ramen"@.len());
            reveal_strlit("Tree Stick");
            assert("Tree Stick"@.len() != "Ramen"@.len());
            reveal_strlit("Brass Knuckles");
            assert("Brass Knuckles"@.len() != "Ramen"@.len());
            reveal_strlit("Spiked Brass Knuckles");
            assert("Spiked Brass Knuckles"@.len() != "Ramen"@.len());
            reveal_strlit("Bladed Brass Knuckles");
            assert("Bladed Brass Knuckles"@.len() != "Ramen"@.len());
            reveal_strlit("Orangeberries");
            assert("Orangeberries"@.len() != "Ramen"@.len());
            reveal_strlit("Pen Pineapple Apple Pen");
            assert("Pen Pineapple Apple Pen"@.len() != "Ramen"@.len());
            reveal_strlit("Health Potion");
            assert("Health Potion"@.len() != "Ramen"@.len());
            reveal_strlit("Instant Ramen");
            assert("Instant Ramen"@.len() != "Ramen"@.len());
        },
        BaseItem::CarolinaReaperRamen => {
            reveal_strlit("Carolina Reaper Ramen");
            reveal_strlit("Handful of Leaves");
            assert("Handful of Leaves"@.len() != "Carolina Reaper Ramen"@.len());
            reveal_strlit("Pile of Leaves");
            assert("Pile of Leaves"@.len() != "Carolina Reaper Ramen"@.len());
            reveal_strlit("Bucket of Leaves");
            assert("Bucket of Leaves"@.len() != "Carolina Reaper Ramen"@.len());
            reveal_strlit("Barrel of Leaves");
            assert("Barrel of Leaves"@.len() != "Carolina Reaper Ramen"@.len());
            reveal_strlit("Truckload of Leaves");
            assert("Truckload of Leaves"@.len() != "Carolina Reaper Ramen"@.len());
            reveal_strlit("Tank Top");
            assert("Tank Top"@.len() != "Carolina Reaper Ramen"@.len());
            reveal_strlit("T-Shirt");
            assert("T-Shirt"@.len() != "Carolina Reaper Ramen"@.len());
            reveal_strlit("Sneaker");
            assert("Sneaker"@.len() != "Carolina Reaper Ramen"@.len());
            reveal_strlit("Shorts");
            assert("Shorts"@.len() != "Carolina Reaper Ramen"@.len());
            reveal_strlit("Baseball Cap");
            assert("Baseball Cap"@.len() != "Carolina Reaper Ramen"@.len());
            reveal_strlit("Propeller Hat");
            assert("Propeller Hat"@.len() != "Carolina Reaper Ramen"@.len());
            reveal_strlit("Sweater");
            assert("Sweater"@.len() != "Carolina Reaper Ramen"@.len());
            reveal_strlit("Hoodie");
            assert("Hoodie"@.len() != "Carolina Reaper Ramen"@.len());
            reveal_strlit("Jacket");
            assert("Jacket"@.len() != "Carolina Reaper Ramen"@.len());
            reveal_strlit("Coat");
            assert("Coat"@.len() != "Carolina Reaper Ramen"@.len());
            reveal_strlit("Latex Glove");
            assert("Latex Glove"@.len() != "Carolina Reaper Ramen"@.len());
            reveal_strlit("Cotton Glove");
            assert("Cotton Glove"@.len() != "Carolina Reaper Ramen"@.len());
            reveal_strlit("Leather Glove");
            assert("Leather Glove"@.len() != "Carolina Reaper Ramen"@.len());
            reveal_strlit("Arm Sleeve");
            assert("Arm Sleeve"@.len() != "Carolina Reaper Ramen"@.len());
            reveal_strlit("Leg Sleeve");
            assert("Leg Sleeve"@.len() != "Carolina Reaper Ramen"@.len());
            reveal_strlit("Paper Knife");
            assert("Paper Knife"@.len() != "Carolina Reaper Ramen"@.len());
            reveal_strlit("Tree Stick");
            assert("Tree Stick"@.len() != "Carolina Reaper Ramen"@.len());
            reveal_strlit("Brass Knuckles");
            assert("Brass Knuckles"@.len() != "Carolina Reaper Ramen"@.len());
            reveal_strlit("Spiked Brass Knuckles");
            assert("Spiked Brass Knuckles"@[0] != "Carolina Reaper Ramen"@[0]);
            reveal_strlit("Bladed Brass Knuckles");
            assert("Bladed Brass Knuckles"@[0] != "Carolina Reaper Ramen"@[0]);
            reveal_strlit("Orangeberries");
            assert("Orangeberries"@.len() != "Carolina Reaper Ramen"@.len());
            reveal_strlit("Pen Pineapple Apple Pen");
            assert("Pen Pineapple Apple Pen"@.len() != "Carolina Reaper Ramen"@.len());
            reveal_strlit("Health Potion");
            assert("Health Potion"@.len() != "Carolina Reaper Ramen"@.len());
            reveal_strlit("Instant Ramen");
            assert("Instant Ramen"@.len() != "Carolina Reaper Ramen"@.len());
            reveal_strlit("Ramen");
            assert("Ramen"@.len() != "Carolina Reaper Ramen"@.len());
        },
        BaseItem::Milk => {
            reveal_strlit("Milk");
            reveal_strlit("Handful of Leaves");
            assert("Handful of Leaves"@.len() != "Milk"@.len());
            reveal_strlit("Pile of Leaves");
            assert("Pile of Leaves"@.len() != "Milk"@.len());
            reveal_strlit("Bucket of Leaves");
            assert("Bucket of Leaves"@.len() != "Milk"@.len());
            reveal_strlit("Barrel of Leaves");
            assert("Barrel of Leaves"@.len() != "Milk"@.len());
            reveal_strlit("Truckload of Leaves");
            assert("Truckload of Leaves"@.len() != "Milk"@.len());
            reveal_strlit("Tank Top");
            assert("Tank Top"@.len() != "Milk"@.len());
            reveal_strlit("T-Shirt");
            assert("T-Shirt"@.len() != "Milk"@.len());
            reveal_strlit("Sneaker");
            assert("Sneaker"@.len() != "Milk"@.len());
            reveal_strlit("Shorts");
            assert("Shorts"@.len() != "Milk"@.len());
            reveal_strlit("Baseball Cap");
            assert("Baseball Cap"@.len() != "Milk"@.len());
            reveal_strlit("Propeller Hat");
            assert("Propeller Hat"@.len() != "Milk"@.len());
            reveal_strlit("Sweater");
            assert("Sweater"@.len() != "Milk"@.len());
            reveal_strlit("Hoodie");
            assert("Hoodie"@.len() != "Milk"@.len());
            reveal_strlit("Jacket");
            assert("Jacket"@.len() != "Milk"@.len());
            reveal_strlit("Coat");
            assert("Coat"@[0] != "Milk"@[0]);
            reveal_strlit("Latex Glove");
            assert("Latex Glove"@.len() != "Milk"@.len());
            reveal_strlit("Cotton Glove");
            assert("Cotton Glove"@.len() != "Milk"@.len());
            reveal_strlit("Leather Glove");
            assert("Leather Glove"@.len() != "Milk"@.len());
            reveal_strlit("Arm Sleeve");
            assert("Arm Sleeve"@.len() != "Milk"@.len());
            reveal_strlit("Leg Sleeve");
            assert("Leg Sleeve"@.len() != "Milk"@.len());
            reveal_strlit("Paper Knife");
            assert("Paper Knife"@.len() != "Milk"@.len());
            reveal_strlit("Tree Stick");
            assert("Tree Stick"@.len() != "Milk"@.len());
            reveal_strlit("Brass Knuckles");
            assert("Brass Knuckles"@.len() != "Milk"@.len());
            reveal_strlit("Spiked Brass Knuckles");
            assert("Spiked Brass Knuckles"@.len() != "Milk"@.len());
            reveal_strlit("Bladed Brass Knuckles");
            assert("Bladed Brass Knuckles"@.len() != "Milk"@.len());
            reveal_strlit("Orangeberries");
            assert("Orangeberries"@.len() != "Milk"@.len());
            reveal_strlit("Pen Pineapple Apple Pen");
            assert("Pen Pineapple Apple Pen"@.len() != "Milk"@.len());
            reveal_strlit("Health Potion");
            assert("Health Potion"@.len() != "Milk"@.len());
            reveal_strlit("Instant Ramen");
            assert("Instant Ramen"@.len() != "Milk"@.len());
            reveal_strlit("Ramen");
            assert("Ramen"@.len() != "Milk"@.len());
            reveal_strlit("Carolina Reaper Ramen");
            assert("Carolina Reaper Ramen"@.len() != "Milk"@.len());
        },
        BaseItem::FriedSnow => {
            reveal_strlit("Fried Snow");
            reveal_strlit("Handful of Leaves");
            assert("Handful of Leaves"@.len() != "Fried Snow"@.len());
            reveal_strlit("Pile of Leaves");
            assert("Pile of Leaves"@.len() != "Fried Snow"@.len());
            reveal_strlit("Bucket of Leaves");
            assert("Bucket of Leaves"@.len() != "Fried Snow"@.len());
            reveal_strlit("Barrel of Leaves");
            assert("Barrel of Leaves"@.len() != "Fried Snow"@.len());
            reveal_strlit("Truckload of Leaves");
            assert("Truckload of Leaves"@.len() != "Fried Snow"@.len());
            reveal_strlit("Tank Top");
            assert("Tank Top"@.len() != "Fried Snow"@.len());
            reveal_strlit("T-Shirt");
            assert("T-Shirt"@.len() != "Fried Snow"@.len());
            reveal_strlit("Sneaker");
            assert("Sneaker"@.len() != "Fried Snow"@.len());
            reveal_strlit("Shorts");
            assert("Shorts"@.len() != "Fried Snow"@.len());
            reveal_strlit("Baseball Cap");
            assert("Baseball Cap"@.len() != "Fried Snow"@.len());
            reveal_strlit("Propeller Hat");
            assert("Propeller Hat"@.len() != "Fried Snow"@.len());
            reveal_strlit("Sweater");
            assert("Sweater"@.len() != "Fried Snow"@.len());
            reveal_strlit("Hoodie");
            assert("Hoodie"@.len() != "Fried Snow"@.len());
            reveal_strlit("Jacket");
            assert("Jacket"@.len() != "Fried Snow"@.len());
            reveal_strlit("Coat");
            assert("Coat"@.len() != "Fried Snow"@.len());
            reveal_strlit("Latex Glove");
            assert("Latex Glove"@.len() != "Fried Snow"@.len());
            reveal_strlit("Cotton Glove");
            assert("Cotton Glove"@.len() != "Fried Snow"@.len());
            reveal_strlit("Leather Glove");
            assert("Leather Glove"@.len() != "Fried Snow"@.len());
            reveal_strlit("Arm Sleeve");
            assert("Arm Sleeve"@[0] != "Fried Snow"@[0]);
            reveal_strlit("Leg Sleeve");
            assert("Leg Sleeve"@[0] != "Fried Snow"@[0]);
            reveal_strlit("Paper Knife");
            assert("Paper Knife"@.len() != "Fried Snow"@.len());
            reveal_strlit("Tree Stick");
            assert("Tree Stick"@[0] != "Fried Snow"@[0]);
            reveal_strlit("Brass Knuckles");
            assert("Brass Knuckles"@.len() != "Fried Snow"@.len());
            reveal_strlit("Spiked Brass Knuckles");
            assert("Spiked Brass Knuckles"@.len() != "Fried Snow"@.len());
            reveal_strlit("Bladed Brass Knuckles");
            assert("Bladed Brass Knuckles"@.len() != "Fried Snow"@.len());
            reveal_strlit("Orangeberries");
            assert("Orangeberries"@.len() != "Fried Snow"@.len());
            reveal_strlit("Pen Pineapple Apple Pen");
            assert("Pen Pineapple Apple Pen"@.len() != "Fried Snow"@.len());
            reveal_strlit("Health Potion");
            assert("Health Potion"@.len() != "Fried Snow"@.len());
            reveal_strlit("Instant Ramen");
            assert("Instant Ramen"@.len() != "Fried Snow"@.len());
            reveal_strlit("Ramen");
            assert("Ramen"@.len() != "Fried Snow"@.len());
            reveal_strlit("Carolina Reaper Ramen");
            assert("Carolina Reaper Ramen"@.len() != "Fried Snow"@.len());
            reveal_strlit("Milk");
            assert("Milk"@.len() != "Fried Snow"@.len());
        },
        BaseItem::Scarf => {
            reveal_strlit("Scarf");
            reveal_strlit("Handful of Leaves");
            assert("Handful of Leaves"@.len() != "Scarf"@.len());
            reveal_strlit("Pile of Leaves");
            assert("Pile of Leaves"@.len() != "Scarf"@.len());
            reveal_strlit("Bucket of Leaves");
            assert("Bucket of Leaves"@.len() != "Scarf"@.len());
            reveal_strlit("Barrel of Leaves");
            assert("Barrel of Leaves"@.len() != "Scarf"@.len());
            reveal_strlit("Truckload of Leaves");
            assert("Truckload of Leaves"@.len() != "Scarf"@.len());
            reveal_strlit("Tank Top");
            assert("Tank Top"@.len() != "Scarf"@.len());
            reveal_strlit("T-Shirt");
            assert("T-Shirt"@.len() != "Scarf"@.len());
            reveal_strlit("Sneaker");
            assert("Sneaker"@.len() != "Scarf"@.len());
            reveal_strlit("Shorts");
            assert("Shorts"@.len() != "Scarf"@.len());
            reveal_strlit("Baseball Cap");
            assert("Baseball Cap"@.len() != "Scarf"@.len());
            reveal_strlit("Propeller Hat");
            assert("Propeller Hat"@.len() != "Scarf"@.len());
            reveal_strlit("Sweater");
            assert("Sweater"@.len() != "Scarf"@.len());
            reveal_strlit("Hoodie");
            assert("Hoodie"@.len() != "Scarf"@.len());
            reveal_strlit("Jacket");
            assert("Jacket"@.len() != "Scarf"@.len());
            reveal_strlit("Coat");
            assert("Coat"@.len() != "Scarf"@.len());
            reveal_strlit("Latex Glove");
            assert("Latex Glove"@.len() != "Scarf"@.len());
            reveal_strlit("Cotton Glove");
            assert("Cotton Glove"@.len() != "Scarf"@.len());
            reveal_strlit("Leather Glove");
            assert("Leather Glove"@.len() != "Scarf"@.len());
            reveal_strlit("Arm Sleeve");
            assert("Arm Sleeve"@.len() != "Scarf"@.len());
            reveal_strlit("Leg Sleeve");
            assert("Leg Sleeve"@.len() != "Scarf"@.len());
            reveal_strlit("Paper Knife");
            assert("Paper Knife"@.len() != "Scarf"@.len());
            reveal_strlit("Tree Stick");
            assert("Tree Stick"@.len() != "Scarf"@.len());
            reveal_strlit("Brass Knuckles");
            assert("Brass Knuckles"@.len() != "Scarf"@.len());
            reveal_strlit("Spiked Brass Knuckles");
            assert("Spiked Brass Knuckles"@.len() != "Scarf"@.len());
            reveal_strlit("Bladed Brass Knuckles");
            assert("Bladed Brass Knuckles"@.len() != "Scarf"@.len());
            reveal_strlit("Orangeberries");
            assert("Orangeberries"@.len() != "Scarf"@.len());
            reveal_strlit("Pen Pineapple Apple Pen");
            assert("Pen Pineapple Apple Pen"@.len() != "Scarf"@.len());
            reveal_strlit("Health Potion");
            assert("Health Potion"@.len() != "Scarf"@.len());
            reveal_strlit("Instant Ramen");
            assert("Instant Ramen"@.len() != "Scarf"@.len());
            reveal_strlit("Ramen");
            assert("Ramen"@[0] != "Scarf"@[0]);
            reveal_strlit("Carolina Reaper Ramen");
            assert("Carolina Reaper Ramen"@.len() != "Scarf"@.len());
            reveal_strlit("Milk");
            assert("Milk"@.len() != "Scarf"@.len());
            reveal_strlit("Fried Snow");
            assert("Fried Snow"@.len() != "Scarf"@.len());
        },
    }
}

/// Each modifier's name reads back as that modifier, and no modifier's name
/// holds a space.
pub proof fn lemma_modifier_name_round_trip(m: Modifier)
    ensures
        modifier_from_name(m.spec_name()) == Some(m),
        !m.spec_name().contains(' '),
{
    match m {
        Modifier::Normal => {
            reveal_strlit("Normal");
        },
        Modifier::Lousy => {
            reveal_strlit("Lousy");
            reveal_strlit("Normal");
            assert("Normal"@.len() != "Lousy"@.len());
        },
        Modifier::Dull => {
            reveal_strlit("Dull");
            reveal_strlit("Normal");
            assert("Normal"@.len() != "Dull"@.len());
            reveal_strlit("Lousy");
            assert("Lousy"@.len() != "Dull"@.len());
        },
        Modifier::Light => {
            reveal_strlit("Light");
            reveal_strlit("Normal");
            assert("Normal"@.len() != "Light"@.len());
            reveal_strlit("Lousy");
            assert("Lousy"@[1] != "Light"@[1]);
            reveal_strlit("Dull");
            assert("Dull"@.len() != "Light"@.len());
        },
        Modifier::Heavy => {
            reveal_strlit("Heavy");
            reveal_strlit("Normal");
            assert("Normal"@.len() != "Heavy"@.len());
            reveal_strlit("Lousy");
            assert("Lousy"@[0] != "Heavy"@[0]);
            reveal_strlit("Dull");
            assert("Dull"@.len() != "Heavy"@.len());
            reveal_strlit("Light");
            assert("Light"@[0] != "Heavy"@[0]);
        },
        Modifier::Bulky => {
            reveal_strlit("Bulky");
            reveal_strlit("Normal");
            assert("Normal"@.len() != "Bulky"@.len());
            reveal_strlit("Lousy");
            assert("Lousy"@[0] != "Bulky"@[0]);
            reveal_strlit("Dull");
            assert("Dull"@.len() != "Bulky"@.len());
            reveal_strlit("Light");
            assert("Light"@[0] != "Bulky"@[0]);
            reveal_strlit("Heavy");
            assert("Heavy"@[0] != "Bulky"@[0]);
        },
        Modifier::Intimidating => {
            reveal_strlit("Intimidating");
            reveal_strlit("Normal");
            assert("Normal"@.len() != "Intimidating"@.len());
            reveal_strlit("Lousy");
            assert("Lousy"@.len() != "Intimidating"@.len());
            reveal_strlit("Dull");
            assert("Dull"@.len() != "Intimidating"@.len());
            reveal_strlit("Light");
            assert("Light"@.len() != "Intimidating"@.len());
            reveal_strlit("Heavy");
            assert("Heavy"@.len() != "Intimidating"@.len());
            reveal_strlit("Bulky");
            assert("Bulky"@.len() != "Intimidating"@.len());
        },
        Modifier::Superior => {
            reveal_strlit("Superior");
            reveal_strlit("Normal");
            assert("Normal"@.len() != "Superior"@.len());
            reveal_strlit("Lousy");
            assert("Lousy"@.len() != "Superior"@.len());
            reveal_strlit("Dull");
            assert("Dull"@.len() != "Superior"@.len());
            reveal_strlit("Light");
            assert("Light"@.len() != "Superior"@.len());
            reveal_strlit("Heavy");
            assert("Heavy"@.len() != "Superior"@.len());
            reveal_strlit("Bulky");
            assert("Bulky"@.len() != "Superior"@.len());
            reveal_strlit("Intimidating");
            assert("Intimidating"@.len() != "Superior"@.len());
        },
        Modifier::Legendary => {
            reveal_strlit("Legendary");
            reveal_strlit("Normal");
            assert("Normal"@.len() != "Legendary"@.len());
            reveal_strlit("Lousy");
            assert("Lousy"@.len() != "Legendary"@.len());
            reveal_strlit("Dull");
            assert("Dull"@.len() != "Legendary"@.len());
            reveal_strlit("Light");
            assert("Light"@.len() != "Legendary"@.len());
            reveal_strlit("Heavy");
            assert("Heavy"@.len() != "Legendary"@.len());
            reveal_strlit("Bulky");
            assert("Bulky"@.len() != "Legendary"@.len());
            reveal_strlit("Intimidating");
            assert("Intimidating"@.len() != "Legendary"@.len());
            reveal_strlit("Superior");
            assert("Superior"@.len() != "Legendary"@.len());
        },
    }
    reveal_strlit("Normal");
    reveal_strlit("Lousy");
    reveal_strlit("Dull");
    reveal_strlit("Light");
    reveal_strlit("Heavy");
    reveal_strlit("Bulky");
    reveal_strlit("Intimidating");
    reveal_strlit("Superior");
    reveal_strlit("Legendary");
}

/// The stored number of an item gives back the item, and exactly the numbers
/// below 34 name an item.
pub proof fn lemma_base_repr_round_trip(b: BaseItem, i: int)
    ensures
        base_from_repr(b.spec_repr()) == Some(b),
        0 <= b.spec_repr() < 34,
        base_from_repr(i) is Some <==> 0 <= i < 34,
{
}

/// The stored number of a modifier gives back the modifier, and exactly the
/// numbers below 9 name a modifier.
pub proof fn lemma_modifier_repr_round_trip(m: Modifier, i: int)
    ensures
        modifier_from_repr(m.spec_repr()) == Some(m),
        0 <= m.spec_repr() < 9,
        modifier_from_repr(i) is Some <==> 0 <= i < 9,
{
}

/// The shop never pays more for an item than it asks for it.
pub proof fn lemma_selling_at_most_buying(b: BaseItem)
    ensures
        b.spec_selling_price() <= b.spec_buying_price(),
{
}

/// An item is an equipment exactly when it covers some limb.
pub proof fn lemma_equipment_iff_limbs(b: BaseItem)
    ensures
        BaseItem::spec_equipments().contains(b) <==> b.spec_equipable_limbs().len() > 0,
{
    let e = BaseItem::spec_equipments();
    match b {
        BaseItem::TankTop => assert(e[0] == b),
        BaseItem::Tshirt => assert(e[1] == b),
        BaseItem::Sweater => assert(e[2] == b),
        BaseItem::Hoodie => assert(e[3] == b),
        BaseItem::Jacket => assert(e[4] == b),
        BaseItem::Coat => assert(e[5] == b),
        BaseItem::Sneaker => assert(e[6] == b),
        BaseItem::Shorts => assert(e[7] == b),
        BaseItem::BaseballCap => assert(e[8] == b),
        BaseItem::PropellerHat => assert(e[9] == b),
        BaseItem::LatexGlove => assert(e[10] == b),
        BaseItem::CottonGlove => assert(e[11] == b),
        BaseItem::LeatherGlove => assert(e[12] == b),
        BaseItem::ArmSleeve => assert(e[13] == b),
        BaseItem::LegSleeve => assert(e[14] == b),
        BaseItem::Scarf => assert(e[15] == b),
        _ => {},
    }
}

/// The items the shop offers, and only those, have a positive weight; the
/// three shelves hold no item in common and none twice.
pub proof fn lemma_shelves(b: BaseItem)
    ensures
        b.spec_weight() > 0 <==> (BaseItem::spec_equipments().contains(b) || BaseItem::spec_weapons().contains(b)
            || BaseItem::spec_consumables().contains(b)),
        !(BaseItem::spec_equipments().contains(b) && BaseItem::spec_weapons().contains(b)),
        !(BaseItem::spec_equipments().contains(b) && BaseItem::spec_consumables().contains(b)),
        !(BaseItem::spec_weapons().contains(b) && BaseItem::spec_consumables().contains(b)),
        BaseItem::spec_equipments().no_duplicates(),
        BaseItem::spec_weapons().no_duplicates(),
        BaseItem::spec_consumables().no_duplicates(),
{
    let e = BaseItem::spec_equipments();
    let w = BaseItem::spec_weapons();
    let c = BaseItem::spec_consumables();
    match b {
        BaseItem::TankTop => assert(e[0] == b),
        BaseItem::Tshirt => assert(e[1] == b),
        BaseItem::Sweater => assert(e[2] == b),
        BaseItem::Hoodie => assert(e[3] == b),
        BaseItem::Jacket => assert(e[4] == b),
        BaseItem::Coat => assert(e[5] == b),
        BaseItem::Sneaker => assert(e[6] == b),
        BaseItem::Shorts => assert(e[7] == b),
        BaseItem::BaseballCap => assert(e[8] == b),
        BaseItem::PropellerHat => assert(e[9] == b),
        BaseItem::LatexGlove => assert(e[10] == b),
        BaseItem::CottonGlove => assert(e[11] == b),
        BaseItem::LeatherGlove => assert(e[12] == b),
        BaseItem::ArmSleeve => assert(e[13] == b),
        BaseItem::LegSleeve => assert(e[14] == b),
        BaseItem::Scarf => assert(e[15] == b),
        BaseItem::PaperKnife => assert(w[0] == b),
        BaseItem::TreeStick => assert(w[1] == b),
        BaseItem::BrassKnuckles => assert(w[2] == b),
        BaseItem::SpikedBrassKnuckles => assert(w[3] == b),
        BaseItem::BladedBrassKnuckles => assert(w[4] == b),
        BaseItem::Orangeberries => assert(c[0] == b),
        BaseItem::PenPineappleApplePen => assert(c[1] == b),
        BaseItem::HealthPotion => assert(c[2] == b),
        BaseItem::InstantRamen => assert(c[3] == b),
        BaseItem::Ramen => assert(c[4] == b),
        BaseItem::CarolinaReaperRamen => assert(c[5] == b),
        BaseItem::Milk => assert(c[6] == b),
        BaseItem::FriedSnow => assert(c[7] == b),
        _ => {},
    }
}

/// No item's name is a modifier's name, nor begins with a modifier's name
/// followed by a space: the first word of an item's name never reads as a modifier.
pub proof fn lemma_item_name_not_modified(b: BaseItem, m: Modifier)
    ensures
        b.spec_name() != m.spec_name(),
        !(b.spec_name().len() > m.spec_name().len() && b.spec_name().take(m.spec_name().len() as int)
            == m.spec_name() && b.spec_name()[m.spec_name().len() as int] == ' '),
{
    reveal_strlit("Normal");
    reveal_strlit("Lousy");
    reveal_strlit("Dull");
    reveal_strlit("Light");
    reveal_strlit("Heavy");
    reveal_strlit("Bulky");
    reveal_strlit("Intimidating");
    reveal_strlit("Superior");
    reveal_strlit("Legendary");
    match b {
        BaseItem::LeafHandful => {
            reveal_strlit("Handful of Leaves");
            assert("Handful of Leaves"@.len() != "Normal"@.len() && "Handful of Leaves"@.take(6)[0] != "Normal"@[0]);
            assert("Handful of Leaves"@.len() != "Lousy"@.len() && "Handful of Leaves"@.take(5)[0] != "Lousy"@[0]);
            assert("Handful of Leaves"@.len() != "Dull"@.len() && "Handful of Leaves"@.take(4)[0] != "Dull"@[0]);
            assert("Handful of Leaves"@.len() != "Light"@.len() && "Handful of Leaves"@.take(5)[0] != "Light"@[0]);
            assert("Handful of Leaves"@.len() != "Heavy"@.len() && "Handful of Leaves"@.take(5)[1] != "Heavy"@[1]);
            assert("Handful of Leaves"@.len() != "Bulky"@.len() && "Handful of Leaves"@.take(5)[0] != "Bulky"@[0]);
            assert("Handful of Leaves"@.len() != "Intimidating"@.len() && "Handful of Leaves"@.take(12)[0] != "Intimidating"@[0]);
            assert("Handful of Leaves"@.len() != "Superior"@.len() && "Handful of Leaves"@.take(8)[0] != "Superior"@[0]);
            assert("Handful of Leaves"@.len() != "Legendary"@.len() && "Handful of Leaves"@.take(9)[0] != "Legendary"@[0]);
        },
        BaseItem::LeafPile => {
            reveal_strlit("Pile of Leaves");
            assert("Pile of Leaves"@.len() != "Normal"@.len() && "Pile of Leaves"@.take(6)[0] != "Normal"@[0]);
            assert("Pile of Leaves"@.len() != "Lousy"@.len() && "Pile of Leaves"@.take(5)[0] != "Lousy"@[0]);
            assert("Pile of Leaves"@.len() != "Dull"@.len() && "Pile of Leaves"@.take(4)[0] != "Dull"@[0]);
            assert("Pile of Leaves"@.len() != "Light"@.len() && "Pile of Leaves"@.take(5)[0] != "Light"@[0]);
            assert("Pile of Leaves"@.len() != "Heavy"@.len() && "Pile of Leaves"@.take(5)[0] != "Heavy"@[0]);
            assert("Pile of Leaves"@.len() != "Bulky"@.len() && "Pile of Leaves"@.take(5)[0] != "Bulky"@[0]);
            assert("Pile of Leaves"@.len() != "Intimidating"@.len() && "Pile of Leaves"@.take(12)[0] != "Intimidating"@[0]);
            assert("Pile of Leaves"@.len() != "Superior"@.len() && "Pile of Leaves"@.take(8)[0] != "Superior"@[0]);
            assert("Pile of Leaves"@.len() != "Legendary"@.len() && "Pile of Leaves"@.take(9)[0] != "Legendary"@[0]);
        },
        BaseItem::LeafBucket => {
            reveal_strlit("Bucket of Leaves");
            assert("Bucket of Leaves"@.len() != "Normal"@.len() && "Bucket of Leaves"@.take(6)[0] != "Normal"@[0]);
            assert("Bucket of Leaves"@.len() != "Lousy"@.len() && "Bucket of Leaves"@.take(5)[0] != "Lousy"@[0]);
            assert("Bucket of Leaves"@.len() != "Dull"@.len() && "Bucket of Leaves"@.take(4)[0] != "Dull"@[0]);
            assert("Bucket of Leaves"@.len() != "Light"@.len() && "Bucket of Leaves"@.take(5)[0] != "Light"@[0]);
            assert("Bucket of Leaves"@.len() != "Heavy"@.len() && "Bucket of Leaves"@.take(5)[0] != "Heavy"@[0]);
            assert("Bucket of Leaves"@.len() != "Bulky"@.len() && "Bucket of Leaves"@.take(5)[2] != "Bulky"@[2]);
            assert("Bucket of Leaves"@.len() != "Intimidating"@.len() && "Bucket of Leaves"@.take(12)[0] != "Intimidating"@[0]);
            assert("Bucket of Leaves"@.len() != "Superior"@.len() && "Bucket of Leaves"@.take(8)[0] != "Superior"@[0]);
            assert("Bucket of Leaves"@.len() != "Legendary"@.len() && "Bucket of Leaves"@.take(9)[0] != "Legendary"@[0]);
        },
        BaseItem::LeafBarrel => {
            reveal_strlit("Barrel of Leaves");
            assert("Barrel of Leaves"@.len() != "Normal"@.len() && "Barrel of Leaves"@.take(6)[0] != "Normal"@[0]);
            assert("Barrel of Leaves"@.len() != "Lousy"@.len() && "Barrel of Leaves"@.take(5)[0] != "Lousy"@[0]);
            assert("Barrel of Leaves"@.len() != "Dull"@.len() && "Barrel of Leaves"@.take(4)[0] != "Dull"@[0]);
            assert("Barrel of Leaves"@.len() != "Light"@.len() && "Barrel of Leaves"@.take(5)[0] != "Light"@[0]);
            assert("Barrel of Leaves"@.len() != "Heavy"@.len() && "Barrel of Leaves"@.take(5)[0] != "Heavy"@[0]);
            assert("Barrel of Leaves"@.len() != "Bulky"@.len() && "Barrel of Leaves"@.take(5)[1] != "Bulky"@[1]);
            assert("Barrel of Leaves"@.len() != "Intimidating"@.len() && "Barrel of Leaves"@.take(12)[0] != "Intimidating"@[0]);
            assert("Barrel of Leaves"@.len() != "Superior"@.len() && "Barrel of Leaves"@.take(8)[0] != "Superior"@[0]);
            assert("Barrel of Leaves"@.len() != "Legendary"@.len() && "Barrel of Leaves"@.take(9)[0] != "Legendary"@[0]);
        },
        BaseItem::LeafTruckload => {
            reveal_strlit("Truckload of Leaves");
            assert("Truckload of Leaves"@.len() != "Normal"@.len() && "Truckload of Leaves"@.take(6)[0] != "Normal"@[0]);
            assert("Truckload of Leaves"@.len() != "Lousy"@.len() && "Truckload of Leaves"@.take(5)[0] != "Lousy"@[0]);
            assert("Truckload of Leaves"@.len() != "Dull"@.len() && "Truckload of Leaves"@.take(4)[0] != "Dull"@[0]);
            assert("Truckload of Leaves"@.len() != "Light"@.len() && "Truckload of Leaves"@.take(5)[0] != "Light"@[0]);
            assert("Truckload of Leaves"@.len() != "Heavy"@.len() && "Truckload of Leaves"@.take(5)[0] != "Heavy"@[0]);
            assert("Truckload of Leaves"@.len() != "Bulky"@.len() && "Truckload of Leaves"@.take(5)[0] != "Bulky"@[0]);
            assert("Truckload of Leaves"@.len() != "Intimidating"@.len() && "Truckload of Leaves"@.take(12)[0] != "Intimidating"@[0]);
            assert("Truckload of Leaves"@.len() != "Superior"@.len() && "Truckload of Leaves"@.take(8)[0] != "Superior"@[0]);
            assert("Truckload of Leaves"@.len() != "Legendary"@.len() && "Truckload of Leaves"@.take(9)[0] != "Legendary"@[0]);
        },
        BaseItem::TankTop => {
            reveal_strlit("Tank Top");
            assert("Tank Top"@.len() != "Normal"@.len() && "Tank Top"@.take(6)[0] != "Normal"@[0]);
            assert("Tank Top"@.len() != "Lousy"@.len() && "Tank Top"@.take(5)[0] != "Lousy"@[0]);
            assert("Tank Top"@.len() != "Dull"@.len() && "Tank Top"@.take(4)[0] != "Dull"@[0]);
            assert("Tank Top"@.len() != "Light"@.len() && "Tank Top"@.take(5)[0] != "Light"@[0]);
            assert("Tank Top"@.len() != "Heavy"@.len() && "Tank Top"@.take(5)[0] != "Heavy"@[0]);
            assert("Tank Top"@.len() != "Bulky"@.len() && "Tank Top"@.take(5)[0] != "Bulky"@[0]);
            assert("Tank Top"@.len() != "Intimidating"@.len());
            assert("Tank Top"@[0] != "Superior"@[0]);
            assert("Tank Top"@.len() != "Legendary"@.len());
        },
        BaseItem::Tshirt => {
            reveal_strlit("T-Shirt");
            assert("T-Shirt"@.len() != "Normal"@.len() && "T-Shirt"@.take(6)[0] != "Normal"@[0]);
            assert("T-Shirt"@.len() != "Lousy"@.len() && "T-Shirt"@.take(5)[0] != "Lousy"@[0]);
            assert("T-Shirt"@.len() != "Dull"@.len() && "T-Shirt"@.take(4)[0] != "Dull"@[0]);
            assert("T-Shirt"@.len() != "Light"@.len() && "T-Shirt"@.take(5)[0] != "Light"@[0]);
            assert("T-Shirt"@.len() != "Heavy"@.len() && "T-Shirt"@.take(5)[0] != "Heavy"@[0]);
            assert("T-Shirt"@.len() != "Bulky"@.len() && "T-Shirt"@.take(5)[0] != "Bulky"@[0]);
            assert("T-Shirt"@.len() != "Intimidating"@.len());
            assert("T-Shirt"@.len() != "Superior"@.len());
            assert("T-Shirt"@.len() != "Legendary"@.len());
        },
        BaseItem::Sneaker => {
            reveal_strlit("Sneaker");
            assert("Sneaker"@.len() != "Normal"@.len() && "Sneaker"@.take(6)[0] != "Normal"@[0]);
            assert("Sneaker"@.len() != "Lousy"@.len() && "Sneaker"@.take(5)[0] != "Lousy"@[0]);
            assert("Sneaker"@.len() != "Dull"@.len() && "Sneaker"@.take(4)[0] != "Dull"@[0]);
            assert("Sneaker"@.len() != "Light"@.len() && "Sneaker"@.take(5)[0] != "Light"@[0]);
            assert("Sneaker"@.len() != "Heavy"@.len() && "Sneaker"@.take(5)[0] != "Heavy"@[0]);
            assert("Sneaker"@.len() != "Bulky"@.len() && "Sneaker"@.take(5)[0] != "Bulky"@[0]);
            assert("Sneaker"@.len() != "Intimidating"@.len());
            assert("Sneaker"@.len() != "Superior"@.len());
            assert("Sneaker"@.len() != "Legendary"@.len());
        },
        BaseItem::Shorts => {
            reveal_strlit("Shorts");
            assert("Shorts"@[0] != "Normal"@[0]);
            assert("Shorts"@.len() != "Lousy"@.len() && "Shorts"@.take(5)[0] != "Lousy"@[0]);
            assert("Shorts"@.len() != "Dull"@.len() && "Shorts"@.take(4)[0] != "Dull"@[0]);
            assert("Shorts"@.len() != "Light"@.len() && "Shorts"@.take(5)[0] != "Light"@[0]);
            assert("Shorts"@.len() != "Heavy"@.len() && "Shorts"@.take(5)[0] != "Heavy"@[0]);
            assert("Shorts"@.len() != "Bulky"@.len() && "Shorts"@.take(5)[0] != "Bulky"@[0]);
            assert("Shorts"@.len() != "Intimidating"@.len());
            assert("Shorts"@.len() != "Superior"@.len());
            assert("Shorts"@.len() != "Legendary"@.len());
        },
        BaseItem::BaseballCap => {
            reveal_strlit("Baseball Cap");
            assert("Baseball Cap"@.len() != "Normal"@.len() && "Baseball Cap"@.take(6)[0] != "Normal"@[0]);
            assert("Baseball Cap"@.len() != "Lousy"@.len() && "Baseball Cap"@.take(5)[0] != "Lousy"@[0]);
            assert("Baseball Cap"@.len() != "Dull"@.len() && "Baseball Cap"@.take(4)[0] != "Dull"@[0]);
            assert("Baseball Cap"@.len() != "Light"@.len() && "Baseball Cap"@.take(5)[0] != "Light"@[0]);
            assert("Baseball Cap"@.len() != "Heavy"@.len() && "Baseball Cap"@.take(5)[0] != "Heavy"@[0]);
            assert("Baseball Cap"@.len() != "Bulky"@.len() && "Baseball Cap"@.take(5)[1] != "Bulky"@[1]);
            assert("Baseball Cap"@[0] != "Intimidating"@[0]);
            assert("Baseball Cap"@.len() != "Superior"@.len() && "Baseball Cap"@.take(8)[0] != "Superior"@[0]);
            assert("Baseball Cap"@.len() != "Legendary"@.len() && "Baseball Cap"@.take(9)[0] != "Legendary"@[0]);
        },
        BaseItem::PropellerHat => {
            reveal_strlit("Propeller Hat");
            assert("Propeller Hat"@.len() != "Normal"@.len() && "Propeller Hat"@.take(6)[0] != "Normal"@[0]);
            assert("Propeller Hat"@.len() != "Lousy"@.len() && "Propeller Hat"@.take(5)[0] != "Lousy"@[0]);
            assert("Propeller Hat"@.len() != "Dull"@.len() && "Propeller Hat"@.take(4)[0] != "Dull"@[0]);
            assert("Propeller Hat"@.len() != "Light"@.len() && "Propeller Hat"@.take(5)[0] != "Light"@[0]);
            assert("Propeller Hat"@.len() != "Heavy"@.len() && "Propeller Hat"@.take(5)[0] != "Heavy"@[0]);
            assert("Propeller Hat"@.len() != "Bulky"@.len() && "Propeller Hat"@.take(5)[0] != "Bulky"@[0]);
            assert("Propeller Hat"@.len() != "Intimidating"@.len() && "Propeller Hat"@.take(12)[0] != "Intimidating"@[0]);
            assert("Propeller Hat"@.len() != "Superior"@.len() && "Propeller Hat"@.take(8)[0] != "Superior"@[0]);
            assert("Propeller Hat"@.len() != "Legendary"@.len() && "Propeller Hat"@.take(9)[0] != "Legendary"@[0]);
        },
        BaseItem::Sweater => {
            reveal_strlit("Sweater");
            assert("Sweater"@.len() != "Normal"@.len() && "Sweater"@.take(6)[0] != "Normal"@[0]);
            assert("Sweater"@.len() != "Lousy"@.len() && "Sweater"@.take(5)[0] != "Lousy"@[0]);
            assert("Sweater"@.len() != "Dull"@.len() && "Sweater"@.take(4)[0] != "Dull"@[0]);
            assert("Sweater"@.len() != "Light"@.len() && "Sweater"@.take(5)[0] != "Light"@[0]);
            assert("Sweater"@.len() != "Heavy"@.len() && "Sweater"@.take(5)[0] != "Heavy"@[0]);
            assert("Sweater"@.len() != "Bulky"@.len() && "Sweater"@.take(5)[0] != "Bulky"@[0]);
            assert("Sweater"@.len() != "Intimidating"@.len());
            assert("Sweater"@.len() != "Superior"@.len());
            assert("Sweater"@.len() != "Legendary"@.len());
        },
        BaseItem::Hoodie => {
            reveal_strlit("Hoodie");
            assert("Hoodie"@[0] != "Normal"@[0]);
            assert("Hoodie"@.len() != "Lousy"@.len() && "Hoodie"@.take(5)[0] != "Lousy"@[0]);
            assert("Hoodie"@.len() != "Dull"@.len() && "Hoodie"@.take(4)[0] != "Dull"@[0]);
            assert("Hoodie"@.len() != "Light"@.len() && "Hoodie"@.take(5)[0] != "Light"@[0]);
            assert("Hoodie"@.len() != "Heavy"@.len() && "Hoodie"@.take(5)[1] != "Heavy"@[1]);
            assert("Hoodie"@.len() != "Bulky"@.len() && "Hoodie"@.take(5)[0] != "Bulky"@[0]);
            assert("Hoodie"@.len() != "Intimidating"@.len());
            assert("Hoodie"@.len() != "Superior"@.len());
            assert("Hoodie"@.len() != "Legendary"@.len());
        },
        BaseItem::Jacket => {
            reveal_strlit("Jacket");
            assert("Jacket"@[0] != "Normal"@[0]);
            assert("Jacket"@.len() != "Lousy"@.len() && "Jacket"@.take(5)[0] != "Lousy"@[0]);
            assert("Jacket"@.len() != "Dull"@.len() && "Jacket"@.take(4)[0] != "Dull"@[0]);
            assert("Jacket"@.len() != "Light"@.len() && "Jacket"@.take(5)[0] != "Light"@[0]);
            assert("Jacket"@.len() != "Heavy"@.len() && "Jacket"@.take(5)[0] != "Heavy"@[0]);
            assert("Jacket"@.len() != "Bulky"@.len() && "Jacket"@.take(5)[0] != "Bulky"@[0]);
            assert("Jacket"@.len() != "Intimidating"@.len());
            assert("Jacket"@.len() != "Superior"@.len());
            assert("Jacket"@.len() != "Legendary"@.len());
        },
        BaseItem::Coat => {
            reveal_strlit("Coat");
            assert("Coat"@.len() != "Normal"@.len());
            assert("Coat"@.len() != "Lousy"@.len());
            assert("Coat"@[0] != "Dull"@[0]);
            assert("Coat"@.len() != "Light"@.len());
            assert("Coat"@.len() != "Heavy"@.len());
            assert("Coat"@.len() != "Bulky"@.len());
            assert("Coat"@.len() != "Intimidating"@.len());
            assert("Coat"@.len() != "Superior"@.len());
            assert("Coat"@.len() != "Legendary"@.len());
        },
        BaseItem::LatexGlove => {
            reveal_strlit("Latex Glove");
            assert("Latex Glove"@.len() != "Normal"@.len() && "Latex Glove"@.take(6)[0] != "Normal"@[0]);
            assert("Latex Glove"@.len() != "Lousy"@.len() && "Latex Glove"@.take(5)[1] != "Lousy"@[1]);
            assert("Latex Glove"@.len() != "Dull"@.len() && "Latex Glove"@.take(4)[0] != "Dull"@[0]);
            assert("Latex Glove"@.len() != "Light"@.len() && "Latex Glove"@.take(5)[1] != "Light"@[1]);
            assert("Latex Glove"@.len() != "Heavy"@.len() && "Latex Glove"@.take(5)[0] != "Heavy"@[0]);
            assert("Latex Glove"@.len() != "Bulky"@.len() && "Latex Glove"@.take(5)[0] != "Bulky"@[0]);
            assert("Latex Glove"@.len() != "Intimidating"@.len());
            assert("Latex Glove"@.len() != "Superior"@.len() && "Latex Glove"@.take(8)[0] != "Superior"@[0]);
            assert("Latex Glove"@.len() != "Legendary"@.len() && "Latex Glove"@.take(9)[1] != "Legendary"@[1]);
        },
        BaseItem::CottonGlove => {
            reveal_strlit("Cotton Glove");
            assert("Cotton Glove"@.len() != "Normal"@.len() && "Cotton Glove"@.take(6)[0] != "Normal"@[0]);
            assert("Cotton Glove"@.len() != "Lousy"@.len() && "Cotton Glove"@.take(5)[0] != "Lousy"@[0]);
            assert("Cotton Glove"@.len() != "Dull"@.len() && "Cotton Glove"@.take(4)[0] != "Dull"@[0]);
            assert("Cotton Glove"@.len() != "Light"@.len() && "Cotton Glove"@.take(5)[0] != "Light"@[0]);
            assert("Cotton Glove"@.len() != "Heavy"@.len() && "Cotton Glove"@.take(5)[0] != "Heavy"@[0]);
            assert("Cotton Glove"@.len() != "Bulky"@.len() && "Cotton Glove"@.take(5)[0] != "Bulky"@[0]);
            assert("Cotton Glove"@[0] != "Intimidating"@[0]);
            assert("Cotton Glove"@.len() != "Superior"@.len() && "Cotton Glove"@.take(8)[0] != "Superior"@[0]);
            assert("Cotton Glove"@.len() != "Legendary"@.len() && "Cotton Glove"@.take(9)[0] != "Legendary"@[0]);
        },
        BaseItem::LeatherGlove => {
            reveal_strlit("Leather Glove");
            assert("Leather Glove"@.len() != "Normal"@.len() && "Leather Glove"@.take(6)[0] != "Normal"@[0]);
            assert("Leather Glove"@.len() != "Lousy"@.len() && "Leather Glove"@.take(5)[1] != "Lousy"@[1]);
            assert("Leather Glove"@.len() != "Dull"@.len() && "Leather Glove"@.take(4)[0] != "Dull"@[0]);
            assert("Leather Glove"@.len() != "Light"@.len() && "Leather Glove"@.take(5)[1] != "Light"@[1]);
            assert("Leather Glove"@.len() != "Heavy"@.len() && "Leather Glove"@.take(5)[0] != "Heavy"@[0]);
            assert("Leather Glove"@.len() != "Bulky"@.len() && "Leather Glove"@.take(5)[0] != "Bulky"@[0]);
            assert("Leather Glove"@.len() != "Intimidating"@.len() && "Leather Glove"@.take(12)[0] != "Intimidating"@[0]);
            assert("Leather Glove"@.len() != "Superior"@.len() && "Leather Glove"@.take(8)[0] != "Superior"@[0]);
            assert("Leather Glove"@.len() != "Legendary"@.len() && "Leather Glove"@.take(9)[2] != "Legendary"@[2]);
        },
        BaseItem::ArmSleeve => {
            reveal_strlit("Arm Sleeve");
            assert("Arm Sleeve"@.len() != "Normal"@.len() && "Arm Sleeve"@.take(6)[0] != "Normal"@[0]);
            assert("Arm Sleeve"@.len() != "Lousy"@.len() && "Arm Sleeve"@.take(5)[0] != "Lousy"@[0]);
            assert("Arm Sleeve"@.len() != "Dull"@.len() && "Arm Sleeve"@.take(4)[0] != "Dull"@[0]);
            assert("Arm Sleeve"@.len() != "Light"@.len() && "Arm Sleeve"@.take(5)[0] != "Light"@[0]);
            assert("Arm Sleeve"@.len() != "Heavy"@.len() && "Arm Sleeve"@.take(5)[0] != "Heavy"@[0]);
            assert("Arm Sleeve"@.len() != "Bulky"@.len() && "Arm Sleeve"@.take(5)[0] != "Bulky"@[0]);
            assert("Arm Sleeve"@.len() != "Intimidating"@.len());
            assert("Arm Sleeve"@.len() != "Superior"@.len() && "Arm Sleeve"@.take(8)[0] != "Superior"@[0]);
            assert("Arm Sleeve"@.len() != "Legendary"@.len() && "Arm Sleeve"@.take(9)[0] != "Legendary"@[0]);
        },
        BaseItem::LegSleeve => {
            reveal_strlit("Leg Sleeve");
            assert("Leg Sleeve"@.len() != "Normal"@.len() && "Leg Sleeve"@.take(6)[0] != "Normal"@[0]);
            assert("Leg Sleeve"@.len() != "Lousy"@.len() && "Leg Sleeve"@.take(5)[1] != "Lousy"@[1]);
            assert("Leg Sleeve"@.len() != "Dull"@.len() && "Leg Sleeve"@.take(4)[0] != "Dull"@[0]);
            assert("Leg Sleeve"@.len() != "Light"@.len() && "Leg Sleeve"@.take(5)[1] != "Light"@[1]);
            assert("Leg Sleeve"@.len() != "Heavy"@.len() && "Leg Sleeve"@.take(5)[0] != "Heavy"@[0]);
            assert("Leg Sleeve"@.len() != "Bulky"@.len() && "Leg Sleeve"@.take(5)[0] != "Bulky"@[0]);
            assert("Leg Sleeve"@.len() != "Intimidating"@.len());
            assert("Leg Sleeve"@.len() != "Superior"@.len() && "Leg Sleeve"@.take(8)[0] != "Superior"@[0]);
            assert("Leg Sleeve"@.len() != "Legendary"@.len() && "Leg Sleeve"@.take(9)[3] != "Legendary"@[3]);
        },
        BaseItem::PaperKnife => {
            reveal_strlit("Paper Knife");
            assert("Paper Knife"@.len() != "Normal"@.len() && "Paper Knife"@.take(6)[0] != "Normal"@[0]);
            assert("Paper Knife"@.len() != "Lousy"@.len() && "Paper Knife"@.take(5)[0] != "Lousy"@[0]);
            assert("Paper Knife"@.len() != "Dull"@.len() && "Paper Knife"@.take(4)[0] != "Dull"@[0]);
            assert("Paper Knife"@.len() != "Light"@.len() && "Paper Knife"@.take(5)[0] != "Light"@[0]);
            assert("Paper Knife"@.len() != "Heavy"@.len() && "Paper Knife"@.take(5)[0] != "Heavy"@[0]);
            assert("Paper Knife"@.len() != "Bulky"@.len() && "Paper Knife"@.take(5)[0] != "Bulky"@[0]);
            assert("Paper Knife"@.len() != "Intimidating"@.len());
            assert("Paper Knife"@.len() != "Superior"@.len() && "Paper Knife"@.take(8)[0] != "Superior"@[0]);
            assert("Paper Knife"@.len() != "Legendary"@.len() && "Paper Knife"@.take(9)[0] != "Legendary"@[0]);
        },
        BaseItem::TreeStick => {
            reveal_strlit("Tree Stick");
            assert("Tree Stick"@.len() != "Normal"@.len() && "Tree Stick"@.take(6)[0] != "Normal"@[0]);
            assert("Tree Stick"@.len() != "Lousy"@.len() && "Tree Stick"@.take(5)[0] != "Lousy"@[0]);
            assert("Tree Stick"@.len() != "Dull"@.len() && "Tree Stick"@.take(4)[0] != "Dull"@[0]);
            assert("Tree Stick"@.len() != "Light"@.len() && "Tree Stick"@.take(5)[0] != "Light"@[0]);
            assert("Tree Stick"@.len() != "Heavy"@.len() && "Tree Stick"@.take(5)[0] != "Heavy"@[0]);
            assert("Tree Stick"@.len() != "Bulky"@.len() && "Tree Stick"@.take(5)[0] != "Bulky"@[0]);
            assert("Tree Stick"@.len() != "Intimidating"@.len());
            assert("Tree Stick"@.len() != "Superior"@.len() && "Tree Stick"@.take(8)[0] != "Superior"@[0]);
            assert("Tree Stick"@.len() != "Legendary"@.len() && "Tree Stick"@.take(9)[0] != "Legendary"@[0]);
        },
        BaseItem::BrassKnuckles => {
            reveal_strlit("Brass Knuckles");
            assert("Brass Knuckles"@.len() != "Normal"@.len() && "Brass Knuckles"@.take(6)[0] != "Normal"@[0]);
            assert("Brass Knuckles"@.len() != "Lousy"@.len() && "Brass Knuckles"@.take(5)[0] != "Lousy"@[0]);
            assert("Brass Knuckles"@.len() != "Dull"@.len() && "Brass Knuckles"@.take(4)[0] != "Dull"@[0]);
            assert("Brass Knuckles"@.len() != "Light"@.len() && "Brass Knuckles"@.take(5)[0] != "Light"@[0]);
            assert("Brass Knuckles"@.len() != "Heavy"@.len() && "Brass Knuckles"@.take(5)[0] != "Heavy"@[0]);
            assert("Brass Knuckles"@.len() != "Bulky"@.len() && "Brass Knuckles"@.take(5)[1] != "Bulky"@[1]);
            assert("Brass Knuckles"@.len() != "Intimidating"@.len() && "Brass Knuckles"@.take(12)[0] != "Intimidating"@[0]);
            assert("Brass Knuckles"@.len() != "Superior"@.len() && "Brass Knuckles"@.take(8)[0] != "Superior"@[0]);
            assert("Brass Knuckles"@.len() != "Legendary"@.len() && "Brass Knuckles"@.take(9)[0] != "Legendary"@[0]);
        },
        BaseItem::SpikedBrassKnuckles => {
            reveal_strlit("Spiked Brass Knuckles");
            assert("Spiked Brass Knuckles"@.len() != "Normal"@.len() && "Spiked Brass Knuckles"@.take(6)[0] != "Normal"@[0]);
            assert("Spiked Brass Knuckles"@.len() != "Lousy"@.len() && "Spiked Brass Knuckles"@.take(5)[0] != "Lousy"@[0]);
            assert("Spiked Brass Knuckles"@.len() != "Dull"@.len() && "Spiked Brass Knuckles"@.take(4)[0] != "Dull"@[0]);
            assert("Spiked Brass Knuckles"@.len() != "Light"@.len() && "Spiked Brass Knuckles"@.take(5)[0] != "Light"@[0]);
            assert("Spiked Brass Knuckles"@.len() != "Heavy"@.len() && "Spiked Brass Knuckles"@.take(5)[0] != "Heavy"@[0]);
            assert("Spiked Brass Knuckles"@.len() != "Bulky"@.len() && "Spiked Brass Knuckles"@.take(5)[0] != "Bulky"@[0]);
            assert("Spiked Brass Knuckles"@.len() != "Intimidating"@.len() && "Spiked Brass Knuckles"@.take(12)[0] != "Intimidating"@[0]);
            assert("Spiked Brass Knuckles"@.len() != "Superior"@.len() && "Spiked Brass Knuckles"@.take(8)[1] != "Superior"@[1]);
            assert("Spiked Brass Knuckles"@.len() != "Legendary"@.len() && "Spiked Brass Knuckles"@.take(9)[0] != "Legendary"@[0]);
        },
        BaseItem::BladedBrassKnuckles => {
            reveal_strlit("Bladed Brass Knuckles");
            assert("Bladed Brass Knuckles"@.len() != "Normal"@.len() && "Bladed Brass Knuckles"@.take(6)[0] != "Normal"@[0]);
            assert("Bladed Brass Knuckles"@.len() != "Lousy"@.len() && "Bladed Brass Knuckles"@.take(5)[0] != "Lousy"@[0]);
            assert("Bladed Brass Knuckles"@.len() != "Dull"@.len() && "Bladed Brass Knuckles"@.take(4)[0] != "Dull"@[0]);
            assert("Bladed Brass Knuckles"@.len() != "Light"@.len() && "Bladed Brass Knuckles"@.take(5)[0] != "Light"@[0]);
            assert("Bladed Brass Knuckles"@.len() != "Heavy"@.len() && "Bladed Brass Knuckles"@.take(5)[0] != "Heavy"@[0]);
            assert("Bladed Brass Knuckles"@.len() != "Bulky"@.len() && "Bladed Brass Knuckles"@.take(5)[1] != "Bulky"@[1]);
            assert("Bladed Brass Knuckles"@.len() != "Intimidating"@.len() && "Bladed Brass Knuckles"@.take(12)[0] != "Intimidating"@[0]);
            assert("Bladed Brass Knuckles"@.len() != "Superior"@.len() && "Bladed Brass Knuckles"@.take(8)[0] != "Superior"@[0]);
            assert("Bladed Brass Knuckles"@.len() != "Legendary"@.len() && "Bladed Brass Knuckles"@.take(9)[0] != "Legendary"@[0]);
        },
        BaseItem::Orangeberries => {
            reveal_strlit("Orangeberries");
            assert("Orangeberries"@.len() != "Normal"@.len() && "Orangeberries"@.take(6)[0] != "Normal"@[0]);
            assert("Orangeberries"@.len() != "Lousy"@.len() && "Orangeberries"@.take(5)[0] != "Lousy"@[0]);
            assert("Orangeberries"@.len() != "Dull"@.len() && "Orangeberries"@.take(4)[0] != "Dull"@[0]);
            assert("Orangeberries"@.len() != "Light"@.len() && "Orangeberries"@.take(5)[0] != "Light"@[0]);
            assert("Orangeberries"@.len() != "Heavy"@.len() && "Orangeberries"@.take(5)[0] != "Heavy"@[0]);
            assert("Orangeberries"@.len() != "Bulky"@.len() && "Orangeberries"@.take(5)[0] != "Bulky"@[0]);
            assert("Orangeberries"@.len() != "Intimidating"@.len() && "Orangeberries"@.take(12)[0] != "Intimidating"@[0]);
            assert("Orangeberries"@.len() != "Superior"@.len() && "Orangeberries"@.take(8)[0] != "Superior"@[0]);
            assert("Orangeberries"@.len() != "Legendary"@.len() && "Orangeberries"@.take(9)[0] != "Legendary"@[0]);
        },
        BaseItem::PenPineappleApplePen => {
            reveal_strlit("Pen Pineapple Apple Pen");
            assert("Pen Pineapple Apple Pen"@.len() != "Normal"@.len() && "Pen Pineapple Apple Pen"@.take(6)[0] != "Normal"@[0]);
            assert("Pen Pineapple Apple Pen"@.len() != "Lousy"@.len() && "Pen Pineapple Apple Pen"@.take(5)[0] != "Lousy"@[0]);
            assert("Pen Pineapple Apple Pen"@.len() != "Dull"@.len() && "Pen Pineapple Apple Pen"@.take(4)[0] != "Dull"@[0]);
            assert("Pen Pineapple Apple Pen"@.len() != "Light"@.len() && "Pen Pineapple Apple Pen"@.take(5)[0] != "Light"@[0]);
            assert("Pen Pineapple Apple Pen"@.len() != "Heavy"@.len() && "Pen Pineapple Apple Pen"@.take(5)[0] != "Heavy"@[0]);
            assert("Pen Pineapple Apple Pen"@.len() != "Bulky"@.len() && "Pen Pineapple Apple Pen"@.take(5)[0] != "Bulky"@[0]);
            assert("Pen Pineapple Apple Pen"@.len() != "Intimidating"@.len() && "Pen Pineapple Apple Pen"@.take(12)[0] != "Intimidating"@[0]);
            assert("Pen Pineapple Apple Pen"@.len() != "Superior"@.len() && "Pen Pineapple Apple Pen"@.take(8)[0] != "Superior"@[0]);
            assert("Pen Pineapple Apple Pen"@.len() != "Legendary"@.len() && "Pen Pineapple Apple Pen"@.take(9)[0] != "Legendary"@[0]);
        },
        BaseItem::HealthPotion => {
            reveal_strlit("Health Potion");
            assert("Health Potion"@.len() != "Normal"@.len() && "Health Potion"@.take(6)[0] != "Normal"@[0]);
            assert("Health Potion"@.len() != "Lousy"@.len() && "Health Potion"@.take(5)[0] != "Lousy"@[0]);
            assert("Health Potion"@.len() != "Dull"@.len() && "Health Potion"@.take(4)[0] != "Dull"@[0]);
            assert("Health Potion"@.len() != "Light"@.len() && "Health Potion"@.take(5)[0] != "Light"@[0]);
            assert("Health Potion"@.len() != "Heavy"@.len() && "Health Potion"@.take(5)[3] != "Heavy"@[3]);
            assert("Health Potion"@.len() != "Bulky"@.len() && "Health Potion"@.take(5)[0] != "Bulky"@[0]);
            assert("Health Potion"@.len() != "Intimidating"@.len() && "Health Potion"@.take(12)[0] != "Intimidating"@[0]);
            assert("Health Potion"@.len() != "Superior"@.len() && "Health Potion"@.take(8)[0] != "Superior"@[0]);
            assert("Health Potion"@.len() != "Legendary"@.len() && "Health Potion"@.take(9)[0] != "Legendary"@[0]);
        },
        BaseItem::InstantRamen => {
            reveal_strlit("Instant Ramen");
            assert("Instant Ramen"@.len() != "Normal"@.len() && "Instant Ramen"@.take(6)[0] != "Normal"@[0]);
            assert("Instant Ramen"@.len() != "Lousy"@.len() && "Instant Ramen"@.take(5)[0] != "Lousy"@[0]);
            assert("Instant Ramen"@.len() != "Dull"@.len() && "Instant Ramen"@.take(4)[0] != "Dull"@[0]);
            assert("Instant Ramen"@.len() != "Light"@.len() && "Instant Ramen"@.take(5)[0] != "Light"@[0]);
            assert("Instant Ramen"@.len() != "Heavy"@.len() && "Instant Ramen"@.take(5)[0] != "Heavy"@[0]);
            assert("Instant Ramen"@.len() != "Bulky"@.len() && "Instant Ramen"@.take(5)[0] != "Bulky"@[0]);
            assert("Instant Ramen"@.len() != "Intimidating"@.len() && "Instant Ramen"@.take(12)[2] != "Intimidating"@[2]);
            assert("Instant Ramen"@.len() != "Superior"@.len() && "Instant Ramen"@.take(8)[0] != "Superior"@[0]);
            assert("Instant Ramen"@.len() != "Legendary"@.len() && "Instant Ramen"@.take(9)[0] != "Legendary"@[0]);
        },
        BaseItem::Ramen => {
            reveal_strlit("Ramen");
            assert("Ramen"@.len() != "Normal"@.len());
            assert("Ramen"@[0] != "Lousy"@[0]);
            assert("Ramen"@.len() != "Dull"@.len() && "Ramen"@.take(4)[0] != "Dull"@[0]);
            assert("Ramen"@[0] != "Light"@[0]);
            assert("Ramen"@[0] != "Heavy"@[0]);
            assert("Ramen"@[0] != "Bulky"@[0]);
            assert("Ramen"@.len() != "Intimidating"@.len());
            assert("Ramen"@.len() != "Superior"@.len());
            assert("Ramen"@.len() != "Legendary"@.len());
        },
        BaseItem::CarolinaReaperRamen => {
            reveal_strlit("Carolina Reaper Ramen");
            assert("Carolina Reaper Ramen"@.len() != "Normal"@.len() && "Carolina Reaper Ramen"@.take(6)[0] != "Normal"@[0]);
            assert("Carolina Reaper Ramen"@.len() != "Lousy"@.len() && "Carolina Reaper Ramen"@.take(5)[0] != "Lousy"@[0]);
            assert("Carolina Reaper Ramen"@.len() != "Dull"@.len() && "Carolina Reaper Ramen"@.take(4)[0] != "Dull"@[0]);
            assert("Carolina Reaper Ramen"@.len() != "Light"@.len() && "Carolina Reaper Ramen"@.take(5)[0] != "Light"@[0]);
            assert("Carolina Reaper Ramen"@.len() != "Heavy"@.len() && "Carolina Reaper Ramen"@.take(5)[0] != "Heavy"@[0]);
            assert("Carolina Reaper Ramen"@.len() != "Bulky"@.len() && "Carolina Reaper Ramen"@.take(5)[0] != "Bulky"@[0]);
            assert("Carolina Reaper Ramen"@.len() != "Intimidating"@.len() && "Carolina Reaper Ramen"@.take(12)[0] != "Intimidating"@[0]);
            assert("Carolina Reaper Ramen"@.len() != "Superior"@.len() && "Carolina Reaper Ramen"@.take(8)[0] != "Superior"@[0]);
            assert("Carolina Reaper Ramen"@.len() != "Legendary"@.len() && "Carolina Reaper Ramen"@.take(9)[0] != "Legendary"@[0]);
        },
        BaseItem::Milk => {
            reveal_strlit("Milk");
            assert("Milk"@.len() != "Normal"@.len());
            assert("Milk"@.len() != "Lousy"@.len());
            assert("Milk"@[0] != "Dull"@[0]);
            assert("Milk"@.len() != "Light"@.len());
            assert("Milk"@.len() != "Heavy"@.len());
            assert("Milk"@.len() != "Bulky"@.len());
            assert("Milk"@.len() != "Intimidating"@.len());
            assert("Milk"@.len() != "Superior"@.len());
            assert("Milk"@.len() != "Legendary"@.len());
        },
        BaseItem::FriedSnow => {
            reveal_strlit("Fried Snow");
            assert("Fried Snow"@.len() != "Normal"@.len() && "Fried Snow"@.take(6)[0] != "Normal"@[0]);
            assert("Fried Snow"@.len() != "Lousy"@.len() && "Fried Snow"@.take(5)[0] != "Lousy"@[0]);
            assert("Fried Snow"@.len() != "Dull"@.len() && "Fried Snow"@.take(4)[0] != "Dull"@[0]);
            assert("Fried Snow"@.len() != "Light"@.len() && "Fried Snow"@.take(5)[0] != "Light"@[0]);
            assert("Fried Snow"@.len() != "Heavy"@.len() && "Fried Snow"@.take(5)[0] != "Heavy"@[0]);
            assert("Fried Snow"@.len() != "Bulky"@.len() && "Fried Snow"@.take(5)[0] != "Bulky"@[0]);
            assert("Fried Snow"@.len() != "Intimidating"@.len());
            assert("Fried Snow"@.len() != "Superior"@.len() && "Fried Snow"@.take(8)[0] != "Superior"@[0]);
            assert("Fried Snow"@.len() != "Legendary"@.len() && "Fried Snow"@.take(9)[0] != "Legendary"@[0]);
        },
        BaseItem::Scarf => {
            reveal_strlit("Scarf");
            assert("Scarf"@.len() != "Normal"@.len());
            assert("Scarf"@[0] != "Lousy"@[0]);
            assert("Scarf"@.len() != "Dull"@.len() && "Scarf"@.take(4)[0] != "Dull"@[0]);
            assert("Scarf"@[0] != "Light"@[0]);
            assert("Scarf"@[0] != "Heavy"@[0]);
            assert("Scarf"@[0] != "Bulky"@[0]);
            assert("Scarf"@.len() != "Intimidating"@.len());
            assert("Scarf"@.len() != "Superior"@.len());
            assert("Scarf"@.len() != "Legendary"@.len());
        },
    }
}

/// Every item's name ends in a character that is neither a digit nor a space.
pub proof fn lemma_item_name_last_char(b: BaseItem)
    ensures
        b.spec_name().len() > 0,
        !('0' <= b.spec_name().last() && b.spec_name().last() <= '9'),
        b.spec_name().last() != ' ',
{
    match b {
        BaseItem::LeafHandful => {
            reveal_strlit("Handful of Leaves");
            assert("Handful of Leaves"@.last() == 's');
        },
        BaseItem::LeafPile => {
            reveal_strlit("Pile of Leaves");
            assert("Pile of Leaves"@.last() == 's');
        },
        BaseItem::LeafBucket => {
            reveal_strlit("Bucket of Leaves");
            assert("Bucket of Leaves"@.last() == 's');
        },
        BaseItem::LeafBarrel => {
            reveal_strlit("Barrel of Leaves");
            assert("Barrel of Leaves"@.last() == 's');
        },
        BaseItem::LeafTruckload => {
            reveal_strlit("Truckload of Leaves");
            assert("Truckload of Leaves"@.last() == 's');
        },
        BaseItem::TankTop => {
            reveal_strlit("Tank Top");
            assert("Tank Top"@.last() == 'p');
        },
        BaseItem::Tshirt => {
            reveal_strlit("T-Shirt");
            assert("T-Shirt"@.last() == 't');
        },
        BaseItem::Sneaker => {
            reveal_strlit("Sneaker");
            assert("Sneaker"@.last() == 'r');
        },
        BaseItem::Shorts => {
            reveal_strlit("Shorts");
            assert("Shorts"@.last() == 's');
        },
        BaseItem::BaseballCap => {
            reveal_strlit("Baseball Cap");
            assert("Baseball Cap"@.last() == 'p');
        },
        BaseItem::PropellerHat => {
            reveal_strlit("Propeller Hat");
            assert("Propeller Hat"@.last() == 't');
        },
        BaseItem::Sweater => {
            reveal_strlit("Sweater");
            assert("Sweater"@.last() == 'r');
        },
        BaseItem::Hoodie => {
            reveal_strlit("Hoodie");
            assert("Hoodie"@.last() == 'e');
        },
        BaseItem::Jacket => {
            reveal_strlit("Jacket");
            assert("Jacket"@.last() == 't');
        },
        BaseItem::Coat => {
            reveal_strlit("Coat");
            assert("Coat"@.last() == 't');
        },
        BaseItem::LatexGlove => {
            reveal_strlit("Latex Glove");
            assert("Latex Glove"@.last() == 'e');
        },
        BaseItem::CottonGlove => {
            reveal_strlit("Cotton Glove");
            assert("Cotton Glove"@.last() == 'e');
        },
        BaseItem::LeatherGlove => {
            reveal_strlit("Leather Glove");
            assert("Leather Glove"@.last() == 'e');
        },
        BaseItem::ArmSleeve => {
            reveal_strlit("Arm Sleeve");
            assert("Arm Sleeve"@.last() == 'e');
        },
        BaseItem::LegSleeve => {
            reveal_strlit("Leg Sleeve");
            assert("Leg Sleeve"@.last() == 'e');
        },
        BaseItem::PaperKnife => {
            reveal_strlit("Paper Knife");
            assert("Paper Knife"@.last() == 'e');
        },
        BaseItem::TreeStick => {
            reveal_strlit("Tree Stick");
            assert("Tree Stick"@.last() == 'k');
        },
        BaseItem::BrassKnuckles => {
            reveal_strlit("Brass Knuckles");
            assert("Brass Knuckles"@.last() == 's');
        },
        BaseItem::SpikedBrassKnuckles => {
            reveal_strlit("Spiked Brass Knuckles");
            assert("Spiked Brass Knuckles"@.last() == 's');
        },
        BaseItem::BladedBrassKnuckles => {
            reveal_strlit("Bladed Brass Knuckles");
            assert("Bladed Brass Knuckles"@.last() == 's');
        },
        BaseItem::Orangeberries => {
            reveal_strlit("Orangeberries");
            assert("Orangeberries"@.last() == 's');
        },
        BaseItem::PenPineappleApplePen => {
            reveal_strlit("Pen Pineapple Apple Pen");
            assert("Pen Pineapple Apple Pen"@.last() == 'n');
        },
        BaseItem::HealthPotion => {
            reveal_strlit("Health Potion");
            assert("Health Potion"@.last() == 'n');
        },
        BaseItem::InstantRamen => {
            reveal_strlit("Instant Ramen");
            assert("Instant Ramen"@.last() == 'n');
        },
        BaseItem::Ramen => {
            reveal_strlit("Ramen");
            assert("Ramen"@.last() == 'n');
        },
        BaseItem::CarolinaReaperRamen => {
            reveal_strlit("Carolina Reaper Ramen");
            assert("Carolina Reaper Ramen"@.last() == 'n');
        },
        BaseItem::Milk => {
            reveal_strlit("Milk");
            assert("Milk"@.last() == 'k');
        },
        BaseItem::FriedSnow => {
            reveal_strlit("Fried Snow");
            assert("Fried Snow"@.last() == 'w');
        },
        BaseItem::Scarf => {
            reveal_strlit("Scarf");
            assert("Scarf"@.last() == 'f');
        },
    }
}

/// The item a description belongs to, told apart by the description's length
/// and, where lengths coincide, one character.
pub open spec fn item_of_description(d: Seq<char>) -> BaseItem {
    if d.len() == 46 {
        if d[0] == 'I' {
            BaseItem::LeafHandful
        } else {
            BaseItem::Coat
        }
    } else if d.len() == 67 {
        BaseItem::LeafPile
    } else if d.len() == 19 {
        if d[0] == 'A' {
            BaseItem::LeafBucket
        } else {
            BaseItem::LegSleeve
        }
    } else if d.len() == 33 {
        BaseItem::LeafBarrel
    } else if d.len() == 41 {
        if d[0] == 'S' {
            BaseItem::LeafTruckload
        } else if d[0] == 'A' {
            BaseItem::Sneaker
        } else {
            BaseItem::InstantRamen
        }
    } else if d.len() == 28 {
        if d[0] == 'D' {
            BaseItem::TankTop
        } else {
            BaseItem::Jacket
        }
    } else if d.len() == 62 {
        if d[0] == 'A' {
            BaseItem::Tshirt
        } else {
            BaseItem::FriedSnow
        }
    } else if d.len() == 34 {
        BaseItem::Shorts
    } else if d.len() == 22 {
        BaseItem::BaseballCap
    } else if d.len() == 36 {
        if d[0] == '"' {
            BaseItem::PropellerHat
        } else {
            BaseItem::BrassKnuckles
        }
    } else if d.len() == 50 {
        BaseItem::Sweater
    } else if d.len() == 49 {
        BaseItem::Hoodie
    } else if d.len() == 54 {
        BaseItem::LatexGlove
    } else if d.len() == 30 {
        BaseItem::CottonGlove
    } else if d.len() == 8 {
        BaseItem::LeatherGlove
    } else if d.len() == 40 {
        if d[0] == 'Y' {
            BaseItem::ArmSleeve
        } else {
            BaseItem::BladedBrassKnuckles
        }
    } else if d.len() == 44 {
        BaseItem::PaperKnife
    } else if d.len() == 89 {
        BaseItem::TreeStick
    } else if d.len() == 13 {
        BaseItem::SpikedBrassKnuckles
    } else if d.len() == 43 {
        BaseItem::Orangeberries
    } else if d.len() == 201 {
        BaseItem::PenPineappleApplePen
    } else if d.len() == 26 {
        BaseItem::HealthPotion
    } else if d.len() == 32 {
        BaseItem::Ramen
    } else if d.len() == 58 {
        BaseItem::CarolinaReaperRamen
    } else if d.len() == 70 {
        BaseItem::Milk
    } else if d.len() == 24 {
        BaseItem::Scarf
    } else {
        BaseItem::LeafHandful
    }
}

/// The descriptions are nonempty, and no two items share one.
pub proof fn lemma_descriptions_distinct(a: BaseItem, b: BaseItem)
    ensures
        a.spec_description().len() > 0,
        a != b ==> a.spec_description() != b.spec_description(),
{
    lemma_description_identifies(a);
    lemma_description_identifies(b);
}

/// Each description tells its item.
proof fn lemma_description_identifies(b: BaseItem)
    ensures
        b.spec_description().len() > 0,
        item_of_description(b.spec_description()) == b,
{
    match b {
        BaseItem::LeafHandful => reveal_strlit("It's a handful of leaves! Mind if I take some?"),
        BaseItem::LeafPile => reveal_strlit("Are you really just gonna ***leave*** them on the ground like that?"),
        BaseItem::LeafBucket => reveal_strlit("A bucket o' leaves."),
        BaseItem::LeafBarrel => reveal_strlit("Currency in an alcohol container."),
        BaseItem::LeafTruckload => reveal_strlit("So much leaves that you can swim in them!"),
        BaseItem::TankTop => reveal_strlit("Does not come with a turret."),
        BaseItem::Tshirt => reveal_strlit("A normal T-shirt. Luckily, you don't have to wash it everyday."),
        BaseItem::Sneaker => reveal_strlit("A shoe for your foot. Nothing remarkable."),
        BaseItem::Shorts => reveal_strlit("Too short for you? That's too bad."),
        BaseItem::BaseballCap => reveal_strlit("No cap, this is a cap."),
        BaseItem::PropellerHat => reveal_strlit("\"Become an attack helicopter today!\""),
        BaseItem::Sweater => reveal_strlit("A pink sweater, made by a grandma's love and care."),
        BaseItem::Hoodie => reveal_strlit("Gangster enough to give you some fighting spirit."),
        BaseItem::Jacket => reveal_strlit("Who is Jack why are they et."),
        BaseItem::Coat => reveal_strlit("Oh wait, that diamond on the zipper is fake..."),
        BaseItem::LatexGlove => reveal_strlit("You're not going to use it more than once, are you...?"),
        BaseItem::CottonGlove => reveal_strlit("Perfect for the winter season."),
        BaseItem::LeatherGlove => reveal_strlit("Gangsta."),
        BaseItem::ArmSleeve => reveal_strlit("Your best companion for normal workouts."),
        BaseItem::LegSleeve => reveal_strlit("Prevent shin splits"),
        BaseItem::PaperKnife => reveal_strlit("Don't underestimate the power of paper cuts."),
        BaseItem::TreeStick => reveal_strlit("Instead of using it as fire fuel, you're gonna swing it around like a madman, aren't you?"),
        BaseItem::BrassKnuckles => reveal_strlit("Dangerous if used in the wrong hands"),
        BaseItem::SpikedBrassKnuckles => reveal_strlit("Quite spikey."),
        BaseItem::BladedBrassKnuckles => reveal_strlit("Punch and cut at the same time. Win-win."),
        BaseItem::Orangeberries => reveal_strlit("Tastes exactly the opposite of blueberries."),
        BaseItem::PenPineappleApplePen => reveal_strlit("I don't have a pen\nI don't have an apple\nno apple pen!\nI don't have a pen\nI don't have pineapple\nno pineapple pen!\nNo apple pen, no pineaple pen, no pen pineapple apple pen!\nNo pen pineapple apple pen!"),
        BaseItem::HealthPotion => reveal_strlit("A classic consumable item."),
        BaseItem::InstantRamen => reveal_strlit("Don't tell me you're going to eat it dry?"),
        BaseItem::Ramen => reveal_strlit("Steaming hot, but not spicy hot."),
        BaseItem::CarolinaReaperRamen => reveal_strlit("You have a death wish if you want to eat this abomination."),
        BaseItem::Milk => reveal_strlit("Dad went to get milk, but never came back. Did you see him on the way?"),
        BaseItem::FriedSnow => reveal_strlit("It's got too much sentimental value to be eaten... or does it?"),
        BaseItem::Scarf => reveal_strlit("Scarfing down a snowman?"),
    }
}

impl Limb {
    /// The limb on the other side of the body; the head, the neck and the
    /// torso are their own.
    pub open spec fn spec_mirror(self) -> Limb {
        match self {
            Limb::Head => Limb::Head,
            Limb::Neck => Limb::Neck,
            Limb::Torso => Limb::Torso,
            Limb::LeftUpperArm => Limb::RightUpperArm,
            Limb::RightUpperArm => Limb::LeftUpperArm,
            Limb::LeftLowerArm => Limb::RightLowerArm,
            Limb::RightLowerArm => Limb::LeftLowerArm,
            Limb::LeftHand => Limb::RightHand,
            Limb::RightHand => Limb::LeftHand,
            Limb::LeftUpperLeg => Limb::RightUpperLeg,
            Limb::RightUpperLeg => Limb::LeftUpperLeg,
            Limb::LeftLowerLeg => Limb::RightLowerLeg,
            Limb::RightLowerLeg => Limb::LeftLowerLeg,
            Limb::LeftFoot => Limb::RightFoot,
            Limb::RightFoot => Limb::LeftFoot,
        }
    }
}

/// A sequence of limbs that holds none twice and, with each limb, the one on
/// the other side.
pub open spec fn paired_limbs(s: Seq<Limb>) -> bool {
    &&& s.no_duplicates()
    &&& forall|i: int| 0 <= i < s.len() ==> s.contains(#[trigger] s[i].spec_mirror())
}

proof fn lemma_paired_one(a: Limb)
    requires
        a.spec_mirror() == a,
    ensures
        paired_limbs(seq![a]),
{
    let s = seq![a];
    assert(s[0] == a);
}

proof fn lemma_paired_two(a: Limb, b: Limb)
    requires
        a != b,
        a.spec_mirror() == b,
        b.spec_mirror() == a,
    ensures
        paired_limbs(seq![a, b]),
{
    let s = seq![a, b];
    assert(s[0] == a && s[1] == b);
}

proof fn lemma_paired_arms(t: Limb, a: Limb, b: Limb, c: Limb, d: Limb, n: nat)
    requires
        t == Limb::Torso,
        a == Limb::LeftUpperArm,
        b == Limb::RightUpperArm,
        c == Limb::LeftLowerArm,
        d == Limb::RightLowerArm,
        n == 3 || n == 5,
    ensures
        paired_limbs(seq![t, a, b, c, d].take(n as int)),
{
    let s = seq![t, a, b, c, d].take(n as int);
    assert(s[0] == t && s[1] == a && s[2] == b);
    if n == 5 {
        assert(s[3] == c && s[4] == d);
    }
}

/// No item covers a limb twice, and an item covers a left limb exactly when it
/// covers the matching right one; only the head, the neck and the torso come
/// alone.
pub proof fn lemma_limbs_paired(b: BaseItem)
    ensures
        paired_limbs(b.spec_equipable_limbs()),
{
    let s = b.spec_equipable_limbs();
    let arms = seq![Limb::Torso, Limb::LeftUpperArm, Limb::RightUpperArm, Limb::LeftLowerArm, Limb::RightLowerArm];
    match b {
        BaseItem::TankTop => lemma_paired_one(Limb::Torso),
        BaseItem::Tshirt => {
            lemma_paired_arms(arms[0], arms[1], arms[2], arms[3], arms[4], 3);
            assert(s =~= arms.take(3));
        },
        BaseItem::Sweater | BaseItem::Hoodie | BaseItem::Jacket | BaseItem::Coat => {
            lemma_paired_arms(arms[0], arms[1], arms[2], arms[3], arms[4], 5);
            assert(s =~= arms.take(5));
        },
        BaseItem::Sneaker => lemma_paired_two(Limb::LeftFoot, Limb::RightFoot),
        BaseItem::Shorts => lemma_paired_two(Limb::LeftUpperLeg, Limb::RightUpperLeg),
        BaseItem::BaseballCap | BaseItem::PropellerHat => lemma_paired_one(Limb::Head),
        BaseItem::LatexGlove | BaseItem::CottonGlove | BaseItem::LeatherGlove => lemma_paired_two(
            Limb::LeftHand,
            Limb::RightHand,
        ),
        BaseItem::ArmSleeve => lemma_paired_two(Limb::LeftLowerArm, Limb::RightLowerArm),
        BaseItem::LegSleeve => lemma_paired_two(Limb::LeftLowerLeg, Limb::RightLowerLeg),
        BaseItem::Scarf => lemma_paired_one(Limb::Neck),
        _ => {
            assert(s.len() == 0);
        },
    }
}

/// The Leaf items, which the shop never offers.
pub open spec fn spec_leaf_items() -> Seq<BaseItem> {
    seq![BaseItem::LeafHandful, BaseItem::LeafPile, BaseItem::LeafBucket, BaseItem::LeafBarrel, BaseItem::LeafTruckload]
}

/// The equipments, the weapons, the consumables and the Leaf items together
/// name every item exactly once: 16, 5, 8 and 5 of the 34, none repeated.
pub proof fn lemma_shelves_partition(b: BaseItem)
    ensures
        ({
            let all = BaseItem::spec_equipments() + BaseItem::spec_weapons() + BaseItem::spec_consumables()
                + spec_leaf_items();
            &&& all.len() == 34
            &&& all.no_duplicates()
            &&& all.contains(b)
        }),
{
    let e = BaseItem::spec_equipments();
    let w = BaseItem::spec_weapons();
    let c = BaseItem::spec_consumables();
    let l = spec_leaf_items();
    lemma_shelves(b);
    assert(l[0] == BaseItem::LeafHandful && l[1] == BaseItem::LeafPile && l[2] == BaseItem::LeafBucket
        && l[3] == BaseItem::LeafBarrel && l[4] == BaseItem::LeafTruckload);
    assert forall|x: BaseItem| #[trigger] l.contains(x) implies x.spec_weight() == 0 by {
        let k = choose|k: int| 0 <= k < l.len() && l[k] == x;
        assert(l[k] == x);
    }
    assert(l.no_duplicates());
    assert forall|x: BaseItem| #[trigger] e.contains(x) || w.contains(x) || c.contains(x) implies x.spec_weight()
        > 0 by {
        lemma_shelves(x);
    }
    assert forall|x: BaseItem| !(#[trigger] e.contains(x) && w.contains(x)) && !(e.contains(x) && c.contains(x))
        && !(w.contains(x) && c.contains(x)) by {
        lemma_shelves(x);
    }
    vstd::seq_lib::lemma_no_dup_in_concat(e, w);
    vstd::seq_lib::lemma_no_dup_in_concat(e + w, c);
    vstd::seq_lib::lemma_no_dup_in_concat(e + w + c, l);
    let all = e + w + c + l;
    if b.spec_weight() == 0 {
        match b {
            BaseItem::LeafHandful => assert(all[29] == b),
            BaseItem::LeafPile => assert(all[30] == b),
            BaseItem::LeafBucket => assert(all[31] == b),
            BaseItem::LeafBarrel => assert(all[32] == b),
            BaseItem::LeafTruckload => assert(all[33] == b),
            _ => {},
        }
    } else {
        let s = if e.contains(b) { e } else if w.contains(b) { w } else { c };
        let k = choose|k: int| 0 <= k < s.len() && s[k] == b;
        if e.contains(b) {
            assert(all[k] == b);
        } else if w.contains(b) {
            assert(all[16 + k] == b);
        } else {
            assert(all[21 + k] == b);
        }
    }
}

} // verus!
