//! The NeoNPeePz collection: three legendary tokens and four common
//! peeps picked by two traits.
use vstd::prelude::*;
use crate::metadata::{
    collection_item, extension_view, make_item, make_trait, plain_trait, Metadata, MetadataView,
};

verus! {

/// The extension that a NeoNPeePz token carries.
pub type NeonPeepzExtension = Option<Metadata>;

/// The legendary Bot: a robot deity.
pub open spec fn spec_bot_legend() -> MetadataView {
    collection_item(
        "Legendary Bot"@,
        "https://bafybeihpieunve4hqyohwcqx7l3sxrm6b6b2m2rzn4r2h62fxrecek64pi.ipfs.nftstorage.link/NeoNPeePz/legendary_bot.png"@,
        "NeoNPeePz Collection"@,
        plain_trait("Archetype"@, "Deity"@),
        plain_trait("Class"@, "Robotic"@),
        plain_trait("Weapon"@, "Laser Face"@),
    )
}

/// The legendary Fairy: a celestial deity.
pub open spec fn spec_fairy_legend() -> MetadataView {
    collection_item(
        "Legendary Fairy"@,
        "https://bafybeihpieunve4hqyohwcqx7l3sxrm6b6b2m2rzn4r2h62fxrecek64pi.ipfs.nftstorage.link/NeoNPeePz/legendary_fairy.png"@,
        "NeoNPeePz Collection"@,
        plain_trait("Archetype"@, "Deity"@),
        plain_trait("Class"@, "Celestial"@),
        plain_trait("Weapon"@, "Arcane Bolt"@),
    )
}

/// The legendary Demon: a cursed deity.
pub open spec fn spec_denom_legend() -> MetadataView {
    collection_item(
        "Legendary Demon"@,
        "https://bafybeihpieunve4hqyohwcqx7l3sxrm6b6b2m2rzn4r2h62fxrecek64pi.ipfs.nftstorage.link/NeoNPeePz/legendary_demon.png"@,
        "NeoNPeePz Collection"@,
        plain_trait("Archetype"@, "Deity"@),
        plain_trait("Class"@, "Cursed"@),
        plain_trait("Weapon"@, "Drain Life"@),
    )
}

/// A common peep. `trait1` picks the class (1: Mage, otherwise Warrior) and
/// `trait2` the archetype (1: Hero, otherwise Villain).
pub open spec fn spec_rand_peep(trait1: u32, trait2: u32) -> MetadataView {
    if trait1 == 1 {
        if trait2 == 1 {
            collection_item(
                "Hero-Mage"@,
                "https://bafybeihpieunve4hqyohwcqx7l3sxrm6b6b2m2rzn4r2h62fxrecek64pi.ipfs.nftstorage.link/NeoNPeePz/hero_mage.png"@,
                "NeoNPeepz Collection"@,
                plain_trait("Archetype"@, "Hero"@),
                plain_trait("Class"@, "Mage"@),
                plain_trait("Weapon"@, "Cracked Staff"@),
            )
        } else {
            collection_item(
                "Villain-Mage"@,
                "https://bafybeihpieunve4hqyohwcqx7l3sxrm6b6b2m2rzn4r2h62fxrecek64pi.ipfs.nftstorage.link/NeoNPeePz/villian_mage.png"@,
                "NeoNPeepz Collection"@,
                plain_trait("Archetype"@, "Villain"@),
                plain_trait("Class"@, "Mage"@),
                plain_trait("Weapon"@, "Cracked Staff"@),
            )
        }
    } else {
        if trait2 == 1 {
            collection_item(
                "Hero-Warrior"@,
                "https://bafybeihpieunve4hqyohwcqx7l3sxrm6b6b2m2rzn4r2h62fxrecek64pi.ipfs.nftstorage.link/NeoNPeePz/hero_warrior.png"@,
                "NeoNPeepz Collection"@,
                plain_trait("Archetype"@, "Hero"@),
                plain_trait("Class"@, "Warrior"@),
                plain_trait("Weapon"@, "Dull Blade"@),
            )
        } else {
            collection_item(
                "Villain-Warrior"@,
                "https://bafybeihpieunve4hqyohwcqx7l3sxrm6b6b2m2rzn4r2h62fxrecek64pi.ipfs.nftstorage.link/NeoNPeePz/villian_warrior.png"@,
                "NeoNPeepz Collection"@,
                plain_trait("Archetype"@, "Villain"@),
                plain_trait("Class"@, "Warrior"@),
                plain_trait("Weapon"@, "Dull Blade"@),
            )
        }
    }
}

/// Metadata of the NeoNPeePz tokens.
pub trait RandomNP {
    fn bot_legend() -> NeonPeepzExtension;

    fn fairy_legend() -> NeonPeepzExtension;

    fn denom_legend() -> NeonPeepzExtension;

    fn rand_peep(trait1: u32, trait2: u32) -> NeonPeepzExtension;
}

impl RandomNP for NeonPeepzExtension {
    fn bot_legend() -> (r: NeonPeepzExtension)
        ensures
            extension_view(r) == Some(spec_bot_legend()),
    {
        Some(
            make_item(
                "Legendary Bot",
                "https://bafybeihpieunve4hqyohwcqx7l3sxrm6b6b2m2rzn4r2h62fxrecek64pi.ipfs.nftstorage.link/NeoNPeePz/legendary_bot.png",
                "NeoNPeePz Collection",
                make_trait("Archetype", "Deity"),
                make_trait("Class", "Robotic"),
                make_trait("Weapon", "Laser Face"),
            ),
        )
    }

    fn fairy_legend() -> (r: NeonPeepzExtension)
        ensures
            extension_view(r) == Some(spec_fairy_legend()),
    {
        Some(
            make_item(
                "Legendary Fairy",
                "https://bafybeihpieunve4hqyohwcqx7l3sxrm6b6b2m2rzn4r2h62fxrecek64pi.ipfs.nftstorage.link/NeoNPeePz/legendary_fairy.png",
                "NeoNPeePz Collection",
                make_trait("Archetype", "Deity"),
                make_trait("Class", "Celestial"),
                make_trait("Weapon", "Arcane Bolt"),
            ),
        )
    }

    fn denom_legend() -> (r: NeonPeepzExtension)
        ensures
            extension_view(r) == Some(spec_denom_legend()),
    {
        Some(
            make_item(
                "Legendary Demon",
                "https://bafybeihpieunve4hqyohwcqx7l3sxrm6b6b2m2rzn4r2h62fxrecek64pi.ipfs.nftstorage.link/NeoNPeePz/legendary_demon.png",
                "NeoNPeePz Collection",
                make_trait("Archetype", "Deity"),
                make_trait("Class", "Cursed"),
                make_trait("Weapon", "Drain Life"),
            ),
        )
    }

    fn rand_peep(trait1: u32, trait2: u32) -> (r: NeonPeepzExtension)
        ensures
            extension_view(r) == Some(spec_rand_peep(trait1, trait2)),
    {
        let m = if trait1 == 1 {
            if trait2 == 1 {
                make_item(
                    "Hero-Mage",
                    "https://bafybeihpieunve4hqyohwcqx7l3sxrm6b6b2m2rzn4r2h62fxrecek64pi.ipfs.nftstorage.link/NeoNPeePz/hero_mage.png",
                    "NeoNPeepz Collection",
                    make_trait("Archetype", "Hero"),
                    make_trait("Class", "Mage"),
                    make_trait("Weapon", "Cracked Staff"),
                )
            } else {
                make_item(
                    "Villain-Mage",
                    "https://bafybeihpieunve4hqyohwcqx7l3sxrm6b6b2m2rzn4r2h62fxrecek64pi.ipfs.nftstorage.link/NeoNPeePz/villian_mage.png",
                    "NeoNPeepz Collection",
                    make_trait("Archetype", "Villain"),
                    make_trait("Class", "Mage"),
                    make_trait("Weapon", "Cracked Staff"),
                )
            }
        } else {
            if trait2 == 1 {
                make_item(
                    "Hero-Warrior",
                    "https://bafybeihpieunve4hqyohwcqx7l3sxrm6b6b2m2rzn4r2h62fxrecek64pi.ipfs.nftstorage.link/NeoNPeePz/hero_warrior.png",
                    "NeoNPeepz Collection",
                    make_trait("Archetype", "Hero"),
                    make_trait("Class", "Warrior"),
                    make_trait("Weapon", "Dull Blade"),
                )
            } else {
                make_item(
                    "Villain-Warrior",
                    "https://bafybeihpieunve4hqyohwcqx7l3sxrm6b6b2m2rzn4r2h62fxrecek64pi.ipfs.nftstorage.link/NeoNPeePz/villian_warrior.png",
                    "NeoNPeepz Collection",
                    make_trait("Archetype", "Villain"),
                    make_trait("Class", "Warrior"),
                    make_trait("Weapon", "Dull Blade"),
                )
            }
        };
        Some(m)
    }
}

} // verus!
