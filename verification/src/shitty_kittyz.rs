//! The ShittyKittyz collection: one legendary kitty and three common fur
//! colours.
use vstd::prelude::*;
use crate::metadata::{
    collection_item, extension_view, make_item, make_trait, plain_trait, Metadata, MetadataView,
};

verus! {

/// The extension that a ShittyKittyz token carries.
pub type ShittyKittyzExtension = Option<Metadata>;

/// The legendary kitty, with galactic fur.
pub open spec fn spec_legendary_sk() -> MetadataView {
    collection_item(
        "Interstellar Pooper"@,
        "https://bafybeig3irsnosywnthdhgfslvmtum7wwkdcatzojji7pjpnamzjoevff4.ipfs.nftstorage.link/ShittyKittyz/sk_galactic.png"@,
        "ShittyKittyz Collection"@,
        plain_trait("Fur"@, "Galactic"@),
        plain_trait("Background"@, "Rainbow"@),
        plain_trait("Rarity"@, "Epic"@),
    )
}

/// A common kitty: fur colour 1 is brown, 2 is gray, any other orange.
pub open spec fn spec_common_sk(fur: u32) -> MetadataView {
    if fur == 1 {
        collection_item(
            "Basic Pooper"@,
            "https://bafybeig3irsnosywnthdhgfslvmtum7wwkdcatzojji7pjpnamzjoevff4.ipfs.nftstorage.link/ShittyKittyz/sk_brown.png"@,
            "ShittyKittyz Collection"@,
            plain_trait("Fur"@, "Brown"@),
            plain_trait("Background"@, "Poo-Green"@),
            plain_trait("Rarity"@, "Common"@),
        )
    } else if fur == 2 {
        collection_item(
            "Basic Pooper"@,
            "https://bafybeig3irsnosywnthdhgfslvmtum7wwkdcatzojji7pjpnamzjoevff4.ipfs.nftstorage.link/ShittyKittyz/sk_gray.png"@,
            "ShittyKittyz Collection"@,
            plain_trait("Fur"@, "Gray"@),
            plain_trait("Background"@, "Poo-Green"@),
            plain_trait("Rarity"@, "Common"@),
        )
    } else {
        collection_item(
            "Basic Pooper"@,
            "https://bafybeig3irsnosywnthdhgfslvmtum7wwkdcatzojji7pjpnamzjoevff4.ipfs.nftstorage.link/ShittyKittyz/sk_orange.png"@,
            "ShittyKittyz Collection"@,
            plain_trait("Fur"@, "Orange"@),
            plain_trait("Background"@, "Poo-Green"@),
            plain_trait("Rarity"@, "Common"@),
        )
    }
}

/// The fur colour that the last decimal digit of a block height gives:
/// brown for 1, 5, 8; gray for 2, 4, 9, 0; orange for 3, 6, 7.
pub open spec fn fur_for_digit(d: nat) -> u32 {
    if d == 1 || d == 5 || d == 8 {
        1
    } else if d == 2 || d == 4 || d == 9 || d == 0 {
        2
    } else {
        3
    }
}

/// The kitty minted at a block height: the legendary one when the height's
/// last two decimal digits are 33, otherwise the common kitty whose fur the
/// last digit gives.
pub open spec fn spec_kitty_for_height(blockheight: u64) -> MetadataView {
    if blockheight % 100 == 33 {
        spec_legendary_sk()
    } else {
        spec_common_sk(fur_for_digit((blockheight % 10) as nat))
    }
}

/// Metadata of the ShittyKittyz tokens.
pub trait RandomSK {
    /// Panics on a block height of one decimal digit.
    fn rand_metadata_extension_skittyz(blockheight: u64) -> ShittyKittyzExtension
        requires
            blockheight >= 10,
    ;

    fn rand_common_sk_metadata(furcolortrait: u32) -> ShittyKittyzExtension;

    fn legendary_sk_metadata() -> ShittyKittyzExtension;
}

impl RandomSK for ShittyKittyzExtension {
    fn rand_metadata_extension_skittyz(blockheight: u64) -> (r: ShittyKittyzExtension)
        ensures
            extension_view(r) == Some(spec_kitty_for_height(blockheight)),
    {
        if blockheight % 100 == 33 {
            return Self::legendary_sk_metadata();
        }
        let last = blockheight % 10;
        let fur: u32 = if last == 1 || last == 5 || last == 8 {
            1
        } else if last == 2 || last == 4 || last == 9 || last == 0 {
            2
        } else {
            3
        };
        Self::rand_common_sk_metadata(fur)
    }

    fn rand_common_sk_metadata(furcolortrait: u32) -> (r: ShittyKittyzExtension)
        ensures
            extension_view(r) == Some(spec_common_sk(furcolortrait)),
    {
        let m = if furcolortrait == 1 {
            make_item(
                "Basic Pooper",
                "https://bafybeig3irsnosywnthdhgfslvmtum7wwkdcatzojji7pjpnamzjoevff4.ipfs.nftstorage.link/ShittyKittyz/sk_brown.png",
                "ShittyKittyz Collection",
                make_trait("Fur", "Brown"),
                make_trait("Background", "Poo-Green"),
                make_trait("Rarity", "Common"),
            )
        } else if furcolortrait == 2 {
            make_item(
                "Basic Pooper",
                "https://bafybeig3irsnosywnthdhgfslvmtum7wwkdcatzojji7pjpnamzjoevff4.ipfs.nftstorage.link/ShittyKittyz/sk_gray.png",
                "ShittyKittyz Collection",
                make_trait("Fur", "Gray"),
                make_trait("Background", "Poo-Green"),
                make_trait("Rarity", "Common"),
            )
        } else {
            make_item(
                "Basic Pooper",
                "https://bafybeig3irsnosywnthdhgfslvmtum7wwkdcatzojji7pjpnamzjoevff4.ipfs.nftstorage.link/ShittyKittyz/sk_orange.png",
                "ShittyKittyz Collection",
                make_trait("Fur", "Orange"),
                make_trait("Background", "Poo-Green"),
                make_trait("Rarity", "Common"),
            )
        };
        Some(m)
    }

    fn legendary_sk_metadata() -> (r: ShittyKittyzExtension)
        ensures
            extension_view(r) == Some(spec_legendary_sk()),
    {
        Some(
            make_item(
                "Interstellar Pooper",
                "https://bafybeig3irsnosywnthdhgfslvmtum7wwkdcatzojji7pjpnamzjoevff4.ipfs.nftstorage.link/ShittyKittyz/sk_galactic.png",
                "ShittyKittyz Collection",
                make_trait("Fur", "Galactic"),
                make_trait("Background", "Rainbow"),
                make_trait("Rarity", "Epic"),
            ),
        )
    }
}

} // verus!
