use fake_faucet::metadata::{Metadata, Trait};
use fake_faucet::neon_peepz::{NeonPeepzExtension, RandomNP};
use fake_faucet::shitty_kittyz::{RandomSK, ShittyKittyzExtension};
use fake_faucet::utils::{generate_np_metadata, generate_sk_metadata};

fn traits(m: &Metadata) -> Vec<(String, String)> {
    m.attributes
        .as_ref()
        .unwrap()
        .iter()
        .map(|t: &Trait| {
            assert_eq!(t.display_type, None);
            (t.trait_type.clone(), t.value.clone())
        })
        .collect()
}

fn pairs(v: &[(&str, &str)]) -> Vec<(String, String)> {
    v.iter().map(|(a, b)| (a.to_string(), b.to_string())).collect()
}

#[test]
fn default_metadata_is_empty() {
    let m = Metadata::default();
    assert_eq!(m.name, None);
    assert_eq!(m.attributes, None);
    assert_eq!(m.youtube_url, None);
}

#[test]
fn bot_legend_metadata() {
    let m = NeonPeepzExtension::bot_legend().unwrap();
    assert_eq!(m.name.as_deref(), Some("Legendary Bot"));
    assert_eq!(
        m.image.as_deref(),
        Some("https://bafybeihpieunve4hqyohwcqx7l3sxrm6b6b2m2rzn4r2h62fxrecek64pi.ipfs.nftstorage.link/NeoNPeePz/legendary_bot.png")
    );
    assert_eq!(m.description.as_deref(), Some("NeoNPeePz Collection"));
    assert_eq!(traits(&m), pairs(&[("Archetype", "Deity"), ("Class", "Robotic"), ("Weapon", "Laser Face")]));
    assert_eq!(m.image_data, None);
    assert_eq!(m.external_url, None);
}

#[test]
fn fairy_and_demon_legends() {
    let f = NeonPeepzExtension::fairy_legend().unwrap();
    assert_eq!(f.name.as_deref(), Some("Legendary Fairy"));
    assert_eq!(traits(&f), pairs(&[("Archetype", "Deity"), ("Class", "Celestial"), ("Weapon", "Arcane Bolt")]));
    let d = NeonPeepzExtension::denom_legend().unwrap();
    assert_eq!(d.name.as_deref(), Some("Legendary Demon"));
    assert!(d.image.as_deref().unwrap().ends_with("/NeoNPeePz/legendary_demon.png"));
    assert_eq!(traits(&d), pairs(&[("Archetype", "Deity"), ("Class", "Cursed"), ("Weapon", "Drain Life")]));
}

#[test]
fn rand_peep_picks_class_and_archetype() {
    let hm = NeonPeepzExtension::rand_peep(1, 1).unwrap();
    assert_eq!(hm.name.as_deref(), Some("Hero-Mage"));
    assert_eq!(hm.description.as_deref(), Some("NeoNPeepz Collection"));
    assert_eq!(traits(&hm), pairs(&[("Archetype", "Hero"), ("Class", "Mage"), ("Weapon", "Cracked Staff")]));
    let vm = NeonPeepzExtension::rand_peep(1, 2).unwrap();
    assert_eq!(vm.name.as_deref(), Some("Villain-Mage"));
    assert!(vm.image.as_deref().unwrap().ends_with("/villian_mage.png"));
    let hw = NeonPeepzExtension::rand_peep(2, 1).unwrap();
    assert_eq!(hw.name.as_deref(), Some("Hero-Warrior"));
    assert_eq!(traits(&hw)[2], ("Weapon".to_string(), "Dull Blade".to_string()));
    let vw = NeonPeepzExtension::rand_peep(7, 0).unwrap();
    assert_eq!(vw.name.as_deref(), Some("Villain-Warrior"));
}

#[test]
fn kitty_by_block_height() {
    let legend = ShittyKittyzExtension::rand_metadata_extension_skittyz(1233).unwrap();
    assert_eq!(legend.name.as_deref(), Some("Interstellar Pooper"));
    assert_eq!(traits(&legend), pairs(&[("Fur", "Galactic"), ("Background", "Rainbow"), ("Rarity", "Epic")]));
    let also_legend = ShittyKittyzExtension::rand_metadata_extension_skittyz(33).unwrap();
    assert_eq!(also_legend, legend);
    let brown = ShittyKittyzExtension::rand_metadata_extension_skittyz(105).unwrap();
    assert_eq!(traits(&brown)[0].1, "Brown");
    assert_eq!(brown.name.as_deref(), Some("Basic Pooper"));
    let gray = ShittyKittyzExtension::rand_metadata_extension_skittyz(10).unwrap();
    assert_eq!(traits(&gray)[0].1, "Gray");
    let orange = ShittyKittyzExtension::rand_metadata_extension_skittyz(43).unwrap();
    assert_eq!(traits(&orange)[0].1, "Orange");
    assert_eq!(traits(&orange)[2].1, "Common");
    assert!(orange.image.as_deref().unwrap().ends_with("/ShittyKittyz/sk_orange.png"));
}

#[test]
fn common_kitty_by_fur() {
    assert_eq!(traits(&ShittyKittyzExtension::rand_common_sk_metadata(1).unwrap())[0].1, "Brown");
    assert_eq!(traits(&ShittyKittyzExtension::rand_common_sk_metadata(2).unwrap())[0].1, "Gray");
    assert_eq!(traits(&ShittyKittyzExtension::rand_common_sk_metadata(3).unwrap())[0].1, "Orange");
    let l = ShittyKittyzExtension::legendary_sk_metadata().unwrap();
    assert_eq!(l.description.as_deref(), Some("ShittyKittyz Collection"));
}

#[test]
fn generate_metadata_by_catch_number() {
    assert_eq!(generate_np_metadata(111, 1, 1), NeonPeepzExtension::bot_legend());
    assert_eq!(generate_np_metadata(222, 1, 1), NeonPeepzExtension::fairy_legend());
    assert_eq!(generate_np_metadata(333, 2, 2), NeonPeepzExtension::denom_legend());
    assert_eq!(generate_np_metadata(112, 2, 1), NeonPeepzExtension::rand_peep(2, 1));
    assert_eq!(generate_sk_metadata(333, 1), ShittyKittyzExtension::legendary_sk_metadata());
    assert_eq!(generate_sk_metadata(332, 2), ShittyKittyzExtension::rand_common_sk_metadata(2));
}
