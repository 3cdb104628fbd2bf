use fake_faucet::chain::bytes_to_array32;
use fake_faucet::contract::{job_id_json, JobId};
use fake_faucet::metadata::{push_json_metadata, push_json_extension, Metadata};
use fake_faucet::neon_peepz::{NeonPeepzExtension, RandomNP};
use fake_faucet::text::{push_json_string, u32_to_decimal};

fn json_of(s: &str) -> String {
    let mut out = String::new();
    push_json_string(&mut out, s);
    out
}

#[test]
fn decimal_text() {
    assert_eq!(u32_to_decimal(0), "0");
    assert_eq!(u32_to_decimal(7), "7");
    assert_eq!(u32_to_decimal(10), "10");
    assert_eq!(u32_to_decimal(1234567890), "1234567890");
    assert_eq!(u32_to_decimal(u32::MAX), u32::MAX.to_string());
}

#[test]
fn json_strings_match_serde_json_wasm() {
    for s in ["", "plain", "a\"b", "back\\slash", "tab\tnew\nline\r", "\u{1}\u{8}\u{c}\u{1f}", "ünïcødé ✓", "\u{7f}"] {
        assert_eq!(json_of(s), serde_json_wasm::to_string(s).unwrap(), "{:?}", s);
    }
    assert_eq!(json_of("\u{1f}"), "\"\\u001F\"");
}

#[test]
fn job_id_text() {
    let job = JobId { ad: "juno1xyz".to_string(), id: 42 };
    assert_eq!(job_id_json(&job), "{\"ad\":\"juno1xyz\",\"id\":42}");
}

#[test]
fn metadata_json() {
    let m = Metadata { name: Some("N".to_string()), ..Metadata::default() };
    let mut out = String::new();
    push_json_metadata(&mut out, &m);
    assert_eq!(
        out,
        "{\"name\":\"N\",\"image\":null,\"description\":null,\"attributes\":null,\"image_data\":null,\"external_url\":null,\"background_color\":null,\"animation_url\":null,\"youtube_url\":null}"
    );
    let mut none = String::from("x");
    push_json_extension(&mut none, &None);
    assert_eq!(none, "xnull");
}

#[test]
fn legend_metadata_json() {
    let mut out = String::new();
    push_json_extension(&mut out, &NeonPeepzExtension::bot_legend());
    assert!(out.starts_with("{\"name\":\"Legendary Bot\",\"image\":\"https://"));
    assert!(out.contains(",\"description\":\"NeoNPeePz Collection\",\"attributes\":[{\"display_type\":null,\"trait_type\":\"Archetype\",\"value\":\"Deity\"},{\"display_type\":null,\"trait_type\":\"Class\",\"value\":\"Robotic\"},{\"display_type\":null,\"trait_type\":\"Weapon\",\"value\":\"Laser Face\"}],\"image_data\":null"));
    assert!(out.ends_with(",\"youtube_url\":null}"));
}

#[test]
fn job_id_texts_differ_per_job() {
    let a = job_id_json(&JobId { ad: "juno1a".to_string(), id: 1 });
    let b = job_id_json(&JobId { ad: "juno1a".to_string(), id: 11 });
    let c = job_id_json(&JobId { ad: "juno1a\",\"id\":1".to_string(), id: 1 });
    assert_ne!(a, b);
    assert_ne!(a, c);
    assert_eq!(c, "{\"ad\":\"juno1a\\\",\\\"id\\\":1\",\"id\":1}");
}

#[test]
fn randomness_bytes_to_array() {
    let v: Vec<u8> = (0u8..32).collect();
    let a = bytes_to_array32(&v).unwrap();
    assert_eq!(a.to_vec(), v);
    assert_eq!(bytes_to_array32(&vec![0u8; 33]), None);
    assert_eq!(bytes_to_array32(&vec![]), None);
}
