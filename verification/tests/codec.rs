//! The cache value encoding: exact wire shapes, round trips, and the
//! rejection of malformed text.

use swanky_persist::record::Record;
use swanky_persist::records::DemoStruct;

fn demo(id: &str, name: &str, description: &str) -> DemoStruct {
    DemoStruct {
        id: id.to_string(),
        name: name.to_string(),
        description: description.to_string(),
    }
}

#[test]
fn encode_exact_shape() {
    assert_eq!(demo("a", "b", "c").encode(), "1:a1:b1:c");
    assert_eq!(demo("", "", "").encode(), "0:0:0:");
    assert_eq!(demo("id_1", "Demo", "d0").encode(), "4:id_14:Demo2:d0");
    assert_eq!(
        demo("0123456789", "x", "y").encode(),
        "10:01234567891:x1:y"
    );
}

#[test]
fn decode_inverts_encode() {
    let cases = [
        demo("id_1", "Demo", "d0"),
        demo("", "", ""),
        demo("a:b", "with:colons:", ":"),
        demo("12:34", "5:", "67:890"),
        demo("käse", "日本語", "naïve"),
    ];
    for r in cases {
        let text = r.encode();
        assert_eq!(DemoStruct::decode(&text), Some(r));
    }
}

#[test]
fn decode_exact_value() {
    let got = DemoStruct::decode("4:id_14:Demo2:d0").unwrap();
    assert_eq!(got, demo("id_1", "Demo", "d0"));
}

#[test]
fn decode_rejects_malformed() {
    assert_eq!(DemoStruct::decode(""), None);
    assert_eq!(DemoStruct::decode("garbage"), None);
    assert_eq!(DemoStruct::decode(":"), None);
    assert_eq!(DemoStruct::decode("1:a"), None);
    assert_eq!(DemoStruct::decode("1:a1:b"), None);
    assert_eq!(DemoStruct::decode("1:a1:b9:c"), None);
    assert_eq!(DemoStruct::decode("1:a1:b1:cd"), None);
    assert_eq!(DemoStruct::decode("x:a1:b1:c"), None);
    assert_eq!(DemoStruct::decode("99999999999999999999999999:a1:b1:c"), None);
}

#[test]
fn decode_accepts_padded_lengths() {
    // A length prefix with leading zeros is not what `encode` emits, but
    // it reads unambiguously.
    assert_eq!(DemoStruct::decode("01:a1:b1:c"), Some(demo("a", "b", "c")));
}
