use manhuagui::dictionary::TokenDictionary;
use manhuagui::error::{Error, StructuralFault};
use manhuagui::keys::encode_key;
use manhuagui::manifest::{manifest_from_document, Credential};
use manhuagui::patterns::word_tokens;
use manhuagui::unpack::{extract_object, substitute_words, unpack_packed, weave_substituted};

fn words(list: &[&str]) -> Vec<String> {
    list.iter().map(|word| word.to_string()).collect()
}

#[test]
fn test_unpack_packed() {
    let frame = "SMH.imgData({\"0\":{\"1\":\"123\",\"2\":\"abc\"},\"3\":\"/comic/\",\"4\":[\"01.jpg\"]})";
    let a = 10;
    let c = 5;
    let data = vec![
        "sl".to_string(),
        "e".to_string(),
        "m".to_string(),
        "path".to_string(),
        "files".to_string(),
    ];

    let result = unpack_packed(frame, a, c, data).unwrap();

    assert_eq!(result.image_base_path, "/comic/");
    assert_eq!(result.files.len(), 1);
    assert_eq!(result.files[0], "01.jpg");

    if let Credential::Text(e) = &result.auth_e {
        assert_eq!(e, "123");
    } else {
        panic!("sl.e should be a string");
    }
    assert_eq!(result.auth_m, "abc");
}

#[test]
fn test_unpack_packed_invalid_base() {
    let frame = "{}";
    let a = 100;
    let c = 1;
    let data = vec!["dummy".to_string()];

    let result = unpack_packed(frame, a, c, data);
    assert!(result.is_err());
    let err_msg = result.unwrap_err().message();
    assert!(err_msg.contains("exceeds supported alphabet size"), "Error message was: {}", err_msg);
}

#[test]
fn test_re_word() {
    let caps = word_tokens("hello123world");
    assert_eq!(caps, vec!["hello123world"]);

    let caps = word_tokens("hello 123 world");
    assert_eq!(caps, vec!["hello", "123", "world"]);

    let caps = word_tokens("test_var_name");
    assert_eq!(caps, vec!["test_var_name"]);

    let caps = word_tokens("hello@world");
    assert_eq!(caps, vec!["hello", "world"]);
}

#[test]
fn test_re_json() {
    let text = "someFunc({\"key\":\"value\"})";
    let object = extract_object(text);
    assert_eq!(object.as_deref(), Some("{\"key\":\"value\"}"));

    let text = "SMH.imgData({\"0\":{\"1\":\"123\"},\"path\":\"/img/\"})";
    let json_str = extract_object(text).unwrap();
    assert!(json_str.contains("\"0\""));
    assert!(json_str.contains("\"path\""));

    assert!(extract_object("{}").is_none());
}

#[test]
fn test_json_regex_with_complex_data() {
    let js_code = "SMH.imgData({\"sl\": {\"e\": \"12345\", \"m\": \"abc\"}, \"path\": \"/img/path/\", \"files\": [\"01.jpg\", \"02.jpg\"]})";

    let object = extract_object(js_code);
    assert!(object.is_some());

    if let Some(json_str) = object {
        let parsed = manifest_from_document(&json_str);
        assert!(parsed.is_ok());

        if let Ok(value) = parsed {
            assert_eq!(value.auth_e, Credential::Text("12345".to_string()));
            assert_eq!(value.auth_m, "abc");
            assert_eq!(value.image_base_path, "/img/path/");
            assert_eq!(value.files, vec!["01.jpg", "02.jpg"]);
        }
    }
}

#[test]
fn keys_count_in_the_radix() {
    assert_eq!(encode_key(0, 62), "0");
    assert_eq!(encode_key(9, 62), "9");
    assert_eq!(encode_key(10, 62), "a");
    assert_eq!(encode_key(35, 62), "z");
    assert_eq!(encode_key(36, 62), "A");
    assert_eq!(encode_key(61, 62), "Z");
    assert_eq!(encode_key(62, 62), "10");
    assert_eq!(encode_key(62 * 62 - 1, 62), "ZZ");
    assert_eq!(encode_key(541, 62), "8J");
    assert_eq!(encode_key(35, 36), "z");
    assert_eq!(encode_key(36, 36), "10");
    assert_eq!(encode_key(5, 2), "101");
    assert_eq!(encode_key(255, 16), "ff");
}

#[test]
fn keys_of_a_dictionary_are_distinct() {
    for radix in [2usize, 10, 36, 37, 62] {
        let keys: Vec<String> = (0..500u64).map(|i| encode_key(i, radix)).collect();
        for i in 0..keys.len() {
            for j in 0..i {
                assert_ne!(keys[i], keys[j]);
            }
        }
    }
}

#[test]
fn every_entry_is_found_under_its_key() {
    let payload: Vec<String> = (0..200).map(|i| format!("word{}", i)).collect();
    let dictionary = TokenDictionary::decode(62, 200, &payload).unwrap();
    for i in 0..200u64 {
        assert_eq!(dictionary.substitute(&encode_key(i, 62)), format!("word{}", i));
    }
    assert_eq!(dictionary.substitute(&encode_key(200, 62)), encode_key(200, 62));
}

#[test]
fn empty_entry_stands_for_its_own_key() {
    let payload = words(&["zero", "", "two"]);
    let dictionary = TokenDictionary::decode(10, 3, &payload).unwrap();
    assert_eq!(dictionary.substitute("0"), "zero");
    assert_eq!(dictionary.substitute("1"), "1");
    assert_eq!(dictionary.substitute("2"), "two");
    assert_eq!(dictionary.substitute("3"), "3");
    assert_eq!(dictionary.substitute("zero"), "zero");
}

#[test]
fn dictionary_faults() {
    let payload = words(&["a", "b"]);
    assert_eq!(
        TokenDictionary::decode(63, 1, &payload).err(),
        Some(StructuralFault::RadixTooLarge { radix: 63 })
    );
    assert_eq!(
        TokenDictionary::decode(1, 2, &payload).err(),
        Some(StructuralFault::RadixTooSmall { radix: 1 })
    );
    assert_eq!(
        TokenDictionary::decode(0, 1, &payload).err(),
        Some(StructuralFault::RadixTooSmall { radix: 0 })
    );
    assert_eq!(
        TokenDictionary::decode(10, 3, &payload).err(),
        Some(StructuralFault::DictionaryTooShort { declared: 3, available: 2 })
    );
    assert_eq!(
        TokenDictionary::decode(100, 3, &payload).err(),
        Some(StructuralFault::RadixTooLarge { radix: 100 })
    );
    assert!(TokenDictionary::decode(62, 2, &payload).is_ok());
    assert!(TokenDictionary::decode(2, 2, &payload).is_ok());
    let empty = TokenDictionary::decode(100, 0, &payload).unwrap();
    assert_eq!(empty.substitute("0"), "0");
}

#[test]
fn large_radix_fails_for_every_dictionary_size() {
    let payload: Vec<String> = (0..50).map(|i| format!("w{}", i)).collect();
    for radix in [63usize, 64, 100, 1000, usize::MAX] {
        for count in 1..=50usize {
            let result = unpack_packed("0({\"1\":2})", radix, count, payload.clone());
            assert_eq!(result, Err(Error::Malformed(StructuralFault::RadixTooLarge { radix })));
        }
    }
}

#[test]
fn substitution_leaves_what_is_between_words() {
    let payload = words(&["alpha", "beta", ""]);
    let dictionary = TokenDictionary::decode(10, 3, &payload).unwrap();
    assert_eq!(substitute_words("0.1(2,'3');", &dictionary), "alpha.beta(2,'3');");
    assert_eq!(substitute_words("  ", &dictionary), "  ");
    assert_eq!(substitute_words("", &dictionary), "");
    assert_eq!(substitute_words("0", &dictionary), "alpha");
    assert_eq!(substitute_words("-0-", &dictionary), "-alpha-");
    assert_eq!(substitute_words("01 1_0 a1", &dictionary), "01 1_0 a1");
}

#[test]
fn weaving_puts_words_between_gaps() {
    let payload = words(&["alpha", "beta"]);
    let dictionary = TokenDictionary::decode(10, 2, &payload).unwrap();
    let gaps = words(&["<", "|", ">"]);
    assert_eq!(weave_substituted(&gaps, &words(&["0", "1"]), &dictionary), "<alpha|beta>");
    assert_eq!(weave_substituted(&gaps, &words(&["1", "x"]), &dictionary), "<beta|x>");
    assert_eq!(weave_substituted(&gaps, &words(&["0"]), &dictionary), "<alpha|>");
    assert_eq!(weave_substituted(&gaps, &words(&["0", "1", "0"]), &dictionary), "<alpha|beta>");
    assert_eq!(weave_substituted(&words(&["only"]), &words(&["0"]), &dictionary), "only");
    assert_eq!(weave_substituted(&words(&[]), &words(&["0"]), &dictionary), "");
}

#[test]
fn unpacking_is_repeatable() {
    let frame = "x({\"0\":{\"1\":7,\"2\":\"m\"},\"3\":\"/p/\",\"4\":[\"a.jpg\",\"b.jpg\"]})";
    let data = words(&["sl", "e", "m", "path", "files"]);
    let first = unpack_packed(frame, 10, 5, data.clone());
    let second = unpack_packed(frame, 10, 5, data.clone());
    assert_eq!(first, second);
    let manifest = first.unwrap();
    assert_eq!(manifest.auth_e, Credential::Number("7".to_string()));
    assert_eq!(manifest.auth_e.text(), "7");
    assert_eq!(manifest.files, vec!["a.jpg", "b.jpg"]);

    let broken = unpack_packed("no object here", 10, 5, data.clone());
    assert_eq!(broken, unpack_packed("no object here", 10, 5, data));
    assert_eq!(broken, Err(Error::Malformed(StructuralFault::ObjectMissing)));
}

#[test]
fn unpack_failures_are_told_apart() {
    let data = words(&["sl", "e", "m", "path", "files"]);
    assert_eq!(
        unpack_packed("x(1)", 10, 5, data.clone()),
        Err(Error::Malformed(StructuralFault::ObjectMissing))
    );
    assert_eq!(
        unpack_packed("x({not json})", 10, 5, data.clone()),
        Err(Error::Malformed(StructuralFault::DocumentInvalid))
    );
    assert_eq!(
        unpack_packed("x({\"0\":{\"1\":1,\"2\":\"m\"},\"3\":\"/p/\"})", 10, 5, data.clone()),
        Err(Error::Malformed(StructuralFault::DocumentInvalid))
    );
    assert_eq!(
        unpack_packed("x({\"0\":{\"1\":1,\"2\":\"m\"},\"3\":\"/p/\",\"4\":[\"a\",2]})", 10, 5, data.clone()),
        Err(Error::Malformed(StructuralFault::DocumentInvalid))
    );
    assert_eq!(
        unpack_packed("x({\"0\":{\"1\":true,\"2\":\"m\"},\"3\":\"/p/\",\"4\":[]})", 10, 5, data.clone()),
        Err(Error::Malformed(StructuralFault::CredentialKind))
    );
    assert_eq!(
        unpack_packed("x({\"0\":{\"1\":null,\"2\":\"m\"},\"3\":\"/p/\",\"4\":[]})", 10, 5, data.clone()),
        Err(Error::Malformed(StructuralFault::CredentialKind))
    );
    assert_eq!(
        unpack_packed("x({\"0\":{\"1\":1,\"2\":\"m\"},\"3\":\"/p/\",\"4\":[]})", 10, 6, data),
        Err(Error::Malformed(StructuralFault::DictionaryTooShort { declared: 6, available: 5 }))
    );
}

#[test]
fn the_last_object_of_a_script_is_taken() {
    assert_eq!(extract_object("a({\"x\":1}) b({\"y\":2})").as_deref(), Some("{\"y\":2}"));
    assert_eq!(extract_object("f({}) trailing").as_deref(), Some("{}"));
    assert_eq!(extract_object("({"), None);
}

#[test]
fn documents_are_read_by_field() {
    let manifest = manifest_from_document(
        "{\"files\":[\"1.jpg\",\"2.jpg\",\"3.jpg\"],\"path\":\"/a/\",\"sl\":{\"e\":1700000000,\"m\":\"sig\"},\"extra\":null}",
    )
    .unwrap();
    assert_eq!(manifest.auth_e, Credential::Number("1700000000".to_string()));
    assert_eq!(manifest.auth_m, "sig");
    assert_eq!(manifest.image_base_path, "/a/");
    assert_eq!(manifest.files, vec!["1.jpg", "2.jpg", "3.jpg"]);

    let twelve: Vec<String> = (0..12).map(|i| format!("\"{}.jpg\"", i)).collect();
    let text = format!("{{\"files\":[{}],\"path\":\"\",\"sl\":{{\"e\":\"\",\"m\":\"\"}}}}", twelve.join(","));
    let manifest = manifest_from_document(&text).unwrap();
    assert_eq!(manifest.files.len(), 12);
    assert_eq!(manifest.files[10], "10.jpg");
    assert_eq!(manifest.files[11], "11.jpg");

    assert_eq!(manifest_from_document(""), Err(StructuralFault::DocumentInvalid));
    assert_eq!(manifest_from_document("[]"), Err(StructuralFault::DocumentInvalid));
    assert_eq!(
        manifest_from_document("{\"files\":[],\"path\":\"\",\"sl\":{\"m\":\"\"}}"),
        Err(StructuralFault::DocumentInvalid)
    );
    assert_eq!(
        manifest_from_document("{\"files\":[],\"path\":1,\"sl\":{\"e\":[],\"m\":\"\"}}"),
        Err(StructuralFault::DocumentInvalid)
    );
    assert_eq!(
        manifest_from_document("{\"files\":[],\"path\":\"\",\"sl\":{\"e\":[],\"m\":\"\"}}"),
        Err(StructuralFault::CredentialKind)
    );
}

#[test]
fn messages_name_the_fault() {
    assert_eq!(
        StructuralFault::RadixTooLarge { radix: 100 }.message(),
        "Radix 100 exceeds supported alphabet size (62)"
    );
    assert_eq!(
        Error::Malformed(StructuralFault::CredentialKind).message(),
        "Content parsing error: sl.e is not a string or number"
    );
    assert_eq!(Error::InvalidReference.message(), "Invalid manhuagui URL or ID");
    assert_eq!(
        Error::IncompleteTransfer { expected: 1024, written: 512 }.message(),
        "Incomplete transfer: expected 1024 bytes, wrote 512"
    );
    assert_eq!(Error::Network { status: 404 }.message(), "Network request error: status 404");
}
