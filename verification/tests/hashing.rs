use no_cap::blockchain::block::Block;
use no_cap::types::blockchain::{
    ActionType, EvaluationResult, EvaluationVote, ModelModification, ModelParameters, PayloadData,
    Transaction, VoteVerdict,
};
use no_cap::types::time::Timestamp;
use no_cap::utils::hasher::{block_hasher, hasher, transaction_serialize, transactions_hasher};
use no_cap::utils::json::{is_number_text, JsonNumber};
use no_cap::utils::text::decimal_text;

fn plain(agent: &str, signature: &str, reasoning: &str, action: ActionType, text: &str) -> Transaction {
    Transaction {
        agent_id: agent.to_string(),
        signature: signature.to_string(),
        reasoning_hash: reasoning.to_string(),
        action_type: action,
        payload: PayloadData {
            model_modification: None,
            model_parameters: None,
            evaluation_result: None,
            description: text.to_string(),
        },
    }
}

fn at(secs: i64, nanos: u32) -> Timestamp {
    Timestamp::new(secs, nanos).unwrap()
}

fn unsealed(index: u32, prev_hash: &str, transactions: Vec<Transaction>, made: Timestamp) -> Block {
    Block::new_at(index, prev_hash.to_string(), transactions, made)
}

const PROPOSAL_JSON: &str = "{\"agent_id\":\"A\",\"signature\":\"sigA\",\"reasoning_hash\":\"r1\",\"action_type\":\"ProposeUpdate\",\"payload\":{\"model_modification\":null,\"model_parameters\":null,\"evaluation_result\":null,\"description\":\"bump v2\"}}";

#[test]
fn hasher_gives_the_sha256_of_the_text_in_lower_case_hex() {
    assert_eq!(
        hasher("hello world".to_string()),
        "b94d27b9934d3e08a52e52d7da7dabfac484efe37a5380ee9088f7ace2efcde9"
    );
}

#[test]
fn hasher_of_the_empty_text() {
    assert_eq!(
        hasher(String::new()),
        "e3b0c44298fc1c149afbf4c8996fb92427ae41e4649b934ca495991b7852b855"
    );
}

#[test]
fn hasher_agrees_with_sha2_and_hex() {
    let text = "né\u{1F600} \"quoted\"";
    let expected = hex::encode(<sha2::Sha256 as sha2::Digest>::digest(text.as_bytes()));
    assert_eq!(hasher(text.to_string()), expected);
    assert_eq!(expected.len(), 64);
}

#[test]
fn decimal_text_writes_numbers_without_leading_zeros() {
    assert_eq!(decimal_text(0), "0");
    assert_eq!(decimal_text(7), "7");
    assert_eq!(decimal_text(10), "10");
    assert_eq!(decimal_text(2373), "2373");
    assert_eq!(decimal_text(4294967295), "4294967295");
    assert_eq!(decimal_text(u64::MAX), "18446744073709551615");
}

#[test]
fn no_transactions_serialize_to_an_empty_array() {
    assert_eq!(transaction_serialize(&Vec::new()), "[]");
    assert_eq!(
        transactions_hasher(&Vec::new()),
        "4f53cda18c2baa0c0354bb5f9a3ecbe5ed12ab4d8e11ba873c2f11161202b945"
    );
}

#[test]
fn a_transaction_serializes_with_its_fields_in_order() {
    let tx = plain("A", "sigA", "r1", ActionType::ProposeUpdate, "bump v2");
    assert_eq!(tx.to_json(), PROPOSAL_JSON);
    assert_eq!(transaction_serialize(&vec![tx]), format!("[{}]", PROPOSAL_JSON));
}

#[test]
fn transactions_are_separated_by_commas() {
    let a = plain("A", "sigA", "r1", ActionType::ProposeUpdate, "bump v2");
    let b = plain("B", "sigB", "r1", ActionType::VoteAccept, "");
    let c = plain("C", "sigC", "r1", ActionType::VoteAccept, "");
    let text = transaction_serialize(&vec![a.clone(), b.clone(), c.clone()]);
    assert_eq!(text, format!("[{},{},{}]", a.to_json(), b.to_json(), c.to_json()));
    assert_eq!(
        transactions_hasher(&vec![a, b, c]),
        "d668df773f9deade285654a05178c01d04ca7c1f59bd4738c046080d97b9cdd6"
    );
}

#[test]
fn every_part_of_the_payload_is_serialized() {
    let tx = Transaction {
        agent_id: "agent \"q\"".to_string(),
        signature: "s\\1".to_string(),
        reasoning_hash: "r\n2".to_string(),
        action_type: ActionType::EvaluateUpdate,
        payload: PayloadData {
            model_modification: Some(ModelModification {
                model_hash: "mh".to_string(),
                cid: "c1".to_string(),
                description: "md".to_string(),
                validation_proof: "vp".to_string(),
            }),
            model_parameters: Some(ModelParameters {
                update_id: "u1".to_string(),
                confidence: JsonNumber::parse("0.5").unwrap(),
                score: JsonNumber::parse("1.0").unwrap(),
            }),
            evaluation_result: Some(EvaluationResult {
                vote: Some(VoteVerdict::Accept),
                evaluation: Some(EvaluationVote::FlagConflict),
            }),
            description: "d\u{e9}\t\u{1}".to_string(),
        },
    };
    let expected = "{\"agent_id\":\"agent \\\"q\\\"\",\"signature\":\"s\\\\1\",\"reasoning_hash\":\"r\\n2\",\"action_type\":\"EvaluateUpdate\",\"payload\":{\"model_modification\":{\"model_hash\":\"mh\",\"cid\":\"c1\",\"description\":\"md\",\"validation_proof\":\"vp\"},\"model_parameters\":{\"update_id\":\"u1\",\"confidence\":0.5,\"score\":1.0},\"evaluation_result\":{\"vote\":\"Accept\",\"evaluation\":\"FlagConflict\"},\"description\":\"d\u{e9}\\t\\u0001\"}}";
    assert_eq!(tx.to_json(), expected);
    assert_eq!(
        transactions_hasher(&vec![tx]),
        "feece5aed2d941fdfd01e2d8b83328fedbf0c3769ca9120d63f151356b435166"
    );
}

#[test]
fn serialized_transactions_are_json_that_reads_back() {
    let tx = plain("A \"x\"", "s\u{8}\u{c}\r", "r\\1", ActionType::VoteReject, "\u{1f}/\u{7f}");
    let value: serde_json::Value = serde_json::from_str(&transaction_serialize(&vec![tx])).unwrap();
    let first = &value.as_array().unwrap()[0];
    assert_eq!(first["agent_id"].as_str(), Some("A \"x\""));
    assert_eq!(first["signature"].as_str(), Some("s\u{8}\u{c}\r"));
    assert_eq!(first["reasoning_hash"].as_str(), Some("r\\1"));
    assert_eq!(first["action_type"].as_str(), Some("VoteReject"));
    assert!(first["payload"]["model_modification"].is_null());
    assert!(first["payload"]["model_parameters"].is_null());
    assert!(first["payload"]["evaluation_result"].is_null());
    assert_eq!(first["payload"]["description"].as_str(), Some("\u{1f}/\u{7f}"));
}

#[test]
fn control_characters_are_escaped_as_serde_json_does() {
    let tx = plain("\u{0}\u{8}\t\n\u{b}\u{c}\r\u{1f} \u{7f}", "", "", ActionType::FlagMalicious, "");
    assert!(tx
        .to_json()
        .starts_with("{\"agent_id\":\"\\u0000\\b\\t\\n\\u000b\\f\\r\\u001f \u{7f}\","));
}

#[test]
fn an_evaluation_without_votes_serializes_nulls() {
    let result = EvaluationResult { vote: None, evaluation: None };
    assert_eq!(result.to_json(), "{\"vote\":null,\"evaluation\":null}");
    let result = EvaluationResult {
        vote: Some(VoteVerdict::Reject),
        evaluation: Some(EvaluationVote::ValidateBlock),
    };
    assert_eq!(result.to_json(), "{\"vote\":\"Reject\",\"evaluation\":\"ValidateBlock\"}");
}

#[test]
fn action_names_are_those_of_the_wire() {
    assert_eq!(ActionType::ProposeUpdate.as_str(), "ProposeUpdate");
    assert_eq!(ActionType::EvaluateUpdate.as_str(), "EvaluateUpdate");
    assert_eq!(ActionType::VoteAccept.as_str(), "VoteAccept");
    assert_eq!(ActionType::VoteReject.as_str(), "VoteReject");
    assert_eq!(ActionType::FlagMalicious.as_str(), "FlagMalicious");
    assert_eq!(ActionType::FinalizeBlock.as_str(), "FinalizeBlock");
}

#[test]
fn hashing_the_same_transactions_twice_gives_the_same_digest() {
    let first = vec![
        plain("A", "sigA", "r1", ActionType::ProposeUpdate, "bump v2"),
        plain("B", "sigB", "r1", ActionType::VoteAccept, ""),
    ];
    let second = vec![
        plain("A", "sigA", "r1", ActionType::ProposeUpdate, "bump v2"),
        plain("B", "sigB", "r1", ActionType::VoteAccept, ""),
    ];
    assert_eq!(transactions_hasher(&first), transactions_hasher(&first));
    assert_eq!(transactions_hasher(&first), transactions_hasher(&second));
    assert_eq!(
        transactions_hasher(&first),
        "5aec590e8d3744dac2163c99cd734778af7a3392e20aff522367da778c5b1c45"
    );
}

#[test]
fn reordering_transactions_changes_the_digest() {
    let a = plain("A", "sigA", "r1", ActionType::ProposeUpdate, "bump v2");
    let b = plain("B", "sigB", "r1", ActionType::VoteAccept, "");
    let forward = transactions_hasher(&vec![a.clone(), b.clone()]);
    let backward = transactions_hasher(&vec![b, a]);
    assert_ne!(forward, backward);
    assert_eq!(backward, "7ab17f8ac5e864d2b7520ac1e14ca04eced0bc59986bdbe92d4103a18e19626b");
}

#[test]
fn block_hash_covers_index_previous_hash_hash_field_transactions_and_timestamp() {
    let made = at(1714566896, 0);
    let block = unsealed(0, "0", Vec::new(), made);
    assert_eq!(
        block_hasher(&block),
        hasher("0\"0\"None\"[]\"2024-05-01T12:34:56Z".to_string())
    );
    assert_eq!(
        block_hasher(&block),
        "f37133e5f61a2266aac068edf60b00ba3980d0b15af9de8220b318c36eae77e0"
    );
}

#[test]
fn block_hash_is_the_same_when_computed_again() {
    let block = unsealed(
        3,
        "abc",
        vec![plain("A", "sigA", "r1", ActionType::ProposeUpdate, "bump v2")],
        at(1714566896, 5),
    );
    let first = block_hasher(&block);
    assert_eq!(block_hasher(&block), first);
    assert_eq!(block_hasher(&block.clone()), first);
    assert_eq!(block.hash, None);
}

#[test]
fn block_hash_changes_with_each_hashed_field() {
    let made = at(1714566896, 0);
    let base = block_hasher(&unsealed(0, "0", Vec::new(), made));
    assert_ne!(block_hasher(&unsealed(1, "0", Vec::new(), made)), base);
    assert_ne!(block_hasher(&unsealed(0, "1", Vec::new(), made)), base);
    assert_ne!(block_hasher(&unsealed(0, "0", Vec::new(), at(1714566897, 0))), base);
    assert_ne!(block_hasher(&unsealed(0, "0", Vec::new(), at(1714566896, 1))), base);
    let with_tx = vec![plain("A", "sigA", "r1", ActionType::ProposeUpdate, "bump v2")];
    assert_ne!(block_hasher(&unsealed(0, "0", with_tx, made)), base);
    let mut with_hash = unsealed(0, "0", Vec::new(), made);
    with_hash.hash = Some("ff".to_string());
    assert_ne!(block_hasher(&with_hash), base);
}

#[test]
fn block_hash_leaves_the_digest_field_out() {
    let made = at(1714566896, 0);
    let mut block = unsealed(0, "0", Vec::new(), made);
    let before = block_hasher(&block);
    block.merkle_root = Some("anything".to_string());
    assert_eq!(block_hasher(&block), before);
}

#[test]
fn block_hash_writes_strings_as_rust_prints_them() {
    let mut block = unsealed(7, "ab\"c\\d", Vec::new(), at(1714566896, 0));
    block.hash = Some("ff".to_string());
    assert_eq!(
        block_hasher(&block),
        hasher("7\"ab\\\"c\\\\d\"Some(\"ff\")\"[]\"2024-05-01T12:34:56Z".to_string())
    );
    assert_eq!(
        block_hasher(&block),
        "666b9984df2117bc3afadf98d9810ccbc28809fcaa4748e5d6113a0cf624e04d"
    );
}

#[test]
fn block_hash_writes_the_timestamp_as_chrono_prints_it() {
    let millis = unsealed(0, "0", Vec::new(), at(1714566896, 789_000_000));
    assert_eq!(
        block_hasher(&millis),
        "5b8de462de648fb74c633dba408d441744d75a670c7851f4be819801b80bae1e"
    );
    let nanos = unsealed(0, "0", Vec::new(), at(1714566896, 123_456_789));
    assert_eq!(
        block_hasher(&nanos),
        "78fa7032c15ad9bf6db74d9936a57ed283d2af7c307473cd91b65013766f73e5"
    );
    let before_epoch = unsealed(0, "0", Vec::new(), at(-1, 0));
    assert_eq!(
        block_hasher(&before_epoch),
        "9a91eb32f0f75a645ff362f410af8f11274678ce741b2201895837a5a3855fbc"
    );
}

#[test]
fn block_hash_agrees_with_chrono_at_the_ends_of_the_calendar() {
    for (secs, nanos) in [
        (-8_334_601_228_800i64, 0u32),
        (8_210_266_876_799, 999_999_999),
        (8_210_266_876_799, 1_999_999_999),
        (1_483_228_799, 1_500_000_000),
    ] {
        let printed = format!("{:?}", chrono::DateTime::from_timestamp(secs, nanos).unwrap());
        let block = unsealed(0, "0", Vec::new(), at(secs, nanos));
        assert_eq!(block_hasher(&block), hasher(format!("0\"0\"None\"[]\"{}", printed)));
    }
}

#[test]
fn block_hash_of_a_block_with_transactions() {
    let genesis = "f37133e5f61a2266aac068edf60b00ba3980d0b15af9de8220b318c36eae77e0";
    let block = unsealed(
        1,
        genesis,
        vec![
            plain("A", "sigA", "r1", ActionType::ProposeUpdate, "bump v2"),
            plain("B", "sigB", "r1", ActionType::VoteAccept, ""),
            plain("C", "sigC", "r1", ActionType::VoteAccept, ""),
        ],
        at(1714566900, 0),
    );
    assert_eq!(
        block_hasher(&block),
        "358e71ee6597894cf427cfea3938e10b4fa2b7d963e6bd4496dbba468bbdb3e5"
    );
}

#[test]
fn numbers_in_the_notation_of_json_are_recognized() {
    for text in [
        "0", "-0", "7", "10", "-42", "0.5", "1.0", "-3.25", "1e5", "1E5", "1e+5", "1e-7", "0e0",
        "1.2345679e20", "-0.0", "12.50E-03", "340282350000000000000000000000000000000.0",
    ] {
        assert!(is_number_text(text), "{}", text);
        assert_eq!(JsonNumber::parse(text).unwrap().as_str(), text);
    }
}

#[test]
fn what_is_no_number_is_refused() {
    for text in [
        "", "-", "+1", "01", "-01", "00", "1.", ".5", "1.e5", "1e", "1e+", "1e-", "e5", "1e5.0",
        "1 ", " 1", "1,0", "0x10", "NaN", "null", "Infinity", "1.0.0", "1ee5", "--1", "1-",
        "\u{661}", "1\u{0}",
    ] {
        assert!(!is_number_text(text), "{}", text);
        assert_eq!(JsonNumber::parse(text), None);
    }
}

#[test]
fn numbers_as_serde_json_writes_them_are_recognized() {
    for value in [0.0f32, 0.5, 1.0, -1.5, 0.1, 1e-7, 3.4e38, 1.17e-38, 123456.79, 1e20] {
        let text = serde_json::to_string(&value).unwrap();
        assert!(is_number_text(&text), "{}", text);
    }
    assert!(!is_number_text(&serde_json::to_string(&f32::NAN).unwrap()));
}

#[test]
fn figures_are_written_into_the_json_as_they_stand() {
    let figures = ModelParameters {
        update_id: "u\"1".to_string(),
        confidence: JsonNumber::parse("-12.50E-03").unwrap(),
        score: JsonNumber::parse("0").unwrap(),
    };
    assert_eq!(
        figures.to_json(),
        "{\"update_id\":\"u\\\"1\",\"confidence\":-12.50E-03,\"score\":0}"
    );
    let value: serde_json::Value = serde_json::from_str(&figures.to_json()).unwrap();
    assert_eq!(value["confidence"].as_f64(), Some(-0.0125));
    assert_eq!(value["score"].as_i64(), Some(0));
}

#[test]
fn strings_are_quoted_as_serde_json_quotes_them() {
    let mut samples: Vec<String> = Vec::new();
    for code in 0u32..0x3000 {
        if let Some(c) = char::from_u32(code) {
            samples.push(c.to_string());
            samples.push(format!("a{}b{}", c, c));
        }
    }
    samples.push("\u{1F600}\u{10FFFF}\u{FFFF}\u{D7FF}\u{E000}".to_string());
    for sample in samples {
        let tx = plain(&sample, "", "", ActionType::FlagMalicious, "");
        let expected = format!("{{\"agent_id\":{},", serde_json::to_string(&sample).unwrap());
        assert!(tx.to_json().starts_with(&expected), "{:?}", sample);
    }
}

#[test]
fn every_character_is_escaped_by_the_rule_for_json_strings() {
    for code in 0u32..=0x10FFFF {
        let c = match char::from_u32(code) {
            Some(c) => c,
            None => continue,
        };
        let escaped = match c {
            '"' => "\\\"".to_string(),
            '\\' => "\\\\".to_string(),
            '\u{8}' => "\\b".to_string(),
            '\t' => "\\t".to_string(),
            '\n' => "\\n".to_string(),
            '\u{c}' => "\\f".to_string(),
            '\r' => "\\r".to_string(),
            c if (c as u32) < 0x20 => {
                let digits = ['0', '1', '2', '3', '4', '5', '6', '7', '8', '9', 'a', 'b', 'c', 'd', 'e', 'f'];
                format!("\\u00{}{}", digits[(code / 16) as usize], digits[(code % 16) as usize])
            }
            c => c.to_string(),
        };
        let figures = ModelModification {
            model_hash: c.to_string(),
            cid: String::new(),
            description: String::new(),
            validation_proof: String::new(),
        };
        let expected = format!(
            "{{\"model_hash\":\"{}\",\"cid\":\"\",\"description\":\"\",\"validation_proof\":\"\"}}",
            escaped
        );
        assert_eq!(figures.to_json(), expected, "{:?}", c);
    }
}

#[test]
fn digests_are_two_lower_case_digits_for_each_byte() {
    for text in ["", "a", "hello world", "\u{0}", "né\u{1F600}", "0123456789abcdef"] {
        let bytes = <sha2::Sha256 as sha2::Digest>::digest(text.as_bytes());
        let digits = ['0', '1', '2', '3', '4', '5', '6', '7', '8', '9', 'a', 'b', 'c', 'd', 'e', 'f'];
        let mut expected = String::new();
        for byte in bytes.iter() {
            expected.push(digits[(byte / 16) as usize]);
            expected.push(digits[(byte % 16) as usize]);
        }
        assert_eq!(hasher(text.to_string()), expected);
    }
}
