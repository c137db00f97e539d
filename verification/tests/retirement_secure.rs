use overlay_forge::retirement_secure::{
    aad, bounded_text, non_negative_money, open_payload, optional_age, optional_iso_date,
    optional_non_negative, provided_record_id, required_text, seal_payload,
    session_key_from_stored, store_status, stored_key_text, valid_iso_date, validate_cadence,
    validate_entity_type, validate_financial_kind, validated_financial_record, validated_profile,
    RetirementFinancialRecordInput, RetirementProfileInput, RetirementProtectedRecord,
    PAYLOAD_VERSION, PROFILE_ID,
};

fn key() -> Vec<u8> {
    vec![7u8; 32]
}

fn record(id: &str, nonce: Vec<u8>, ciphertext: Vec<u8>) -> RetirementProtectedRecord {
    RetirementProtectedRecord {
        id: id.to_string(),
        entity_type: "profile".to_string(),
        payload_version: PAYLOAD_VERSION,
        nonce,
        ciphertext,
        is_archived: false,
        created_at: String::new(),
        modified_at: String::new(),
    }
}

#[test]
fn encryption_uses_distinct_nonces_and_never_keeps_plaintext_in_ciphertext() {
    let k = key();
    let plaintext = b"{\"retirementDefinition\":\"top-secret retirement definition\"}".to_vec();
    let (first_nonce, first_ciphertext) =
        seal_payload(Some(&k), PROFILE_ID, "profile", plaintext.clone()).expect("encryption should work");
    let (second_nonce, _) =
        seal_payload(Some(&k), PROFILE_ID, "profile", plaintext).expect("encryption should work");
    assert_ne!(first_nonce, second_nonce);
    assert!(!String::from_utf8_lossy(&first_ciphertext).contains("top-secret"));
}

#[test]
fn encryption_rejects_tampering_and_mismatched_associated_data() {
    let k = key();
    let plaintext = b"{\"displayLabel\":\"Private label\"}".to_vec();
    let (nonce, ciphertext) =
        seal_payload(Some(&k), PROFILE_ID, "profile", plaintext.clone()).expect("encryption should work");
    let intact = record(PROFILE_ID, nonce.clone(), ciphertext.clone());
    assert_eq!(open_payload(Some(&k), &intact).unwrap(), plaintext);
    let mut tampered_bytes = ciphertext.clone();
    tampered_bytes[0] ^= 1;
    assert!(open_payload(Some(&k), &record(PROFILE_ID, nonce.clone(), tampered_bytes)).is_err());
    assert!(open_payload(Some(&k), &record("other-profile", nonce, ciphertext)).is_err());
}

#[test]
fn locked_session_refuses_data_encryption() {
    assert_eq!(
        seal_payload(None, PROFILE_ID, "profile", b"{}".to_vec()).unwrap_err(),
        "Retirement data is locked."
    );
    let other_version = RetirementProtectedRecord { payload_version: 2, ..record(PROFILE_ID, vec![0; 12], vec![1]) };
    assert_eq!(
        open_payload(Some(&key()), &other_version).unwrap_err(),
        "Protected retirement data could not be authenticated."
    );
    assert_eq!(
        open_payload(None, &record(PROFILE_ID, vec![0; 12], vec![1])).unwrap_err(),
        "Retirement data is locked."
    );
    assert_eq!(
        open_payload(Some(&key()), &record(PROFILE_ID, vec![0; 5], vec![1])).unwrap_err(),
        "Protected retirement data could not be authenticated."
    );
}

#[test]
fn stored_session_keys_read_back() {
    let k: Vec<u8> = (0u8..32).collect();
    let text = stored_key_text(&k);
    assert_eq!(session_key_from_stored(&text).unwrap(), k);
    assert!(session_key_from_stored("c2hvcnQ=").is_err());
    assert!(session_key_from_stored("not base64!").is_err());
}

#[test]
fn associated_data_binds_type_and_id() {
    assert_eq!(aad("account", "a-1"), "overlay-forge:retirement:v1:account:a-1");
}

#[test]
fn store_status_messages() {
    assert_eq!(store_status("uninitialized", true).state, "uninitialized");
    assert_eq!(store_status("ready", true).state, "unlocked");
    let locked = store_status("ready", false);
    assert_eq!(locked.state, "locked");
    assert_eq!(locked.message, "Unlock protected retirement data to view or edit it.");
}

#[test]
fn field_validators() {
    assert!(validate_entity_type("debt").is_ok());
    assert_eq!(validate_entity_type("loan").unwrap_err(), "Unsupported protected retirement record type.");
    assert!(validate_financial_kind("account", "tfsa").is_ok());
    assert_eq!(validate_financial_kind("account", "mortgage").unwrap_err(), "Unsupported retirement record kind.");
    assert_eq!(validate_financial_kind("other", "x").unwrap_err(), "Unsupported protected retirement record type.");
    assert_eq!(validate_cadence("biweekly").unwrap(), "biweekly");
    assert!(validate_cadence("daily").is_err());
    assert_eq!(bounded_text("  ab  ", 2, "Label").unwrap(), "ab");
    assert_eq!(bounded_text("abc", 2, "Label").unwrap_err(), "Label is too long.");
    assert_eq!(required_text("   ", 10, "Label").unwrap_err(), "Label is required.");
    assert_eq!(non_negative_money(-1, "Amount").unwrap_err(), "Amount cannot be negative.");
    assert_eq!(optional_non_negative(None, "Rate").unwrap(), None);
    assert_eq!(optional_age(Some(121)).unwrap_err(), "Age must be between 0 and 120.");
    assert_eq!(optional_age(Some(120)).unwrap(), Some(120));
    assert_eq!(valid_iso_date(" 2024-02-29 ", "Date").unwrap(), "2024-02-29");
    assert_eq!(valid_iso_date("2024/02/29", "Date").unwrap_err(), "Date must use YYYY-MM-DD.");
    assert_eq!(optional_iso_date("  ", "Date").unwrap(), "");
    assert_eq!(provided_record_id(&Some("  ".to_string())), None);
    assert_eq!(provided_record_id(&Some("id-1".to_string())), Some("id-1".to_string()));
}

#[test]
fn profiles_are_validated_in_order() {
    let input = RetirementProfileInput {
        display_label: "  Me ".to_string(),
        age: Some(45),
        target_age: Some(40),
        retirement_definition: String::new(),
        notes: String::new(),
    };
    assert_eq!(
        validated_profile(&input).err().unwrap(),
        "Target age cannot be earlier than current age."
    );
    let ok = RetirementProfileInput { target_age: Some(55), ..input };
    let profile = validated_profile(&ok).ok().unwrap();
    assert_eq!(profile.display_label, "Me");
    assert_eq!(profile.target_age, Some(55));
}

#[test]
fn financial_records_are_validated_in_order() {
    let input = RetirementFinancialRecordInput {
        id: None,
        entity_type: "debt".to_string(),
        kind: "mortgage".to_string(),
        label: " House ".to_string(),
        institution: None,
        amount_cents: 100,
        as_of_date: "2024-01-31".to_string(),
        interest_rate_basis_points: Some(450),
        minimum_payment_cents: None,
        cadence: None,
        expected_change_date: Some(" ".to_string()),
        expected_change_amount_cents: None,
        notes: None,
    };
    let saved = validated_financial_record(&input, "debt-1".to_string()).ok().unwrap();
    assert_eq!(saved.id, "debt-1");
    assert_eq!(saved.label, "House");
    assert_eq!(saved.cadence, "monthly");
    assert_eq!(saved.expected_change_date, "");
    let negative = RetirementFinancialRecordInput { amount_cents: -5, ..input };
    assert_eq!(
        validated_financial_record(&negative, "x".to_string()).err().unwrap(),
        "Amount cannot be negative."
    );
}

#[test]
fn stored_keys_use_padded_standard_base64() {
    assert_eq!(overlay_forge::retirement_secure::stored_key_text(&vec![0u8; 32]), format!("{}=", "A".repeat(43)));
    let mut key = vec![0u8; 32];
    key[0] = 0xfb;
    key[1] = 0xff;
    key[2] = 0xbf;
    assert!(overlay_forge::retirement_secure::stored_key_text(&key).starts_with("+/+/"));
}
