use cowork_bridge::credentials::{
    assemble, bundle_providers, found, found_among, get_all_api_keys,
};
use cowork_bridge::protocol::BedrockCredentials;
use cowork_bridge::secure_storage::{
    change_result, char_width, credentials_result, key_prefix, keychain_error_message,
    any_found, has_failed, is_undecided, lookup_result, prefix_result, presence, providers,
    removal_result, status_from, survey, StatusLookup, StoreFailure, SERVICE_NAME,
};

#[test]
fn key_prefix_shows_eight_bytes_and_dots() {
    assert_eq!(key_prefix("sk-ant-api03-abcdef"), "sk-ant-a...");
    assert_eq!(key_prefix("12345678"), "12345678...");
    assert_eq!(key_prefix("123456789"), "12345678...");
}

#[test]
fn key_prefix_of_short_keys_shows_all() {
    assert_eq!(key_prefix("abc"), "abc...");
    assert_eq!(key_prefix(""), "...");
}

#[test]
fn key_prefix_never_splits_a_character() {
    // Seven bytes of ASCII, then a two-byte character: only seven bytes fit.
    assert_eq!(key_prefix("1234567é9"), "1234567...");
    // Four two-byte characters are exactly eight bytes.
    assert_eq!(key_prefix("ééééé"), "éééé...");
    // A four-byte character after six bytes does not fit.
    assert_eq!(key_prefix("123456😀"), "123456...");
    assert_eq!(key_prefix("1234😀x"), "1234😀...");
}

#[test]
fn char_width_is_the_utf8_length() {
    assert_eq!(char_width('a'), 1);
    assert_eq!(char_width('\u{7f}'), 1);
    assert_eq!(char_width('\u{80}'), 2);
    assert_eq!(char_width('é'), 2);
    assert_eq!(char_width('\u{7ff}'), 2);
    assert_eq!(char_width('\u{800}'), 3);
    assert_eq!(char_width('€'), 3);
    assert_eq!(char_width('\u{ffff}'), 3);
    assert_eq!(char_width('\u{10000}'), 4);
    assert_eq!(char_width('😀'), 4);
}

#[test]
fn lookup_result_tells_found_missing_and_failed_apart() {
    assert_eq!(lookup_result(Ok("k".to_string()), "ctx: "), Ok(Some("k".to_string())));
    assert_eq!(lookup_result(Err(StoreFailure::NoEntry), "ctx: "), Ok(None));
    assert_eq!(
        lookup_result(Err(StoreFailure::Other("locked".to_string())), "Failed to get API key: "),
        Err("Failed to get API key: locked".to_string())
    );
}

#[test]
fn change_result_prefixes_the_reason() {
    assert_eq!(change_result(Ok(()), "Failed to store API key: "), Ok(()));
    assert_eq!(
        change_result(Err("denied".to_string()), "Failed to store API key: "),
        Err("Failed to store API key: denied".to_string())
    );
}

#[test]
fn removal_result_tells_whether_there_was_an_entry() {
    assert_eq!(removal_result(Ok(()), "Failed to delete API key: "), Ok(true));
    assert_eq!(removal_result(Err(StoreFailure::NoEntry), "Failed to delete API key: "), Ok(false));
    assert_eq!(
        removal_result(Err(StoreFailure::Other("x".to_string())), "Failed to delete API key: "),
        Err("Failed to delete API key: x".to_string())
    );
}

#[test]
fn presence_follows_the_lookup() {
    assert_eq!(presence(Ok(Some("k".to_string()))), Ok(true));
    assert_eq!(presence(Ok(None)), Ok(false));
    assert_eq!(presence(Err("e".to_string())), Err("e".to_string()));
}

#[test]
fn prefix_result_shows_the_prefix_of_a_found_secret() {
    assert_eq!(
        prefix_result(Ok(Some("sk-1234567890".to_string()))),
        Ok(Some("sk-12345...".to_string()))
    );
    assert_eq!(prefix_result(Ok(None)), Ok(None));
    assert_eq!(prefix_result(Err("e".to_string())), Err("e".to_string()));
}

#[test]
fn keychain_error_message_has_its_prefix() {
    assert_eq!(keychain_error_message("no bus"), "Keychain error: no bus");
}

#[test]
fn status_shows_nothing_of_a_missing_secret() {
    let absent = status_from(false, Some("stale...".to_string()));
    assert!(!absent.exists);
    assert_eq!(absent.prefix, None);
    let present = status_from(true, Some("sk-12345...".to_string()));
    assert!(present.exists);
    assert_eq!(present.prefix, Some("sk-12345...".to_string()));
    let bare = status_from(true, None);
    assert!(bare.exists);
    assert_eq!(bare.prefix, None);
}

#[test]
fn providers_are_the_fixed_list() {
    assert_eq!(
        providers(),
        vec![
            "anthropic",
            "openai",
            "google",
            "xai",
            "ollama",
            "deepseek",
            "zai",
            "azure-foundry",
            "bedrock",
            "litellm",
            "openrouter",
            "custom",
        ]
    );
    assert_eq!(SERVICE_NAME, "com.kevinlin.cowork-z");
}

#[test]
fn credentials_result_reads_stored_json() {
    let found = credentials_result(Ok(Some(
        "{\"accessKeyId\":\"A\",\"secretAccessKey\":\"S\",\"region\":\"R\"}".to_string(),
    )))
    .unwrap()
    .unwrap();
    assert_eq!(found.access_key_id, "A");
    assert_eq!(found.secret_access_key, "S");
    assert_eq!(found.region, "R");
}

#[test]
fn credentials_result_gives_none_for_unreadable_or_missing_text() {
    assert!(credentials_result(Ok(Some("not json".to_string()))).unwrap().is_none());
    assert!(credentials_result(Ok(Some("{\"accessKeyId\":\"A\"}".to_string()))).unwrap().is_none());
    assert!(credentials_result(Ok(None)).unwrap().is_none());
    assert_eq!(credentials_result(Err("e".to_string())).unwrap_err(), "e");
}

fn lookups() -> Vec<Result<Option<String>, String>> {
    vec![
        Ok(Some("a".to_string())),
        Ok(None),
        Err("locked".to_string()),
        Ok(Some("x".to_string())),
        Ok(None),
        Ok(None),
        Ok(None),
        Ok(None),
        Ok(Some("az".to_string())),
    ]
}

fn bedrock() -> BedrockCredentials {
    BedrockCredentials {
        access_key_id: "A".to_string(),
        secret_access_key: "S".to_string(),
        region: "R".to_string(),
    }
}

#[test]
fn bundle_providers_are_the_fixed_list_in_field_order() {
    assert_eq!(
        bundle_providers(),
        vec![
            "anthropic",
            "openai",
            "google",
            "xai",
            "deepseek",
            "openrouter",
            "litellm",
            "ollama",
            "azureFoundry",
        ]
    );
}

#[test]
fn bundle_holds_exactly_the_secrets_that_were_found() {
    let keys = assemble(&lookups(), Ok(Some(bedrock())));
    assert_eq!(keys.anthropic, Some("a".to_string()));
    assert_eq!(keys.openai, None);
    assert_eq!(keys.google, None);
    assert_eq!(keys.xai, Some("x".to_string()));
    assert_eq!(keys.deepseek, None);
    assert_eq!(keys.openrouter, None);
    assert_eq!(keys.litellm, None);
    assert_eq!(keys.ollama, None);
    assert_eq!(keys.azure_foundry, Some("az".to_string()));
    let bedrock = keys.bedrock.as_ref().unwrap();
    assert_eq!(bedrock.region, "R");
    assert_eq!(
        serde_json::to_string(&keys.to_value()).unwrap(),
        "{\"anthropic\":\"a\",\"xai\":\"x\",\"azureFoundry\":\"az\",\
\"bedrock\":{\"accessKeyId\":\"A\",\"secretAccessKey\":\"S\",\"region\":\"R\"}}"
    );
}

#[test]
fn each_lookup_fills_the_field_of_its_place() {
    let given: Vec<Result<Option<String>, String>> =
        (0..9).map(|i| Ok(Some(format!("k{}", i)))).collect();
    let keys = assemble(&given, Ok(None));
    assert_eq!(keys.anthropic, Some("k0".to_string()));
    assert_eq!(keys.openai, Some("k1".to_string()));
    assert_eq!(keys.google, Some("k2".to_string()));
    assert_eq!(keys.xai, Some("k3".to_string()));
    assert_eq!(keys.deepseek, Some("k4".to_string()));
    assert_eq!(keys.openrouter, Some("k5".to_string()));
    assert_eq!(keys.litellm, Some("k6".to_string()));
    assert_eq!(keys.ollama, Some("k7".to_string()));
    assert_eq!(keys.azure_foundry, Some("k8".to_string()));
    assert!(keys.bedrock.is_none());
}

#[test]
fn missing_lookups_leave_their_providers_out() {
    let keys = assemble(&vec![Ok(Some("a".to_string()))], Ok(None));
    assert_eq!(keys.anthropic, Some("a".to_string()));
    assert_eq!(keys.openai, None);
    assert_eq!(keys.azure_foundry, None);
    assert_eq!(found_among(&lookups(), 3), Some("x".to_string()));
    assert_eq!(found_among(&lookups(), 2), None);
    assert_eq!(found_among(&lookups(), 9), None);
}

#[test]
fn failed_bedrock_lookup_leaves_bedrock_out() {
    assert!(assemble(&lookups(), Err("locked".to_string())).bedrock.is_none());
}

#[test]
fn found_keeps_only_what_was_found() {
    assert_eq!(found(Ok(Some(1u8))), Some(1u8));
    assert_eq!(found::<u8>(Ok(None)), None);
    assert_eq!(found::<u8>(Err("e".to_string())), None);
}

#[test]
fn gathering_from_the_keychain_never_fails() {
    assert!(get_all_api_keys().is_ok());
}

fn entry(name: &str, lookup: StatusLookup) -> (String, StatusLookup) {
    (name.to_string(), lookup)
}

#[test]
fn survey_of_an_empty_store_shows_nothing_for_every_provider() {
    let entries: Vec<(String, StatusLookup)> =
        providers().into_iter().map(|name| entry(name, StatusLookup::Absent)).collect();
    let statuses = survey(&entries).unwrap();
    assert_eq!(statuses.len(), 12);
    for (i, name) in providers().into_iter().enumerate() {
        assert_eq!(statuses[i].0, name);
        assert!(!statuses[i].1.exists);
        assert_eq!(statuses[i].1.prefix, None);
    }
}

#[test]
fn survey_shows_each_stored_secret_by_its_prefix() {
    let entries = vec![
        entry("anthropic", StatusLookup::Present(Ok(Some("sk-ant-a...".to_string())))),
        entry("openai", StatusLookup::Absent),
        entry("google", StatusLookup::Present(Ok(None))),
    ];
    let statuses = survey(&entries).unwrap();
    assert_eq!(statuses.len(), 3);
    assert_eq!(statuses[0].0, "anthropic");
    assert!(statuses[0].1.exists);
    assert_eq!(statuses[0].1.prefix, Some("sk-ant-a...".to_string()));
    assert_eq!(statuses[1].0, "openai");
    assert!(!statuses[1].1.exists);
    assert_eq!(statuses[1].1.prefix, None);
    assert_eq!(statuses[2].0, "google");
    assert!(statuses[2].1.exists);
    assert_eq!(statuses[2].1.prefix, None);
}

#[test]
fn survey_fails_with_the_first_failed_lookup() {
    let entries = vec![
        entry("anthropic", StatusLookup::Absent),
        entry("openai", StatusLookup::Present(Err("second".to_string()))),
        entry("google", StatusLookup::CheckFailed("third".to_string())),
    ];
    assert_eq!(survey(&entries).unwrap_err(), "second");
    let entries = vec![
        entry("anthropic", StatusLookup::CheckFailed("first".to_string())),
        entry("openai", StatusLookup::Present(Ok(None))),
    ];
    assert_eq!(survey(&entries).unwrap_err(), "first");
    assert!(survey(&Vec::new()).unwrap().is_empty());
}

#[test]
fn failed_lookups_are_told_apart() {
    assert!(has_failed(&StatusLookup::CheckFailed("e".to_string())));
    assert!(has_failed(&StatusLookup::Present(Err("e".to_string()))));
    assert!(!has_failed(&StatusLookup::Absent));
    assert!(!has_failed(&StatusLookup::Present(Ok(None))));
    assert!(!has_failed(&StatusLookup::Present(Ok(Some("p...".to_string())))));
}

#[test]
fn search_finds_a_secret_where_a_check_found_one() {
    assert_eq!(any_found(&vec![Ok(false), Ok(true), Ok(false)]), Ok(true));
    assert_eq!(any_found(&vec![Ok(true)]), Ok(true));
    assert_eq!(any_found(&vec![Ok(false), Ok(true), Err("late".to_string())]), Ok(true));
}

#[test]
fn search_finds_nothing_where_every_check_came_back_empty() {
    assert_eq!(any_found(&vec![Ok(false); 12]), Ok(false));
    assert_eq!(any_found(&Vec::new()), Ok(false));
}

#[test]
fn search_fails_with_the_first_failed_check() {
    assert_eq!(
        any_found(&vec![Ok(false), Err("locked".to_string()), Ok(true)]),
        Err("locked".to_string())
    );
    assert_eq!(
        any_found(&vec![Err("a".to_string()), Err("b".to_string())]),
        Err("a".to_string())
    );
}

#[test]
fn only_an_empty_check_leaves_a_search_undecided() {
    assert!(is_undecided(&Ok(false)));
    assert!(!is_undecided(&Ok(true)));
    assert!(!is_undecided(&Err("e".to_string())));
}
