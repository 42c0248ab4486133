use lore_reader::decode::DecodeError;
use lore_reader::decode::lore_for;
use lore_reader::session::LoreReader;
use lore_reader::urls::champion_data_url;
use lore_reader::urls::champion_list_url;
use lore_reader::urls::language_url;
use lore_reader::urls::version_url;

#[test]
fn version_urls_are_fixed() {
    assert_eq!(version_url(), "https://ddragon.leagueoflegends.com/api/versions.json");
    assert_eq!(language_url(), "https://ddragon.leagueoflegends.com/cdn/languages.json");
}

#[test]
fn champion_list_url_substitutes_version_and_language() {
    assert_eq!(
        champion_list_url("14.1.1", "fr_FR"),
        "https://ddragon.leagueoflegends.com/cdn/14.1.1/data/fr_FR/champion.json"
    );
}

#[test]
fn champion_data_url_substitutes_all_three_parameters() {
    assert_eq!(
        champion_data_url("14.1.1", "fr_FR", "LeeSin"),
        "https://ddragon.leagueoflegends.com/cdn/14.1.1/data/fr_FR/champion/LeeSin.json"
    );
}

#[test]
fn new_session_starts_empty() {
    let reader = LoreReader::new();
    assert_eq!(reader.ddragon_latest_version, "");
    assert!(reader.champion_list.is_empty());
    assert!(reader.language_list.is_empty());
    assert_eq!(reader.selected_champion, "");
    assert_eq!(reader.selected_language, "");
}

#[test]
fn version_is_resolved_from_the_first_entry() {
    let mut reader = LoreReader::new();
    assert_eq!(reader.set_ddragon_version("[\"14.1.1\",\"13.24.1\"]"), Ok(()));
    assert_eq!(reader.ddragon_latest_version, "14.1.1");
}

#[test]
fn malformed_version_body_is_refused() {
    let mut reader = LoreReader::new();
    assert_eq!(reader.set_ddragon_version("nonsense"), Err(DecodeError::Malformed));
    assert_eq!(reader.ddragon_latest_version, "");
}

#[test]
fn empty_version_list_is_refused() {
    let mut reader = LoreReader::new();
    assert_eq!(reader.set_ddragon_version("[]"), Err(DecodeError::EmptyList));
}

#[test]
fn language_list_is_recorded_in_order() {
    let mut reader = LoreReader::new();
    assert_eq!(reader.set_language_list("[\"en_US\",\"fr_FR\",\"de_DE\"]"), Ok(()));
    assert_eq!(reader.language_list, vec!["en_US", "fr_FR", "de_DE"]);
}

#[test]
fn empty_language_list_is_refused() {
    let mut reader = LoreReader::new();
    assert_eq!(reader.set_language_list("[]"), Err(DecodeError::EmptyList));
    assert!(reader.language_list.is_empty());
}

#[test]
fn champion_list_holds_the_data_keys() {
    let mut reader = LoreReader::new();
    let body = "{\"type\":\"champion\",\"data\":{\"Aatrox\":{\"blurb\":\"b\"},\"Ahri\":{}}}";
    assert_eq!(reader.set_champion_list(body), Ok(()));
    assert_eq!(reader.champion_list, vec!["Aatrox", "Ahri"]);
}

#[test]
fn champion_body_without_data_object_is_refused() {
    let mut reader = LoreReader::new();
    assert_eq!(reader.set_champion_list("[1,2]"), Err(DecodeError::Malformed));
}

#[test]
fn choosing_a_language_records_the_selection() {
    let mut reader = LoreReader::new();
    assert_eq!(reader.set_language_list("[\"en_US\",\"fr_FR\",\"de_DE\"]"), Ok(()));
    assert!(reader.choose_language("fr"));
    assert_eq!(reader.selected_language, "fr_FR");
}

#[test]
fn a_rejected_attempt_leaves_the_session_unchanged() {
    let mut reader = LoreReader::new();
    assert_eq!(reader.set_language_list("[\"en_US\",\"fr_FR\"]"), Ok(()));
    assert!(!reader.choose_language("###"));
    assert_eq!(reader.selected_language, "");
}

#[test]
fn no_lore_request_without_a_selected_champion() {
    let reader = LoreReader::new();
    assert_eq!(reader.lore_url(), None);
}

#[test]
fn missing_champion_notice_text() {
    assert_eq!(
        LoreReader::missing_champion_notice(),
        "Could not get the lore of a champ with empty name"
    );
}

#[test]
fn lore_is_extracted_verbatim() {
    let mut reader = LoreReader::new();
    let champions = "{\"data\":{\"LeeSin\":{\"blurb\":\"b\"}}}";
    assert_eq!(reader.set_champion_list(champions), Ok(()));
    assert!(reader.choose_champion("leesin"));
    let body = "{\"type\":\"champion\",\"data\":{\"LeeSin\":{\"id\":\"LeeSin\",\"lore\":\"The blind monk\"}}}";
    assert_eq!(reader.lore_from_response(body), Ok(String::from("The blind monk")));
}

#[test]
fn lore_body_without_the_selected_champion_is_refused() {
    let mut reader = LoreReader::new();
    let champions = "{\"data\":{\"Ahri\":{}}}";
    assert_eq!(reader.set_champion_list(champions), Ok(()));
    assert!(reader.choose_champion("ahri"));
    let body = "{\"data\":{\"Garen\":{\"lore\":\"g\"}}}";
    assert_eq!(reader.lore_from_response(body), Err(DecodeError::MissingEntry));
}

#[test]
fn malformed_lore_body_is_refused() {
    let reader = LoreReader::new();
    assert_eq!(reader.lore_from_response("not json"), Err(DecodeError::Malformed));
}

#[test]
fn lore_lookup_takes_the_first_entry_with_the_name() {
    let entries = vec![
        (String::from("A"), String::from("first")),
        (String::from("A"), String::from("second")),
    ];
    assert_eq!(lore_for(&entries, &String::from("A")), Some(String::from("first")));
    assert_eq!(lore_for(&entries, &String::from("B")), None);
}

#[test]
fn full_session_reaches_the_selected_lore() {
    let mut reader = LoreReader::new();
    assert_eq!(reader.set_ddragon_version("[\"14.1.1\"]"), Ok(()));
    assert_eq!(reader.set_language_list("[\"en_US\",\"fr_FR\",\"de_DE\"]"), Ok(()));
    assert!(reader.choose_language("fr"));
    assert_eq!(reader.selected_language, "fr_FR");
    let champions = "{\"data\":{\"Ahri\":{},\"LeeSin\":{}}}";
    assert_eq!(reader.set_champion_list(champions), Ok(()));
    assert!(reader.choose_champion("leesin"));
    assert_eq!(reader.selected_champion, "LeeSin");
    assert_eq!(
        reader.lore_url(),
        Some(String::from(
            "https://ddragon.leagueoflegends.com/cdn/14.1.1/data/fr_FR/champion/LeeSin.json"
        ))
    );
    let body = "{\"data\":{\"LeeSin\":{\"lore\":\"Le moine aveugle\"}}}";
    assert_eq!(reader.lore_from_response(body), Ok(String::from("Le moine aveugle")));
}
