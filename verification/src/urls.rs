use vstd::prelude::*;
use vstd::string::StringExecFns;

verus! {

/// Address of the flat list of published data versions.
pub open spec fn version_url_spec() -> Seq<char> {
    "https://ddragon.leagueoflegends.com/api/versions.json"@
}

/// Address of the flat list of display-language codes.
pub open spec fn language_url_spec() -> Seq<char> {
    "https://ddragon.leagueoflegends.com/cdn/languages.json"@
}

/// Address of the champion index for a given data version and language.
pub open spec fn champion_list_url_spec(version: Seq<char>, language: Seq<char>) -> Seq<char> {
    "https://ddragon.leagueoflegends.com/cdn/"@ + version + "/data/"@ + language
        + "/champion.json"@
}

/// Address of the single-champion record (the one carrying the lore text)
/// for a given data version, language and champion identifier.
pub open spec fn champion_data_url_spec(
    version: Seq<char>,
    language: Seq<char>,
    champion: Seq<char>,
) -> Seq<char> {
    "https://ddragon.leagueoflegends.com/cdn/"@ + version + "/data/"@ + language + "/champion/"@
        + champion + ".json"@
}

pub fn version_url() -> (r: String)
    ensures
        r@ == version_url_spec(),
{
    "https://ddragon.leagueoflegends.com/api/versions.json".to_owned()
}

pub fn language_url() -> (r: String)
    ensures
        r@ == language_url_spec(),
{
    "https://ddragon.leagueoflegends.com/cdn/languages.json".to_owned()
}

pub fn champion_list_url(version: &str, language: &str) -> (r: String)
    ensures
        r@ == champion_list_url_spec(version@, language@),
{
    let mut r = "https://ddragon.leagueoflegends.com/cdn/".to_owned();
    r.append(version);
    r.append("/data/");
    r.append(language);
    r.append("/champion.json");
    r
}

pub fn champion_data_url(version: &str, language: &str, champion: &str) -> (r: String)
    ensures
        r@ == champion_data_url_spec(version@, language@, champion@),
{
    let mut r = "https://ddragon.leagueoflegends.com/cdn/".to_owned();
    r.append(version);
    r.append("/data/");
    r.append(language);
    r.append("/champion/");
    r.append(champion);
    r.append(".json");
    r
}

} // verus!
