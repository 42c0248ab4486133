use vstd::prelude::*;

use crate::decode::DecodeError;
use crate::decode::decode_data_keys;
use crate::decode::decode_lore_map;
use crate::decode::decode_string_list;
use crate::decode::json_data_keys_of;
use crate::decode::json_lore_map_of;
use crate::decode::json_string_list_of;
use crate::decode::lookup_lore;
use crate::decode::lore_for;
use crate::selector::select;
use crate::selector::select_spec;
use crate::urls::champion_data_url;
use crate::urls::champion_data_url_spec;

verus! {

/// The state of one interactive session: the resolved data version, the two
/// candidate lists, and the two selections, each filled in by one step. A
/// field holds the empty value until its step has run.
pub struct LoreReader {
    pub ddragon_latest_version: String,
    pub champion_list: Vec<String>,
    pub language_list: Vec<String>,
    pub selected_champion: String,
    pub selected_language: String,
}

impl LoreReader {
    /// A fresh session with every field still unset.
    pub fn new() -> (r: Self)
        ensures
            r.ddragon_latest_version@ == Seq::<char>::empty(),
            r.champion_list@ == Seq::<String>::empty(),
            r.language_list@ == Seq::<String>::empty(),
            r.selected_champion@ == Seq::<char>::empty(),
            r.selected_language@ == Seq::<char>::empty(),
    {
        Self {
            ddragon_latest_version: String::new(),
            champion_list: Vec::new(),
            language_list: Vec::new(),
            selected_champion: String::new(),
            selected_language: String::new(),
        }
    }

    /// Decodes the fetched version list and records its first entry as the
    /// resolved data version.
    pub fn set_ddragon_version(&mut self, version_data: &str) -> (r: Result<(), DecodeError>)
        ensures
            match r {
                Ok(()) => json_string_list_of(version_data@) matches Some(l) && l.len() > 0
                    && final(self).ddragon_latest_version@ == l[0],
                Err(DecodeError::Malformed) => json_string_list_of(version_data@) is None
                    && final(self).ddragon_latest_version == old(self).ddragon_latest_version,
                Err(DecodeError::EmptyList) => json_string_list_of(version_data@)
                    == Some(Seq::<Seq<char>>::empty())
                    && final(self).ddragon_latest_version == old(self).ddragon_latest_version,
                Err(DecodeError::MissingEntry) => false,
            },
            final(self).champion_list == old(self).champion_list,
            final(self).language_list == old(self).language_list,
            final(self).selected_champion == old(self).selected_champion,
            final(self).selected_language == old(self).selected_language,
    {
        match decode_string_list(version_data) {
            Some(versions) => {
                if versions.len() == 0 {
                    assert(versions.deep_view() =~= Seq::<Seq<char>>::empty());
                    Err(DecodeError::EmptyList)
                } else {
                    self.ddragon_latest_version = versions[0].clone();
                    Ok(())
                }
            },
            None => Err(DecodeError::Malformed),
        }
    }

    /// Decodes the fetched language list and records it as the candidate
    /// list for the language selection step. A list with no entries is
    /// refused: the selection prompt cannot complete on it.
    pub fn set_language_list(&mut self, languages_data: &str) -> (r: Result<(), DecodeError>)
        ensures
            match r {
                Ok(()) => json_string_list_of(languages_data@) matches Some(l) && l.len() > 0
                    && final(self).language_list.deep_view() == l,
                Err(DecodeError::Malformed) => json_string_list_of(languages_data@) is None
                    && final(self).language_list == old(self).language_list,
                Err(DecodeError::EmptyList) => json_string_list_of(languages_data@)
                    == Some(Seq::<Seq<char>>::empty())
                    && final(self).language_list == old(self).language_list,
                Err(DecodeError::MissingEntry) => false,
            },
            final(self).ddragon_latest_version == old(self).ddragon_latest_version,
            final(self).champion_list == old(self).champion_list,
            final(self).selected_champion == old(self).selected_champion,
            final(self).selected_language == old(self).selected_language,
    {
        match decode_string_list(languages_data) {
            Some(languages) => {
                if languages.len() == 0 {
                    assert(languages.deep_view() =~= Seq::<Seq<char>>::empty());
                    Err(DecodeError::EmptyList)
                } else {
                    self.language_list = languages;
                    Ok(())
                }
            },
            None => Err(DecodeError::Malformed),
        }
    }

    /// Decodes the fetched champion index and records its identifiers as the
    /// candidate list for the champion selection step.
    pub fn set_champion_list(&mut self, champion_data: &str) -> (r: Result<(), DecodeError>)
        ensures
            match r {
                Ok(()) => json_data_keys_of(champion_data@) matches Some(l)
                    && final(self).champion_list.deep_view() == l,
                Err(DecodeError::Malformed) => json_data_keys_of(champion_data@) is None
                    && final(self).champion_list == old(self).champion_list,
                Err(DecodeError::EmptyList) => false,
                Err(DecodeError::MissingEntry) => false,
            },
            final(self).ddragon_latest_version == old(self).ddragon_latest_version,
            final(self).language_list == old(self).language_list,
            final(self).selected_champion == old(self).selected_champion,
            final(self).selected_language == old(self).selected_language,
    {
        match decode_data_keys(champion_data) {
            Some(champions) => {
                self.champion_list = champions;
                Ok(())
            },
            None => Err(DecodeError::Malformed),
        }
    }

    /// One attempt of the language selection step: runs the selector over the
    /// language candidates and records the selection on a hit. A miss leaves
    /// the session unchanged so the caller can prompt again.
    pub fn choose_language(&mut self, input: &str) -> (r: bool)
        ensures
            r == (select_spec(input@, old(self).language_list.deep_view()) is Some),
            select_spec(input@, old(self).language_list.deep_view()) matches Some(i)
                ==> final(self).selected_language@ == old(self).language_list.deep_view()[i],
            !r ==> final(self).selected_language == old(self).selected_language,
            final(self).ddragon_latest_version == old(self).ddragon_latest_version,
            final(self).champion_list == old(self).champion_list,
            final(self).language_list == old(self).language_list,
            final(self).selected_champion == old(self).selected_champion,
    {
        match select(input, &self.language_list) {
            Some(c) => {
                self.selected_language = c;
                true
            },
            None => false,
        }
    }

    /// One attempt of the champion selection step: runs the selector over the
    /// champion candidates and records the selection on a hit. A miss leaves
    /// the session unchanged so the caller can prompt again.
    pub fn choose_champion(&mut self, input: &str) -> (r: bool)
        ensures
            r == (select_spec(input@, old(self).champion_list.deep_view()) is Some),
            select_spec(input@, old(self).champion_list.deep_view()) matches Some(i)
                ==> final(self).selected_champion@ == old(self).champion_list.deep_view()[i],
            !r ==> final(self).selected_champion == old(self).selected_champion,
            final(self).ddragon_latest_version == old(self).ddragon_latest_version,
            final(self).champion_list == old(self).champion_list,
            final(self).language_list == old(self).language_list,
            final(self).selected_language == old(self).selected_language,
    {
        match select(input, &self.champion_list) {
            Some(c) => {
                self.selected_champion = c;
                true
            },
            None => false,
        }
    }

    /// The address of the record holding the selected champion's lore, built
    /// from the resolved version, the selected language and the selected
    /// champion — or nothing while no champion is selected, so that no fetch
    /// is ever issued with an empty selector value.
    pub fn lore_url(&self) -> (r: Option<String>)
        ensures
            r is Some <==> self.selected_champion@.len() > 0,
            r matches Some(u) ==> u@ == champion_data_url_spec(
                self.ddragon_latest_version@,
                self.selected_language@,
                self.selected_champion@,
            ),
    {
        let empty = String::new();
        if self.selected_champion.eq(&empty) {
            None
        } else {
            proof {
                if self.selected_champion@.len() == 0 {
                    assert(self.selected_champion@ =~= empty@);
                }
            }
            Some(
                champion_data_url(
                    self.ddragon_latest_version.as_str(),
                    self.selected_language.as_str(),
                    self.selected_champion.as_str(),
                ),
            )
        }
    }

    /// The fixed notice shown instead of fetching lore for an empty champion
    /// selection.
    pub fn missing_champion_notice() -> (r: String)
        ensures
            r@ == "Could not get the lore of a champ with empty name"@,
    {
        "Could not get the lore of a champ with empty name".to_owned()
    }

    /// Decodes the fetched champion record and extracts the selected
    /// champion's lore text verbatim.
    pub fn lore_from_response(&self, response_text: &str) -> (r: Result<String, DecodeError>)
        ensures
            match r {
                Ok(lore) => json_lore_map_of(response_text@) matches Some(m) && lookup_lore(
                    m,
                    self.selected_champion@,
                ) == Some(lore@),
                Err(DecodeError::Malformed) => json_lore_map_of(response_text@) is None,
                Err(DecodeError::MissingEntry) => json_lore_map_of(response_text@) matches Some(m)
                    && lookup_lore(m, self.selected_champion@) is None,
                Err(DecodeError::EmptyList) => false,
            },
    {
        match decode_lore_map(response_text) {
            Some(entries) => {
                match lore_for(&entries, &self.selected_champion) {
                    Some(lore) => Ok(lore),
                    None => Err(DecodeError::MissingEntry),
                }
            },
            None => Err(DecodeError::Malformed),
        }
    }
}

} // verus!
