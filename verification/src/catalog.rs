//! The fixed catalog of voices that the synthesis endpoint accepts.

use vstd::prelude::*;
use vstd::string::StringExecFns;
use crate::error::SpeechError;

verus! {

/// The voices, in catalog order: character voices, English by region,
/// European languages, the Americas, Asian languages.
pub open spec fn voice_catalog() -> Seq<Seq<char>> {
    seq![
        "en_us_ghostface"@,
        "en_us_chewbacca"@,
        "en_us_c3po"@,
        "en_us_stitch"@,
        "en_us_stormtrooper"@,
        "en_us_rocket"@,
        "en_au_001"@,
        "en_au_002"@,
        "en_uk_001"@,
        "en_uk_003"@,
        "en_us_001"@,
        "en_us_002"@,
        "en_us_006"@,
        "en_us_007"@,
        "en_us_009"@,
        "en_us_010"@,
        "fr_001"@,
        "fr_002"@,
        "de_001"@,
        "de_002"@,
        "es_002"@,
        "es_mx_002"@,
        "br_001"@,
        "br_003"@,
        "br_004"@,
        "br_005"@,
        "id_001"@,
        "jp_001"@,
        "jp_003"@,
        "jp_005"@,
        "jp_006"@,
        "kr_002"@,
        "kr_003"@,
        "kr_004"@,
    ]
}

/// The voice that is used when none is asked for.
pub open spec fn default_voice() -> Seq<char> {
    "en_us_002"@
}

/// Whether `voice` is, character for character, an entry of the catalog.
pub open spec fn is_catalog_voice(voice: Seq<char>) -> bool {
    voice_catalog().contains(voice)
}

/// The voice that a run uses: the one asked for, else the default.
pub open spec fn resolved_voice(asked: Option<Seq<char>>) -> Seq<char> {
    match asked {
        Some(voice) => voice,
        None => default_voice(),
    }
}

/// The characters that catalog entries are made of: lower-case letters,
/// digits and the underscore.
pub open spec fn is_voice_character(c: char) -> bool {
    ('a' <= c && c <= 'z') || ('0' <= c && c <= '9') || c == '_'
}

/// Every catalog entry has six to eighteen characters, each of them a
/// lower-case letter, a digit or an underscore.
pub proof fn catalog_entries_are_plain()
    ensures
        voice_catalog().len() == 34,
        forall|k: int| 0 <= k < 34 ==> 6 <= (#[trigger] voice_catalog()[k]).len() <= 18,
        forall|k: int, i: int|
            0 <= k < 34 && 0 <= i < voice_catalog()[k].len() ==> is_voice_character(
                #[trigger] voice_catalog()[k][i],
            ),
{
    reveal_strlit("en_us_ghostface");
    reveal_strlit("en_us_chewbacca");
    reveal_strlit("en_us_c3po");
    reveal_strlit("en_us_stitch");
    reveal_strlit("en_us_stormtrooper");
    reveal_strlit("en_us_rocket");
    reveal_strlit("en_au_001");
    reveal_strlit("en_au_002");
    reveal_strlit("en_uk_001");
    reveal_strlit("en_uk_003");
    reveal_strlit("en_us_001");
    reveal_strlit("en_us_002");
    reveal_strlit("en_us_006");
    reveal_strlit("en_us_007");
    reveal_strlit("en_us_009");
    reveal_strlit("en_us_010");
    reveal_strlit("fr_001");
    reveal_strlit("fr_002");
    reveal_strlit("de_001");
    reveal_strlit("de_002");
    reveal_strlit("es_002");
    reveal_strlit("es_mx_002");
    reveal_strlit("br_001");
    reveal_strlit("br_003");
    reveal_strlit("br_004");
    reveal_strlit("br_005");
    reveal_strlit("id_001");
    reveal_strlit("jp_001");
    reveal_strlit("jp_003");
    reveal_strlit("jp_005");
    reveal_strlit("jp_006");
    reveal_strlit("kr_002");
    reveal_strlit("kr_003");
    reveal_strlit("kr_004");
    assert forall|k: int, i: int|
        0 <= k < 34 && 0 <= i < voice_catalog()[k].len() implies is_voice_character(
        #[trigger] voice_catalog()[k][i],
    ) by {}
}

/// What tells two catalog entries apart: the length, the first and the
/// last character, and the fifth character from the end.
pub open spec fn entry_mark(voice: Seq<char>) -> (nat, char, char, char) {
    (voice.len(), voice[0], voice[voice.len() - 1], voice[voice.len() - 5])
}

/// The catalog holds thirty-four voices, and none of them twice.
pub proof fn catalog_has_no_repeats()
    ensures
        voice_catalog().len() == 34,
        voice_catalog().no_duplicates(),
{
    reveal_strlit("en_us_ghostface");
    reveal_strlit("en_us_chewbacca");
    reveal_strlit("en_us_c3po");
    reveal_strlit("en_us_stitch");
    reveal_strlit("en_us_stormtrooper");
    reveal_strlit("en_us_rocket");
    reveal_strlit("en_au_001");
    reveal_strlit("en_au_002");
    reveal_strlit("en_uk_001");
    reveal_strlit("en_uk_003");
    reveal_strlit("en_us_001");
    reveal_strlit("en_us_002");
    reveal_strlit("en_us_006");
    reveal_strlit("en_us_007");
    reveal_strlit("en_us_009");
    reveal_strlit("en_us_010");
    reveal_strlit("fr_001");
    reveal_strlit("fr_002");
    reveal_strlit("de_001");
    reveal_strlit("de_002");
    reveal_strlit("es_002");
    reveal_strlit("es_mx_002");
    reveal_strlit("br_001");
    reveal_strlit("br_003");
    reveal_strlit("br_004");
    reveal_strlit("br_005");
    reveal_strlit("id_001");
    reveal_strlit("jp_001");
    reveal_strlit("jp_003");
    reveal_strlit("jp_005");
    reveal_strlit("jp_006");
    reveal_strlit("kr_002");
    reveal_strlit("kr_003");
    reveal_strlit("kr_004");
    let catalog = voice_catalog();
    assert forall|i: int, j: int| 0 <= i < j < 34 implies entry_mark(catalog[i]) != entry_mark(
        catalog[j],
    ) by {}
    assert forall|i: int, j: int| 0 <= i < catalog.len() && 0 <= j < catalog.len() && i
        != j implies catalog[i] != catalog[j] by {
        if i < j {
            assert(entry_mark(catalog[i]) != entry_mark(catalog[j]));
        } else {
            assert(entry_mark(catalog[j]) != entry_mark(catalog[i]));
        }
    }
}

/// The default voice is a voice of the catalog.
pub proof fn default_voice_is_known()
    ensures
        is_catalog_voice(default_voice()),
{
    assert(voice_catalog()[11] == default_voice());
}

/// Membership is exact: a voice with a character that no entry has, such
/// as a capital letter, is not in the catalog, whatever the rest of it is.
pub proof fn voice_with_foreign_character_is_unknown(voice: Seq<char>, at: int)
    requires
        0 <= at < voice.len(),
        !is_voice_character(voice[at]),
    ensures
        !is_catalog_voice(voice),
{
    catalog_entries_are_plain();
    if is_catalog_voice(voice) {
        let k = choose|k: int| 0 <= k < voice_catalog().len() && voice_catalog()[k] == voice;
        assert(is_voice_character(voice_catalog()[k][at]));
    }
}

/// With no voice asked for, the run uses the default voice, as if it had
/// been asked for by name.
pub proof fn absent_voice_is_default_voice()
    ensures
        resolved_voice(None) == resolved_voice(Some(default_voice())),
        is_catalog_voice(resolved_voice(None)),
{
    default_voice_is_known();
}

/// The catalog as values.
pub fn voices() -> (list: Vec<&'static str>)
    ensures
        list@.len() == voice_catalog().len(),
        forall|i: int| 0 <= i < list@.len() ==> (#[trigger] list@[i])@ == voice_catalog()[i],
{
    vec![
        "en_us_ghostface",
        "en_us_chewbacca",
        "en_us_c3po",
        "en_us_stitch",
        "en_us_stormtrooper",
        "en_us_rocket",
        "en_au_001",
        "en_au_002",
        "en_uk_001",
        "en_uk_003",
        "en_us_001",
        "en_us_002",
        "en_us_006",
        "en_us_007",
        "en_us_009",
        "en_us_010",
        "fr_001",
        "fr_002",
        "de_001",
        "de_002",
        "es_002",
        "es_mx_002",
        "br_001",
        "br_003",
        "br_004",
        "br_005",
        "id_001",
        "jp_001",
        "jp_003",
        "jp_005",
        "jp_006",
        "kr_002",
        "kr_003",
        "kr_004",
    ]
}

/// The default voice as a value.
pub fn default_voice_name() -> (voice: String)
    ensures
        voice@ == default_voice(),
{
    String::from_str("en_us_002")
}

/// Tells whether `voice` is in the catalog, by exact comparison.
pub fn is_known_voice(voice: &str) -> (known: bool)
    ensures
        known == is_catalog_voice(voice@),
{
    let wanted = String::from_str(voice);
    let list = voices();
    let mut i: usize = 0;
    while i < list.len()
        invariant
            i <= list@.len(),
            list@.len() == voice_catalog().len(),
            forall|k: int| 0 <= k < list@.len() ==> (#[trigger] list@[k])@ == voice_catalog()[k],
            forall|k: int| 0 <= k < i ==> voice_catalog()[k] != voice@,
            wanted@ == voice@,
        decreases list@.len() - i,
    {
        let entry = String::from_str(list[i]);
        if entry == wanted {
            assert(voice_catalog()[i as int] == voice@);
            return true;
        }
        i += 1;
    }
    false
}

/// Accepts a voice of the catalog and hands it back unchanged; any other
/// voice is refused, and the error carries it.
pub fn validate_voice(voice: String) -> (checked: Result<String, SpeechError>)
    ensures
        is_catalog_voice(voice@) ==> checked == Ok::<String, SpeechError>(voice),
        !is_catalog_voice(voice@) ==> checked == Err::<String, SpeechError>(
            SpeechError::InvalidVoice(voice),
        ),
{
    if is_known_voice(voice.as_str()) {
        Ok(voice)
    } else {
        Err(SpeechError::InvalidVoice(voice))
    }
}

/// The voice to use: the one asked for, verbatim, else the default.
pub fn resolve_voice(asked: Option<String>) -> (voice: String)
    ensures
        voice@ == resolved_voice(
            match asked {
                Some(v) => Some(v@),
                None => None,
            },
        ),
        asked matches Some(v) ==> voice == v,
{
    match asked {
        Some(voice) => voice,
        None => default_voice_name(),
    }
}

} // verus!
