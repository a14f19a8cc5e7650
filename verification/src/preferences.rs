//! The user's preferences, kept as a YAML mapping in `preferences.yaml`
//! inside the directory that the host configures.
//!
//! The host reads the file. The library says where the file is, what its
//! text means, and what stands in for preferences that could not be had.

use vstd::prelude::*;
use crate::paths::{
    absolute_path, absolutize_from, dots_at, ends_in_name, is_plain_path, join, joined, slashed,
};
use crate::yaml::{field_kind, mapping_fields, parse_mapping, yaml_mapping, YamlKind};

verus! {

/// The name of the preferences file inside the preferences directory.
pub const PREFERENCES_FILENAME: &'static str = "preferences.yaml";

/// The settings a user can make. Each one may be left unset.
#[derive(Clone, Copy, Debug, PartialEq, Eq, Structural)]
pub struct Preferences {
    pub unceasing_animations: Option<bool>,
    pub sound_on: Option<bool>,
}

impl Preferences {
    /// The preferences with every setting unset.
    pub open spec fn unset() -> Preferences {
        Preferences { unceasing_animations: None, sound_on: None }
    }
}

impl Default for Preferences {
    fn default() -> (preferences: Preferences)
        ensures
            preferences == Preferences::unset(),
    {
        Preferences { unceasing_animations: None, sound_on: None }
    }
}

/// One of the settings that the preferences file can make.
#[derive(Clone, Copy, Debug, PartialEq, Eq, Structural)]
pub enum Setting {
    UnceasingAnimations,
    SoundOn,
}

impl Setting {
    /// The key under which the file holds this setting.
    pub open spec fn spec_key(self) -> Seq<char> {
        match self {
            Setting::UnceasingAnimations => "unceasing_animations"@,
            Setting::SoundOn => "sound_on"@,
        }
    }

    /// The key under which the file holds this setting.
    pub fn key(self) -> (key: &'static str)
        ensures
            key@ == self.spec_key(),
    {
        match self {
            Setting::UnceasingAnimations => "unceasing_animations",
            Setting::SoundOn => "sound_on",
        }
    }
}

/// Why no preferences could be had.
#[derive(Debug)]
pub enum PreferencesError {
    /// The host has no directory for the preferences.
    NoPreferencesDir,
    /// The working directory, from which a relative path starts, could not
    /// be had; the error says why.
    WorkingDir(std::io::Error),
    /// A path on the way to the file is no Unicode text.
    PathNotUnicode,
    /// The file is there and could not be read; the text says why.
    Unreadable(String),
    /// The text of the file is no single YAML mapping.
    Malformed(serde_yaml::Error),
    /// The setting holds neither a boolean nor null.
    NotABoolean(Setting),
}

/// What the host found at the path of the preferences file.
#[derive(Debug, PartialEq, Eq)]
pub enum PreferencesFile {
    /// Nothing is there.
    Missing,
    /// Something is there and could not be read; the text says why.
    Unreadable(String),
    /// The text of the file.
    Text(String),
}

/// Whether a value of this kind can stand under a setting's key: a boolean
/// sets it, null leaves it unset, anything else is refused.
pub open spec fn fits_setting(kind: YamlKind) -> bool {
    kind is Bool || kind is Null
}

/// Whether the mapping holds under the setting's key something that no
/// setting can be.
pub open spec fn refuses(fields: Map<Seq<char>, YamlKind>, setting: Setting) -> bool {
    fields.dom().contains(setting.spec_key()) && !fits_setting(fields[setting.spec_key()])
}

/// The setting as a mapping makes it: unset where the key is absent or
/// holds null, set where it holds a boolean.
pub open spec fn setting_of(fields: Map<Seq<char>, YamlKind>, setting: Setting) -> Option<bool> {
    if fields.dom().contains(setting.spec_key()) {
        match fields[setting.spec_key()] {
            YamlKind::Bool(flag) => Some(flag),
            _ => None,
        }
    } else {
        None
    }
}

/// The preferences that a mapping spells, or the first setting that it
/// spells wrongly. Only the keys of the settings are looked at.
pub open spec fn preferences_of(fields: Map<Seq<char>, YamlKind>) -> Result<Preferences, Setting> {
    if refuses(fields, Setting::UnceasingAnimations) {
        Err(Setting::UnceasingAnimations)
    } else if refuses(fields, Setting::SoundOn) {
        Err(Setting::SoundOn)
    } else {
        Ok(
            Preferences {
                unceasing_animations: setting_of(fields, Setting::UnceasingAnimations),
                sound_on: setting_of(fields, Setting::SoundOn),
            },
        )
    }
}

/// What a text means as preferences: `None` where it is no YAML mapping,
/// else the preferences that the mapping spells or the setting that it
/// spells wrongly.
pub open spec fn preferences_in(text: Seq<char>) -> Option<Result<Preferences, Setting>> {
    match yaml_mapping(text) {
        None => None,
        Some(fields) => Some(preferences_of(fields)),
    }
}

/// Whether `outcome` is what `meaning` asks for: the preferences spelled,
/// or the error that belongs to the way the text failed.
pub open spec fn reports(
    outcome: Result<Preferences, PreferencesError>,
    meaning: Option<Result<Preferences, Setting>>,
) -> bool {
    match meaning {
        None => outcome matches Err(PreferencesError::Malformed(_)),
        Some(Err(setting)) => outcome matches Err(PreferencesError::NotABoolean(refused))
            && refused == setting,
        Some(Ok(preferences)) => outcome == Ok::<Preferences, PreferencesError>(preferences),
    }
}

/// Reads one setting out of a parsed mapping, `Err` where the mapping holds
/// something else than a boolean or null under its key.
fn read_setting(mapping: &serde_yaml::Mapping, setting: Setting) -> (read: Result<
    Option<bool>,
    Setting,
>)
    ensures
        read is Err <==> refuses(mapping_fields(*mapping), setting),
        read matches Err(refused) ==> refused == setting,
        read matches Ok(value) ==> value == setting_of(mapping_fields(*mapping), setting),
{
    match field_kind(mapping, setting.key()) {
        None => Ok(None),
        Some(YamlKind::Null) => Ok(None),
        Some(YamlKind::Bool(flag)) => Ok(Some(flag)),
        Some(_) => Err(setting),
    }
}

/// Reads the preferences out of a parsed mapping.
///
/// The key of a setting sets it if it holds a boolean and leaves it unset
/// if it holds null or is absent; any other value under it is an error,
/// and `unceasing_animations` is looked at first. Only an entry whose key
/// is a YAML string can be a setting: every other entry is passed over,
/// whatever its key and its value are.
pub fn preferences_from_mapping(mapping: &serde_yaml::Mapping) -> (read: Result<
    Preferences,
    Setting,
>)
    ensures
        read == preferences_of(mapping_fields(*mapping)),
{
    let unceasing_animations = read_setting(mapping, Setting::UnceasingAnimations)?;
    let sound_on = read_setting(mapping, Setting::SoundOn)?;
    Ok(Preferences { unceasing_animations, sound_on })
}

/// Reads the preferences out of the text of a preferences file.
///
/// The text must be one YAML document that is a mapping, or empty. It is
/// parsed as a whole before the settings are looked for, so a text is
/// refused as malformed for a mistake anywhere in it: broken syntax, a
/// second document, a key that stands twice in one mapping (be it the key
/// of a setting or not), an alias without its anchor. What the mapping
/// then means is what `preferences_from_mapping` says.
pub fn parse_preferences(contents: &str) -> (outcome: Result<Preferences, PreferencesError>)
    ensures
        reports(outcome, preferences_in(contents@)),
{
    match parse_mapping(contents) {
        Ok(mapping) => match preferences_from_mapping(&mapping) {
            Ok(preferences) => Ok(preferences),
            Err(setting) => Err(PreferencesError::NotABoolean(setting)),
        },
        Err(error) => Err(PreferencesError::Malformed(error)),
    }
}

/// The preferences file of a directory, before it is made absolute.
pub open spec fn file_in(dir: Seq<char>) -> Seq<char> {
    joined(dir, PREFERENCES_FILENAME@)
}

/// Whether `outcome` says where the preferences file of `dir` is for a
/// process that works in `working_dir`.
///
/// Without a directory there is no such place, and that is the only
/// failure. With one, it is the absolute path of `preferences.yaml` inside
/// it. Where the file's path is plain, it is the end of the absolute path.
pub open spec fn locates(
    outcome: Result<String, PreferencesError>,
    dir: Option<Seq<char>>,
    working_dir: Seq<char>,
) -> bool {
    match dir {
        None => outcome matches Err(PreferencesError::NoPreferencesDir),
        Some(dir) => {
            &&& outcome matches Ok(path) && path@ == absolute_path(file_in(dir), working_dir)
            &&& is_plain_path(file_in(dir)) ==> file_in(dir).is_suffix_of(
                slashed(absolute_path(file_in(dir), working_dir)),
            )
        },
    }
}

/// The preferences file of any directory ends in a name.
pub proof fn lemma_file_ends_in_name(dir: Seq<char>)
    ensures
        ends_in_name(file_in(dir)),
{
    reveal_strlit("preferences.yaml");
    let name = PREFERENCES_FILENAME@;
    assert(name.len() == 16);
    assert(name.last() == 'l');
    assert(file_in(dir).last() == name.last());
}

/// The preferences file of a plain directory has a plain path, and so has
/// the one of the empty directory.
pub proof fn lemma_file_in_plain_dir_is_plain(dir: Seq<char>)
    requires
        dir.len() == 0 || is_plain_path(dir),
    ensures
        is_plain_path(file_in(dir)),
{
    reveal_strlit("preferences.yaml");
    let name = PREFERENCES_FILENAME@;
    let path = file_in(dir);
    assert(name.len() == 16);
    assert(forall|j: int| 0 <= j < 16 ==> name[j] != '/' && name[j] != '\\' && name[j] != ':');
    assert(name[0] == 'p');
    if dir.len() == 0 {
        assert(path =~= name);
        assert forall|i: int| !dots_at(path, i) by {
            if 0 < i < path.len() {
                assert(name[i - 1] != '/');
            }
        }
    } else {
        let n = dir.len() as int;
        assert(path =~= dir + seq!['/'] + name);
        assert(forall|i: int| 0 <= i < n ==> path[i] == dir[i]);
        assert(path[n] == '/');
        assert(forall|i: int| n < i < path.len() ==> path[i] == name[i - n - 1]);
        assert forall|i: int| 0 <= i < path.len() implies #[trigger] path[i] != '\\' && path[i]
            != ':' by {
            if i < n {
                assert(dir[i] != '\\' && dir[i] != ':');
            }
        }
        assert forall|i: int| 0 < i < path.len() implies !(#[trigger] path[i] == '/' && path[i
            - 1] == '/') by {
            if i < n {
                assert(!(dir[i] == '/' && dir[i - 1] == '/'));
            }
        }
        assert forall|i: int| !dots_at(path, i) by {
            if 0 <= i < n {
                assert(!dots_at(dir, i));
            } else if n + 1 < i < path.len() {
                assert(name[i - n - 2] != '/');
            }
        }
    }
}

/// Turns what making the path absolute gave into the library's own result.
pub fn located(absolute: Result<Option<String>, std::io::Error>) -> (outcome: Result<
    String,
    PreferencesError,
>)
    ensures
        match absolute {
            Ok(Some(path)) => outcome == Ok::<String, PreferencesError>(path),
            Ok(None) => outcome matches Err(PreferencesError::PathNotUnicode),
            Err(error) => outcome matches Err(PreferencesError::WorkingDir(e)) && e == error,
        },
{
    match absolute {
        Ok(Some(path)) => Ok(path),
        Ok(None) => Err(PreferencesError::PathNotUnicode),
        Err(error) => Err(PreferencesError::WorkingDir(error)),
    }
}

/// Says where the preferences file is: `preferences.yaml` inside the
/// preferences directory, as an absolute path. A relative directory is
/// taken to start from `working_dir`, the directory that the process works
/// in.
pub fn get_preferences_file(maybe_preferences_dir: Option<&str>, working_dir: &str) -> (outcome:
    Result<String, PreferencesError>)
    ensures
        locates(
            outcome,
            match maybe_preferences_dir {
                Some(dir) => Some(dir@),
                None => None,
            },
            working_dir@,
        ),
{
    let preferences_dir = match maybe_preferences_dir {
        Some(dir) => dir,
        None => {
            return Err(PreferencesError::NoPreferencesDir);
        },
    };
    let relative_preferences_path = join(preferences_dir, PREFERENCES_FILENAME);
    proof {
        lemma_file_ends_in_name(preferences_dir@);
    }
    located(absolutize_from(relative_preferences_path.as_str(), working_dir))
}

/// The place of the preferences file hangs on the directory and the working
/// directory alone: two answers for the same two are both a path, and then
/// the same path, or both an error.
pub proof fn lemma_place_is_repeatable(
    first: Result<String, PreferencesError>,
    second: Result<String, PreferencesError>,
    dir: Option<Seq<char>>,
    working_dir: Seq<char>,
)
    requires
        locates(first, dir, working_dir),
        locates(second, dir, working_dir),
    ensures
        first is Ok <==> second is Ok,
        first is Ok <==> dir is Some,
        first is Ok ==> first->Ok_0@ == second->Ok_0@,
{
}

/// What the preferences are, given what the host found at the path of the
/// preferences file: all unset where nothing is there, the meaning of the
/// text where there is one, an error where the file could not be read or
/// its text means nothing.
pub open spec fn answers(outcome: Result<Preferences, PreferencesError>, found: PreferencesFile) -> bool {
    match found {
        PreferencesFile::Missing => outcome == Ok::<Preferences, PreferencesError>(
            Preferences::unset(),
        ),
        PreferencesFile::Unreadable(reason) => outcome matches Err(PreferencesError::Unreadable(r))
            && r == reason,
        PreferencesFile::Text(text) => reports(outcome, preferences_in(text@)),
    }
}

/// Gets the preferences out of what the host found at the path of the
/// preferences file.
pub fn get_preferences_happy_path(found: PreferencesFile) -> (outcome: Result<
    Preferences,
    PreferencesError,
>)
    ensures
        answers(outcome, found),
{
    match found {
        PreferencesFile::Missing => Ok(Preferences::default()),
        PreferencesFile::Unreadable(reason) => Err(PreferencesError::Unreadable(reason)),
        PreferencesFile::Text(text) => parse_preferences(text.as_str()),
    }
}

/// The preferences that the host gets to see: those that were had, or all
/// unset where there was an error.
pub open spec fn or_unset(outcome: Result<Preferences, PreferencesError>) -> Preferences {
    match outcome {
        Ok(preferences) => preferences,
        Err(_) => Preferences::unset(),
    }
}

/// Puts the unset preferences in the place of an error.
pub fn get_preferences_helper(outcome: Result<Preferences, PreferencesError>) -> (preferences:
    Preferences)
    ensures
        preferences == or_unset(outcome),
{
    match outcome {
        Ok(preferences) => preferences,
        Err(_) => Preferences::default(),
    }
}

/// The preferences that the host gets to see for what it found at the path
/// of the preferences file: those that the text spells, and all unset where
/// there is no text or the text spells none.
pub open spec fn preferences_shown(found: PreferencesFile) -> Preferences {
    match found {
        PreferencesFile::Text(text) => match preferences_in(text@) {
            Some(Ok(preferences)) => preferences,
            _ => Preferences::unset(),
        },
        _ => Preferences::unset(),
    }
}

/// Gets the preferences that the host shows for what it found at the path
/// of the preferences file. There is always an answer.
pub fn get_preferences(found: PreferencesFile) -> (preferences: Preferences)
    ensures
        preferences == preferences_shown(found),
{
    get_preferences_helper(get_preferences_happy_path(found))
}

/// Where nothing is at the path of the preferences file, the preferences
/// are all unset and there is no error, whatever the directory.
pub proof fn lemma_missing_file_gives_unset(outcome: Result<Preferences, PreferencesError>)
    requires
        answers(outcome, PreferencesFile::Missing),
    ensures
        outcome == Ok::<Preferences, PreferencesError>(Preferences::unset()),
        or_unset(outcome) == Preferences::unset(),
        preferences_shown(PreferencesFile::Missing) == Preferences::unset(),
{
}

/// A mapping in which the key of each setting is absent or holds a boolean
/// spells preferences: an absent key is unset, a present one is set to the
/// boolean it holds.
pub proof fn lemma_settings_are_read_literally(fields: Map<Seq<char>, YamlKind>)
    requires
        forall|setting: Setting| #[trigger]
            fields.dom().contains(setting.spec_key()) ==> fields[setting.spec_key()] is Bool,
    ensures
        preferences_of(fields) is Ok,
        forall|setting: Setting| #[trigger]
            setting_of(fields, setting) == (if fields.dom().contains(setting.spec_key()) {
                Some(fields[setting.spec_key()]->Bool_0)
            } else {
                None
            }),
        preferences_of(fields)->Ok_0.unceasing_animations == setting_of(
            fields,
            Setting::UnceasingAnimations,
        ),
        preferences_of(fields)->Ok_0.sound_on == setting_of(fields, Setting::SoundOn),
{
    assert(fields.dom().contains(Setting::UnceasingAnimations.spec_key())
        ==> fields[Setting::UnceasingAnimations.spec_key()] is Bool);
    assert(fields.dom().contains(Setting::SoundOn.spec_key()) ==> fields[Setting::SoundOn.spec_key()] is Bool);
}

/// A key that belongs to no setting changes nothing: with it or without
/// it, whatever it holds, the mapping spells the same preferences or the
/// same mistake.
pub proof fn lemma_unrecognized_key_is_ignored(
    fields: Map<Seq<char>, YamlKind>,
    key: Seq<char>,
    kind: YamlKind,
)
    requires
        forall|setting: Setting| key != #[trigger] setting.spec_key(),
    ensures
        preferences_of(fields.insert(key, kind)) == preferences_of(fields),
        preferences_of(fields.remove(key)) == preferences_of(fields),
{
    assert(key != Setting::UnceasingAnimations.spec_key());
    assert(key != Setting::SoundOn.spec_key());
}

/// Two mappings that agree on the keys of the settings spell the same,
/// whatever else they hold.
pub proof fn lemma_only_recognized_keys_count(
    fields: Map<Seq<char>, YamlKind>,
    others: Map<Seq<char>, YamlKind>,
)
    requires
        forall|setting: Setting| #[trigger]
            fields.dom().contains(setting.spec_key()) == others.dom().contains(setting.spec_key()),
        forall|setting: Setting| #[trigger]
            fields.dom().contains(setting.spec_key()) ==> fields[setting.spec_key()]
                == others[setting.spec_key()],
    ensures
        preferences_of(fields) == preferences_of(others),
{
    assert(fields.dom().contains(Setting::UnceasingAnimations.spec_key()) == others.dom().contains(
        Setting::UnceasingAnimations.spec_key(),
    ));
    assert(fields.dom().contains(Setting::SoundOn.spec_key()) == others.dom().contains(
        Setting::SoundOn.spec_key(),
    ));
}

/// Reading the same text twice gives the same: both readings succeed with
/// equal preferences or both fail in the same way, and the host is shown
/// equal preferences.
pub proof fn lemma_reading_is_repeatable(
    first: Result<Preferences, PreferencesError>,
    second: Result<Preferences, PreferencesError>,
    found: PreferencesFile,
)
    requires
        answers(first, found),
        answers(second, found),
    ensures
        first is Ok <==> second is Ok,
        first is Ok ==> first->Ok_0 == second->Ok_0,
        first matches Err(PreferencesError::Unreadable(reason)) ==> second matches Err(
            PreferencesError::Unreadable(again),
        ) && again == reason,
        first matches Err(PreferencesError::Malformed(_)) <==> second matches Err(
            PreferencesError::Malformed(_),
        ),
        first matches Err(PreferencesError::NotABoolean(setting)) ==> second matches Err(
            PreferencesError::NotABoolean(again),
        ) && again == setting,
        or_unset(first) == or_unset(second),
        or_unset(first) == preferences_shown(found),
{
}

} // verus!
