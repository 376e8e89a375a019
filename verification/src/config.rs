//! The stored API key: what the configuration file holds and how it is filled.
//!
//! The file is an INI file with one key in its general section. Reading and
//! writing the file is the caller's part; this module decides what is written
//! and what is read out of it.

use vstd::prelude::*;
use ini::Ini;
use crate::text::{trim, trimmed};

verus! {

/// The name of the configuration file, which lies in the user's home directory.
pub const FILE_NAME: &'static str = "git_ai.ini";

/// The key under which the API key is stored.
pub const KEY_NAME: &'static str = "OPENAI_API_KEY";

/// What the user is asked when the API key is needed.
pub const KEY_PROMPT: &'static str = "Please enter your OpenAI API key: ";

/// The configuration type of the crate `ini`.
#[verifier::external_type_specification]
#[verifier::external_body]
pub struct ExIni(Ini);

/// What the general section of a configuration holds: for each key, its first value.
pub uninterp spec fn general_values(conf: Ini) -> Map<Seq<char>, Seq<char>>;

/// A general section that holds no key.
pub open spec fn nothing_stored() -> Map<Seq<char>, Seq<char>> {
    Map::empty()
}

/// Calls `Ini::new`, which gives a configuration with an empty general section.
#[verifier::external_body]
fn empty_configuration() -> (conf: Ini)
    ensures
        general_values(conf) == nothing_stored(),
{
    Ini::new()
}

/// Calls `Ini::set_to` for the general section, which gives `key` the one value
/// `value` there and leaves the other keys as they are.
#[verifier::external_body]
fn set_general(conf: &mut Ini, key: &str, value: &str)
    ensures
        general_values(*final(conf)) == general_values(*old(conf)).insert(key@, value@),
{
    conf.set_to(None::<String>, key.to_string(), value.to_string());
}

/// Calls `Ini::get_from` for the general section, which gives the first value of
/// `key` there, if the section has the key.
#[verifier::external_body]
fn get_general(conf: &Ini, key: &str) -> (value: Option<String>)
    ensures
        value is Some <==> general_values(*conf).contains_key(key@),
        value matches Some(text) ==> text@ == general_values(*conf)[key@],
{
    conf.get_from(None::<String>, key).map(|text| text.to_string())
}

/// What to do next to get the API key.
#[derive(Debug, Clone, PartialEq, Eq)]
pub enum KeyStep {
    /// The key is stored: use it.
    Use(String),
    /// No key is stored: ask the user for it, store it, and read the file again.
    Ask,
    /// No key is stored although the user was asked: there is none to be had.
    GiveUp,
}

/// What to do next to get the API key, as plain values.
pub enum KeyStepView {
    Use(Seq<char>),
    Ask,
    GiveUp,
}

impl View for KeyStep {
    type V = KeyStepView;

    open spec fn view(&self) -> KeyStepView {
        match self {
            KeyStep::Use(key) => KeyStepView::Use(key@),
            KeyStep::Ask => KeyStepView::Ask,
            KeyStep::GiveUp => KeyStepView::GiveUp,
        }
    }
}

/// The API key that a configuration file holds, where it could be read and has one.
pub open spec fn stored_key(stored: Option<&Ini>) -> Option<Seq<char>> {
    match stored {
        Some(conf) => if general_values(*conf).contains_key(KEY_NAME@) {
            Some(general_values(*conf)[KEY_NAME@])
        } else {
            None
        },
        None => None,
    }
}

/// The configuration file and the API key in it.
#[derive(Debug)]
pub struct ConfigManager;

impl ConfigManager {
    /// The configuration that stores what the user entered as the API key. White
    /// space around the entry is dropped.
    pub fn init(entered: &str) -> (conf: Ini)
        ensures
            general_values(conf) == nothing_stored().insert(
                KEY_NAME@,
                trimmed(entered@),
            ),
    {
        let mut conf = empty_configuration();
        set_general(&mut conf, KEY_NAME, trim(entered));
        conf
    }

    /// The API key in the configuration that was read from the file; `stored`
    /// is `None` where the file is missing or cannot be read.
    pub fn api_key(stored: Option<&Ini>) -> (key: Option<String>)
        ensures
            key is Some <==> stored_key(stored) is Some,
            key matches Some(text) ==> text@ == stored_key(stored).unwrap(),
    {
        match stored {
            Some(conf) => get_general(conf, KEY_NAME),
            None => None,
        }
    }

    /// Decides how the API key is got. A stored key is used. Without one the
    /// user is asked once, and the file is read again after the answer was
    /// stored; `asked` says whether that has happened.
    pub fn get_open_api_key(stored: Option<&Ini>, asked: bool) -> (step: KeyStep)
        ensures
            step@ == match stored_key(stored) {
                Some(key) => KeyStepView::Use(key),
                None => if asked {
                    KeyStepView::GiveUp
                } else {
                    KeyStepView::Ask
                },
            },
    {
        match ConfigManager::api_key(stored) {
            Some(key) => KeyStep::Use(key),
            None => if asked {
                KeyStep::GiveUp
            } else {
                KeyStep::Ask
            },
        }
    }
}

/// A key that was just stored is the one that is read back.
pub proof fn stored_entry_is_read_back(conf: Ini, entered: Seq<char>)
    requires
        general_values(conf) == nothing_stored().insert(
            KEY_NAME@,
            trimmed(entered),
        ),
    ensures
        stored_key(Some(&conf)) == Some(trimmed(entered)),
{
}

} // verus!
