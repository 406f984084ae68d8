//! The save and load commands, as the decisions around the store's read and
//! write.
//!
//! Encoding a document to text, decoding text to a document, and running the
//! table's statements are done by the caller; each function here takes the
//! outcome of one such step and says what comes next.
use vstd::prelude::*;
use vstd::string::StringExecFns;
use crate::config::{AppConfig, empty_config};
use crate::error::ConfigError;
use crate::store::{
    CONFIG_KEY, PutRow, Table, after_init, after_put, after_puts, settings_row,
};

verus! {

/// `row` is the row that saving the encoded document writes: the text under the settings key.
pub open spec fn is_settings_row(row: PutRow, encoded: Seq<char>) -> bool {
    &&& row.key@ == CONFIG_KEY@
    &&& row.value@ == encoded
}

/// The row that a save writes, from the outcome of encoding the document.
///
/// An encoded document is written whole under the settings key; a failure to
/// encode is a `Serialize` failure with its cause, and nothing is written.
pub fn save_row(encoded: Result<String, String>) -> (r: Result<PutRow, ConfigError>)
    ensures
        r is Ok <==> encoded is Ok,
        encoded matches Ok(text) ==> r matches Ok(row) && is_settings_row(row, text@)
            && row.value == text,
        encoded matches Err(cause) ==> r == Err::<PutRow, ConfigError>(
            ConfigError::Serialize(cause),
        ),
{
    match encoded {
        Ok(text) => Ok(PutRow { key: String::from_str(CONFIG_KEY), value: text }),
        Err(cause) => Err(ConfigError::Serialize(cause)),
    }
}

/// The result of a save, from the outcome of writing its row.
pub fn save_outcome(written: Result<(), String>) -> (r: Result<(), ConfigError>)
    ensures
        r is Ok <==> written is Ok,
        written matches Err(cause) ==> r == Err::<(), ConfigError>(ConfigError::Write(cause)),
{
    match written {
        Ok(()) => Ok(()),
        Err(cause) => Err(ConfigError::Write(cause)),
    }
}

/// What a load does once the settings row has been read.
#[derive(Debug, PartialEq)]
pub enum LoadStep {
    /// The load is over, with this result.
    Done(Result<AppConfig, ConfigError>),
    /// The row holds this text, which is to be decoded into the document.
    Decode(String),
}

/// The step that follows reading the settings row.
pub open spec fn load_step_of(read: Result<Option<String>, String>) -> LoadStep {
    match read {
        Ok(None) => LoadStep::Done(Ok(empty_config())),
        Ok(Some(text)) => LoadStep::Decode(text),
        Err(cause) => LoadStep::Done(Err(ConfigError::Read(cause))),
    }
}

/// The step that follows reading the settings row: a missing row gives the
/// blank document (no failure), a present one is decoded, and a failed read is
/// a `Read` failure with its cause.
pub fn load_step(read: Result<Option<String>, String>) -> (r: LoadStep)
    ensures
        r == load_step_of(read),
{
    match read {
        Ok(None) => LoadStep::Done(Ok(AppConfig::default())),
        Ok(Some(text)) => LoadStep::Decode(text),
        Err(cause) => LoadStep::Done(Err(ConfigError::Read(cause))),
    }
}

/// The result of a load, from the outcome of decoding the row's text.
pub open spec fn load_outcome_of(decoded: Result<AppConfig, String>) -> Result<AppConfig, ConfigError> {
    match decoded {
        Ok(config) => Ok(config),
        Err(cause) => Err(ConfigError::Deserialize(cause)),
    }
}

/// The result of a load, from the outcome of decoding the row's text: the
/// decoded document as it is, or a `Deserialize` failure with its cause.
pub fn load_outcome(decoded: Result<AppConfig, String>) -> (r: Result<AppConfig, ConfigError>)
    ensures
        r == load_outcome_of(decoded),
{
    match decoded {
        Ok(config) => Ok(config),
        Err(cause) => Err(ConfigError::Deserialize(cause)),
    }
}

/// Loading from a store in which nothing was ever saved succeeds with the
/// blank document: a freshly created table has no settings row, and a read
/// that finds none ends the load with every field absent.
pub proof fn lemma_empty_store_loads_blank()
    ensures
        settings_row(after_init(None)) is None,
        load_step_of(Ok(None)) == LoadStep::Done(Ok(empty_config())),
        empty_config().is_blank(),
{
}

/// A load after a save gets back the saved document: the settings row then
/// holds exactly the text that the save wrote, whatever the table held
/// before, that text goes to be decoded, and the decoded document is returned
/// as it is.
pub proof fn lemma_save_then_load(t: Table, row: PutRow, text: String, config: AppConfig)
    requires
        is_settings_row(row, text@),
    ensures
        settings_row(after_put(t, row)) == Some(text@),
        load_step_of(Ok(Some(text))) == LoadStep::Decode(text),
        load_outcome_of(Ok(config)) == Ok::<AppConfig, ConfigError>(config),
{
}

/// A save replaces the document whole: after two saves the settings row holds
/// exactly the second one's text, and nothing of the first.
pub proof fn lemma_last_save_wins(t: Table, first: PutRow, second: PutRow, text1: Seq<char>, text2: Seq<char>)
    requires
        is_settings_row(first, text1),
        is_settings_row(second, text2),
    ensures
        settings_row(after_put(after_put(t, first), second)) == Some(text2),
{
}

/// Saves that run one at a time, in whatever order they are let through,
/// leave the settings row holding the whole text of one of them: the last.
pub proof fn lemma_serialized_saves(t: Table, rows: Seq<PutRow>, texts: Seq<Seq<char>>)
    requires
        rows.len() == texts.len(),
        rows.len() > 0,
        forall|i: int| 0 <= i < rows.len() ==> is_settings_row(#[trigger] rows[i], texts[i]),
    ensures
        settings_row(after_puts(t, rows)) == Some(texts.last()),
        exists|i: int| 0 <= i < texts.len() && settings_row(after_puts(t, rows)) == Some(texts[i]),
{
    assert(is_settings_row(rows[rows.len() - 1], texts[texts.len() - 1]));
    assert(after_puts(t, rows) == after_put(after_puts(t, rows.drop_last()), rows.last()));
}

} // verus!
