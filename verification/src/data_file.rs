//! The data file: how the data is written down as JSON, and what is read back.

use std::collections::HashMap;

use vstd::prelude::*;

use crate::data_map;
use crate::data_map::DataMap;

verus! {

/// The error of a map that could not be written as JSON. Opaque: it does not come.
#[verifier::external_type_specification]
#[verifier::external_body]
pub struct ExJsonError(serde_json::Error);

/// Why a text is not the JSON of a data map.
#[derive(Debug)]
pub struct JsonFault {
    /// Whether the text ends too early, so that more of it could make it right.
    pub cut_short: bool,
    /// What the parser says of it.
    pub message: String,
}

/// The map that `serde_json` reads out of a text that is the JSON of a map from strings to
/// byte arrays; of another text, whether it ends too early, and what `serde_json` says.
pub uninterp spec fn parsed_data(text: Seq<char>) -> Result<
    Map<Seq<char>, Seq<u8>>,
    (bool, Seq<char>),
>;

/// Calls `serde_json::from_str` for a map from strings to byte arrays, and lists the
/// entries of the map, or takes the kind and the message out of the error. Whether the
/// text is such a map, which one, and what the error is otherwise depend on the text
/// alone; the order of the entries is left open.
#[verifier::external_body]
fn parse_entries(text: &str) -> (entries: Result<Vec<(String, Vec<u8>)>, JsonFault>)
    ensures
        match entries {
            Ok(entries) => data_map::distinct_keys(entries@) && parsed_data(text@) == Ok::<
                Map<Seq<char>, Seq<u8>>,
                (bool, Seq<char>),
            >(data_map::map_of(entries@)),
            Err(fault) => parsed_data(text@) == Err::<Map<Seq<char>, Seq<u8>>, (bool, Seq<char>)>(
                (fault.cut_short, fault.message@),
            ),
        },
{
    match serde_json::from_str::<HashMap<String, Vec<u8>>>(text) {
        Ok(map) => Ok(map.into_iter().collect()),
        Err(error) => Err(JsonFault { cut_short: error.is_eof(), message: error.to_string() }),
    }
}

/// Whether a text is the JSON of this map.
pub open spec fn holds_data(text: Seq<char>, map: Map<Seq<char>, Seq<u8>>) -> bool {
    parsed_data(text) == Ok::<Map<Seq<char>, Seq<u8>>, (bool, Seq<char>)>(map)
}

/// Calls `serde_json::to_string` on a map from strings to byte arrays that has these
/// entries. It fails only on keys that are no strings and on values that refuse to be
/// written, so not here. The text depends on the order in which the map is walked; that
/// `serde_json::from_str` reads the same map back out of it does not.
#[verifier::external_body]
fn write_entries(entries: &Vec<(String, Vec<u8>)>) -> (text: Result<String, serde_json::Error>)
    requires
        data_map::distinct_keys(entries@),
    ensures
        text matches Ok(text) && holds_data(text@, data_map::map_of(entries@)),
{
    let map: HashMap<String, Vec<u8>> = entries.iter().cloned().collect();
    serde_json::to_string(&map)
}

/// Why a data file could not be taken over.
#[derive(Debug)]
pub enum DataError {
    /// It could not be read.
    Unreadable,
    /// Its text ends before the JSON of a data map does; with what the parser says.
    UnexpectedEof(String),
    /// Its text is otherwise not the JSON of a data map; with what the parser says.
    InvalidData(String),
}

impl DataError {
    /// Whether this is the error for what the parser found at fault.
    pub open spec fn reports(self, cut_short: bool, message: Seq<char>) -> bool {
        match self {
            DataError::Unreadable => false,
            DataError::UnexpectedEof(text) => cut_short && text@ == message,
            DataError::InvalidData(text) => !cut_short && text@ == message,
        }
    }

    /// The error for what the parser found at fault.
    pub fn from_fault(fault: JsonFault) -> (error: DataError)
        ensures
            error.reports(fault.cut_short, fault.message@),
    {
        if fault.cut_short {
            DataError::UnexpectedEof(fault.message)
        } else {
            DataError::InvalidData(fault.message)
        }
    }
}

/// Reads the data out of the text of a data file.
pub fn read_data(contents: &str) -> (data: Result<DataMap, DataError>)
    ensures
        match parsed_data(contents@) {
            Ok(map) => data matches Ok(data) && data@ == map,
            Err((cut_short, message)) => data matches Err(error) && error.reports(
                cut_short,
                message,
            ),
        },
{
    match parse_entries(contents) {
        Ok(entries) => Ok(DataMap::from_entries(entries)),
        Err(fault) => Err(DataError::from_fault(fault)),
    }
}

/// Writes the data down as the text of a data file.
pub fn write_data(map: &DataMap) -> (contents: String)
    ensures
        holds_data(contents@, map@),
{
    write_entries(map.entries()).unwrap()
}

/// The data to start with, given the text of the data file, or none where the file could
/// not be read.
pub open spec fn loaded(contents: Option<Seq<char>>) -> Map<Seq<char>, Seq<u8>> {
    match contents {
        Some(text) => match parsed_data(text) {
            Ok(map) => map,
            Err(_) => Map::empty(),
        },
        None => Map::empty(),
    }
}

/// The data that was read, or none where it could not be taken over.
pub fn data_or_empty(data: Result<DataMap, DataError>) -> (map: DataMap)
    ensures
        map@ == (match data {
            Ok(data) => data@,
            Err(_) => Map::empty(),
        }),
{
    match data {
        Ok(map) => map,
        Err(_) => DataMap::new(),
    }
}

/// Takes over the data of the data file, and starts with none where the file cannot be
/// read or does not hold data.
pub fn load_map(contents: Option<String>) -> (map: DataMap)
    ensures
        map@ == loaded(
            match contents {
                Some(text) => Some(text@),
                None => None,
            },
        ),
{
    data_or_empty(
        match contents {
            Some(text) => read_data(text.as_str()),
            None => Err(DataError::Unreadable),
        },
    )
}

/// What [`write_data`] has written, [`load_map`] takes over in full.
pub proof fn written_data_is_loaded_back(contents: Seq<char>, map: Map<Seq<char>, Seq<u8>>)
    requires
        holds_data(contents, map),
    ensures
        loaded(Some(contents)) == map,
{
}

/// A text is read as just the map that the parser finds in it; where it finds none, the error
/// says whether the text ends too early, and what the parser says.
pub proof fn text_is_read_as_the_parser_finds_it(text: &str, data: Result<DataMap, DataError>)
    requires
        call_ensures(read_data, (text,), data),
    ensures
        match parsed_data(text@) {
            Ok(map) => data matches Ok(data) && data@ == map,
            Err((true, message)) => data matches Err(DataError::UnexpectedEof(said)) && said@
                == message,
            Err((false, message)) => data matches Err(DataError::InvalidData(said)) && said@
                == message,
        },
{
}

/// A service starts with just the map that the parser finds in the text of the data file,
/// and with none where there is no text or the parser finds no map in it.
pub proof fn start_is_what_the_parser_finds(contents: Option<String>, map: DataMap)
    requires
        call_ensures(load_map, (contents,), map),
    ensures
        contents is None ==> map@ == Map::<Seq<char>, Seq<u8>>::empty(),
        contents matches Some(text) ==> (match parsed_data(text@) {
            Ok(found) => map@ == found,
            Err(_) => map@ == Map::<Seq<char>, Seq<u8>>::empty(),
        }),
{
}

/// Whatever a map holds, it is all there again, and nothing else is, after it was written
/// down and loaded.
pub proof fn map_survives_its_file(map: DataMap, contents: String, back: DataMap)
    requires
        call_ensures(write_data, (&map,), contents),
        call_ensures(load_map, (Some(contents),), back),
    ensures
        back@ == map@,
{
}

} // verus!
