//! The document: a JSON value held from loading on, and its text.

use vstd::prelude::*;
use vstd::utf8::encode_utf8;
use crate::error::{Failure, IdfError};
use crate::json::{error_text, json_error_text, json_parse, json_text, parse_json, render_json};

verus! {

/// A JSON document. It is made by loading and never changes afterwards: no
/// function takes it by mutable reference.
#[derive(Debug)]
pub struct IDF {
    data: serde_json::Value,
}

impl View for IDF {
    type V = serde_json::Value;

    /// The JSON value that the document holds.
    closed spec fn view(&self) -> serde_json::Value {
        self.data
    }
}

/// What reading a file gave, as mathematical values: the bytes, or the reason
/// why there are none.
pub open spec fn read_view(contents: Result<Vec<u8>, String>) -> Result<Seq<u8>, Seq<char>> {
    match contents {
        Ok(bytes) => Ok(bytes@),
        Err(reason) => Err(reason@),
    }
}

/// What a load returned, as mathematical values.
pub open spec fn loaded_view(outcome: Result<IDF, IdfError>) -> Result<serde_json::Value, Failure> {
    match outcome {
        Ok(document) => Ok(document@),
        Err(error) => Err(error@),
    }
}

/// What the printer returned, the text as a sequence of characters.
pub open spec fn printed_view(printed: Result<String, serde_json::Error>) -> Result<
    Seq<char>,
    serde_json::Error,
> {
    match printed {
        Ok(text) => Ok(text@),
        Err(error) => Err(error),
    }
}

/// What rendering returned, as mathematical values.
pub open spec fn data_view(outcome: Result<String, IdfError>) -> Result<Seq<char>, Failure> {
    match outcome {
        Ok(text) => Ok(text@),
        Err(error) => Err(error@),
    }
}

/// The document value that a parser outcome stands for: the parsed value, or
/// a parse failure with the parser's diagnostic.
pub open spec fn accept_result(parsed: Result<serde_json::Value, serde_json::Error>) -> Result<
    serde_json::Value,
    Failure,
> {
    match parsed {
        Ok(value) => Ok(value),
        Err(error) => Err(Failure::Parse(json_error_text(error))),
    }
}

/// Loading, from what the read gave: a failed read is a file access failure
/// with the read's own reason; bytes are parsed as JSON text.
pub open spec fn load_result(contents: Result<Seq<u8>, Seq<char>>) -> Result<
    serde_json::Value,
    Failure,
> {
    match contents {
        Ok(bytes) => accept_result(json_parse(bytes)),
        Err(reason) => Err(Failure::FileAccess(reason)),
    }
}

/// The data that a printer outcome stands for: the text, or a serialization
/// failure with the printer's diagnostic.
pub open spec fn data_result(printed: Result<Seq<char>, serde_json::Error>) -> Result<
    Seq<char>,
    Failure,
> {
    match printed {
        Ok(text) => Ok(text),
        Err(error) => Err(Failure::Serialization(json_error_text(error))),
    }
}

impl IDF {
    /// `outcome` is what [`IDF::get_data`] returns for this document: the
    /// JSON text of the value it holds, and never a failure.
    pub open spec fn has_data(&self, outcome: Result<String, IdfError>) -> bool {
        outcome matches Ok(text) && text@ == json_text(self@)
    }

    /// Loads a document from what reading its file gave. A failed read is
    /// reported as `FileAccess` with the reason handed in; bytes that do not
    /// parse as `Parse` with the parser's diagnostic; otherwise the document
    /// holds the parsed value, whatever JSON type its root has.
    pub fn new(contents: Result<Vec<u8>, String>) -> (outcome: Result<IDF, IdfError>)
        ensures
            loaded_view(outcome) == load_result(read_view(contents)),
    {
        match contents {
            Ok(bytes) => IDF::from_bytes(bytes.as_slice()),
            Err(reason) => Err(IdfError::FileAccess(reason)),
        }
    }

    /// Parses `bytes` as JSON text and keeps the value.
    pub fn from_bytes(bytes: &[u8]) -> (outcome: Result<IDF, IdfError>)
        ensures
            loaded_view(outcome) == load_result(Ok(bytes@)),
    {
        IDF::from_parsed(parse_json(bytes))
    }

    /// Turns the parser's outcome into a document or a `Parse` error.
    pub fn from_parsed(parsed: Result<serde_json::Value, serde_json::Error>) -> (outcome: Result<
        IDF,
        IdfError,
    >)
        ensures
            loaded_view(outcome) == accept_result(parsed),
    {
        match parsed {
            Ok(data) => Ok(IDF { data }),
            Err(error) => Err(IdfError::Parse(error_text(&error))),
        }
    }

    /// Renders the stored value as JSON text. This always succeeds, and the
    /// document is left as it was.
    pub fn get_data(&self) -> (outcome: Result<String, IdfError>)
        ensures
            self.has_data(outcome),
    {
        IDF::data_from_printed(render_json(&self.data))
    }

    /// Turns the printer's outcome into the data or a `Serialization` error.
    pub fn data_from_printed(printed: Result<String, serde_json::Error>) -> (outcome: Result<
        String,
        IdfError,
    >)
        ensures
            data_view(outcome) == data_result(printed_view(printed)),
    {
        match printed {
            Ok(text) => Ok(text),
            Err(error) => Err(IdfError::Serialization(error_text(&error))),
        }
    }
}

/// Which outcome loading has, case by case. It succeeds exactly when the read
/// gave bytes that parse, and then with the parsed value. It is a file access
/// failure exactly when the read failed, and then with the read's reason. It is
/// a parse failure exactly when the read gave bytes that do not parse, and then
/// with the parser's diagnostic. It is never a serialization failure.
pub proof fn lemma_load_outcomes(contents: Result<Seq<u8>, Seq<char>>)
    ensures
        load_result(contents) is Ok <==> (contents matches Ok(bytes) && json_parse(bytes) is Ok),
        load_result(contents) matches Ok(value) ==> (contents matches Ok(bytes) && json_parse(bytes)
            matches Ok(parsed) && parsed == value),
        (load_result(contents) matches Err(failure) && failure is FileAccess) <==> contents is Err,
        contents matches Err(reason) ==> (load_result(contents) matches Err(failure) && failure
            == Failure::FileAccess(reason)),
        (load_result(contents) matches Err(failure) && failure is Parse) <==> (contents matches Ok(
            bytes,
        ) && json_parse(bytes) is Err),
        contents matches Ok(bytes) ==> (json_parse(bytes) matches Err(error) ==> (load_result(
            contents,
        ) matches Err(failure) && failure == Failure::Parse(json_error_text(error)))),
        !(load_result(contents) matches Err(failure) && failure is Serialization),
{
}

/// Loading well-formed text and asking for the data: the load succeeds, the
/// document holds the value that the text parses to, and the data is the JSON
/// text of that value. Here `loaded` is what [`IDF::new`] returned for a read
/// that gave `bytes`, and `data` what [`IDF::get_data`] returned for the
/// loaded document.
pub proof fn lemma_loaded_data_is_text_of_parse(
    bytes: Seq<u8>,
    loaded: Result<IDF, IdfError>,
    data: Result<String, IdfError>,
)
    requires
        json_parse(bytes) is Ok,
        loaded_view(loaded) == load_result(Ok(bytes)),
        loaded matches Ok(document) ==> document.has_data(data),
    ensures
        loaded matches Ok(document) && json_parse(bytes) matches Ok(value) && document@ == value,
        data matches Ok(text) && json_parse(bytes) matches Ok(value) && text@ == json_text(value),
{
}

/// Whether the JSON printer and parser agree on `value`: the text that the
/// printer gives for it, encoded as UTF-8, parses to `value` again.
pub open spec fn reparses(value: serde_json::Value) -> bool {
    json_parse(encode_utf8(json_text(value))) matches Ok(again) && again == value
}

/// Round trip through a document, for text whose value the printer and the
/// parser agree on: the load succeeds, asking for the data succeeds, and
/// loading the data in turn gives the very value that the text gave. Whether
/// the printer and the parser agree on every value is a matter of `serde_json`
/// and is not proved here. As above, `loaded` is what [`IDF::new`] returned for
/// a read that gave `bytes`, and `data` what [`IDF::get_data`] returned for the
/// loaded document.
pub proof fn lemma_round_trip_where_printer_and_parser_agree(
    bytes: Seq<u8>,
    loaded: Result<IDF, IdfError>,
    data: Result<String, IdfError>,
)
    requires
        json_parse(bytes) matches Ok(value) && reparses(value),
        loaded_view(loaded) == load_result(Ok(bytes)),
        loaded matches Ok(document) ==> document.has_data(data),
    ensures
        loaded is Ok,
        data matches Ok(text) && load_result(Ok(encode_utf8(text@))) == load_result(Ok(bytes)),
{
}

/// Asking one document for its data twice gives the same text both times.
pub proof fn lemma_get_data_repeatable(
    document: IDF,
    first: Result<String, IdfError>,
    second: Result<String, IdfError>,
)
    requires
        document.has_data(first),
        document.has_data(second),
    ensures
        first matches Ok(one) && second matches Ok(other) && one@ == other@,
{
}

} // verus!
