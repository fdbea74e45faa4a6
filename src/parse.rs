//! Reading a document from GeoJSON text.
use vstd::prelude::*;
use vstd::string::StringExecFns;

verus! {

#[verifier::external_type_specification]
#[verifier::external_body]
pub struct ExGeoJson(geojson::GeoJson);

/// The text given to a document was not GeoJSON; `message` says so and
/// carries the parser's own account of what is wrong.
pub struct InvalidGeoJson {
    pub message: String,
}

/// Whether geojson's parser accepts `text` as a geometry, a feature or a
/// feature collection.
pub uninterp spec fn accepts_geojson(text: Seq<char>) -> bool;

/// The message of the error that geojson's parser gives for `text`.
pub uninterp spec fn parse_error_message(text: Seq<char>) -> Seq<char>;

/// The words that open the message of an [`InvalidGeoJson`].
pub open spec fn invalid_prefix() -> Seq<char> {
    "Invalid GeoJSON string: "@
}

/// Relies on geojson's `FromStr` for `GeoJson`, which reads the text with
/// `serde_json::from_str` and so depends on the text alone (an empty text
/// holds no JSON value and is refused), and on the `Display` of
/// `geojson::Error` for the message of a refusal.
#[verifier::external_body]
fn parse_geojson(text: &str) -> (r: Result<geojson::GeoJson, String>)
    ensures
        r is Ok <==> accepts_geojson(text@),
        r matches Err(m) ==> m@ == parse_error_message(text@),
        text@.len() == 0 ==> r is Err,
{
    match text.parse::<geojson::GeoJson>() {
        Ok(doc) => Ok(doc),
        Err(e) => Err(e.to_string()),
    }
}

/// Parses GeoJSON text: a bare geometry, a feature or a feature collection.
/// Text that the parser refuses (an empty text among it) gives an
/// [`InvalidGeoJson`] whose message is the fixed prefix followed by the
/// parser's message.
pub fn parse_document(text: &str) -> (r: Result<geojson::GeoJson, InvalidGeoJson>)
    ensures
        r is Ok <==> accepts_geojson(text@),
        r matches Err(e) ==> e.message@ == invalid_prefix() + parse_error_message(text@),
        text@.len() == 0 ==> r is Err,
{
    match parse_geojson(text) {
        Ok(doc) => Ok(doc),
        Err(m) => {
            proof {
                reveal_strlit("Invalid GeoJSON string: ");
            }
            let message = "Invalid GeoJSON string: ".to_owned().concat(m.as_str());
            Err(InvalidGeoJson { message })
        },
    }
}

} // verus!
