//! The requests that the zone's HTTP interface takes.

use vstd::prelude::*;

verus! {

/// The host of the zone.
pub const FACTORIO_ZONE_ENDPOINT: &'static str = "factorio.zone";

/// A form to be posted.
pub struct FormRequest {
    pub url: String,
    /// The fields of the form, each name once.
    pub fields: Vec<(String, String)>,
    /// How many seconds the answer may take, where that is limited.
    pub timeout_secs: Option<u64>,
}

/// What a [`FormRequest`] says.
pub struct FormRequestView {
    pub url: Seq<char>,
    pub fields: Seq<(Seq<char>, Seq<char>)>,
    pub timeout_secs: Option<u64>,
}

/// The view of a list of fields.
pub open spec fn fields_view(fields: Seq<(String, String)>) -> Seq<(Seq<char>, Seq<char>)> {
    fields.map_values(|f: (String, String)| (f.0@, f.1@))
}

impl View for FormRequest {
    type V = FormRequestView;

    open spec fn view(&self) -> FormRequestView {
        FormRequestView {
            url: self.url@,
            fields: fields_view(self.fields@),
            timeout_secs: self.timeout_secs,
        }
    }
}

impl FormRequestView {
    /// Whether no name occurs twice among the fields.
    pub open spec fn names_differ(self) -> bool {
        forall|i: int, k: int|
            0 <= i < k < self.fields.len() ==> (#[trigger] self.fields[i]).0 != (
            #[trigger] self.fields[k]).0
    }

    /// Whether the form has a field with this name and this value.
    pub open spec fn has(self, name: Seq<char>, value: Seq<char>) -> bool {
        self.fields.contains((name, value))
    }
}

/// The address of a page of the zone's interface.
pub open spec fn page_url(path: Seq<char>) -> Seq<char> {
    "https://"@ + FACTORIO_ZONE_ENDPOINT@ + path
}

/// Writes the address of a page of the zone's interface.
pub fn make_page_url(path: &str) -> (r: String)
    ensures
        r@ == page_url(path@),
{
    "https://".to_owned().concat(FACTORIO_ZONE_ENDPOINT).concat(path)
}

/// Writes the address of the zone's stream of messages.
pub fn socket_url() -> (r: String)
    ensures
        r@ == "wss://"@ + FACTORIO_ZONE_ENDPOINT@ + "/ws"@,
{
    "wss://".to_owned().concat(FACTORIO_ZONE_ENDPOINT).concat("/ws")
}

/// Writes the network address at which the stream of messages is served.
pub fn socket_host() -> (r: String)
    ensures
        r@ == FACTORIO_ZONE_ENDPOINT@ + ":443"@,
{
    FACTORIO_ZONE_ENDPOINT.to_owned().concat(":443")
}

/// A field of a form.
pub fn field(name: &str, value: &str) -> (r: (String, String))
    ensures
        r.0@ == name@,
        r.1@ == value@,
{
    (name.to_owned(), value.to_owned())
}

} // verus!
