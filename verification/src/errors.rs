//! The client's error taxonomy.

use crate::decimal::decimal_of;
use crate::decimal::lemma_decimal_injective;
use crate::decimal::u16_decimal;
use hyper::Error as HttpError;
use std::io::Error as IoError;
use vstd::prelude::*;
use vstd::std_specs::convert::FromSpec;
use vstd::string::StringExecFns;

verus! {

/// hyper's transport-layer failure type, opaque here; carried verbatim by
/// the `Transport` variant.
#[verifier::external_type_specification]
#[verifier::external_body]
pub struct ExHyperError(HttpError);

/// rustc_serialize's JSON decode failure type, opaque here; carried
/// verbatim by the `Decoding` variant.
#[verifier::external_type_specification]
#[verifier::external_body]
pub struct ExDecoderError(rustc_serialize::json::DecoderError);

/// rustc_serialize's JSON encode failure type, opaque here; carried
/// verbatim by the `Encoding` variant.
#[verifier::external_type_specification]
#[verifier::external_body]
pub struct ExEncoderError(rustc_serialize::json::EncoderError);

/// rustc_serialize's JSON parse failure type, opaque here; carried
/// verbatim by the `Parse` variant.
#[verifier::external_type_specification]
#[verifier::external_body]
pub struct ExParserError(rustc_serialize::json::ParserError);

/// std's I/O failure type, which vstd does not specify; carried verbatim
/// by the `IO` variant.
#[verifier::external_type_specification]
#[verifier::external_body]
pub struct ExIoError(IoError);

/// One failure of the client, classified by origin.
///
/// The five wrapped variants carry the collaborator's own failure value
/// unchanged; `Fault` is built directly by the client when the service
/// answers with a non-success status.
#[derive(Debug)]
pub enum Error {
    Decoding(rustc_serialize::json::DecoderError),
    Encoding(rustc_serialize::json::EncoderError),
    Parse(rustc_serialize::json::ParserError),
    Transport(HttpError),
    IO(IoError),
    Fault { code: u16, message: String },
}

/// A borrowed view of the underlying failure inside a wrapped variant,
/// for diagnostic chaining; `Fault` yields none.
pub enum Cause<'a> {
    Decoding(&'a rustc_serialize::json::DecoderError),
    Encoding(&'a rustc_serialize::json::EncoderError),
    Parse(&'a rustc_serialize::json::ParserError),
    Transport(&'a HttpError),
    IO(&'a IoError),
}

/// The cause of an error: the wrapped collaborator failure, or none for
/// `Fault`.
pub open spec fn spec_cause<'a>(err: &'a Error) -> Option<Cause<'a>> {
    match err {
        Error::Decoding(e) => Some(Cause::Decoding(e)),
        Error::Encoding(e) => Some(Cause::Encoding(e)),
        Error::Parse(e) => Some(Cause::Parse(e)),
        Error::Transport(e) => Some(Cause::Transport(e)),
        Error::IO(e) => Some(Cause::IO(e)),
        Error::Fault { .. } => None,
    }
}

impl Error {
    /// The underlying failure value for the five wrapped variants;
    /// `Fault` originates here and has no cause.
    pub fn cause(&self) -> (r: Option<Cause>)
        ensures
            r == spec_cause(self),
    {
        match self {
            Error::Decoding(e) => Some(Cause::Decoding(e)),
            Error::Encoding(e) => Some(Cause::Encoding(e)),
            Error::Parse(e) => Some(Cause::Parse(e)),
            Error::Transport(e) => Some(Cause::Transport(e)),
            Error::IO(e) => Some(Cause::IO(e)),
            Error::Fault { .. } => None,
        }
    }

    /// A fixed short name of the error domain, the same for every variant.
    pub fn description(&self) -> (r: &'static str)
        ensures
            r@ == "Ordoo Error"@,
    {
        "Ordoo Error"
    }
}

/// The fixed marker that opens every rendering and names the client
/// domain.
pub open spec fn display_prefix() -> Seq<char> {
    "Docker Error: "@
}

/// A full rendering: the domain marker followed by the origin-specific
/// text.
pub open spec fn rendered(inner: Seq<char>) -> Seq<char> {
    display_prefix() + inner
}

/// The rendering of a `Fault` with this status code: the marker followed
/// by the code's decimal numeral alone — the message is deliberately not
/// part of it.
pub open spec fn fault_rendering(code: u16) -> Seq<char> {
    rendered(decimal_of(code as nat))
}

/// Prepend the domain marker to an origin-specific rendering.
pub fn prefixed(inner: &str) -> (r: String)
    ensures
        r@ == rendered(inner@),
        display_prefix().is_prefix_of(r@),
{
    let mut s = "Docker Error: ".to_owned();
    s.append(inner);
    proof {
        assert(display_prefix() =~= s@.subrange(0, display_prefix().len() as int));
    }
    s
}

/// Relies on the `Display` impl of rustc_serialize's `DecoderError`: the
/// decode failure's own one-line rendering.
#[verifier::external_body]
fn render_decoding(e: &rustc_serialize::json::DecoderError) -> String {
    format!("{}", e)
}

/// Relies on the `Display` impl of rustc_serialize's `EncoderError`: the
/// encode failure's own one-line rendering.
#[verifier::external_body]
fn render_encoding(e: &rustc_serialize::json::EncoderError) -> String {
    format!("{}", e)
}

/// Relies on the `Display` impl of rustc_serialize's `ParserError`: the
/// parse failure's own one-line rendering.
#[verifier::external_body]
fn render_parse(e: &rustc_serialize::json::ParserError) -> String {
    format!("{}", e)
}

/// Relies on the `Display` impl of hyper's `Error`: the transport
/// failure's own one-line rendering.
#[verifier::external_body]
fn render_transport(e: &HttpError) -> String {
    format!("{}", e)
}

/// Relies on the `Display` impl of `std::io::Error`: the I/O failure's
/// own one-line rendering.
#[verifier::external_body]
fn render_io(e: &IoError) -> String {
    format!("{}", e)
}

impl Error {
    /// The one-line rendering: the domain marker, then the wrapped
    /// failure's own rendering forwarded verbatim, or, for `Fault`, the
    /// status code's decimal numeral (never the message).
    pub fn display_string(&self) -> (r: String)
        ensures
            display_prefix().is_prefix_of(r@),
            self matches Error::Fault { code, .. } ==> r@ == fault_rendering(*code),
    {
        match self {
            Error::Decoding(e) => prefixed(render_decoding(e).as_str()),
            Error::Encoding(e) => prefixed(render_encoding(e).as_str()),
            Error::Parse(e) => prefixed(render_parse(e).as_str()),
            Error::Transport(e) => prefixed(render_transport(e).as_str()),
            Error::IO(e) => prefixed(render_io(e).as_str()),
            Error::Fault { code, .. } => prefixed(u16_decimal(*code).as_str()),
        }
    }
}

impl From<rustc_serialize::json::DecoderError> for Error {
    /// A decode failure becomes `Decoding`, carried verbatim.
    fn from(e: rustc_serialize::json::DecoderError) -> (r: Error) {
        Error::Decoding(e)
    }
}

impl vstd::std_specs::convert::FromSpecImpl<rustc_serialize::json::DecoderError> for Error {
    open spec fn obeys_from_spec() -> bool {
        true
    }

    open spec fn from_spec(e: rustc_serialize::json::DecoderError) -> Error {
        Error::Decoding(e)
    }
}

impl From<rustc_serialize::json::EncoderError> for Error {
    /// An encode failure becomes `Encoding`, carried verbatim.
    fn from(e: rustc_serialize::json::EncoderError) -> (r: Error) {
        Error::Encoding(e)
    }
}

impl vstd::std_specs::convert::FromSpecImpl<rustc_serialize::json::EncoderError> for Error {
    open spec fn obeys_from_spec() -> bool {
        true
    }

    open spec fn from_spec(e: rustc_serialize::json::EncoderError) -> Error {
        Error::Encoding(e)
    }
}

impl From<rustc_serialize::json::ParserError> for Error {
    /// A parse failure becomes `Parse`, carried verbatim.
    fn from(e: rustc_serialize::json::ParserError) -> (r: Error) {
        Error::Parse(e)
    }
}

impl vstd::std_specs::convert::FromSpecImpl<rustc_serialize::json::ParserError> for Error {
    open spec fn obeys_from_spec() -> bool {
        true
    }

    open spec fn from_spec(e: rustc_serialize::json::ParserError) -> Error {
        Error::Parse(e)
    }
}

impl From<HttpError> for Error {
    /// A transport failure becomes `Transport`, carried verbatim.
    fn from(e: HttpError) -> (r: Error) {
        Error::Transport(e)
    }
}

impl vstd::std_specs::convert::FromSpecImpl<HttpError> for Error {
    open spec fn obeys_from_spec() -> bool {
        true
    }

    open spec fn from_spec(e: HttpError) -> Error {
        Error::Transport(e)
    }
}

impl From<IoError> for Error {
    /// An I/O failure becomes `IO`, carried verbatim.
    fn from(e: IoError) -> (r: Error) {
        Error::IO(e)
    }
}

impl vstd::std_specs::convert::FromSpecImpl<IoError> for Error {
    open spec fn obeys_from_spec() -> bool {
        true
    }

    open spec fn from_spec(e: IoError) -> Error {
        Error::IO(e)
    }
}

/// Converting a decode failure yields exactly `Decoding`, and retrieving
/// the cause gives the original value back unchanged.
pub proof fn lemma_decoding_round_trip(e: &rustc_serialize::json::DecoderError)
    ensures
        <Error as FromSpec<rustc_serialize::json::DecoderError>>::obeys_from_spec(),
        <Error as FromSpec<rustc_serialize::json::DecoderError>>::from_spec(*e)
            == Error::Decoding(*e),
        spec_cause(&Error::Decoding(*e)) == Some(Cause::Decoding(e)),
{
}

/// Converting an encode failure yields exactly `Encoding`, and retrieving
/// the cause gives the original value back unchanged.
pub proof fn lemma_encoding_round_trip(e: &rustc_serialize::json::EncoderError)
    ensures
        <Error as FromSpec<rustc_serialize::json::EncoderError>>::obeys_from_spec(),
        <Error as FromSpec<rustc_serialize::json::EncoderError>>::from_spec(*e)
            == Error::Encoding(*e),
        spec_cause(&Error::Encoding(*e)) == Some(Cause::Encoding(e)),
{
}

/// Converting a parse failure yields exactly `Parse`, and retrieving the
/// cause gives the original value back unchanged.
pub proof fn lemma_parse_round_trip(e: &rustc_serialize::json::ParserError)
    ensures
        <Error as FromSpec<rustc_serialize::json::ParserError>>::obeys_from_spec(),
        <Error as FromSpec<rustc_serialize::json::ParserError>>::from_spec(*e)
            == Error::Parse(*e),
        spec_cause(&Error::Parse(*e)) == Some(Cause::Parse(e)),
{
}

/// Converting a transport failure yields exactly `Transport`, and
/// retrieving the cause gives the original value back unchanged.
pub proof fn lemma_transport_round_trip(e: &HttpError)
    ensures
        <Error as FromSpec<HttpError>>::obeys_from_spec(),
        <Error as FromSpec<HttpError>>::from_spec(*e) == Error::Transport(*e),
        spec_cause(&Error::Transport(*e)) == Some(Cause::Transport(e)),
{
}

/// Converting an I/O failure yields exactly `IO`, and retrieving the
/// cause gives the original value back unchanged.
pub proof fn lemma_io_round_trip(e: &IoError)
    ensures
        <Error as FromSpec<IoError>>::obeys_from_spec(),
        <Error as FromSpec<IoError>>::from_spec(*e) == Error::IO(*e),
        spec_cause(&Error::IO(*e)) == Some(Cause::IO(e)),
{
}

/// A `Fault` has no cause, whatever its code and message.
pub proof fn lemma_fault_has_no_cause(code: u16, message: String)
    ensures
        spec_cause(&Error::Fault { code, message }) == None::<Cause>,
{
}

/// The status code is load-bearing in the fault rendering: two different
/// codes always render differently, whatever the messages were.
pub proof fn lemma_fault_rendering_injective(c1: u16, c2: u16)
    requires
        c1 != c2,
    ensures
        fault_rendering(c1) != fault_rendering(c2),
{
    lemma_decimal_injective(c1 as nat, c2 as nat);
    let p = display_prefix();
    let d1 = decimal_of(c1 as nat);
    let d2 = decimal_of(c2 as nat);
    if fault_rendering(c1) == fault_rendering(c2) {
        assert((p + d1).len() == (p + d2).len());
        assert(d1 =~= d2) by {
            assert(forall|i: int|
                0 <= i < d1.len() ==> d1[i] == (p + d1)[p.len() + i] && d2[i] == (p + d2)[p.len()
                    + i]);
        }
    }
}

} // verus!
