//! What can go wrong with each of the three clients.

use vstd::prelude::*;
use vstd::std_specs::convert::FromSpecImpl;
use vstd::string::StringExecFns;

verus! {

/// `reqwest::Error`: why a request failed. What is inside one is known only through the
/// accessors below.
#[verifier::external_type_specification]
#[verifier::external_body]
pub struct ExRequestError(reqwest::Error);

/// The HTTP status that an error was made from; `None` where it was made from no response.
pub uninterp spec fn error_status(error: reqwest::Error) -> Option<u16>;

/// Whether an error came from decoding a response's body.
pub uninterp spec fn error_is_decode(error: reqwest::Error) -> bool;

/// The message that an error displays.
pub uninterp spec fn error_message(error: reqwest::Error) -> Seq<char>;

/// How the HTTP status `code` is displayed: the number and its canonical reason.
pub uninterp spec fn status_line(code: u16) -> Seq<char>;

/// How a text is written by `{:?}`: in double quotes, with escapes.
pub uninterp spec fn quoted(text: Seq<char>) -> Seq<char>;

/// `reqwest::Error::is_decode`: whether the error's kind is `Decode`.
pub assume_specification[ reqwest::Error::is_decode ](error: &reqwest::Error) -> (r: bool)
    ensures
        r == error_is_decode(*error),
;

/// `reqwest::Error::status`, then `StatusCode::as_u16`: the status as a number.
#[verifier::external_body]
fn status_code(error: &reqwest::Error) -> (r: Option<u16>)
    ensures
        r == error_status(*error),
{
    error.status().map(|status| status.as_u16())
}

/// `reqwest::Error::status`, then `StatusCode`'s `Display`: the status as it is displayed.
#[verifier::external_body]
fn status_text(error: &reqwest::Error) -> (r: Option<String>)
    ensures
        r is Some <==> error_status(*error) is Some,
        r matches Some(line) ==> line@ == status_line(error_status(*error)->0),
{
    error.status().map(|status| status.to_string())
}

/// `reqwest::Error`'s `Display`: the error's message.
#[verifier::external_body]
fn message_of(error: &reqwest::Error) -> (r: String)
    ensures
        r@ == error_message(*error),
{
    error.to_string()
}

/// `str`'s `Debug`, through `format!`: the text as `{:?}` writes it.
#[verifier::external_body]
fn quote(text: &str) -> (r: String)
    ensures
        r@ == quoted(text@),
{
    format!("{:?}", text)
}

/// Errors of the in-game telemetry client.
#[derive(Debug, Clone, PartialEq, Eq)]
pub enum IngameClientError {
    /// Some endpoints answer only to a player, not to a spectator: HTTP status 400.
    ApiNotAvailableInSpectatorMode,
    /// Some endpoints do not answer yet while the game is loading: HTTP status 404.
    ApiNotAvailableDuringLoadingScreen,
    /// Any other HTTP status from 400 to 499, with the status as it is displayed.
    ClientError(String),
    /// An HTTP status from 500 to 599, with the status as it is displayed.
    ServerError(String),
    /// The response did not have the expected shape.
    DeserializationError(String),
    /// Everything else: the endpoint could not be reached, or the request failed otherwise.
    ConnectionError(String),
}

/// An `IngameClientError` with its text as a sequence of characters.
pub enum IngameClientErrorView {
    ApiNotAvailableInSpectatorMode,
    ApiNotAvailableDuringLoadingScreen,
    ClientError(Seq<char>),
    ServerError(Seq<char>),
    DeserializationError(Seq<char>),
    ConnectionError(Seq<char>),
}

impl View for IngameClientError {
    type V = IngameClientErrorView;

    open spec fn view(&self) -> IngameClientErrorView {
        match self {
            IngameClientError::ApiNotAvailableInSpectatorMode =>
                IngameClientErrorView::ApiNotAvailableInSpectatorMode,
            IngameClientError::ApiNotAvailableDuringLoadingScreen =>
                IngameClientErrorView::ApiNotAvailableDuringLoadingScreen,
            IngameClientError::ClientError(s) => IngameClientErrorView::ClientError(s@),
            IngameClientError::ServerError(s) => IngameClientErrorView::ServerError(s@),
            IngameClientError::DeserializationError(s) =>
                IngameClientErrorView::DeserializationError(s@),
            IngameClientError::ConnectionError(s) => IngameClientErrorView::ConnectionError(s@),
        }
    }
}

impl IngameClientError {
    /// The error that stands for a failed request.
    ///
    /// `status` is the HTTP status with its displayed form, where the failure is a response;
    /// `decode` says whether the response's body could not be decoded; `message` is the
    /// failure's own text. The status decides first: 400 and 404 have a variant each, the
    /// rest of 400 to 499 is a client error, 500 to 599 a server error. Without such a status
    /// a decoding failure is a `DeserializationError`, and anything else a `ConnectionError`.
    pub open spec fn described(
        status: Option<(u16, Seq<char>)>,
        decode: bool,
        message: Seq<char>,
    ) -> IngameClientErrorView {
        let otherwise = if decode {
            IngameClientErrorView::DeserializationError(message)
        } else {
            IngameClientErrorView::ConnectionError(message)
        };
        match status {
            Some((code, line)) => if code == 400 {
                IngameClientErrorView::ApiNotAvailableInSpectatorMode
            } else if code == 404 {
                IngameClientErrorView::ApiNotAvailableDuringLoadingScreen
            } else if 400 <= code < 500 {
                IngameClientErrorView::ClientError(line)
            } else if 500 <= code < 600 {
                IngameClientErrorView::ServerError(line)
            } else {
                otherwise
            },
            None => otherwise,
        }
    }

    /// What `described` says of a `reqwest::Error`.
    pub open spec fn of_request(error: reqwest::Error) -> IngameClientErrorView {
        Self::described(
            match error_status(error) {
                Some(code) => Some((code, status_line(code))),
                None => None,
            },
            error_is_decode(error),
            error_message(error),
        )
    }

    /// What `message()` returns: the variant's name, followed for a variant with a text by
    /// that text, quoted, in round brackets.
    pub open spec fn shown(self) -> Seq<char> {
        match self {
            IngameClientError::ApiNotAvailableInSpectatorMode =>
                "ApiNotAvailableInSpectatorMode"@,
            IngameClientError::ApiNotAvailableDuringLoadingScreen =>
                "ApiNotAvailableDuringLoadingScreen"@,
            IngameClientError::ClientError(s) => "ClientError("@ + quoted(s@) + ")"@,
            IngameClientError::ServerError(s) => "ServerError("@ + quoted(s@) + ")"@,
            IngameClientError::DeserializationError(s) => "DeserializationError("@ + quoted(s@)
                + ")"@,
            IngameClientError::ConnectionError(s) => "ConnectionError("@ + quoted(s@) + ")"@,
        }
    }

    /// Sorts a failed request into an error, as `described` says.
    pub fn describe(status: Option<(u16, String)>, decode: bool, message: String) -> (r:
        IngameClientError)
        ensures
            r@ == Self::described(
                match status {
                    Some((code, line)) => Some((code, line@)),
                    None => None,
                },
                decode,
                message@,
            ),
    {
        match status {
            Some((code, line)) => {
                if code == 400 {
                    return IngameClientError::ApiNotAvailableInSpectatorMode;
                } else if code == 404 {
                    return IngameClientError::ApiNotAvailableDuringLoadingScreen;
                } else if 400 <= code && code < 500 {
                    return IngameClientError::ClientError(line);
                } else if 500 <= code && code < 600 {
                    return IngameClientError::ServerError(line);
                }
            },
            None => {},
        }
        if decode {
            IngameClientError::DeserializationError(message)
        } else {
            IngameClientError::ConnectionError(message)
        }
    }

    /// The error as text.
    pub fn message(&self) -> (r: String)
        ensures
            r@ == self.shown(),
    {
        match self {
            IngameClientError::ApiNotAvailableInSpectatorMode => String::from_str(
                "ApiNotAvailableInSpectatorMode",
            ),
            IngameClientError::ApiNotAvailableDuringLoadingScreen => String::from_str(
                "ApiNotAvailableDuringLoadingScreen",
            ),
            IngameClientError::ClientError(s) => bracketed("ClientError(", s.as_str()),
            IngameClientError::ServerError(s) => bracketed("ServerError(", s.as_str()),
            IngameClientError::DeserializationError(s) => bracketed(
                "DeserializationError(",
                s.as_str(),
            ),
            IngameClientError::ConnectionError(s) => bracketed("ConnectionError(", s.as_str()),
        }
    }
}

/// `opening`, then `text` in quotes, then a closing round bracket.
fn bracketed(opening: &str, text: &str) -> (r: String)
    ensures
        r@ == opening@ + quoted(text@) + ")"@,
{
    let mut out = String::from_str(opening);
    let inner = quote(text);
    out.append(inner.as_str());
    out.append(")");
    out
}

/// Two errors with the same text need not be the same value, so `from` does not promise the
/// very value of `from_spec`: its contract, on `from` itself, is stated over the view.
impl FromSpecImpl<reqwest::Error> for IngameClientError {
    open spec fn obeys_from_spec() -> bool {
        false
    }

    open spec fn from_spec(error: reqwest::Error) -> IngameClientError {
        choose|r: IngameClientError| r@ == IngameClientError::of_request(error)
    }
}

impl From<reqwest::Error> for IngameClientError {
    /// Sorts a failed request into an error: by its HTTP status where it has one, else by
    /// whether decoding failed.
    fn from(error: reqwest::Error) -> (r: IngameClientError)
        ensures
            r@ == IngameClientError::of_request(error),
    {
        let status = match status_code(&error) {
            Some(code) => match status_text(&error) {
                Some(line) => Some((code, line)),
                None => None,
            },
            None => None,
        };
        let decode = error.is_decode();
        IngameClientError::describe(status, decode, message_of(&error))
    }
}

/// Errors of the websocket connection to the client's control API.
#[derive(Debug, Clone, PartialEq, Eq)]
pub enum LcuWebsocketError {
    /// The control API could not be found or reached.
    LcuNotAvailable(String),
    /// The credentials or the TLS setup for the connection could not be prepared.
    AuthError,
    /// A subscribe or unsubscribe message could not be sent.
    SendError,
    /// The connection is closed.
    Disconnected(String),
}

/// An `LcuWebsocketError` with its text as a sequence of characters.
pub enum LcuWebsocketErrorView {
    LcuNotAvailable(Seq<char>),
    AuthError,
    SendError,
    Disconnected(Seq<char>),
}

impl View for LcuWebsocketError {
    type V = LcuWebsocketErrorView;

    open spec fn view(&self) -> LcuWebsocketErrorView {
        match self {
            LcuWebsocketError::LcuNotAvailable(s) => LcuWebsocketErrorView::LcuNotAvailable(s@),
            LcuWebsocketError::AuthError => LcuWebsocketErrorView::AuthError,
            LcuWebsocketError::SendError => LcuWebsocketErrorView::SendError,
            LcuWebsocketError::Disconnected(s) => LcuWebsocketErrorView::Disconnected(s@),
        }
    }
}

impl LcuWebsocketError {
    /// What `message()` returns.
    pub open spec fn shown(self) -> Seq<char> {
        match self {
            LcuWebsocketError::LcuNotAvailable(s) => "LCU API not available: "@ + s@,
            LcuWebsocketError::AuthError => "Authentication error"@,
            LcuWebsocketError::SendError => "Error sending message"@,
            LcuWebsocketError::Disconnected(s) => "Websocket disconnected: "@ + s@,
        }
    }

    /// The error as text.
    pub fn message(&self) -> (r: String)
        ensures
            r@ == self.shown(),
    {
        match self {
            LcuWebsocketError::LcuNotAvailable(s) => String::from_str(
                "LCU API not available: ",
            ).concat(s.as_str()),
            LcuWebsocketError::AuthError => String::from_str("Authentication error"),
            LcuWebsocketError::SendError => String::from_str("Error sending message"),
            LcuWebsocketError::Disconnected(s) => String::from_str(
                "Websocket disconnected: ",
            ).concat(s.as_str()),
        }
    }
}

/// Why the client's process gave no credentials.
#[derive(Debug, Clone, Copy, PartialEq, Eq, Structural)]
pub enum ProcessInfoError {
    /// No process of the client is running.
    ProcessNotAvailable,
    /// The process was started without an `--app-port=` argument that names a port.
    PortNotFound,
    /// The process was started without a `--remoting-auth-token=` argument.
    AuthTokenNotFound,
}

impl ProcessInfoError {
    /// What `message()` returns.
    pub open spec fn shown(self) -> Seq<char> {
        match self {
            ProcessInfoError::ProcessNotAvailable =>
                "Riot/League client process could not be found"@,
            ProcessInfoError::PortNotFound =>
                "API port could not be parsed from process arguments"@,
            ProcessInfoError::AuthTokenNotFound =>
                "API auth token could not be parsed from process arguments"@,
        }
    }

    /// The error as text.
    pub fn message(&self) -> (r: &'static str)
        ensures
            r@ == self.shown(),
    {
        match self {
            ProcessInfoError::ProcessNotAvailable =>
                "Riot/League client process could not be found",
            ProcessInfoError::PortNotFound =>
                "API port could not be parsed from process arguments",
            ProcessInfoError::AuthTokenNotFound =>
                "API auth token could not be parsed from process arguments",
        }
    }
}

} // verus!
