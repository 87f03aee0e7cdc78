//! The bridge object: its single-use listen, the single handoff of the
//! notification queue to the relay, and the answers of the HTTP routes.
use vstd::prelude::*;
use tokio::sync::mpsc::{unbounded_channel, UnboundedReceiver};
use tokio::sync::oneshot;
use crate::channel::UnboundedJsonSender;
use crate::value::{
    convertible, converts, fails_with, lifts, value_from_ffi_arg, value_into_ffi_val, ConversionError,
    DynValue, JsonValue,
};

verus! {

/// A failure reported to the host by the bridge itself.
#[derive(Clone, Copy, Debug, PartialEq, Eq, Structural)]
pub enum BridgeError {
    /// `listen` was called before on this bridge.
    AlreadyListened,
    /// A handshake payload has no JSON form.
    Conversion(ConversionError),
}

/// A failure answered to the browser.
#[derive(Clone, Copy, Debug, PartialEq, Eq, Structural)]
pub enum HttpError {
    NotFound,
    TooManyRequests,
    Internal,
}

impl HttpError {
    /// The HTTP status code of the failure.
    pub fn status(&self) -> (r: u16)
        ensures
            *self == HttpError::NotFound ==> r == 404,
            *self == HttpError::TooManyRequests ==> r == 429,
            *self == HttpError::Internal ==> r == 500,
    {
        match self {
            HttpError::NotFound => 404,
            HttpError::TooManyRequests => 429,
            HttpError::Internal => 500,
        }
    }
}

/// What the bridge holds until it listens: the handshake location and
/// initialization payload, the host's callbacks, and the receiving end of
/// the notification queue.
pub struct ServerInner<L, I, C> {
    pub loc: L,
    pub initialize_result: I,
    pub callbacks: C,
    pub ws_rx: UnboundedReceiver<JsonValue>,
}

/// The bridge handle. It holds its state until the first `listen` takes it.
pub struct Server<L, I, C> {
    inner: Option<ServerInner<L, I, C>>,
}

/// The JSON forms of the two handshake payloads, the location first.
pub fn handshake_payloads(loc: &DynValue, initialize_result: &DynValue) -> (r: Result<
    (JsonValue, JsonValue),
    BridgeError,
>)
    ensures
        r is Ok <==> convertible(*loc) && convertible(*initialize_result),
        r matches Ok(p) ==> converts(*loc, p.0) && converts(*initialize_result, p.1),
        !convertible(*loc) ==> (r matches Err(BridgeError::Conversion(e)) && fails_with(*loc, e)),
        convertible(*loc) && !convertible(*initialize_result) ==> (r matches Err(
            BridgeError::Conversion(e),
        ) && fails_with(*initialize_result, e)),
{
    let l = match value_from_ffi_arg(loc) {
        Ok(l) => l,
        Err(e) => {
            return Err(BridgeError::Conversion(e));
        },
    };
    match value_from_ffi_arg(initialize_result) {
        Ok(i) => Ok((l, i)),
        Err(e) => Err(BridgeError::Conversion(e)),
    }
}

impl<L, I, C> Server<L, I, C> {
    /// The bridge has not listened yet.
    pub closed spec fn fresh(&self) -> bool {
        self.inner is Some
    }

    /// The state held by a fresh bridge.
    pub closed spec fn state(&self) -> ServerInner<L, I, C> {
        self.inner->Some_0
    }

    /// A fresh bridge over parsed handshake payloads and the host's
    /// callbacks, with the sender of its notification queue.
    pub fn new(loc: L, initialize_result: I, callbacks: C) -> (r: (Self, UnboundedJsonSender))
        ensures
            r.0.fresh(),
            r.0.state().loc == loc,
            r.0.state().initialize_result == initialize_result,
            r.0.state().callbacks == callbacks,
    {
        let (ws_tx, ws_rx) = unbounded_channel::<JsonValue>();
        let inner = ServerInner { loc, initialize_result, callbacks, ws_rx };
        (Server { inner: Some(inner) }, UnboundedJsonSender::new(ws_tx))
    }

    pub fn is_fresh(&self) -> (r: bool)
        ensures
            r == self.fresh(),
    {
        self.inner.is_some()
    }

    /// Takes the bridge's state to serve it. Only the first call succeeds;
    /// every later one fails with `AlreadyListened` and changes nothing.
    pub fn listen(&mut self) -> (r: Result<ServerInner<L, I, C>, BridgeError>)
        ensures
            !final(self).fresh(),
            old(self).fresh() ==> r == Ok::<ServerInner<L, I, C>, BridgeError>(old(self).state()),
            !old(self).fresh() ==> r == Err::<ServerInner<L, I, C>, BridgeError>(
                BridgeError::AlreadyListened,
            ),
    {
        match self.inner.take() {
            Some(inner) => Ok(inner),
            None => Err(BridgeError::AlreadyListened),
        }
    }
}

/// The take-once cell through which the notification queue's receiving end
/// passes from the bridge to the relay task, by way of the first handshake.
pub struct Handoff {
    slot: Option<(UnboundedReceiver<JsonValue>, oneshot::Sender<UnboundedReceiver<JsonValue>>)>,
}

impl Handoff {
    /// The receiving end has not been taken yet.
    pub closed spec fn available(&self) -> bool {
        self.slot is Some
    }

    /// The receiving end and the relay's sender, while not taken.
    pub closed spec fn stored(&self) -> (
        UnboundedReceiver<JsonValue>,
        oneshot::Sender<UnboundedReceiver<JsonValue>>,
    ) {
        self.slot->Some_0
    }

    pub fn new(
        ws_rx: UnboundedReceiver<JsonValue>,
        relay: oneshot::Sender<UnboundedReceiver<JsonValue>>,
    ) -> (h: Self)
        ensures
            h.available(),
            h.stored() == (ws_rx, relay),
    {
        Handoff { slot: Some((ws_rx, relay)) }
    }

    /// Takes the receiving end with the sender that passes it on to the
    /// relay. Only the first call succeeds; every later one is refused with
    /// `TooManyRequests`, so the handoff happens once in the bridge's life.
    pub fn take(&mut self) -> (r: Result<
        (UnboundedReceiver<JsonValue>, oneshot::Sender<UnboundedReceiver<JsonValue>>),
        HttpError,
    >)
        ensures
            !final(self).available(),
            r is Ok <==> old(self).available(),
            r is Ok ==> r->Ok_0 == old(self).stored(),
            r is Err ==> r->Err_0 == HttpError::TooManyRequests,
    {
        match self.slot.take() {
            Some(p) => Ok(p),
            None => Err(HttpError::TooManyRequests),
        }
    }
}

/// The location of the handshake answer. `latest` is the outcome of reading
/// the last notification drained before the handshake as a location update:
/// `None` where no notification was waiting, `Some(None)` where it was not
/// one. Without a notification the construction-time location stands; a
/// notification that is no update is an internal error.
pub fn handshake_location<L>(initial: L, latest: Option<Option<L>>) -> (r: Result<L, HttpError>)
    ensures
        latest is None ==> r == Ok::<L, HttpError>(initial),
        latest matches Some(Some(l)) ==> r == Ok::<L, HttpError>(l),
        latest matches Some(None) ==> r == Err::<L, HttpError>(HttpError::Internal),
{
    match latest {
        None => Ok(initial),
        Some(Some(l)) => Ok(l),
        Some(None) => Err(HttpError::Internal),
    }
}

/// The arguments handed to the host's request and notification callbacks,
/// before the response sender: the document, the method and the parameters.
pub fn client_call_args(uri: String, method: String, params: &JsonValue) -> (r: Vec<DynValue>)
    ensures
        r@.len() == 3,
        r@[0] is Str && r@[0]->Str_0@ == uri@,
        r@[1] is Str && r@[1]->Str_0@ == method@,
        lifts(*params, r@[2]),
{
    let mut r: Vec<DynValue> = Vec::new();
    r.push(DynValue::Str(uri));
    r.push(DynValue::Str(method));
    r.push(value_into_ffi_val(params));
    r
}

/// The answer to a forwarded request: the callback must have accepted the
/// call and the response sender must have delivered a value.
pub fn request_response(called: bool, delivered: Option<JsonValue>) -> (r: Result<JsonValue, HttpError>)
    ensures
        called && delivered is Some ==> r == Ok::<JsonValue, HttpError>(delivered->Some_0),
        !called || delivered is None ==> r == Err::<JsonValue, HttpError>(HttpError::Internal),
{
    if !called {
        return Err(HttpError::Internal);
    }
    match delivered {
        Some(v) => Ok(v),
        None => Err(HttpError::Internal),
    }
}

/// The answer to a session creation: the delivered value must be a string,
/// the session's id.
pub fn session_response(called: bool, delivered: Option<JsonValue>) -> (r: Result<String, HttpError>)
    ensures
        called && (delivered matches Some(JsonValue::String(_))) ==> (r matches Ok(s) && s@
            == delivered->Some_0->String_0@),
        !called || !(delivered matches Some(JsonValue::String(_))) ==> r == Err::<String, HttpError>(
            HttpError::Internal,
        ),
{
    if !called {
        return Err(HttpError::Internal);
    }
    match delivered {
        Some(JsonValue::String(s)) => Ok(s),
        _ => Err(HttpError::Internal),
    }
}

/// The answer to a subscription: a callback failure is an internal error
/// whose body is the callback's error text.
pub fn subscribe_response(outcome: Result<(), String>) -> (r: Result<(), (HttpError, String)>)
    ensures
        outcome is Ok <==> r is Ok,
        outcome matches Err(m) ==> (r matches Err(p) && p.0 == HttpError::Internal && p.1@ == m@),
{
    match outcome {
        Ok(()) => Ok(()),
        Err(m) => Err((HttpError::Internal, m)),
    }
}

/// The answer to a call whose callback returns nothing for the browser.
pub fn call_response(called: bool) -> (r: Result<(), HttpError>)
    ensures
        called <==> r is Ok,
        r is Err ==> r->Err_0 == HttpError::Internal,
{
    if called {
        Ok(())
    } else {
        Err(HttpError::Internal)
    }
}

} // verus!
