//! The two channels handed to the host: a long-lived notification sender and
//! a one-shot sender scoped to one pending request.
use vstd::prelude::*;
use tokio::sync::mpsc::{UnboundedReceiver, UnboundedSender};
use tokio::sync::oneshot;
use crate::value::{converts, convertible, fails_with, value_from_ffi_arg, ConversionError, DynValue, JsonValue};

verus! {

#[verifier::external_type_specification]
#[verifier::external_body]
#[verifier::reject_recursive_types(T)]
pub struct ExOneshotSender<T>(oneshot::Sender<T>);

#[verifier::external_type_specification]
#[verifier::external_body]
#[verifier::reject_recursive_types(T)]
pub struct ExUnboundedSender<T>(UnboundedSender<T>);

#[verifier::external_type_specification]
#[verifier::external_body]
#[verifier::reject_recursive_types(T)]
pub struct ExUnboundedReceiver<T>(UnboundedReceiver<T>);

#[verifier::external_type_specification]
#[verifier::external_body]
#[verifier::reject_recursive_types(T)]
pub struct ExSendError<T>(tokio::sync::mpsc::error::SendError<T>);

/// Relies on tokio's `oneshot::Sender::send`: on failure (the receiver is
/// gone) the value comes back unchanged.
pub assume_specification<T>[ oneshot::Sender::<T>::send ](s: oneshot::Sender<T>, t: T) -> (r: Result<(), T>)
    ensures
        r matches Err(x) ==> x == t,
;

/// Relies on tokio's `UnboundedSender::send`: it never blocks; whether the
/// receiver is still there is not known beforehand.
pub assume_specification<T>[ UnboundedSender::<T>::send ](s: &UnboundedSender<T>, message: T) -> (r:
    Result<(), tokio::sync::mpsc::error::SendError<T>>);

/// Relies on tokio's `mpsc::unbounded_channel`: a connected pair.
pub assume_specification<T>[ tokio::sync::mpsc::unbounded_channel::<T> ]() -> (r: (
    UnboundedSender<T>,
    UnboundedReceiver<T>,
));

/// Why a value sent by the host did not reach the other side.
#[derive(Clone, Copy, Debug, PartialEq, Eq, Structural)]
pub enum ChannelError {
    /// The one-shot sender was used before.
    AlreadySent,
    /// The value has no JSON form.
    Conversion(ConversionError),
    /// The receiving side has been dropped.
    ReceiverGone,
}

impl ChannelError {
    /// The text reported to the host.
    pub fn message(&self) -> (r: String)
        ensures
            *self == ChannelError::AlreadySent ==> r@ == "cannot send twice"@,
            *self == ChannelError::Conversion(ConversionError::UnsupportedVariant) ==> r@
                == "unsupported ffi argument variant for conversion to json value"@,
            *self == ChannelError::Conversion(ConversionError::NonStringKey) ==> r@
                == "map keys must be strings or symbols for conversion to json value"@,
            *self == ChannelError::ReceiverGone ==> r@ == "channel closed"@,
    {
        match self {
            ChannelError::AlreadySent => "cannot send twice".to_owned(),
            ChannelError::Conversion(ConversionError::UnsupportedVariant) =>
                "unsupported ffi argument variant for conversion to json value".to_owned(),
            ChannelError::Conversion(ConversionError::NonStringKey) =>
                "map keys must be strings or symbols for conversion to json value".to_owned(),
            ChannelError::ReceiverGone => "channel closed".to_owned(),
        }
    }
}

/// The notification sender kept by the host: each value sent is converted
/// and queued for the relay to the browser.
pub struct UnboundedJsonSender {
    tx: UnboundedSender<JsonValue>,
    handed: Ghost<Seq<JsonValue>>,
}

impl UnboundedJsonSender {
    /// The values handed to the queue so far, oldest first.
    pub closed spec fn handed_over(&self) -> Seq<JsonValue> {
        self.handed@
    }

    pub fn new(tx: UnboundedSender<JsonValue>) -> (s: Self)
        ensures
            s.handed_over() == Seq::<JsonValue>::empty(),
    {
        UnboundedJsonSender { tx, handed: Ghost(Seq::empty()) }
    }

    /// Converts `value` and queues it. A value without JSON form is refused
    /// with its conversion error and nothing is queued; otherwise its JSON
    /// form is handed to the queue, and the only failure is a receiving side
    /// that is gone.
    pub fn send(&mut self, value: DynValue) -> (r: Result<(), ChannelError>)
        ensures
            convertible(value) ==> final(self).handed_over().len() == old(self).handed_over().len()
                + 1 && final(self).handed_over().drop_last() == old(self).handed_over() && converts(
                value,
                final(self).handed_over().last(),
            ) && (r is Ok || r == Err::<(), ChannelError>(ChannelError::ReceiverGone)),
            !convertible(value) ==> final(self).handed_over() == old(self).handed_over() && (
            r matches Err(ChannelError::Conversion(e)) && fails_with(value, e)),
    {
        match value_from_ffi_arg(&value) {
            Ok(j) => {
                let ghost g = j;
                self.handed = Ghost(self.handed@.push(g));
                assert(self.handed@.drop_last() =~= old(self).handed@);
                match self.tx.send(j) {
                    Ok(()) => Ok(()),
                    Err(_) => Err(ChannelError::ReceiverGone),
                }
            },
            Err(e) => Err(ChannelError::Conversion(e)),
        }
    }
}

/// The sender of one pending response. The first send uses it up, whatever
/// its outcome.
pub struct OneshotJsonSender {
    tx: Option<oneshot::Sender<JsonValue>>,
    handed: Ghost<Option<JsonValue>>,
}

impl OneshotJsonSender {
    /// The sender has been used.
    pub closed spec fn spent(&self) -> bool {
        self.tx is None
    }

    /// The value handed to the channel, if any.
    pub closed spec fn handed_over(&self) -> Option<JsonValue> {
        self.handed@
    }

    pub fn new(tx: oneshot::Sender<JsonValue>) -> (s: Self)
        ensures
            !s.spent(),
            s.handed_over() is None,
    {
        OneshotJsonSender { tx: Some(tx), handed: Ghost(None) }
    }

    pub fn is_spent(&self) -> (r: bool)
        ensures
            r == self.spent(),
    {
        self.tx.is_none()
    }

    /// Converts `value` and resolves the pending response with it.
    pub fn send(&mut self, value: DynValue) -> (r: Result<(), ChannelError>)
        ensures
            old(self).spent() ==> r == Err::<(), ChannelError>(ChannelError::AlreadySent) && *final(self)
                == *old(self),
            !old(self).spent() ==> final(self).spent(),
            !old(self).spent() && convertible(value) ==> (final(self).handed_over() matches Some(j)
                && converts(value, j)) && (r is Ok || r == Err::<(), ChannelError>(
                ChannelError::ReceiverGone,
            )),
            !old(self).spent() && !convertible(value) ==> final(self).handed_over() == old(
                self,
            ).handed_over() && (
            r matches Err(ChannelError::Conversion(e)) && fails_with(value, e)),
    {
        let tx = match self.tx.take() {
            Some(tx) => tx,
            None => {
                return Err(ChannelError::AlreadySent);
            },
        };
        match value_from_ffi_arg(&value) {
            Ok(j) => {
                let ghost g = j;
                self.handed = Ghost(Some(g));
                match tx.send(j) {
                    Ok(()) => Ok(()),
                    Err(_) => Err(ChannelError::ReceiverGone),
                }
            },
            Err(e) => Err(ChannelError::Conversion(e)),
        }
    }
}

} // verus!
