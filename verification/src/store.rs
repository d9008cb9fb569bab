//! How a secret is addressed in the credential store: the service is derived
//! from the namespace, and the account is the secret's name.

use crate::error::{ErrorView, HemliError};
use vstd::prelude::*;
use vstd::string::*;

verus! {

/// The service under which the secrets of `namespace` are kept.
pub open spec fn service_of(namespace: Seq<char>) -> Seq<char> {
    "hemli:"@ + namespace
}

/// The service under which the secrets of `namespace` are kept: a fixed
/// prefix and the namespace.
pub fn service_name(namespace: &str) -> (r: String)
    ensures
        r@ == service_of(namespace@),
{
    let mut name = String::from_str("hemli:");
    name.append(namespace);
    name
}

/// Different namespaces never share a service.
pub proof fn lemma_service_separates(a: Seq<char>, b: Seq<char>)
    requires
        service_of(a) == service_of(b),
    ensures
        a == b,
{
    let prefix = "hemli:"@;
    assert((prefix + a).skip(prefix.len() as int) =~= a);
    assert((prefix + b).skip(prefix.len() as int) =~= b);
}

/// What the credential store answered to a request.
#[derive(Debug, Clone, PartialEq, Eq)]
pub enum StoreReply {
    /// The entry exists; for a lookup, this is what it holds.
    Entry(String),
    /// There is no entry under the key.
    NoEntry,
    /// The store failed; the text is its message.
    Failed(String),
}

/// A [`StoreReply`] as mathematical values.
pub enum StoreReplyView {
    Entry(Seq<char>),
    NoEntry,
    Failed(Seq<char>),
}

impl View for StoreReply {
    type V = StoreReplyView;

    open spec fn view(&self) -> StoreReplyView {
        match *self {
            StoreReply::Entry(text) => StoreReplyView::Entry(text@),
            StoreReply::NoEntry => StoreReplyView::NoEntry,
            StoreReply::Failed(text) => StoreReplyView::Failed(text@),
        }
    }
}

/// The views of what a lookup gives.
pub open spec fn lookup_view(r: Result<Option<String>, HemliError>) -> Result<
    Option<Seq<char>>,
    ErrorView,
> {
    match r {
        Ok(Some(text)) => Ok(Some(text@)),
        Ok(None) => Ok(None),
        Err(e) => Err(e@),
    }
}

/// What a lookup gives: the stored text, nothing where there is no entry, and
/// a failure only where the store itself failed.
pub open spec fn looked_up(reply: StoreReplyView) -> Result<Option<Seq<char>>, ErrorView> {
    match reply {
        StoreReplyView::Entry(text) => Ok(Some(text)),
        StoreReplyView::NoEntry => Ok(None),
        StoreReplyView::Failed(text) => Err(ErrorView::Keyring(text)),
    }
}

/// What a lookup in the credential store gives. That nothing is stored is an
/// answer, not a failure.
pub fn lookup_outcome(reply: StoreReply) -> (r: Result<Option<String>, HemliError>)
    ensures
        lookup_view(r) == looked_up(reply@),
{
    match reply {
        StoreReply::Entry(text) => Ok(Some(text)),
        StoreReply::NoEntry => Ok(None),
        StoreReply::Failed(text) => Err(HemliError::Keyring(text)),
    }
}

/// What a removal from the credential store gives. To remove what is not
/// there is no failure.
pub fn delete_outcome(reply: StoreReply) -> (r: Result<(), HemliError>)
    ensures
        match reply@ {
            StoreReplyView::Failed(text) => r matches Err(e) && e@ == ErrorView::Keyring(text),
            _ => r is Ok,
        },
{
    match reply {
        StoreReply::Failed(text) => Err(HemliError::Keyring(text)),
        _ => Ok(()),
    }
}

} // verus!
