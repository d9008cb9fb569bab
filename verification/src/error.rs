//! The ways in which an operation on the cache fails.

use vstd::prelude::*;
use vstd::string::*;

verus! {

/// Why an operation failed. Every failure ends the operation; nothing is
/// retried and no stale value is served in its place.
#[derive(Debug, Clone, PartialEq, Eq)]
pub enum HemliError {
    /// The secret is not cached.
    NotFound { namespace: String, secret: String },
    /// A refresh is needed and no source command is known.
    NoSource,
    /// An edit was asked for that changes nothing.
    NoModifications,
    /// The source command failed; the text says how.
    SourceFailed(String),
    /// The credential store failed; the text is its message.
    Keyring(String),
    /// A stored record or the index could not be read or written as JSON.
    Serialization(String),
    /// The file system failed.
    Io(String),
}

/// A [`HemliError`] as mathematical values.
pub enum ErrorView {
    NotFound { namespace: Seq<char>, secret: Seq<char> },
    NoSource,
    NoModifications,
    SourceFailed(Seq<char>),
    Keyring(Seq<char>),
    Serialization(Seq<char>),
    Io(Seq<char>),
}

impl View for HemliError {
    type V = ErrorView;

    open spec fn view(&self) -> ErrorView {
        match *self {
            HemliError::NotFound { namespace, secret } => ErrorView::NotFound {
                namespace: namespace@,
                secret: secret@,
            },
            HemliError::NoSource => ErrorView::NoSource,
            HemliError::NoModifications => ErrorView::NoModifications,
            HemliError::SourceFailed(m) => ErrorView::SourceFailed(m@),
            HemliError::Keyring(m) => ErrorView::Keyring(m@),
            HemliError::Serialization(m) => ErrorView::Serialization(m@),
            HemliError::Io(m) => ErrorView::Io(m@),
        }
    }
}

impl ErrorView {
    /// The message shown to the user. Each kind of failure has its own
    /// wording; a failure of the credential store, of JSON or of the file
    /// system is shown in the words of its origin.
    pub open spec fn message(self) -> Seq<char> {
        match self {
            ErrorView::NotFound { namespace, secret } => "secret '"@ + secret
                + "' not found in namespace '"@ + namespace + "'"@,
            ErrorView::NoSource => "no source command provided and secret is not cached"@,
            ErrorView::NoModifications => "no modifications specified; provide at least one of --ttl, --clear-ttl, --source-sh, or --source-cmd"@,
            ErrorView::SourceFailed(m) => "source command failed: "@ + m,
            ErrorView::Keyring(m) => m,
            ErrorView::Serialization(m) => m,
            ErrorView::Io(m) => m,
        }
    }
}

impl HemliError {
    /// The failure that `(namespace, secret)` is not cached.
    pub fn not_found(namespace: &str, secret: &str) -> (e: HemliError)
        ensures
            e@ == (ErrorView::NotFound { namespace: namespace@, secret: secret@ }),
    {
        HemliError::NotFound { namespace: namespace.to_owned(), secret: secret.to_owned() }
    }

    /// The message shown to the user.
    pub fn message(&self) -> (m: String)
        ensures
            m@ == self@.message(),
    {
        match self {
            HemliError::NotFound { namespace, secret } => {
                let mut m = String::from_str("secret '");
                m.append(secret.as_str());
                m.append("' not found in namespace '");
                m.append(namespace.as_str());
                m.append("'");
                m
            },
            HemliError::NoSource => String::from_str(
                "no source command provided and secret is not cached",
            ),
            HemliError::NoModifications => String::from_str(
                "no modifications specified; provide at least one of --ttl, --clear-ttl, --source-sh, or --source-cmd",
            ),
            HemliError::SourceFailed(text) => {
                let mut m = String::from_str("source command failed: ");
                m.append(text.as_str());
                m
            },
            HemliError::Keyring(text) => text.clone(),
            HemliError::Serialization(text) => text.clone(),
            HemliError::Io(text) => text.clone(),
        }
    }
}

} // verus!
