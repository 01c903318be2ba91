use vstd::prelude::*;
use vstd::string::*;

verus! {

/// Why a movement was not applied. The validation errors carry a
/// description of the broken constraint.
#[derive(Debug, Clone)]
pub enum TransactionError {
    /// The kind code is neither `'c'` nor `'d'`.
    InvalidKind(String),
    /// The description is empty or longer than 10 bytes.
    InvalidDescription(String),
    /// The value is not positive.
    InvalidValue(String),
    /// The movement would take the balance below minus the limit.
    LimitExceeded,
    /// No client has that id.
    ClientNotFound,
    /// The store could not record the movement (a balance or a sequence
    /// number it cannot represent); nothing changed and a retry is safe.
    StoreError,
}

impl TransactionError {
    /// The transport status of each error.
    pub open spec fn spec_status(&self) -> u16 {
        match self {
            TransactionError::InvalidKind(_) => 400,
            TransactionError::InvalidDescription(_) => 400,
            TransactionError::InvalidValue(_) => 400,
            TransactionError::LimitExceeded => 422,
            TransactionError::ClientNotFound => 404,
            TransactionError::StoreError => 500,
        }
    }

    /// Whether a caller may retry the same request.
    pub open spec fn spec_retryable(&self) -> bool {
        self is StoreError
    }

    pub fn status_code(&self) -> (r: u16)
        ensures
            r == self.spec_status(),
    {
        match self {
            TransactionError::InvalidKind(_) => 400,
            TransactionError::InvalidDescription(_) => 400,
            TransactionError::InvalidValue(_) => 400,
            TransactionError::LimitExceeded => 422,
            TransactionError::ClientNotFound => 404,
            TransactionError::StoreError => 500,
        }
    }

    pub fn is_retryable(&self) -> (r: bool)
        ensures
            r == self.spec_retryable(),
    {
        match self {
            TransactionError::StoreError => true,
            _ => false,
        }
    }
}

/// Why a statement could not be produced.
#[derive(Debug, Clone, Copy, PartialEq, Eq)]
pub enum ExtratoError {
    /// No client has that id.
    NotFound,
    /// The store could not be read.
    UnexpectedError,
}

impl ExtratoError {
    pub fn status_code(&self) -> (r: u16)
        ensures
            *self is NotFound ==> r == 404,
            *self is UnexpectedError ==> r == 500,
    {
        match self {
            ExtratoError::NotFound => 404,
            ExtratoError::UnexpectedError => 500,
        }
    }
}

/// The report of an error and its chain of causes, outermost first: the
/// first message on a line of its own, then one line `Caused by: <message>`
/// for each cause.
pub open spec fn chain_text(chain: Seq<String>) -> Seq<char>
    decreases chain.len(),
{
    if chain.len() == 0 {
        Seq::empty()
    } else if chain.len() == 1 {
        chain[0]@ + "\n"@
    } else {
        chain_text(chain.drop_last()) + "Caused by: "@ + chain.last()@ + "\n"@
    }
}

/// Renders the messages of an error chain, outermost first.
pub fn error_chain_fmt(chain: &Vec<String>) -> (r: String)
    ensures
        r@ == chain_text(chain@),
{
    let mut out = String::new();
    let n = chain.len();
    let mut i: usize = 0;
    while i < n
        invariant
            n == chain@.len(),
            i <= n,
            out@ == chain_text(chain@.subrange(0, i as int)),
        decreases n - i,
    {
        let ghost before = chain@.subrange(0, i as int);
        let ghost after = chain@.subrange(0, i + 1);
        assert(after.drop_last() == before);
        if i > 0 {
            out.append("Caused by: ");
        }
        out.append(chain[i].as_str());
        out.append("\n");
        i = i + 1;
        assert(out@ =~= chain_text(after));
    }
    assert(chain@.subrange(0, n as int) == chain@);
    out
}

} // verus!
