use vstd::prelude::*;

use crate::endpoint::OperationId;

verus! {

/// Errors shared by every operation: the reserved global codes `-101`
/// through `-111` (sparse; `-107` and `-108` are not assigned). The server's
/// message is carried through unmodified.
#[derive(Clone, Debug, PartialEq, Eq)]
pub enum GeneralError {
    /// `-101`: the request lacks the order id parameter.
    OrderIdMissing { msg: String },
    /// `-102`: the order is invalid or expired.
    InvalidOrExpiredOrder { msg: String },
    /// `-103`: the request lacks the signature parameter.
    SignatureMissing { msg: String },
    /// `-104`: the signature is wrong.
    WrongSignature { msg: String },
    /// `-105`: the signature method is unknown.
    UnknownSignature { msg: String },
    /// `-106`: the signature is expired.
    ExpiredSignature { msg: String },
    /// `-109`: an anomaly inside the remote system.
    SystemAnomaly { msg: String },
    /// `-110`: the request lacks the timestamp parameter.
    TimestampMissing { msg: String },
    /// `-111`: the timestamp is malformed.
    WrongTimestamp { msg: String },
}

/// Errors whose numeric code is scoped to a single operation: the same code
/// may mean a different condition under a different operation.
#[derive(Clone, Debug, PartialEq, Eq)]
pub enum OpError {
    ExpiredOrder { msg: String },
    NoProxyAvailable { msg: String },
    AccountNotAuthenticated { msg: String },
    InvalidRequest { msg: String },
    InvalidOrder { msg: String },
    WrongArgument { msg: String },
    ExtractionFailure { msg: String },
    OrderNotDps { msg: String },
    FrequencyLimit { msg: String },
    OrderWithdrawn { msg: String },
    OrderExpired { msg: String },
    OrderBlocked { msg: String },
    ArgumentMissing { msg: String },
}

/// A classified non-success envelope code: a global error, an
/// operation-scoped error, or an explicit unrecognized-code value (never a
/// crash) carrying the raw code and message.
#[derive(Clone, Debug, PartialEq, Eq)]
pub enum ApiError {
    Global(GeneralError),
    Scoped { op: OperationId, error: OpError },
    Unrecognized { code: i64, msg: String },
}

/// Any failure of the request/response pipeline: a transport failure, a
/// malformed or mistyped response, a classified API error, or an argument
/// record that could not be built because a required field was absent.
#[derive(Clone, Debug, PartialEq, Eq)]
pub enum KdlError {
    /// The network call itself failed; nothing was decoded.
    NetworkError { message: String },
    /// The body was not a well-formed envelope, or `data` did not have the
    /// operation's return shape.
    DeserializeError { message: String },
    /// The envelope carried a non-success code.
    Api(ApiError),
    /// A required argument field was not supplied and has no default.
    BuilderError { field: String },
}

pub type KdlResult<T> = Result<T, KdlError>;

/// Whether a code belongs to the global table shared by all operations.
pub open spec fn spec_is_global_code(code: i64) -> bool {
    code == -101 || code == -102 || code == -103 || code == -104 || code == -105 || code == -106
        || code == -109 || code == -110 || code == -111
}

/// The global table: the variant for each assigned global code.
pub open spec fn spec_classify_global(code: i64, msg: String) -> GeneralError
    recommends
        spec_is_global_code(code),
{
    if code == -101 {
        GeneralError::OrderIdMissing { msg }
    } else if code == -102 {
        GeneralError::InvalidOrExpiredOrder { msg }
    } else if code == -103 {
        GeneralError::SignatureMissing { msg }
    } else if code == -104 {
        GeneralError::WrongSignature { msg }
    } else if code == -105 {
        GeneralError::UnknownSignature { msg }
    } else if code == -106 {
        GeneralError::ExpiredSignature { msg }
    } else if code == -109 {
        GeneralError::SystemAnomaly { msg }
    } else if code == -110 {
        GeneralError::TimestampMissing { msg }
    } else {
        GeneralError::WrongTimestamp { msg }
    }
}

/// Whether `code` has an entry in `op`'s scoped table.
pub open spec fn spec_in_scoped_table(code: i64, op: OperationId) -> bool {
    match op {
        OperationId::GetAccountBalance => code == 2 || code == 3 || code == -1 || code == -10,
        OperationId::GetDps => code == 2 || code == 3 || code == 4 || code == -1 || code == -2
            || code == -3 || code == -4 || code == -5 || code == -51 || code == -16 || code == -15
            || code == -14,
        OperationId::GetOrderExpireTime => code == -1,
        _ => false,
    }
}

/// The scoped table of `op`: the variant for each of its codes.
pub open spec fn spec_classify_scoped(code: i64, msg: String, op: OperationId) -> OpError
    recommends
        spec_in_scoped_table(code, op),
{
    match op {
        OperationId::GetAccountBalance => if code == 2 {
            OpError::ExpiredOrder { msg }
        } else if code == 3 {
            OpError::NoProxyAvailable { msg }
        } else if code == -1 {
            OpError::ArgumentMissing { msg }
        } else {
            OpError::FrequencyLimit { msg }
        },
        OperationId::GetDps => if code == 2 {
            OpError::ExpiredOrder { msg }
        } else if code == 3 {
            OpError::NoProxyAvailable { msg }
        } else if code == 4 {
            OpError::AccountNotAuthenticated { msg }
        } else if code == -1 {
            OpError::InvalidRequest { msg }
        } else if code == -2 {
            OpError::InvalidOrder { msg }
        } else if code == -3 {
            OpError::WrongArgument { msg }
        } else if code == -4 {
            OpError::ExtractionFailure { msg }
        } else if code == -5 {
            OpError::OrderNotDps { msg }
        } else if code == -51 {
            OpError::FrequencyLimit { msg }
        } else if code == -16 {
            OpError::OrderWithdrawn { msg }
        } else if code == -15 {
            OpError::OrderExpired { msg }
        } else {
            OpError::OrderBlocked { msg }
        },
        _ => OpError::ArgumentMissing { msg },
    }
}

/// What `classify` returns: the global table first, then the operation's
/// scoped table, then the explicit unrecognized-code variant. Total over all
/// inputs.
pub open spec fn spec_classify(code: i64, msg: String, op: OperationId) -> ApiError {
    if spec_is_global_code(code) {
        ApiError::Global(spec_classify_global(code, msg))
    } else if spec_in_scoped_table(code, op) {
        ApiError::Scoped { op, error: spec_classify_scoped(code, msg, op) }
    } else {
        ApiError::Unrecognized { code, msg }
    }
}

/// Classify a non-success envelope code under the operation that issued the
/// call. Pure and total: every input yields exactly the table entry, or the
/// unrecognized-code variant when neither table has one.
pub fn classify(code: i64, msg: String, op: OperationId) -> (r: ApiError)
    ensures
        r == spec_classify(code, msg, op),
{
    if code == -101 {
        ApiError::Global(GeneralError::OrderIdMissing { msg })
    } else if code == -102 {
        ApiError::Global(GeneralError::InvalidOrExpiredOrder { msg })
    } else if code == -103 {
        ApiError::Global(GeneralError::SignatureMissing { msg })
    } else if code == -104 {
        ApiError::Global(GeneralError::WrongSignature { msg })
    } else if code == -105 {
        ApiError::Global(GeneralError::UnknownSignature { msg })
    } else if code == -106 {
        ApiError::Global(GeneralError::ExpiredSignature { msg })
    } else if code == -109 {
        ApiError::Global(GeneralError::SystemAnomaly { msg })
    } else if code == -110 {
        ApiError::Global(GeneralError::TimestampMissing { msg })
    } else if code == -111 {
        ApiError::Global(GeneralError::WrongTimestamp { msg })
    } else {
        classify_scoped(code, msg, op)
    }
}

fn classify_scoped(code: i64, msg: String, op: OperationId) -> (r: ApiError)
    requires
        !spec_is_global_code(code),
    ensures
        r == spec_classify(code, msg, op),
{
    match op {
        OperationId::GetAccountBalance => if code == 2 {
            ApiError::Scoped { op, error: OpError::ExpiredOrder { msg } }
        } else if code == 3 {
            ApiError::Scoped { op, error: OpError::NoProxyAvailable { msg } }
        } else if code == -1 {
            ApiError::Scoped { op, error: OpError::ArgumentMissing { msg } }
        } else if code == -10 {
            ApiError::Scoped { op, error: OpError::FrequencyLimit { msg } }
        } else {
            ApiError::Unrecognized { code, msg }
        },
        OperationId::GetDps => if code == 2 {
            ApiError::Scoped { op, error: OpError::ExpiredOrder { msg } }
        } else if code == 3 {
            ApiError::Scoped { op, error: OpError::NoProxyAvailable { msg } }
        } else if code == 4 {
            ApiError::Scoped { op, error: OpError::AccountNotAuthenticated { msg } }
        } else if code == -1 {
            ApiError::Scoped { op, error: OpError::InvalidRequest { msg } }
        } else if code == -2 {
            ApiError::Scoped { op, error: OpError::InvalidOrder { msg } }
        } else if code == -3 {
            ApiError::Scoped { op, error: OpError::WrongArgument { msg } }
        } else if code == -4 {
            ApiError::Scoped { op, error: OpError::ExtractionFailure { msg } }
        } else if code == -5 {
            ApiError::Scoped { op, error: OpError::OrderNotDps { msg } }
        } else if code == -51 {
            ApiError::Scoped { op, error: OpError::FrequencyLimit { msg } }
        } else if code == -16 {
            ApiError::Scoped { op, error: OpError::OrderWithdrawn { msg } }
        } else if code == -15 {
            ApiError::Scoped { op, error: OpError::OrderExpired { msg } }
        } else if code == -14 {
            ApiError::Scoped { op, error: OpError::OrderBlocked { msg } }
        } else {
            ApiError::Unrecognized { code, msg }
        },
        OperationId::GetOrderExpireTime => if code == -1 {
            ApiError::Scoped { op, error: OpError::ArgumentMissing { msg } }
        } else {
            ApiError::Unrecognized { code, msg }
        },
        _ => ApiError::Unrecognized { code, msg },
    }
}

/// A global code classifies the same way under every operation: the global
/// table takes precedence over any scoped table.
pub proof fn lemma_global_code_operation_independent(
    code: i64,
    msg: String,
    op1: OperationId,
    op2: OperationId,
)
    requires
        spec_is_global_code(code),
    ensures
        spec_classify(code, msg, op1) == spec_classify(code, msg, op2),
{
}

/// The wrong-signature code classifies to the wrong-signature global variant
/// under every operation, carrying the message through unmodified.
pub proof fn lemma_wrong_signature_global(msg: String, op: OperationId)
    ensures
        spec_classify(-104i64, msg, op) == ApiError::Global(GeneralError::WrongSignature { msg }),
{
}

/// Scoped codes are not globally unique: one code yields different variants
/// under different operations.
pub proof fn lemma_scoped_code_not_globally_unique(msg: String)
    ensures
        spec_classify(-1i64, msg, OperationId::GetDps) == (ApiError::Scoped {
            op: OperationId::GetDps,
            error: OpError::InvalidRequest { msg },
        }),
        spec_classify(-1i64, msg, OperationId::GetAccountBalance) == (ApiError::Scoped {
            op: OperationId::GetAccountBalance,
            error: OpError::ArgumentMissing { msg },
        }),
{
}

/// A code in neither table classifies to the unrecognized variant carrying
/// the raw code and message; classification never fails.
pub proof fn lemma_unmatched_code_unrecognized(code: i64, msg: String, op: OperationId)
    requires
        !spec_is_global_code(code),
        !spec_in_scoped_table(code, op),
    ensures
        spec_classify(code, msg, op) == (ApiError::Unrecognized { code, msg }),
{
}

} // verus!
