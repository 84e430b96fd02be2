use kuaidaili::classify::classify;
use kuaidaili::ApiError;
use kuaidaili::GeneralError;
use kuaidaili::OpError;
use kuaidaili::OperationId;

fn msg() -> String {
    "x".to_string()
}

#[test]
fn wrong_signature_is_global_for_every_operation() {
    let ops = [
        OperationId::GetOrderExpireTime,
        OperationId::GetIpWhitelist,
        OperationId::SetIpWhitelist,
        OperationId::GetKps,
        OperationId::GetDps,
        OperationId::GetProxy,
        OperationId::CheckDpsValid,
        OperationId::CheckOpsValid,
        OperationId::GetIpBalance,
        OperationId::GetDpsValidTime,
        OperationId::TpsCurrentIp,
        OperationId::ChangeTpsIp,
        OperationId::GetTps,
        OperationId::GetProxyAuthorization,
        OperationId::GetUa,
        OperationId::GetAreaCode,
        OperationId::GetAccountBalance,
    ];
    for op in ops {
        assert_eq!(
            classify(-104, msg(), op),
            ApiError::Global(GeneralError::WrongSignature { msg: msg() })
        );
    }
}

#[test]
fn every_global_code_classifies_to_its_variant() {
    let op = OperationId::GetUa;
    assert_eq!(
        classify(-101, msg(), op),
        ApiError::Global(GeneralError::OrderIdMissing { msg: msg() })
    );
    assert_eq!(
        classify(-102, msg(), op),
        ApiError::Global(GeneralError::InvalidOrExpiredOrder { msg: msg() })
    );
    assert_eq!(
        classify(-103, msg(), op),
        ApiError::Global(GeneralError::SignatureMissing { msg: msg() })
    );
    assert_eq!(
        classify(-105, msg(), op),
        ApiError::Global(GeneralError::UnknownSignature { msg: msg() })
    );
    assert_eq!(
        classify(-106, msg(), op),
        ApiError::Global(GeneralError::ExpiredSignature { msg: msg() })
    );
    assert_eq!(
        classify(-109, msg(), op),
        ApiError::Global(GeneralError::SystemAnomaly { msg: msg() })
    );
    assert_eq!(
        classify(-110, msg(), op),
        ApiError::Global(GeneralError::TimestampMissing { msg: msg() })
    );
    assert_eq!(
        classify(-111, msg(), op),
        ApiError::Global(GeneralError::WrongTimestamp { msg: msg() })
    );
}

#[test]
fn unassigned_global_range_codes_are_unrecognized() {
    assert_eq!(
        classify(-107, msg(), OperationId::GetUa),
        ApiError::Unrecognized { code: -107, msg: msg() }
    );
    assert_eq!(
        classify(-108, msg(), OperationId::GetDps),
        ApiError::Unrecognized { code: -108, msg: msg() }
    );
}

#[test]
fn same_code_differs_across_operations() {
    assert_eq!(
        classify(-1, msg(), OperationId::GetDps),
        ApiError::Scoped {
            op: OperationId::GetDps,
            error: OpError::InvalidRequest { msg: msg() }
        }
    );
    assert_eq!(
        classify(-1, msg(), OperationId::GetAccountBalance),
        ApiError::Scoped {
            op: OperationId::GetAccountBalance,
            error: OpError::ArgumentMissing { msg: msg() }
        }
    );
    assert_eq!(
        classify(-1, msg(), OperationId::GetOrderExpireTime),
        ApiError::Scoped {
            op: OperationId::GetOrderExpireTime,
            error: OpError::ArgumentMissing { msg: msg() }
        }
    );
}

#[test]
fn dps_scoped_table_is_complete() {
    let op = OperationId::GetDps;
    let scoped = |e: OpError| ApiError::Scoped { op, error: e };
    assert_eq!(classify(2, msg(), op), scoped(OpError::ExpiredOrder { msg: msg() }));
    assert_eq!(classify(3, msg(), op), scoped(OpError::NoProxyAvailable { msg: msg() }));
    assert_eq!(classify(4, msg(), op), scoped(OpError::AccountNotAuthenticated { msg: msg() }));
    assert_eq!(classify(-2, msg(), op), scoped(OpError::InvalidOrder { msg: msg() }));
    assert_eq!(classify(-3, msg(), op), scoped(OpError::WrongArgument { msg: msg() }));
    assert_eq!(classify(-4, msg(), op), scoped(OpError::ExtractionFailure { msg: msg() }));
    assert_eq!(classify(-5, msg(), op), scoped(OpError::OrderNotDps { msg: msg() }));
    assert_eq!(classify(-51, msg(), op), scoped(OpError::FrequencyLimit { msg: msg() }));
    assert_eq!(classify(-16, msg(), op), scoped(OpError::OrderWithdrawn { msg: msg() }));
    assert_eq!(classify(-15, msg(), op), scoped(OpError::OrderExpired { msg: msg() }));
    assert_eq!(classify(-14, msg(), op), scoped(OpError::OrderBlocked { msg: msg() }));
}

#[test]
fn account_balance_scoped_table_is_complete() {
    let op = OperationId::GetAccountBalance;
    let scoped = |e: OpError| ApiError::Scoped { op, error: e };
    assert_eq!(classify(2, msg(), op), scoped(OpError::ExpiredOrder { msg: msg() }));
    assert_eq!(classify(3, msg(), op), scoped(OpError::NoProxyAvailable { msg: msg() }));
    assert_eq!(classify(-10, msg(), op), scoped(OpError::FrequencyLimit { msg: msg() }));
}

#[test]
fn unknown_codes_are_unrecognized_never_a_crash() {
    assert_eq!(
        classify(12345, msg(), OperationId::GetDps),
        ApiError::Unrecognized { code: 12345, msg: msg() }
    );
    assert_eq!(
        classify(2, msg(), OperationId::GetUa),
        ApiError::Unrecognized { code: 2, msg: msg() }
    );
    assert_eq!(
        classify(i64::MIN, msg(), OperationId::GetKps),
        ApiError::Unrecognized { code: i64::MIN, msg: msg() }
    );
    assert_eq!(
        classify(i64::MAX, msg(), OperationId::GetTps),
        ApiError::Unrecognized { code: i64::MAX, msg: msg() }
    );
}
