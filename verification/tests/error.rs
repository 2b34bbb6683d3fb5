use evm_result::{EVMError, EVMResultGeneric, ErrorSource, InvalidHeader, InvalidTransaction, U256};

#[test]
fn messages_of_plain_transaction_errors() {
    let expected = vec![
        (InvalidTransaction::PriorityFeeGreaterThanMaxFee, "priority fee is greater than max fee"),
        (InvalidTransaction::GasPriceLessThanBasefee, "gas price is less than basefee"),
        (
            InvalidTransaction::CallerGasLimitMoreThanBlock,
            "caller gas limit exceeds the block gas limit",
        ),
        (InvalidTransaction::CallGasCostMoreThanGasLimit, "call gas cost exceeds the gas limit"),
        (
            InvalidTransaction::RejectCallerWithCode,
            "reject transactions from senders with deployed code",
        ),
        (InvalidTransaction::OverflowPaymentInTransaction, "overflow payment in transaction"),
        (InvalidTransaction::NonceOverflowInTransaction, "nonce overflow in transaction"),
        (InvalidTransaction::CreateInitCodeSizeLimit, "create initcode size limit"),
        (InvalidTransaction::InvalidChainId, "invalid chain ID"),
        (InvalidTransaction::AccessListNotSupported, "access list not supported"),
        (InvalidTransaction::MaxFeePerBlobGasNotSupported, "max fee per blob gas not supported"),
        (
            InvalidTransaction::BlobVersionedHashesNotSupported,
            "blob versioned hashes not supported",
        ),
        (
            InvalidTransaction::BlobGasPriceGreaterThanMax,
            "blob gas price is greater than max fee per blob gas",
        ),
        (InvalidTransaction::EmptyBlobs, "empty blobs"),
        (InvalidTransaction::BlobCreateTransaction, "blob create transaction"),
        (InvalidTransaction::TooManyBlobs, "too many blobs"),
        (InvalidTransaction::BlobVersionNotSupported, "blob version not supported"),
        (
            InvalidTransaction::DepositSystemTxPostRegolith,
            "deposit system transactions post regolith hardfork are not supported",
        ),
        (
            InvalidTransaction::HaltedDepositPostRegolith,
            "deposit transaction halted post-regolith; error will be bubbled up to main return handler",
        ),
    ];
    for (error, message) in expected {
        assert_eq!(error.message(), message);
    }
}

#[test]
fn messages_with_nonces() {
    let high = InvalidTransaction::NonceTooHigh { tx: 12, state: 7 };
    assert_eq!(high.message(), "nonce 12 too high, expected 7");
    let low = InvalidTransaction::NonceTooLow { tx: 0, state: u64::MAX };
    assert_eq!(low.message(), "nonce 0 too low, expected 18446744073709551615");
}

#[test]
fn message_with_funds() {
    let lack = InvalidTransaction::LackOfFundForMaxFee {
        fee: Box::new(U256 { limbs: [u64::MAX; 4] }),
        balance: Box::new(U256 { limbs: [0, 1, 0, 0] }),
    };
    assert_eq!(
        lack.message(),
        "lack of funds (18446744073709551616) for max fee (115792089237316195423570985008687907853269984665640564039457584007913129639935)"
    );
}

#[test]
fn messages_of_header_errors() {
    assert_eq!(InvalidHeader::PrevrandaoNotSet.message(), "`prevrandao` not set");
    assert_eq!(InvalidHeader::ExcessBlobGasNotSet.message(), "`excess_blob_gas` not set");
}

#[test]
fn messages_of_evm_errors() {
    let transaction: EVMError<u32> = EVMError::Transaction(InvalidTransaction::EmptyBlobs);
    assert_eq!(transaction.message(), "transaction validation error: empty blobs");
    let header: EVMError<u32> = EVMError::Header(InvalidHeader::PrevrandaoNotSet);
    assert_eq!(header.message(), "header validation error: `prevrandao` not set");
    let database: EVMError<u32> = EVMError::Database(404);
    assert_eq!(database.message(), "database error: 404");
    let custom: EVMError<u32> = EVMError::Custom("out of order".to_string());
    assert_eq!(custom.message(), "out of order");
}

#[test]
fn messages_with_a_given_database_text() {
    let database: EVMError<Vec<u8>> = EVMError::Database(vec![1]);
    assert_eq!(database.message_with("disk is gone"), "database error: disk is gone");
    let custom: EVMError<Vec<u8>> = EVMError::Custom(String::new());
    assert_eq!(custom.message_with("disk is gone"), "");
    let header: EVMError<Vec<u8>> = EVMError::Header(InvalidHeader::ExcessBlobGasNotSet);
    assert_eq!(header.message_with("x"), "header validation error: `excess_blob_gas` not set");
}

#[test]
fn sources_of_evm_errors() {
    let transaction: EVMError<u32> = EVMError::from(InvalidTransaction::TooManyBlobs);
    assert_eq!(transaction, EVMError::Transaction(InvalidTransaction::TooManyBlobs));
    assert_eq!(
        transaction.source(),
        Some(ErrorSource::Transaction(&InvalidTransaction::TooManyBlobs))
    );
    let header: EVMError<u32> = EVMError::from(InvalidHeader::PrevrandaoNotSet);
    assert_eq!(header, EVMError::Header(InvalidHeader::PrevrandaoNotSet));
    assert_eq!(header.source(), Some(ErrorSource::Header(&InvalidHeader::PrevrandaoNotSet)));
    let database: EVMError<u32> = EVMError::Database(9);
    assert_eq!(database.source(), Some(ErrorSource::Database(&9)));
    let custom: EVMError<u32> = EVMError::Custom("x".to_string());
    assert_eq!(custom.source(), None);
}

#[test]
fn io_errors_become_custom_errors() {
    let io = std::io::Error::new(std::io::ErrorKind::Other, "pipe is broken");
    let error: EVMError<u32> = EVMError::from(io);
    assert_eq!(error, EVMError::Custom("IO error: pipe is broken".to_string()));
    assert_eq!(EVMError::<u32>::from_io_text("no room"), EVMError::Custom("IO error: no room".to_string()));
}

#[test]
fn errors_travel_in_results() {
    fn check(fine: bool) -> EVMResultGeneric<u8, u32> {
        if fine {
            Ok(1)
        } else {
            Err(InvalidTransaction::InvalidChainId)?
        }
    }
    assert_eq!(check(true), Ok(1));
    assert_eq!(check(false), Err(EVMError::Transaction(InvalidTransaction::InvalidChainId)));
}

#[test]
fn messages_tell_errors_apart() {
    let errors = vec![
        InvalidTransaction::NonceTooHigh { tx: 1, state: 23 },
        InvalidTransaction::NonceTooHigh { tx: 12, state: 3 },
        InvalidTransaction::NonceTooLow { tx: 1, state: 23 },
        InvalidTransaction::NonceOverflowInTransaction,
        InvalidTransaction::LackOfFundForMaxFee {
            fee: Box::new(U256::from_u64(1)),
            balance: Box::new(U256::from_u64(2)),
        },
        InvalidTransaction::LackOfFundForMaxFee {
            fee: Box::new(U256::from_u64(2)),
            balance: Box::new(U256::from_u64(1)),
        },
    ];
    for i in 0..errors.len() {
        for j in 0..errors.len() {
            assert_eq!(errors[i].message() == errors[j].message(), i == j);
        }
    }
}
