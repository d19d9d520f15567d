use n2n::N2NError;

#[test]
fn messages_of_plain_errors() {
    assert_eq!(N2NError::SnNumIsZero.message(), "no supernode");
    assert_eq!(N2NError::CommunityNameNull.message(), "conf.community_name is null");
    assert_eq!(N2NError::PtrNull.message(), "ptr is null");
    assert_eq!(
        N2NError::I32NegativeToCInt.message(),
        "i32 is negative when transform to c_int"
    );
    assert_eq!(N2NError::UnKnown.message(), "Unknown error");
}

#[test]
fn message_of_length_error() {
    assert_eq!(
        N2NError::CCharLenTooLong(2, 3).message(),
        "c_char length 2 shorter than slice length 3"
    );
    assert_eq!(
        N2NError::CCharLenTooLong(0, 1234567).message(),
        "c_char length 0 shorter than slice length 1234567"
    );
    assert_eq!(
        N2NError::CCharLenTooLong(16, usize::MAX).message(),
        format!("c_char length 16 shorter than slice length {}", usize::MAX)
    );
}
