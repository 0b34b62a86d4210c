use oscirs::err::SciError;
use oscirs::stats::t_test::TTestType;

#[test]
fn t_test_types() {
    let less = TTestType::TestLess;
    let greater = TTestType::TestGreater;
    let not_equal = TTestType::TestNotEqual;
    assert!(matches!(less, TTestType::TestLess));
    assert!(matches!(greater, TTestType::TestGreater));
    assert!(matches!(not_equal, TTestType::TestNotEqual));
}

#[test]
fn sci_error_messages() {
    assert_eq!(
        SciError::DimensionsError.message(),
        "Given dimensions not valid for requested operation"
    );
    assert_eq!(
        SciError::RangeError.message(),
        "Given value is not in range of given vector"
    );
    assert_eq!(
        SciError::VectorLengthsError.message(),
        "Input vector lengths not valid for requested operation"
    );
    assert_eq!(SciError::OtherError(String::from("numeric")).message(), "numeric");
}
