use ipld::error::IpldTypeError;
use ipld::leaf::IpldBool;
use ipld::leaf::IpldBytes;
use ipld::leaf::IpldFloat;
use ipld::leaf::IpldInteger;
use ipld::leaf::IpldLink;
use ipld::leaf::IpldString;
use ipld::untyped::Ipld;

#[test]
fn ipld_string_from() {
    Ipld::from("a string");
    Ipld::from("a string".to_string());
    Ipld::from(IpldString::from("a string"));
    Ipld::from(IpldString::from("a string".to_string()));
}

#[test]
fn from_try_into_string() {
    let string = IpldString::from("a string".to_string());
    let ipld: Ipld = string.clone().into();
    let string2: IpldString = ipld.try_into().unwrap();
    assert_eq!(string, string2);
}

#[test]
fn from_try_into_bool() {
    let boolean = IpldBool::from(true);
    let ipld: Ipld = boolean.clone().into();
    let boolean2: IpldBool = ipld.try_into().unwrap();
    assert_eq!(boolean, boolean2);
}

#[test]
fn embedded_text_is_extracted_as_text() {
    let ipld = Ipld::from("a string");
    let outcome: Result<IpldString, IpldTypeError> = ipld.try_into();
    let leaf = outcome.unwrap();
    assert_eq!(leaf.as_str(), "a string");
    assert_eq!(leaf, IpldString::from("a string"));
}

#[test]
fn embedded_bool_is_not_text() {
    let ipld = Ipld::from(IpldBool::from(true));
    let outcome: Result<IpldString, IpldTypeError> = ipld.try_into();
    assert_eq!(outcome, Err(IpldTypeError::NotString));
}

#[test]
fn null_equals_null_and_nothing_else() {
    let first = Ipld::Null;
    let second = Ipld::Null;
    assert_eq!(first, second);
    assert_eq!(second, first);
    assert_ne!(first, Ipld::from(IpldBool::from(false)));
    assert_ne!(second, Ipld::from(IpldBool::from(false)));
    assert_ne!(Ipld::from(IpldBool::from(false)), first);
}

#[test]
fn embed_keeps_the_alternative_of_the_leaf() {
    assert!(matches!(Ipld::from(IpldBool::from(false)), Ipld::Bool(_)));
    assert!(matches!(Ipld::from(IpldInteger::from(-3)), Ipld::Integer(_)));
    assert!(matches!(Ipld::from(IpldFloat::from_bits(1)), Ipld::Float(_)));
    assert!(matches!(Ipld::from(IpldString::from("s")), Ipld::String(_)));
    assert!(matches!(Ipld::from("s"), Ipld::String(_)));
    assert!(matches!(Ipld::from(String::from("s")), Ipld::String(_)));
    assert!(matches!(Ipld::from(IpldBytes::from(vec![1u8])), Ipld::Bytes(_)));
    assert!(matches!(Ipld::from(IpldLink::from(vec![1u8])), Ipld::Link(_)));
}

#[test]
fn embed_keeps_the_payload() {
    match Ipld::from(IpldInteger::from(i128::MIN)) {
        Ipld::Integer(leaf) => assert_eq!(leaf.get(), i128::MIN),
        other => panic!("unexpected alternative: {:?}", other),
    }
    match Ipld::from(IpldBytes::from(vec![0u8, 255u8, 7u8])) {
        Ipld::Bytes(leaf) => assert_eq!(leaf.as_slice(), &[0u8, 255u8, 7u8][..]),
        other => panic!("unexpected alternative: {:?}", other),
    }
    match Ipld::from(String::from("héllo")) {
        Ipld::String(leaf) => assert_eq!(leaf.as_str(), "héllo"),
        other => panic!("unexpected alternative: {:?}", other),
    }
    match Ipld::from("") {
        Ipld::String(leaf) => assert_eq!(leaf.as_str(), ""),
        other => panic!("unexpected alternative: {:?}", other),
    }
}

#[test]
fn extract_never_coerces() {
    let zero = Ipld::from(IpldInteger::from(0));
    let outcome: Result<IpldBool, IpldTypeError> = zero.try_into();
    assert_eq!(outcome, Err(IpldTypeError::NotBool));

    let truth = Ipld::from(IpldBool::from(true));
    let outcome: Result<IpldInteger, IpldTypeError> = truth.try_into();
    assert_eq!(outcome, Err(IpldTypeError::NotInteger));

    let digits = Ipld::from("42");
    let outcome: Result<IpldInteger, IpldTypeError> = digits.try_into();
    assert_eq!(outcome, Err(IpldTypeError::NotInteger));

    let one = Ipld::from(IpldInteger::from(1));
    let outcome: Result<IpldFloat, IpldTypeError> = one.try_into();
    assert_eq!(outcome, Err(IpldTypeError::NotFloat));

    let bytes = Ipld::from(IpldBytes::from(vec![97u8]));
    let outcome: Result<IpldString, IpldTypeError> = bytes.try_into();
    assert_eq!(outcome, Err(IpldTypeError::NotString));

    let address = Ipld::from(IpldLink::from(vec![97u8]));
    let outcome: Result<IpldBytes, IpldTypeError> = address.try_into();
    assert_eq!(outcome, Err(IpldTypeError::NotBytes));

    let bytes = Ipld::from(IpldBytes::from(vec![97u8]));
    let outcome: Result<IpldLink, IpldTypeError> = bytes.try_into();
    assert_eq!(outcome, Err(IpldTypeError::NotLink));
}

#[test]
fn null_holds_no_leaf() {
    let outcome: Result<IpldBool, IpldTypeError> = Ipld::Null.try_into();
    assert_eq!(outcome, Err(IpldTypeError::NotBool));
    let outcome: Result<IpldInteger, IpldTypeError> = Ipld::Null.try_into();
    assert_eq!(outcome, Err(IpldTypeError::NotInteger));
    let outcome: Result<IpldFloat, IpldTypeError> = Ipld::Null.try_into();
    assert_eq!(outcome, Err(IpldTypeError::NotFloat));
    let outcome: Result<IpldString, IpldTypeError> = Ipld::Null.try_into();
    assert_eq!(outcome, Err(IpldTypeError::NotString));
    let outcome: Result<IpldBytes, IpldTypeError> = Ipld::Null.try_into();
    assert_eq!(outcome, Err(IpldTypeError::NotBytes));
    let outcome: Result<IpldLink, IpldTypeError> = Ipld::Null.try_into();
    assert_eq!(outcome, Err(IpldTypeError::NotLink));
}

#[test]
fn error_alternatives_are_distinct() {
    let all = [
        IpldTypeError::NotBool,
        IpldTypeError::NotInteger,
        IpldTypeError::NotFloat,
        IpldTypeError::NotString,
        IpldTypeError::NotBytes,
        IpldTypeError::NotLink,
    ];
    for (i, left) in all.iter().enumerate() {
        for (j, right) in all.iter().enumerate() {
            assert_eq!(left == right, i == j);
        }
    }
}
