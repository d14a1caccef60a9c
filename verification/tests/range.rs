use h1_dispatch::error::ParseError;
use h1_dispatch::range::{from_comma_delimited, ByteRangeSpec, Range};

fn parse(s: &str) -> Result<Range, ParseError> {
    Range::from_str(s)
}

#[test]
fn test_parse_bytes_range_valid() {
    let r: Range = parse("bytes=1-100").unwrap();
    let r2: Range = parse("bytes=1-100,-").unwrap();
    let r3 = Range::bytes(1, 100);
    assert_eq!(r, r2);
    assert_eq!(r2, r3);

    let r: Range = parse("bytes=1-100,200-").unwrap();
    let r2: Range = parse("bytes= 1-100 , 101-xxx,  200- ").unwrap();
    let r3 = Range::Bytes(vec![
        ByteRangeSpec::FromTo(1, 100),
        ByteRangeSpec::AllFrom(200),
    ]);
    assert_eq!(r, r2);
    assert_eq!(r2, r3);

    let r: Range = parse("bytes=1-100,-100").unwrap();
    let r2: Range = parse("bytes=1-100, ,,-100").unwrap();
    let r3 = Range::Bytes(vec![
        ByteRangeSpec::FromTo(1, 100),
        ByteRangeSpec::Last(100),
    ]);
    assert_eq!(r, r2);
    assert_eq!(r2, r3);

    let r: Range = parse("custom=1-100,-100").unwrap();
    let r2 = Range::Unregistered("custom".to_owned(), "1-100,-100".to_owned());
    assert_eq!(r, r2);
}

#[test]
fn test_parse_unregistered_range_valid() {
    let r: Range = parse("custom=1-100,-100").unwrap();
    let r2 = Range::Unregistered("custom".to_owned(), "1-100,-100".to_owned());
    assert_eq!(r, r2);

    let r: Range = parse("custom=abcd").unwrap();
    let r2 = Range::Unregistered("custom".to_owned(), "abcd".to_owned());
    assert_eq!(r, r2);

    let r: Range = parse("custom=xxx-yyy").unwrap();
    let r2 = Range::Unregistered("custom".to_owned(), "xxx-yyy".to_owned());
    assert_eq!(r, r2);
}

#[test]
fn test_parse_invalid() {
    let r: Result<Range, ParseError> = parse("bytes=1-a,-");
    assert_eq!(r.ok(), None);

    let r: Result<Range, ParseError> = parse("bytes=1-2-3");
    assert_eq!(r.ok(), None);

    let r: Result<Range, ParseError> = parse("abc");
    assert_eq!(r.ok(), None);

    let r: Result<Range, ParseError> = parse("bytes=1-100=");
    assert_eq!(r.ok(), None);

    let r: Result<Range, ParseError> = parse("bytes=");
    assert_eq!(r.ok(), None);

    let r: Result<Range, ParseError> = parse("custom=");
    assert_eq!(r.ok(), None);

    let r: Result<Range, ParseError> = parse("=1-100");
    assert_eq!(r.ok(), None);
}

#[test]
fn test_fmt() {
    let range = Range::Bytes(vec![
        ByteRangeSpec::FromTo(0, 1000),
        ByteRangeSpec::AllFrom(2000),
    ]);
    assert_eq!(&range.to_string(), "bytes=0-1000,2000-");

    let range = Range::Bytes(vec![]);

    assert_eq!(&range.to_string(), "bytes=");

    let range = Range::Unregistered("custom".to_owned(), "1-xxx".to_owned());

    assert_eq!(&range.to_string(), "custom=1-xxx");
}

#[test]
fn test_byte_range_spec_to_satisfiable_range() {
    assert_eq!(
        Some((0, 0)),
        ByteRangeSpec::FromTo(0, 0).to_satisfiable_range(3)
    );
    assert_eq!(
        Some((1, 2)),
        ByteRangeSpec::FromTo(1, 2).to_satisfiable_range(3)
    );
    assert_eq!(
        Some((1, 2)),
        ByteRangeSpec::FromTo(1, 5).to_satisfiable_range(3)
    );
    assert_eq!(None, ByteRangeSpec::FromTo(3, 3).to_satisfiable_range(3));
    assert_eq!(None, ByteRangeSpec::FromTo(2, 1).to_satisfiable_range(3));
    assert_eq!(None, ByteRangeSpec::FromTo(0, 0).to_satisfiable_range(0));

    assert_eq!(
        Some((0, 2)),
        ByteRangeSpec::AllFrom(0).to_satisfiable_range(3)
    );
    assert_eq!(
        Some((2, 2)),
        ByteRangeSpec::AllFrom(2).to_satisfiable_range(3)
    );
    assert_eq!(None, ByteRangeSpec::AllFrom(3).to_satisfiable_range(3));
    assert_eq!(None, ByteRangeSpec::AllFrom(5).to_satisfiable_range(3));
    assert_eq!(None, ByteRangeSpec::AllFrom(0).to_satisfiable_range(0));

    assert_eq!(Some((1, 2)), ByteRangeSpec::Last(2).to_satisfiable_range(3));
    assert_eq!(Some((2, 2)), ByteRangeSpec::Last(1).to_satisfiable_range(3));
    assert_eq!(Some((0, 2)), ByteRangeSpec::Last(5).to_satisfiable_range(3));
    assert_eq!(None, ByteRangeSpec::Last(0).to_satisfiable_range(3));
    assert_eq!(None, ByteRangeSpec::Last(2).to_satisfiable_range(0));
}

#[test]
fn byte_range_spec_from_str_reads_each_form() {
    assert_eq!(ByteRangeSpec::from_str("1-100"), Ok(ByteRangeSpec::FromTo(1, 100)));
    assert_eq!(ByteRangeSpec::from_str("200-"), Ok(ByteRangeSpec::AllFrom(200)));
    assert_eq!(ByteRangeSpec::from_str("-7"), Ok(ByteRangeSpec::Last(7)));
    assert_eq!(ByteRangeSpec::from_str("+3-+4"), Ok(ByteRangeSpec::FromTo(3, 4)));
    assert_eq!(ByteRangeSpec::from_str("007-010"), Ok(ByteRangeSpec::FromTo(7, 10)));
    assert_eq!(ByteRangeSpec::from_str("5-5"), Ok(ByteRangeSpec::FromTo(5, 5)));
}

#[test]
fn byte_range_spec_from_str_refuses_what_is_no_range() {
    for s in ["", "-", "12", "2-1", "1-2-3", "a-1", "1-a", "--1", " 1-2", "1-2 ", "+-1", "1-+"] {
        assert_eq!(ByteRangeSpec::from_str(s), Err(ParseError::Header), "{:?}", s);
    }
}

#[test]
fn byte_range_spec_from_str_holds_the_limit_of_u64() {
    assert_eq!(
        ByteRangeSpec::from_str("0-18446744073709551615"),
        Ok(ByteRangeSpec::FromTo(0, u64::MAX))
    );
    assert_eq!(
        ByteRangeSpec::from_str("-18446744073709551616"),
        Err(ParseError::Header)
    );
    assert_eq!(
        ByteRangeSpec::from_str("99999999999999999999999-"),
        Err(ParseError::Header)
    );
}

#[test]
fn byte_range_spec_from_str_agrees_with_std_on_numbers() {
    for s in ["0", "+0", "42", "+42", "-42", "", "+", "4 2", "18446744073709551615", "18446744073709551616"] {
        let text = format!("{}-", s);
        let expected = s.parse::<u64>().ok().map(ByteRangeSpec::AllFrom);
        let expected = if s.is_empty() { None } else { expected };
        assert_eq!(ByteRangeSpec::from_str(&text).ok(), expected, "{:?}", s);
    }
}

#[test]
fn byte_range_spec_to_string_writes_each_form() {
    assert_eq!(ByteRangeSpec::FromTo(0, 1000).to_string(), "0-1000");
    assert_eq!(ByteRangeSpec::AllFrom(2000).to_string(), "2000-");
    assert_eq!(ByteRangeSpec::Last(5).to_string(), "-5");
    assert_eq!(
        ByteRangeSpec::FromTo(u64::MAX, 0).to_string(),
        "18446744073709551615-0"
    );
}

#[test]
fn text_of_a_range_reads_back_as_the_range() {
    let ranges = [
        Range::bytes(1, 100),
        Range::bytes_multi(vec![(1, 100), (200, 300)]),
        Range::Bytes(vec![ByteRangeSpec::Last(9), ByteRangeSpec::AllFrom(3)]),
        Range::Unregistered("letters".to_owned(), "a-f".to_owned()),
    ];
    for range in ranges {
        assert_eq!(Range::from_str(&range.to_string()), Ok(range));
    }
}

#[test]
fn bytes_multi_keeps_the_order() {
    assert_eq!(
        Range::bytes_multi(vec![(1, 100), (200, 300), (5, 2)]),
        Range::Bytes(vec![
            ByteRangeSpec::FromTo(1, 100),
            ByteRangeSpec::FromTo(200, 300),
            ByteRangeSpec::FromTo(5, 2),
        ])
    );
    assert_eq!(Range::bytes_multi(vec![]), Range::Bytes(vec![]));
}

#[test]
fn from_comma_delimited_leaves_out_what_is_no_range() {
    assert_eq!(
        from_comma_delimited(" 1-100 , 101-xxx,  200- ,,\t-5\u{a0}"),
        vec![
            ByteRangeSpec::FromTo(1, 100),
            ByteRangeSpec::AllFrom(200),
            ByteRangeSpec::Last(5),
        ]
    );
    assert_eq!(from_comma_delimited(""), vec![]);
    assert_eq!(from_comma_delimited(",,,"), vec![]);
    assert_eq!(from_comma_delimited("1 - 2"), vec![]);
}

#[test]
fn range_from_str_reads_the_unit_up_to_the_first_equals_sign() {
    assert_eq!(
        Range::from_str("unit=a=b"),
        Ok(Range::Unregistered("unit".to_owned(), "a=b".to_owned()))
    );
    assert_eq!(
        Range::from_str("Bytes=1-2"),
        Ok(Range::Unregistered("Bytes".to_owned(), "1-2".to_owned()))
    );
    assert_eq!(
        Range::from_str("gr\u{fc}\u{df}e=\u{e4}-\u{f6}"),
        Ok(Range::Unregistered("gr\u{fc}\u{df}e".to_owned(), "\u{e4}-\u{f6}".to_owned()))
    );
    assert_eq!(Range::from_str("bytes=x"), Err(ParseError::Header));
    assert_eq!(Range::from_str(""), Err(ParseError::Header));
    assert_eq!(Range::from_str("="), Err(ParseError::Header));
}

#[test]
fn ranges_can_be_parsed_from_text() {
    assert_eq!("bytes=1-100,-5".parse::<Range>(), Range::from_str("bytes=1-100,-5"));
    assert_eq!("7-".parse::<ByteRangeSpec>(), Ok(ByteRangeSpec::AllFrom(7)));
    assert_eq!("nothing".parse::<ByteRangeSpec>(), Err(ParseError::Header));
}
