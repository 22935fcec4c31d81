use cardwire::{Date, Price, Uri, Uuid, ValidationError};

#[test]
fn test_parse_price() {
    let price: Price = Price::parse("15.44".to_string()).unwrap();
    assert_eq!(15.44_f64, price.wire().parse::<f64>().unwrap());
    assert_eq!("15.44", price.wire());
}

#[test]
fn test_price_accepts_plain_decimals() {
    for ok in ["0", "15", "15.44", "37.12", "+5", "-3.5", "1.", ".5", "007", "-0.0"] {
        let p = Price::parse(ok.to_string()).unwrap();
        assert_eq!(ok, p.wire());
        assert_eq!(
            ok.parse::<f64>().unwrap(),
            p.wire().parse::<f64>().unwrap()
        );
    }
}

#[test]
fn test_price_rejects_non_numeric() {
    for bad in ["", "abc", ".", "+", "-", "1.2.3", "1,5", " 15.44", "15.44 ", "1e5", "15x"] {
        match Price::parse(bad.to_string()) {
            Err(ValidationError::InvalidPrice { raw }) => assert_eq!(bad, raw),
            other => panic!("expected {:?} to be rejected, got {:?}", bad, other),
        }
    }
}

#[test]
fn test_build_uri() {
    Uri::parse("https://testuri.com/path/1".to_string()).unwrap();
}

#[test]
fn test_build_uri_from_json() {
    let uri: Uri = Uri::parse("https://testuri.com/path/1".to_string()).unwrap();
    assert_eq!(uri, Uri::parse("https://testuri.com/path/1".to_string()).unwrap());
    assert_eq!("https://testuri.com/path/1", uri.as_str());
}

#[test]
fn test_uri_rejects_missing_scheme() {
    for bad in ["", "testuri.com/path/1", "/path/only", "no scheme here", "1http://x"] {
        match Uri::parse(bad.to_string()) {
            Err(ValidationError::InvalidUri { raw }) => assert_eq!(bad, raw),
            other => panic!("expected {:?} to be rejected, got {:?}", bad, other),
        }
    }
}

#[test]
fn test_uri_rejects_malformed_text() {
    // The scheme shape is fine here; the rest of the URI syntax is not.
    assert!(Uri::parse("http://exa mple.com/x".to_string()).is_err());
}

#[test]
fn test_uri_keeps_text_unchanged() {
    let raw = "https://api.example.test/cards?page=2&q=x%20y";
    let uri = Uri::parse(raw.to_string()).unwrap();
    assert_eq!(raw, uri.as_str());
}

#[test]
fn test_uuid_accepts_canonical_form() {
    let raw = "6c231902-b0b9-4da0-bf9b-e5a4a3bb1686";
    let id = Uuid::parse(raw.to_string()).unwrap();
    assert_eq!(raw, id.as_str());
    Uuid::parse("6C231902-B0B9-4DA0-BF9B-E5A4A3BB1686".to_string()).unwrap();
}

#[test]
fn test_uuid_rejects_malformed_form() {
    for bad in [
        "",
        "6c231902-b0b9-4da0-bf9b-e5a4a3bb168",
        "6c231902b0b94da0bf9be5a4a3bb1686",
        "6c231902-b0b9-4da0-bf9b-e5a4a3bb168g",
        "6c231902-b0b9+4da0-bf9b-e5a4a3bb1686",
    ] {
        match Uuid::parse(bad.to_string()) {
            Err(ValidationError::InvalidUuid { raw }) => assert_eq!(bad, raw),
            other => panic!("expected {:?} to be rejected, got {:?}", bad, other),
        }
    }
}

#[test]
fn test_failure_kind_labels() {
    let price_err = Price::parse("abc".to_string()).unwrap_err();
    assert_eq!("invalid_price", price_err.kind());
    let uri_err = Uri::parse("abc".to_string()).unwrap_err();
    assert_eq!("invalid_uri", uri_err.kind());
    let uuid_err = Uuid::parse("abc".to_string()).unwrap_err();
    assert_eq!("invalid_uuid", uuid_err.kind());
    let date_err = Date::parse("abc").unwrap_err();
    assert_eq!("invalid_date", date_err.kind());
}

#[test]
fn test_date_reads_fields() {
    let d = Date::parse("2019-07-12").unwrap();
    assert_eq!(2019, d.year);
    assert_eq!(7, d.month);
    assert_eq!(12, d.day);
}

#[test]
fn test_date_rejects_malformed_form() {
    let bad_dates = ["", "2019-7-12", "2019/07/12", "2019-13-01", "2019-00-10", "2019-01-32",
        "19-07-12"];
    for bad in bad_dates {
        match Date::parse(bad) {
            Err(ValidationError::InvalidDate { raw }) => assert_eq!(bad, raw),
            other => panic!("expected {:?} to be rejected, got {:?}", bad, other),
        }
    }
}
