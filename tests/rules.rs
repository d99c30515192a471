use validation::{bound, email, match_regex, whitelist_chars, Rule};

struct TestData {
    pub x: u32,
    pub y: String,
}

impl TestData {
    fn get_x(&self) -> &u32 {
        &self.x
    }
}

#[test]
fn rules_validate_length() {
    assert!(Rule::map("length", str::len, bound(1..5)).validate("1234").is_ok());
    assert!(Rule::map("length", str::len, bound(1..5)).validate("12345").is_err());
    assert_eq!(
        Rule::map("length", str::len, bound(2)).validate("1").unwrap_err().get_message(),
        "length must equal 2"
    );
}

#[test]
fn validate_nest() {
    let data = TestData { x: 1, y: "test".to_owned() };
    assert!(Rule::nest("x", TestData::get_x, bound(1)).validate(&data).is_ok());
    assert_eq!(
        Rule::nest("x", TestData::get_x, bound(2)).validate(&data).unwrap_err().get_message(),
        "x must equal 2".to_owned()
    );
    assert!(Rule::nest(
        "y",
        |d: &TestData| &d.y,
        Rule::map("length", String::len, bound(4) + bound(3..6))
    )
    .validate(&data)
    .is_ok());
}

#[test]
fn test_whitelist() {
    let rule = whitelist_chars("0123456789");
    assert!(rule.validate("12").is_ok());
    assert!(rule.validate("00123456789").is_ok());
    assert!(rule.validate("asdf").is_err());
}

#[test]
fn test_regex() {
    let rule = match_regex("h.*h", "starts and ends with h").unwrap();
    assert!(rule.validate("haah").is_ok());
    assert!(rule.validate("aargh").is_err());
}

#[test]
fn rules_validate_email() {
    let rule = email().unwrap();
    assert!(rule.validate("test@domain.com").is_ok());
    assert!(rule.validate("test123+123@domain.com").is_ok());
    assert!(rule.validate("test123.4@domain.com").is_ok());
    assert!(rule.validate("test1.2.3.4@domain.com").is_ok());

    assert!(rule.validate("test@domaincom").is_err());
    assert!(rule.validate("testdomain.com").is_err());
    assert!(rule.validate("@domaincom").is_err());
    assert!(rule.validate("@domain.com").is_err());
    assert!(rule.validate("test@").is_err());
    assert!(rule.validate("test").is_err());
}

#[test]
fn test_bound() {
    assert!(bound(..4).validate(&3).is_ok());
    assert!(bound(..4).validate(&4).is_err());
    assert!(bound(2..3).validate(&2).is_ok());
    assert!(bound(2..3).validate(&3).is_err());
    assert!(bound(2).validate(&2).is_ok());
    assert!(bound(2).validate(&3).is_err());
    assert!(bound(2..).validate(&2).is_ok());
    assert!(bound(2..).validate(&1).is_err());
}
