use std::cell::Cell;
use std::rc::Rc;

use validation::{
    bound, email, match_regex, whitelist_chars, Bound, Error, Rule, Validate, EMAIL_PATTERN,
};

struct Account {
    pub id: u64,
    pub name: String,
}

#[test]
fn range_bound_accepts_its_interval_only() {
    let rule = bound(3..7);
    assert!(rule.validate(&2).is_err());
    assert!(rule.validate(&3).is_ok());
    assert!(rule.validate(&5).is_ok());
    assert!(rule.validate(&6).is_ok());
    assert!(rule.validate(&7).is_err());
    assert!(rule.validate(&i32::MAX).is_err());
}

#[test]
fn range_bound_is_half_open() {
    assert!(bound(-3i64..-1i64).validate(&-3).is_ok());
    assert!(bound(-3i64..-1i64).validate(&-1).is_err());
    assert!(bound(5u8..5u8).validate(&5).is_err());
    assert!(bound(5u8..6u8).validate(&5).is_ok());
}

#[test]
fn exact_bound_admits_only_its_value() {
    assert!(bound(7u64).validate(&7).is_ok());
    assert!(bound(7u64).validate(&8).is_err());
    assert!(bound(7u64).validate(&0).is_err());
}

#[test]
fn bound_messages_name_the_boundary() {
    assert_eq!(bound(..4).validate(&4).unwrap_err().get_message(), "must be < 4");
    assert_eq!(bound(2..).validate(&1).unwrap_err().get_message(), "must be >= 2");
    assert_eq!(bound(2..3).validate(&3).unwrap_err().get_message(), "must be >= 2 and < 3");
    assert_eq!(bound(7u64).validate(&8).unwrap_err().get_message(), "must equal 7");
    assert_eq!(
        bound(-3i64..-1i64).validate(&5).unwrap_err().get_message(),
        "must be >= -3 and < -1"
    );
    assert_eq!(
        bound(u64::MAX).validate(&0).unwrap_err().get_message(),
        "must equal 18446744073709551615"
    );
}

#[test]
fn unbounded_accepts_everything() {
    assert!(bound(..).validate(&i64::MIN).is_ok());
    assert!(bound(Bound::<u16>::Unbounded).validate(&0).is_ok());
    assert!(bound(Bound::Range(1usize, 2usize)).validate(&1).is_ok());
}

#[test]
fn sequence_reports_first_failure() {
    let rule = bound(2) + bound(3);
    assert_eq!(rule.validate(&4).unwrap_err().get_message(), "must equal 2");
    let rule = bound(4) + bound(3);
    assert_eq!(rule.validate(&4).unwrap_err().get_message(), "must equal 3");
    let rule = bound(4) + bound(0..10);
    assert!(rule.validate(&4).is_ok());
}

#[test]
fn sequence_skips_second_rule_after_failure() {
    let calls = Rc::new(Cell::new(0u32));
    let seen = calls.clone();
    let counting = Rule::from(move |_: &i32| {
        seen.set(seen.get() + 1);
        Err(Error::new("second".to_owned()))
    });
    let rule = bound(1) + counting;
    assert_eq!(rule.validate(&2).unwrap_err().get_message(), "must equal 1");
    assert_eq!(calls.get(), 0);
    assert_eq!(rule.validate(&1).unwrap_err().get_message(), "second");
    assert_eq!(calls.get(), 1);
}

#[test]
fn naming_and_nesting_prefix_the_message() {
    assert_eq!(
        bound(2).name("count").validate(&3).unwrap_err().get_message(),
        "count must equal 2"
    );
    assert!(bound(2).name("count").validate(&2).is_ok());
    let account = Account { id: 9, name: "ab".to_owned() };
    let rule = Rule::nest("id", |a: &Account| &a.id, bound(10u64..));
    assert_eq!(rule.validate(&account).unwrap_err().get_message(), "id must be >= 10");
    let rule = Rule::nest("name", |a: &Account| &a.name, Rule::map("length", String::len, bound(3..)));
    assert_eq!(
        rule.validate(&account).unwrap_err().get_message(),
        "name length must be >= 3"
    );
    let rule = Rule::map("length", str::len, bound(1..5));
    assert_eq!(
        rule.validate("12345").unwrap_err().get_message(),
        "length must be >= 1 and < 5"
    );
}

#[test]
fn whitelist_names_first_refused_char() {
    let rule = whitelist_chars("0123456789");
    assert_eq!(
        rule.validate("12a4b").unwrap_err().get_message(),
        "cannot contain the character 'a'"
    );
    assert!(rule.validate("").is_ok());
    assert_eq!(
        whitelist_chars("").validate("x").unwrap_err().get_message(),
        "cannot contain the character 'x'"
    );
    assert!(whitelist_chars("éa").validate("aé").is_ok());
    assert_eq!(
        whitelist_chars("a").validate("aé").unwrap_err().get_message(),
        "cannot contain the character 'é'"
    );
}

#[test]
fn malformed_pattern_is_refused_at_construction() {
    let err = match_regex("foo(bar", "anything").err().unwrap();
    assert_eq!(err.get_pattern(), "foo(bar");
}

#[test]
fn pattern_rule_message_and_search() {
    let rule = match_regex("h.*h", "starts and ends with h").unwrap();
    assert!(rule.validate("xhahx").is_ok());
    assert_eq!(
        rule.validate("aargh").unwrap_err().get_message(),
        "must be starts and ends with h"
    );
}

#[test]
fn email_rule_scenarios() {
    let rule = email().unwrap();
    assert!(rule.validate("a@b.c").is_ok());
    assert!(rule.validate("a@b@c.d").is_err());
    assert_eq!(
        rule.validate("test").unwrap_err().get_message(),
        "must be a valid email"
    );
    assert_eq!(EMAIL_PATTERN, r"^[^@]+@[^@]+\.[^@]+$");
}

#[test]
fn custom_predicate_rule() {
    let even = Rule::from(|x: &u32| {
        if x % 2 == 0 {
            Ok(())
        } else {
            Err(Error::new("must be even".to_owned()))
        }
    });
    assert!(even.validate(&4).is_ok());
    assert_eq!(even.validate(&3).unwrap_err().get_message(), "must be even");
}

#[test]
fn self_validating_values() {
    assert!(().validate().is_ok());
    assert!(None::<()>.validate().is_ok());
    assert!(Some(()).validate().is_ok());
    assert!(Box::new(()).validate().is_ok());
}
