use greeter::Person;

#[test]
fn greets_alice() {
    let alice = Person::new("Alice".to_string(), 30);
    assert_eq!(alice.greet(), "Hello, Alice!");
}

#[test]
fn greets_any_name_verbatim() {
    let p = Person::new("Bo b  ".to_string(), 7);
    assert_eq!(p.greet(), "Hello, Bo b  !");
}

#[test]
fn greets_empty_name() {
    let p = Person::new(String::new(), 0);
    assert_eq!(p.greet(), "Hello, !");
}

#[test]
fn age_round_trip() {
    let p = Person::new("Bob".to_string(), 30);
    assert_eq!(p.age(), 30);
}

#[test]
fn age_round_trip_extremes() {
    let low = Person::new("Low".to_string(), 0);
    assert_eq!(low.age(), 0);
    let high = Person::new("High".to_string(), u32::MAX);
    assert_eq!(high.age(), u32::MAX);
}

#[test]
fn name_round_trip() {
    let p = Person::new("Carol".to_string(), 41);
    assert_eq!(p.name(), "Carol");
}
