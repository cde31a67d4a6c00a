use tracemon::counter::{Counter, Message};
use tracemon::lights::{DefaultCycle, Intersection, TrafficLight};
use tracemon::ownership::{give_ownership, give_ownership_borrows};
use tracemon::quotes::{first_stock, StockQuote};
use tracemon::sampling::pick_from_list;

#[test]
fn counter_counts_messages() {
    let mut c = Counter::new();
    c.update(Message::Increment);
    c.update(Message::Increment);
    c.update(Message::Decrement);
    assert_eq!(c.value, 1);
}

#[test]
fn lights_cycle_in_order() {
    let mut inter = Intersection::new(1);
    assert_eq!(inter.id, 1);
    assert_eq!(inter.light, TrafficLight::Red);
    inter.cycle(DefaultCycle);
    assert_eq!(inter.light, TrafficLight::Green);
    inter.cycle(DefaultCycle);
    assert_eq!(inter.light, TrafficLight::Yellow);
    inter.cycle(DefaultCycle);
    assert_eq!(inter.light, TrafficLight::Red);
    assert_eq!(inter.light_name(), "Red");
}

#[test]
fn ownership_round_trip() {
    let s = String::from("hello Ownership");
    let r = give_ownership(s);
    assert_eq!(r, "hello Ownership");
}

#[test]
fn borrow_appends_tail() {
    let mut s = String::from("passing mutable string for editing");
    give_ownership_borrows(&mut s);
    assert_eq!(s, "passing mutable string for editing!!!");
}

#[test]
fn first_stock_picks_the_head() {
    let quotes = vec![
        StockQuote { code: "8033".to_string(), name: "TT".to_string(), price: "12.3".to_string() },
        StockQuote { code: "2330".to_string(), name: "TSMC".to_string(), price: "900".to_string() },
    ];
    let q = first_stock(quotes).unwrap();
    assert_eq!(q.code, "8033");
    assert_eq!(q.name, "TT");
    assert_eq!(q.price, "12.3");
}

#[test]
fn first_stock_of_nothing_is_none() {
    assert!(first_stock(Vec::new()).is_none());
}

#[test]
fn pick_from_list_returns_a_member() {
    let quarks = ["up", "down", "charm", "strange", "top", "bottom"];
    let pick = pick_from_list(&quarks).unwrap();
    assert!(quarks.contains(&pick));
}

#[test]
fn pick_from_empty_list_is_none() {
    let empty: [&str; 0] = [];
    assert!(pick_from_list(&empty).is_none());
}
