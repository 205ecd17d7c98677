use luascad::number::Number;
use luascad::number::Vector;
use luascad::value::Entry;
use luascad::value::Value;

fn n(value: f64) -> Number {
    Number::from_bits(value.to_bits())
}

fn number(value: f64) -> Value {
    Value::Number(n(value))
}

fn text(value: &str) -> Value {
    Value::Text(value.to_string())
}

fn field(name: &str, value: Value) -> Entry {
    Entry { key: text(name), value }
}

fn list(items: Vec<Value>) -> Value {
    let mut entries = Vec::new();
    for (i, value) in items.into_iter().enumerate() {
        entries.push(Entry { key: number((i + 1) as f64), value });
    }
    Value::Table(entries)
}

#[test]
fn only_numbers_are_numbers() {
    assert!(number(1.0).is_number());
    assert!(number(f64::NAN).is_number());
    assert!(!Value::Nil.is_number());
    assert!(!Value::Boolean(true).is_number());
    assert!(!text("1").is_number());
    assert!(!list(vec![number(1.0)]).is_number());
    assert!(!Value::Other.is_number());
}

#[test]
fn nil_and_tables_are_told_apart() {
    assert!(Value::Nil.is_nil());
    assert!(!number(0.0).is_nil());
    assert!(!Value::Table(Vec::new()).is_nil());
    assert!(Value::Table(Vec::new()).is_table());
    assert!(list(vec![number(1.0)]).is_table());
    assert!(!text("{}").is_table());
    assert!(!Value::Nil.is_table());
}

#[test]
fn as_number_hands_the_number_on() {
    assert_eq!(number(2.5).as_number(), Some(n(2.5)));
    assert_eq!(Value::Nil.as_number(), None);
    assert_eq!(text("2.5").as_number(), None);
    assert_eq!(Value::Other.as_number(), None);
}

#[test]
fn number_or_zero_defaults_to_zero() {
    assert_eq!(number(7.0).number_or_zero(), n(7.0));
    assert_eq!(number(-7.0).number_or_zero(), n(-7.0));
    assert_eq!(Value::Nil.number_or_zero(), n(0.0));
    assert_eq!(Value::Boolean(false).number_or_zero(), n(0.0));
    assert_eq!(text("7").number_or_zero(), n(0.0));
    assert_eq!(Value::Table(Vec::new()).number_or_zero(), n(0.0));
    assert_eq!(Value::Other.number_or_zero(), n(0.0));
}

#[test]
fn field_finds_an_entry_by_name() {
    let table = Value::Table(vec![
        field("l", number(4.0)),
        field("name", text("rod")),
        field("gone", Value::Nil),
    ]);
    assert_eq!(table.field("l"), Some(&number(4.0)));
    assert_eq!(table.field("name"), Some(&text("rod")));
    assert_eq!(table.field("gone"), None);
    assert_eq!(table.field("r"), None);
    assert_eq!(table.field("L"), None);
    assert_eq!(number(4.0).field("l"), None);
}

#[test]
fn number_field_finds_a_number_by_name() {
    let table = Value::Table(vec![
        field("l", number(4.0)),
        field("r", number(2.0)),
        field("name", text("rod")),
    ]);
    assert_eq!(table.number_field("l"), Some(n(4.0)));
    assert_eq!(table.number_field("r"), Some(n(2.0)));
    assert_eq!(table.number_field("name"), None);
    assert_eq!(table.number_field("r1"), None);
    assert_eq!(table.number_field(""), None);
}

#[test]
fn number_field_takes_the_first_of_equal_names() {
    let table = Value::Table(vec![field("r", Value::Nil), field("r", number(2.0))]);
    assert_eq!(table.number_field("r"), None);
    let table = Value::Table(vec![field("r", number(1.0)), field("r", number(2.0))]);
    assert_eq!(table.number_field("r"), Some(n(1.0)));
}

#[test]
fn number_field_of_what_is_no_table() {
    assert_eq!(Value::Nil.number_field("l"), None);
    assert_eq!(number(4.0).number_field("l"), None);
    assert_eq!(text("l").number_field("l"), None);
    assert_eq!(Value::Other.number_field("l"), None);
}

#[test]
fn names_and_positions_do_not_mix() {
    let table = Value::Table(vec![
        Entry { key: number(1.0), value: number(10.0) },
        Entry { key: text("1"), value: number(11.0) },
        Entry { key: text("s"), value: number(0.5) },
        Entry { key: Value::Boolean(true), value: number(12.0) },
    ]);
    assert_eq!(table.number_field("s"), Some(n(0.5)));
    assert_eq!(table.number_field("1"), Some(n(11.0)));
    assert_eq!(table.number_item(n(1.0)), Some(n(10.0)));
    assert_eq!(table.number_item(n(2.0)), None);
}

#[test]
fn item_finds_an_entry_by_position() {
    let items = list(vec![number(10.0), text("x"), number(30.0)]);
    assert_eq!(items.item(n(1.0)), Some(&number(10.0)));
    assert_eq!(items.item(n(2.0)), Some(&text("x")));
    assert_eq!(items.item(n(3.0)), Some(&number(30.0)));
    assert_eq!(items.item(n(4.0)), None);
    assert_eq!(items.item(n(0.0)), None);
    assert_eq!(items.item(n(1.5)), None);
    assert_eq!(number(1.0).item(n(1.0)), None);
}

#[test]
fn number_item_reads_numbers_only() {
    let items = list(vec![number(10.0), text("x"), number(30.0)]);
    assert_eq!(items.number_item(Number::one()), Some(n(10.0)));
    assert_eq!(items.number_item(Number::two()), None);
    assert_eq!(items.number_item(Number::three()), Some(n(30.0)));
    assert_eq!(items.number_item(Number::four()), None);
    assert_eq!(number(1.0).number_item(Number::one()), None);
}

#[test]
fn positions_are_the_numbers_one_to_four() {
    assert_eq!(Number::one(), n(1.0));
    assert_eq!(Number::two(), n(2.0));
    assert_eq!(Number::three(), n(3.0));
    assert_eq!(Number::four(), n(4.0));
}

#[test]
fn three_items_means_exactly_three() {
    assert!(list(vec![number(1.0), number(2.0), number(3.0)]).has_three_items());
    assert!(list(vec![text("a"), Value::Other, Value::Boolean(false)]).has_three_items());
    assert!(!list(vec![number(1.0), number(2.0)]).has_three_items());
    assert!(!list(vec![number(1.0), number(2.0), number(3.0), number(4.0)]).has_three_items());
    assert!(!list(vec![number(1.0), Value::Nil, number(3.0)]).has_three_items());
    assert!(!list(vec![]).has_three_items());
    assert!(!Value::Nil.has_three_items());
    assert!(!text("abc").has_three_items());
}

#[test]
fn three_items_may_come_in_any_order_and_with_fields() {
    let table = Value::Table(vec![
        field("name", text("p")),
        Entry { key: number(3.0), value: number(30.0) },
        Entry { key: number(1.0), value: number(10.0) },
        Entry { key: number(2.0), value: number(20.0) },
    ]);
    assert!(table.has_three_items());
    assert_eq!(table.triple(), Some(Vector { x: n(10.0), y: n(20.0), z: n(30.0) }));
}

#[test]
fn triple_needs_three_numbers() {
    let point = list(vec![number(1.0), number(2.0), number(3.0)]);
    assert_eq!(point.triple(), Some(Vector { x: n(1.0), y: n(2.0), z: n(3.0) }));
    assert_eq!(list(vec![number(1.0), number(2.0)]).triple(), None);
    assert_eq!(list(vec![number(1.0), Value::Nil, number(3.0)]).triple(), None);
    assert_eq!(list(vec![number(1.0), number(2.0), Value::Boolean(true)]).triple(), None);
    assert_eq!(Value::Nil.triple(), None);
}

#[test]
fn triple_reads_the_first_three_of_more() {
    let long = list(vec![number(1.0), number(2.0), number(3.0), Value::Other]);
    assert_eq!(long.triple(), Some(Vector { x: n(1.0), y: n(2.0), z: n(3.0) }));
}
