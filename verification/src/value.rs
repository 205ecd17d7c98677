//! Values as they arrive from a script.
//!
//! A script is dynamically typed: any argument may be a number, a table,
//! or something else altogether. [`Value`] holds what the library needs
//! to read of such an argument.

use vstd::prelude::*;
use crate::number::Number;
use crate::number::Vector;

verus! {

/// A value that a script passed in.
#[derive(Debug, PartialEq)]
pub enum Value {
    /// No value: a missing argument or a missing entry.
    Nil,
    Boolean(bool),
    Number(Number),
    Text(String),
    /// A table, entry by entry. A field `t.name` is the entry under the
    /// text `name`; an item `t[1]` is the entry under the number one.
    Table(Vec<Entry>),
    /// A function, a foreign object or anything else the library does not
    /// look into.
    Other,
}

/// One entry of a table.
#[derive(Debug, PartialEq)]
pub struct Entry {
    pub key: Value,
    pub value: Value,
}

/// The mathematical value of a [`Value`].
pub ghost enum Datum {
    Nil,
    Boolean(bool),
    Number(Number),
    Text(Seq<char>),
    Table(Seq<(Datum, Datum)>),
    Other,
}

/// What the first entry under `key` holds, and `Nil` where there is no
/// such entry.
pub open spec fn lookup(entries: Seq<(Datum, Datum)>, key: Datum) -> Datum
    decreases entries.len(),
{
    if entries.len() == 0 {
        Datum::Nil
    } else if entries[0].0 == key {
        entries[0].1
    } else {
        lookup(entries.drop_first(), key)
    }
}

impl Datum {
    /// The number, where the datum is one.
    pub open spec fn as_number(self) -> Option<Number> {
        match self {
            Datum::Number(n) => Some(n),
            _ => None,
        }
    }

    /// The number, and zero where the datum is not a number.
    pub open spec fn number_or_zero(self) -> Number {
        match self {
            Datum::Number(n) => n,
            _ => Number::zero(),
        }
    }

    /// The datum as a rounding radius: the number where it is one that is
    /// zero or more, and zero for everything else.
    pub open spec fn radius_or_zero(self) -> Number {
        self.number_or_zero().radius()
    }

    /// What a script reads as `self[key]`. A datum that is no table has
    /// no entries.
    pub open spec fn get(self, key: Datum) -> Datum {
        match self {
            Datum::Table(entries) => lookup(entries, key),
            _ => Datum::Nil,
        }
    }

    /// What a script reads as `self.name`.
    pub open spec fn field(self, name: Seq<char>) -> Datum {
        self.get(Datum::Text(name))
    }

    /// What a script reads as `self[position]`.
    pub open spec fn item(self, position: Number) -> Datum {
        self.get(Datum::Number(position))
    }

    /// Whether the datum is a table of three items: it holds something at
    /// the positions one, two and three and nothing at four. This is what
    /// a script tests with `type(t) == "table"` and `#t == 3`.
    pub open spec fn has_three_items(self) -> bool {
        &&& self is Table
        &&& !(self.item(Number::one()) is Nil)
        &&& !(self.item(Number::two()) is Nil)
        &&& !(self.item(Number::three()) is Nil)
        &&& self.item(Number::four()) is Nil
    }

    /// Whether the first three items are numbers.
    pub open spec fn has_three_numbers(self) -> bool {
        &&& self.item(Number::one()) is Number
        &&& self.item(Number::two()) is Number
        &&& self.item(Number::three()) is Number
    }

    /// The first three items as a triple; an item that is no number counts
    /// as zero.
    pub open spec fn triple(self) -> Vector {
        Vector {
            x: self.item(Number::one()).number_or_zero(),
            y: self.item(Number::two()).number_or_zero(),
            z: self.item(Number::three()).number_or_zero(),
        }
    }
}

/// The values of a sequence of arguments, one by one.
pub open spec fn data(values: Seq<Value>) -> Seq<Datum> {
    Seq::new(values.len(), |i: int| values[i].model())
}

/// The argument at `index`, counted from zero; an argument that the
/// script left out is `Nil`.
pub open spec fn argument(args: Seq<Datum>, index: int) -> Datum {
    if 0 <= index < args.len() {
        args[index]
    } else {
        Datum::Nil
    }
}

/// The values of the entries of a table, one by one.
pub open spec fn pairs(entries: Seq<Entry>) -> Seq<(Datum, Datum)> {
    Seq::new(entries.len(), |i: int| (entries[i].key.model(), entries[i].value.model()))
}

/// The entry under the text `name`: its index, where there is one.
fn find_field(entries: &Vec<Entry>, name: &str) -> (r: Option<usize>)
    ensures
        match r {
            Some(i) => i < entries.len() && lookup(pairs(entries@), Datum::Text(name@))
                == entries[i as int].value.model(),
            None => lookup(pairs(entries@), Datum::Text(name@)) is Nil,
        },
{
    let key = name.to_owned();
    let ghost all = pairs(entries@);
    let ghost wanted = Datum::Text(name@);
    let mut i: usize = 0;
    assert(all.skip(0) =~= all);
    while i < entries.len()
        invariant
            i <= entries.len(),
            key@ == name@,
            all == pairs(entries@),
            wanted == Datum::Text(name@),
            lookup(all, wanted) == lookup(all.skip(i as int), wanted),
        decreases entries.len() - i,
    {
        let ghost rest = all.skip(i as int);
        assert(rest[0] == all[i as int]);
        assert(rest.drop_first() =~= all.skip(i + 1));
        let found = match &entries[i].key {
            Value::Text(text) => *text == key,
            _ => false,
        };
        assert(found == (entries[i as int].key.model() == wanted));
        if found {
            return Some(i);
        }
        i = i + 1;
    }
    None
}

/// The entry under the number `position`: its index, where there is one.
fn find_item(entries: &Vec<Entry>, position: Number) -> (r: Option<usize>)
    ensures
        match r {
            Some(i) => i < entries.len() && lookup(pairs(entries@), Datum::Number(position))
                == entries[i as int].value.model(),
            None => lookup(pairs(entries@), Datum::Number(position)) is Nil,
        },
{
    let ghost all = pairs(entries@);
    let ghost wanted = Datum::Number(position);
    let mut i: usize = 0;
    assert(all.skip(0) =~= all);
    while i < entries.len()
        invariant
            i <= entries.len(),
            all == pairs(entries@),
            wanted == Datum::Number(position),
            lookup(all, wanted) == lookup(all.skip(i as int), wanted),
        decreases entries.len() - i,
    {
        let ghost rest = all.skip(i as int);
        assert(rest[0] == all[i as int]);
        assert(rest.drop_first() =~= all.skip(i + 1));
        let found = match &entries[i].key {
            Value::Number(n) => n.bits == position.bits,
            _ => false,
        };
        assert(found == (entries[i as int].key.model() == wanted));
        if found {
            return Some(i);
        }
        i = i + 1;
    }
    None
}

impl Value {
    pub open spec fn model(&self) -> Datum
        decreases self,
    {
        match self {
            Value::Nil => Datum::Nil,
            Value::Boolean(b) => Datum::Boolean(*b),
            Value::Number(n) => Datum::Number(*n),
            Value::Text(text) => Datum::Text(text@),
            Value::Table(entries) => Datum::Table(
                Seq::new(
                    entries.len() as nat,
                    |i: int|
                        if 0 <= i < entries.len() {
                            (entries[i].key.model(), entries[i].value.model())
                        } else {
                            (Datum::Nil, Datum::Nil)
                        },
                ),
            ),
            Value::Other => Datum::Other,
        }
    }

    /// The entries of a table are modelled one by one.
    pub proof fn lemma_table_model(entries: Vec<Entry>)
        ensures
            Value::Table(entries)@ == Datum::Table(pairs(entries@)),
    {
        assert(Value::Table(entries).model()->Table_0 =~= pairs(entries@));
    }

    pub fn is_number(&self) -> (r: bool)
        ensures
            r == (self@ is Number),
    {
        match self {
            Value::Number(_) => true,
            _ => false,
        }
    }

    pub fn is_nil(&self) -> (r: bool)
        ensures
            r == (self@ is Nil),
    {
        match self {
            Value::Nil => true,
            _ => false,
        }
    }

    pub fn is_table(&self) -> (r: bool)
        ensures
            r == (self@ is Table),
    {
        match self {
            Value::Table(_) => true,
            _ => false,
        }
    }

    pub fn as_number(&self) -> (r: Option<Number>)
        ensures
            r == self@.as_number(),
    {
        match self {
            Value::Number(n) => Some(*n),
            _ => None,
        }
    }

    /// The number that was passed, and zero where something else was.
    pub fn number_or_zero(&self) -> (r: Number)
        ensures
            r == self@.number_or_zero(),
    {
        match self {
            Value::Number(n) => *n,
            _ => Number::zero(),
        }
    }

    /// The rounding radius that was passed: zero where something else than
    /// a number was, and zero where the number is negative or not a number.
    pub fn radius_or_zero(&self) -> (r: Number)
        ensures
            r == self@.radius_or_zero(),
            r.is_non_negative(),
    {
        self.number_or_zero().radius()
    }

    /// What a script reads as `self.name`; nothing where there is no such
    /// field, or where it holds `Nil`.
    pub fn field(&self, name: &str) -> (r: Option<&Value>)
        ensures
            r.is_some() == !(self@.field(name@) is Nil),
            r matches Some(value) ==> value@ == self@.field(name@),
    {
        match self {
            Value::Table(entries) => {
                proof {
                    Value::lemma_table_model(*entries);
                }
                match find_field(entries, name) {
                    Some(i) => {
                        if entries[i].value.is_nil() {
                            None
                        } else {
                            Some(&entries[i].value)
                        }
                    },
                    None => None,
                }
            },
            _ => None,
        }
    }

    /// What a script reads as `self[position]`; nothing where there is no
    /// such item, or where it holds `Nil`.
    pub fn item(&self, position: Number) -> (r: Option<&Value>)
        ensures
            r.is_some() == !(self@.item(position) is Nil),
            r matches Some(value) ==> value@ == self@.item(position),
    {
        match self {
            Value::Table(entries) => {
                proof {
                    Value::lemma_table_model(*entries);
                }
                match find_item(entries, position) {
                    Some(i) => {
                        if entries[i].value.is_nil() {
                            None
                        } else {
                            Some(&entries[i].value)
                        }
                    },
                    None => None,
                }
            },
            _ => None,
        }
    }

    /// The number in the field `name`: what a script tests with
    /// `type(t.name) == "number"` and then reads.
    pub fn number_field(&self, name: &str) -> (r: Option<Number>)
        ensures
            r == self@.field(name@).as_number(),
    {
        match self.field(name) {
            Some(value) => value.as_number(),
            None => None,
        }
    }

    /// The number at `position`: what a script tests with
    /// `type(t[position]) == "number"` and then reads.
    pub fn number_item(&self, position: Number) -> (r: Option<Number>)
        ensures
            r == self@.item(position).as_number(),
    {
        match self.item(position) {
            Some(value) => value.as_number(),
            None => None,
        }
    }

    /// Whether this is a table of three items.
    pub fn has_three_items(&self) -> (r: bool)
        ensures
            r == self@.has_three_items(),
    {
        self.is_table() && self.item(Number::one()).is_some() && self.item(
            Number::two(),
        ).is_some() && self.item(Number::three()).is_some() && self.item(Number::four()).is_none()
    }

    /// The first three items as a triple, where all three are numbers.
    pub fn triple(&self) -> (r: Option<Vector>)
        ensures
            r.is_some() == self@.has_three_numbers(),
            r matches Some(v) ==> v == self@.triple(),
    {
        match (
            self.number_item(Number::one()),
            self.number_item(Number::two()),
            self.number_item(Number::three()),
        ) {
            (Some(x), Some(y), Some(z)) => Some(Vector { x, y, z }),
            _ => None,
        }
    }
}

impl View for Value {
    type V = Datum;

    open spec fn view(&self) -> Datum {
        self.model()
    }
}

} // verus!
