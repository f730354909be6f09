//! Items as the store holds them: attributes by name, no name twice.

use vstd::prelude::*;
use vstd::string::*;

verus! {

/// The value of an attribute, as far as this library reads it.
#[derive(Clone, Debug, PartialEq, Eq)]
pub enum AttributeValue {
    /// A text.
    S(String),
    /// The store's null, with the flag it carries.
    Null(bool),
    /// A value of any other type: number, binary, boolean, list, map or set.
    Other,
}

/// An attribute value with its text as a sequence of characters.
pub enum AttributeValueView {
    S(Seq<char>),
    Null(bool),
    Other,
}

impl View for AttributeValue {
    type V = AttributeValueView;

    open spec fn view(&self) -> AttributeValueView {
        match self {
            AttributeValue::S(text) => AttributeValueView::S(text@),
            AttributeValue::Null(flag) => AttributeValueView::Null(*flag),
            AttributeValue::Other => AttributeValueView::Other,
        }
    }
}

/// A name with the value stored under it.
#[derive(Clone, Debug, PartialEq, Eq)]
pub struct Attribute {
    pub name: String,
    pub value: AttributeValue,
}

/// The attributes of an item as a map from names to values.
pub type ItemView = Map<Seq<char>, AttributeValueView>;

/// Whether no two attributes of a sequence share a name.
pub open spec fn names_distinct(attributes: Seq<Attribute>) -> bool {
    forall|i: int, j: int|
        0 <= i < j < attributes.len() ==> (#[trigger] attributes[i]).name@ != (#[trigger] attributes[j]).name@
}

/// Whether a sequence of attributes holds one of the given name.
pub open spec fn has_name(attributes: Seq<Attribute>, name: Seq<char>) -> bool {
    exists|i: int| 0 <= i < attributes.len() && (#[trigger] attributes[i]).name@ == name
}

/// The map that a sequence of attributes stands for.
pub open spec fn attribute_map(attributes: Seq<Attribute>) -> ItemView {
    Map::new(
        |name: Seq<char>| has_name(attributes, name),
        |name: Seq<char>|
            attributes[choose|i: int| 0 <= i < attributes.len() && (#[trigger] attributes[i]).name@ == name].value@,
    )
}

/// An item: a finite map from attribute names to values.
#[derive(Debug)]
pub struct Item {
    attributes: Vec<Attribute>,
}

impl View for Item {
    type V = ItemView;

    closed spec fn view(&self) -> ItemView {
        attribute_map(self.attributes@)
    }
}

impl Item {
    #[verifier::type_invariant]
    spec fn no_name_twice(&self) -> bool {
        names_distinct(self.attributes@)
    }

    /// The item without attributes.
    pub fn new() -> (item: Item)
        ensures
            item@ == Map::<Seq<char>, AttributeValueView>::empty(),
    {
        let item = Item { attributes: Vec::new() };
        assert(item@ =~= Map::<Seq<char>, AttributeValueView>::empty());
        item
    }

    /// The index of the attribute of the given name.
    fn position(&self, name: &String) -> (found: Option<usize>)
        ensures
            match found {
                Some(i) => i < self.attributes@.len() && self.attributes@[i as int].name@ == name@,
                None => !has_name(self.attributes@, name@),
            },
    {
        let mut i: usize = 0;
        while i < self.attributes.len()
            invariant
                i <= self.attributes@.len(),
                forall|j: int| 0 <= j < i ==> (#[trigger] self.attributes@[j]).name@ != name@,
            decreases self.attributes@.len() - i,
        {
            if self.attributes[i].name == *name {
                return Some(i);
            }
            i += 1;
        }
        None
    }

    /// The value stored under a name, if there is one.
    pub fn get(&self, name: &str) -> (value: Option<&AttributeValue>)
        ensures
            match value {
                Some(found) => self@.contains_key(name@) && self@[name@] == found@,
                None => !self@.contains_key(name@),
            },
    {
        proof {
            use_type_invariant(self);
        }
        let wanted = String::from_str(name);
        match self.position(&wanted) {
            Some(i) => {
                assert(has_name(self.attributes@, name@));
                Some(&self.attributes[i].value)
            },
            None => None,
        }
    }

    /// Stores a value under a name, in place of the value that was there, if any.
    pub fn insert(&mut self, name: String, value: AttributeValue)
        ensures
            final(self)@ == old(self)@.insert(name@, value@),
    {
        proof {
            use_type_invariant(&*self);
        }
        let found = self.position(&name);
        let mut taken = Item::new();
        core::mem::swap(self, &mut taken);
        let mut attributes = taken.attributes;
        let ghost before = attributes@;
        match found {
            Some(i) => {
                attributes.set(i, Attribute { name, value });
            },
            None => {
                attributes.push(Attribute { name, value });
            },
        }
        proof {
            let after = attributes@;
            assert(names_distinct(after));
            assert forall|other: Seq<char>| #[trigger] has_name(after, other) <==> (other == name@ || has_name(before, other)) by {
                if has_name(before, other) {
                    let i = choose|i: int| 0 <= i < before.len() && (#[trigger] before[i]).name@ == other;
                    assert(after[i].name@ == other);
                }
                if other == name@ {
                    match found {
                        Some(i) => {
                            assert(after[i as int].name@ == name@);
                        },
                        None => {
                            assert(after[before.len() as int].name@ == name@);
                        },
                    }
                }
            }
            assert(attribute_map(after) =~= attribute_map(before).insert(name@, value@));
        }
        *self = Item { attributes };
    }

    /// The attributes one by one, each name once, in no particular order.
    pub fn attributes(&self) -> (attributes: &Vec<Attribute>)
        ensures
            names_distinct(attributes@),
            attribute_map(attributes@) == self@,
    {
        proof {
            use_type_invariant(self);
        }
        &self.attributes
    }
}

impl Clone for Item {
    fn clone(&self) -> (copy: Item)
        ensures
            copy@ == self@,
    {
        proof {
            use_type_invariant(self);
        }
        let mut attributes: Vec<Attribute> = Vec::new();
        let mut i: usize = 0;
        while i < self.attributes.len()
            invariant
                i <= self.attributes@.len(),
                attributes@.len() == i,
                forall|j: int| 0 <= j < i ==> (#[trigger] attributes@[j]).name@ == self.attributes@[j].name@
                    && attributes@[j].value@ == self.attributes@[j].value@,
            decreases self.attributes@.len() - i,
        {
            let name = self.attributes[i].name.clone();
            let value = match &self.attributes[i].value {
                AttributeValue::S(text) => AttributeValue::S(text.clone()),
                AttributeValue::Null(flag) => AttributeValue::Null(*flag),
                AttributeValue::Other => AttributeValue::Other,
            };
            attributes.push(Attribute { name, value });
            i += 1;
        }
        proof {
            lemma_same_attributes(attributes@, self.attributes@);
        }
        Item { attributes }
    }
}

/// Sequences that agree name by name and value by value stand for the same map.
proof fn lemma_same_attributes(left: Seq<Attribute>, right: Seq<Attribute>)
    requires
        left.len() == right.len(),
        forall|j: int| 0 <= j < left.len() ==> (#[trigger] left[j]).name@ == right[j].name@ && left[j].value@ == right[j].value@,
        names_distinct(right),
    ensures
        names_distinct(left),
        attribute_map(left) == attribute_map(right),
{
    assert forall|i: int, j: int| 0 <= i < j < left.len() implies (#[trigger] left[i]).name@ != (#[trigger] left[j]).name@ by {
        assert(right[i].name@ != right[j].name@);
    }
    assert forall|name: Seq<char>| #[trigger] has_name(left, name) <==> has_name(right, name) by {
        if has_name(left, name) {
            let i = choose|i: int| 0 <= i < left.len() && (#[trigger] left[i]).name@ == name;
            assert(right[i].name@ == name);
        }
        if has_name(right, name) {
            let i = choose|i: int| 0 <= i < right.len() && (#[trigger] right[i]).name@ == name;
            assert(left[i].name@ == name);
        }
    }
    assert forall|name: Seq<char>| has_name(left, name) implies attribute_map(left)[name] == attribute_map(right)[name] by {
        let i = choose|i: int| 0 <= i < left.len() && (#[trigger] left[i]).name@ == name;
        let j = choose|j: int| 0 <= j < right.len() && (#[trigger] right[j]).name@ == name;
        assert(right[i].name@ == name);
        if i < j {
            assert(right[i].name@ != right[j].name@);
        }
        if j < i {
            assert(right[j].name@ != right[i].name@);
        }
    }
    assert(attribute_map(left) =~= attribute_map(right));
}

} // verus!
