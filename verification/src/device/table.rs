//! Properties and actions, and the tables that list them.
use crate::text::{optional_text, same_optional_text, same_text};
use vstd::prelude::*;

verus! {

/// The kind of a property.
#[derive(PartialEq, Eq, Structural, Copy, Clone, Debug)]
pub enum PropertyKind {
    /// What the appliance is: numbers, codes, counters.
    General,
    /// What has gone wrong.
    Failure,
    /// What the appliance is doing.
    Operation,
    /// What its sensors read and its actuators do.
    Io,
}

/// A property of a device: something that can be queried.
#[derive(PartialEq, Eq, Debug)]
pub struct Property {
    /// The kind of the property.
    pub kind: PropertyKind,
    /// The identifier, unique within a device and the same across devices
    /// for the same thing.
    pub id: &'static str,
    /// The name for people to read.
    pub name: &'static str,
    /// The unit of the value, if it has one.
    pub unit: Option<&'static str>,
}

/// A property as plain values.
pub struct PropertyView {
    /// The kind of the property.
    pub kind: PropertyKind,
    /// The identifier.
    pub id: Seq<char>,
    /// The name.
    pub name: Seq<char>,
    /// The unit.
    pub unit: Option<Seq<char>>,
}

impl View for Property {
    type V = PropertyView;

    open spec fn view(&self) -> PropertyView {
        PropertyView {
            kind: self.kind,
            id: self.id@,
            name: self.name@,
            unit: optional_text(self.unit),
        }
    }
}

impl Property {
    /// Whether this is the property `other`: the same in every part.
    pub fn matches(&self, other: &Property) -> (r: bool)
        ensures
            r == (self@ == other@),
    {
        self.kind == other.kind && same_text(self.id, other.id) && same_text(self.name, other.name)
            && same_optional_text(self.unit, other.unit)
    }
}

/// The kind of an action.
#[derive(PartialEq, Eq, Structural, Copy, Clone, Debug)]
pub enum ActionKind {
    /// The action changes what the appliance does.
    Operation,
    /// The action calibrates a sensor.
    Calibration,
}

/// The argument that an action takes.
#[derive(PartialEq, Eq, Debug)]
pub enum ActionParameters {
    /// A string that is one of the listed options.
    Enumeration(&'static [&'static str]),
    /// A string that names any of the listed flags, separated by `|`.
    Flags(&'static [&'static str]),
}

/// The argument that an action takes, as plain values.
pub enum ParametersView {
    /// One of the listed options.
    Enumeration(Seq<Seq<char>>),
    /// Any of the listed flags.
    Flags(Seq<Seq<char>>),
}

/// A list of strings as plain values.
pub open spec fn texts(list: &[&'static str]) -> Seq<Seq<char>> {
    list@.map_values(|text: &'static str| text@)
}

impl View for ActionParameters {
    type V = ParametersView;

    open spec fn view(&self) -> ParametersView {
        match *self {
            ActionParameters::Enumeration(options) => ParametersView::Enumeration(texts(options)),
            ActionParameters::Flags(names) => ParametersView::Flags(texts(names)),
        }
    }
}

/// Whether two lists of strings hold the same texts in the same order.
pub fn same_texts(a: &[&'static str], b: &[&'static str]) -> (r: bool)
    ensures
        r == (texts(a) == texts(b)),
{
    if a.len() != b.len() {
        assert(texts(a).len() != texts(b).len());
        return false;
    }
    let mut i: usize = 0;
    while i < a.len()
        invariant
            a.len() == b.len(),
            i <= a.len(),
            texts(a).take(i as int) == texts(b).take(i as int),
        decreases a.len() - i,
    {
        if !same_text(a[i], b[i]) {
            assert(texts(a)[i as int] != texts(b)[i as int]);
            return false;
        }
        assert(texts(a).take(i + 1) =~= texts(a).take(i as int).push(texts(a)[i as int]));
        assert(texts(b).take(i + 1) =~= texts(b).take(i as int).push(texts(b)[i as int]));
        i += 1;
    }
    assert(texts(a).take(a.len() as int) =~= texts(a));
    assert(texts(b).take(b.len() as int) =~= texts(b));
    true
}

impl ActionParameters {
    /// Whether these are the parameters `other`.
    pub fn matches(&self, other: &ActionParameters) -> (r: bool)
        ensures
            r == (self@ == other@),
    {
        match (self, other) {
            (ActionParameters::Enumeration(a), ActionParameters::Enumeration(b)) => same_texts(
                a,
                b,
            ),
            (ActionParameters::Flags(a), ActionParameters::Flags(b)) => same_texts(a, b),
            _ => false,
        }
    }
}

/// An action of a device: something that can be triggered.
#[derive(PartialEq, Eq, Debug)]
pub struct Action {
    /// The kind of the action.
    pub kind: ActionKind,
    /// The identifier, unique within a device and the same across devices
    /// for the same thing.
    pub id: &'static str,
    /// The name for people to read.
    pub name: &'static str,
    /// The argument that the action takes, if it takes one.
    pub params: Option<ActionParameters>,
}

/// An action as plain values.
pub struct ActionView {
    /// The kind of the action.
    pub kind: ActionKind,
    /// The identifier.
    pub id: Seq<char>,
    /// The name.
    pub name: Seq<char>,
    /// The argument that the action takes.
    pub params: Option<ParametersView>,
}

impl View for Action {
    type V = ActionView;

    open spec fn view(&self) -> ActionView {
        ActionView {
            kind: self.kind,
            id: self.id@,
            name: self.name@,
            params: match self.params {
                Some(params) => Some(params@),
                None => None,
            },
        }
    }
}

impl Action {
    /// Whether this is the action `other`: the same in every part.
    pub fn matches(&self, other: &Action) -> (r: bool)
        ensures
            r == (self@ == other@),
    {
        self.kind == other.kind && same_text(self.id, other.id) && same_text(self.name, other.name)
            && match (&self.params, &other.params) {
            (Some(a), Some(b)) => a.matches(b),
            (None, None) => true,
            _ => false,
        }
    }
}

/// The properties of a table as plain values.
pub open spec fn properties_view(table: &[Property]) -> Seq<PropertyView> {
    table@.map_values(|p: Property| p@)
}

/// The actions of a table as plain values.
pub open spec fn actions_view(table: &[Action]) -> Seq<ActionView> {
    table@.map_values(|a: Action| a@)
}

/// The first place at which `item` stands in `table`.
pub open spec fn position<T>(table: Seq<T>, item: T) -> Option<int>
    decreases table.len(),
{
    if table.len() == 0 {
        None
    } else {
        match position(table.drop_last(), item) {
            Some(i) => Some(i),
            None => if table.last() == item {
                Some(table.len() - 1)
            } else {
                None
            },
        }
    }
}

/// The place found is in the table and holds the item.
pub proof fn lemma_position<T>(table: Seq<T>, item: T)
    ensures
        match position(table, item) {
            Some(i) => 0 <= i < table.len() && table[i] == item,
            None => !table.contains(item),
        },
    decreases table.len(),
{
    if table.len() > 0 {
        lemma_position(table.drop_last(), item);
        if position(table, item) is None {
            assert forall|i: int| 0 <= i < table.len() implies table[i] != item by {
                if i < table.len() - 1 {
                    assert(table.drop_last()[i] == table[i]);
                }
            }
        } else if position(table.drop_last(), item) is Some {
            let i = position(table.drop_last(), item)->0;
            assert(table.drop_last()[i] == table[i]);
        }
    }
}

/// Looks a property up in a table.
pub fn find_property(table: &[Property], prop: &Property) -> (r: Option<usize>)
    ensures
        match r {
            Some(i) => i < table.len() && position(properties_view(table), prop@) == Some(
                i as int,
            ),
            None => position(properties_view(table), prop@) is None,
        },
{
    let ghost all = properties_view(table);
    let mut i: usize = 0;
    assert(all.take(0) =~= Seq::<PropertyView>::empty());
    while i < table.len()
        invariant
            i <= table.len(),
            all == properties_view(table),
            position(all.take(i as int), prop@) is None,
        decreases table.len() - i,
    {
        assert(all.take(i + 1).drop_last() =~= all.take(i as int));
        if table[i].matches(prop) {
            proof {
                lemma_position_stays(all, prop@, i + 1);
            }
            return Some(i);
        }
        i += 1;
    }
    assert(all.take(table.len() as int) =~= all);
    None
}

/// Looks an action up in a table.
pub fn find_action(table: &[Action], action: &Action) -> (r: Option<usize>)
    ensures
        match r {
            Some(i) => i < table.len() && position(actions_view(table), action@) == Some(
                i as int,
            ),
            None => position(actions_view(table), action@) is None,
        },
{
    let ghost all = actions_view(table);
    let mut i: usize = 0;
    assert(all.take(0) =~= Seq::<ActionView>::empty());
    while i < table.len()
        invariant
            i <= table.len(),
            all == actions_view(table),
            position(all.take(i as int), action@) is None,
        decreases table.len() - i,
    {
        assert(all.take(i + 1).drop_last() =~= all.take(i as int));
        if table[i].matches(action) {
            proof {
                lemma_position_stays(all, action@, i + 1);
            }
            return Some(i);
        }
        i += 1;
    }
    assert(all.take(table.len() as int) =~= all);
    None
}

/// A place found among the first items of a table is the place in the whole
/// table.
proof fn lemma_position_stays<T>(table: Seq<T>, item: T, upto: int)
    requires
        0 <= upto <= table.len(),
        position(table.take(upto), item) is Some,
    ensures
        position(table, item) == position(table.take(upto), item),
    decreases table.len() - upto,
{
    if upto < table.len() {
        assert(table.take(upto + 1).drop_last() =~= table.take(upto));
        lemma_position_stays(table, item, upto + 1);
    } else {
        assert(table.take(upto) =~= table);
    }
}

} // verus!
