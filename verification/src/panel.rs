//! What a window shows, item by item.
use vstd::prelude::*;

verus! {

/// What an item is, apart from its texts.
#[derive(Debug, Clone, Copy, PartialEq, Eq, Structural)]
pub enum ItemKind<F> {
    Heading,
    Label,
    Strong,
    Notice,
    Warning,
    Failure,
    Code,
    /// A check box.
    Toggle { field: F, on: bool, enabled: bool },
    /// One of several choices.
    Choice { field: F, at: u64, chosen: bool },
    /// A number within bounds, beside its name.
    Number { field: F, value: u64, min: u64, max: u64, enabled: bool },
    /// A number within bounds, below its name and its explanation.
    Row { field: F, value: u64, min: u64, max: u64, enabled: bool },
    /// A number that is only shown.
    Fixed { value: u64 },
    /// A list to pick from.
    Picker { field: F },
    /// A text that can be changed.
    Entry { field: F },
    Button { field: F, enabled: bool },
}

/// One item: what it says, and what it says when pointed at.
#[derive(Debug)]
pub struct Item<F> {
    pub kind: ItemKind<F>,
    pub text: String,
    pub help: String,
    /// What stands behind a number.
    pub unit: &'static str,
}

/// One item, with its texts as sequences.
#[verifier::ext_equal]
pub struct ItemView<F> {
    pub kind: ItemKind<F>,
    pub text: Seq<char>,
    pub help: Seq<char>,
    pub unit: Seq<char>,
}

impl<F> View for Item<F> {
    type V = ItemView<F>;

    open spec fn view(&self) -> ItemView<F> {
        ItemView { kind: self.kind, text: self.text@, help: self.help@, unit: self.unit@ }
    }
}

/// The items of a window in their order.
#[derive(Debug)]
pub struct Panel<F> {
    pub items: Vec<Item<F>>,
}

impl<F> View for Panel<F> {
    type V = Seq<ItemView<F>>;

    open spec fn view(&self) -> Seq<ItemView<F>> {
        self.items@.map_values(|item: Item<F>| item@)
    }
}

/// An item that only says something.
pub open spec fn saying<F>(kind: ItemKind<F>, text: Seq<char>) -> ItemView<F> {
    ItemView { kind, text, help: ""@, unit: ""@ }
}

/// An item that explains itself when pointed at.
pub open spec fn explained<F>(kind: ItemKind<F>, text: Seq<char>, help: Seq<char>) -> ItemView<F> {
    ItemView { kind, text, help, unit: ""@ }
}

/// A number with what stands behind it.
pub open spec fn measured<F>(
    kind: ItemKind<F>,
    text: Seq<char>,
    help: Seq<char>,
    unit: Seq<char>,
) -> ItemView<F> {
    ItemView { kind, text, help, unit }
}

impl<F> Panel<F> {
    pub fn new() -> (panel: Self)
        ensures
            panel@ == Seq::<ItemView<F>>::empty(),
    {
        let panel = Panel { items: Vec::new() };
        proof {
            assert(panel@ =~= Seq::<ItemView<F>>::empty());
        }
        panel
    }

    /// Adds an item.
    pub fn put(&mut self, kind: ItemKind<F>, text: &str, help: &str, unit: &'static str)
        ensures
            final(self)@ == old(self)@.push(measured(kind, text@, help@, unit@)),
    {
        self.items.push(Item { kind, text: text.to_owned(), help: help.to_owned(), unit });
        proof {
            assert(self@ =~= old(self)@.push(measured(kind, text@, help@, unit@)));
        }
    }

    /// Adds all items of another window.
    pub fn append(&mut self, other: Panel<F>)
        ensures
            final(self)@ == old(self)@ + other@,
    {
        let ghost added = other@;
        let mut items = other.items;
        self.items.append(&mut items);
        proof {
            assert(self@ =~= old(self)@ + added);
        }
    }

    /// Adds an item that only says something.
    pub fn say(&mut self, kind: ItemKind<F>, text: &str)
        ensures
            final(self)@ == old(self)@.push(saying(kind, text@)),
    {
        self.put(kind, text, "", "");
    }

    /// Adds an item that explains itself when pointed at.
    pub fn explain(&mut self, kind: ItemKind<F>, text: &str, help: &str)
        ensures
            final(self)@ == old(self)@.push(explained(kind, text@, help@)),
    {
        self.put(kind, text, help, "");
    }
}

} // verus!
