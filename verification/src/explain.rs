//! Self-describing entries for plan nodes: a name and an ordered list of
//! keyed values. This is the canonical human-readable plan format.

use crate::expr::{expr_text, Expression};
use crate::text::{join, join_text};
use vstd::prelude::*;

verus! {

/// Configuration for producing an explain entry.
#[derive(Debug, Clone, Copy, PartialEq, Eq, Structural)]
pub struct ExplainConfig {
    /// Whether table references are included.
    pub verbose: bool,
}

#[derive(Debug, PartialEq, Eq)]
pub enum ExplainValue {
    Value(String),
    Values(Vec<String>),
}

#[derive(Debug, PartialEq, Eq)]
pub struct ExplainItem {
    pub key: String,
    pub value: ExplainValue,
}

#[derive(Debug, PartialEq, Eq)]
pub struct ExplainEntry {
    pub name: String,
    pub items: Vec<ExplainItem>,
}

pub ghost enum ExplainValueView {
    Value(Seq<char>),
    Values(Seq<Seq<char>>),
}

pub ghost struct ExplainItemView {
    pub key: Seq<char>,
    pub value: ExplainValueView,
}

/// What an explain entry holds, as plain values.
pub ghost struct ExplainEntryView {
    pub name: Seq<char>,
    pub items: Seq<ExplainItemView>,
}

impl ExplainEntryView {
    /// An entry with a name and no items.
    pub open spec fn named(name: Seq<char>) -> ExplainEntryView {
        ExplainEntryView { name, items: Seq::empty() }
    }

    /// The entry with a single value appended under a key.
    pub open spec fn with_value(self, key: Seq<char>, value: Seq<char>) -> ExplainEntryView {
        ExplainEntryView {
            name: self.name,
            items: self.items.push(ExplainItemView { key, value: ExplainValueView::Value(value) }),
        }
    }

    /// The entry with a list of values appended under a key.
    pub open spec fn with_values(self, key: Seq<char>, values: Seq<Seq<char>>) -> ExplainEntryView {
        ExplainEntryView {
            name: self.name,
            items: self.items.push(
                ExplainItemView { key, value: ExplainValueView::Values(values) },
            ),
        }
    }
}

impl View for ExplainValue {
    type V = ExplainValueView;

    open spec fn view(&self) -> ExplainValueView {
        match *self {
            ExplainValue::Value(s) => ExplainValueView::Value(s@),
            ExplainValue::Values(v) => ExplainValueView::Values(v.deep_view()),
        }
    }
}

impl View for ExplainItem {
    type V = ExplainItemView;

    open spec fn view(&self) -> ExplainItemView {
        ExplainItemView { key: self.key@, value: self.value@ }
    }
}

impl View for ExplainEntry {
    type V = ExplainEntryView;

    open spec fn view(&self) -> ExplainEntryView {
        ExplainEntryView {
            name: self.name@,
            items: Seq::new(self.items@.len(), |i: int| self.items@[i]@),
        }
    }
}

impl ExplainEntry {
    pub fn new(name: &str) -> (e: Self)
        ensures
            e@ == ExplainEntryView::named(name@),
    {
        let e = ExplainEntry { name: name.to_owned(), items: Vec::new() };
        assert(e@.items =~= Seq::<ExplainItemView>::empty());
        e
    }

    /// Appends a single value under a key.
    pub fn with_value(self, key: &str, value: String) -> (e: Self)
        ensures
            e@ == self@.with_value(key@, value@),
    {
        let mut entry = self;
        entry.items.push(ExplainItem { key: key.to_owned(), value: ExplainValue::Value(value) });
        assert(entry@.items =~= self@.with_value(key@, value@).items);
        entry
    }

    /// Appends a list of values under a key.
    pub fn with_values(self, key: &str, values: Vec<String>) -> (e: Self)
        ensures
            e@ == self@.with_values(key@, values.deep_view()),
    {
        let mut entry = self;
        entry.items.push(ExplainItem { key: key.to_owned(), value: ExplainValue::Values(values) });
        assert(entry@.items =~= self@.with_values(key@, values.deep_view()).items);
        entry
    }
}

/// The rendered form of a value: the value itself, or the values of a list
/// in square brackets, separated by a comma and a space.
pub open spec fn explain_value_text(v: ExplainValueView) -> Seq<char> {
    match v {
        ExplainValueView::Value(s) => s,
        ExplainValueView::Values(values) => "["@ + join_text(values, ", "@) + "]"@,
    }
}

/// The rendered form of an item: `key = value`.
pub open spec fn explain_item_text(item: ExplainItemView) -> Seq<char> {
    item.key + " = "@ + explain_value_text(item.value)
}

/// The rendered form of an entry: the name, followed, where there are
/// items, by the items in parentheses, separated by a comma and a space.
pub open spec fn explain_entry_text(entry: ExplainEntryView) -> Seq<char> {
    if entry.items.len() == 0 {
        entry.name
    } else {
        entry.name + " ("@ + join_text(
            entry.items.map_values(|item: ExplainItemView| explain_item_text(item)),
            ", "@,
        ) + ")"@
    }
}

impl ExplainValue {
    pub fn to_string(&self) -> (s: String)
        ensures
            s@ == explain_value_text(self@),
    {
        match self {
            ExplainValue::Value(v) => v.clone(),
            ExplainValue::Values(values) => {
                let mut s = String::from_str("[");
                s.append(join(values, ", ").as_str());
                s.append("]");
                s
            },
        }
    }
}

impl ExplainEntry {
    /// Renders the entry, as `explain_entry_text` states.
    pub fn to_string(&self) -> (s: String)
        ensures
            s@ == explain_entry_text(self@),
    {
        let mut out = self.name.clone();
        if self.items.len() == 0 {
            return out;
        }
        let mut items: Vec<String> = Vec::new();
        let mut i: usize = 0;
        while i < self.items.len()
            invariant
                i <= self.items.len(),
                items.deep_view() == self@.items.take(i as int).map_values(
                    |item: ExplainItemView| explain_item_text(item),
                ),
            decreases self.items.len() - i,
        {
            let mut text = self.items[i].key.clone();
            text.append(" = ");
            text.append(self.items[i].value.to_string().as_str());
            let ghost before = items.deep_view();
            items.push(text);
            proof {
                assert(self@.items[i as int] == self.items@[i as int]@);
                assert(items.deep_view() =~= before.push(text@));
                assert(self@.items.take(i + 1).map_values(
                    |item: ExplainItemView| explain_item_text(item),
                ) =~= before.push(text@));
            }
            i += 1;
        }
        proof {
            assert(self@.items.take(self.items.len() as int) =~= self@.items);
        }
        out.append(" (");
        out.append(join(&items, ", ").as_str());
        out.append(")");
        out
    }
}

/// The rendered forms of a list of expressions.
pub open spec fn expr_texts(exprs: Seq<Expression>) -> Seq<Seq<char>> {
    exprs.map_values(|e: Expression| expr_text(e))
}

/// Renders each expression of a list.
pub fn expressions_to_strings(exprs: &Vec<Expression>) -> (out: Vec<String>)
    ensures
        out.deep_view() == expr_texts(exprs@),
{
    let mut out: Vec<String> = Vec::new();
    let mut i: usize = 0;
    while i < exprs.len()
        invariant
            i <= exprs.len(),
            out.deep_view() == expr_texts(exprs@.take(i as int)),
        decreases exprs.len() - i,
    {
        let text = exprs[i].to_string();
        let ghost before = out.deep_view();
        out.push(text);
        proof {
            assert(out.deep_view() =~= before.push(text@));
            assert(expr_texts(exprs@.take(i + 1)) =~= before.push(text@));
        }
        i += 1;
    }
    assert(exprs@.take(exprs.len() as int) =~= exprs@);
    out
}

/// A plan node that can describe itself.
pub trait Explainable {
    /// The entry that describes the node under a configuration.
    spec fn explain_view(&self, conf: ExplainConfig) -> ExplainEntryView;

    fn explain_entry(&self, conf: ExplainConfig) -> (e: ExplainEntry)
        ensures
            e@ == self.explain_view(conf),
    ;
}

} // verus!
