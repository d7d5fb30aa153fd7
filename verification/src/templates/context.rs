//! The data that a template is rendered with.
//!
//! A context maps field names to values. It is built anew for each render
//! and holds a field for each name that its artifact knows, also where the
//! source has nothing to say: such a field is put as [`Field::Absent`], never
//! as an empty text or a zero.

use vstd::prelude::*;
use drone_config::Config;
use crate::notes::{holds_reserved, reserved};
use crate::templates::engine::{config_json, number_list, text_list, Json};
use crate::text::{same_text, texts};

verus! {

/// The value of one field.
#[derive(Debug)]
pub enum Field<'a> {
    /// Nothing: the source does not offer the field.
    Absent,
    /// A switch.
    Flag(bool),
    /// A number.
    Number(u32),
    /// A text.
    Text(String),
    /// A list of texts.
    Texts(Vec<String>),
    /// A list of numbers.
    Numbers(Vec<u32>),
    /// The configuration of the project, as it stands.
    Config(&'a Config),
}

/// What the value of a field says.
pub ghost enum FieldView {
    Absent,
    Flag(bool),
    Number(u32),
    Text(Seq<char>),
    Texts(Seq<Seq<char>>),
    Numbers(Seq<u32>),
    Config(Config),
}

impl<'a> View for Field<'a> {
    type V = FieldView;

    open spec fn view(&self) -> FieldView {
        match *self {
            Field::Absent => FieldView::Absent,
            Field::Flag(flag) => FieldView::Flag(flag),
            Field::Number(number) => FieldView::Number(number),
            Field::Text(text) => FieldView::Text(text@),
            Field::Texts(items) => FieldView::Texts(texts(items@)),
            Field::Numbers(numbers) => FieldView::Numbers(numbers@),
            Field::Config(config) => FieldView::Config(*config),
        }
    }
}

/// The JSON data that a field is handed to the engine as. Nothing is handed
/// over as null, a list item by item. A configuration is handed over as
/// `serde_json` encodes it.
pub open spec fn json_of(field: FieldView) -> Json {
    match field {
        FieldView::Absent => Json::Null,
        FieldView::Flag(flag) => Json::Flag(flag),
        FieldView::Number(number) => Json::Number(number as int),
        FieldView::Text(text) => Json::Text(text),
        FieldView::Texts(items) => text_list(items),
        FieldView::Numbers(numbers) => number_list(numbers),
        FieldView::Config(config) => match config_json(config) {
            Ok(json) => json,
            Err(_) => Json::Null,
        },
    }
}

/// The JSON object that `entries` are handed to the engine as. A name that
/// occurs again takes the later value.
pub open spec fn encoded(entries: Seq<(Seq<char>, FieldView)>) -> Map<Seq<char>, Json>
    decreases entries.len(),
{
    if entries.len() == 0 {
        Map::empty()
    } else {
        encoded(entries.drop_last()).insert(entries.last().0, json_of(entries.last().1))
    }
}

/// Whether one of `items` holds a character that is kept for usage notes.
pub open spec fn some_reserved(items: Seq<Seq<char>>) -> bool {
    exists|i: int| 0 <= i < items.len() && reserved(#[trigger] items[i])
}

/// Whether a field holds, in a text of its own, a character that is kept
/// for usage notes. A configuration is not looked into.
pub open spec fn field_reserved(field: FieldView) -> bool {
    match field {
        FieldView::Text(text) => reserved(text),
        FieldView::Texts(items) => some_reserved(items),
        _ => false,
    }
}

/// The name of the first of `entries` whose field holds a character that is
/// kept for usage notes, if there is one.
pub open spec fn first_reserved(entries: Seq<(Seq<char>, FieldView)>) -> Option<Seq<char>>
    decreases entries.len(),
{
    if entries.len() == 0 {
        None
    } else {
        match first_reserved(entries.drop_last()) {
            Some(name) => Some(name),
            None => if field_reserved(entries.last().1) {
                Some(entries.last().0)
            } else {
                None
            },
        }
    }
}

/// A field with a reserved character among the first `n` entries is the
/// first of them all.
proof fn lemma_first_reserved_stays(entries: Seq<(Seq<char>, FieldView)>, n: int)
    requires
        0 <= n <= entries.len(),
        first_reserved(entries.take(n)) is Some,
    ensures
        first_reserved(entries) == first_reserved(entries.take(n)),
    decreases entries.len() - n,
{
    if n < entries.len() {
        assert(entries.take(n + 1).drop_last() =~= entries.take(n));
        lemma_first_reserved_stays(entries, n + 1);
    } else {
        assert(entries.take(n) =~= entries);
    }
}

/// Tells whether one of `items` holds a character that is kept for usage
/// notes.
fn any_reserved(items: &Vec<String>) -> (held: bool)
    ensures
        held == some_reserved(texts(items@)),
{
    let mut i: usize = 0;
    while i < items.len()
        invariant
            i <= items.len(),
            forall|k: int| 0 <= k < i ==> !reserved(#[trigger] texts(items@)[k]),
        decreases items.len() - i,
    {
        if holds_reserved(items[i].as_str()) {
            proof {
                let all = texts(items@);
                assert(all[i as int] == items@[i as int]@);
                assert(0 <= i < all.len() && reserved(all[i as int]));
            }
            return true;
        }
        i = i + 1;
    }
    false
}

/// A field under its name.
#[derive(Debug)]
pub struct Entry<'a> {
    /// The name of the field.
    pub name: &'static str,
    /// The value of the field.
    pub field: Field<'a>,
}

/// The data of one render: fields under their names.
#[derive(Debug)]
pub struct RenderContext<'a> {
    entries: Vec<Entry<'a>>,
}

/// The mapping that putting `entries` one after another gives. A name that
/// is put again takes the later value.
pub open spec fn gathered(entries: Seq<(Seq<char>, FieldView)>) -> Map<Seq<char>, FieldView>
    decreases entries.len(),
{
    if entries.len() == 0 {
        Map::empty()
    } else {
        gathered(entries.drop_last()).insert(entries.last().0, entries.last().1)
    }
}

impl<'a> View for RenderContext<'a> {
    type V = Map<Seq<char>, FieldView>;

    open spec fn view(&self) -> Map<Seq<char>, FieldView> {
        gathered(self.entries())
    }
}

impl<'a> RenderContext<'a> {
    /// The fields in the order in which they were put.
    pub closed spec fn entries(&self) -> Seq<(Seq<char>, FieldView)> {
        Seq::new(self.entries@.len(), |i: int| (self.entries@[i].name@, self.entries@[i].field@))
    }

    /// Returns a context without fields.
    pub fn new() -> (context: RenderContext<'a>)
        ensures
            context@ == Map::<Seq<char>, FieldView>::empty(),
            context.entries() == Seq::<(Seq<char>, FieldView)>::empty(),
    {
        let context = RenderContext { entries: Vec::new() };
        proof {
            assert(context.entries() =~= Seq::<(Seq<char>, FieldView)>::empty());
        }
        context
    }

    /// Puts `field` under `name`. A field that stood there is replaced.
    pub fn put(&mut self, name: &'static str, field: Field<'a>)
        ensures
            final(self)@ == old(self)@.insert(name@, field@),
            final(self).entries() == old(self).entries().push((name@, field@)),
    {
        let ghost before = self.entries();
        self.entries.push(Entry { name, field });
        proof {
            assert(self.entries() =~= before.push((name@, field@)));
            assert(self.entries().drop_last() =~= before);
        }
    }

    /// How many fields were put.
    pub fn len(&self) -> (count: usize)
        ensures
            count == self.entries().len(),
    {
        self.entries.len()
    }

    /// The `i`-th field that was put, if so many were.
    pub fn entry(&self, i: usize) -> (entry: Option<&Entry<'a>>)
        ensures
            entry is Some <==> i < self.entries().len(),
            entry matches Some(found) ==> (found.name@, found.field@) == self.entries()[i as int],
            self.entries().len() <= usize::MAX,
    {
        if i < self.entries.len() {
            Some(&self.entries[i])
        } else {
            None
        }
    }

    /// Tells the name of the first field that holds, in a text of its own,
    /// a character that is kept for usage notes.
    pub fn reserved_field(&self) -> (name: Option<&'static str>)
        ensures
            match name {
                Some(found) => first_reserved(self.entries()) == Some(found@),
                None => first_reserved(self.entries()) is None,
            },
    {
        let mut i: usize = 0;
        proof {
            assert(self.entries().take(0) =~= Seq::<(Seq<char>, FieldView)>::empty());
        }
        while i < self.entries.len()
            invariant
                i <= self.entries.len(),
                first_reserved(self.entries().take(i as int)) is None,
            decreases self.entries.len() - i,
        {
            proof {
                assert(self.entries().take(i + 1).drop_last() =~= self.entries().take(i as int));
                assert(self.entries().take(i + 1).last() == self.entries()[i as int]);
            }
            let held = match &self.entries[i].field {
                Field::Text(text) => holds_reserved(text.as_str()),
                Field::Texts(items) => any_reserved(items),
                _ => false,
            };
            if held {
                proof {
                    lemma_first_reserved_stays(self.entries(), i + 1);
                }
                return Some(self.entries[i].name);
            }
            i = i + 1;
        }
        proof {
            assert(self.entries().take(self.entries.len() as int) =~= self.entries());
        }
        None
    }

    /// The field under `name`, if there is one.
    pub fn get(&self, name: &str) -> (field: Option<&Field<'a>>)
        ensures
            field is Some <==> self@.dom().contains(name@),
            field matches Some(found) ==> found@ == self@[name@],
    {
        let mut i: usize = self.entries.len();
        proof {
            assert(self.entries().take(i as int) =~= self.entries());
        }
        while i > 0
            invariant
                i <= self.entries.len(),
                self@.dom().contains(name@) <==> gathered(self.entries().take(i as int)).dom().contains(name@),
                self@.dom().contains(name@) ==> self@[name@] == gathered(
                    self.entries().take(i as int),
                )[name@],
            decreases i,
        {
            i = i - 1;
            proof {
                assert(self.entries().take(i + 1).drop_last() =~= self.entries().take(i as int));
                assert(self.entries().take(i + 1).last() == self.entries()[i as int]);
            }
            if same_text(self.entries[i].name, name) {
                return Some(&self.entries[i].field);
            }
        }
        None
    }
}

} // verus!
