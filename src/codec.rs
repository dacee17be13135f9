use vstd::prelude::*;
use vstd::string::*;

use crate::store::{tasks_view, tasks_wf};
use crate::types::{Item, ItemView};

verus! {

#[verifier::external_type_specification]
#[verifier::external_body]
pub struct ExJsonValue(json::JsonValue);

/// The fields of a record as plain values: id, title and content, each
/// `None` where it is missing or of the wrong kind.
pub type RecordView = (Option<nat>, Option<Seq<char>>, Option<Seq<char>>);

/// Whether the json crate accepts `text` as a JSON document.
pub uninterp spec fn json_accepts(text: Seq<char>) -> bool;

/// The records that the json crate reads from the document `text`: for each
/// member of the top-level array, its `id` as an unsigned integer that fits a
/// `usize` and its `title` and `content` as strings. `None` where the document
/// is no array.
pub uninterp spec fn json_records(text: Seq<char>) -> Option<Seq<RecordView>>;

/// Relies on json::parse, on matching the `Array` variant of json::JsonValue,
/// and on `Index<&str>`, `as_usize` and `as_str` of each member: `None` where
/// the text is no JSON document, `Some(None)` where it is no array, and else
/// the fields of each member, in order.
#[verifier::external_body]
fn json_records_of(text: &str) -> (r: Option<Option<Vec<RawRecord>>>)
    ensures
        r is Some == json_accepts(text@),
        r is Some ==> (r->Some_0 is Some == json_records(text@) is Some),
        r is Some && r->Some_0 is Some ==> records_view(r->Some_0->Some_0@) == json_records(
            text@,
        )->Some_0,
{
    match json::parse(text) {
        Err(_) => None,
        Ok(json::JsonValue::Array(members)) => Some(Some(members.iter().map(|m| RawRecord {
            id: m["id"].as_usize(),
            title: m["title"].as_str().map(|t| t.to_string()),
            content: m["content"].as_str().map(|c| c.to_string()),
        }).collect())),
        Ok(_) => Some(None),
    }
}

/// The `\u00xx` form of a control character: two lowercase hex digits of its
/// code below 0x20.
pub open spec fn unicode_escape(code: nat) -> Seq<char> {
    let hex = seq!['0', '1', '2', '3', '4', '5', '6', '7', '8', '9', 'a', 'b', 'c', 'd', 'e', 'f'];
    seq!['\\', 'u', '0', '0', hex[(code / 16) as int], hex[(code % 16) as int]]
}

/// How one character stands inside a JSON string literal: the quote and the
/// backslash escaped, the five control characters with a short escape in it,
/// the other control characters below 0x20 as `\u00xx`, every other character
/// as it is.
pub open spec fn escape_char(c: char) -> Seq<char> {
    if c == '"' {
        seq!['\\', '"']
    } else if c == '\\' {
        seq!['\\', '\\']
    } else if c == '\u{8}' {
        seq!['\\', 'b']
    } else if c == '\t' {
        seq!['\\', 't']
    } else if c == '\n' {
        seq!['\\', 'n']
    } else if c == '\u{c}' {
        seq!['\\', 'f']
    } else if c == '\r' {
        seq!['\\', 'r']
    } else if (c as u32) < 0x20 {
        unicode_escape(c as u32 as nat)
    } else {
        seq![c]
    }
}

/// The characters of `s`, each escaped.
pub open spec fn escaped(s: Seq<char>) -> Seq<char>
    decreases s.len(),
{
    if s.len() == 0 {
        Seq::empty()
    } else {
        escaped(s.drop_last()) + escape_char(s.last())
    }
}

/// The JSON string literal of `s`: its escaped characters between quotes.
pub open spec fn json_string(s: Seq<char>) -> Seq<char> {
    seq!['"'] + escaped(s) + seq!['"']
}

/// Relies on json::stringify on a `&str`: a quote, each character escaped by
/// the crate's table, a quote.
#[verifier::external_body]
fn quote(s: &str) -> (r: String)
    ensures
        r@ == json_string(s@),
{
    json::stringify(s)
}

/// The fields of one record of a task file, each `None` where it is missing
/// or of the wrong kind.
pub struct RawRecord {
    pub id: Option<usize>,
    pub title: Option<String>,
    pub content: Option<String>,
}

impl View for RawRecord {
    type V = RecordView;

    open spec fn view(&self) -> RecordView {
        (
            match self.id {
                Some(n) => Some(n as nat),
                None => None,
            },
            match self.title {
                Some(t) => Some(t@),
                None => None,
            },
            match self.content {
                Some(c) => Some(c@),
                None => None,
            },
        )
    }
}

/// The values of a sequence of records.
pub open spec fn records_view(v: Seq<RawRecord>) -> Seq<RecordView> {
    v.map_values(|x: RawRecord| x@)
}

/// Why a task file was refused.
#[derive(Clone, Copy, Debug, PartialEq, Eq, Structural)]
pub enum LoadError {
    /// The text is no JSON document.
    Syntax,
    /// The document is no array.
    NotAList,
    /// The record at this index lacks an id, a title or a content.
    MissingField(usize),
    /// The record at this index has an empty title.
    EmptyTitle(usize),
    /// The record at this index repeats the id of an earlier one.
    DuplicateId(usize),
}

/// What is wrong with record `i`, if anything, given that the records before
/// it are sound.
pub open spec fn record_fault(recs: Seq<RecordView>, i: int) -> Option<LoadError> {
    let r = recs[i];
    if r.0 is None || r.1 is None || r.2 is None {
        Some(LoadError::MissingField(i as usize))
    } else if r.1->Some_0.len() == 0 {
        Some(LoadError::EmptyTitle(i as usize))
    } else if exists|j: int| 0 <= j < i && #[trigger] recs[j].0 == r.0 {
        Some(LoadError::DuplicateId(i as usize))
    } else {
        None
    }
}

/// Every record is sound.
pub open spec fn records_sound(recs: Seq<RecordView>) -> bool {
    forall|i: int| 0 <= i < recs.len() ==> #[trigger] record_fault(recs, i) is None
}

/// The first record at fault is the one at `i`, and `e` is what is wrong with it.
pub open spec fn first_fault(recs: Seq<RecordView>, i: int, e: LoadError) -> bool {
    &&& 0 <= i < recs.len()
    &&& record_fault(recs, i) == Some(e)
    &&& forall|j: int| 0 <= j < i ==> #[trigger] record_fault(recs, j) is None
}

/// The index of the record that a record error names; -1 for the other errors.
pub open spec fn fault_index(e: LoadError) -> int {
    match e {
        LoadError::MissingField(i) => i as int,
        LoadError::EmptyTitle(i) => i as int,
        LoadError::DuplicateId(i) => i as int,
        _ => -1,
    }
}

/// The task that a complete record stands for.
pub open spec fn record_item(r: RecordView) -> ItemView {
    ItemView { id: r.0->Some_0, title: r.1->Some_0, content: r.2->Some_0 }
}

/// The tasks that sound records stand for.
pub open spec fn records_items(recs: Seq<RecordView>) -> Seq<ItemView> {
    recs.map_values(|x: RecordView| record_item(x))
}

/// Turns the records of a task file into tasks, in order. The first record at
/// fault decides the error.
pub fn items_from_records(records: &Vec<RawRecord>) -> (r: Result<Vec<Item>, LoadError>)
    ensures
        r is Ok <==> records_sound(records_view(records@)),
        r is Ok ==> tasks_view(r->Ok_0@) == records_items(records_view(records@)),
        r is Ok ==> tasks_wf(tasks_view(r->Ok_0@)),
        r is Err ==> first_fault(records_view(records@), fault_index(r->Err_0), r->Err_0),
{
    let ghost recs = records_view(records@);
    let ghost want = records_items(recs);
    let mut items: Vec<Item> = Vec::new();
    let mut i: usize = 0;
    while i < records.len()
        invariant
            0 <= i <= recs.len(),
            recs == records_view(records@),
            want == records_items(recs),
            tasks_view(items@) == want.subrange(0, i as int),
            items@.len() == i,
            forall|j: int| 0 <= j < i ==> #[trigger] record_fault(recs, j) is None,
            forall|j: int| 0 <= j < i ==> #[trigger] recs[j].0 == Some(items@[j].id as nat),
        decreases recs.len() - i,
    {
        let rec = &records[i];
        assert(rec@ == recs[i as int]);
        let (id, title, content) = match (&rec.id, &rec.title, &rec.content) {
            (Some(id), Some(title), Some(content)) => (*id, title, content),
            _ => {
                assert(record_fault(recs, i as int) == Some(LoadError::MissingField(i)));
                return Err(LoadError::MissingField(i));
            },
        };
        if title.as_str().is_empty() {
            assert(record_fault(recs, i as int) == Some(LoadError::EmptyTitle(i)));
            return Err(LoadError::EmptyTitle(i));
        }
        let mut k: usize = 0;
        while k < items.len()
            invariant
                0 <= k <= items@.len(),
                items@.len() == i,
                i < recs.len(),
                recs == records_view(records@),
                recs[i as int].0 == Some(id as nat),
                recs[i as int].1 is Some && recs[i as int].2 is Some,
                recs[i as int].1->Some_0.len() > 0,
                forall|j: int| 0 <= j < i ==> #[trigger] record_fault(recs, j) is None,
                forall|j: int| 0 <= j < i ==> #[trigger] recs[j].0 == Some(items@[j].id as nat),
                forall|j: int| 0 <= j < k ==> #[trigger] items@[j].id != id,
            decreases items@.len() - k,
        {
            if items[k].id == id {
                assert(recs[k as int].0 == Some(items@[k as int].id as nat));
                assert(recs[k as int].0 == recs[i as int].0);
                assert(record_fault(recs, i as int) == Some(LoadError::DuplicateId(i)));
                return Err(LoadError::DuplicateId(i));
            }
            k = k + 1;
        }
        assert forall|j: int| 0 <= j < i implies #[trigger] recs[j].0 != recs[i as int].0 by {
            assert(items@[j].id != id);
        }
        assert(record_fault(recs, i as int) is None);
        let ghost before = items@;
        items.push(Item { id, title: title.clone(), content: content.clone() });
        assert(tasks_view(items@) =~= want.subrange(0, i as int + 1)) by {
            assert(tasks_view(before) == want.subrange(0, i as int));
        }
        i = i + 1;
    }
    assert(want.subrange(0, i as int) =~= want);
    proof {
        let ts = tasks_view(items@);
        assert forall|a: int, b: int|
            0 <= a < ts.len() && 0 <= b < ts.len() && a != b implies #[trigger] ts[a].id
            != #[trigger] ts[b].id by {
            if a < b {
                assert(record_fault(recs, b) is None);
                assert(recs[a].0 != recs[b].0);
            } else {
                assert(record_fault(recs, a) is None);
                assert(recs[b].0 != recs[a].0);
            }
        }
        assert forall|a: int| 0 <= a < ts.len() implies #[trigger] ts[a].title.len() > 0 by {
            assert(record_fault(recs, a) is None);
        }
    }
    Ok(items)
}

/// What loading the task file `text` gives: the error, or the tasks that its
/// records stand for.
pub open spec fn load_outcome(text: Seq<char>, r: Result<Seq<ItemView>, LoadError>) -> bool {
    &&& (r is Err && r->Err_0 == LoadError::Syntax) <==> !json_accepts(text)
    &&& json_accepts(text) && json_records(text) is None ==> (r is Err && r->Err_0
        == LoadError::NotAList)
    &&& json_accepts(text) && json_records(text) is Some ==> (r is Ok <==> records_sound(
        json_records(text)->Some_0,
    ))
    &&& json_accepts(text) && json_records(text) is Some && r is Err ==> first_fault(
        json_records(text)->Some_0,
        fault_index(r->Err_0),
        r->Err_0,
    )
    &&& r is Ok ==> json_accepts(text) && json_records(text) is Some && r->Ok_0 == records_items(
        json_records(text)->Some_0,
    )
}

/// Parses a task file: a JSON array of objects with an `id`, a `title` and a
/// `content`, in display order.
pub fn parse_tasks(text: &str) -> (r: Result<Vec<Item>, LoadError>)
    ensures
        load_outcome(
            text@,
            match r {
                Ok(items) => Ok(tasks_view(items@)),
                Err(e) => Err(e),
            },
        ),
        r is Ok ==> tasks_wf(tasks_view(r->Ok_0@)),
{
    let records = match json_records_of(text) {
        None => return Err(LoadError::Syntax),
        Some(None) => return Err(LoadError::NotAList),
        Some(Some(records)) => records,
    };
    let r = items_from_records(&records);
    r
}

/// The decimal text of one digit.
pub open spec fn digit_text(d: nat) -> Seq<char> {
    if d == 0 {
        "0"@
    } else if d == 1 {
        "1"@
    } else if d == 2 {
        "2"@
    } else if d == 3 {
        "3"@
    } else if d == 4 {
        "4"@
    } else if d == 5 {
        "5"@
    } else if d == 6 {
        "6"@
    } else if d == 7 {
        "7"@
    } else if d == 8 {
        "8"@
    } else {
        "9"@
    }
}

/// The decimal text of `n`, without leading zeros.
pub open spec fn decimal(n: nat) -> Seq<char>
    decreases n,
{
    if n < 10 {
        digit_text(n)
    } else {
        decimal(n / 10) + digit_text(n % 10)
    }
}

/// One task as a JSON object.
pub open spec fn record_json(t: ItemView) -> Seq<char> {
    "{\"id\":"@ + decimal(t.id) + ",\"title\":"@ + json_string(t.title) + ",\"content\":"@
        + json_string(t.content) + "}"@
}

/// The task objects, separated by commas.
pub open spec fn records_json(ts: Seq<ItemView>) -> Seq<char>
    decreases ts.len(),
{
    if ts.len() == 0 {
        Seq::empty()
    } else if ts.len() == 1 {
        record_json(ts[0])
    } else {
        records_json(ts.drop_last()) + ","@ + record_json(ts.last())
    }
}

/// The task file for `ts`: a JSON array of task objects in order.
pub open spec fn tasks_json(ts: Seq<ItemView>) -> Seq<char> {
    "["@ + records_json(ts) + "]"@
}

fn digit_str(d: usize) -> (r: &'static str)
    requires
        d < 10,
    ensures
        r@ == digit_text(d as nat),
{
    if d == 0 {
        "0"
    } else if d == 1 {
        "1"
    } else if d == 2 {
        "2"
    } else if d == 3 {
        "3"
    } else if d == 4 {
        "4"
    } else if d == 5 {
        "5"
    } else if d == 6 {
        "6"
    } else if d == 7 {
        "7"
    } else if d == 8 {
        "8"
    } else {
        "9"
    }
}

fn push_decimal(out: &mut String, n: usize)
    ensures
        final(out)@ == old(out)@ + decimal(n as nat),
    decreases n,
{
    if n >= 10 {
        push_decimal(out, n / 10);
    }
    out.append(digit_str(n % 10));
    proof {
        if n >= 10 {
            assert(old(out)@ + decimal(n as nat) =~= old(out)@ + decimal((n / 10) as nat)
                + digit_text((n % 10) as nat));
        }
    }
}

fn push_record(out: &mut String, t: &Item)
    ensures
        final(out)@ == old(out)@ + record_json(t@),
{
    out.append("{\"id\":");
    push_decimal(out, t.id);
    out.append(",\"title\":");
    out.append(quote(t.title.as_str()).as_str());
    out.append(",\"content\":");
    out.append(quote(t.content.as_str()).as_str());
    out.append("}");
    assert(final(out)@ =~= old(out)@ + record_json(t@));
}

/// Writes the task file for `items`: a JSON array of objects with an `id`, a
/// `title` and a `content`, in order.
pub fn serialize_tasks(items: &Vec<Item>) -> (r: String)
    ensures
        r@ == tasks_json(tasks_view(items@)),
{
    let ghost ts = tasks_view(items@);
    let mut out = String::from_str("[");
    let mut i: usize = 0;
    while i < items.len()
        invariant
            0 <= i <= items@.len(),
            ts == tasks_view(items@),
            out@ == "["@ + records_json(ts.subrange(0, i as int)),
        decreases items@.len() - i,
    {
        if i > 0 {
            out.append(",");
        }
        push_record(&mut out, &items[i]);
        proof {
            let pre = ts.subrange(0, i as int + 1);
            assert(pre.drop_last() =~= ts.subrange(0, i as int));
            assert(out@ =~= "["@ + records_json(pre));
        }
        i = i + 1;
    }
    assert(ts.subrange(0, i as int) =~= ts);
    out.append("]");
    out
}

} // verus!
