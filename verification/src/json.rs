//! JSON documents as the pipeline reads and builds them. Numbers are held
//! as their JSON text; an object's entries keep their order and have
//! distinct keys.

use crate::text::{owned, str_eq};
use vstd::prelude::*;
use vstd::string::*;

verus! {

/// A JSON value.
#[derive(Debug)]
pub enum Json {
    Null,
    Bool(bool),
    /// The number's JSON text, such as `21` or `4.5`.
    Number(String),
    Str(String),
    Array(Vec<Json>),
    Object(Vec<(String, Json)>),
}

/// The keys of an object's entries, in order.
pub open spec fn entry_keys(entries: Seq<(String, Json)>) -> Seq<Seq<char>> {
    entries.map_values(|e: (String, Json)| e.0@)
}

/// The index of the first entry with key `k`, if any.
pub open spec fn find_key(entries: Seq<(String, Json)>, k: Seq<char>) -> Option<int>
    decreases entries.len(),
{
    if entries.len() == 0 {
        None
    } else {
        match find_key(entries.drop_last(), k) {
            Some(i) => Some(i),
            None => if entries.last().0@ == k {
                Some(entries.len() - 1)
            } else {
                None
            },
        }
    }
}

/// The value under key `k` of an object; `None` for a missing key or a
/// value that is not an object.
pub open spec fn json_get(j: Json, k: Seq<char>) -> Option<Json> {
    match j {
        Json::Object(entries) => match find_key(entries@, k) {
            Some(i) => Some(entries@[i].1),
            None => None,
        },
        _ => None,
    }
}

/// The text of a string value.
pub open spec fn json_str(j: Option<Json>) -> Option<Seq<char>> {
    match j {
        Some(Json::Str(s)) => Some(s@),
        _ => None,
    }
}

/// What `find_key` gives: the first entry with the key, or none with it.
pub proof fn lemma_find_key(entries: Seq<(String, Json)>, k: Seq<char>)
    ensures
        match find_key(entries, k) {
            Some(i) => 0 <= i < entries.len() && entries[i].0@ == k && forall|j: int|
                0 <= j < i ==> entries[j].0@ != k,
            None => forall|j: int| 0 <= j < entries.len() ==> entries[j].0@ != k,
        },
    decreases entries.len(),
{
    if entries.len() > 0 {
        let d = entries.drop_last();
        lemma_find_key(d, k);
        assert(forall|j: int| 0 <= j < d.len() ==> d[j] == entries[j]);
    }
}

/// The position of the first entry with key `k`.
pub fn find_entry(entries: &Vec<(String, Json)>, k: &str) -> (r: Option<usize>)
    ensures
        match r {
            Some(i) => i < entries@.len() && find_key(entries@, k@) == Some(i as int),
            None => find_key(entries@, k@) is None,
        },
{
    proof {
        lemma_find_key(entries@, k@);
    }
    let mut i: usize = 0;
    while i < entries.len()
        invariant
            i <= entries@.len(),
            forall|j: int| 0 <= j < i ==> entries@[j].0@ != k@,
        decreases entries@.len() - i,
    {
        if str_eq(entries[i].0.as_str(), k) {
            proof {
                lemma_find_key(entries@, k@);
                match find_key(entries@, k@) {
                    Some(f) => {
                        if f < i {
                        } else if f > i {
                        }
                    },
                    None => {},
                }
            }
            return Some(i);
        }
        i = i + 1;
    }
    None
}

impl Json {
    /// The value under `key` when this is an object (`serde_json::Value::get`).
    pub fn get(&self, key: &str) -> (r: Option<&Json>)
        ensures
            match r {
                Some(v) => json_get(*self, key@) == Some(*v),
                None => json_get(*self, key@) is None,
            },
    {
        match self {
            Json::Object(entries) => match find_entry(entries, key) {
                Some(i) => Some(&entries[i].1),
                None => None,
            },
            _ => None,
        }
    }

    /// The text of a string value.
    pub fn as_str(&self) -> (r: Option<&String>)
        ensures
            match r {
                Some(s) => *self == Json::Str(*s),
                None => !(*self is Str),
            },
    {
        match self {
            Json::Str(s) => Some(s),
            _ => None,
        }
    }

    /// The items of an array value.
    pub fn as_array(&self) -> (r: Option<&Vec<Json>>)
        ensures
            match r {
                Some(a) => *self == Json::Array(*a),
                None => !(*self is Array),
            },
    {
        match self {
            Json::Array(a) => Some(a),
            _ => None,
        }
    }

    /// The entries of an object value.
    pub fn as_object(&self) -> (r: Option<&Vec<(String, Json)>>)
        ensures
            match r {
                Some(o) => *self == Json::Object(*o),
                None => !(*self is Object),
            },
    {
        match self {
            Json::Object(o) => Some(o),
            _ => None,
        }
    }
}

/// The characters `serde_json` writes for a string's character: quotes and
/// backslashes escaped, control characters as short escapes or `\u00XX`.
pub open spec fn escape_char(c: char) -> Seq<char> {
    if c == '"' {
        seq!['\\', '"']
    } else if c == '\\' {
        seq!['\\', '\\']
    } else if c == '\n' {
        seq!['\\', 'n']
    } else if c == '\r' {
        seq!['\\', 'r']
    } else if c == '\t' {
        seq!['\\', 't']
    } else if (c as u32) == 8 {
        seq!['\\', 'b']
    } else if (c as u32) == 12 {
        seq!['\\', 'f']
    } else if (c as u32) < 32 {
        seq!['\\', 'u', '0', '0', crate::digest::hex_digit((c as u32) as int / 16), crate::digest::hex_digit((c as u32) as int % 16)]
    } else {
        seq![c]
    }
}

/// A string in JSON: quoted, each character escaped.
pub open spec fn quoted_spec(s: Seq<char>) -> Seq<char>
    decreases s.len(),
{
    if s.len() == 0 {
        seq!['"', '"']
    } else {
        quoted_spec(s.drop_last()).drop_last() + escape_char(s.last()) + seq!['"']
    }
}

/// The compact JSON text of a value, as `serde_json` writes it.
pub open spec fn json_text(j: Json) -> Seq<char>
    decreases j,
{
    match j {
        Json::Null => "null"@,
        Json::Bool(b) => if b { "true"@ } else { "false"@ },
        Json::Number(t) => t@,
        Json::Str(s) => quoted_spec(s@),
        Json::Array(items) => seq!['['] + items_text(items@) + seq![']'],
        Json::Object(entries) => seq!['{'] + entries_text(entries@) + seq!['}'],
    }
}

/// The texts of items separated by commas.
pub open spec fn items_text(items: Seq<Json>) -> Seq<char>
    decreases items,
{
    if items.len() == 0 {
        Seq::empty()
    } else {
        let pre = items_text(items.subrange(0, items.len() - 1));
        (if items.len() > 1 { pre + seq![','] } else { pre }) + json_text(items[items.len() - 1])
    }
}

/// The texts of entries (`"key":value`) separated by commas.
pub open spec fn entries_text(entries: Seq<(String, Json)>) -> Seq<char>
    decreases entries,
{
    if entries.len() == 0 {
        Seq::empty()
    } else {
        let pre = entries_text(entries.subrange(0, entries.len() - 1));
        let e = entries[entries.len() - 1];
        (if entries.len() > 1 { pre + seq![','] } else { pre }) + quoted_spec(e.0@) + seq![':'] + json_text(e.1)
    }
}

fn push_escaped(out: &mut String, c: char)
    ensures
        final(out)@ == old(out)@ + escape_char(c),
{
    let ghost before = out@;
    let u = c as u32;
    if c == '"' {
        crate::text::push_char(out, '\\');
        crate::text::push_char(out, '"');
    } else if c == '\\' {
        crate::text::push_char(out, '\\');
        crate::text::push_char(out, '\\');
    } else if c == '\n' {
        crate::text::push_char(out, '\\');
        crate::text::push_char(out, 'n');
    } else if c == '\r' {
        crate::text::push_char(out, '\\');
        crate::text::push_char(out, 'r');
    } else if c == '\t' {
        crate::text::push_char(out, '\\');
        crate::text::push_char(out, 't');
    } else if u == 8 {
        crate::text::push_char(out, '\\');
        crate::text::push_char(out, 'b');
    } else if u == 12 {
        crate::text::push_char(out, '\\');
        crate::text::push_char(out, 'f');
    } else if u < 32 {
        crate::text::push_char(out, '\\');
        crate::text::push_char(out, 'u');
        crate::text::push_char(out, '0');
        crate::text::push_char(out, '0');
        crate::text::push_char(out, hex_char(u / 16));
        crate::text::push_char(out, hex_char(u % 16));
    } else {
        crate::text::push_char(out, c);
    }
    assert(out@ =~= before + escape_char(c));
}

fn hex_char(n: u32) -> (c: char)
    requires
        n < 16,
    ensures
        c == crate::digest::hex_digit(n as int),
{
    if n == 0 { '0' } else if n == 1 { '1' } else if n == 2 { '2' } else if n == 3 { '3' } else if n == 4 { '4' }
    else if n == 5 { '5' } else if n == 6 { '6' } else if n == 7 { '7' } else if n == 8 { '8' } else if n == 9 { '9' }
    else if n == 10 { 'a' } else if n == 11 { 'b' } else if n == 12 { 'c' } else if n == 13 { 'd' } else if n == 14 { 'e' }
    else { 'f' }
}

/// Appends a string in JSON.
pub fn write_quoted(out: &mut String, s: &str)
    ensures
        final(out)@ == old(out)@ + quoted_spec(s@),
{
    let cs = crate::text::chars_of(s);
    let ghost base = out@;
    crate::text::push_char(out, '"');
    let mut i: usize = 0;
    assert(out@ == base + quoted_spec(cs@.subrange(0, 0)).drop_last());
    while i < cs.len()
        invariant
            cs@ == s@,
            i <= cs@.len(),
            out@ == base + quoted_spec(cs@.subrange(0, i as int)).drop_last(),
        decreases cs@.len() - i,
    {
        let ghost pre = cs@.subrange(0, i + 1);
        assert(pre.drop_last() =~= cs@.subrange(0, i as int));
        push_escaped(out, cs[i]);
        assert(quoted_spec(pre).drop_last() =~= quoted_spec(pre.drop_last()).drop_last() + escape_char(cs@[i as int]));
        i = i + 1;
    }
    crate::text::push_char(out, '"');
    assert(cs@.subrange(0, cs@.len() as int) =~= cs@);
    proof {
        lemma_quoted_ends(s@);
    }
    assert(out@ =~= base + quoted_spec(s@));
}

proof fn lemma_quoted_ends(s: Seq<char>)
    ensures
        quoted_spec(s).len() >= 2,
        quoted_spec(s).last() == '"',
        quoted_spec(s).drop_last().push('"') == quoted_spec(s),
    decreases s.len(),
{
    if s.len() > 0 {
        lemma_quoted_ends(s.drop_last());
    }
    assert(quoted_spec(s).drop_last().push('"') =~= quoted_spec(s));
}

/// Appends the compact JSON text of a value.
pub fn write_json(j: &Json, out: &mut String)
    ensures
        final(out)@ == old(out)@ + json_text(*j),
    decreases j,
{
    let ghost base = out@;
    match j {
        Json::Null => out.append("null"),
        Json::Bool(b) => if *b {
            out.append("true")
        } else {
            out.append("false")
        },
        Json::Number(t) => out.append(t.as_str()),
        Json::Str(s) => write_quoted(out, s.as_str()),
        Json::Array(items) => {
            crate::text::push_char(out, '[');
            let mut i: usize = 0;
            while i < items.len()
                invariant
                    *j == Json::Array(*items),
                    i <= items@.len(),
                    out@ == base + seq!['['] + items_text(items@.subrange(0, i as int)),
                decreases items@.len() - i,
            {
                let ghost pre = items@.subrange(0, i + 1);
                assert(pre.subrange(0, pre.len() - 1) =~= items@.subrange(0, i as int));
                if i > 0 {
                    crate::text::push_char(out, ',');
                }
                proof {
                    vstd::std_specs::vec::axiom_vec_index_decreases(*items, i as int);
                    assert(decreases_to!(*j => (*j)->Array_0));
                    assert((*j)->Array_0 == *items);
                    assert(decreases_to!(*j => items[i as int]));
                }
                write_json(&items[i], out);
                i = i + 1;
            }
            crate::text::push_char(out, ']');
            assert(items@.subrange(0, items@.len() as int) =~= items@);
        },
        Json::Object(entries) => {
            crate::text::push_char(out, '{');
            let mut i: usize = 0;
            while i < entries.len()
                invariant
                    *j == Json::Object(*entries),
                    i <= entries@.len(),
                    out@ == base + seq!['{'] + entries_text(entries@.subrange(0, i as int)),
                decreases entries@.len() - i,
            {
                let ghost pre = entries@.subrange(0, i + 1);
                assert(pre.subrange(0, pre.len() - 1) =~= entries@.subrange(0, i as int));
                if i > 0 {
                    crate::text::push_char(out, ',');
                }
                write_quoted(out, entries[i].0.as_str());
                crate::text::push_char(out, ':');
                proof {
                    vstd::std_specs::vec::axiom_vec_index_decreases(*entries, i as int);
                    assert(decreases_to!(*j => (*j)->Object_0));
                    assert((*j)->Object_0 == *entries);
                    assert(decreases_to!(entries[i as int] => entries[i as int].1));
                    assert(decreases_to!(*j => entries[i as int].1));
                }
                write_json(&entries[i].1, out);
                i = i + 1;
            }
            crate::text::push_char(out, '}');
            assert(entries@.subrange(0, entries@.len() as int) =~= entries@);
        },
    }
}

/// A copy of a value, with the same JSON text.
pub fn copy_json(j: &Json) -> (r: Json)
    ensures
        json_text(r) == json_text(*j),
    decreases j,
{
    match j {
        Json::Null => Json::Null,
        Json::Bool(b) => Json::Bool(*b),
        Json::Number(t) => Json::Number(t.clone()),
        Json::Str(s) => Json::Str(s.clone()),
        Json::Array(items) => {
            let mut out: Vec<Json> = Vec::new();
            let mut i: usize = 0;
            while i < items.len()
                invariant
                    *j == Json::Array(*items),
                    i <= items@.len(),
                    out@.len() == i,
                    items_text(out@) == items_text(items@.subrange(0, i as int)),
                decreases items@.len() - i,
            {
                proof {
                    vstd::std_specs::vec::axiom_vec_index_decreases(*items, i as int);
                    assert(decreases_to!(*j => (*j)->Array_0));
                    assert((*j)->Array_0 == *items);
                    assert(decreases_to!(*j => items[i as int]));
                }
                let c = copy_json(&items[i]);
                let ghost prev = out@;
                out.push(c);
                proof {
                    let pre = items@.subrange(0, i + 1);
                    assert(pre.subrange(0, pre.len() - 1) =~= items@.subrange(0, i as int));
                    assert(out@.subrange(0, out@.len() - 1) =~= prev);
                }
                i = i + 1;
            }
            assert(items@.subrange(0, items@.len() as int) =~= items@);
            Json::Array(out)
        },
        Json::Object(entries) => {
            let mut out: Vec<(String, Json)> = Vec::new();
            let mut i: usize = 0;
            while i < entries.len()
                invariant
                    *j == Json::Object(*entries),
                    i <= entries@.len(),
                    out@.len() == i,
                    entries_text(out@) == entries_text(entries@.subrange(0, i as int)),
                decreases entries@.len() - i,
            {
                proof {
                    vstd::std_specs::vec::axiom_vec_index_decreases(*entries, i as int);
                    assert(decreases_to!(*j => (*j)->Object_0));
                    assert((*j)->Object_0 == *entries);
                    assert(decreases_to!(entries[i as int] => entries[i as int].1));
                    assert(decreases_to!(*j => entries[i as int].1));
                }
                let c = copy_json(&entries[i].1);
                let ghost prev = out@;
                out.push((entries[i].0.clone(), c));
                proof {
                    let pre = entries@.subrange(0, i + 1);
                    assert(pre.subrange(0, pre.len() - 1) =~= entries@.subrange(0, i as int));
                    assert(out@.subrange(0, out@.len() - 1) =~= prev);
                }
                i = i + 1;
            }
            assert(entries@.subrange(0, entries@.len() as int) =~= entries@);
            Json::Object(out)
        },
    }
}

/// Sets `key` to `value` in an object's entries.
pub fn set_key(entries: &mut Vec<(String, Json)>, key: &str, value: Json)
    ensures
        final(entries)@.len() == (if find_key(old(entries)@, key@) is Some { old(entries)@.len() } else { old(entries)@.len() + 1 }),
        entry_keys(final(entries)@) == (match find_key(old(entries)@, key@) {
            Some(i) => entry_keys(old(entries)@),
            None => entry_keys(old(entries)@).push(key@),
        }),
        find_key(final(entries)@, key@) is Some,
        final(entries)@[find_key(final(entries)@, key@)->0].1 == value,
        forall|k: Seq<char>| k != key@ ==> #[trigger] find_key(final(entries)@, k) == find_key(old(entries)@, k),
        forall|j: int| 0 <= j < old(entries)@.len() && old(entries)@[j].0@ != key@ ==> #[trigger] final(entries)@[j] == old(entries)@[j],
{
    proof {
        lemma_find_key(entries@, key@);
    }
    let ghost before = entries@;
    match find_entry(entries, key) {
        Some(i) => {
            entries.set(i, (owned(key), value));
            proof {
                assert(entry_keys(entries@) =~= entry_keys(before));
                lemma_find_key(entries@, key@);
                assert forall|k: Seq<char>| k != key@ implies #[trigger] find_key(entries@, k) == find_key(before, k) by {
                    lemma_find_key(entries@, k);
                    lemma_find_key(before, k);
                    lemma_find_key_unique(entries@, before, k);
                }
                lemma_find_key(entries@, key@);
                lemma_find_key_unique(entries@, entries@, key@);
                assert(entries@[i as int].0@ == key@);
                lemma_first_is_find(entries@, key@, i as int);
            }
        },
        None => {
            entries.push((owned(key), value));
            proof {
                assert(entry_keys(entries@) =~= entry_keys(before).push(key@));
                assert(entries@.drop_last() =~= before);
                assert forall|k: Seq<char>| k != key@ implies #[trigger] find_key(entries@, k) == find_key(before, k) by {
                }
            }
        },
    }
}

/// `find_key` depends only on the keys.
proof fn lemma_find_key_unique(a: Seq<(String, Json)>, b: Seq<(String, Json)>, k: Seq<char>)
    requires
        entry_keys(a) == entry_keys(b),
    ensures
        find_key(a, k) == find_key(b, k),
    decreases a.len(),
{
    assert(a.len() == entry_keys(a).len());
    assert(b.len() == entry_keys(b).len());
    if a.len() > 0 {
        assert(entry_keys(a.drop_last()) =~= entry_keys(a).drop_last());
        assert(entry_keys(b.drop_last()) =~= entry_keys(b).drop_last());
        assert(a.last().0@ == entry_keys(a)[a.len() - 1]);
        assert(b.last().0@ == entry_keys(b)[b.len() - 1]);
        lemma_find_key_unique(a.drop_last(), b.drop_last(), k);
    }
}

/// The first index with key `k` is what `find_key` gives.
proof fn lemma_first_is_find(entries: Seq<(String, Json)>, k: Seq<char>, i: int)
    requires
        0 <= i < entries.len(),
        entries[i].0@ == k,
        forall|j: int| 0 <= j < i ==> entries[j].0@ != k,
    ensures
        find_key(entries, k) == Some(i),
{
    lemma_find_key(entries, k);
}

/// A document as serde_json holds it.
#[verifier::external_type_specification]
#[verifier::external_body]
pub struct ExJsonValue(serde_json::Value);

/// The document that serde_json reads from `text` (`from_str` into a
/// `serde_json::Value`), as a [`Json`], or the text of its error.
pub uninterp spec fn json_of_text(text: Seq<char>) -> Result<Json, Seq<char>>;

/// The document that serde_json reads from `bytes` (`from_slice` into a
/// `serde_json::Value`), as a [`Json`], or the text of its error.
pub uninterp spec fn json_of_bytes(bytes: Seq<u8>) -> Result<Json, Seq<char>>;

/// The [`Json`] of a `serde_json::Value`, variant for variant: numbers as
/// their `Display` text, object entries in the value's order.
#[verifier::external_body]
fn json_of_value(v: &serde_json::Value) -> Json {
    match v {
        serde_json::Value::Null => Json::Null,
        serde_json::Value::Bool(b) => Json::Bool(*b),
        serde_json::Value::Number(n) => Json::Number(n.to_string()),
        serde_json::Value::String(s) => Json::Str(s.clone()),
        serde_json::Value::Array(a) => Json::Array(a.iter().map(json_of_value).collect()),
        serde_json::Value::Object(o) => Json::Object(o.iter().map(|(k, x)| (k.clone(), json_of_value(x))).collect()),
    }
}

/// serde_json `from_str::<serde_json::Value>`, the value converted by
/// [`json_of_value`], or the `Display` text of the error; named by
/// [`json_of_text`].
#[verifier::external_body]
pub fn parse_json(text: &str) -> (r: Result<Json, String>)
    ensures
        match r {
            Ok(d) => json_of_text(text@) == Ok::<Json, Seq<char>>(d),
            Err(e) => json_of_text(text@) == Err::<Json, Seq<char>>(e@),
        },
{
    match serde_json::from_str::<serde_json::Value>(text) {
        Ok(v) => Ok(json_of_value(&v)),
        Err(e) => Err(e.to_string()),
    }
}

/// serde_json `from_slice::<serde_json::Value>`, the value converted by
/// [`json_of_value`], or the `Display` text of the error; named by
/// [`json_of_bytes`].
#[verifier::external_body]
pub fn parse_json_bytes(bytes: &[u8]) -> (r: Result<Json, String>)
    ensures
        match r {
            Ok(d) => json_of_bytes(bytes@) == Ok::<Json, Seq<char>>(d),
            Err(e) => json_of_bytes(bytes@) == Err::<Json, Seq<char>>(e@),
        },
{
    match serde_json::from_slice::<serde_json::Value>(bytes) {
        Ok(v) => Ok(json_of_value(&v)),
        Err(e) => Err(e.to_string()),
    }
}

} // verus!
