//! The generic structured value that messages are encoded to and decoded
//! from, its mathematical model, and the field readers that every decoder
//! shares.
use vstd::prelude::*;

verus! {

/// The model of a structured value: what the value means on the wire.
pub enum Json {
    Null,
    Bool(bool),
    Int(int),
    Str(Seq<char>),
    Array(Seq<Json>),
    Object(Seq<(Seq<char>, Json)>),
}

/// A structured value as the outside encoder and decoder exchange it.
/// An object keeps its keys in the order in which they were written.
#[derive(Debug, PartialEq)]
pub enum Wire {
    Null,
    Bool(bool),
    Int(i64),
    Str(String),
    Array(Vec<Wire>),
    Object(Vec<(String, Wire)>),
}

/// Why a structured value could not be read as the message asked for.
#[derive(Debug, Clone, Copy, PartialEq, Eq, Structural)]
pub enum DecodeError {
    /// A required key is absent from an object.
    MissingField,
    /// A value has another shape than the message allows at that place.
    InvalidType,
    /// A file-type token outside the closed set of known kinds.
    UnknownFileType,
}

impl Wire {
    pub open spec fn view(&self) -> Json
        decreases self,
    {
        match self {
            Wire::Null => Json::Null,
            Wire::Bool(b) => Json::Bool(*b),
            Wire::Int(n) => Json::Int(*n as int),
            Wire::Str(s) => Json::Str(s@),
            Wire::Array(items) => Json::Array(
                Seq::new(items.len() as nat, |i: int| if 0 <= i < items.len() { items[i].view() } else { Json::Null }),
            ),
            Wire::Object(entries) => Json::Object(
                Seq::new(
                    entries.len() as nat,
                    |i: int|
                        if 0 <= i < entries.len() {
                            (entries[i].0@, entries[i].1.view())
                        } else {
                            (Seq::empty(), Json::Null)
                        },
                ),
            ),
        }
    }

    /// A copy of the value, equal to it on the wire.
    pub fn duplicate(&self) -> (r: Wire)
        ensures
            r@ == self@,
        decreases self@,
    {
        match self {
            Wire::Null => Wire::Null,
            Wire::Bool(b) => Wire::Bool(*b),
            Wire::Int(n) => Wire::Int(*n),
            Wire::Str(s) => Wire::Str(s.clone()),
            Wire::Array(items) => {
                let mut out: Vec<Wire> = Vec::new();
                let mut i: usize = 0;
                while i < items.len()
                    invariant
                        i <= items.len(),
                        *self == Wire::Array(*items),
                        out@.len() == i,
                        forall|j: int| 0 <= j < i ==> out@[j]@ == items@[j]@,
                    decreases items.len() - i,
                {
                    proof {
                        lemma_array_view(*items);
                        vstd::seq::axiom_seq_index_decreases(items_view(items@), i as int);
                        assert(decreases_to!(self@ => self@->Array_0));
                    }
                    let item = items[i].duplicate();
                    out.push(item);
                    i = i + 1;
                }
                assert(items_view(out@) =~= items_view(items@));
                proof {
                    lemma_array_view(*items);
                    lemma_array_view(out);
                }
                Wire::Array(out)
            },
            Wire::Object(entries) => {
                let mut out: Vec<(String, Wire)> = Vec::new();
                let mut i: usize = 0;
                while i < entries.len()
                    invariant
                        i <= entries.len(),
                        *self == Wire::Object(*entries),
                        out@.len() == i,
                        forall|j: int| 0 <= j < i ==> out@[j].0@ == entries@[j].0@ && out@[j].1@ == entries@[j].1@,
                    decreases entries.len() - i,
                {
                    let key = entries[i].0.clone();
                    proof {
                        lemma_object_view(*entries);
                        let ghost view = entries_view(entries@);
                        vstd::seq::axiom_seq_index_decreases(view, i as int);
                        assert(decreases_to!(self@ => self@->Object_0));
                        assert(decreases_to!(view[i as int] => view[i as int].1));
                    }
                    let value = entries[i].1.duplicate();
                    out.push((key, value));
                    i = i + 1;
                }
                assert(entries_view(out@) =~= entries_view(entries@));
                proof {
                    lemma_object_view(*entries);
                    lemma_object_view(out);
                }
                Wire::Object(out)
            },
        }
    }
}

/// The models of the items of an array.
pub open spec fn items_view(items: Seq<Wire>) -> Seq<Json> {
    Seq::new(items.len(), |i: int| items[i]@)
}

/// The models of the entries of an object, in order.
pub open spec fn entries_view(entries: Seq<(String, Wire)>) -> Seq<(Seq<char>, Json)> {
    Seq::new(entries.len(), |i: int| (entries[i].0@, entries[i].1@))
}

pub proof fn lemma_array_view(items: Vec<Wire>)
    ensures
        Wire::Array(items)@ == Json::Array(items_view(items@)),
{
    assert(Wire::Array(items)@->Array_0 =~= items_view(items@));
}

pub proof fn lemma_object_view(entries: Vec<(String, Wire)>)
    ensures
        Wire::Object(entries)@ == Json::Object(entries_view(entries@)),
{
    assert(Wire::Object(entries)@->Object_0 =~= entries_view(entries@));
}

/// The value under the first entry with the given key.
pub open spec fn field(entries: Seq<(Seq<char>, Json)>, key: Seq<char>) -> Option<Json>
    decreases entries.len(),
{
    if entries.len() == 0 {
        None
    } else if entries[0].0 == key {
        Some(entries[0].1)
    } else {
        field(entries.drop_first(), key)
    }
}

/// Appends an entry to an object under construction.
pub fn push_entry(entries: &mut Vec<(String, Wire)>, key: &str, value: Wire)
    ensures
        entries_view(final(entries)@) == entries_view(old(entries)@).push((key@, value@)),
{
    let k = String::from_str(key);
    entries.push((k, value));
    assert(entries_view(final(entries)@) =~= entries_view(old(entries)@).push((key@, value@)));
}

/// Finds the value under the first entry with the given key.
pub fn get_field<'a>(entries: &'a Vec<(String, Wire)>, key: &str) -> (r: Option<&'a Wire>)
    ensures
        match r {
            Some(w) => field(entries_view(entries@), key@) == Some(w@),
            None => field(entries_view(entries@), key@) is None,
        },
{
    let k = String::from_str(key);
    let mut i: usize = 0;
    assert(entries_view(entries@).skip(0) =~= entries_view(entries@));
    while i < entries.len()
        invariant
            i <= entries.len(),
            k@ == key@,
            field(entries_view(entries@), key@) == field(entries_view(entries@).skip(i as int), key@),
        decreases entries.len() - i,
    {
        let ghost rest = entries_view(entries@).skip(i as int);
        assert(rest.drop_first() =~= entries_view(entries@).skip(i + 1));
        if entries[i].0 == k {
            return Some(&entries[i].1);
        }
        i = i + 1;
    }
    None
}

/// The view of an optional string.
pub open spec fn opt_view(o: Option<String>) -> Option<Seq<char>> {
    match o {
        Some(s) => Some(s@),
        None => None,
    }
}

/// A required string: present and a string.
pub open spec fn str_of(f: Option<Json>) -> Option<Seq<char>> {
    match f {
        Some(Json::Str(s)) => Some(s),
        _ => None,
    }
}

/// An optional string: absent or null reads as `None`; any other shape
/// than a string fails (the outer `None`).
pub open spec fn opt_str_of(f: Option<Json>) -> Option<Option<Seq<char>>> {
    match f {
        None => Some(None),
        Some(Json::Null) => Some(None),
        Some(Json::Str(s)) => Some(Some(s)),
        _ => None,
    }
}

/// A flag that defaults to false when absent.
pub open spec fn flag_of(f: Option<Json>) -> Option<bool> {
    match f {
        None => Some(false),
        Some(Json::Bool(b)) => Some(b),
        _ => None,
    }
}

/// Whether every item of an array is a string.
pub open spec fn all_str(items: Seq<Json>) -> bool {
    forall|i: int| 0 <= i < items.len() ==> (#[trigger] items[i]) is Str
}

/// A list of strings that defaults to empty when absent.
pub open spec fn str_list_of(f: Option<Json>) -> Option<Seq<Seq<char>>> {
    match f {
        None => Some(Seq::empty()),
        Some(Json::Array(items)) => if all_str(items) {
            Some(items.map_values(|j: Json| j->Str_0))
        } else {
            None
        },
        _ => None,
    }
}

/// The error for a required value that failed to read.
pub open spec fn required_error(f: Option<Json>) -> DecodeError {
    if f is None {
        DecodeError::MissingField
    } else {
        DecodeError::InvalidType
    }
}

/// Reads a required string under `key`.
pub fn read_string(entries: &Vec<(String, Wire)>, key: &str) -> (r: Result<String, DecodeError>)
    ensures
        match r {
            Ok(s) => str_of(field(entries_view(entries@), key@)) == Some(s@),
            Err(e) => str_of(field(entries_view(entries@), key@)) is None
                && e == required_error(field(entries_view(entries@), key@)),
        },
{
    match get_field(entries, key) {
        Some(Wire::Str(s)) => Ok(s.clone()),
        Some(_) => Err(DecodeError::InvalidType),
        None => Err(DecodeError::MissingField),
    }
}

/// Reads an optional string under `key`.
pub fn read_opt_string(entries: &Vec<(String, Wire)>, key: &str) -> (r: Result<Option<String>, DecodeError>)
    ensures
        match r {
            Ok(o) => opt_str_of(field(entries_view(entries@), key@)) == Some(opt_view(o)),
            Err(e) => opt_str_of(field(entries_view(entries@), key@)) is None && e == DecodeError::InvalidType,
        },
{
    match get_field(entries, key) {
        Some(Wire::Str(s)) => Ok(Some(s.clone())),
        Some(Wire::Null) => Ok(None),
        Some(_) => Err(DecodeError::InvalidType),
        None => Ok(None),
    }
}

/// Reads a flag under `key`, false when absent.
pub fn read_flag(entries: &Vec<(String, Wire)>, key: &str) -> (r: Result<bool, DecodeError>)
    ensures
        match r {
            Ok(b) => flag_of(field(entries_view(entries@), key@)) == Some(b),
            Err(e) => flag_of(field(entries_view(entries@), key@)) is None && e == DecodeError::InvalidType,
        },
{
    match get_field(entries, key) {
        Some(Wire::Bool(b)) => Ok(*b),
        Some(_) => Err(DecodeError::InvalidType),
        None => Ok(false),
    }
}

/// The views of a list of strings.
pub open spec fn strs_view(v: Seq<String>) -> Seq<Seq<char>> {
    v.map_values(|s: String| s@)
}

/// Reads a list of strings under `key`, empty when absent.
pub fn read_string_list(entries: &Vec<(String, Wire)>, key: &str) -> (r: Result<Vec<String>, DecodeError>)
    ensures
        match r {
            Ok(v) => str_list_of(field(entries_view(entries@), key@)) == Some(strs_view(v@)),
            Err(e) => str_list_of(field(entries_view(entries@), key@)) is None && e == DecodeError::InvalidType,
        },
{
    match get_field(entries, key) {
        Some(Wire::Array(items)) => {
            proof {
                lemma_array_view(*items);
            }
            let ghost view = items_view(items@);
            let mut out: Vec<String> = Vec::new();
            let mut i: usize = 0;
            while i < items.len()
                invariant
                    i <= items.len(),
                    view == items_view(items@),
                    field(entries_view(entries@), key@) == Some(Json::Array(view)),
                    out@.len() == i,
                    forall|j: int| 0 <= j < i ==> view[j] == Json::Str(#[trigger] out@[j]@),
                decreases items.len() - i,
            {
                match &items[i] {
                    Wire::Str(s) => {
                        out.push(s.clone());
                    },
                    _ => {
                        assert(!(view[i as int] is Str));
                        assert(!all_str(view));
                        return Err(DecodeError::InvalidType);
                    },
                }
                i = i + 1;
            }
            assert forall|j: int| 0 <= j < view.len() implies (#[trigger] view[j]) is Str by {
                assert(view[j] == Json::Str(out@[j]@));
            }
            assert(strs_view(out@) =~= view.map_values(|j: Json| j->Str_0));
            Ok(out)
        },
        Some(_) => Err(DecodeError::InvalidType),
        None => Ok(Vec::new()),
    }
}

/// Reads an optional value of any shape under `key`; null reads as absent.
pub fn read_opt_value(entries: &Vec<(String, Wire)>, key: &str) -> (r: Option<Wire>)
    ensures
        match r {
            Some(w) => field(entries_view(entries@), key@) == Some(w@) && w@ != Json::Null,
            None => field(entries_view(entries@), key@) is None
                || field(entries_view(entries@), key@) == Some(Json::Null),
        },
{
    match get_field(entries, key) {
        Some(Wire::Null) => None,
        Some(w) => Some(w.duplicate()),
        None => None,
    }
}

/// Encodes a list of strings as an array.
pub fn encode_strings(v: &Vec<String>) -> (r: Wire)
    ensures
        r@ == Json::Array(strs_view(v@).map_values(|s: Seq<char>| Json::Str(s))),
{
    let mut out: Vec<Wire> = Vec::new();
    let mut i: usize = 0;
    while i < v.len()
        invariant
            i <= v.len(),
            out@.len() == i,
            forall|j: int| 0 <= j < i ==> (#[trigger] out@[j])@ == Json::Str(v@[j]@),
        decreases v.len() - i,
    {
        out.push(Wire::Str(v[i].clone()));
        i = i + 1;
    }
    proof {
        lemma_array_view(out);
        assert(items_view(out@) =~= strs_view(v@).map_values(|s: Seq<char>| Json::Str(s)));
    }
    Wire::Array(out)
}

/// Appends `(key, value)` when a value is given.
pub open spec fn put_opt(
    entries: Seq<(Seq<char>, Json)>,
    key: Seq<char>,
    value: Option<Json>,
) -> Seq<(Seq<char>, Json)> {
    match value {
        Some(j) => entries.push((key, j)),
        None => entries,
    }
}

/// Appends `(key, true)` when the flag is set; a false flag is left out.
pub open spec fn put_flag(entries: Seq<(Seq<char>, Json)>, key: Seq<char>, b: bool) -> Seq<(Seq<char>, Json)> {
    if b {
        entries.push((key, Json::Bool(true)))
    } else {
        entries
    }
}

/// An optional string as an optional value.
pub open spec fn opt_str_json(o: Option<String>) -> Option<Json> {
    match o {
        Some(s) => Some(Json::Str(s@)),
        None => None,
    }
}

/// An optional structured value as it reads back: null counts as absent.
pub open spec fn opt_value_of(f: Option<Json>) -> Option<Json> {
    match f {
        Some(Json::Null) => None,
        other => other,
    }
}

/// The view of an optional structured value.
pub open spec fn opt_wire_view(o: Option<Wire>) -> Option<Json> {
    match o {
        Some(w) => Some(w@),
        None => None,
    }
}

/// Appends the string under `key` when there is one.
pub fn push_opt_string(entries: &mut Vec<(String, Wire)>, key: &str, value: &Option<String>)
    ensures
        entries_view(final(entries)@) == put_opt(entries_view(old(entries)@), key@, opt_str_json(*value)),
{
    if let Some(s) = value {
        push_entry(entries, key, Wire::Str(s.clone()));
    }
}

/// Appends `true` under `key` when the flag is set.
pub fn push_flag(entries: &mut Vec<(String, Wire)>, key: &str, b: bool)
    ensures
        entries_view(final(entries)@) == put_flag(entries_view(old(entries)@), key@, b),
{
    if b {
        push_entry(entries, key, Wire::Bool(true));
    }
}

/// Closes an object under construction.
pub fn object(entries: Vec<(String, Wire)>) -> (r: Wire)
    ensures
        r@ == Json::Object(entries_view(entries@)),
{
    proof {
        lemma_object_view(entries);
    }
    Wire::Object(entries)
}

/// Closes an array under construction.
pub fn array(items: Vec<Wire>) -> (r: Wire)
    ensures
        r@ == Json::Array(items_view(items@)),
{
    proof {
        lemma_array_view(items);
    }
    Wire::Array(items)
}

/// Appending an entry leaves the first entry under every key that already
/// had one; a new key finds the appended entry.
pub proof fn lemma_field_push(entries: Seq<(Seq<char>, Json)>, key: Seq<char>, value: Json, q: Seq<char>)
    ensures
        field(entries.push((key, value)), q) == (match field(entries, q) {
            Some(x) => Some(x),
            None => if key == q { Some(value) } else { None },
        }),
    decreases entries.len(),
{
    if entries.len() > 0 {
        assert(entries.push((key, value)).drop_first() =~= entries.drop_first().push((key, value)));
        lemma_field_push(entries.drop_first(), key, value, q);
    } else {
        assert(entries.push((key, value)).drop_first() =~= entries);
    }
}

pub broadcast proof fn lemma_field_put_opt(
    entries: Seq<(Seq<char>, Json)>,
    key: Seq<char>,
    value: Option<Json>,
    q: Seq<char>,
)
    ensures
        #[trigger] field(put_opt(entries, key, value), q) == (match field(entries, q) {
            Some(x) => Some(x),
            None => if key == q { value } else { None },
        }),
{
    if let Some(j) = value {
        lemma_field_push(entries, key, j, q);
    }
}

pub broadcast proof fn lemma_field_put_flag(entries: Seq<(Seq<char>, Json)>, key: Seq<char>, b: bool, q: Seq<char>)
    ensures
        #[trigger] field(put_flag(entries, key, b), q) == (match field(entries, q) {
            Some(x) => Some(x),
            None => if key == q && b { Some(Json::Bool(true)) } else { None },
        }),
{
    if b {
        lemma_field_push(entries, key, Json::Bool(true), q);
    }
}

pub broadcast proof fn lemma_field_empty(q: Seq<char>)
    ensures
        #[trigger] field(Seq::<(Seq<char>, Json)>::empty(), q) is None,
{
}

pub broadcast group group_field {
    lemma_field_put_opt,
    lemma_field_put_flag,
    lemma_field_empty,
}

} // verus!
