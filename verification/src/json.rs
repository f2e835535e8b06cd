//! JSON values as a plain tree, with a verified serializer and verified
//! accessors.  Parsing is done by serde_json behind a thin trusted boundary;
//! everything that reads or builds a value works on this crate's own tree.

use vstd::prelude::*;

use crate::text::{dec_digit, spec_dec_u64, u64_to_dec, push_char};

verus! {

broadcast use vstd::seq::axiom_seq_index_decreases, vstd::seq::axiom_seq_subrange_decreases, vstd::std_specs::vec::axiom_vec_index_decreases, vstd::std_specs::vec::axiom_vec_decreases_to_view;

/// One JSON value.  Numbers with an exact 64-bit signed integer value are
/// `Int`; any other number is kept as its literal text in `Num`.  Object
/// members keep their order as a list of pairs.
pub enum Json {
    Null,
    Bool(bool),
    Int(i64),
    Num(String),
    Text(String),
    Arr(Vec<Json>),
    Obj(Vec<(String, Json)>),
}

// ---------------------------------------------------------------------------
// The mathematical view of a value
// ---------------------------------------------------------------------------

/// The mathematical shape of a JSON value: text as character sequences,
/// lists as sequences.
pub enum JsonV {
    Null,
    Bool(bool),
    Int(i64),
    Num(Seq<char>),
    Text(Seq<char>),
    Arr(Seq<JsonV>),
    Obj(Seq<(Seq<char>, JsonV)>),
}

/// The view of one JSON value.
pub open spec fn json_view(j: Json) -> JsonV
    decreases j,
{
    match j {
        Json::Null => JsonV::Null,
        Json::Bool(b) => JsonV::Bool(b),
        Json::Int(n) => JsonV::Int(n),
        Json::Num(s) => JsonV::Num(s@),
        Json::Text(s) => JsonV::Text(s@),
        Json::Arr(items) => JsonV::Arr(seq_json_view(items@)),
        Json::Obj(fields) => JsonV::Obj(seq_member_view(fields@)),
    }
}

/// The views of a list of JSON values, in order.
pub open spec fn seq_json_view(s: Seq<Json>) -> Seq<JsonV>
    decreases s, s.len(),
{
    if s.len() == 0 {
        Seq::empty()
    } else {
        seq_json_view(s.drop_last()).push(json_view(s.last()))
    }
}

/// The views of a list of object members, in order.
pub open spec fn seq_member_view(s: Seq<(String, Json)>) -> Seq<(Seq<char>, JsonV)>
    decreases s, s.len(),
{
    if s.len() == 0 {
        Seq::empty()
    } else {
        seq_member_view(s.drop_last()).push((s.last().0@, json_view(s.last().1)))
    }
}

pub broadcast proof fn lemma_seq_json_view_index(s: Seq<Json>)
    ensures
        (#[trigger] seq_json_view(s)).len() == s.len(),
        forall|i: int| 0 <= i < s.len() ==> seq_json_view(s)[i] == json_view(s[i]),
    decreases s.len(),
{
    if s.len() > 0 {
        lemma_seq_json_view_index(s.drop_last());
        assert forall|i: int| 0 <= i < s.len() implies seq_json_view(s)[i] == json_view(s[i]) by {
            if i < s.len() - 1 {
                assert(s.drop_last()[i] == s[i]);
            }
        }
    }
}

pub broadcast proof fn lemma_seq_member_view_index(s: Seq<(String, Json)>)
    ensures
        (#[trigger] seq_member_view(s)).len() == s.len(),
        forall|i: int|
            0 <= i < s.len() ==> seq_member_view(s)[i] == (s[i].0@, json_view(s[i].1)),
    decreases s.len(),
{
    if s.len() > 0 {
        lemma_seq_member_view_index(s.drop_last());
        assert forall|i: int|
            0 <= i < s.len() implies seq_member_view(s)[i] == (s[i].0@, json_view(s[i].1)) by {
            if i < s.len() - 1 {
                assert(s.drop_last()[i] == s[i]);
            }
        }
    }
}

impl DeepView for Json {
    type V = JsonV;

    open spec fn deep_view(&self) -> JsonV {
        json_view(*self)
    }
}

impl Clone for Json {
    /// A structural copy: the copy has the same view as the original.
    fn clone(&self) -> (res: Json)
        ensures
            res.deep_view() == self.deep_view(),
        decreases *self,
    {
        match self {
            Json::Null => Json::Null,
            Json::Bool(b) => Json::Bool(*b),
            Json::Int(n) => Json::Int(*n),
            Json::Num(s) => Json::Num(s.clone()),
            Json::Text(s) => Json::Text(s.clone()),
            Json::Arr(items) => {
                let mut copy: Vec<Json> = Vec::new();
                let mut i: usize = 0;
                while i < items.len()
                    invariant
                        copy@.len() == i,
                        0 <= i <= items@.len(),
                        forall|k: int|
                            0 <= k < i ==> json_view(copy@[k]) == json_view(items@[k]),
                        *self == Json::Arr(*items),
                    decreases items@.len() - i,
                {
                    proof {
                        assert(decreases_to!(*self => self->Arr_0));
                        assert(self->Arr_0 == *items);
                        assert(decreases_to!(*items => items@));
                        assert(decreases_to!(items@ => items@[i as int]));
                    }
                    let c = items[i].clone();
                    copy.push(c);
                    i = i + 1;
                }
                proof {
                    lemma_seq_json_view_index(copy@);
                    lemma_seq_json_view_index(items@);
                    assert(seq_json_view(copy@) =~= seq_json_view(items@));
                }
                Json::Arr(copy)
            },
            Json::Obj(fields) => {
                let mut copy: Vec<(String, Json)> = Vec::new();
                let mut i: usize = 0;
                while i < fields.len()
                    invariant
                        copy@.len() == i,
                        0 <= i <= fields@.len(),
                        forall|k: int|
                            0 <= k < i ==> copy@[k].0@ == fields@[k].0@ && json_view(copy@[k].1)
                                == json_view(fields@[k].1),
                        *self == Json::Obj(*fields),
                    decreases fields@.len() - i,
                {
                    proof {
                        assert(decreases_to!(*self => self->Obj_0));
                        assert(self->Obj_0 == *fields);
                        assert(decreases_to!(*fields => fields@));
                        assert(decreases_to!(fields@ => fields@[i as int]));
                        assert(decreases_to!(fields@[i as int] => fields@[i as int].1));
                    }
                    let k = fields[i].0.clone();
                    let v = fields[i].1.clone();
                    copy.push((k, v));
                    i = i + 1;
                }
                proof {
                    lemma_seq_member_view_index(copy@);
                    lemma_seq_member_view_index(fields@);
                    assert(seq_member_view(copy@) =~= seq_member_view(fields@));
                }
                Json::Obj(copy)
            },
        }
    }
}

// ---------------------------------------------------------------------------
// Reading a value
// ---------------------------------------------------------------------------

/// The first member of an object view with the given key, if any.
pub open spec fn spec_obj_get(fields: Seq<(Seq<char>, JsonV)>, key: Seq<char>) -> Option<JsonV>
    decreases fields.len(),
{
    if fields.len() == 0 {
        None
    } else if fields[0].0 == key {
        Some(fields[0].1)
    } else {
        spec_obj_get(fields.drop_first(), key)
    }
}

/// What looking a key up in a JSON value yields: the first member of that
/// name when the value is an object that has one, nothing otherwise.
pub open spec fn spec_json_get(j: JsonV, key: Seq<char>) -> Option<JsonV> {
    match j {
        JsonV::Obj(fields) => spec_obj_get(fields, key),
        _ => None,
    }
}

impl Json {
    /// Looks a key up in an object value: the first member of that name.
    pub fn get<'a>(&'a self, key: &str) -> (r: Option<&'a Json>)
        ensures
            match r {
                Some(v) => spec_json_get(self.deep_view(), key@) == Some(v.deep_view()),
                None => spec_json_get(self.deep_view(), key@) is None,
            },
    {
        match self {
            Json::Obj(fields) => {
                proof {
                    lemma_seq_member_view_index(fields@);
                    assert(seq_member_view(fields@).subrange(0, fields@.len() as int)
                        =~= seq_member_view(fields@));
                }
                let mut i: usize = 0;
                while i < fields.len()
                    invariant
                        0 <= i <= fields@.len(),
                        *self == Json::Obj(*fields),
                        seq_member_view(fields@).len() == fields@.len(),
                        forall|k: int|
                            0 <= k < fields@.len() ==> seq_member_view(fields@)[k] == (
                            fields@[k].0@,
                            json_view(fields@[k].1),
                            ),
                        spec_obj_get(
                            seq_member_view(fields@).subrange(i as int, fields@.len() as int),
                            key@,
                        ) == spec_obj_get(seq_member_view(fields@), key@),
                        forall|k: int| 0 <= k < i ==> fields@[k].0@ != key@,
                    decreases fields@.len() - i,
                {
                    let ghost members = seq_member_view(fields@);
                    let ghost tail = members.subrange(i as int, fields@.len() as int);
                    if crate::text::str_eq(fields[i].0.as_str(), key) {
                        proof {
                            assert(tail[0] == (fields@[i as int].0@, json_view(
                                fields@[i as int].1,
                            )));
                        }
                        return Some(&fields[i].1);
                    }
                    proof {
                        assert(tail[0] == (fields@[i as int].0@, json_view(fields@[i as int].1)));
                        assert(tail.drop_first() =~= members.subrange(
                            i + 1,
                            fields@.len() as int,
                        ));
                    }
                    i = i + 1;
                }
                proof {
                    assert(seq_member_view(fields@).subrange(
                        fields@.len() as int,
                        fields@.len() as int,
                    ) =~= Seq::<(Seq<char>, JsonV)>::empty());
                }
                None
            },
            _ => None,
        }
    }
}

impl Json {
    /// Whether every number literal inside this value is newline-free, as
    /// `spec_nums_clean` states.  Values built by `parse_json` always are;
    /// this check covers values assembled by hand before they go on the
    /// wire.
    pub fn nums_clean(&self) -> (r: bool)
        ensures
            r == spec_nums_clean(self.deep_view()),
        decreases *self,
    {
        match self {
            Json::Num(s) => {
                proof {
                    assert(self.deep_view() == JsonV::Num(s@));
                }
                let text = s.as_str();
                let len = text.unicode_len();
                let mut i: usize = 0;
                while i < len
                    invariant
                        0 <= i <= len,
                        text@ == s@,
                        len == s@.len(),
                        self.deep_view() == JsonV::Num(s@),
                        forall|k: int| 0 <= k < i ==> s@[k] != '\n',
                    decreases len - i,
                {
                    if text.get_char(i) == '\n' {
                        proof {
                            assert(s@[i as int] == '\n');
                        }
                        return false;
                    }
                    i = i + 1;
                }
                true
            },
            Json::Arr(items) => {
                proof {
                    lemma_seq_json_view_index(items@);
                }
                let ghost vs = seq_json_view(items@);
                let mut i: usize = 0;
                while i < items.len()
                    invariant
                        0 <= i <= items@.len(),
                        vs == seq_json_view(items@),
                        vs.len() == items@.len(),
                        forall|k: int| 0 <= k < vs.len() ==> vs[k] == json_view(items@[k]),
                        forall|k: int| 0 <= k < i ==> spec_nums_clean(#[trigger] vs[k]),
                        *self == Json::Arr(*items),
                    decreases items@.len() - i,
                {
                    proof {
                        assert(decreases_to!(*self => self->Arr_0));
                        assert(self->Arr_0 == *items);
                        assert(decreases_to!(*items => items@));
                        assert(decreases_to!(items@ => items@[i as int]));
                    }
                    if !items[i].nums_clean() {
                        proof {
                            assert(self.deep_view() == JsonV::Arr(vs));
                            assert(!spec_nums_clean(vs[i as int]));
                            lemma_nums_clean_seq_index(vs);
                        }
                        return false;
                    }
                    i = i + 1;
                }
                proof {
                    assert(self.deep_view() == JsonV::Arr(vs));
                    lemma_nums_clean_seq_index(vs);
                }
                true
            },
            Json::Obj(fields) => {
                proof {
                    lemma_seq_member_view_index(fields@);
                }
                let ghost vs = seq_member_view(fields@);
                let mut i: usize = 0;
                while i < fields.len()
                    invariant
                        0 <= i <= fields@.len(),
                        vs == seq_member_view(fields@),
                        vs.len() == fields@.len(),
                        forall|k: int|
                            0 <= k < vs.len() ==> vs[k] == (
                            fields@[k].0@,
                            json_view(fields@[k].1),
                            ),
                        forall|k: int| 0 <= k < i ==> spec_nums_clean(#[trigger] vs[k].1),
                        *self == Json::Obj(*fields),
                    decreases fields@.len() - i,
                {
                    proof {
                        assert(decreases_to!(*self => self->Obj_0));
                        assert(self->Obj_0 == *fields);
                        assert(decreases_to!(*fields => fields@));
                        assert(decreases_to!(fields@ => fields@[i as int]));
                        assert(decreases_to!(fields@[i as int] => fields@[i as int].1));
                    }
                    if !fields[i].1.nums_clean() {
                        proof {
                            assert(self.deep_view() == JsonV::Obj(vs));
                            assert(!spec_nums_clean(vs[i as int].1));
                            lemma_nums_clean_members_index(vs);
                        }
                        return false;
                    }
                    i = i + 1;
                }
                proof {
                    assert(self.deep_view() == JsonV::Obj(vs));
                    lemma_nums_clean_members_index(vs);
                }
                true
            },
            _ => true,
        }
    }
}

// ---------------------------------------------------------------------------
// Parsing: the trusted boundary
// ---------------------------------------------------------------------------

#[verifier::external_type_specification]
#[verifier::external_body]
pub struct ExSerdeValue(serde_json::Value);

/// What parsing a JSON text yields: the value tree when the text is valid
/// JSON, nothing otherwise.  Parsing is a function of the text alone; what
/// the tree is on given values is learned only by parsing, and checked by
/// the verified readers that take the tree as an argument.
pub uninterp spec fn json_of(s: Seq<char>) -> Option<JsonV>;

/// Relies on serde_json::Value being a finite tree of the six JSON shapes:
/// each variant is moved to the matching variant of `Json`, a number with
/// an exact 64-bit signed value as an integer, any other number as its
/// literal text.
#[verifier::external_body]
fn value_to_json(v: serde_json::Value) -> (r: Json) {
    match v {
        serde_json::Value::Null => Json::Null,
        serde_json::Value::Bool(b) => Json::Bool(b),
        serde_json::Value::Number(n) => match n.as_i64() {
            Some(i) => Json::Int(i),
            None => Json::Num(n.to_string()),
        },
        serde_json::Value::String(s) => Json::Text(s),
        serde_json::Value::Array(a) => Json::Arr(a.into_iter().map(value_to_json).collect()),
        serde_json::Value::Object(m) => Json::Obj(
            m.into_iter().map(|(k, x)| (k, value_to_json(x))).collect(),
        ),
    }
}

/// Relies on serde_json::from_str: deterministic in the text, it succeeds
/// exactly on valid JSON, with bounded recursion and no panic.  The one
/// body holds the parse and the conversion, so `json_of` names the result
/// of this call alone.  A number renders via the crate's integer and float
/// writers as digits, sign, point and exponent, so its literal holds no
/// newline.
#[verifier::external_body]
fn parse_json_text(s: &str) -> (r: Option<Json>)
    ensures
        match r {
            Some(j) => Some(j.deep_view()) == json_of(s@) && spec_nums_clean(j.deep_view()),
            None => json_of(s@) is None,
        },
{
    serde_json::from_str::<serde_json::Value>(s).ok().map(value_to_json)
}

/// Parses a JSON text into this crate's value tree: exactly the tree that
/// `json_of` names for this text, whose number literals are newline-free,
/// and nothing for a text that is not valid JSON.
pub fn parse_json(s: &str) -> (r: Option<Json>)
    ensures
        match r {
            Some(j) => Some(j.deep_view()) == json_of(s@) && spec_nums_clean(j.deep_view()),
            None => json_of(s@) is None,
        },
{
    parse_json_text(s)
}

// ---------------------------------------------------------------------------
// Serialization: specification
// ---------------------------------------------------------------------------

/// The character for one hexadecimal digit value.
pub open spec fn hex_digit(d: nat) -> char {
    if d < 10 {
        dec_digit(d)
    } else if d == 10 {
        'a'
    } else if d == 11 {
        'b'
    } else if d == 12 {
        'c'
    } else if d == 13 {
        'd'
    } else if d == 14 {
        'e'
    } else {
        'f'
    }
}

/// How one character appears inside a JSON string literal: quotes,
/// backslashes and control characters are escaped, all else is itself.
pub open spec fn esc_char(c: char) -> Seq<char> {
    if c == '"' {
        seq!['\\', '"']
    } else if c == '\\' {
        seq!['\\', '\\']
    } else if c == '\n' {
        seq!['\\', 'n']
    } else if c == '\r' {
        seq!['\\', 'r']
    } else if c == '\t' {
        seq!['\\', 't']
    } else if c as int == 8 {
        seq!['\\', 'b']
    } else if c as int == 12 {
        seq!['\\', 'f']
    } else if (c as int) < 32 {
        let hi = hex_digit((c as int / 16) as nat);
        let lo = hex_digit((c as int % 16) as nat);
        seq!['\\', 'u', '0', '0', hi, lo]
    } else {
        seq![c]
    }
}

/// The body of a JSON string literal: every character escaped as needed.
pub open spec fn esc_text(s: Seq<char>) -> Seq<char>
    decreases s.len(),
{
    if s.len() == 0 {
        Seq::empty()
    } else {
        esc_text(s.drop_last()) + esc_char(s.last())
    }
}

/// A quoted JSON string literal.
pub open spec fn spec_quoted(s: Seq<char>) -> Seq<char> {
    seq!['"'] + esc_text(s) + seq!['"']
}

/// Decimal rendering of a signed number.
pub open spec fn spec_dec_i64(n: int) -> Seq<char> {
    if n < 0 {
        seq!['-'] + spec_dec_u64((-n) as nat)
    } else {
        spec_dec_u64(n as nat)
    }
}

/// The serialized text of a JSON value.  The rendering is compact: no
/// whitespace between tokens, one comma between elements.
pub open spec fn spec_json_text(j: JsonV) -> Seq<char>
    decreases j,
{
    match j {
        JsonV::Null => seq!['n', 'u', 'l', 'l'],
        JsonV::Bool(b) => if b {
            seq!['t', 'r', 'u', 'e']
        } else {
            seq!['f', 'a', 'l', 's', 'e']
        },
        JsonV::Int(n) => spec_dec_i64(n as int),
        JsonV::Num(s) => s,
        JsonV::Text(s) => spec_quoted(s),
        JsonV::Arr(items) => seq!['['] + spec_arr_body(items) + seq![']'],
        JsonV::Obj(fields) => seq!['{'] + spec_obj_body(fields) + seq!['}'],
    }
}

/// The comma-separated elements of a serialized array.
pub open spec fn spec_arr_body(items: Seq<JsonV>) -> Seq<char>
    decreases items, items.len(),
{
    if items.len() == 0 {
        Seq::empty()
    } else if items.len() == 1 {
        spec_json_text(items[0])
    } else {
        spec_arr_body(items.drop_last()) + seq![','] + spec_json_text(items.last())
    }
}

/// The comma-separated members of a serialized object.
pub open spec fn spec_obj_body(fields: Seq<(Seq<char>, JsonV)>) -> Seq<char>
    decreases fields, fields.len(),
{
    if fields.len() == 0 {
        Seq::empty()
    } else if fields.len() == 1 {
        spec_obj_member(fields[0])
    } else {
        spec_obj_body(fields.drop_last()) + seq![','] + spec_obj_member(fields.last())
    }
}

/// One serialized object member: quoted key, colon, value.
pub open spec fn spec_obj_member(field: (Seq<char>, JsonV)) -> Seq<char>
    decreases field,
{
    spec_quoted(field.0) + seq![':'] + spec_json_text(field.1)
}

// ---------------------------------------------------------------------------
// Serialization: implementation
// ---------------------------------------------------------------------------

// ---------------------------------------------------------------------------
// Framing: one value, one line
// ---------------------------------------------------------------------------

/// Whether every number literal inside a value is free of raw newlines.
/// Parsing can only produce such values; string content does not matter,
/// because serialization escapes it.
pub open spec fn spec_nums_clean(j: JsonV) -> bool
    decreases j,
{
    match j {
        JsonV::Num(s) => spec_line_clean(s),
        JsonV::Arr(items) => spec_nums_clean_seq(items),
        JsonV::Obj(fields) => spec_nums_clean_members(fields),
        _ => true,
    }
}

/// Whether every value of a list has newline-free number literals.
pub open spec fn spec_nums_clean_seq(items: Seq<JsonV>) -> bool
    decreases items, items.len(),
{
    if items.len() == 0 {
        true
    } else {
        spec_nums_clean_seq(items.drop_last()) && spec_nums_clean(items.last())
    }
}

/// Whether every member value of an object has newline-free number
/// literals.
pub open spec fn spec_nums_clean_members(fields: Seq<(Seq<char>, JsonV)>) -> bool
    decreases fields, fields.len(),
{
    if fields.len() == 0 {
        true
    } else {
        spec_nums_clean_members(fields.drop_last()) && spec_nums_clean(fields.last().1)
    }
}

/// A clean list is clean at every position, and conversely.
pub proof fn lemma_nums_clean_seq_index(items: Seq<JsonV>)
    ensures
        spec_nums_clean_seq(items) == (forall|i: int|
            0 <= i < items.len() ==> spec_nums_clean(#[trigger] items[i])),
    decreases items.len(),
{
    if items.len() > 0 {
        lemma_nums_clean_seq_index(items.drop_last());
        assert forall|i: int| 0 <= i < items.len() - 1 implies items.drop_last()[i] == items[i] by {}
        if forall|i: int| 0 <= i < items.len() ==> spec_nums_clean(#[trigger] items[i]) {
            assert forall|i: int|
                0 <= i < items.drop_last().len() implies spec_nums_clean(
                #[trigger] items.drop_last()[i],
            ) by {
                assert(items.drop_last()[i] == items[i]);
            }
        }
    }
}

/// A clean member list is clean at every position, and conversely.
pub proof fn lemma_nums_clean_members_index(fields: Seq<(Seq<char>, JsonV)>)
    ensures
        spec_nums_clean_members(fields) == (forall|i: int|
            0 <= i < fields.len() ==> spec_nums_clean(#[trigger] fields[i].1)),
    decreases fields.len(),
{
    if fields.len() > 0 {
        lemma_nums_clean_members_index(fields.drop_last());
        assert forall|i: int|
            0 <= i < fields.len() - 1 implies fields.drop_last()[i] == fields[i] by {}
        if forall|i: int| 0 <= i < fields.len() ==> spec_nums_clean(#[trigger] fields[i].1) {
            assert forall|i: int|
                0 <= i < fields.drop_last().len() implies spec_nums_clean(
                #[trigger] fields.drop_last()[i].1,
            ) by {
                assert(fields.drop_last()[i] == fields[i]);
            }
        }
    }
}

/// No raw newline occurs in a text.
pub open spec fn spec_line_clean(s: Seq<char>) -> bool {
    forall|i: int| 0 <= i < s.len() ==> s[i] != '\n'
}

pub proof fn lemma_dec_no_newline(n: nat)
    ensures
        spec_line_clean(spec_dec_u64(n)),
    decreases n,
{
    if n >= 10 {
        lemma_dec_no_newline(n / 10);
    }
}

proof fn lemma_esc_char_no_newline(c: char)
    ensures
        spec_line_clean(esc_char(c)),
{
}

proof fn lemma_esc_text_no_newline(s: Seq<char>)
    ensures
        spec_line_clean(esc_text(s)),
    decreases s.len(),
{
    if s.len() > 0 {
        lemma_esc_text_no_newline(s.drop_last());
        lemma_esc_char_no_newline(s.last());
    }
}

proof fn lemma_quoted_no_newline(s: Seq<char>)
    ensures
        spec_line_clean(spec_quoted(s)),
{
    lemma_esc_text_no_newline(s);
}

/// Law (framing): the serialized text of a value whose number literals are
/// newline-free contains no raw newline — one JSON value is exactly one
/// line of the wire protocol.
pub proof fn lemma_json_text_single_line(j: JsonV)
    requires
        spec_nums_clean(j),
    ensures
        spec_line_clean(spec_json_text(j)),
    decreases j,
{
    match j {
        JsonV::Null => {},
        JsonV::Bool(b) => {},
        JsonV::Int(n) => {
            if n >= 0 {
                lemma_dec_no_newline(n as nat);
            } else {
                lemma_dec_no_newline((-(n as int)) as nat);
            }
        },
        JsonV::Num(s) => {},
        JsonV::Text(s) => {
            lemma_quoted_no_newline(s);
        },
        JsonV::Arr(items) => {
            lemma_nums_clean_seq_index(items);
            lemma_arr_body_single_line(items);
        },
        JsonV::Obj(fields) => {
            lemma_nums_clean_members_index(fields);
            lemma_obj_body_single_line(fields);
        },
    }
}

proof fn lemma_arr_body_single_line(items: Seq<JsonV>)
    requires
        forall|i: int| 0 <= i < items.len() ==> spec_nums_clean(#[trigger] items[i]),
    ensures
        spec_line_clean(spec_arr_body(items)),
    decreases items, items.len(),
{
    if items.len() == 1 {
        lemma_json_text_single_line(items[0]);
    } else if items.len() > 1 {
        assert forall|i: int|
            0 <= i < items.drop_last().len() implies spec_nums_clean(
            #[trigger] items.drop_last()[i],
        ) by {
            assert(items.drop_last()[i] == items[i]);
        }
        lemma_arr_body_single_line(items.drop_last());
        lemma_json_text_single_line(items.last());
    }
}

proof fn lemma_concat_clean(a: Seq<char>, b: Seq<char>)
    requires
        spec_line_clean(a),
        spec_line_clean(b),
    ensures
        spec_line_clean(a + b),
{
    assert forall|i: int| 0 <= i < (a + b).len() implies (a + b)[i] != '\n' by {
        if i < a.len() {
            assert((a + b)[i] == a[i]);
        } else {
            assert((a + b)[i] == b[i - a.len()]);
        }
    }
}

proof fn lemma_member_single_line(field: (Seq<char>, JsonV))
    requires
        spec_nums_clean(field.1),
    ensures
        spec_line_clean(spec_obj_member(field)),
    decreases field,
{
    lemma_quoted_no_newline(field.0);
    lemma_json_text_single_line(field.1);
    assert(spec_line_clean(seq![':']));
    lemma_concat_clean(spec_quoted(field.0), seq![':']);
    lemma_concat_clean(spec_quoted(field.0) + seq![':'], spec_json_text(field.1));
}

proof fn lemma_obj_body_single_line(fields: Seq<(Seq<char>, JsonV)>)
    requires
        forall|i: int| 0 <= i < fields.len() ==> spec_nums_clean(#[trigger] fields[i].1),
    ensures
        spec_line_clean(spec_obj_body(fields)),
    decreases fields, fields.len(),
{
    if fields.len() == 1 {
        lemma_member_single_line(fields[0]);
    } else if fields.len() > 1 {
        assert forall|i: int|
            0 <= i < fields.drop_last().len() implies spec_nums_clean(
            #[trigger] fields.drop_last()[i].1,
        ) by {
            assert(fields.drop_last()[i] == fields[i]);
        }
        lemma_obj_body_single_line(fields.drop_last());
        lemma_member_single_line(fields.last());
        assert(spec_line_clean(seq![',']));
        lemma_concat_clean(spec_obj_body(fields.drop_last()), seq![',']);
        lemma_concat_clean(
            spec_obj_body(fields.drop_last()) + seq![','],
            spec_obj_member(fields.last()),
        );
    }
}

fn hex_digit_str(d: u32) -> (r: &'static str)
    requires
        d < 16,
    ensures
        r@ == seq![hex_digit(d as nat)],
{
    proof {
        reveal_strlit("0");
        reveal_strlit("1");
        reveal_strlit("2");
        reveal_strlit("3");
        reveal_strlit("4");
        reveal_strlit("5");
        reveal_strlit("6");
        reveal_strlit("7");
        reveal_strlit("8");
        reveal_strlit("9");
        reveal_strlit("a");
        reveal_strlit("b");
        reveal_strlit("c");
        reveal_strlit("d");
        reveal_strlit("e");
        reveal_strlit("f");
    }
    let r = match d {
        0 => "0",
        1 => "1",
        2 => "2",
        3 => "3",
        4 => "4",
        5 => "5",
        6 => "6",
        7 => "7",
        8 => "8",
        9 => "9",
        10 => "a",
        11 => "b",
        12 => "c",
        13 => "d",
        14 => "e",
        _ => "f",
    };
    assert(r@ =~= seq![hex_digit(d as nat)]);
    r
}

/// Appends the escaped form of one character to `out`.
fn append_escaped_char(out: &mut String, c: char)
    ensures
        final(out)@ == old(out)@ + esc_char(c),
{
    let u = c as u32;
    if c == '"' {
        proof {
            reveal_strlit("\\\"");
        }
        out.append("\\\"");
        assert(final(out)@ =~= old(out)@ + esc_char(c));
    } else if c == '\\' {
        proof {
            reveal_strlit("\\\\");
        }
        out.append("\\\\");
        assert(final(out)@ =~= old(out)@ + esc_char(c));
    } else if c == '\n' {
        proof {
            reveal_strlit("\\n");
        }
        out.append("\\n");
        assert(final(out)@ =~= old(out)@ + esc_char(c));
    } else if c == '\r' {
        proof {
            reveal_strlit("\\r");
        }
        out.append("\\r");
        assert(final(out)@ =~= old(out)@ + esc_char(c));
    } else if c == '\t' {
        proof {
            reveal_strlit("\\t");
        }
        out.append("\\t");
        assert(final(out)@ =~= old(out)@ + esc_char(c));
    } else if u == 8 {
        proof {
            reveal_strlit("\\b");
        }
        out.append("\\b");
        assert(final(out)@ =~= old(out)@ + esc_char(c));
    } else if u == 12 {
        proof {
            reveal_strlit("\\f");
        }
        out.append("\\f");
        assert(final(out)@ =~= old(out)@ + esc_char(c));
    } else if u < 32 {
        proof {
            reveal_strlit("\\u00");
        }
        out.append("\\u00");
        out.append(hex_digit_str(u / 16));
        out.append(hex_digit_str(u % 16));
        assert(final(out)@ =~= old(out)@ + esc_char(c));
    } else {
        push_char(out, c);
        assert(final(out)@ =~= old(out)@ + esc_char(c));
    }
}

/// Appends the quoted, escaped JSON string literal for `s` to `out`.
fn append_quoted(out: &mut String, s: &str)
    ensures
        final(out)@ == old(out)@ + spec_quoted(s@),
{
    let len = s.unicode_len();
    push_char(out, '"');
    let mut i: usize = 0;
    proof {
        assert(esc_text(s@.subrange(0, 0)) =~= Seq::<char>::empty());
    }
    while i < len
        invariant
            0 <= i <= len,
            len == s@.len(),
            out@ == old(out)@ + seq!['"'] + esc_text(s@.subrange(0, i as int)),
        decreases len - i,
    {
        let c = s.get_char(i);
        append_escaped_char(out, c);
        i = i + 1;
        proof {
            let p = s@.subrange(0, i as int);
            assert(p.drop_last() =~= s@.subrange(0, i - 1));
            assert(p.last() == c);
            assert(out@ =~= old(out)@ + seq!['"'] + esc_text(p));
        }
    }
    push_char(out, '"');
    proof {
        assert(s@.subrange(0, len as int) =~= s@);
        assert(out@ =~= old(out)@ + spec_quoted(s@));
    }
}

/// Renders a signed number in decimal.
pub fn i64_to_dec(n: i64) -> (r: String)
    ensures
        r@ == spec_dec_i64(n as int),
{
    if n >= 0 {
        let r = u64_to_dec(n as u64);
        return r;
    }
    let mag: u64 = if n == i64::MIN {
        9223372036854775808u64
    } else {
        (-n) as u64
    };
    let mut out = String::new();
    proof {
        reveal_strlit("-");
    }
    out.append("-");
    out.append(u64_to_dec(mag).as_str());
    proof {
        assert(out@ =~= spec_dec_i64(n as int));
    }
    out
}

impl Json {
    /// The serialized text of this value, exactly as `spec_json_text` states.
    pub fn to_text(&self) -> (r: String)
        ensures
            r@ == spec_json_text(self.deep_view()),
        decreases *self,
    {
        match self {
            Json::Null => {
                proof {
                    reveal_strlit("null");
                }
                let r = String::from_str("null");
                assert(r@ =~= spec_json_text(self.deep_view()));
                r
            },
            Json::Bool(b) => {
                proof {
                    reveal_strlit("true");
                    reveal_strlit("false");
                }
                let r = if *b {
                    String::from_str("true")
                } else {
                    String::from_str("false")
                };
                assert(r@ =~= spec_json_text(self.deep_view()));
                r
            },
            Json::Int(n) => i64_to_dec(*n),
            Json::Num(s) => {
                let r = String::from_str(s.as_str());
                r
            },
            Json::Text(s) => {
                let mut out = String::new();
                append_quoted(&mut out, s.as_str());
                assert(out@ =~= spec_json_text(self.deep_view()));
                out
            },
            Json::Arr(items) => {
                proof {
                    lemma_seq_json_view_index(items@);
                }
                let ghost vs = seq_json_view(items@);
                let mut out = String::new();
                push_char(&mut out, '[');
                let mut i: usize = 0;
                while i < items.len()
                    invariant
                        0 <= i <= items@.len(),
                        vs == seq_json_view(items@),
                        vs.len() == items@.len(),
                        forall|k: int| 0 <= k < items@.len() ==> vs[k] == json_view(items@[k]),
                        out@ == seq!['['] + spec_arr_body(vs.subrange(0, i as int)),
                        *self == Json::Arr(*items),
                    decreases items@.len() - i,
                {
                    if i > 0 {
                        push_char(&mut out, ',');
                    }
                    proof {
                        assert(decreases_to!(*self => self->Arr_0));
                        assert(self->Arr_0 == *items);
                        assert(decreases_to!(*items => items@));
                        assert(decreases_to!(items@ => items@[i as int]));
                    }
                    let piece = items[i].to_text();
                    out.append(piece.as_str());
                    i = i + 1;
                    proof {
                        let p = vs.subrange(0, i as int);
                        assert(p.drop_last() =~= vs.subrange(0, i - 1));
                        assert(p.last() == vs[i - 1]);
                        assert(out@ =~= seq!['['] + spec_arr_body(p));
                    }
                }
                push_char(&mut out, ']');
                proof {
                    assert(vs.subrange(0, vs.len() as int) =~= vs);
                    assert(out@ =~= spec_json_text(self.deep_view()));
                }
                out
            },
            Json::Obj(fields) => {
                proof {
                    lemma_seq_member_view_index(fields@);
                }
                let ghost vs = seq_member_view(fields@);
                let mut out = String::new();
                push_char(&mut out, '{');
                let mut i: usize = 0;
                while i < fields.len()
                    invariant
                        0 <= i <= fields@.len(),
                        vs == seq_member_view(fields@),
                        vs.len() == fields@.len(),
                        forall|k: int|
                            0 <= k < fields@.len() ==> vs[k] == (
                            fields@[k].0@,
                            json_view(fields@[k].1),
                            ),
                        out@ == seq!['{'] + spec_obj_body(vs.subrange(0, i as int)),
                        *self == Json::Obj(*fields),
                    decreases fields@.len() - i,
                {
                    let ghost out0 = out@;
                    if i > 0 {
                        push_char(&mut out, ',');
                    }
                    append_quoted(&mut out, fields[i].0.as_str());
                    push_char(&mut out, ':');
                    proof {
                        assert(decreases_to!(*self => self->Obj_0));
                        assert(self->Obj_0 == *fields);
                        assert(decreases_to!(*fields => fields@));
                        assert(decreases_to!(fields@ => fields@[i as int]));
                        assert(decreases_to!(fields@[i as int] => fields@[i as int].1));
                    }
                    let piece = fields[i].1.to_text();
                    out.append(piece.as_str());
                    proof {
                        let f = vs[i as int];
                        if i > 0 {
                            assert(out@ =~= out0 + seq![','] + spec_obj_member(f));
                        } else {
                            assert(out@ =~= out0 + spec_obj_member(f));
                        }
                    }
                    i = i + 1;
                    proof {
                        let p = vs.subrange(0, i as int);
                        assert(p.drop_last() =~= vs.subrange(0, i - 1));
                        assert(p.last() == vs[i - 1]);
                        assert(out@ =~= seq!['{'] + spec_obj_body(p));
                    }
                }
                push_char(&mut out, '}');
                proof {
                    assert(vs.subrange(0, vs.len() as int) =~= vs);
                    assert(out@ =~= spec_json_text(self.deep_view()));
                }
                out
            },
        }
    }
}

} // verus!
