//! Query parameters in the OpenAPI `deepObject` style.
//!
//! A JSON object is flattened into `(name, value)` pairs: a member `key` of
//! an object reached under the name `p` is named `p[key]`, the `i`-th element
//! of an array named `n` is named `n[i]`.

use vstd::prelude::*;
use vstd::string::StringExecFns;
use crate::apis::text;
use crate::apis::text::{push_char, push_decimal};

verus! {

/// A JSON value, as the `deepObject` serialization reads it.
///
/// Numbers are held as their JSON text (what `serde_json` writes for them);
/// object members are held in the order in which the object yields them.
#[derive(Debug)]
pub enum JsonValue {
    Null,
    Bool(bool),
    Number(String),
    String(String),
    Array(Vec<JsonValue>),
    Object(Vec<(String, JsonValue)>),
}

/// `prefix[key]`
pub open spec fn bracketed(prefix: Seq<char>, key: Seq<char>) -> Seq<char> {
    prefix + seq!['['] + key + seq![']']
}

/// The JSON text of a `null`, a boolean or a number.
pub open spec fn scalar_text(value: JsonValue) -> Seq<char> {
    match value {
        JsonValue::Null => seq!['n', 'u', 'l', 'l'],
        JsonValue::Bool(b) => if b {
            seq!['t', 'r', 'u', 'e']
        } else {
            seq!['f', 'a', 'l', 's', 'e']
        },
        JsonValue::Number(t) => t@,
        _ => Seq::empty(),
    }
}

/// The values that can be flattened: an object whose members are objects,
/// arrays of such values, or scalars.
pub open spec fn deep_object_form(value: JsonValue) -> bool
    decreases value, 0int,
{
    match value {
        JsonValue::Object(members) => members_form(members@, members@.len() as int),
        _ => false,
    }
}

/// The first `n` members all have a flattenable value.
pub open spec fn members_form(members: Seq<(String, JsonValue)>, n: int) -> bool
    decreases members, n,
{
    if n <= 0 || n > members.len() {
        true
    } else {
        members_form(members, n - 1) && member_form(members[n - 1].1)
    }
}

/// A member value can be flattened: a flattenable object, an array of
/// flattenable objects, or any other value.
pub open spec fn member_form(value: JsonValue) -> bool
    decreases value, 1int,
{
    match value {
        JsonValue::Object(_) => deep_object_form(value),
        JsonValue::Array(items) => items_form(items@, items@.len() as int),
        _ => true,
    }
}

/// The first `n` items are all flattenable objects.
pub open spec fn items_form(items: Seq<JsonValue>, n: int) -> bool
    decreases items, n,
{
    if n <= 0 || n > items.len() {
        true
    } else {
        items_form(items, n - 1) && deep_object_form(items[n - 1])
    }
}

/// The parameters of `value` flattened under `prefix`.
pub open spec fn deep_object_params(prefix: Seq<char>, value: JsonValue) -> Seq<(Seq<char>, Seq<char>)>
    decreases value, 0int,
{
    match value {
        JsonValue::Object(members) => members_params(prefix, members@, members@.len() as int),
        _ => Seq::empty(),
    }
}

/// The parameters of the first `n` members, in order.
pub open spec fn members_params(
    prefix: Seq<char>,
    members: Seq<(String, JsonValue)>,
    n: int,
) -> Seq<(Seq<char>, Seq<char>)>
    decreases members, n,
{
    if n <= 0 || n > members.len() {
        Seq::empty()
    } else {
        members_params(prefix, members, n - 1) + member_params(
            prefix,
            members[n - 1].0@,
            members[n - 1].1,
        )
    }
}

/// The parameters of one member `key` with value `value`: an object is
/// flattened under `prefix[key]`, the items of an array under
/// `prefix[key][i]`, a string is one pair with its text, any other value one
/// pair with its JSON text.
pub open spec fn member_params(prefix: Seq<char>, key: Seq<char>, value: JsonValue) -> Seq<
    (Seq<char>, Seq<char>),
>
    decreases value, 1int,
{
    let name = bracketed(prefix, key);
    match value {
        JsonValue::Object(_) => deep_object_params(name, value),
        JsonValue::Array(items) => items_params(name, items@, items@.len() as int),
        JsonValue::String(s) => seq![(name, s@)],
        _ => seq![(name, scalar_text(value))],
    }
}

/// The parameters of the first `n` items of an array named `name`.
pub open spec fn items_params(name: Seq<char>, items: Seq<JsonValue>, n: int) -> Seq<
    (Seq<char>, Seq<char>),
>
    decreases items, n,
{
    if n <= 0 || n > items.len() {
        Seq::empty()
    } else {
        items_params(name, items, n - 1) + deep_object_params(
            bracketed(name, text::decimal((n - 1) as nat)),
            items[n - 1],
        )
    }
}

/// `s` begins with `p`.
pub open spec fn starts_with(s: Seq<char>, p: Seq<char>) -> bool {
    p.len() <= s.len() && s.subrange(0, p.len() as int) == p
}

/// All names in `params` begin with `p`.
pub open spec fn names_start_with(params: Seq<(Seq<char>, Seq<char>)>, p: Seq<char>) -> bool {
    forall|i: int| 0 <= i < params.len() ==> starts_with(#[trigger] params[i].0, p)
}

proof fn lemma_starts_with_trans(s: Seq<char>, q: Seq<char>, p: Seq<char>)
    requires
        starts_with(s, q),
        starts_with(q, p),
    ensures
        starts_with(s, p),
{
    assert(s.subrange(0, p.len() as int) =~= q.subrange(0, p.len() as int));
}

proof fn lemma_names_concat(a: Seq<(Seq<char>, Seq<char>)>, b: Seq<(Seq<char>, Seq<char>)>, p: Seq<char>)
    requires
        names_start_with(a, p),
        names_start_with(b, p),
    ensures
        names_start_with(a + b, p),
{
    assert forall|i: int| 0 <= i < (a + b).len() implies starts_with(#[trigger] (a + b)[i].0, p) by {
        if i < a.len() {
            assert((a + b)[i] == a[i]);
        } else {
            assert((a + b)[i] == b[i - a.len()]);
        }
    }
}

proof fn lemma_names_weaken(a: Seq<(Seq<char>, Seq<char>)>, q: Seq<char>, p: Seq<char>)
    requires
        names_start_with(a, q),
        starts_with(q, p),
    ensures
        names_start_with(a, p),
{
    assert forall|i: int| 0 <= i < a.len() implies starts_with(#[trigger] a[i].0, p) by {
        lemma_starts_with_trans(a[i].0, q, p);
    }
}

proof fn lemma_bracketed_starts_with(prefix: Seq<char>, key: Seq<char>)
    ensures
        starts_with(bracketed(prefix, key), prefix + seq!['[']),
{
    assert(bracketed(prefix, key).subrange(0, prefix.len() + 1int) =~= prefix + seq!['[']);
}

/// Every parameter name that flattening produces begins with the prefix
/// followed by `[`: the parameters of an object stay under its name.
pub proof fn lemma_deep_object_names(prefix: Seq<char>, value: JsonValue)
    ensures
        names_start_with(deep_object_params(prefix, value), prefix + seq!['[']),
    decreases value, 0int,
{
    match value {
        JsonValue::Object(members) => {
            lemma_members_names(prefix, members@, members@.len() as int);
        },
        _ => {},
    }
}

proof fn lemma_members_names(prefix: Seq<char>, members: Seq<(String, JsonValue)>, n: int)
    ensures
        names_start_with(members_params(prefix, members, n), prefix + seq!['[']),
    decreases members, n,
{
    if n <= 0 || n > members.len() {
    } else {
        lemma_members_names(prefix, members, n - 1);
        lemma_member_names(prefix, members[n - 1].0@, members[n - 1].1);
        lemma_bracketed_starts_with(prefix, members[n - 1].0@);
        lemma_names_weaken(
            member_params(prefix, members[n - 1].0@, members[n - 1].1),
            bracketed(prefix, members[n - 1].0@),
            prefix + seq!['['],
        );
        lemma_names_concat(
            members_params(prefix, members, n - 1),
            member_params(prefix, members[n - 1].0@, members[n - 1].1),
            prefix + seq!['['],
        );
    }
}

proof fn lemma_member_names(prefix: Seq<char>, key: Seq<char>, value: JsonValue)
    ensures
        names_start_with(member_params(prefix, key, value), bracketed(prefix, key)),
    decreases value, 1int,
{
    let name = bracketed(prefix, key);
    assert(name.subrange(0, name.len() as int) =~= name);
    let extended = name + seq!['['];
    assert(extended.subrange(0, name.len() as int) =~= name);
    match value {
        JsonValue::Object(_) => {
            lemma_deep_object_names(name, value);
            lemma_names_weaken(deep_object_params(name, value), extended, name);
        },
        JsonValue::Array(items) => {
            lemma_items_names(name, items@, items@.len() as int);
            lemma_names_weaken(items_params(name, items@, items@.len() as int), extended, name);
        },
        _ => {},
    }
}

proof fn lemma_items_names(name: Seq<char>, items: Seq<JsonValue>, n: int)
    ensures
        names_start_with(items_params(name, items, n), name + seq!['[']),
    decreases items, n,
{
    if n <= 0 || n > items.len() {
    } else {
        let item_name = bracketed(name, text::decimal((n - 1) as nat));
        lemma_items_names(name, items, n - 1);
        lemma_deep_object_names(item_name, items[n - 1]);
        lemma_bracketed_starts_with(name, text::decimal((n - 1) as nat));
        let item_extended = item_name + seq!['['];
        assert(item_extended.subrange(0, item_name.len() as int) =~= item_name);
        lemma_starts_with_trans(item_extended, item_name, name + seq!['[']);
        lemma_names_weaken(deep_object_params(item_name, items[n - 1]), item_extended, name + seq!['[']);
        lemma_names_concat(
            items_params(name, items, n - 1),
            deep_object_params(item_name, items[n - 1]),
            name + seq!['['],
        );
    }
}

/// The value is neither an object nor an array.
pub open spec fn is_scalar(value: JsonValue) -> bool {
    !(value is Object) && !(value is Array)
}

/// What a scalar member's pair carries: a string's own text, `null`, `true`,
/// `false`, or a number's JSON text.
pub open spec fn pair_value_of_scalar(pair_value: Seq<char>, value: JsonValue) -> bool {
    match value {
        JsonValue::String(s) => pair_value == s@,
        JsonValue::Null => pair_value == seq!['n', 'u', 'l', 'l'],
        JsonValue::Bool(b) => pair_value == if b {
            seq!['t', 'r', 'u', 'e']
        } else {
            seq!['f', 'a', 'l', 's', 'e']
        },
        JsonValue::Number(t) => pair_value == t@,
        _ => true,
    }
}

proof fn lemma_scalar_members_prefix(prefix: Seq<char>, members: Seq<(String, JsonValue)>, n: int)
    requires
        0 <= n <= members.len(),
        forall|i: int| 0 <= i < members.len() ==> is_scalar(#[trigger] members[i].1),
    ensures
        members_params(prefix, members, n).len() == n,
        forall|i: int|
            0 <= i < n ==> {
                &&& (#[trigger] members_params(prefix, members, n)[i]).0 == prefix + seq!['[']
                    + members[i].0@ + seq![']']
                &&& pair_value_of_scalar(members_params(prefix, members, n)[i].1, members[i].1)
            },
    decreases n,
{
    if n > 0 {
        lemma_scalar_members_prefix(prefix, members, n - 1);
        let value = members[n - 1].1;
        assert(is_scalar(value));
        let last = member_params(prefix, members[n - 1].0@, value);
        assert(last.len() == 1);
        assert(last[0].0 == prefix + seq!['['] + members[n - 1].0@ + seq![']']);
        assert(pair_value_of_scalar(last[0].1, value));
        let whole = members_params(prefix, members, n);
        assert(whole == members_params(prefix, members, n - 1) + last);
        assert forall|i: int| 0 <= i < n implies {
            &&& (#[trigger] members_params(prefix, members, n)[i]).0 == prefix + seq!['[']
                + members[i].0@ + seq![']']
            &&& pair_value_of_scalar(members_params(prefix, members, n)[i].1, members[i].1)
        } by {
            if i < n - 1 {
                assert(whole[i] == members_params(prefix, members, n - 1)[i]);
            } else {
                assert(whole[i] == last[0]);
            }
        }
    }
}

/// An object whose members are strings, numbers, booleans or `null` is
/// flattened into exactly one pair per member, in order: the `i`-th pair is
/// named `prefix[key_i]` and carries the member's own text (a string as it
/// is, even when empty).
pub proof fn lemma_scalar_members(prefix: Seq<char>, members: Vec<(String, JsonValue)>)
    requires
        forall|i: int| 0 <= i < members@.len() ==> is_scalar(#[trigger] members@[i].1),
    ensures
        deep_object_params(prefix, JsonValue::Object(members)).len() == members@.len(),
        forall|i: int|
            0 <= i < members@.len() ==> {
                &&& (#[trigger] deep_object_params(prefix, JsonValue::Object(members))[i]).0
                    == prefix + seq!['['] + members@[i].0@ + seq![']']
                &&& pair_value_of_scalar(
                    deep_object_params(prefix, JsonValue::Object(members))[i].1,
                    members@[i].1,
                )
            },
{
    lemma_scalar_members_prefix(prefix, members@, members@.len() as int);
}

/// The pairs of strings as pairs of character sequences.
pub open spec fn pairs_view(pairs: Seq<(String, String)>) -> Seq<(Seq<char>, Seq<char>)> {
    pairs.map_values(|p: (String, String)| (p.0@, p.1@))
}

proof fn lemma_pairs_view_add(a: Seq<(String, String)>, b: Seq<(String, String)>)
    ensures
        pairs_view(a + b) == pairs_view(a) + pairs_view(b),
{
    assert(pairs_view(a + b) =~= pairs_view(a) + pairs_view(b));
}

proof fn lemma_pairs_view_push(a: Seq<(String, String)>, p: (String, String))
    ensures
        pairs_view(a.push(p)) == pairs_view(a).push((p.0@, p.1@)),
{
    assert(pairs_view(a.push(p)) =~= pairs_view(a).push((p.0@, p.1@)));
}

proof fn lemma_members_form(members: Seq<(String, JsonValue)>, n: int, i: int)
    requires
        members_form(members, n),
        0 <= i < n <= members.len(),
    ensures
        member_form(members[i].1),
    decreases n,
{
    if i < n - 1 {
        lemma_members_form(members, n - 1, i);
    }
}

proof fn lemma_items_form(items: Seq<JsonValue>, n: int, i: int)
    requires
        items_form(items, n),
        0 <= i < n <= items.len(),
    ensures
        deep_object_form(items[i]),
    decreases n,
{
    if i < n - 1 {
        lemma_items_form(items, n - 1, i);
    }
}

/// `prefix[key]` as a new string.
fn bracket(prefix: &str, key: &str) -> (r: String)
    ensures
        r@ == bracketed(prefix@, key@),
{
    let mut r = String::from_str(prefix);
    push_char(&mut r, '[');
    r.append(key);
    push_char(&mut r, ']');
    assert(r@ =~= bracketed(prefix@, key@));
    r
}

/// `name[i]` as a new string.
fn bracket_index(name: &str, i: usize) -> (r: String)
    ensures
        r@ == bracketed(name@, text::decimal(i as nat)),
{
    let mut r = String::from_str(name);
    push_char(&mut r, '[');
    push_decimal(&mut r, i as u64);
    push_char(&mut r, ']');
    assert(r@ =~= bracketed(name@, text::decimal(i as nat)));
    r
}

/// The JSON text of a `null`, a boolean or a number.
fn scalar_string(value: &JsonValue) -> (r: String)
    ensures
        r@ == scalar_text(*value),
{
    match value {
        JsonValue::Null => {
            let mut r = String::new();
            push_char(&mut r, 'n');
            push_char(&mut r, 'u');
            push_char(&mut r, 'l');
            push_char(&mut r, 'l');
            assert(r@ =~= seq!['n', 'u', 'l', 'l']);
            r
        },
        JsonValue::Bool(b) => {
            let mut r = String::new();
            if *b {
                push_char(&mut r, 't');
                push_char(&mut r, 'r');
                push_char(&mut r, 'u');
                push_char(&mut r, 'e');
                assert(r@ =~= seq!['t', 'r', 'u', 'e']);
            } else {
                push_char(&mut r, 'f');
                push_char(&mut r, 'a');
                push_char(&mut r, 'l');
                push_char(&mut r, 's');
                push_char(&mut r, 'e');
                assert(r@ =~= seq!['f', 'a', 'l', 's', 'e']);
            }
            r
        },
        JsonValue::Number(t) => t.clone(),
        _ => String::new(),
    }
}

/// Whether `value` can be flattened by `parse_deep_object`: an object whose
/// array members hold only objects, at every depth.
pub fn is_deep_object(value: &JsonValue) -> (r: bool)
    ensures
        r == deep_object_form(*value),
    decreases *value,
{
    match value {
        JsonValue::Object(members) => {
            let mut i: usize = 0;
            while i < members.len()
                invariant
                    *value == JsonValue::Object(*members),
                    i <= members@.len(),
                    members_form(members@, i as int),
                decreases members@.len() - i,
            {
                let member = &members[i].1;
                assert((*value)->Object_0 == *members);
                assert(decreases_to!(*value => (*value)->Object_0));
                assert(decreases_to!(*members => members@));
                assert(decreases_to!(members@ => members@[i as int]));
                assert(decreases_to!(members@[i as int] => members@[i as int].1));
                match member {
                    JsonValue::Object(_) => {
                        if !is_deep_object(member) {
                            proof {
                                if deep_object_form(*value) {
                                    lemma_members_form(members@, members@.len() as int, i as int);
                                }
                            }
                            return false;
                        }
                    },
                    JsonValue::Array(items) => {
                        assert(decreases_to!(*member => (*member)->Array_0));
                        assert(decreases_to!(*items => items@));
                        let mut j: usize = 0;
                        while j < items.len()
                            invariant
                                *value == JsonValue::Object(*members),
                                i < members@.len(),
                                *member == members@[i as int].1,
                                *member == JsonValue::Array(*items),
                                decreases_to!(*value => items@),
                                j <= items@.len(),
                                items_form(items@, j as int),
                            decreases items@.len() - j,
                        {
                            assert(decreases_to!(items@ => items@[j as int]));
                            if !is_deep_object(&items[j]) {
                                proof {
                                    if deep_object_form(*value) {
                                        lemma_members_form(members@, members@.len() as int, i as int);
                                        lemma_items_form(items@, items@.len() as int, j as int);
                                    }
                                }
                                return false;
                            }
                            j = j + 1;
                        }
                    },
                    _ => {},
                }
                assert(member_form(members@[i as int].1));
                assert(members_form(members@, i + 1));
                i = i + 1;
            }
            true
        },
        _ => false,
    }
}

/// Flattens the JSON object `value` into query parameters in the
/// `deepObject` style, each name starting with `prefix`.
///
/// Only objects can be flattened, and the items of an array member must be
/// objects too: `requires` leaves other values out.
pub fn parse_deep_object(prefix: &str, value: &JsonValue) -> (params: Vec<(String, String)>)
    requires
        deep_object_form(*value),
    ensures
        pairs_view(params@) == deep_object_params(prefix@, *value),
    decreases *value,
{
    let mut params: Vec<(String, String)> = Vec::new();
    match value {
        JsonValue::Object(members) => {
            let mut i: usize = 0;
            while i < members.len()
                invariant
                    *value == JsonValue::Object(*members),
                    deep_object_form(*value),
                    i <= members@.len(),
                    pairs_view(params@) == members_params(prefix@, members@, i as int),
                decreases members@.len() - i,
            {
                let key = &members[i].0;
                let member = &members[i].1;
                proof {
                    lemma_members_form(members@, members@.len() as int, i as int);
                }
                let name = bracket(prefix, key.as_str());
                let ghost before = params@;
                match member {
                    JsonValue::Object(_) => {
                        assert(decreases_to!(*value => *member));
                        let mut sub = parse_deep_object(name.as_str(), member);
                        proof {
                            lemma_pairs_view_add(before, sub@);
                        }
                        params.append(&mut sub);
                        assert(pairs_view(params@) =~= pairs_view(before) + member_params(prefix@, key@, *member));
                    },
                    JsonValue::Array(items) => {
                        let mut j: usize = 0;
                        while j < items.len()
                            invariant
                                *value == JsonValue::Object(*members),
                                i < members@.len(),
                                *member == members@[i as int].1,
                                *member == JsonValue::Array(*items),
                                items_form(items@, items@.len() as int),
                                name@ == bracketed(prefix@, members@[i as int].0@),
                                j <= items@.len(),
                                pairs_view(params@) == pairs_view(before) + items_params(
                                    name@,
                                    items@,
                                    j as int,
                                ),
                            decreases items@.len() - j,
                        {
                            let item_name = bracket_index(name.as_str(), j);
                            proof {
                                lemma_items_form(items@, items@.len() as int, j as int);
                            }
                            assert(decreases_to!(*value => (*value)->Object_0));
                            assert(decreases_to!(members@[i as int] => members@[i as int].1));
                            assert(decreases_to!(*member => (*member)->Array_0));
                            assert(decreases_to!(items@ => items@[j as int]));
                            let ghost mid = params@;
                            let mut sub = parse_deep_object(item_name.as_str(), &items[j]);
                            proof {
                                lemma_pairs_view_add(mid, sub@);
                            }
                            params.append(&mut sub);
                            assert(pairs_view(params@) =~= pairs_view(before) + items_params(
                                name@,
                                items@,
                                j + 1,
                            ));
                            j = j + 1;
                        }
                        assert(pairs_view(params@) =~= pairs_view(before) + member_params(prefix@, key@, *member));
                    },
                    JsonValue::String(s) => {
                        let pair = (name, s.clone());
                        proof {
                            lemma_pairs_view_push(before, pair);
                        }
                        params.push(pair);
                        assert(pairs_view(params@) =~= pairs_view(before) + member_params(prefix@, key@, *member));
                    },
                    _ => {
                        let pair = (name, scalar_string(member));
                        proof {
                            lemma_pairs_view_push(before, pair);
                        }
                        params.push(pair);
                        assert(pairs_view(params@) =~= pairs_view(before) + member_params(prefix@, key@, *member));
                    },
                }
                assert(pairs_view(params@) =~= members_params(prefix@, members@, i + 1));
                i = i + 1;
            }
        },
        _ => {},
    }
    params
}

} // verus!
