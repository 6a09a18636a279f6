//! The structured form of actions and rule patterns, and the partial
//! structural matcher that compares the two.
use serde_json::Value as JsonValue;
use vstd::prelude::*;

verus! {

broadcast use vstd::std_specs::vec::group_vec_axioms;

/// A JSON-like tree. Numbers are kept as their literal text, so two numbers
/// are equal exactly when they are written the same way.
#[derive(Debug)]
pub enum Value {
    Null,
    Bool(bool),
    Number(String),
    Str(String),
    Array(Vec<Value>),
    Object(Vec<(String, Value)>),
}

/// A JSON tree as serde_json reads it.
#[verifier::external_type_specification]
#[verifier::external_body]
pub struct ExJsonValue(JsonValue);

/// The tree that the text `text` reads as, as JSON, or none when it is not
/// JSON. It depends on the text alone.
pub uninterp spec fn json_parse(text: Seq<char>) -> Option<Value>;

/// Relies on `serde_json::from_str` into `serde_json::Value`: reads `text` as
/// JSON, failing with serde_json's message when it is not; the tree is
/// carried over node for node by `json_tree`.
#[verifier::external_body]
pub(crate) fn parse_json(text: &String) -> (r: Result<Value, String>)
    ensures
        r is Ok <==> json_parse(text@) is Some,
        r is Ok ==> r->Ok_0 == json_parse(text@)->Some_0,
{
    match serde_json::from_str::<JsonValue>(text) {
        Ok(v) => Ok(json_tree(v)),
        Err(e) => Err(e.to_string()),
    }
}

/// Relies on the variants of `serde_json::Value`: moves each node of a parsed
/// tree into a `Value`, a number by its text (`serde_json::Number`'s
/// `Display`).
#[verifier::external_body]
fn json_tree(v: JsonValue) -> Value {
    match v {
        JsonValue::Null => Value::Null,
        JsonValue::Bool(b) => Value::Bool(b),
        JsonValue::Number(n) => Value::Number(n.to_string()),
        JsonValue::String(s) => Value::Str(s),
        JsonValue::Array(xs) => Value::Array(xs.into_iter().map(json_tree).collect()),
        JsonValue::Object(m) => Value::Object(
            m.into_iter().map(|(k, x)| (k, json_tree(x))).collect(),
        ),
    }
}

/// Structural equality of two trees: same shape, same scalars, same keys in
/// the same order.
pub open spec fn same_value(a: Value, b: Value) -> bool
    decreases a, 1nat, 0nat,
{
    match a {
        Value::Null => b is Null,
        Value::Bool(x) => b is Bool && b->Bool_0 == x,
        Value::Number(x) => b is Number && b->Number_0@ == x@,
        Value::Str(x) => b is Str && b->Str_0@ == x@,
        Value::Array(xs) => b is Array && xs.len() == b->Array_0.len() && same_prefix(
            a,
            b,
            xs.len() as nat,
        ),
        Value::Object(xs) => b is Object && xs.len() == b->Object_0.len() && same_prefix(
            a,
            b,
            xs.len() as nat,
        ),
    }
}

/// The first `n` items (of an array) or entries (of an object) of `a` and
/// `b` are pairwise the same.
pub open spec fn same_prefix(a: Value, b: Value, n: nat) -> bool
    decreases a, 0nat, n,
{
    if n == 0 {
        true
    } else {
        same_prefix(a, b, (n - 1) as nat) && match a {
            Value::Array(xs) => b is Array && n - 1 < xs.len() && n - 1 < b->Array_0.len()
                && same_value(xs[n - 1], b->Array_0[n - 1]),
            Value::Object(xs) => b is Object && n - 1 < xs.len() && n - 1 < b->Object_0.len()
                && xs[n - 1].0@ == b->Object_0[n - 1].0@ && same_value(
                xs[n - 1].1,
                b->Object_0[n - 1].1,
            ),
            _ => false,
        }
    }
}

/// Whether `candidate` matches `pattern`:
/// an empty object matches anything; a non-empty object asks that the
/// candidate be an object holding, for each of its keys, an entry under the
/// same key whose value matches; any other pattern asks for equality.
pub open spec fn matches_pattern(candidate: Value, pattern: Value) -> bool
    decreases pattern, 1nat, 0nat,
{
    match pattern {
        Value::Object(ps) => ps.len() == 0 || (candidate is Object && entries_found(
            candidate,
            pattern,
            ps.len() as nat,
        )),
        _ => same_value(candidate, pattern),
    }
}

/// Each of the first `n` entries of the object `pattern` is matched by an
/// entry of `candidate` under the same key.
pub open spec fn entries_found(candidate: Value, pattern: Value, n: nat) -> bool
    decreases pattern, 0nat, n,
{
    if n == 0 {
        true
    } else {
        entries_found(candidate, pattern, (n - 1) as nat) && match pattern {
            Value::Object(ps) => n - 1 < ps.len() && entry_found(
                candidate,
                ps[n - 1].0@,
                ps[n - 1].1,
                candidate->Object_0.len() as nat,
            ),
            _ => false,
        }
    }
}

/// One of the first `m` entries of the object `candidate` has key `key` and a
/// value that matches `sub`.
pub open spec fn entry_found(candidate: Value, key: Seq<char>, sub: Value, m: nat) -> bool
    decreases sub, 2nat, m,
{
    if m == 0 {
        false
    } else {
        entry_found(candidate, key, sub, (m - 1) as nat) || (candidate is Object && m - 1
            < candidate->Object_0.len() && candidate->Object_0[m - 1].0@ == key && matches_pattern(
            candidate->Object_0[m - 1].1,
            sub,
        ))
    }
}

/// The empty object is a wildcard: every candidate matches it.
pub proof fn empty_pattern_matches_everything(x: Value, p: Value)
    requires
        p is Object,
        p->Object_0@.len() == 0,
    ensures
        matches_pattern(x, p),
{
}

/// A pattern that is not an object matches exactly the candidates equal to it.
pub proof fn non_object_pattern_is_equality(x: Value, p: Value)
    requires
        !(p is Object),
    ensures
        matches_pattern(x, p) == same_value(x, p),
{
}

/// Every tree is the same as itself; so a pattern that is not an object
/// matches itself.
pub proof fn same_value_is_reflexive(a: Value)
    ensures
        same_value(a, a),
        !(a is Object) ==> matches_pattern(a, a),
    decreases a, 1nat, 0nat,
{
    match a {
        Value::Array(xs) => lemma_same_prefix_reflexive(a, xs.len() as nat),
        Value::Object(xs) => lemma_same_prefix_reflexive(a, xs.len() as nat),
        _ => {},
    }
}

proof fn lemma_same_prefix_reflexive(a: Value, n: nat)
    requires
        a is Array ==> n <= a->Array_0.len(),
        a is Object ==> n <= a->Object_0.len(),
        a is Array || a is Object,
    ensures
        same_prefix(a, a, n),
    decreases a, 0nat, n,
{
    if n > 0 {
        lemma_same_prefix_reflexive(a, (n - 1) as nat);
        match a {
            Value::Array(xs) => {
                assert(decreases_to!(a => a->Array_0));
                assert(decreases_to!(a->Array_0 => a->Array_0[n - 1]));
                same_value_is_reflexive(xs[n - 1]);
            },
            Value::Object(xs) => {
                assert(decreases_to!(a => a->Object_0));
                assert(decreases_to!(a->Object_0 => a->Object_0[n - 1]));
                same_value_is_reflexive(xs[n - 1].1);
            },
            _ => {},
        }
    }
}

/// Exact structural equality of two trees.
pub fn values_equal(a: &Value, b: &Value) -> (r: bool)
    ensures
        r == same_value(*a, *b),
    decreases *a,
{
    match a {
        Value::Null => match b {
            Value::Null => true,
            _ => false,
        },
        Value::Bool(x) => match b {
            Value::Bool(y) => *x == *y,
            _ => false,
        },
        Value::Number(x) => match b {
            Value::Number(y) => *x == *y,
            _ => false,
        },
        Value::Str(x) => match b {
            Value::Str(y) => *x == *y,
            _ => false,
        },
        Value::Array(xs) => match b {
            Value::Array(ys) => {
                if xs.len() != ys.len() {
                    return false;
                }
                let mut i: usize = 0;
                while i < xs.len()
                    invariant
                        *a == Value::Array(*xs),
                        *b == Value::Array(*ys),
                        xs@.len() == ys@.len(),
                        0 <= i <= xs@.len(),
                        same_prefix(*a, *b, i as nat),
                    decreases xs@.len() - i,
                {
                    proof {
                        assert(decreases_to!(*a => a->Array_0));
                        assert(decreases_to!(a->Array_0 => a->Array_0[i as int]));
                    }
                    if !values_equal(&xs[i], &ys[i]) {
                        proof {
                            if same_value(*a, *b) {
                                lemma_same_prefix_shrinks(*a, *b, (i + 1) as nat, xs@.len() as nat);
                            }
                        }
                        return false;
                    }
                    i = i + 1;
                }
                true
            },
            _ => false,
        },
        Value::Object(xs) => match b {
            Value::Object(ys) => {
                if xs.len() != ys.len() {
                    return false;
                }
                let mut i: usize = 0;
                while i < xs.len()
                    invariant
                        *a == Value::Object(*xs),
                        *b == Value::Object(*ys),
                        xs@.len() == ys@.len(),
                        0 <= i <= xs@.len(),
                        same_prefix(*a, *b, i as nat),
                    decreases xs@.len() - i,
                {
                    proof {
                        assert(decreases_to!(*a => a->Object_0));
                        assert(decreases_to!(a->Object_0 => a->Object_0[i as int]));
                    }
                    if !(xs[i].0 == ys[i].0) || !values_equal(&xs[i].1, &ys[i].1) {
                        proof {
                            if same_value(*a, *b) {
                                lemma_same_prefix_shrinks(*a, *b, (i + 1) as nat, xs@.len() as nat);
                            }
                        }
                        return false;
                    }
                    i = i + 1;
                }
                true
            },
            _ => false,
        },
    }
}

/// Looks in the entries of the object `candidate` for one under `key` whose
/// value matches `sub`.
fn find_entry(candidate: &Value, key: &String, sub: &Value, Ghost(pattern): Ghost<Value>) -> (r:
    bool)
    requires
        candidate is Object,
        decreases_to!(pattern => *sub),
    ensures
        r == entry_found(*candidate, key@, *sub, candidate->Object_0.len() as nat),
    decreases pattern, 0nat,
{
    match candidate {
        Value::Object(cs) => {
            let mut i: usize = 0;
            while i < cs.len()
                invariant
                    *candidate == Value::Object(*cs),
                    0 <= i <= cs@.len(),
                    decreases_to!(pattern => *sub),
                    !entry_found(*candidate, key@, *sub, i as nat),
                decreases cs@.len() - i,
            {
                if cs[i].0 == *key && deep_partial_match(&cs[i].1, sub) {
                    proof {
                        lemma_entry_found_grows(*candidate, key@, *sub, (i + 1) as nat, cs@.len() as nat);
                    }
                    return true;
                }
                i = i + 1;
            }
            false
        },
        _ => false,
    }
}

proof fn lemma_entry_found_grows(candidate: Value, key: Seq<char>, sub: Value, m: nat, n: nat)
    requires
        m <= n,
        entry_found(candidate, key, sub, m),
    ensures
        entry_found(candidate, key, sub, n),
    decreases n - m,
{
    if m < n {
        lemma_entry_found_grows(candidate, key, sub, m, (n - 1) as nat);
    }
}

proof fn lemma_same_prefix_shrinks(a: Value, b: Value, m: nat, n: nat)
    requires
        m <= n,
        same_prefix(a, b, n),
    ensures
        same_prefix(a, b, m),
    decreases n - m,
{
    if m < n {
        lemma_same_prefix_shrinks(a, b, m, (n - 1) as nat);
    }
}

proof fn lemma_entries_found_shrinks(candidate: Value, pattern: Value, m: nat, n: nat)
    requires
        m <= n,
        entries_found(candidate, pattern, n),
    ensures
        entries_found(candidate, pattern, m),
    decreases n - m,
{
    if m < n {
        lemma_entries_found_shrinks(candidate, pattern, m, (n - 1) as nat);
    }
}

/// Decides `matches_pattern(candidate, pattern)`.
pub fn deep_partial_match(candidate: &Value, pattern: &Value) -> (r: bool)
    ensures
        r == matches_pattern(*candidate, *pattern),
    decreases *pattern, 1nat,
{
    match pattern {
        Value::Object(ps) => {
            if ps.len() == 0 {
                return true;
            }
            match candidate {
                Value::Object(cs) => {
                    let mut j: usize = 0;
                    while j < ps.len()
                        invariant
                            *pattern == Value::Object(*ps),
                            *candidate == Value::Object(*cs),
                            0 <= j <= ps@.len(),
                            entries_found(*candidate, *pattern, j as nat),
                        decreases ps@.len() - j,
                    {
                        proof {
                            assert(decreases_to!(*pattern => pattern->Object_0));
                            assert(decreases_to!(pattern->Object_0 => pattern->Object_0[j as int]));
                        }
                        if !find_entry(candidate, &ps[j].0, &ps[j].1, Ghost(*pattern)) {
                            proof {
                                if matches_pattern(*candidate, *pattern) {
                                    lemma_entries_found_shrinks(
                                        *candidate,
                                        *pattern,
                                        (j + 1) as nat,
                                        ps@.len() as nat,
                                    );
                                }
                            }
                            return false;
                        }
                        j = j + 1;
                    }
                    true
                },
                _ => false,
            }
        },
        _ => values_equal(candidate, pattern),
    }
}

} // verus!
