use vstd::prelude::*;

use crate::form::{decimal, push_decimal_nat, string_of_chars};

verus! {

/// The string at a JSON Pointer in a JSON document, as serde_json reads it; `None` where the
/// document does not parse, nothing is there, or what is there is not a string.
pub uninterp spec fn json_text_at(doc: Seq<u8>, pointer: Seq<char>) -> Option<Seq<char>>;

/// The unsigned integer at a JSON Pointer in a JSON document, as serde_json reads it.
pub uninterp spec fn json_u64_at(doc: Seq<u8>, pointer: Seq<char>) -> Option<u64>;

/// The signed integer at a JSON Pointer in a JSON document, as serde_json reads it.
pub uninterp spec fn json_i64_at(doc: Seq<u8>, pointer: Seq<char>) -> Option<i64>;

/// The boolean at a JSON Pointer in a JSON document, as serde_json reads it.
pub uninterp spec fn json_bool_at(doc: Seq<u8>, pointer: Seq<char>) -> Option<bool>;

/// The length of the array at a JSON Pointer in a JSON document, as serde_json reads it.
pub uninterp spec fn json_len_at(doc: Seq<u8>, pointer: Seq<char>) -> Option<nat>;

/// The keys of the object at a JSON Pointer in a JSON document, in the order in which
/// serde_json's map holds them.
pub uninterp spec fn json_keys_at(doc: Seq<u8>, pointer: Seq<char>) -> Option<Seq<Seq<char>>>;

/// Relies on `serde_json::from_slice`, `Value::pointer` and `Value::as_str`: the string
/// found at `pointer`, if the document parses and one is there.
#[verifier::external_body]
fn text_at(doc: &[u8], pointer: &str) -> (r: Option<String>)
    ensures
        match r {
            Some(s) => json_text_at(doc@, pointer@) == Some(s@),
            None => json_text_at(doc@, pointer@) is None,
        },
{
    let v = serde_json::from_slice::<serde_json::Value>(doc).ok()?;
    v.pointer(pointer)?.as_str().map(|s| s.to_string())
}

/// Relies on `serde_json::from_slice`, `Value::pointer` and `Value::as_u64`.
#[verifier::external_body]
fn u64_at(doc: &[u8], pointer: &str) -> (r: Option<u64>)
    ensures
        r == json_u64_at(doc@, pointer@),
{
    let v = serde_json::from_slice::<serde_json::Value>(doc).ok()?;
    v.pointer(pointer)?.as_u64()
}

/// Relies on `serde_json::from_slice`, `Value::pointer` and `Value::as_i64`.
#[verifier::external_body]
fn i64_at(doc: &[u8], pointer: &str) -> (r: Option<i64>)
    ensures
        r == json_i64_at(doc@, pointer@),
{
    let v = serde_json::from_slice::<serde_json::Value>(doc).ok()?;
    v.pointer(pointer)?.as_i64()
}

/// Relies on `serde_json::from_slice`, `Value::pointer` and `Value::as_bool`.
#[verifier::external_body]
fn bool_at(doc: &[u8], pointer: &str) -> (r: Option<bool>)
    ensures
        r == json_bool_at(doc@, pointer@),
{
    let v = serde_json::from_slice::<serde_json::Value>(doc).ok()?;
    v.pointer(pointer)?.as_bool()
}

/// Relies on `serde_json::from_slice`, `Value::pointer` and `Value::as_array`: the number of
/// items of the array found at `pointer`.
#[verifier::external_body]
fn len_at(doc: &[u8], pointer: &str) -> (r: Option<usize>)
    ensures
        match r {
            Some(n) => json_len_at(doc@, pointer@) == Some(n as nat),
            None => json_len_at(doc@, pointer@) is None,
        },
{
    let v = serde_json::from_slice::<serde_json::Value>(doc).ok()?;
    v.pointer(pointer)?.as_array().map(|a| a.len())
}

/// Relies on `serde_json::from_slice`, `Value::pointer` and `Value::as_object`: the keys of
/// the object found at `pointer`.
#[verifier::external_body]
fn keys_at(doc: &[u8], pointer: &str) -> (r: Option<Vec<String>>)
    ensures
        match r {
            Some(ks) => json_keys_at(doc@, pointer@) == Some(ks@.map_values(|k: String| k@)),
            None => json_keys_at(doc@, pointer@) is None,
        },
{
    let v = serde_json::from_slice::<serde_json::Value>(doc).ok()?;
    v.pointer(pointer)?.as_object().map(|m| m.keys().cloned().collect())
}

/// A reference token of a JSON Pointer: `~` written `~0`, `/` written `~1`.
pub open spec fn pointer_token(s: Seq<char>) -> Seq<char>
    decreases s.len(),
{
    if s.len() == 0 {
        Seq::empty()
    } else {
        let c = s.last();
        pointer_token(s.drop_last()) + if c == '~' {
            seq!['~', '0']
        } else if c == '/' {
            seq!['~', '1']
        } else {
            seq![c]
        }
    }
}

/// The pointer to member `name` of the value at `at`.
pub open spec fn member(at: Seq<char>, name: Seq<char>) -> Seq<char> {
    at + seq!['/'] + pointer_token(name)
}

/// The pointer to item `i` of the array at `at`.
pub open spec fn item(at: Seq<char>, i: int) -> Seq<char> {
    at + seq!['/'] + decimal(i)
}

/// The pointer to member `name` of the value at `at`.
pub fn member_pointer(at: &str, name: &str) -> (r: String)
    ensures
        r@ == member(at@, name@),
{
    let mut out: Vec<char> = Vec::new();
    let n = at.unicode_len();
    let mut i: usize = 0;
    while i < n
        invariant
            n == at@.len(),
            i <= n,
            out@ == at@.subrange(0, i as int),
        decreases n - i,
    {
        out.push(at.get_char(i));
        assert(out@ =~= at@.subrange(0, i as int + 1));
        i = i + 1;
    }
    out.push('/');
    let ghost head = out@;
    let m = name.unicode_len();
    let mut j: usize = 0;
    while j < m
        invariant
            m == name@.len(),
            j <= m,
            out@ == head + pointer_token(name@.subrange(0, j as int)),
        decreases m - j,
    {
        let c = name.get_char(j);
        if c == '~' {
            out.push('~');
            out.push('0');
        } else if c == '/' {
            out.push('~');
            out.push('1');
        } else {
            out.push(c);
        }
        proof {
            let pre = name@.subrange(0, j as int + 1);
            assert(pre.drop_last() =~= name@.subrange(0, j as int));
            assert(out@ =~= head + pointer_token(pre));
        }
        j = j + 1;
    }
    assert(name@.subrange(0, m as int) =~= name@);
    assert(at@.subrange(0, n as int) =~= at@);
    assert(out@ =~= member(at@, name@));
    string_of_chars(&out)
}

/// The pointer to item `i` of the array at `at`.
pub fn item_pointer(at: &str, i: usize) -> (r: String)
    ensures
        r@ == item(at@, i as int),
{
    let mut out: Vec<char> = Vec::new();
    let n = at.unicode_len();
    let mut k: usize = 0;
    while k < n
        invariant
            n == at@.len(),
            k <= n,
            out@ == at@.subrange(0, k as int),
        decreases n - k,
    {
        out.push(at.get_char(k));
        assert(out@ =~= at@.subrange(0, k as int + 1));
        k = k + 1;
    }
    assert(at@.subrange(0, n as int) =~= at@);
    out.push('/');
    push_decimal_nat(i as u64, &mut out);
    assert(out@ =~= item(at@, i as int));
    string_of_chars(&out)
}

/// The string member `name` of the value at `at`, if there is one.
pub fn text_member(doc: &[u8], at: &str, name: &str) -> (r: Option<String>)
    ensures
        match r {
            Some(s) => json_text_at(doc@, member(at@, name@)) == Some(s@),
            None => json_text_at(doc@, member(at@, name@)) is None,
        },
{
    text_at(doc, member_pointer(at, name).as_str())
}

/// The unsigned integer member `name` of the value at `at`, if there is one.
pub fn u64_member(doc: &[u8], at: &str, name: &str) -> (r: Option<u64>)
    ensures
        r == json_u64_at(doc@, member(at@, name@)),
{
    u64_at(doc, member_pointer(at, name).as_str())
}

/// The signed integer member `name` of the value at `at`, if there is one.
pub fn i64_member(doc: &[u8], at: &str, name: &str) -> (r: Option<i64>)
    ensures
        r == json_i64_at(doc@, member(at@, name@)),
{
    i64_at(doc, member_pointer(at, name).as_str())
}

/// The boolean member `name` of the value at `at`, if there is one.
pub fn bool_member(doc: &[u8], at: &str, name: &str) -> (r: Option<bool>)
    ensures
        r == json_bool_at(doc@, member(at@, name@)),
{
    bool_at(doc, member_pointer(at, name).as_str())
}

/// The length of the array member `name` of the value at `at`, if there is one.
pub fn len_member(doc: &[u8], at: &str, name: &str) -> (r: Option<usize>)
    ensures
        match r {
            Some(n) => json_len_at(doc@, member(at@, name@)) == Some(n as nat),
            None => json_len_at(doc@, member(at@, name@)) is None,
        },
{
    len_at(doc, member_pointer(at, name).as_str())
}

/// The keys of the object member `name` of the value at `at`, if there is one.
pub fn keys_member(doc: &[u8], at: &str, name: &str) -> (r: Option<Vec<String>>)
    ensures
        match r {
            Some(ks) => json_keys_at(doc@, member(at@, name@)) == Some(
                ks@.map_values(|k: String| k@),
            ),
            None => json_keys_at(doc@, member(at@, name@)) is None,
        },
{
    keys_at(doc, member_pointer(at, name).as_str())
}

/// Whether the value at `p` is an array of strings.
pub open spec fn texts_decodable(doc: Seq<u8>, p: Seq<char>) -> bool {
    match json_len_at(doc, p) {
        Some(n) => forall|i: int| 0 <= i < n ==> (#[trigger] json_text_at(doc, item(p, i))) is Some,
        None => false,
    }
}

/// Whether `v` holds the strings of the array at `p`, in order.
pub open spec fn texts_json(doc: Seq<u8>, p: Seq<char>, v: Seq<String>) -> bool {
    &&& json_len_at(doc, p) == Some(v.len())
    &&& forall|i: int| 0 <= i < v.len() ==> json_text_at(doc, item(p, i)) == Some(#[trigger] v[i]@)
}

/// The strings of the array member `name` of the value at `at`, if it is an array of strings.
pub fn texts_member(doc: &[u8], at: &str, name: &str) -> (r: Option<Vec<String>>)
    ensures
        match r {
            Some(v) => texts_decodable(doc@, member(at@, name@)) && texts_json(
                doc@,
                member(at@, name@),
                v@,
            ),
            None => !texts_decodable(doc@, member(at@, name@)),
        },
{
    let p = member_pointer(at, name);
    let n = match len_at(doc, p.as_str()) {
        Some(n) => n,
        None => {
            return None;
        },
    };
    let mut out: Vec<String> = Vec::new();
    let mut i: usize = 0;
    while i < n
        invariant
            p@ == member(at@, name@),
            json_len_at(doc@, p@) == Some(n as nat),
            i <= n,
            out@.len() == i,
            forall|j: int| 0 <= j < i ==> json_text_at(doc@, item(p@, j)) == Some(#[trigger] out@[j]@),
        decreases n - i,
    {
        let ip = item_pointer(p.as_str(), i);
        match text_at(doc, ip.as_str()) {
            Some(s) => {
                out.push(s);
            },
            None => {
                assert(json_text_at(doc@, item(p@, i as int)) is None);
                assert(!texts_decodable(doc@, p@));
                return None;
            },
        }
        i = i + 1;
    }
    proof {
        assert forall|j: int| 0 <= j < n implies (#[trigger] json_text_at(doc@, item(p@, j))) is Some by {
            assert(json_text_at(doc@, item(p@, j)) == Some(out@[j]@));
        }
    }
    Some(out)
}

/// Whether the value at `at` is an object.
pub fn is_object(doc: &[u8], at: &str) -> (r: bool)
    ensures
        r == json_keys_at(doc@, at@) is Some,
{
    keys_at(doc, at).is_some()
}

} // verus!
