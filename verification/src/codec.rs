//! The shape that a policy takes as a YAML tree. One relation per type says
//! which trees stand for which values; decoding and encoding both answer to
//! it.

use vstd::prelude::*;
use vstd::string::StringExecFns;
use crate::text::str_equal;
use crate::yaml::{is_writable, YamlNode};

verus! {

/// A type with a YAML form.
pub trait YamlCodec: Sized {
    /// The tree `n` stands for the value `d`.
    spec fn decodes(n: YamlNode, d: Self) -> bool;

    /// Reads a value from a tree: the value that the tree stands for, or an
    /// error where it stands for none.
    fn decode(n: &YamlNode) -> (r: Result<Self, String>)
        ensures
            match r {
                Ok(d) => Self::decodes(*n, d),
                Err(_) => forall|d: Self| !Self::decodes(*n, d),
            },
    ;

    /// Two values hold the same content.
    spec fn same(a: Self, b: Self) -> bool;

    /// A tree stands for one value only.
    proof fn lemma_one_value(n: YamlNode, a: Self, b: Self)
        requires
            Self::decodes(n, a),
            Self::decodes(n, b),
        ensures
            Self::same(a, b),
    ;

    /// Writes a value as a tree that stands for it.
    fn encode(&self) -> (n: YamlNode)
        ensures
            Self::decodes(n, *self),
            is_writable(n),
            !(n is Null),
    ;
}

/// The value of the first pair at or after `from` whose key is the text
/// `key`.
pub open spec fn field_from(pairs: Seq<(YamlNode, YamlNode)>, key: Seq<char>, from: int) -> Option<
    YamlNode,
>
    decreases pairs.len() - from,
{
    if from < 0 || from >= pairs.len() {
        None
    } else if is_key(pairs[from].0, key) {
        Some(pairs[from].1)
    } else {
        field_from(pairs, key, from + 1)
    }
}

/// The node is the text `key`.
pub open spec fn is_key(n: YamlNode, key: Seq<char>) -> bool {
    match n {
        YamlNode::Text(s) => s@ == key,
        _ => false,
    }
}

/// What a mapping holds under `key`. A key that is missing and a key with
/// a null value are the same: nothing is held.
pub open spec fn field(pairs: Seq<(YamlNode, YamlNode)>, key: Seq<char>) -> Option<YamlNode> {
    match field_from(pairs, key, 0) {
        Some(YamlNode::Null) => None,
        f => f,
    }
}

/// The node is one of the given keys.
pub open spec fn is_known_key(n: YamlNode, known: Seq<Seq<char>>) -> bool {
    exists|j: int| 0 <= j < known.len() && is_key(n, #[trigger] known[j])
}

/// The pairs of a mapping all of whose keys are among `known`; `None` for
/// any other node.
pub open spec fn mapping_of(n: YamlNode, known: Seq<Seq<char>>) -> Option<
    Seq<(YamlNode, YamlNode)>,
> {
    match n {
        YamlNode::Dict(pairs) => if forall|i: int|
            0 <= i < pairs@.len() ==> is_known_key((#[trigger] pairs@[i]).0, known) {
            Some(pairs@)
        } else {
            None
        },
        _ => None,
    }
}

/// The field holds a text, and `s` is that text.
pub open spec fn text_decodes(f: Option<YamlNode>, s: String) -> bool {
    match f {
        Some(YamlNode::Text(t)) => t@ == s@,
        _ => false,
    }
}

/// The field holds nothing and `s` is absent, or it holds the text of `s`.
pub open spec fn opt_text_decodes(f: Option<YamlNode>, s: Option<String>) -> bool {
    match f {
        None => s is None,
        Some(YamlNode::Text(t)) => match s {
            Some(x) => x@ == t@,
            None => false,
        },
        _ => false,
    }
}

/// The field holds nothing and `b` is absent, or it holds the boolean of `b`.
pub open spec fn opt_bool_decodes(f: Option<YamlNode>, b: Option<bool>) -> bool {
    match f {
        None => b is None,
        Some(YamlNode::Bool(x)) => b == Some(x),
        _ => false,
    }
}

/// Item by item, the nodes stand for the values.
pub open spec fn items_decode<T: YamlCodec>(items: Seq<YamlNode>, out: Seq<T>) -> bool {
    &&& items.len() == out.len()
    &&& forall|i: int| 0 <= i < items.len() ==> #[trigger] T::decodes(items[i], out[i])
}

/// The field holds a list whose items stand for the items of `out`.
pub open spec fn list_decodes<T: YamlCodec>(f: Option<YamlNode>, out: Vec<T>) -> bool {
    match f {
        Some(YamlNode::List(items)) => items_decode(items@, out@),
        _ => false,
    }
}

/// The field holds nothing and `out` is absent, or it holds a list that stands for `out`.
pub open spec fn opt_list_decodes<T: YamlCodec>(f: Option<YamlNode>, out: Option<Vec<T>>) -> bool {
    match f {
        None => out is None,
        Some(n) => match out {
            Some(v) => list_decodes(Some(n), v),
            None => false,
        },
    }
}

/// The field holds nothing and `out` is absent, or it holds a tree that stands for `out`.
pub open spec fn opt_decodes<T: YamlCodec>(f: Option<YamlNode>, out: Option<T>) -> bool {
    match f {
        None => out is None,
        Some(n) => match out {
            Some(d) => T::decodes(n, d),
            None => false,
        },
    }
}

/// The node behind an optional reference.
pub open spec fn pointee(f: Option<&YamlNode>) -> Option<YamlNode> {
    match f {
        Some(n) => Some(*n),
        None => None,
    }
}

/// The keys that a list of string slices names.
pub open spec fn keys_of(known: Seq<&'static str>) -> Seq<Seq<char>> {
    Seq::new(known.len(), |j: int| known[j]@)
}

/// Decides whether a node is one of the known keys.
pub fn is_among(n: &YamlNode, known: &Vec<&'static str>) -> (found: bool)
    ensures
        found == is_known_key(*n, keys_of(known@)),
{
    match n {
        YamlNode::Text(s) => {
            let mut j: usize = 0;
            while j < known.len()
                invariant
                    j <= known.len(),
                    forall|k: int| 0 <= k < j ==> !is_key(*n, #[trigger] keys_of(known@)[k]),
                    *n == YamlNode::Text(*s),
                decreases known.len() - j,
            {
                if str_equal(s.as_str(), known[j]) {
                    assert(is_key(*n, keys_of(known@)[j as int]));
                    return true;
                }
                j += 1;
            }
            false
        },
        _ => false,
    }
}

/// The pairs of a mapping whose keys are all known.
#[verifier::loop_isolation(false)]
pub fn as_mapping<'a>(n: &'a YamlNode, known: &Vec<&'static str>) -> (r: Option<
    &'a Vec<(YamlNode, YamlNode)>,
>)
    ensures
        match r {
            Some(p) => mapping_of(*n, keys_of(known@)) == Some(p@),
            None => mapping_of(*n, keys_of(known@)) is None,
        },
{
    match n {
        YamlNode::Dict(pairs) => {
            let mut i: usize = 0;
            while i < pairs.len()
                invariant
                    i <= pairs.len(),
                    forall|k: int|
                        0 <= k < i ==> is_known_key((#[trigger] pairs@[k]).0, keys_of(known@)),
                decreases pairs.len() - i,
            {
                if !is_among(&pairs[i].0, known) {
                    assert(!is_known_key(pairs@[i as int].0, keys_of(known@)));
                    return None;
                }
                i += 1;
            }
            Some(pairs)
        },
        _ => None,
    }
}

/// What a mapping holds under `key`.
pub fn find_field<'a>(pairs: &'a Vec<(YamlNode, YamlNode)>, key: &str) -> (r: Option<
    &'a YamlNode,
>)
    ensures
        pointee(r) == field(pairs@, key@),
{
    let mut i: usize = 0;
    while i < pairs.len()
        invariant
            i <= pairs.len(),
            field_from(pairs@, key@, 0) == field_from(pairs@, key@, i as int),
        decreases pairs.len() - i,
    {
        let hit: bool = match &pairs[i].0 {
            YamlNode::Text(s) => str_equal(s.as_str(), key),
            _ => false,
        };
        if hit {
            return match &pairs[i].1 {
                YamlNode::Null => None,
                _ => Some(&pairs[i].1),
            };
        }
        i += 1;
    }
    None
}

/// Reads a text that must be there.
pub fn decode_text(f: Option<&YamlNode>) -> (r: Result<String, String>)
    ensures
        match r {
            Ok(s) => text_decodes(pointee(f), s),
            Err(_) => forall|s: String| !text_decodes(pointee(f), s),
        },
{
    match f {
        Some(YamlNode::Text(t)) => Ok(t.clone()),
        _ => Err(String::from_str("a string is expected")),
    }
}

/// Reads a text that may be missing.
pub fn decode_opt_text(f: Option<&YamlNode>) -> (r: Result<Option<String>, String>)
    ensures
        match r {
            Ok(s) => opt_text_decodes(pointee(f), s),
            Err(_) => forall|s: Option<String>| !opt_text_decodes(pointee(f), s),
        },
{
    match f {
        None => Ok(None),
        Some(YamlNode::Text(t)) => Ok(Some(t.clone())),
        _ => Err(String::from_str("a string is expected")),
    }
}

/// Reads a boolean that may be missing.
pub fn decode_opt_bool(f: Option<&YamlNode>) -> (r: Result<Option<bool>, String>)
    ensures
        match r {
            Ok(b) => opt_bool_decodes(pointee(f), b),
            Err(_) => forall|b: Option<bool>| !opt_bool_decodes(pointee(f), b),
        },
{
    match f {
        None => Ok(None),
        Some(YamlNode::Bool(b)) => Ok(Some(*b)),
        _ => Err(String::from_str("a boolean is expected")),
    }
}

/// Reads a list that must be there, item by item; the first item that stands for no value
/// fails the list.
#[verifier::loop_isolation(false)]
pub fn decode_list<T: YamlCodec>(f: Option<&YamlNode>) -> (r: Result<Vec<T>, String>)
    ensures
        match r {
            Ok(v) => list_decodes(pointee(f), v),
            Err(_) => forall|v: Vec<T>| !list_decodes(pointee(f), v),
        },
{
    match f {
        Some(YamlNode::List(items)) => {
            let mut out: Vec<T> = Vec::new();
            let mut i: usize = 0;
            while i < items.len()
                invariant
                    i <= items.len(),
                    out@.len() == i,
                    forall|j: int| 0 <= j < i ==> #[trigger] T::decodes(items@[j], out@[j]),
                decreases items.len() - i,
            {
                match T::decode(&items[i]) {
                    Ok(d) => {
                        out.push(d);
                    },
                    Err(e) => {
                        proof {
                            assert forall|v: Vec<T>| !items_decode(items@, v@) by {
                                if items@.len() == v@.len() {
                                    assert(!T::decodes(items@[i as int], v@[i as int]));
                                }
                            }
                        }
                        return Err(e);
                    },
                }
                i += 1;
            }
            Ok(out)
        },
        _ => Err(String::from_str("a list is expected")),
    }
}

/// Reads a list that may be missing.
pub fn decode_opt_list<T: YamlCodec>(f: Option<&YamlNode>) -> (r: Result<Option<Vec<T>>, String>)
    ensures
        match r {
            Ok(v) => opt_list_decodes(pointee(f), v),
            Err(_) => forall|v: Option<Vec<T>>| !opt_list_decodes(pointee(f), v),
        },
{
    match f {
        None => Ok(None),
        Some(_) => match decode_list(f) {
            Ok(v) => Ok(Some(v)),
            Err(e) => Err(e),
        },
    }
}

/// Reads a value that may be missing.
pub fn decode_opt<T: YamlCodec>(f: Option<&YamlNode>) -> (r: Result<Option<T>, String>)
    ensures
        match r {
            Ok(d) => opt_decodes(pointee(f), d),
            Err(_) => forall|d: Option<T>| !opt_decodes(pointee(f), d),
        },
{
    match f {
        None => Ok(None),
        Some(n) => match T::decode(n) {
            Ok(d) => Ok(Some(d)),
            Err(e) => Err(e),
        },
    }
}

/// A value as a mapping holds it: a null stands for nothing.
pub open spec fn present(n: YamlNode) -> Option<YamlNode> {
    match n {
        YamlNode::Null => None,
        _ => Some(n),
    }
}

/// A node that holds the given text.
pub fn text_node(s: &str) -> (n: YamlNode)
    ensures
        is_key(n, s@),
        is_writable(n),
        n != YamlNode::Null,
{
    YamlNode::Text(String::from_str(s))
}

/// Writes a boolean that may be absent; an absent one is written as null.
pub fn encode_bool(b: &Option<bool>) -> (n: YamlNode)
    ensures
        opt_bool_decodes(present(n), *b),
        is_writable(n),
{
    match b {
        Some(x) => YamlNode::Bool(*x),
        None => YamlNode::Null,
    }
}

/// Writes a text that may be absent; an absent one is written as null.
pub fn encode_opt_text(s: &Option<String>) -> (n: YamlNode)
    ensures
        opt_text_decodes(present(n), *s),
        is_writable(n),
{
    match s {
        Some(x) => YamlNode::Text(x.clone()),
        None => YamlNode::Null,
    }
}

/// Writes a list, item by item.
pub fn encode_list<T: YamlCodec>(v: &Vec<T>) -> (n: YamlNode)
    ensures
        list_decodes(Some(n), *v),
        is_writable(n),
        n != YamlNode::Null,
{
    let mut items: Vec<YamlNode> = Vec::new();
    let mut i: usize = 0;
    while i < v.len()
        invariant
            i <= v.len(),
            items@.len() == i,
            forall|j: int| 0 <= j < i ==> #[trigger] T::decodes(items@[j], v@[j]),
            forall|j: int| 0 <= j < i ==> is_writable(#[trigger] items@[j]),
        decreases v.len() - i,
    {
        items.push(v[i].encode());
        i += 1;
    }
    YamlNode::List(items)
}

/// Writes a list that may be absent; an absent one is written as null.
pub fn encode_opt_list<T: YamlCodec>(v: &Option<Vec<T>>) -> (n: YamlNode)
    ensures
        opt_list_decodes(present(n), *v),
        is_writable(n),
{
    match v {
        Some(items) => encode_list(items),
        None => YamlNode::Null,
    }
}

/// The search from `from` finds the value at `k` where no key before `k` matches.
proof fn lemma_field_found(pairs: Seq<(YamlNode, YamlNode)>, key: Seq<char>, from: int, k: int)
    requires
        0 <= from <= k < pairs.len(),
        is_key(pairs[k].0, key),
        forall|j: int| from <= j < k ==> !is_key(pairs[j].0, key),
    ensures
        field_from(pairs, key, from) == Some(pairs[k].1),
    decreases k - from,
{
    if from < k {
        lemma_field_found(pairs, key, from + 1, k);
    }
}

/// The search from `from` finds nothing where no key matches.
proof fn lemma_field_missing(pairs: Seq<(YamlNode, YamlNode)>, key: Seq<char>, from: int)
    requires
        0 <= from,
        forall|j: int| from <= j < pairs.len() ==> !is_key(pairs[j].0, key),
    ensures
        field_from(pairs, key, from) is None,
    decreases pairs.len() - from,
{
    if from < pairs.len() {
        lemma_field_missing(pairs, key, from + 1);
    }
}

/// Pairs written under distinct keys hold each value under its key, and
/// nothing under any other key.
pub proof fn lemma_mapping(
    pairs: Seq<(YamlNode, YamlNode)>,
    keys: Seq<Seq<char>>,
    known: Seq<Seq<char>>,
)
    requires
        pairs.len() == keys.len(),
        forall|i: int| 0 <= i < pairs.len() ==> is_key(pairs[i].0, keys[i]),
        forall|i: int, j: int| 0 <= i < j < keys.len() ==> keys[i] != keys[j],
        forall|i: int| 0 <= i < keys.len() ==> known.contains(keys[i]),
    ensures
        forall|i: int| 0 <= i < pairs.len() ==> is_known_key((#[trigger] pairs[i]).0, known),
        forall|i: int|
            0 <= i < pairs.len() ==> field(pairs, #[trigger] keys[i]) == present(pairs[i].1),
        forall|k: Seq<char>| !keys.contains(k) ==> (#[trigger] field(pairs, k)) is None,
{
    assert forall|i: int| 0 <= i < pairs.len() implies is_known_key(
        (#[trigger] pairs[i]).0,
        known,
    ) by {
        let j = choose|j: int| 0 <= j < known.len() && known[j] == keys[i];
        assert(is_key(pairs[i].0, known[j]));
    }
    assert forall|i: int| 0 <= i < pairs.len() implies field(pairs, #[trigger] keys[i])
        == present(pairs[i].1) by {
        assert forall|j: int| 0 <= j < i implies !is_key(pairs[j].0, keys[i]) by {
            assert(is_key(pairs[j].0, keys[j]));
        }
        lemma_field_found(pairs, keys[i], 0, i);
    }
    assert forall|k: Seq<char>| !keys.contains(k) implies (#[trigger] field(pairs, k)) is None by {
        assert forall|j: int| 0 <= j < pairs.len() implies !is_key(pairs[j].0, k) by {
            assert(is_key(pairs[j].0, keys[j]));
            assert(keys[j] != k);
        }
        lemma_field_missing(pairs, k, 0);
    }
}

/// A mapping built from plain pairs under distinct keys, all of them known.
pub proof fn lemma_dict(n: YamlNode, keys: Seq<Seq<char>>, known: Seq<Seq<char>>)
    requires
        n is Dict,
        n->Dict_0@.len() == keys.len(),
        forall|i: int| 0 <= i < keys.len() ==> is_key(n->Dict_0@[i].0, keys[i]),
        forall|i: int| 0 <= i < keys.len() ==> is_writable(n->Dict_0@[i].1),
        forall|i: int, j: int| 0 <= i < j < keys.len() ==> keys[i] != keys[j],
        forall|i: int| 0 <= i < keys.len() ==> known.contains(keys[i]),
    ensures
        is_writable(n),
        mapping_of(n, known) == Some(n->Dict_0@),
        forall|i: int|
            0 <= i < keys.len() ==> field(n->Dict_0@, #[trigger] keys[i]) == present(
                n->Dict_0@[i].1,
            ),
        forall|k: Seq<char>| !keys.contains(k) ==> (#[trigger] field(n->Dict_0@, k)) is None,
{
    let pairs = n->Dict_0@;
    lemma_mapping(pairs, keys, known);
    assert forall|i: int| 0 <= i < pairs.len() implies (#[trigger] pairs[i]).0 is Text
        && is_writable(pairs[i].1) by {
        assert(is_key(pairs[i].0, keys[i]));
    }
    assert forall|i: int, j: int| 0 <= i < j < pairs.len() implies pairs[i].0->Text_0@
        != pairs[j].0->Text_0@ by {
        assert(is_key(pairs[i].0, keys[i]));
        assert(is_key(pairs[j].0, keys[j]));
    }
}

/// The field holds a tree that stands for `out`.
pub open spec fn required_decodes<T: YamlCodec>(f: Option<YamlNode>, out: T) -> bool {
    match f {
        Some(n) => T::decodes(n, out),
        None => false,
    }
}

/// Reads a value that must be there.
pub fn decode_required<T: YamlCodec>(f: Option<&YamlNode>) -> (r: Result<T, String>)
    ensures
        match r {
            Ok(d) => required_decodes(pointee(f), d),
            Err(_) => forall|d: T| !required_decodes(pointee(f), d),
        },
{
    match f {
        None => Err(String::from_str("a required key is missing")),
        Some(n) => T::decode(n),
    }
}

/// Writes a value that may be absent; an absent one is written as null.
pub fn encode_opt<T: YamlCodec>(v: &Option<T>) -> (n: YamlNode)
    ensures
        opt_decodes(present(n), *v),
        is_writable(n),
{
    match v {
        Some(d) => d.encode(),
        None => YamlNode::Null,
    }
}

/// Item by item, two lists hold the same content.
pub open spec fn same_items<T: YamlCodec>(a: Seq<T>, b: Seq<T>) -> bool {
    &&& a.len() == b.len()
    &&& forall|i: int| 0 <= i < a.len() ==> #[trigger] T::same(a[i], b[i])
}

/// Two lists hold the same content.
pub open spec fn same_list<T: YamlCodec>(a: Vec<T>, b: Vec<T>) -> bool {
    same_items(a@, b@)
}

/// Two optional lists are both absent, or hold the same content.
pub open spec fn same_opt_list<T: YamlCodec>(a: Option<Vec<T>>, b: Option<Vec<T>>) -> bool {
    match (a, b) {
        (None, None) => true,
        (Some(x), Some(y)) => same_items(x@, y@),
        _ => false,
    }
}

/// Two optional values are both absent, or hold the same content.
pub open spec fn same_opt<T: YamlCodec>(a: Option<T>, b: Option<T>) -> bool {
    match (a, b) {
        (None, None) => true,
        (Some(x), Some(y)) => T::same(x, y),
        _ => false,
    }
}

/// Two strings hold the same characters.
pub open spec fn same_text(a: String, b: String) -> bool {
    a@ == b@
}

/// Two optional strings are both absent, or hold the same characters.
pub open spec fn same_opt_text(a: Option<String>, b: Option<String>) -> bool {
    match (a, b) {
        (None, None) => true,
        (Some(x), Some(y)) => x@ == y@,
        _ => false,
    }
}

/// A list of trees stands for one list of values only.
pub proof fn lemma_one_list<T: YamlCodec>(f: Option<YamlNode>, a: Vec<T>, b: Vec<T>)
    requires
        list_decodes(f, a),
        list_decodes(f, b),
    ensures
        same_list(a, b),
{
    let items = f->Some_0->List_0@;
    assert forall|i: int| 0 <= i < a@.len() implies #[trigger] T::same(a@[i], b@[i]) by {
        assert(T::decodes(items[i], a@[i]));
        assert(T::decodes(items[i], b@[i]));
        T::lemma_one_value(items[i], a@[i], b@[i]);
    }
}

/// A field stands for one optional list only.
pub proof fn lemma_one_opt_list<T: YamlCodec>(
    f: Option<YamlNode>,
    a: Option<Vec<T>>,
    b: Option<Vec<T>>,
)
    requires
        opt_list_decodes(f, a),
        opt_list_decodes(f, b),
    ensures
        same_opt_list(a, b),
{
    if f is Some {
        lemma_one_list(f, a->Some_0, b->Some_0);
    }
}

/// A field stands for one optional value only.
pub proof fn lemma_one_opt<T: YamlCodec>(f: Option<YamlNode>, a: Option<T>, b: Option<T>)
    requires
        opt_decodes(f, a),
        opt_decodes(f, b),
    ensures
        same_opt(a, b),
{
    if f is Some {
        T::lemma_one_value(f->Some_0, a->Some_0, b->Some_0);
    }
}

/// A field stands for one required value only.
pub proof fn lemma_one_required<T: YamlCodec>(f: Option<YamlNode>, a: T, b: T)
    requires
        required_decodes(f, a),
        required_decodes(f, b),
    ensures
        T::same(a, b),
{
    T::lemma_one_value(f->Some_0, a, b);
}

} // verus!
