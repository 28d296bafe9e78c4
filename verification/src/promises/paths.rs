//! Finding a value in a JSON answer.
use vstd::prelude::*;

use crate::digits::parsed_usize;
use crate::json::{at_index, at_key, is_array, member, text_value, JsonView, NodeView};
use crate::response::{lemma_dotted_path, step, url_at, walk};
use crate::text::{lemma_split_single, split_on};

verus! {

/// The first member of a name: it holds that name, and none before it does.
proof fn lemma_member(fields: Seq<(Seq<char>, JsonView)>, key: Seq<char>)
    ensures
        match member(fields, key) {
            Some(v) => exists|i: int|
                0 <= i < fields.len() && (#[trigger] fields[i]) == (key, v) && forall|k: int|
                    0 <= k < i ==> (#[trigger] fields[k]).0 != key,
            None => forall|k: int| 0 <= k < fields.len() ==> (#[trigger] fields[k]).0 != key,
        },
    decreases fields.len(),
{
    if fields.len() > 0 {
        if fields[0].0 == key {
            assert(fields[0] == (key, fields[0].1));
        } else {
            let rest = fields.drop_first();
            lemma_member(rest, key);
            match member(rest, key) {
                Some(v) => {
                    let i = choose|i: int|
                        0 <= i < rest.len() && (#[trigger] rest[i]) == (key, v) && forall|k: int|
                            0 <= k < i ==> (#[trigger] rest[k]).0 != key;
                    assert(fields[i + 1] == (key, v));
                    assert forall|k: int| 0 <= k < i + 1 implies (#[trigger] fields[k]).0 != key by {
                        if k > 0 {
                            assert(rest[k - 1] == fields[k]);
                        }
                    }
                },
                None => {
                    assert forall|k: int| 0 <= k < fields.len() implies (#[trigger] fields[k]).0
                        != key by {
                        if k > 0 {
                            assert(rest[k - 1] == fields[k]);
                        }
                    }
                },
            }
        }
    }
}

/// A member is found in an object that has one of that name, and nowhere else; the first
/// of that name is the one.
pub proof fn lemma_finding_a_member(j: JsonView, key: Seq<char>)
    ensures
        !(j.node is Object) ==> at_key(j, key) is None,
        j.node matches NodeView::Object(fields) ==> (match at_key(j, key) {
            Some(v) => exists|i: int|
                0 <= i < fields.len() && (#[trigger] fields[i]) == (key, v) && forall|k: int|
                    0 <= k < i ==> (#[trigger] fields[k]).0 != key,
            None => forall|k: int| 0 <= k < fields.len() ==> (#[trigger] fields[k]).0 != key,
        }),
{
    if let NodeView::Object(fields) = j.node {
        lemma_member(fields, key);
    }
}

/// An element is found in an array that reaches so far, and nowhere else.
pub proof fn lemma_finding_an_element(j: JsonView, i: int)
    ensures
        is_array(j) <==> j.node is Array,
        !(j.node is Array) ==> at_index(j, i) is None,
        j.node matches NodeView::Array(items) ==> at_index(j, i) == (if 0 <= i < items.len() {
            Some(items[i])
        } else {
            None
        }),
{
}

/// A string is its own text, and every other value is told as it is rendered.
pub proof fn lemma_text_of_a_value(j: JsonView)
    ensures
        j.node matches NodeView::Str(s) ==> text_value(j) == s,
        !(j.node is Str) ==> text_value(j) == j.text,
{
}

/// One step: nothing stays where it is, a number takes that element and nothing else, a
/// name takes that member, and of an array it takes that member of the first element.
pub proof fn lemma_one_step(j: JsonView, seg: Seq<char>, first: JsonView)
    ensures
        seg.len() == 0 ==> step(j, seg) == Some(j),
        seg.len() > 0 && parsed_usize(seg) is Some ==> step(j, seg) == at_index(
            j,
            parsed_usize(seg)->0 as int,
        ),
        seg.len() > 0 && parsed_usize(seg) is None && !(j.node is Array) ==> step(j, seg) == at_key(
            j,
            seg,
        ),
        seg.len() > 0 && parsed_usize(seg) is None && (j.node matches NodeView::Array(items) && items.len() == 0)
            ==> step(j, seg) is None,
        seg.len() > 0 && parsed_usize(seg) is None && at_index(j, 0) == Some(first) ==> step(j, seg)
            == at_key(first, seg),
{
}

/// A path of one segment is one step, and a dotted path goes on from where its first
/// part ends. A path that is there gives the text of the value at its end.
pub proof fn lemma_paths(j: JsonView, first: Seq<char>, second: Seq<char>)
    requires
        !first.contains('.'),
    ensures
        walk(j, split_on(first, '.')) == step(j, first),
        walk(j, split_on(first.push('.') + second, '.')) == (match step(j, first) {
            Some(here) => walk(here, split_on(second, '.')),
            None => None,
        }),
        ({
            let path = first.push('.') + second;
            url_at(j, path) == (match walk(j, split_on(path, '.')) {
                Some(end) => Some(text_value(end)),
                None => None,
            })
        }),
        first.len() > 0 ==> url_at(j, first) == (match step(j, first) {
            Some(end) => Some(text_value(end)),
            None => None,
        }),
{
    lemma_split_single(first, '.');
    let segs = split_on(first, '.');
    assert(segs =~= seq![first]);
    assert(segs.drop_last() =~= Seq::<Seq<char>>::empty());
    assert(walk(j, segs.drop_last()) == Some(j));
    lemma_dotted_path(j, first, second);
}

/// Without a path the answer itself is the link, or the first element of an array; an
/// empty array has none.
pub proof fn lemma_no_path(j: JsonView, first: JsonView)
    ensures
        !(j.node is Array) ==> url_at(j, Seq::empty()) == Some(text_value(j)),
        at_index(j, 0) == Some(first) ==> url_at(j, Seq::empty()) == Some(text_value(first)),
        (j.node matches NodeView::Array(items) && items.len() == 0) ==> url_at(j, Seq::empty()) is None,
{
    let e = Seq::<char>::empty();
    lemma_split_single(e, '.');
    assert(split_on(e, '.') =~= seq![e]);
    assert(split_on(e, '.').drop_last() =~= Seq::<Seq<char>>::empty());
    assert(walk(j, split_on(e, '.').drop_last()) == Some(j));
}

} // verus!
