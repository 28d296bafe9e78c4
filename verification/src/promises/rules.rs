//! How the rule for the answer is read.
use vstd::prelude::*;

use crate::config::ConfigView;
use crate::json::JsonView;
use crate::response::{
    lemma_json_rule, response_rule, rule_path, takes_whole_text, url_at, url_in_answer,
};
use crate::text::{begins_with, trim_end, trim_start, trimmed, white_space};

verus! {

/// The rule is the one in the settings without the white space around it; without one it
/// is `text`. The whole answer is the link by the rule `text` and by an empty rule, and
/// by no other.
pub proof fn lemma_rule_in_force(cfg: ConfigView, rule: Seq<char>)
    ensures
        cfg.response is None ==> response_rule(cfg) == "text"@,
        cfg.response == Some(rule) ==> response_rule(cfg) == trimmed(rule),
        takes_whole_text(rule) <==> rule == "text"@ || rule.len() == 0,
{
    reveal_strlit("text");
    let t = "text"@;
    assert(!white_space(t[0]) && !white_space(t.last()));
    assert(trim_start(t) == t);
    assert(trim_end(t) == t);
}

/// By a rule for the whole answer the link is the answer without the white space around
/// it, whatever the answer is. By any other rule an answer that is not JSON has no link,
/// and of one that is JSON the link stands at the path that the rule names: what follows
/// `json.`, no path for `json`, and any other rule without brackets as it is.
#[verifier::spinoff_prover]
pub proof fn lemma_link_by_rule(
    rule: Seq<char>,
    text: Seq<char>,
    parsed: Option<JsonView>,
    j: JsonView,
    path: Seq<char>,
)
    ensures
        url_in_answer("text"@, text, parsed) == Some(trimmed(text)),
        url_in_answer(Seq::empty(), text, parsed) == Some(trimmed(text)),
        rule.len() > 0 && rule != "text"@ ==> url_in_answer(rule, text, None) is None,
        rule.len() > 0 && rule != "text"@ ==> url_in_answer(rule, text, Some(j)) == url_at(
            j,
            rule_path(rule),
        ),
        url_in_answer("json."@ + path, text, Some(j)) == url_at(j, path),
        url_in_answer("json"@, text, Some(j)) == url_at(j, Seq::empty()),
        rule.len() > 0 && rule != "text"@ && rule != "json"@ && (rule.len() < 5 || rule.take(5)
            != "json."@) && !rule.contains('[') && !rule.contains(']')
            ==> url_in_answer(rule, text, Some(j)) == url_at(j, rule),
{
    reveal_strlit("text");
    reveal_strlit("json");
    reveal_strlit("json.");
    lemma_json_rule(path, text, j);
    assert("json"@.len() == 4 && "json."@.len() == 5);
    assert("json"@ != "text"@) by {
        assert("json"@[0] == 'j' && "text"@[0] == 't');
    }
    if rule.len() > 0 && !rule.contains('[') && !rule.contains(']') {
        lemma_filter_of_all(rule, '[');
        lemma_filter_of_all(rule, ']');
    }
}

/// The path in a rule is what follows `json.`, nothing for `json`, and any other rule as it
/// is, but for its brackets.
pub proof fn lemma_path_in_a_rule(rule: Seq<char>, path: Seq<char>)
    ensures
        rule_path("json."@ + path) == path,
        rule_path("json"@) == Seq::<char>::empty(),
        rule != "json"@ && (rule.len() < 5 || rule.take(5) != "json."@) ==> rule_path(rule)
            == rule.filter(|c: char| c != '[').filter(|c: char| c != ']'),
        rule != "json"@ && (rule.len() < 5 || rule.take(5) != "json."@) && !rule.contains('[')
            && !rule.contains(']') ==> rule_path(rule) == rule,
{
    reveal_strlit("json");
    reveal_strlit("json.");
    let full = "json."@ + path;
    assert(full.take(5) =~= "json."@);
    assert(full.skip(5) =~= path);
    if !rule.contains('[') && !rule.contains(']') {
        lemma_filter_of_all(rule, '[');
        lemma_filter_of_all(rule, ']');
    }
}

/// Dropping a character from a text that does not hold it changes nothing.
proof fn lemma_filter_of_all(s: Seq<char>, c: char)
    requires
        !s.contains(c),
    ensures
        s.filter(|x: char| x != c) == s,
    decreases s.len(),
{
    reveal(Seq::filter);
    if s.len() > 0 {
        let head = s.drop_last();
        assert(s[s.len() - 1] != c);
        assert forall|k: int| 0 <= k < head.len() implies head[k] != c by {
            assert(s[k] == head[k]);
        }
        lemma_filter_of_all(head, c);
        assert(head.push(s.last()) =~= s);
    } else {
        assert(s.filter(|x: char| x != c) =~= s);
    }
}

/// Dropping a character from a text drops it from both sides of any place, and at the
/// place itself.
proof fn lemma_filter_around(a: Seq<char>, x: char, b: Seq<char>, c: char)
    ensures
        (a + b).filter(|k: char| k != c) == a.filter(|k: char| k != c) + b.filter(
            |k: char| k != c,
        ),
        x == c ==> (a + seq![x] + b).filter(|k: char| k != c) == a.filter(|k: char| k != c)
            + b.filter(|k: char| k != c),
        x != c ==> (a + seq![x] + b).filter(|k: char| k != c) == a.filter(|k: char| k != c)
            + seq![x] + b.filter(|k: char| k != c),
{
    let keep = |k: char| k != c;
    Seq::filter_distributes_over_add(a, b, keep);
    Seq::filter_distributes_over_add(a + seq![x], b, keep);
    Seq::filter_distributes_over_add(a, seq![x], keep);
    assert(seq![x].filter(keep) =~= (if x == c {
        Seq::<char>::empty()
    } else {
        seq![x]
    })) by {
        reveal(Seq::filter);
        let none = seq![x].drop_last();
        assert(none =~= Seq::<char>::empty());
        assert(none.filter(keep) =~= Seq::<char>::empty());
    }
    assert(a.filter(keep) + Seq::<char>::empty() =~= a.filter(keep));
}

/// A bracket in a rule that does not begin with `json` might as well not be there: the
/// rule with it and the rule without it give the same link.
#[verifier::spinoff_prover]
pub proof fn lemma_brackets_do_not_matter(
    a: Seq<char>,
    bracket: char,
    b: Seq<char>,
    text: Seq<char>,
    j: JsonView,
)
    requires
        bracket == '[' || bracket == ']',
        (a + b).len() > 0,
        (a + b)[0] != 'j',
        a + b != "text"@,
    ensures
        url_in_answer(a + seq![bracket] + b, text, Some(j)) == url_in_answer(a + b, text, Some(j)),
{
    let with = a + seq![bracket] + b;
    let bare = a + b;
    reveal_strlit("text");
    reveal_strlit("json");
    reveal_strlit("json.");
    assert(with[0] != 'j') by {
        if a.len() > 0 {
            assert(with[0] == a[0] && bare[0] == a[0]);
        } else {
            assert(with[0] == bracket);
        }
    }
    assert(with != "text"@) by {
        assert(with[a.len() as int] == bracket);
        if with == "text"@ {
            assert("text"@[a.len() as int] == bracket);
        }
    }
    assert(!begins_with(with, "json."@)) by {
        if begins_with(with, "json."@) {
            assert(with.take(5)[0] == with[0]);
        }
    }
    assert(!begins_with(bare, "json."@)) by {
        if begins_with(bare, "json."@) {
            assert(bare.take(5)[0] == bare[0]);
        }
    }
    assert("json"@[0] == 'j');
    let x = a.filter(|c: char| c != '[');
    let y = b.filter(|c: char| c != '[');
    lemma_filter_around(a, bracket, b, '[');
    lemma_filter_around(x, bracket, y, ']');
    assert(rule_path(with) == rule_path(bare));
}

} // verus!
