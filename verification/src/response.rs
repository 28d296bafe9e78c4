//! What a server's answer to an upload means.
use vstd::prelude::*;

use crate::config::{maybe_text, text_or, Config, ConfigView};
use crate::digits::{
    decimal, is_digit, lemma_decimal_reads_back, lemma_usize_round_trip, parse_usize, parsed_usize,
};
use crate::json::{
    at_index, at_key, found, is_array, maybe_json, parse_json, parsed_json, text_value, Json, JsonView, Node,
    NodeView,
};
use crate::text::{
    begins_with, lemma_split_append, lemma_split_single, same_text, split, split_on, strip_prefix,
    texts, trim, trim_end, trim_start, trimmed, white_space, without,
};

verus! {

/// The rule by which the link is read from an answer.
pub open spec fn response_rule(cfg: ConfigView) -> Seq<char> {
    trimmed(text_or(cfg.response, "text"@))
}

/// Whether the rule takes the whole answer as the link.
pub open spec fn takes_whole_text(rule: Seq<char>) -> bool {
    rule == "text"@ || rule.len() == 0
}

/// The path that a rule names: what follows `json.`, nothing for `json` alone, and
/// otherwise the rule without square brackets.
pub open spec fn rule_path(rule: Seq<char>) -> Seq<char> {
    if begins_with(rule, "json."@) {
        rule.skip(5)
    } else if rule == "json"@ {
        Seq::empty()
    } else {
        rule.filter(|c: char| c != '[').filter(|c: char| c != ']')
    }
}

/// One step of a path: an empty segment stays, a number takes that element of an
/// array, and a name takes that member of an object, or of the first element
/// where it meets an array.
pub open spec fn step(j: JsonView, seg: Seq<char>) -> Option<JsonView> {
    if seg.len() == 0 {
        Some(j)
    } else if parsed_usize(seg) is Some {
        at_index(j, parsed_usize(seg)->0 as int)
    } else if is_array(j) {
        match at_index(j, 0) {
            Some(first) => at_key(first, seg),
            None => None,
        }
    } else {
        at_key(j, seg)
    }
}

/// The value that a path leads to, one segment after the other.
pub open spec fn walk(j: JsonView, segs: Seq<Seq<char>>) -> Option<JsonView>
    decreases segs.len(),
{
    if segs.len() == 0 {
        Some(j)
    } else {
        match walk(j, segs.drop_last()) {
            Some(here) => step(here, segs.last()),
            None => None,
        }
    }
}

/// The link at a path of a JSON answer; an empty path takes the answer itself, or
/// its first element where it is an array.
pub open spec fn url_at(j: JsonView, path: Seq<char>) -> Option<Seq<char>> {
    match walk(j, split_on(path, '.')) {
        Some(end) => if path.len() == 0 && is_array(end) {
            match at_index(end, 0) {
                Some(first) => Some(text_value(first)),
                None => None,
            }
        } else {
            Some(text_value(end))
        },
        None => None,
    }
}

/// The link in an answer, given what the answer is as JSON.
pub open spec fn url_in_answer(
    rule: Seq<char>,
    text: Seq<char>,
    parsed: Option<JsonView>,
) -> Option<Seq<char>> {
    if takes_whole_text(rule) {
        Some(trimmed(text))
    } else {
        match parsed {
            Some(j) => url_at(j, rule_path(rule)),
            None => None,
        }
    }
}

/// Reads the path that a rule names.
pub fn path_of_rule(rule: &str) -> (r: String)
    ensures
        r@ == rule_path(rule@),
{
    proof {
        reveal_strlit("json.");
        reveal_strlit("json");
    }
    match strip_prefix(rule, "json.") {
        Some(rest) => rest,
        None => {
            if same_text(rule, "json") {
                String::new()
            } else {
                let open = without(rule, '[');
                without(open.as_str(), ']')
            }
        },
    }
}

/// Takes one step of a path.
fn step_into<'a>(cur: &'a Json, seg: &str) -> (r: Option<&'a Json>)
    ensures
        found(r) == step(cur@, seg@),
{
    if seg.is_empty() {
        return Some(cur);
    }
    match parse_usize(seg) {
        Some(idx) => cur.get_index(idx),
        None => {
            if cur.is_array() {
                match cur.get_index(0) {
                    Some(first) => first.get_key(seg),
                    None => None,
                }
            } else {
                cur.get_key(seg)
            }
        },
    }
}

/// Reads the link at a path of a JSON answer.
pub fn url_from_json(json: &Json, path: &str) -> (r: Option<String>)
    ensures
        maybe_text(r) == url_at(json@, path@),
{
    let segs = split(path, '.');
    let ghost all = texts(segs@);
    let mut cur: &Json = json;
    let mut i: usize = 0;
    assert(all.take(0) =~= Seq::<Seq<char>>::empty());
    while i < segs.len()
        invariant
            i <= segs.len(),
            all == texts(segs@),
            all == split_on(path@, '.'),
            walk(json@, all.take(i as int)) == Some(cur@),
        decreases segs.len() - i,
    {
        assert(all.take(i + 1).drop_last() =~= all.take(i as int));
        assert(all.take(i + 1).last() == segs@[i as int]@);
        match step_into(cur, segs[i].as_str()) {
            Some(next) => {
                cur = next;
            },
            None => {
                proof {
                    assert(walk(json@, all.take(i + 1)) is None);
                    lemma_walk_stays_lost(json@, all, i + 1);
                }
                return None;
            },
        }
        i += 1;
    }
    assert(all.take(i as int) =~= all);
    if path.is_empty() && cur.is_array() {
        match cur.get_index(0) {
            Some(first) => Some(first.as_text()),
            None => None,
        }
    } else {
        Some(cur.as_text())
    }
}

/// A path that leads nowhere leads nowhere however it goes on.
proof fn lemma_walk_stays_lost(j: JsonView, segs: Seq<Seq<char>>, k: int)
    requires
        0 <= k <= segs.len(),
        walk(j, segs.take(k)) is None,
    ensures
        walk(j, segs) is None,
    decreases segs.len() - k,
{
    if k == segs.len() {
        assert(segs.take(k) =~= segs);
    } else {
        assert(segs.take(k + 1).drop_last() =~= segs.take(k));
        lemma_walk_stays_lost(j, segs, k + 1);
    }
}

/// Following one path and then another is following the two as one.
pub proof fn lemma_walk_compose(j: JsonView, first: Seq<Seq<char>>, second: Seq<Seq<char>>)
    ensures
        walk(j, first + second) == (match walk(j, first) {
            Some(here) => walk(here, second),
            None => None,
        }),
    decreases second.len(),
{
    if second.len() == 0 {
        assert(first + second =~= first);
    } else {
        assert((first + second).drop_last() =~= first + second.drop_last());
        assert((first + second).last() == second.last());
        lemma_walk_compose(j, first, second.drop_last());
    }
}

/// Reads the rule by which the link is read from an answer.
fn rule_of(cfg: &Config) -> (r: String)
    ensures
        r@ == response_rule(cfg@),
{
    match &cfg.response {
        Some(s) => trim(s.as_str()),
        None => trim("text"),
    }
}

/// Reads the link in an answer, given what the answer is as JSON.
pub fn url_of_answer(cfg: &Config, text: &str, parsed: &Option<Json>) -> (r: Option<String>)
    ensures
        maybe_text(r) == url_in_answer(response_rule(cfg@), text@, maybe_json(*parsed)),
{
    let rule = rule_of(cfg);
    if rule.as_str().is_empty() || same_text(rule.as_str(), "text") {
        return Some(trim(text));
    }
    match parsed {
        Some(json) => {
            let path = path_of_rule(rule.as_str());
            url_from_json(json, path.as_str())
        },
        None => None,
    }
}

/// The link in an answer, where it has one. Without a rule, or by the rule `text`,
/// it is the whole answer without the white space around it; by any other rule it
/// stands at a path of the answer's JSON.
pub fn extract_url_from_response(cfg: &Config, text: &str) -> (r: Option<String>)
    ensures
        maybe_text(r) == url_in_answer(response_rule(cfg@), text@, parsed_json(text@)),
{
    url_of_answer(cfg, text, &parse_json(text))
}

/// The `src` of an answer: that of the object, or of the first element where the
/// answer is an array with one, and nothing where there is no such string.
pub open spec fn src_at(j: JsonView) -> Seq<char> {
    let root = match at_index(j, 0) {
        Some(first) => first,
        None => j,
    };
    match at_key(root, "src"@) {
        Some(v) => match v.node {
            NodeView::Str(s) => s,
            _ => Seq::empty(),
        },
        None => Seq::empty(),
    }
}

/// Reads the `src` of a JSON answer.
pub fn src_from_json(json: &Json) -> (r: String)
    ensures
        r@ == src_at(json@),
{
    let root = match json.get_index(0) {
        Some(first) => first,
        None => json,
    };
    match root.get_key("src") {
        Some(v) => match &v.node {
            Node::Str(s) => s.clone(),
            _ => String::new(),
        },
        None => String::new(),
    }
}

/// The `src` of an answer, given what the answer is as JSON.
pub open spec fn src_in_answer(parsed: Option<JsonView>) -> Seq<char> {
    match parsed {
        Some(j) => src_at(j),
        None => Seq::empty(),
    }
}

/// Reads the `src` of an answer, given what the answer is as JSON.
pub fn src_of_answer(parsed: &Option<Json>) -> (r: String)
    ensures
        r@ == src_in_answer(maybe_json(*parsed)),
{
    match parsed {
        Some(json) => src_from_json(json),
        None => String::new(),
    }
}

/// Reads the `src` of an answer; one that is not JSON has none.
pub fn extract_src_from_response(text: &str) -> (r: String)
    ensures
        r@ == src_in_answer(parsed_json(text@)),
{
    src_of_answer(&parse_json(text))
}

/// Why an upload did not succeed, and whether trying again may help.
pub struct UploadFailure {
    pub message: String,
    pub retryable: bool,
}

/// Whether a status code means success.
pub open spec fn is_success(status: u16) -> bool {
    200 <= status < 300
}

/// Whether a status code means a failure that may pass.
pub open spec fn is_temporary(status: u16) -> bool {
    status == 429 || 500 <= status < 600
}

/// The words that `StatusCode::canonical_reason` has for a code, or those that its
/// `Display` writes where it has none.
pub uninterp spec fn reason_phrase(status: u16) -> Seq<char>;

/// How a status code is written: its number, a space and its words.
pub open spec fn status_line(status: u16) -> Seq<char> {
    decimal(status as nat) + seq![' '] + reason_phrase(status)
}

/// Calls the `Display` of `reqwest::StatusCode`, which writes the number, a space
/// and the canonical words of the code.
#[verifier::external_body]
fn status_text(status: u16) -> (r: String)
    requires
        100 <= status <= 999,
    ensures
        r@ == decimal(status as nat) + seq![' '] + reason_phrase(status),
{
    reqwest::StatusCode::from_u16(status).unwrap().to_string()
}

/// What is said of an answer in which the rule finds no link.
pub open spec fn no_link_message(rule: Seq<char>, text: Seq<char>) -> Seq<char> {
    "响应解析失败: "@ + rule + " — "@ + trimmed(text)
}

/// What an answer means, given how its status code is written and what its text is as
/// JSON: the link and the `src`, or the failure. A success in which the rule finds no
/// link is a failure too, and not a passing one.
pub open spec fn meaning_of(
    cfg: ConfigView,
    status: u16,
    line: Seq<char>,
    text: Seq<char>,
    parsed: Option<JsonView>,
) -> Result<(Seq<char>, Seq<char>), (Seq<char>, bool)> {
    if is_success(status) {
        match url_in_answer(response_rule(cfg), text, parsed) {
            Some(u) => Ok((u, src_in_answer(parsed))),
            None => Err((no_link_message(response_rule(cfg), text), false)),
        }
    } else {
        Err(("请求失败: "@ + line + " — "@ + trimmed(text), is_temporary(status)))
    }
}

/// What an answer means: the link and the `src`, or the failure.
pub open spec fn answer_meaning(
    cfg: ConfigView,
    status: u16,
    text: Seq<char>,
    parsed: Option<JsonView>,
) -> Result<(Seq<char>, Seq<char>), (Seq<char>, bool)> {
    meaning_of(cfg, status, status_line(status), text, parsed)
}

/// The model of what an answer was taken for.
pub open spec fn outcome_model(
    r: Result<(String, String), UploadFailure>,
) -> Result<(Seq<char>, Seq<char>), (Seq<char>, bool)> {
    match r {
        Ok((url, src)) => Ok((url@, src@)),
        Err(f) => Err((f.message@, f.retryable)),
    }
}

/// Reads what an answer means, given how its status code is written and what its text
/// is as JSON. A failure may pass where the server was busy or at fault; an answer in
/// which the rule finds no link is a failure that does not.
pub fn read_answer(
    cfg: &Config,
    status: u16,
    line: &str,
    text: &str,
    parsed: &Option<Json>,
) -> (r: Result<(String, String), UploadFailure>)
    ensures
        outcome_model(r) == meaning_of(cfg@, status, line@, text@, maybe_json(*parsed)),
{
    if 200 <= status && status < 300 {
        match url_of_answer(cfg, text, parsed) {
            Some(u) => Ok((u, src_of_answer(parsed))),
            None => {
                let mut message = "响应解析失败: ".to_owned();
                message.append(rule_of(cfg).as_str());
                message.append(" — ");
                message.append(trim(text).as_str());
                Err(UploadFailure { message, retryable: false })
            },
        }
    } else {
        let mut message = "请求失败: ".to_owned();
        message.append(line);
        message.append(" — ");
        message.append(trim(text).as_str());
        Err(UploadFailure { message, retryable: status == 429 || (500 <= status && status < 600) })
    }
}

/// Reads what an answer means from its status code and its text.
pub fn parse_upload_response(cfg: &Config, status: u16, text: &str) -> (r: Result<
    (String, String),
    UploadFailure,
>)
    requires
        100 <= status <= 999,
    ensures
        outcome_model(r) == answer_meaning(cfg@, status, text@, parsed_json(text@)),
{
    read_answer(cfg, status, status_text(status).as_str(), text, &parse_json(text))
}

/// An upload succeeds exactly where the server accepts it and the rule finds a link.
/// Only a busy server and a server's own fault are worth another try; an answer in
/// which the rule finds no link and every other refusal are not.
pub proof fn lemma_retry_policy(
    cfg: ConfigView,
    status: u16,
    text: Seq<char>,
    parsed: Option<JsonView>,
)
    ensures
        answer_meaning(cfg, status, text, parsed) is Ok <==> (200 <= status <= 299
            && url_in_answer(response_rule(cfg), text, parsed) is Some),
        (answer_meaning(cfg, status, text, parsed) matches Err(f) && f.1) <==> (status == 429
            || 500 <= status <= 599),
{
}

/// An answer that is not JSON is a failure under every rule but that of the whole text:
/// it gives no link, and is not tried again by itself.
pub proof fn lemma_answer_that_is_not_json(cfg: ConfigView, status: u16, text: Seq<char>)
    requires
        !takes_whole_text(response_rule(cfg)),
        200 <= status <= 299,
    ensures
        answer_meaning(cfg, status, text, None) == Err::<(Seq<char>, Seq<char>), _>(
            (no_link_message(response_rule(cfg), text), false),
        ),
{
}

/// By a rule that names a member, the link is the string that the member holds.
pub proof fn lemma_member_rule(j: JsonView, key: Seq<char>, url: Seq<char>)
    requires
        key.len() > 0,
        !key.contains('.'),
        parsed_usize(key) is None,
        !is_array(j),
        at_key(j, key) matches Some(v) && v.node == NodeView::Str(url),
    ensures
        url_at(j, key) == Some(url),
{
    lemma_single_segment(j, key);
}

/// A dotted path goes to the end of its first part and on from there: the member of
/// a member, the member of an element.
pub proof fn lemma_dotted_path(j: JsonView, first: Seq<char>, second: Seq<char>)
    ensures
        walk(j, split_on(first.push('.') + second, '.')) == (match walk(j, split_on(first, '.')) {
            Some(here) => walk(here, split_on(second, '.')),
            None => None,
        }),
{
    lemma_split_append(first, second, '.');
    lemma_walk_compose(j, split_on(first, '.'), split_on(second, '.'));
}

/// By the rule `text`, and by no rule, the link is the answer without the white
/// space around it, whatever the answer is as JSON.
pub proof fn lemma_text_rule(cfg: ConfigView, text: Seq<char>, parsed: Option<JsonView>)
    requires
        cfg.response is None || cfg.response == Some("text"@),
    ensures
        url_in_answer(response_rule(cfg), text, parsed) == Some(trimmed(text)),
{
    reveal_strlit("text");
    let t = "text"@;
    assert(!white_space(t[0]) && !white_space(t.last()));
    assert(trim_start(t) == t);
    assert(trim_end(t) == t);
}

/// A rule that begins with `json.` reads the link at the path that follows.
pub proof fn lemma_json_rule(path: Seq<char>, text: Seq<char>, j: JsonView)
    ensures
        url_in_answer("json."@ + path, text, Some(j)) == url_at(j, path),
{
    reveal_strlit("json.");
    reveal_strlit("text");
    let rule = "json."@ + path;
    assert(rule.take(5) =~= "json."@);
    assert(rule.skip(5) =~= path);
    assert(rule[0] == 'j');
    assert("text"@[0] == 't');
}

/// By the rule `json.` and two names, the link is the string that the second name
/// holds in the object that the first name holds.
pub proof fn lemma_nested_rule(
    outer: Seq<char>,
    inner: Seq<char>,
    text: Seq<char>,
    j: JsonView,
    url: Seq<char>,
)
    requires
        outer.len() > 0,
        inner.len() > 0,
        !outer.contains('.'),
        !inner.contains('.'),
        parsed_usize(outer) is None,
        parsed_usize(inner) is None,
        !is_array(j),
        at_key(j, outer) matches Some(m) && !is_array(m) && (at_key(m, inner) matches Some(v)
            && v.node == NodeView::Str(url)),
    ensures
        url_in_answer("json."@ + (outer.push('.') + inner), text, Some(j)) == Some(url),
{
    let path = outer.push('.') + inner;
    lemma_json_rule(path, text, j);
    lemma_dotted_path(j, outer, inner);
    let m = at_key(j, outer)->0;
    lemma_single_segment(j, outer);
    lemma_single_segment(m, inner);
}

/// A path of one segment is one step.
proof fn lemma_single_segment(j: JsonView, seg: Seq<char>)
    requires
        !seg.contains('.'),
    ensures
        walk(j, split_on(seg, '.')) == step(j, seg),
{
    lemma_split_single(seg, '.');
    let segs = split_on(seg, '.');
    assert(segs =~= seq![seg]);
    assert(segs.drop_last() =~= Seq::<Seq<char>>::empty());
    assert(walk(j, segs.drop_last()) == Some(j));
}

/// By a rule such as `[0].url`, the link is the string that the name holds in that
/// element of the array.
pub proof fn lemma_element_rule(
    index: usize,
    key: Seq<char>,
    text: Seq<char>,
    j: JsonView,
    url: Seq<char>,
)
    requires
        key.len() > 0,
        !key.contains('.'),
        !key.contains('['),
        !key.contains(']'),
        parsed_usize(key) is None,
        at_index(j, index as int) matches Some(m) && !is_array(m) && (at_key(m, key) matches Some(
            v,
        ) && v.node == NodeView::Str(url)),
    ensures
        url_in_answer(
            seq!['['] + decimal(index as nat) + seq![']', '.'] + key,
            text,
            Some(j),
        ) == Some(url),
{
    let n = decimal(index as nat);
    let rule = seq!['['] + n + seq![']', '.'] + key;
    let no_open = |c: char| c != '[';
    let no_close = |c: char| c != ']';
    lemma_decimal_reads_back(index as nat);
    reveal_strlit("json.");
    reveal_strlit("json");
    reveal_strlit("text");
    assert(rule[0] == '[');
    assert("text"@[0] == 't' && "json"@[0] == 'j' && "json."@[0] == 'j');
    assert(!begins_with(rule, "json."@)) by {
        if begins_with(rule, "json."@) {
            assert(rule.take(5)[0] == rule[0]);
        }
    }
    assert(n.push('.') + key =~= n + seq!['.'] + key);
    assert(rule.filter(no_open) =~= n + seq![']', '.'] + key) by {
        Seq::filter_distributes_over_add(seq!['['] + n + seq![']', '.'], key, no_open);
        Seq::filter_distributes_over_add(seq!['['] + n, seq![']', '.'], no_open);
        Seq::filter_distributes_over_add(seq!['['], n, no_open);
        assert(forall|i: int| 0 <= i < n.len() ==> is_digit(#[trigger] n[i]));
        lemma_filter_keeps(n, no_open);
        lemma_filter_keeps(key, no_open);
        lemma_filter_keeps(seq![']', '.'], no_open);
        reveal_with_fuel(Seq::filter, 2);
        assert(seq!['['].drop_last() =~= Seq::<char>::empty());
    }
    assert((n + seq![']', '.'] + key).filter(no_close) =~= n + seq!['.'] + key) by {
        assert(n + seq![']', '.'] + key =~= n + seq![']'] + seq!['.'] + key);
        Seq::filter_distributes_over_add(n + seq![']'] + seq!['.'], key, no_close);
        Seq::filter_distributes_over_add(n + seq![']'], seq!['.'], no_close);
        Seq::filter_distributes_over_add(n, seq![']'], no_close);
        assert(forall|i: int| 0 <= i < n.len() ==> is_digit(#[trigger] n[i]));
        lemma_filter_keeps(n, no_close);
        lemma_filter_keeps(key, no_close);
        lemma_filter_keeps(seq!['.'], no_close);
        reveal_with_fuel(Seq::filter, 2);
        assert(seq![']'].drop_last() =~= Seq::<char>::empty());
    }
    assert(rule_path(rule) == n.push('.') + key);
    lemma_dotted_path(j, n, key);
    assert(!n.contains('.')) by {
        assert forall|i: int| 0 <= i < n.len() implies n[i] != '.' by {
            assert(is_digit(n[i]));
        }
    }
    lemma_usize_round_trip(index);
    lemma_single_segment(j, n);
    lemma_single_segment(at_index(j, index as int)->0, key);
}

/// Keeping what passes a test keeps a text all of whose characters pass it.
proof fn lemma_filter_keeps(s: Seq<char>, pred: spec_fn(char) -> bool)
    requires
        forall|i: int| 0 <= i < s.len() ==> pred(#[trigger] s[i]),
    ensures
        s.filter(pred) == s,
    decreases s.len(),
{
    reveal(Seq::filter);
    if s.len() > 0 {
        let head = s.drop_last();
        assert forall|i: int| 0 <= i < head.len() implies pred(#[trigger] head[i]) by {
            assert(head[i] == s[i]);
        }
        lemma_filter_keeps(head, pred);
        assert(pred(s[s.len() - 1]));
        assert(head.push(s.last()) =~= s);
    } else {
        assert(s.filter(pred) =~= s);
    }
}

} // verus!
