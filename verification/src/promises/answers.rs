//! What a server's answer is taken for.
use vstd::prelude::*;

use crate::config::{text_or, ConfigView};
use crate::digits::{decimal, parsed_usize};
use crate::json::{at_index, at_key, parsed_json, JsonView, NodeView};
use crate::promises::paths::lemma_paths;
use crate::promises::rules::lemma_rule_in_force;
use crate::response::{
    answer_meaning, lemma_element_rule, lemma_json_rule, lemma_nested_rule, meaning_of,
    reason_phrase, response_rule, src_at, src_in_answer, url_in_answer,
};
use crate::task::{
    answer_json, answered_status, record_of, upload_status, StatusView, UploadEventView,
};
use crate::text::{trim_end, trim_start, trimmed, white_space};

verus! {

/// The `src` of an answer is the string of that name in the object, or in the first
/// element of an array; where there is none, or it is no string, it is empty.
pub proof fn lemma_src_of_an_answer(j: JsonView, first: JsonView, s: Seq<char>)
    ensures
        src_in_answer(None) == Seq::<char>::empty(),
        src_in_answer(Some(j)) == src_at(j),
        at_index(j, 0) is None && (at_key(j, "src"@) matches Some(v) && v.node == NodeView::Str(s))
            ==> src_at(j) == s,
        at_index(j, 0) is None && (at_key(j, "src"@) matches Some(v) ==> !(v.node is Str))
            ==> src_at(j) == Seq::<char>::empty(),
        at_index(j, 0) == Some(first) && (at_key(first, "src"@) matches Some(v) && v.node
            == NodeView::Str(s)) ==> src_at(j) == s,
        at_index(j, 0) == Some(first) && (at_key(first, "src"@) matches Some(v) ==> !(v.node is Str))
            ==> src_at(j) == Seq::<char>::empty(),
{
}

/// Where the server accepts an upload and the rule finds a link, the upload succeeds with
/// exactly that link, whatever else the answer holds, and with the answer's `src`. Where
/// the rule finds none, it is a failure that does not pass, and the message tells the
/// rule and the answer.
pub proof fn lemma_accepted_answer(
    cfg: ConfigView,
    status: u16,
    line: Seq<char>,
    text: Seq<char>,
    parsed: Option<JsonView>,
)
    requires
        200 <= status <= 299,
    ensures
        url_in_answer(response_rule(cfg), text, parsed) matches Some(u) ==> answer_meaning(
            cfg,
            status,
            text,
            parsed,
        ) == Ok::<_, (Seq<char>, bool)>((u, src_in_answer(parsed))) && meaning_of(
            cfg,
            status,
            line,
            text,
            parsed,
        ) == Ok::<_, (Seq<char>, bool)>((u, src_in_answer(parsed))),
        url_in_answer(response_rule(cfg), text, parsed) is None ==> ({
            let failure = Err::<(Seq<char>, Seq<char>), _>(
                ("响应解析失败: "@ + response_rule(cfg) + " — "@ + trimmed(text), false),
            );
            answer_meaning(cfg, status, text, parsed) == failure && meaning_of(
                cfg,
                status,
                line,
                text,
                parsed,
            ) == failure
        }),
{
}

/// An upload that the server refuses fails, whatever the answer holds: the message tells
/// the code, its words and the answer, and the failure may pass exactly where the server
/// was busy or at fault.
pub proof fn lemma_refused_answer(
    cfg: ConfigView,
    status: u16,
    line: Seq<char>,
    text: Seq<char>,
    parsed: Option<JsonView>,
)
    requires
        status < 200 || status > 299,
    ensures
        meaning_of(cfg, status, line, text, parsed) == Err::<(Seq<char>, Seq<char>), _>(
            (
                "请求失败: "@ + line + " — "@ + trimmed(text),
                status == 429 || (500 <= status && status <= 599),
            ),
        ),
        answer_meaning(cfg, status, text, parsed) == meaning_of(
            cfg,
            status,
            decimal(status as nat) + seq![' '] + reason_phrase(status),
            text,
            parsed,
        ),
{
}

/// By the rule `json.` and a name, and by `json.` and two names, an upload succeeds with
/// the string that stands there, whether or not the answer has a `src`.
pub proof fn lemma_named_link_succeeds(
    cfg: ConfigView,
    status: u16,
    text: Seq<char>,
    j: JsonView,
    outer: Seq<char>,
    inner: Seq<char>,
    url: Seq<char>,
)
    requires
        200 <= status <= 299,
        outer.len() > 0 && !outer.contains('.') && parsed_usize(outer) is None,
        inner.len() > 0 && !inner.contains('.') && parsed_usize(inner) is None,
        !white_space(inner.last()),
        j.node is Object,
        cfg.response == Some("json."@ + (outer.push('.') + inner)),
        at_key(j, outer) matches Some(m) && m.node is Object && (at_key(m, inner) matches Some(v)
            && v.node == NodeView::Str(url)),
    ensures
        answer_meaning(cfg, status, text, Some(j)) matches Ok(r) && r.0 == url && r.1 == src_at(j),
{
    reveal_strlit("json.");
    let rule = "json."@ + (outer.push('.') + inner);
    assert(rule[0] == 'j');
    assert(rule.last() == inner.last());
    assert(trim_start(rule) == rule);
    assert(trim_end(rule) == rule);
    lemma_nested_rule(outer, inner, text, j, url);
}

/// The same of one name.
pub proof fn lemma_single_name_succeeds(
    cfg: ConfigView,
    status: u16,
    text: Seq<char>,
    j: JsonView,
    key: Seq<char>,
    url: Seq<char>,
)
    requires
        200 <= status <= 299,
        key.len() > 0 && !key.contains('.') && parsed_usize(key) is None,
        !white_space(key.last()),
        j.node is Object,
        cfg.response == Some("json."@ + key),
        at_key(j, key) matches Some(v) && v.node == NodeView::Str(url),
    ensures
        answer_meaning(cfg, status, text, Some(j)) matches Ok(r) && r.0 == url && r.1 == src_at(j),
{
    reveal_strlit("json.");
    let rule = "json."@ + key;
    assert(rule[0] == 'j');
    assert(rule.last() == key.last());
    assert(trim_start(rule) == rule);
    assert(trim_end(rule) == rule);
    lemma_json_rule(key, text, j);
    lemma_paths(j, key, Seq::empty());
}

/// By a rule such as `[0].url` an upload succeeds with the string of that name in that
/// element.
pub proof fn lemma_element_link_succeeds(
    cfg: ConfigView,
    status: u16,
    text: Seq<char>,
    j: JsonView,
    index: usize,
    key: Seq<char>,
    url: Seq<char>,
)
    requires
        200 <= status <= 299,
        key.len() > 0 && !key.contains('.') && !key.contains('[') && !key.contains(']'),
        parsed_usize(key) is None,
        !white_space(key.last()),
        cfg.response == Some(seq!['['] + decimal(index as nat) + seq![']', '.'] + key),
        at_index(j, index as int) matches Some(m) && m.node is Object && (at_key(m, key) matches Some(
            v,
        ) && v.node == NodeView::Str(url)),
    ensures
        answer_meaning(cfg, status, text, Some(j)) matches Ok(r) && r.0 == url && r.1 == src_at(j),
{
    let rule = seq!['['] + decimal(index as nat) + seq![']', '.'] + key;
    assert(rule[0] == '[');
    assert(rule.last() == key.last());
    assert(trim_start(rule) == rule);
    assert(trim_end(rule) == rule);
    lemma_element_rule(index, key, text, j, url);
}

/// By no rule, by the rule `text` and by an empty one an upload succeeds with the whole
/// answer but for the white space around it.
pub proof fn lemma_whole_answer_succeeds(
    cfg: ConfigView,
    status: u16,
    text: Seq<char>,
    parsed: Option<JsonView>,
)
    requires
        200 <= status <= 299,
        cfg.response is None || trimmed(cfg.response->0) == "text"@ || trimmed(
            cfg.response->0,
        ).len() == 0,
    ensures
        answer_meaning(cfg, status, text, parsed) == Ok::<_, (Seq<char>, bool)>(
            (trimmed(text), src_in_answer(parsed)),
        ),
{
    lemma_rule_in_force(cfg, Seq::empty());
    assert(text_or(cfg.response, "text"@) == (if cfg.response is Some {
        cfg.response->0
    } else {
        "text"@
    }));
}

/// What an upload comes to on its way: a fault of the request stays, a fault of the way
/// may pass, a request that is sent waits for its answer, and an answer is a success with
/// its link and its `src`, or a failure with its message, kept as it was found.
pub proof fn lemma_stages_on_the_way(
    cfg: ConfigView,
    e: Seq<char>,
    malformed: bool,
    code: u16,
    text: Seq<char>,
    parsed: Option<JsonView>,
)
    ensures
        upload_status(cfg, UploadEventView::BuildFailed(e), parsed) == (StatusView::Failed {
            message: "构建请求失败: "@ + e,
            retryable: false,
        }),
        upload_status(cfg, UploadEventView::SendFailed(e, malformed), parsed)
            == (StatusView::Failed { message: "发送请求失败: "@ + e, retryable: !malformed }),
        upload_status(cfg, UploadEventView::Sent, parsed) is Processing,
        answer_meaning(cfg, code, text, parsed) matches Ok(r) ==> upload_status(
            cfg,
            UploadEventView::Answered(code, text),
            parsed,
        ) == StatusView::Success(r.0, r.1),
        answer_meaning(cfg, code, text, parsed) matches Err(f) ==> upload_status(
            cfg,
            UploadEventView::Answered(code, text),
            parsed,
        ) == (StatusView::Failed { message: "上传失败: "@ + f.0, retryable: f.1 }),
        answer_json(UploadEventView::Answered(code, text)) == parsed_json(text),
{
}

/// What an answer means is kept: a success keeps its link and its `src` in the task and in
/// the history, and a failure its message and whether it may pass, and leaves no record.
pub proof fn lemma_outcome_is_kept(url: Seq<char>, src: Seq<char>, message: Seq<char>, may_pass: bool)
    ensures
        answered_status(Ok((url, src))) == StatusView::Success(url, src),
        answered_status(Err((message, may_pass))) == (StatusView::Failed {
            message: "上传失败: "@ + message,
            retryable: may_pass,
        }),
        record_of(StatusView::Success(url, src)) == Some((url, src)),
        record_of(StatusView::Failed { message, retryable: may_pass }) is None,
        record_of(StatusView::Processing) is None,
        record_of(StatusView::Uploading) is None,
{
}

} // verus!
