//! Cursor pagination of a channel's messages, newest first.

use vstd::prelude::*;
use vstd::string::{StrSliceExecFns, StringExecFns};

use crate::api_errors::{ApplicationError, ErrorDetail, InnerError, BAD_REQUEST, INTERNAL_SERVER_ERROR};
use crate::models::Message;
use crate::codec::{
    base64url_padded, base64url_padded_decode, base64url_padded_decode_spec, base64url_padded_spec,
    is_rfc3339_char, is_uuid_text_char, rfc3339_format, rfc3339_format_spec, rfc3339_parse,
    rfc3339_parse_spec, utf8_decode, uuid_parse, uuid_parse_spec, uuid_text, uuid_text_spec,
};

verus! {

/// How many messages one page holds.
pub const PAGE_SIZE: usize = 50;

/// The position of the first `,` in `s`, if any.
pub open spec fn first_comma(s: Seq<char>) -> Option<int>
    decreases s.len(),
{
    if s.len() == 0 {
        None
    } else if s[0] == ',' {
        Some(0)
    } else {
        match first_comma(s.drop_first()) {
            Some(k) => Some(k + 1),
            None => None,
        }
    }
}

/// The text a cursor encodes: the RFC 3339 time, a comma, and the id.
pub open spec fn cursor_text(time_text: Seq<char>, id: u128) -> Seq<char> {
    time_text + ","@ + uuid_text_spec(id)
}

/// What a cursor decodes to: the time and id of the last message of the
/// previous page, or the code of the first step that refuses it: 4001 not
/// base64url, 4002 not UTF-8, 4003 no comma, 4004 no RFC 3339 time before the
/// comma, 4005 no UUID after it.
pub open spec fn cursor_parse_spec(raw: Seq<char>) -> Result<(i128, u128), u16> {
    match base64url_padded_decode_spec(vstd::utf8::encode_utf8(raw)) {
        None => Err(4001),
        Some(bytes) => if !vstd::utf8::valid_utf8(bytes) {
            Err(4002)
        } else {
            let s = vstd::utf8::decode_utf8(bytes);
            match first_comma(s) {
                None => Err(4003),
                Some(k) => match rfc3339_parse_spec(s.take(k)) {
                    None => Err(4004),
                    Some(t) => match uuid_parse_spec(s.skip(k + 1)) {
                        None => Err(4005),
                        Some(id) => Ok((t, id)),
                    },
                },
            }
        },
    }
}

/// `e` is the answer to a malformed cursor whose first failing step has code
/// `code`.
pub open spec fn is_cursor_error(e: ApplicationError, code: u16) -> bool {
    &&& e.code == BAD_REQUEST
    &&& e.message@ == "a query param is invalid or malformed"@
    &&& e.target@ == "query"@
    &&& e.details@.len() == 1
    &&& e.details@[0].code == code
    &&& e.details@[0].target@ == "cursor"@
    &&& e.details@[0].message@ == "cursor is invalid or malformed"@
    &&& (code == 4003 ==> e.innererror is None)
}

/// The answer to a malformed cursor.
pub fn make_cursor_error(code: u16, err: Option<InnerError>) -> (r: ApplicationError)
    ensures
        r.code == BAD_REQUEST,
        r.message@ == "a query param is invalid or malformed"@,
        r.target@ == "query"@,
        r.details@.len() == 1,
        r.details@[0].code == code,
        r.details@[0].target@ == "cursor"@,
        r.details@[0].message@ == "cursor is invalid or malformed"@,
        r.innererror == err,
{
    ApplicationError::new(
        BAD_REQUEST,
        "a query param is invalid or malformed",
        "query",
        vec![ErrorDetail::new(code, "cursor", "cursor is invalid or malformed")],
        err,
    )
}

proof fn lemma_first_comma(s: Seq<char>)
    ensures
        match first_comma(s) {
            Some(k) => 0 <= k < s.len() && s[k] == ',' && forall|j: int|
                0 <= j < k ==> #[trigger] s[j] != ',',
            None => forall|j: int| 0 <= j < s.len() ==> #[trigger] s[j] != ',',
        },
    decreases s.len(),
{
    if s.len() > 0 {
        lemma_first_comma(s.drop_first());
        if s[0] != ',' {
            assert forall|j: int| 0 < j < s.len() implies s[j] == s.drop_first()[j - 1] by {}
        }
    }
}

proof fn lemma_first_comma_at(s: Seq<char>, k: int)
    requires
        0 <= k < s.len(),
        s[k] == ',',
        forall|j: int| 0 <= j < k ==> #[trigger] s[j] != ',',
    ensures
        first_comma(s) == Some(k),
    decreases k,
{
    if k > 0 {
        assert forall|j: int| 0 <= j < k - 1 implies #[trigger] s.drop_first()[j] != ',' by {
            assert(s.drop_first()[j] == s[j + 1]);
        }
        lemma_first_comma_at(s.drop_first(), k - 1);
    }
}

/// Reads a cursor back into the time and id of the last message seen.
pub fn parse_cursor(raw_cursor: &str) -> (r: Result<(i128, u128), ApplicationError>)
    ensures
        match cursor_parse_spec(raw_cursor@) {
            Ok(v) => r == Ok::<(i128, u128), ApplicationError>(v),
            Err(code) => r matches Err(e) && is_cursor_error(e, code),
        },
{
    let decoded = match base64url_padded_decode(raw_cursor.as_bytes()) {
        Ok(d) => d,
        Err(msg) => return Err(make_cursor_error(4001, Some(InnerError::new(msg)))),
    };
    let ghost bytes = decoded@;
    let text = match utf8_decode(decoded) {
        Ok(t) => t,
        Err(msg) => return Err(make_cursor_error(4002, Some(InnerError::new(msg)))),
    };
    let s = text.as_str();
    let n = s.unicode_len();
    let mut k: usize = 0;
    while k < n && s.get_char(k) != ','
        invariant
            n == s@.len(),
            0 <= k <= n,
            forall|j: int| 0 <= j < k ==> #[trigger] s@[j] != ',',
        decreases n - k,
    {
        k = k + 1;
    }
    if k == n {
        proof {
            lemma_first_comma(s@);
        }
        return Err(make_cursor_error(4003, None));
    }
    proof {
        lemma_first_comma_at(s@, k as int);
    }
    let time_part = s.substring_char(0, k);
    let id_part = s.substring_char(k + 1, n);
    assert(time_part@ == s@.take(k as int));
    assert(id_part@ == s@.skip(k as int + 1));
    let t = match rfc3339_parse(time_part) {
        Ok(t) => t,
        Err(msg) => return Err(make_cursor_error(4004, Some(InnerError::new(msg)))),
    };
    let id = match uuid_parse(id_part) {
        Ok(id) => id,
        Err(msg) => return Err(make_cursor_error(4005, Some(InnerError::new(msg)))),
    };
    Ok((t, id))
}

/// The cursor that points after the message created at `created_at` with id
/// `id`; it reads back to that time and id.
pub fn encode_cursor(created_at: i128, id: u128) -> (r: Result<String, ApplicationError>)
    ensures
        match rfc3339_format_spec(created_at) {
            Some(ts) => r matches Ok(c) && c@ == base64url_padded_spec(
                vstd::utf8::encode_utf8(cursor_text(ts, id)),
            ),
            None => r matches Err(e) && e.code == INTERNAL_SERVER_ERROR && e.message@
                == "internal server error"@ && e.target@ == "server"@ && e.details@.len() == 0,
        },
        r matches Ok(c) ==> cursor_parse_spec(c@) == Ok::<(i128, u128), u16>((created_at, id)),
{
    let timestamp = match rfc3339_format(created_at) {
        Ok(ts) => ts,
        Err(msg) => {
            return Err(
                ApplicationError::new(
                    INTERNAL_SERVER_ERROR,
                    "internal server error",
                    "server",
                    Vec::new(),
                    Some(InnerError::new(msg)),
                ),
            );
        },
    };
    let id_text = uuid_text(id);
    let mut text = timestamp.clone();
    text.append(",");
    text.append(id_text.as_str());
    let ghost tv = text@;
    proof {
        reveal_strlit(",");
    }
    assert(tv =~= cursor_text(timestamp@, id));
    let bytes = text.as_str().as_bytes();
    proof {
        assert forall|i: int| 0 <= i < tv.len() implies '\0' <= #[trigger] tv[i] <= '\u{7f}' by {
            if i < timestamp@.len() {
                assert(tv[i] == timestamp@[i]);
                assert(is_rfc3339_char(timestamp@[i]));
            } else if i > timestamp@.len() {
                assert(tv[i] == id_text@[i - timestamp@.len() - 1]);
                assert(is_uuid_text_char(id_text@[i - timestamp@.len() - 1]));
            }
        }
        vstd::utf8::is_ascii_chars_encode_utf8(tv);
    }
    let c = base64url_padded(bytes);
    proof {
        broadcast use vstd::utf8::encode_utf8_valid_utf8, vstd::utf8::encode_utf8_decode_utf8;

        let k = timestamp@.len() as int;
        assert(tv[k] == ',');
        assert forall|j: int| 0 <= j < k implies #[trigger] tv[j] != ',' by {
            assert(tv[j] == timestamp@[j]);
            assert(is_rfc3339_char(timestamp@[j]));
        }
        lemma_first_comma_at(tv, k);
        assert(tv.take(k) =~= timestamp@);
        assert(tv.skip(k + 1) =~= id_text@);
    }
    Ok(c)
}

/// One page of messages and, when more remain, the cursor to the next page.
#[derive(Debug, Clone)]
pub struct MessageQueryResult {
    pub results: Vec<Message>,
    pub count: usize,
    pub cursor: Option<String>,
}

/// Cuts the rows fetched for a page (one more than a page, newest first)
/// into the page and the cursor to the next one. A lookahead row beyond the
/// page is what says more remain; the cursor then points after the last
/// message of the page, not after the lookahead row, so the next page starts
/// right where this one ends.
pub fn page_messages(mut messages: Vec<Message>) -> (r: Result<MessageQueryResult, ApplicationError>)
    ensures
        messages@.len() <= PAGE_SIZE ==> (r matches Ok(p) && p.results@ == messages@ && p.cursor
            is None && p.count == messages@.len()),
        messages@.len() > PAGE_SIZE ==> match rfc3339_format_spec(
            messages@[PAGE_SIZE - 1].created_at,
        ) {
            Some(_) => r matches Ok(p) && p.results@ == messages@.take(PAGE_SIZE as int)
                && p.count == PAGE_SIZE && (p.cursor matches Some(c) && cursor_parse_spec(c@) == Ok::<
                (i128, u128),
                u16,
            >((messages@[PAGE_SIZE - 1].created_at, messages@[PAGE_SIZE - 1].id))),
            None => r matches Err(e) && e.code == INTERNAL_SERVER_ERROR,
        },
{
    if messages.len() > PAGE_SIZE {
        let last = &messages[PAGE_SIZE - 1];
        let cursor = encode_cursor(last.created_at, last.id)?;
        messages.truncate(PAGE_SIZE);
        Ok(MessageQueryResult { results: messages, count: PAGE_SIZE, cursor: Some(cursor) })
    } else {
        let count = messages.len();
        Ok(MessageQueryResult { results: messages, count, cursor: None })
    }
}

/// The order of messages within a channel: by creation time, then by id.
pub open spec fn key_before(a: (i128, u128), b: (i128, u128)) -> bool {
    a.0 < b.0 || (a.0 == b.0 && a.1 < b.1)
}

/// The position of a message in that order.
pub open spec fn row_key(r: Message) -> (i128, u128) {
    (r.created_at, r.id)
}

/// `b` lists messages newest first, no two in the same position.
pub open spec fn newest_first(b: Seq<Message>) -> bool {
    forall|i: int, j: int| 0 <= i < j < b.len() ==> key_before(row_key(#[trigger] b[j]), row_key(#[trigger] b[i]))
}

/// The first `n` rows of `s`, or all of them when there are fewer (what a
/// query with `LIMIT n` returns).
pub open spec fn at_most(s: Seq<Message>, n: int) -> Seq<Message> {
    if s.len() <= n {
        s
    } else {
        s.take(n)
    }
}

/// What the page query after the cursor `c` fetches from the backlog `b`,
/// newest first: the messages ordered before `c`, one more than a page.
pub open spec fn rows_after(b: Seq<Message>, c: (i128, u128)) -> Seq<Message> {
    at_most(b.filter(|r: Message| key_before(row_key(r), c)), PAGE_SIZE + 1)
}

proof fn lemma_filter_none(s: Seq<Message>, p: spec_fn(Message) -> bool)
    requires
        forall|k: int| 0 <= k < s.len() ==> !p(#[trigger] s[k]),
    ensures
        s.filter(p) == Seq::<Message>::empty(),
    decreases s.len(),
{
    reveal(Seq::filter);
    if s.len() > 0 {
        assert forall|k: int| 0 <= k < s.drop_last().len() implies !p(#[trigger] s.drop_last()[k]) by {
            assert(s.drop_last()[k] == s[k]);
        }
        lemma_filter_none(s.drop_last(), p);
        assert(!p(s[s.len() - 1]));
    }
}

proof fn lemma_filter_all(s: Seq<Message>, p: spec_fn(Message) -> bool)
    requires
        forall|k: int| 0 <= k < s.len() ==> p(#[trigger] s[k]),
    ensures
        s.filter(p) == s,
    decreases s.len(),
{
    reveal(Seq::filter);
    if s.len() > 0 {
        assert forall|k: int| 0 <= k < s.drop_last().len() implies p(#[trigger] s.drop_last()[k]) by {
            assert(s.drop_last()[k] == s[k]);
        }
        lemma_filter_all(s.drop_last(), p);
        assert(p(s[s.len() - 1]));
        assert(s.drop_last().push(s.last()) =~= s);
    }
}

/// Law: cursors walk the backlog without gaps or overlap. In a backlog
/// listed newest first, the messages ordered before any message are exactly
/// those listed after it; so the page fetched after the cursor of a page
/// (which names the page's last message) starts with the message right after
/// that page.
pub proof fn law_cursor_continues_after_page(b: Seq<Message>, i: int)
    requires
        newest_first(b),
        0 <= i < b.len(),
    ensures
        b.filter(|r: Message| key_before(row_key(r), row_key(b[i]))) == b.skip(i + 1),
        rows_after(b, row_key(b[i])) == at_most(b.skip(i + 1), PAGE_SIZE + 1),
{
    let p = |r: Message| key_before(row_key(r), row_key(b[i]));
    let head = b.take(i + 1);
    let tail = b.skip(i + 1);
    assert(b =~= head + tail);
    assert forall|k: int| 0 <= k < head.len() implies !p(#[trigger] head[k]) by {
        assert(head[k] == b[k]);
        if k < i {
            assert(key_before(row_key(b[i]), row_key(b[k])));
        }
    }
    assert forall|k: int| 0 <= k < tail.len() implies p(#[trigger] tail[k]) by {
        assert(tail[k] == b[i + 1 + k]);
        assert(key_before(row_key(b[i + 1 + k]), row_key(b[i])));
    }
    lemma_filter_none(head, p);
    lemma_filter_all(tail, p);
    Seq::filter_distributes_over_add(head, tail, p);
    assert(b.filter(p) =~= tail);
}

/// The rows fetched for a page of the backlog `b`: the newest, one more than
/// a page, without a cursor; those ordered before the cursor with one.
pub open spec fn fetched_rows(b: Seq<Message>, cursor: Option<(i128, u128)>) -> Seq<Message> {
    match cursor {
        None => at_most(b, PAGE_SIZE + 1),
        Some(c) => rows_after(b, c),
    }
}

/// The messages a client sees when it lists the backlog `b` from `cursor`
/// and follows each cursor it is handed, for at most `pages` further pages:
/// each page is the fetched rows cut to a page, and a next page is fetched
/// after the last message of a page only when the lookahead row showed that
/// more remain.
pub open spec fn cursor_walk(b: Seq<Message>, cursor: Option<(i128, u128)>, pages: nat) -> Seq<Message>
    decreases pages,
{
    let rows = fetched_rows(b, cursor);
    if rows.len() <= PAGE_SIZE || pages == 0 {
        at_most(rows, PAGE_SIZE as int)
    } else {
        rows.take(PAGE_SIZE as int) + cursor_walk(
            b,
            Some(row_key(rows[PAGE_SIZE - 1])),
            (pages - 1) as nat,
        )
    }
}

/// The cursor under which the walk reaches position `pos` of the backlog.
spec fn cursor_at(b: Seq<Message>, pos: int) -> Option<(i128, u128)> {
    if pos == 0 {
        None
    } else {
        Some(row_key(b[pos - 1]))
    }
}

proof fn lemma_walk_from(b: Seq<Message>, pos: int, pages: nat)
    requires
        newest_first(b),
        0 <= pos <= b.len(),
        pages >= b.len() - pos,
    ensures
        cursor_walk(b, cursor_at(b, pos), pages) == b.skip(pos),
    decreases b.len() - pos,
{
    let rows = fetched_rows(b, cursor_at(b, pos));
    if pos == 0 {
        assert(b.skip(0) =~= b);
    } else {
        law_cursor_continues_after_page(b, pos - 1);
    }
    assert(rows == at_most(b.skip(pos), PAGE_SIZE + 1));
    if b.len() - pos <= PAGE_SIZE {
        assert(rows == b.skip(pos));
    } else {
        let next = pos + PAGE_SIZE;
        assert(rows[PAGE_SIZE - 1] == b[next - 1]);
        assert(cursor_at(b, next) == Some(row_key(rows[PAGE_SIZE - 1])));
        lemma_walk_from(b, next, (pages - 1) as nat);
        assert(rows.take(PAGE_SIZE as int) + b.skip(next) =~= b.skip(pos));
    }
}

/// Law: following cursors from the first page walks the whole backlog
/// without gaps or overlap. For a channel listed newest first, the pages
/// handed out one after another, each fetched after the cursor of the one
/// before, hold every message exactly once, newest first; as many pages as
/// there are messages always suffice.
pub proof fn law_cursor_walk_visits_every_message_once(b: Seq<Message>)
    requires
        newest_first(b),
    ensures
        cursor_walk(b, None, b.len()) == b,
{
    lemma_walk_from(b, 0, b.len());
}

} // verus!
