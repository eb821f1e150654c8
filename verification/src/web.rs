//! The small decisions of the HTTP layer and of the store: who the client is, which
//! page is asked for, how events are framed, and the daily rate limits.

use vstd::prelude::*;
use crate::entities::PaginationQuery;
use crate::text::{chars_of, is_ws, string_of, trim, trim_spec};

verus! {

/// The text before the first comma of `s` (all of `s` when it has none).
pub open spec fn first_field(s: Seq<char>) -> Seq<char>
    decreases s.len(),
{
    if s.len() == 0 || s[0] == ',' {
        Seq::empty()
    } else {
        seq![s[0]] + first_field(s.drop_first())
    }
}

/// The client's address: the first entry of `X-Forwarded-For`, trimmed, when that
/// header is present; otherwise the connection's address, or `unknown`.
pub open spec fn client_ip_spec(remote: Option<Seq<char>>, forwarded_for: Option<Seq<char>>) -> Seq<
    char,
> {
    match forwarded_for {
        Some(f) => trim_spec(first_field(f)),
        None => match remote {
            Some(r) => r,
            None => "unknown"@,
        },
    }
}

proof fn lemma_first_field_prefix(s: Seq<char>, k: int)
    requires
        0 <= k <= s.len(),
        forall|i: int| 0 <= i < k ==> #[trigger] s[i] != ',',
        k == s.len() || s[k] == ',',
    ensures
        first_field(s) == s.take(k),
    decreases s.len(),
{
    if s.len() == 0 || s[0] == ',' {
        assert(s.take(k) =~= Seq::<char>::empty());
    } else {
        let t = s.drop_first();
        assert forall|i: int| 0 <= i < k - 1 implies #[trigger] t[i] != ',' by {
            assert(t[i] == s[i + 1]);
        }
        lemma_first_field_prefix(t, k - 1);
        assert(seq![s[0]] + t.take(k - 1) =~= s.take(k));
    }
}

/// Determines the client's address for rate limiting.
pub fn client_ip(remote: Option<&str>, forwarded_for: Option<&str>) -> (res: String)
    ensures
        res@ == client_ip_spec(
            match remote {
                Some(r) => Some(r@),
                None => None,
            },
            match forwarded_for {
                Some(f) => Some(f@),
                None => None,
            },
        ),
{
    match forwarded_for {
        Some(f) => {
            let v = chars_of(f);
            let mut k: usize = 0;
            while k < v.len() && v[k] != ','
                invariant
                    k <= v@.len(),
                    forall|i: int| 0 <= i < k ==> #[trigger] v@[i] != ',',
                decreases v.len() - k,
            {
                k = k + 1;
            }
            proof {
                lemma_first_field_prefix(v@, k as int);
                assert(v@.take(k as int) == v@.subrange(0, k as int));
            }
            let field = string_of(&v, 0, k);
            trim(field.as_str())
        },
        None => match remote {
            Some(r) => r.to_owned(),
            None => "unknown".to_owned(),
        },
    }
}

/// The page asked for: 1 unless given, and at least 1.
pub open spec fn page_spec(q: PaginationQuery) -> i64 {
    let p = match q.page {
        Some(p) => p,
        None => 1,
    };
    if p < 1 {
        1
    } else {
        p
    }
}

/// The page size asked for: 20 unless given, kept between 1 and 50.
pub open spec fn page_size_spec(q: PaginationQuery) -> i64 {
    let l = match q.limit {
        Some(l) => l,
        None => 20,
    };
    if l < 1 {
        1
    } else if l > 50 {
        50
    } else {
        l
    }
}

/// The page and page size of a message listing.
pub fn pagination(q: PaginationQuery) -> (res: (i64, i64))
    ensures
        res == (page_spec(q), page_size_spec(q)),
        1 <= res.0,
        1 <= res.1 <= 50,
{
    let page = match q.page {
        Some(p) => p,
        None => 1,
    };
    let limit = match q.limit {
        Some(l) => l,
        None => 20,
    };
    let page = if page < 1 {
        1
    } else {
        page
    };
    let limit = if limit < 1 {
        1
    } else if limit > 50 {
        50
    } else {
        limit
    };
    (page, limit)
}

/// A server-sent event carrying `payload`: `"data: <payload>\n\n"`.
pub open spec fn sse_frame_spec(payload: Seq<char>) -> Seq<char> {
    "data: "@ + payload + "\n\n"@
}

/// Frames `payload` as a server-sent event.
pub fn sse_frame(payload: &str) -> (res: String)
    ensures
        res@ == sse_frame_spec(payload@),
{
    let mut res = "data: ".to_owned();
    res.append(payload);
    res.append("\n\n");
    res
}

/// Whether a client that has asked `asked_today` times today may ask again: once a
/// day, with no limit for requests from the local machine.
pub open spec fn client_may_ask_spec(asked_today: i64, ip: Seq<char>) -> bool {
    asked_today < 1 || ip == "127.0.0.1"@ || ip == "localhost"@
}

/// Decides the per-address daily limit.
pub fn client_may_ask(asked_today: i64, ip: &str) -> (res: bool)
    ensures
        res == client_may_ask_spec(asked_today, ip@),
{
    if asked_today < 1 {
        return true;
    }
    let ip = ip.to_owned();
    let local = "127.0.0.1".to_owned();
    let localhost = "localhost".to_owned();
    ip == local || ip == localhost
}

/// The number of answers the service gives per day, over all clients.
pub const DAILY_ANSWERS: i64 = 5;

/// Whether the service, having answered `answered_today` times today, may answer again.
pub fn service_may_answer(answered_today: i64) -> (res: bool)
    ensures
        res == (answered_today < DAILY_ANSWERS),
{
    answered_today < DAILY_ANSWERS
}

} // verus!

verus! {

/// The client is the first entry of `X-Forwarded-For`, up to its first comma and
/// trimmed, whatever other characters the entry holds; with no such header it is the
/// connection's address, or `unknown`.
pub proof fn lemma_client_ip_is_first_forwarded_entry(
    remote: Option<Seq<char>>,
    entry: Seq<char>,
    rest: Seq<char>,
)
    requires
        !entry.contains(','),
    ensures
        client_ip_spec(remote, Some(entry)) == trim_spec(entry),
        client_ip_spec(remote, Some(entry + seq![','] + rest)) == trim_spec(entry),
        entry.len() == 0 || (!is_ws(entry[0]) && !is_ws(entry.last())) ==> client_ip_spec(
            remote,
            Some(entry + seq![','] + rest),
        ) == entry,
        client_ip_spec(remote, None) == match remote {
            Some(r) => r,
            None => "unknown"@,
        },
{
    let f = entry + seq![','] + rest;
    assert forall|i: int| 0 <= i < entry.len() implies #[trigger] entry[i] != ',' by {
        if entry[i] == ',' {
            assert(entry.contains(','));
        }
    }
    lemma_first_field_prefix(entry, entry.len() as int);
    assert(entry.take(entry.len() as int) == entry);
    assert forall|i: int| 0 <= i < entry.len() implies #[trigger] f[i] != ',' by {
        assert(f[i] == entry[i]);
    }
    assert(f[entry.len() as int] == ',');
    lemma_first_field_prefix(f, entry.len() as int);
    assert(f.take(entry.len() as int) == entry);
    if entry.len() == 0 || (!is_ws(entry[0]) && !is_ws(entry.last())) {
        crate::text::lemma_trim_keeps_clean_text(entry);
    }
}

/// A page at least 1 is kept and any other page becomes 1, with 1 when none is given;
/// a page size from 1 to 50 is kept, smaller ones become 1, larger ones 50, and none
/// given means 20.
pub proof fn lemma_pagination_bounds(q: PaginationQuery)
    ensures
        forall|p: i64| q.page == Some(p) && p >= 1 ==> page_spec(q) == p,
        forall|p: i64| q.page == Some(p) && p < 1 ==> page_spec(q) == 1,
        q.page is None ==> page_spec(q) == 1,
        forall|l: i64| q.limit == Some(l) && 1 <= l <= 50 ==> page_size_spec(q) == l,
        forall|l: i64| q.limit == Some(l) && l < 1 ==> page_size_spec(q) == 1,
        forall|l: i64| q.limit == Some(l) && l > 50 ==> page_size_spec(q) == 50,
        q.limit is None ==> page_size_spec(q) == 20,
{
}

} // verus!

verus! {

/// A server-sent event is `data: `, the payload, then a blank line: it begins with
/// `data: `, ends with two newlines, and holds the payload between them.
pub proof fn lemma_sse_frame_layout(payload: Seq<char>)
    ensures
        sse_frame_spec(payload) == seq!['d', 'a', 't', 'a', ':', ' '] + payload + seq!['\n', '\n'],
{
    reveal_strlit("data: ");
    reveal_strlit("\n\n");
    assert("data: "@ =~= seq!['d', 'a', 't', 'a', ':', ' ']);
    assert("\n\n"@ =~= seq!['\n', '\n']);
}

/// A client may ask while it has not asked today; from the local machine (`127.0.0.1`
/// or `localhost`) always; from anywhere else, once it has asked, no more that day.
/// The service answers five times a day in all.
pub proof fn lemma_daily_limits(asked_today: i64, ip: Seq<char>)
    ensures
        asked_today <= 0 ==> client_may_ask_spec(asked_today, ip),
        ip == "127.0.0.1"@ || ip == "localhost"@ ==> client_may_ask_spec(asked_today, ip),
        asked_today >= 1 && ip != "127.0.0.1"@ && ip != "localhost"@ ==> !client_may_ask_spec(
            asked_today,
            ip,
        ),
        DAILY_ANSWERS == 5,
{
}

} // verus!
