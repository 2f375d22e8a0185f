//! Who a request comes from.

use axum::http::HeaderValue;
use vstd::prelude::*;
use vstd::utf8::is_ascii_chars;

verus! {

/// The byte may stand in a header that is read as text: a visible ASCII character, a
/// space or a tab.
pub open spec fn is_text_byte(b: u8) -> bool {
    32 <= b < 127 || b == 9
}

/// The bytes of a header may all stand in a text.
pub open spec fn is_header_text(raw: Seq<u8>) -> bool {
    forall|i: int| 0 <= i < raw.len() ==> is_text_byte(#[trigger] raw[i])
}

/// ASCII bytes as characters.
pub open spec fn ascii_chars(raw: Seq<u8>) -> Seq<char> {
    raw.map_values(|b: u8| b as char)
}

/// How far it is to the first comma, or to the end where there is none.
pub open spec fn comma_distance(s: Seq<char>) -> nat
    decreases s.len(),
{
    if s.len() == 0 || s[0] == ',' {
        0
    } else {
        1 + comma_distance(s.drop_first())
    }
}

/// What stands before the first comma.
pub open spec fn first_field(s: Seq<char>) -> Seq<char> {
    s.take(comma_distance(s) as int)
}

/// The character is a space or a tab, the white space that a header may hold.
pub open spec fn is_blank(c: char) -> bool {
    c == ' ' || c == '\t'
}

/// The text without the blanks at its start.
pub open spec fn trim_start(s: Seq<char>) -> Seq<char>
    decreases s.len(),
{
    if s.len() > 0 && is_blank(s[0]) {
        trim_start(s.drop_first())
    } else {
        s
    }
}

/// The text without the blanks at its end.
pub open spec fn trim_end(s: Seq<char>) -> Seq<char>
    decreases s.len(),
{
    if s.len() > 0 && is_blank(s.last()) {
        trim_end(s.drop_last())
    } else {
        s
    }
}

/// The client that a list of forwarding addresses names first.
pub open spec fn forwarded_client(raw: Seq<u8>) -> Seq<char> {
    trim_end(trim_start(first_field(ascii_chars(raw))))
}

/// The address by which a client is counted. A proxy on the same machine is believed
/// about the client that it forwards for; nobody else is.
pub open spec fn counted_ip(
    from_loopback: bool,
    peer_ip: Seq<char>,
    forwarded_for: Option<Seq<u8>>,
) -> Seq<char> {
    match forwarded_for {
        Some(raw) => if from_loopback && is_header_text(raw) {
            forwarded_client(raw)
        } else {
            peer_ip
        },
        None => peer_ip,
    }
}

/// Calls `axum::http::HeaderValue::to_str` on the header that the bytes make up.
/// Claimed of it: the text is had exactly where every byte is a visible ASCII character,
/// a space or a tab, and then holds the bytes as characters, one for one.
#[verifier::external_body]
fn header_text(raw: &[u8]) -> (text: Option<String>)
    ensures
        match text {
            Some(s) => is_header_text(raw@) && s@ == ascii_chars(raw@),
            None => !is_header_text(raw@),
        },
{
    let value = HeaderValue::from_bytes(raw).ok()?;
    value.to_str().ok().map(|s| s.to_owned())
}

/// The address by which a client is counted. `peer_ip` is where the request comes from,
/// `from_loopback` whether that is the machine itself, and `forwarded_for` the header
/// `x-forwarded-for`, where there is one.
pub fn client_ip(from_loopback: bool, peer_ip: String, forwarded_for: Option<&[u8]>) -> (ip: String)
    ensures
        ip@ == counted_ip(
            from_loopback,
            peer_ip@,
            match forwarded_for {
                Some(raw) => Some(raw@),
                None => None,
            },
        ),
{
    if !from_loopback {
        return peer_ip;
    }
    match forwarded_for {
        Some(raw) => match header_text(raw) {
            Some(text) => first_client(text.as_str()),
            None => peer_ip,
        },
        None => peer_ip,
    }
}

fn first_client(text: &str) -> (client: String)
    requires
        is_ascii_chars(text@),
    ensures
        client@ == trim_end(trim_start(first_field(text@))),
{
    let len: usize = text.unicode_len();
    let mut end: usize = 0;
    assert(text@.skip(0) =~= text@);
    while end < len && text.get_ascii(end) != 44
        invariant
            end <= len,
            len == text@.len(),
            is_ascii_chars(text@),
            comma_distance(text@) == end + comma_distance(text@.skip(end as int)),
        decreases len - end,
    {
        assert(text@.skip(end as int).drop_first() =~= text@.skip(end + 1));
        assert(text@.skip(end as int)[0] == text@[end as int]);
        end = end + 1;
    }
    assert(end == comma_distance(text@)) by {
        if end < len {
            assert(text@.skip(end as int)[0] == text@[end as int]);
        }
    }
    let ghost field = first_field(text@);
    let mut start: usize = 0;
    assert(text@.subrange(0, end as int) =~= field);
    while start < end && (text.get_ascii(start) == 32 || text.get_ascii(start) == 9)
        invariant
            start <= end <= len,
            len == text@.len(),
            is_ascii_chars(text@),
            trim_start(field) == trim_start(text@.subrange(start as int, end as int)),
        decreases end - start,
    {
        assert(text@.subrange(start as int, end as int).drop_first() =~= text@.subrange(
            start + 1,
            end as int,
        ));
        assert(text@.subrange(start as int, end as int)[0] == text@[start as int]);
        start = start + 1;
    }
    assert(trim_start(field) == text@.subrange(start as int, end as int)) by {
        if start < end {
            assert(text@.subrange(start as int, end as int)[0] == text@[start as int]);
        }
    }
    let ghost opened = trim_start(field);
    let mut stop: usize = end;
    while start < stop && (text.get_ascii(stop - 1) == 32 || text.get_ascii(stop - 1) == 9)
        invariant
            start <= stop <= len,
            len == text@.len(),
            is_ascii_chars(text@),
            trim_end(opened) == trim_end(text@.subrange(start as int, stop as int)),
        decreases stop - start,
    {
        assert(text@.subrange(start as int, stop as int).drop_last() =~= text@.subrange(
            start as int,
            stop - 1,
        ));
        assert(text@.subrange(start as int, stop as int).last() == text@[stop - 1]);
        stop = stop - 1;
    }
    assert(trim_end(opened) == text@.subrange(start as int, stop as int)) by {
        if start < stop {
            assert(text@.subrange(start as int, stop as int).last() == text@[stop - 1]);
        }
    }
    text.substring_ascii(start, stop).to_owned()
}

/// Whoever does not reach the server from its own machine is counted by the address that
/// the request comes from, whatever the request says.
pub proof fn law_strangers_are_not_believed(peer_ip: Seq<char>, forwarded_for: Option<Seq<u8>>)
    ensures
        counted_ip(false, peer_ip, forwarded_for) == peer_ip,
{
}

/// The client that a header names is what stands between blanks and commas: it holds no
/// comma, and no blank at either end.
pub proof fn law_forwarded_client_is_clean(raw: Seq<u8>)
    ensures
        ({
            let client = forwarded_client(raw);
            &&& forall|i: int| 0 <= i < client.len() ==> #[trigger] client[i] != ','
            &&& client.len() > 0 ==> !is_blank(client[0]) && !is_blank(client.last())
        }),
{
    let text = ascii_chars(raw);
    let field = first_field(text);
    lemma_no_comma_before(text);
    lemma_trim_start(field);
    lemma_trim_end(trim_start(field));
    let client = forwarded_client(raw);
    assert forall|i: int| 0 <= i < client.len() implies #[trigger] client[i] != ',' by {
        assert(client[i] == trim_start(field)[i]);
        assert(trim_start(field)[i] == field[i + field.len() - trim_start(field).len()]);
    }
}

proof fn lemma_no_comma_before(s: Seq<char>)
    ensures
        comma_distance(s) <= s.len(),
        forall|i: int| 0 <= i < comma_distance(s) ==> #[trigger] s[i] != ',',
    decreases s.len(),
{
    if s.len() > 0 && s[0] != ',' {
        let rest = s.drop_first();
        lemma_no_comma_before(rest);
        assert forall|i: int| 0 <= i < comma_distance(s) implies #[trigger] s[i] != ',' by {
            if i > 0 {
                assert(s[i] == rest[i - 1]);
            }
        }
    }
}

proof fn lemma_trim_start(s: Seq<char>)
    ensures
        trim_start(s).len() <= s.len(),
        trim_start(s) == s.skip(s.len() - trim_start(s).len()),
        trim_start(s).len() > 0 ==> !is_blank(trim_start(s)[0]),
    decreases s.len(),
{
    if s.len() > 0 && is_blank(s[0]) {
        lemma_trim_start(s.drop_first());
    }
    assert(trim_start(s) =~= s.skip(s.len() - trim_start(s).len()));
}

proof fn lemma_trim_end(s: Seq<char>)
    ensures
        trim_end(s).len() <= s.len(),
        trim_end(s) == s.take(trim_end(s).len() as int),
        trim_end(s).len() > 0 ==> !is_blank(trim_end(s).last()),
    decreases s.len(),
{
    if s.len() > 0 && is_blank(s.last()) {
        lemma_trim_end(s.drop_last());
    }
    assert(trim_end(s) =~= s.take(trim_end(s).len() as int));
}

/// Who is counted for a request that comes from the machine itself: what the forwarding
/// header holds up to its first comma, without the blanks at either end, if the header is
/// plain text. `end` is where that field ends, and the client stands from `start` to
/// `stop`.
pub proof fn law_proxy_is_believed(peer_ip: Seq<char>, raw: Seq<u8>) -> (at: (int, int, int))
    requires
        forall|i: int| 0 <= i < raw.len() ==> 32 <= #[trigger] raw[i] < 127 || raw[i] == 9,
    ensures
        ({
            let (start, stop, end) = at;
            let client = counted_ip(true, peer_ip, Some(raw));
            &&& 0 <= start <= stop <= end <= raw.len()
            &&& end == raw.len() || raw[end] == 44
            &&& forall|i: int| 0 <= i < end ==> #[trigger] raw[i] != 44
            &&& forall|i: int| 0 <= i < start ==> #[trigger] raw[i] == 32 || raw[i] == 9
            &&& forall|i: int| stop <= i < end ==> #[trigger] raw[i] == 32 || raw[i] == 9
            &&& start < stop ==> raw[start] != 32 && raw[start] != 9 && raw[stop - 1] != 32
                && raw[stop - 1] != 9
            &&& client.len() == stop - start
            &&& forall|i: int|
                0 <= i < client.len() ==> #[trigger] client[i] == raw[start + i] as char
        }),
{
    assert(is_header_text(raw));
    let text = ascii_chars(raw);
    let field = first_field(text);
    let end = comma_distance(text) as int;
    lemma_no_comma_before(text);
    lemma_comma_follows(text);
    let opened = trim_start(field);
    lemma_trim_start(field);
    lemma_trimmed_start_is_blank(field);
    let client = trim_end(opened);
    lemma_trim_end(opened);
    lemma_trimmed_end_is_blank(opened);
    let start = field.len() - opened.len();
    let stop = start + client.len();
    assert forall|i: int| 0 <= i < raw.len() implies #[trigger] text[i] == raw[i] as char by {}
    assert forall|i: int| 0 <= i < end implies #[trigger] raw[i] != 44 by {
        assert(text[i] != ',');
    }
    assert forall|i: int| 0 <= i < start implies #[trigger] raw[i] == 32 || raw[i] == 9 by {
        assert(field[i] == text[i]);
    }
    assert forall|i: int| stop <= i < end implies #[trigger] raw[i] == 32 || raw[i] == 9 by {
        assert(opened[i - start] == field[i]);
        assert(field[i] == text[i]);
    }
    assert forall|i: int| 0 <= i < client.len() implies #[trigger] client[i] == raw[start
        + i] as char by {
        assert(client[i] == opened[i]);
        assert(opened[i] == field[start + i]);
        assert(field[start + i] == text[start + i]);
    }
    if start < stop {
        assert(client[0] == opened[0]);
        assert(client[0] == raw[start] as char);
        assert(client[client.len() - 1] == raw[stop - 1] as char);
    }
    (start, stop, end)
}

/// Where there is no forwarding header, or it holds a byte that is no plain text, the
/// address that the request comes from is counted.
pub proof fn law_unreadable_header_is_ignored(peer_ip: Seq<char>, raw: Seq<u8>, i: int)
    requires
        0 <= i < raw.len(),
        raw[i] >= 127 || (raw[i] < 32 && raw[i] != 9),
    ensures
        counted_ip(true, peer_ip, Some(raw)) == peer_ip,
        counted_ip(true, peer_ip, None) == peer_ip,
{
}

proof fn lemma_comma_follows(s: Seq<char>)
    ensures
        comma_distance(s) <= s.len(),
        comma_distance(s) < s.len() ==> s[comma_distance(s) as int] == ',',
    decreases s.len(),
{
    if s.len() > 0 && s[0] != ',' {
        lemma_comma_follows(s.drop_first());
    }
}

proof fn lemma_trimmed_start_is_blank(s: Seq<char>)
    ensures
        trim_start(s).len() <= s.len(),
        forall|i: int| 0 <= i < s.len() - trim_start(s).len() ==> is_blank(#[trigger] s[i]),
    decreases s.len(),
{
    if s.len() > 0 && is_blank(s[0]) {
        let rest = s.drop_first();
        lemma_trimmed_start_is_blank(rest);
        assert forall|i: int| 0 <= i < s.len() - trim_start(s).len() implies is_blank(
            #[trigger] s[i],
        ) by {
            if i > 0 {
                assert(s[i] == rest[i - 1]);
            }
        }
    }
}

proof fn lemma_trimmed_end_is_blank(s: Seq<char>)
    ensures
        trim_end(s).len() <= s.len(),
        forall|i: int| trim_end(s).len() <= i < s.len() ==> is_blank(#[trigger] s[i]),
    decreases s.len(),
{
    if s.len() > 0 && is_blank(s.last()) {
        let rest = s.drop_last();
        lemma_trimmed_end_is_blank(rest);
        assert forall|i: int| trim_end(s).len() <= i < s.len() implies is_blank(
            #[trigger] s[i],
        ) by {
            if i < s.len() - 1 {
                assert(s[i] == rest[i]);
            }
        }
    }
}

} // verus!
