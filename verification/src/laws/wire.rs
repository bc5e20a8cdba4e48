//! What goes over the wire: numbers, texts, headers, addresses and messages, in
//! the form that the other end reads.

use crate::api::file_chunk::FileChunk;
use crate::api::{
    FileAttachment, ServerErrorResponse, ServerTaskNotification, StartTaskRequest, TaskLaunchStatus,
};
use crate::cryptography::{Claims, ClientKey};
use crate::json::ToJson;
use crate::outside;
use crate::server_address::{AddressError, AddressModel};
use crate::tasks::{TaskOutput, Timestamp, Timestamped};
use vstd::prelude::*;
use vstd::string::*;

verus! {

/// Whether a text consists of decimal digits, at least one.
pub open spec fn is_number(text: Seq<char>) -> bool {
    &&& text.len() > 0
    &&& forall|i: int| 0 <= i < text.len() ==> '0' <= #[trigger] text[i] <= '9'
}

/// The number that decimal digits stand for.
pub open spec fn number(digits: Seq<char>) -> int
    decreases digits.len(),
{
    if digits.len() == 0 {
        0
    } else {
        number(digits.drop_last()) * 10 + (digits.last() as int - '0' as int)
    }
}

proof fn lemma_number_is_the_value(digits: Seq<char>)
    requires
        forall|i: int| 0 <= i < digits.len() ==> '0' <= #[trigger] digits[i] <= '9',
    ensures
        number(digits) == crate::text::decimal_value(digits),
        number(digits) >= 0,
    decreases digits.len(),
{
    if digits.len() > 0 {
        let before = digits.drop_last();
        assert forall|i: int| 0 <= i < before.len() implies '0' <= #[trigger] before[i] <= '9' by {
            assert(before[i] == digits[i]);
        }
        lemma_number_is_the_value(before);
        assert('0' <= digits[digits.len() - 1] <= '9');
    }
}

/// Digits stand for no negative number.
pub proof fn law_numbers_are_not_negative(digits: Seq<char>)
    requires
        is_number(digits),
    ensures
        number(digits) >= 0,
{
    lemma_number_is_the_value(digits);
}

/// A number is written in the decimal digits that stand for it, without a zero in
/// front unless it is zero.
pub proof fn law_numbers_are_written_in_decimal(n: nat)
    ensures
        is_number(crate::text::decimal(n)),
        number(crate::text::decimal(n)) == n,
        crate::text::decimal(n)[0] == '0' ==> n == 0 && crate::text::decimal(n).len() == 1,
    decreases n,
{
    let text = crate::text::decimal(n);
    crate::text::lemma_decimal_digits(n);
    assert forall|i: int| 0 <= i < text.len() implies '0' <= #[trigger] text[i] <= '9' by {
        assert(crate::text::is_digit(text[i]));
    }
    lemma_number_is_the_value(text);
    if n >= 10 {
        law_numbers_are_written_in_decimal(n / 10);
        assert(text[0] == crate::text::decimal(n / 10)[0]);
    }
}

/// A negative number is written with a minus sign in front of its magnitude, and
/// any other as it is.
pub proof fn law_signed_numbers_are_written_in_decimal(n: int)
    ensures
        ({
            let text = crate::text::signed_decimal(n);
            if n < 0 {
                &&& text[0] == '-'
                &&& is_number(text.skip(1))
                &&& number(text.skip(1)) == -n
            } else {
                is_number(text) && number(text) == n
            }
        }),
{
    let text = crate::text::signed_decimal(n);
    if n < 0 {
        law_numbers_are_written_in_decimal((-n) as nat);
        assert(text.skip(1) =~= crate::text::decimal((-n) as nat));
    } else {
        law_numbers_are_written_in_decimal(n as nat);
    }
}

/// A text is read as the number that it stands for, if it consists of digits, with
/// at most one plus sign in front, and the number is not too large; and else not.
pub proof fn law_numbers_are_read_from_decimal(text: Seq<char>)
    ensures
        ({
            let digits = if text.len() > 0 && text[0] == '+' {
                text.skip(1)
            } else {
                text
            };
            crate::text::parsed_u32(text) == (if is_number(digits) && number(digits)
                <= 0xffff_ffff {
                Some(number(digits) as u32)
            } else {
                None
            })
        }),
{
    let digits = if text.len() > 0 && text[0] == '+' {
        text.skip(1)
    } else {
        text
    };
    assert(crate::text::unsigned_digits(text) =~= digits);
    if is_number(digits) {
        lemma_number_is_the_value(digits);
        assert forall|i: int| 0 <= i < digits.len() implies crate::text::is_digit(digits[i]) by {
            assert('0' <= digits[i] <= '9');
        }
    } else if digits.len() > 0 {
        let bad = choose|i: int|
            0 <= i < digits.len() && !('0' <= #[trigger] digits[i] <= '9');
        assert(!crate::text::is_digit(digits[bad]));
    }
}

/// Whitespace is the space and the no-break space, the ASCII control characters
/// from the tab to the carriage return, the next line, and the spaces and separators
/// of Unicode.
pub proof fn law_whitespace_is_that_of_unicode(c: char)
    ensures
        crate::text::is_whitespace(c) <==> c == ' ' || '\t' <= c <= '\r' || c == '\u{85}' || c
            == '\u{a0}' || c == '\u{1680}' || '\u{2000}' <= c <= '\u{200a}' || '\u{2028}' <= c
            <= '\u{2029}' || c == '\u{202f}' || c == '\u{205f}' || c == '\u{3000}',
{
}

/// A moment can be held if it is in the years from -262143 to 262142 and has less
/// than a second's nanoseconds, or less than two at the end of a minute. The clock
/// shows those since the epoch, and no leap seconds.
pub proof fn law_moments_can_be_held(seconds: int, nanoseconds: int)
    ensures
        outside::is_moment(seconds, nanoseconds) <==> {
            &&& -96_465_292 * 86_400 <= seconds < 95_026_237 * 86_400
            &&& 0 <= nanoseconds
            &&& nanoseconds < (if (seconds + 1) % 60 == 0 {
                2_000_000_000int
            } else {
                1_000_000_000int
            })
        },
        outside::is_clock_moment(seconds, nanoseconds) <==> outside::is_moment(seconds, nanoseconds)
            && seconds >= 0 && nanoseconds < 1_000_000_000,
{
}

/// Trimming takes the whitespace off both ends of a text, all of it, and nothing
/// else.
pub proof fn law_trimming_takes_the_ends_off(text: Seq<char>)
    ensures
        exists|from: int, to: int|
            {
                &&& 0 <= from <= to <= text.len()
                &&& crate::text::trimmed(text) == #[trigger] text.subrange(from, to)
                &&& forall|i: int|
                    0 <= i < from || to <= i < text.len() ==> crate::text::is_whitespace(
                        #[trigger] text[i],
                    )
                &&& from < to ==> !crate::text::is_whitespace(text[from])
                    && !crate::text::is_whitespace(text[to - 1])
            },
{
    let from = lemma_start(text);
    let rest = text.subrange(from, text.len() as int);
    let length = lemma_end(rest);
    let to = from + length;
    assert(rest.subrange(0, length) =~= text.subrange(from, to));
    assert forall|i: int| 0 <= i < from || to <= i < text.len() implies crate::text::is_whitespace(
        #[trigger] text[i],
    ) by {
        if i >= to {
            assert(rest[i - from] == text[i]);
        }
    }
    if from < to {
        assert(rest[0] == text[from]);
        assert(rest[length - 1] == text[to - 1]);
    }
}

proof fn lemma_start(text: Seq<char>) -> (from: int)
    ensures
        0 <= from <= text.len(),
        crate::text::trimmed_start(text) == text.subrange(from, text.len() as int),
        forall|i: int| 0 <= i < from ==> crate::text::is_whitespace(#[trigger] text[i]),
        from < text.len() ==> !crate::text::is_whitespace(text[from]),
    decreases text.len(),
{
    if text.len() > 0 && crate::text::is_whitespace(text[0]) {
        let tail = text.subrange(1, text.len() as int);
        let from = lemma_start(tail);
        assert(tail.subrange(from, tail.len() as int) =~= text.subrange(
            from + 1,
            text.len() as int,
        ));
        assert forall|i: int| 0 <= i < from + 1 implies crate::text::is_whitespace(
            #[trigger] text[i],
        ) by {
            if i > 0 {
                assert(tail[i - 1] == text[i]);
            }
        }
        from + 1
    } else {
        assert(text.subrange(0, text.len() as int) =~= text);
        0
    }
}

proof fn lemma_end(text: Seq<char>) -> (to: int)
    ensures
        0 <= to <= text.len(),
        crate::text::trimmed_end(text) == text.subrange(0, to),
        forall|i: int| to <= i < text.len() ==> crate::text::is_whitespace(#[trigger] text[i]),
        0 < to ==> !crate::text::is_whitespace(text[to - 1]),
    decreases text.len(),
{
    if text.len() > 0 && crate::text::is_whitespace(text.last()) {
        let head = text.drop_last();
        let to = lemma_end(head);
        assert(head.subrange(0, to) =~= text.subrange(0, to));
        assert forall|i: int| to <= i < text.len() implies crate::text::is_whitespace(
            #[trigger] text[i],
        ) by {
            if i < head.len() {
                assert(head[i] == text[i]);
            }
        }
        to
    } else {
        assert(text.subrange(0, text.len() as int) =~= text);
        text.len() as int
    }
}

/// A list's items stand in it one after the other, with commas between them and in
/// brackets; a value that is missing is null.
pub proof fn law_lists_hold_every_item(items: Vec<u8>, texts: Vec<String>, more: Seq<u8>, byte: u8)
    ensures
        crate::json::comma_separated(Seq::<u8>::empty()) == Seq::<char>::empty(),
        crate::json::comma_separated(more.push(byte)) == (if more.len() == 0 {
            crate::text::decimal(byte as nat)
        } else {
            crate::json::comma_separated(more) + ","@ + crate::text::decimal(byte as nat)
        }),
        items.json() == "["@ + crate::json::comma_separated(items@) + "]"@,
        texts.json() == "["@ + crate::json::comma_separated(texts@) + "]"@,
        texts@.len() > 1 ==> crate::json::comma_separated(texts@)
            == crate::json::comma_separated(texts@.drop_last()) + ","@ + outside::json_quoted(
            texts@.last()@,
        ),
        texts@.len() == 1 ==> crate::json::comma_separated(texts@) == outside::json_quoted(
            texts@[0]@,
        ),
        texts@.len() == 0 ==> crate::json::comma_separated(texts@) == Seq::<char>::empty(),
        None::<FileAttachment>.json() == "null"@,
{
    assert(more.push(byte).drop_last() =~= more);
    assert(more.push(byte).last() == byte);
}

/// What a script writes is told with its moment, as a line of the output that it
/// came on; and how it ends is told with its exit code.
pub proof fn law_events_are_told_like_this(timestamp: Timestamp, line: String, code: i32)
    ensures
        ({
            let moment = outside::json_moment(timestamp.seconds(), timestamp.nanoseconds());
            let text = outside::json_quoted(line@);
            let start = "{\"success\":{\"body\":{\"output\":{\"timestamp\":"@;
            &&& crate::server::handler::tasks::event_message(
                ServerTaskNotification::Output(
                    Timestamped { timestamp, value: TaskOutput::Stdout(line) },
                ),
            ) == vstd::utf8::encode_utf8(
                start + moment + ",\"value\":{\"stdout\":"@ + text + "}}}}}"@,
            )
            &&& crate::server::handler::tasks::event_message(
                ServerTaskNotification::Output(
                    Timestamped { timestamp, value: TaskOutput::Stderr(line) },
                ),
            ) == vstd::utf8::encode_utf8(
                start + moment + ",\"value\":{\"stderr\":"@ + text + "}}}}}"@,
            )
            &&& crate::server::handler::tasks::event_message(ServerTaskNotification::ExitCode(code))
                == vstd::utf8::encode_utf8(
                "{\"success\":{\"body\":{\"exit_code\":"@ + crate::text::signed_decimal(code as int)
                    + "}}}"@,
            )
        }),
{
    reveal_strlit("{\"success\":{\"body\":");
    reveal_strlit("{\"success\":{\"body\":{\"output\":{\"timestamp\":");
    reveal_strlit("{\"success\":{\"body\":{\"exit_code\":");
    reveal_strlit("{\"output\":");
    reveal_strlit("{\"exit_code\":");
    reveal_strlit("{\"timestamp\":");
    reveal_strlit(",\"value\":");
    reveal_strlit(",\"value\":{\"stdout\":");
    reveal_strlit(",\"value\":{\"stderr\":");
    reveal_strlit("{\"stdout\":");
    reveal_strlit("{\"stderr\":");
    reveal_strlit("}");
    reveal_strlit("}}");
    reveal_strlit("}}}");
    reveal_strlit("}}}}}");
    let moment = timestamp.json();
    let text = line.json();
    let start = "{\"success\":{\"body\":{\"output\":{\"timestamp\":"@;
    let stdout = "{\"success\":{\"body\":"@ + ("{\"output\":"@ + ("{\"timestamp\":"@ + moment
        + ",\"value\":"@ + ("{\"stdout\":"@ + text + "}"@) + "}"@) + "}"@) + "}}"@;
    assert(stdout =~= start + moment + ",\"value\":{\"stdout\":"@ + text + "}}}}}"@);
    let stderr = "{\"success\":{\"body\":"@ + ("{\"output\":"@ + ("{\"timestamp\":"@ + moment
        + ",\"value\":"@ + ("{\"stderr\":"@ + text + "}"@) + "}"@) + "}"@) + "}}"@;
    assert(stderr =~= start + moment + ",\"value\":{\"stderr\":"@ + text + "}}}}}"@);
    let number = crate::text::signed_decimal(code as int);
    let exit = "{\"success\":{\"body\":"@ + ("{\"exit_code\":"@ + number + "}"@) + "}}"@;
    assert(exit =~= "{\"success\":{\"body\":{\"exit_code\":"@ + number + "}}}"@);
}

/// How a launch gets on is told with the place that the upload stands at, or with
/// the moment of the start; and a refusal is told with its reason.
pub proof fn law_statuses_are_told_like_this(offset: usize, started_on: Timestamp)
    ensures
        crate::server::handler::tasks::status_message(TaskLaunchStatus::AwaitingFiles { offset })
            == vstd::utf8::encode_utf8(
            "{\"success\":{\"body\":{\"awaiting_files\":{\"offset\":"@ + crate::text::decimal(
                offset as nat,
            ) + "}}}}"@,
        ),
        crate::server::handler::tasks::status_message(TaskLaunchStatus::Launched { started_on })
            == vstd::utf8::encode_utf8(
            "{\"success\":{\"body\":{\"launched\":{\"started_on\":"@ + outside::json_moment(
                started_on.seconds(),
                started_on.nanoseconds(),
            ) + "}}}}"@,
        ),
        crate::server::handler::tasks::refusal_message(ServerErrorResponse::CannotLaunchScript)
            == vstd::utf8::encode_utf8("{\"failure\":{\"error\":\"cannot_launch_script\"}}"@),
        crate::server::handler::tasks::refusal_message(ServerErrorResponse::ScriptNotFound)
            == vstd::utf8::encode_utf8("{\"failure\":{\"error\":\"script_not_found\"}}"@),
        crate::server::handler::tasks::refusal_message(ServerErrorResponse::Unknown)
            == vstd::utf8::encode_utf8("{\"failure\":{\"error\":\"unknown\"}}"@),
{
    reveal_strlit("{\"success\":{\"body\":");
    reveal_strlit("{\"awaiting_files\":{\"offset\":");
    reveal_strlit("{\"launched\":{\"started_on\":");
    reveal_strlit("{\"success\":{\"body\":{\"awaiting_files\":{\"offset\":");
    reveal_strlit("{\"success\":{\"body\":{\"launched\":{\"started_on\":");
    reveal_strlit("{\"failure\":{\"error\":");
    reveal_strlit("\"cannot_launch_script\"");
    reveal_strlit("\"script_not_found\"");
    reveal_strlit("\"unknown\"");
    reveal_strlit("{\"failure\":{\"error\":\"cannot_launch_script\"}}");
    reveal_strlit("{\"failure\":{\"error\":\"script_not_found\"}}");
    reveal_strlit("{\"failure\":{\"error\":\"unknown\"}}");
    reveal_strlit("}}");
    reveal_strlit("}}}}");
    let place = crate::text::decimal(offset as nat);
    assert("{\"success\":{\"body\":"@ + ("{\"awaiting_files\":{\"offset\":"@ + place + "}}"@)
        + "}}"@ =~= "{\"success\":{\"body\":{\"awaiting_files\":{\"offset\":"@ + place + "}}}}"@);
    let moment = started_on.json();
    assert("{\"success\":{\"body\":"@ + ("{\"launched\":{\"started_on\":"@ + moment + "}}"@)
        + "}}"@ =~= "{\"success\":{\"body\":{\"launched\":{\"started_on\":"@ + moment + "}}}}"@);
    assert("{\"failure\":{\"error\":"@ + "\"cannot_launch_script\""@ + "}}"@
        =~= "{\"failure\":{\"error\":\"cannot_launch_script\"}}"@);
    assert("{\"failure\":{\"error\":"@ + "\"script_not_found\""@ + "}}"@
        =~= "{\"failure\":{\"error\":\"script_not_found\"}}"@);
    assert("{\"failure\":{\"error\":"@ + "\"unknown\""@ + "}}"@
        =~= "{\"failure\":{\"error\":\"unknown\"}}"@);
}

/// A launch request is told with the script's name, its arguments and what is to be
/// uploaded; a piece of an upload with the place that it starts at and its bytes;
/// and claims and keys are written with their fields in order.
pub proof fn law_requests_are_told_like_this(
    request: StartTaskRequest,
    file: FileAttachment,
    chunk: FileChunk,
    claims: Claims,
    key: ClientKey,
)
    ensures
        crate::api::client::launch_message(request) == vstd::utf8::encode_utf8(
            "{\"body\":"@ + "{\"script\":"@ + outside::json_quoted(request.script_name@)
                + ",\"args\":"@ + request.arguments.json() + ",\"file\":"@ + request.file.json()
                + "}"@ + "}"@,
        ),
        Some(file).json() == "{\"hash\":"@ + file.hash.json() + ",\"size\":"@
            + crate::text::decimal(file.size as nat) + "}"@,
        crate::api::client::chunk_message(chunk.offset, chunk.data@) == vstd::utf8::encode_utf8(
            "{\"body\":"@ + "{\"offset\":"@ + crate::text::decimal(chunk.offset as nat)
                + ",\"data\":"@ + chunk.data.json() + "}"@ + "}"@,
        ),
        claims.json() == "{\"sub\":"@ + outside::json_quoted(claims.sub@) + ",\"exp\":"@
            + crate::text::decimal(claims.exp as nat) + "}"@,
        key.json() == "{\"client_name\":"@ + outside::json_quoted(key.client_name@)
            + ",\"key\":"@ + key.key.json() + "}"@,
{
    let script = request.script_name.json();
    let arguments = request.arguments.json();
    let upload = request.file.json();
    assert("{\"body\":"@ + ("{\"script\":"@ + script + ",\"args\":"@ + arguments + ",\"file\":"@
        + upload + "}"@) + "}"@ =~= "{\"body\":"@ + "{\"script\":"@ + script + ",\"args\":"@
        + arguments + ",\"file\":"@ + upload + "}"@ + "}"@);
    let offset = chunk.offset.json();
    let data = chunk.data.json();
    assert("{\"body\":"@ + ("{\"offset\":"@ + offset + ",\"data\":"@ + data + "}"@) + "}"@
        =~= "{\"body\":"@ + "{\"offset\":"@ + offset + ",\"data\":"@ + data + "}"@ + "}"@);
}

/// An address keeps the parts that its text has, and has the scheme `wss` and the
/// path `/` where the text has none; a text without a host is no address, and what
/// is no URI is none either.
pub proof fn law_addresses_keep_their_parts(text: Seq<char>)
    ensures
        match outside::uri_parts(text) {
            None => crate::server_address::address_of(text) == Err::<AddressModel, AddressError>(
                AddressError::InvalidFormat,
            ),
            Some((_, None, _)) => crate::server_address::address_of(text) == Err::<
                AddressModel,
                AddressError,
            >(AddressError::MissingAuthority),
            Some((scheme, Some(authority), path)) => {
                &&& crate::server_address::address_of(text) matches Ok(address)
                &&& address.authority == authority
                &&& scheme matches Some(scheme) ==> address.scheme == scheme
                &&& scheme is None ==> address.scheme == "wss"@
                &&& path matches Some(path) ==> address.path_and_query == path
                &&& path is None ==> address.path_and_query == "/"@
            },
        },
{
}

/// An address is written as a URI with its scheme, its authority and its path with
/// the query, and with a slash where the path is empty.
pub proof fn law_uris_are_put_together(address: AddressModel)
    ensures
        ({
            let rest = address.path_and_query;
            crate::server_address::uri_of(address) == address.scheme + "://"@ + address.authority
                + (if rest.len() == 0 || rest[0] == '?' {
                "/"@ + rest
            } else {
                rest
            })
        }),
{
}

/// The path of an address is what stands before the first question mark, or a slash
/// where nothing does; the query is what stands after it.
pub proof fn law_paths_end_at_the_question_mark(
    path: Seq<char>,
    query: Seq<char>,
    found: Seq<char>,
    asked: Option<Seq<char>>,
)
    requires
        !path.contains('?'),
    ensures
        ({
            let shown = if path.len() == 0 {
                "/"@
            } else {
                path
            };
            let both = path + seq!['?'] + query;
            &&& crate::server_address::is_path_of(path, found) <==> found == shown
            &&& crate::server_address::is_query_of(path, asked) <==> asked is None
            &&& crate::server_address::is_path_of(both, found) <==> found == shown
            &&& crate::server_address::is_query_of(both, asked) <==> asked == Some(query)
        }),
{
    let both = path + seq!['?'] + query;
    let end = path.len() as int;
    assert(both[end] == '?');
    assert forall|i: int| 0 <= i < end implies both[i] != '?' by {
        assert(both[i] == path[i]);
        assert(path.contains(path[i]));
    }
    assert(both.contains('?'));
    assert(crate::server_address::ends_path(path, end));
    assert(crate::server_address::ends_path(both, end));
    assert forall|other: int| crate::server_address::ends_path(path, other) implies other == end by {
        if crate::text::first_occurrence(path, '?', other) {
            assert(path.contains(path[other]));
        }
    }
    assert forall|other: int| crate::server_address::ends_path(both, other) implies other == end by {
        assert(crate::text::first_occurrence(both, '?', other));
    }
    assert(path.subrange(0, end) =~= path);
    assert(both.subrange(0, end) =~= path);
    assert(both.subrange(end + 1, both.len() as int) =~= query);
}

/// A header value's text is its bytes, one character each, if all of them are
/// visible ASCII, spaces or tabs; and a value may hold any bytes but control
/// characters other than the tab.
pub proof fn law_headers_are_read_byte_by_byte(bytes: Seq<u8>)
    ensures
        crate::api::header_value::valid_header_bytes(bytes) <==> forall|i: int|
            0 <= i < bytes.len() ==> (#[trigger] bytes[i]) == 9 || (bytes[i] >= 32 && bytes[i]
                != 127),
        match crate::api::header_value::header_text(bytes) {
            Some(text) => {
                &&& text.len() == bytes.len()
                &&& forall|i: int|
                    0 <= i < bytes.len() ==> (#[trigger] text[i]) as int == bytes[i] as int && (
                    bytes[i] == 9 || 32 <= bytes[i] < 127)
            },
            None => exists|i: int|
                0 <= i < bytes.len() && !((#[trigger] bytes[i]) == 9 || 32 <= bytes[i] < 127),
        },
{
    if forall|i: int|
        0 <= i < bytes.len() ==> (#[trigger] bytes[i]) == 9 || (bytes[i] >= 32 && bytes[i] != 127) {
        assert forall|i: int| 0 <= i < bytes.len() implies outside::is_header_byte(
            #[trigger] bytes[i],
        ) by {}
    }
    if crate::api::header_value::valid_header_bytes(bytes) {
        assert forall|i: int| 0 <= i < bytes.len() implies (#[trigger] bytes[i]) == 9 || (bytes[i]
            >= 32 && bytes[i] != 127) by {
            assert(outside::is_header_byte(bytes[i]));
        }
    }
    if let Some(text) = crate::api::header_value::header_text(bytes) {
        assert forall|i: int| 0 <= i < bytes.len() implies (#[trigger] text[i]) as int
            == bytes[i] as int && (bytes[i] == 9 || 32 <= bytes[i] < 127) by {
            assert(outside::is_header_text_byte(bytes[i]));
        }
    } else {
        let bad = choose|i: int|
            0 <= i < bytes.len() && !outside::is_header_text_byte(#[trigger] bytes[i]);
        assert(!(bytes[bad] == 9 || 32 <= bytes[bad] < 127));
    }
}

} // verus!
