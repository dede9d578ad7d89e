//! The client side of the wire protocol: framing an outgoing message
//! and checking the echoed response.
//!
//! A client connects once, writes its message followed by one newline,
//! reads one line back, and accepts the exchange only when the response
//! — trimmed of its trailing newline — equals the message it sent.

use vstd::prelude::*;

verus! {

/// Errors a client observes during one exchange.
pub enum EchoClientError {
    /// Connecting, writing, or reading failed.
    IoError,
    /// The given deadline elapsed before a response line arrived.
    TimeoutPassed,
    /// The echoed line, trimmed of its trailing newline, did not equal
    /// the sent message; carries the raw response.
    BadResponse(String),
}

/// `s` without its trailing newline, when it ends in one.
pub open spec fn strip_trailing_newline(s: Seq<char>) -> Seq<char> {
    if s.len() > 0 && s[s.len() - 1] == '\n' {
        s.drop_last()
    } else {
        s
    }
}

/// The line a client puts on the wire for message `m`: the message and
/// one trailing newline. The protocol is newline-delimited, so `m`
/// itself must carry no embedded newline.
pub open spec fn wire_form(m: Seq<char>) -> Seq<char> {
    m.push('\n')
}

/// What the server sends back for a received line: the very same
/// bytes, unchanged.
pub open spec fn echoed_line(l: Seq<char>) -> Seq<char> {
    l
}

/// Frames `msg` for the wire: the message plus a trailing newline.
pub fn encode_wire_message(msg: &str) -> (r: String)
    ensures
        r@ == wire_form(msg@),
{
    proof {
        reveal_strlit("\n");
    }
    let mut r = String::from_str(msg);
    r.append("\n");
    proof {
        assert(r@ =~= wire_form(msg@));
    }
    r
}

/// The client's correctness check on one exchange: accepts exactly
/// when the response, trimmed of its trailing newline, equals the sent
/// message, and otherwise reports `BadResponse` carrying the raw
/// response.
pub fn check_echo_response(msg: &str, response: &str) -> (r: Result<(), EchoClientError>)
    ensures
        r is Ok <==> strip_trailing_newline(response@) == msg@,
        r matches Err(e) ==> e matches EchoClientError::BadResponse(b) && b@ == response@,
{
    let n = response.unicode_len();
    let m = msg.unicode_len();
    let stripped_len = if n > 0 && response.get_char(n - 1) == '\n' {
        n - 1
    } else {
        n
    };
    proof {
        assert(strip_trailing_newline(response@).len() == stripped_len);
        assert(forall|i: int|
            0 <= i < stripped_len ==> #[trigger] strip_trailing_newline(response@)[i]
                == response@[i]);
    }
    if stripped_len != m {
        return Err(EchoClientError::BadResponse(String::from_str(response)));
    }
    let mut i: usize = 0;
    while i < stripped_len
        invariant
            i <= stripped_len,
            stripped_len == strip_trailing_newline(response@).len(),
            stripped_len <= response@.len(),
            stripped_len == msg@.len(),
            forall|j: int|
                0 <= j < stripped_len ==> #[trigger] strip_trailing_newline(response@)[j]
                    == response@[j],
            forall|j: int| 0 <= j < i ==> #[trigger] response@[j] == msg@[j],
        decreases stripped_len - i,
    {
        if response.get_char(i) != msg.get_char(i) {
            return Err(EchoClientError::BadResponse(String::from_str(response)));
        }
        i = i + 1;
    }
    proof {
        assert(strip_trailing_newline(response@) =~= msg@);
    }
    Ok(())
}

/// Echo round trip: for a non-empty message without an embedded
/// newline, the server's echo of the framed message, trimmed of its
/// trailing newline, is the message itself — so `send_await` accepts
/// the response.
pub proof fn lemma_send_and_await_round_trip(m: Seq<char>)
    requires
        m.len() > 0,
        forall|i: int| 0 <= i < m.len() ==> m[i] != '\n',
    ensures
        strip_trailing_newline(echoed_line(wire_form(m))) == m,
{
    assert(wire_form(m)[wire_form(m).len() - 1] == '\n');
    assert(wire_form(m).drop_last() =~= m);
}

/// No cross-talk: each connection echoes only its own lines, so a
/// client that sent `m1` reads back exactly `m1`; and when another
/// client's message `m2` differs, the two echoed lines differ as well
/// — neither client can accept the other's response as its own.
pub proof fn lemma_no_cross_talk(m1: Seq<char>, m2: Seq<char>)
    requires
        m1.len() > 0,
        m2.len() > 0,
        forall|i: int| 0 <= i < m1.len() ==> m1[i] != '\n',
        forall|i: int| 0 <= i < m2.len() ==> m2[i] != '\n',
        m1 != m2,
    ensures
        strip_trailing_newline(echoed_line(wire_form(m1))) == m1,
        strip_trailing_newline(echoed_line(wire_form(m2))) == m2,
        echoed_line(wire_form(m1)) != echoed_line(wire_form(m2)),
{
    lemma_send_and_await_round_trip(m1);
    lemma_send_and_await_round_trip(m2);
    if wire_form(m1) == wire_form(m2) {
        assert(wire_form(m1).drop_last() =~= m1);
        assert(wire_form(m2).drop_last() =~= m2);
    }
}

} // verus!
