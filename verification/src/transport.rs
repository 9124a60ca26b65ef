//! What the transport hands back for one request, in plain values.
//!
//! This crate does no I/O. Whoever sends a request reports what happened as
//! an [`HttpReply`], and the crate decides what it means.

use vstd::prelude::*;

verus! {

/// What came of sending one request.
#[derive(Debug, PartialEq, Eq)]
pub enum HttpReply {
    /// No answer was had: the request could not be sent, the connection
    /// failed, or the body could not be read. `issue` is the transport's
    /// account of it.
    Failed { issue: String },
    /// The server answered. `reason` is the phrase that goes with the status
    /// code, where the transport knows one. `body` counts only where the
    /// status is a success.
    Response { status: u16, reason: Option<String>, body: String },
}

/// An [`HttpReply`] as the contracts see it.
pub enum HttpReplyView {
    Failed { issue: Seq<char> },
    Response { status: u16, reason: Option<Seq<char>>, body: Seq<char> },
}

impl View for HttpReply {
    type V = HttpReplyView;

    open spec fn view(&self) -> HttpReplyView {
        match self {
            HttpReply::Failed { issue } => HttpReplyView::Failed { issue: issue@ },
            HttpReply::Response { status, reason, body } => HttpReplyView::Response {
                status: *status,
                reason: reason_view(*reason),
                body: body@,
            },
        }
    }
}

/// A status is a success when it lies in 200..=299.
pub open spec fn status_is_success(status: u16) -> bool {
    200 <= status <= 299
}

/// Whether the status is a success.
pub fn is_success(status: u16) -> (success: bool)
    ensures
        success == status_is_success(status),
{
    200 <= status && status <= 299
}

/// The character of one decimal digit.
pub open spec fn digit(d: nat) -> char
    recommends
        d < 10,
{
    if d == 0 {
        '0'
    } else if d == 1 {
        '1'
    } else if d == 2 {
        '2'
    } else if d == 3 {
        '3'
    } else if d == 4 {
        '4'
    } else if d == 5 {
        '5'
    } else if d == 6 {
        '6'
    } else if d == 7 {
        '7'
    } else if d == 8 {
        '8'
    } else {
        '9'
    }
}

/// A number in decimal, without leading zeros.
pub open spec fn decimal(n: nat) -> Seq<char>
    decreases n,
{
    if n < 10 {
        seq![digit(n)]
    } else {
        decimal(n / 10).push(digit(n % 10))
    }
}

/// What stands for the reason phrase of a status that has none.
pub open spec fn unknown_status() -> Seq<char> {
    "<unknown status code>"@
}

/// A status as it is shown: the code in decimal, a space, and the reason
/// phrase, or [`unknown_status`] where there is none.
pub open spec fn status_line(status: u16, reason: Option<Seq<char>>) -> Seq<char> {
    decimal(status as nat) + " "@ + match reason {
        Some(phrase) => phrase,
        None => unknown_status(),
    }
}

fn digit_text(d: u16) -> (text: &'static str)
    requires
        d < 10,
    ensures
        text@ == seq![digit(d as nat)],
{
    proof {
        reveal_strlit("0");
        reveal_strlit("1");
        reveal_strlit("2");
        reveal_strlit("3");
        reveal_strlit("4");
        reveal_strlit("5");
        reveal_strlit("6");
        reveal_strlit("7");
        reveal_strlit("8");
        reveal_strlit("9");
    }
    let text = if d == 0 {
        "0"
    } else if d == 1 {
        "1"
    } else if d == 2 {
        "2"
    } else if d == 3 {
        "3"
    } else if d == 4 {
        "4"
    } else if d == 5 {
        "5"
    } else if d == 6 {
        "6"
    } else if d == 7 {
        "7"
    } else if d == 8 {
        "8"
    } else {
        "9"
    };
    assert(text@ =~= seq![digit(d as nat)]);
    text
}

/// Appends a number in decimal to a text.
pub fn push_decimal(text: &mut String, n: u16)
    ensures
        final(text)@ == old(text)@ + decimal(n as nat),
    decreases n,
{
    if n >= 10 {
        push_decimal(text, n / 10);
    }
    let ghost before = text@;
    text.append(digit_text(n % 10));
    assert(before + seq![digit((n % 10) as nat)] =~= before.push(digit((n % 10) as nat)));
    assert(old(text)@ + decimal((n / 10) as nat).push(digit((n % 10) as nat)) =~= (old(text)@
        + decimal((n / 10) as nat)).push(digit((n % 10) as nat)));
}

/// A reason phrase as the contracts see it.
pub open spec fn reason_view(reason: Option<String>) -> Option<Seq<char>> {
    match reason {
        Some(phrase) => Some(phrase@),
        None => None,
    }
}

/// Appends a status to a text, as [`status_line`] shows it.
pub fn push_status_line(text: &mut String, status: u16, reason: &Option<String>)
    ensures
        final(text)@ == old(text)@ + status_line(status, reason_view(*reason)),
{
    push_decimal(text, status);
    text.append(" ");
    match reason {
        Some(phrase) => text.append(phrase.as_str()),
        None => text.append("<unknown status code>"),
    }
    assert(text@ =~= old(text)@ + status_line(status, reason_view(*reason)));
}

} // verus!
