//! Choice of the connection to the mail relay: which port, and whether TLS
//! is spoken from the first byte or negotiated after a plaintext greeting.
//! The choice depends on the number of the port and on nothing else.

use vstd::prelude::*;
use vstd::string::*;
use crate::email::{EmailError, EmailErrorView};

verus! {

/// The port on which TLS is spoken from the start of the connection.
pub const IMPLICIT_TLS_PORT: u16 = 465;

/// How the connection to the relay is secured.
#[derive(Debug, Clone, Copy, PartialEq, Eq, Structural)]
pub enum TlsMode {
    /// TLS is negotiated as the connection opens.
    Implicit,
    /// The connection opens in plaintext and is upgraded by `STARTTLS`.
    StartTls,
}

/// Whether `c` is one of the ten ASCII digits.
pub open spec fn is_digit(c: char) -> bool {
    '0' <= c <= '9'
}

/// The number that the digit `c` stands for.
pub open spec fn digit_value(c: char) -> int {
    c as int - '0' as int
}

/// The number that a string of digits denotes in base ten.
pub open spec fn digits_value(digits: Seq<char>) -> int
    decreases digits.len(),
{
    if digits.len() == 0 {
        0
    } else {
        digits_value(digits.drop_last()) * 10 + digit_value(digits.last())
    }
}

/// Whether every character of `s` is a digit.
pub open spec fn all_digits(s: Seq<char>) -> bool {
    forall|i: int| 0 <= i < s.len() ==> is_digit(#[trigger] s[i])
}

/// `raw` without the one plus sign that may lead it.
pub open spec fn unsigned_part(raw: Seq<char>) -> Seq<char> {
    if raw.len() > 0 && raw[0] == '+' {
        raw.drop_first()
    } else {
        raw
    }
}

/// The port that `raw` denotes: one or more digits, with an optional
/// leading plus sign, whose value fits in 16 bits. Anything else denotes
/// no port.
pub open spec fn parsed_port(raw: Seq<char>) -> Option<u16> {
    let digits = unsigned_part(raw);
    if digits.len() > 0 && all_digits(digits) && digits_value(digits) <= u16::MAX {
        Some(digits_value(digits) as u16)
    } else {
        None
    }
}

/// The mode that goes with a port.
pub open spec fn mode_for(port: u16) -> TlsMode {
    if port == IMPLICIT_TLS_PORT {
        TlsMode::Implicit
    } else {
        TlsMode::StartTls
    }
}

/// A longer string of digits denotes no smaller a number than its prefix.
proof fn lemma_digits_value_grows(digits: Seq<char>, k: int)
    requires
        all_digits(digits),
        0 <= k <= digits.len(),
    ensures
        0 <= digits_value(digits.take(k)) <= digits_value(digits),
    decreases digits.len() - k,
{
    if k == digits.len() {
        assert(digits.take(k) == digits);
        lemma_digits_value_nonnegative(digits);
    } else {
        lemma_digits_value_grows(digits, k + 1);
        let longer = digits.take(k + 1);
        assert(longer.drop_last() == digits.take(k));
        assert(is_digit(digits[k]));
        assert(longer.last() == digits[k]);
        lemma_digits_value_nonnegative(digits.take(k));
    }
}

/// A string of digits denotes no negative number.
proof fn lemma_digits_value_nonnegative(digits: Seq<char>)
    requires
        all_digits(digits),
    ensures
        0 <= digits_value(digits),
    decreases digits.len(),
{
    if digits.len() > 0 {
        assert(is_digit(digits.last()));
        lemma_digits_value_nonnegative(digits.drop_last());
    }
}

/// Reads a port number from text.
pub fn parse_port(raw: &str) -> (r: Option<u16>)
    ensures
        r == parsed_port(raw@),
{
    let n = raw.unicode_len();
    let mut i: usize = 0;
    if n > 0 && raw.get_char(0) == '+' {
        i = 1;
    }
    let start = i;
    if start == n {
        return None;
    }
    let ghost digits = unsigned_part(raw@);
    assert(digits == raw@.skip(start as int));
    let mut value: u32 = 0;
    assert(digits.take(0) == Seq::<char>::empty());
    while i < n
        invariant
            start <= i <= n,
            n == raw@.len(),
            digits == raw@.skip(start as int),
            digits == unsigned_part(raw@),
            all_digits(digits.take(i - start)),
            value == digits_value(digits.take(i - start)),
            value <= u16::MAX,
        decreases n - i,
    {
        let c = raw.get_char(i);
        let ghost k = i - start;
        assert(digits[k] == c);
        if !('0' <= c && c <= '9') {
            assert(!is_digit(digits[k]));
            return None;
        }
        let d: u32 = c as u32 - '0' as u32;
        let next: u32 = value * 10 + d;
        proof {
            let longer = digits.take(k + 1);
            assert(longer.drop_last() == digits.take(k));
            assert(longer.last() == c);
            assert forall|j: int| 0 <= j < longer.len() implies is_digit(#[trigger] longer[j]) by {
                if j < k {
                    assert(longer[j] == digits.take(k)[j]);
                }
            }
        }
        if next > 65535 {
            proof {
                if all_digits(digits) {
                    lemma_digits_value_grows(digits, k + 1);
                }
            }
            return None;
        }
        value = next;
        i += 1;
    }
    assert(digits.take(n - start) == digits);
    Some(value as u16)
}

/// Chooses how to secure the connection on `port`.
pub fn select_mode(port: u16) -> (r: TlsMode)
    ensures
        r == mode_for(port),
{
    if port == IMPLICIT_TLS_PORT {
        TlsMode::Implicit
    } else {
        TlsMode::StartTls
    }
}

/// The connection to open: where to, and how it is secured.
#[derive(Debug)]
pub struct Transport {
    pub host: String,
    pub port: u16,
    pub mode: TlsMode,
}

/// Mathematical model of a [`Transport`].
pub struct TransportView {
    pub host: Seq<char>,
    pub port: u16,
    pub mode: TlsMode,
}

impl View for Transport {
    type V = TransportView;

    open spec fn view(&self) -> TransportView {
        TransportView { host: self.host@, port: self.port, mode: self.mode }
    }
}

/// The transport that a host and the text of a port select.
pub open spec fn selected_transport(host: Seq<char>, port: Seq<char>) -> Result<
    TransportView,
    EmailErrorView,
> {
    match parsed_port(port) {
        None => Err(EmailErrorView::InvalidPort(port)),
        Some(number) => Ok(TransportView { host, port: number, mode: mode_for(number) }),
    }
}

/// The model of the outcome of selecting a transport.
pub open spec fn transport_outcome(r: Result<Transport, EmailError>) -> Result<
    TransportView,
    EmailErrorView,
> {
    match r {
        Ok(t) => Ok(t@),
        Err(e) => Err(e@),
    }
}

/// Selects the transport for a host and a port given as text.
pub fn select_transport(host: &str, port: &str) -> (r: Result<Transport, EmailError>)
    ensures
        transport_outcome(r) == selected_transport(host@, port@),
{
    match parse_port(port) {
        None => Err(EmailError::InvalidPort(String::from_str(port))),
        Some(number) => Ok(
            Transport { host: String::from_str(host), port: number, mode: select_mode(number) },
        ),
    }
}

/// The port alone selects the mode: 465 means TLS from the start, every
/// other port means `STARTTLS`; and a text that denotes no port selects
/// nothing.
pub proof fn lemma_transport_selection(host: Seq<char>, port: Seq<char>)
    ensures
        parsed_port(port) is None ==> selected_transport(host, port) is Err,
        parsed_port(port) is None ==> selected_transport(host, port)->Err_0
            == EmailErrorView::InvalidPort(port),
        parsed_port(port) is Some ==> selected_transport(host, port) is Ok,
        parsed_port(port) matches Some(n) ==> selected_transport(host, port)->Ok_0.port == n,
        parsed_port(port) is Some ==> selected_transport(host, port)->Ok_0.host == host,
        parsed_port(port) matches Some(n) ==> (selected_transport(host, port)->Ok_0.mode
            == TlsMode::Implicit <==> n == 465),
        parsed_port(port) matches Some(n) ==> (selected_transport(host, port)->Ok_0.mode
            == TlsMode::StartTls <==> n != 465),
{
}

} // verus!
