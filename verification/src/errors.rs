use vstd::prelude::*;

verus! {

/// HTTP status answered when the request itself is malformed.
pub const BAD_REQUEST: u16 = 400;

/// HTTP status answered when the server could not do its part.
pub const INTERNAL_SERVER_ERROR: u16 = 500;

/// What an error holds, as mathematical values.
pub struct ErrorView {
    pub code: u16,
    pub message: Seq<char>,
}

/// An error answered to a client: an HTTP status code (always a valid
/// three-digit status) and a message.
#[derive(Debug)]
pub struct FogSpaceError {
    code: u16,
    message: String,
}

/// A missing `task_id` in a request.
pub open spec fn missing_task_id_error() -> ErrorView {
    ErrorView { code: 400, message: "Missing task_id"@ }
}

/// A `task_id` in a request that is no UUID.
pub open spec fn invalid_task_id_error() -> ErrorView {
    ErrorView { code: 400, message: "Invalid task_id"@ }
}

/// The shared service state could not be found for a request.
pub open spec fn context_unavailable_error() -> ErrorView {
    ErrorView { code: 500, message: "failed to obtain FogSpaceCtx"@ }
}

/// The thread that runs a search could not be started or joined.
pub open spec fn calculate_thread_error() -> ErrorView {
    ErrorView { code: 500, message: "calculate_thread Join Error!"@ }
}

/// A request body that could not be read; `detail` says why.
pub open spec fn invalid_body_error(detail: Seq<char>) -> ErrorView {
    ErrorView { code: 400, message: "invalid body: "@ + detail }
}

/// An outcome with its error, if any, taken by its view.
pub open spec fn outcome_view<T>(r: Result<T, FogSpaceError>) -> Result<T, ErrorView> {
    match r {
        Ok(v) => Ok(v),
        Err(e) => Err(e@),
    }
}

/// The character of a decimal digit.
pub open spec fn digit_char(d: nat) -> char {
    if d == 0 {
        '0'
    } else if d == 1 {
        '1'
    } else if d == 2 {
        '2'
    } else if d == 3 {
        '3'
    } else if d == 4 {
        '4'
    } else if d == 5 {
        '5'
    } else if d == 6 {
        '6'
    } else if d == 7 {
        '7'
    } else if d == 8 {
        '8'
    } else {
        '9'
    }
}

/// The decimal notation of a natural number, without leading zeros.
pub open spec fn decimal_text(n: nat) -> Seq<char>
    decreases n,
{
    if n < 10 {
        seq![digit_char(n)]
    } else {
        decimal_text(n / 10).push(digit_char(n % 10))
    }
}

/// The value of a decimal digit character (the inverse of `digit_char` on
/// 0..=9).
pub open spec fn digit_value(c: char) -> nat {
    if c == '0' {
        0
    } else if c == '1' {
        1
    } else if c == '2' {
        2
    } else if c == '3' {
        3
    } else if c == '4' {
        4
    } else if c == '5' {
        5
    } else if c == '6' {
        6
    } else if c == '7' {
        7
    } else if c == '8' {
        8
    } else {
        9
    }
}

/// The number that a text of decimal digits denotes.
pub open spec fn decimal_value(text: Seq<char>) -> nat
    decreases text.len(),
{
    if text.len() == 0 {
        0
    } else {
        decimal_value(text.drop_last()) * 10 + digit_value(text.last())
    }
}

/// Writing a number in decimal loses nothing: the text reads back as the
/// number, so two numbers with the same text are equal.
pub proof fn lemma_decimal_text_reads_back(n: nat)
    ensures
        decimal_value(decimal_text(n)) == n,
        decimal_text(n).len() > 0,
    decreases n,
{
    if n >= 10 {
        lemma_decimal_text_reads_back(n / 10);
        let t = decimal_text(n);
        assert(t.drop_last() == decimal_text(n / 10));
        assert(t.last() == digit_char(n % 10));
        assert(digit_value(digit_char(n % 10)) == n % 10);
        assert(n == (n / 10) * 10 + n % 10);
        assert(decimal_value(t) == decimal_value(t.drop_last()) * 10 + digit_value(t.last()));
    } else {
        let t = decimal_text(n);
        assert(t.drop_last() == Seq::<char>::empty());
        assert(digit_value(digit_char(n)) == n);
        assert(decimal_value(t) == decimal_value(t.drop_last()) * 10 + digit_value(t.last()));
    }
}

/// Two numbers written alike are the same number.
pub proof fn lemma_decimal_text_injective(a: nat, b: nat)
    requires
        decimal_text(a) == decimal_text(b),
    ensures
        a == b,
{
    lemma_decimal_text_reads_back(a);
    lemma_decimal_text_reads_back(b);
}

/// The reason phrase that the HTTP registry gives a status code, if any.
pub uninterp spec fn canonical_reason_phrase(code: u16) -> Option<Seq<char>>;

/// How a status code is written: its number, a space, and its reason phrase
/// (or `<unknown status code>` where the code has none).
pub open spec fn status_line_text(code: u16) -> Seq<char> {
    decimal_text(code as nat) + " "@ + match canonical_reason_phrase(code) {
        Some(phrase) => phrase,
        None => "<unknown status code>"@,
    }
}

/// How an error is written for a client.
pub open spec fn error_text(e: ErrorView) -> Seq<char> {
    "FogSpaceError! code:"@ + status_line_text(e.code) + ", err:"@ + e.message
}

/// Calls `StatusCode::from_u16` and then `StatusCode::canonical_reason` of
/// the `http` crate (re-exported by salvo). Claimed: the phrase handed back is
/// the registry's phrase for `code`, named `canonical_reason_phrase`; the
/// registry itself (a table of some sixty entries) is left unstated.
#[verifier::external_body]
fn canonical_reason(code: u16) -> (r: Option<String>)
    requires
        100 <= code <= 999,
    ensures
        match r {
            Some(t) => canonical_reason_phrase(code) == Some(t@),
            None => canonical_reason_phrase(code) is None,
        },
{
    match salvo::http::StatusCode::from_u16(code) {
        Ok(status) => match status.canonical_reason() {
            Some(phrase) => Some(phrase.to_string()),
            None => None,
        },
        Err(_) => None,
    }
}

/// The text of one decimal digit.
fn digit_str(d: u64) -> (r: &'static str)
    requires
        d < 10,
    ensures
        r@ == seq![digit_char(d as nat)],
{
    proof {
        reveal_strlit("0");
        reveal_strlit("1");
        reveal_strlit("2");
        reveal_strlit("3");
        reveal_strlit("4");
        reveal_strlit("5");
        reveal_strlit("6");
        reveal_strlit("7");
        reveal_strlit("8");
        reveal_strlit("9");
    }
    if d == 0 {
        "0"
    } else if d == 1 {
        "1"
    } else if d == 2 {
        "2"
    } else if d == 3 {
        "3"
    } else if d == 4 {
        "4"
    } else if d == 5 {
        "5"
    } else if d == 6 {
        "6"
    } else if d == 7 {
        "7"
    } else if d == 8 {
        "8"
    } else {
        "9"
    }
}

/// Writes a number in decimal.
pub fn decimal_string(n: u64) -> (s: String)
    ensures
        s@ == decimal_text(n as nat),
    decreases n,
{
    if n < 10 {
        String::from_str(digit_str(n))
    } else {
        let mut s = decimal_string(n / 10);
        s.append(digit_str(n % 10));
        s
    }
}

/// Writes a status code as `StatusCode`'s `Display` does: number, space,
/// reason phrase.
pub fn status_line(code: u16) -> (s: String)
    requires
        100 <= code <= 999,
    ensures
        s@ == status_line_text(code),
{
    let mut s = decimal_string(code as u64);
    s.append(" ");
    match canonical_reason(code) {
        Some(phrase) => s.append(phrase.as_str()),
        None => s.append("<unknown status code>"),
    }
    s
}

impl View for FogSpaceError {
    type V = ErrorView;

    closed spec fn view(&self) -> ErrorView {
        ErrorView { code: self.code, message: self.message@ }
    }
}

impl FogSpaceError {
    #[verifier::type_invariant]
    closed spec fn valid_status(self) -> bool {
        100 <= self.code <= 999
    }

    /// Makes an error with a valid status code and a message.
    pub fn new(code: u16, message: String) -> (e: Self)
        requires
            100 <= code <= 999,
        ensures
            e@ == (ErrorView { code, message: message@ }),
    {
        FogSpaceError { code, message }
    }

    /// `task_id` is missing from the request.
    pub fn missing_task_id() -> (e: Self)
        ensures
            e@ == missing_task_id_error(),
    {
        FogSpaceError { code: BAD_REQUEST, message: String::from_str("Missing task_id") }
    }

    /// `task_id` is no UUID.
    pub fn invalid_task_id() -> (e: Self)
        ensures
            e@ == invalid_task_id_error(),
    {
        FogSpaceError { code: BAD_REQUEST, message: String::from_str("Invalid task_id") }
    }

    /// The shared service state is not in the request's depot.
    pub fn context_unavailable() -> (e: Self)
        ensures
            e@ == context_unavailable_error(),
    {
        FogSpaceError {
            code: INTERNAL_SERVER_ERROR,
            message: String::from_str("failed to obtain FogSpaceCtx"),
        }
    }

    /// The search thread could not be started or joined.
    pub fn calculate_thread_failed() -> (e: Self)
        ensures
            e@ == calculate_thread_error(),
    {
        FogSpaceError {
            code: INTERNAL_SERVER_ERROR,
            message: String::from_str("calculate_thread Join Error!"),
        }
    }

    /// The request body could not be read; `detail` says why.
    pub fn invalid_body(detail: &str) -> (e: Self)
        ensures
            e@ == invalid_body_error(detail@),
    {
        let mut message = String::from_str("invalid body: ");
        message.append(detail);
        FogSpaceError { code: BAD_REQUEST, message }
    }

    /// The status code, always within 100..=999.
    pub fn code(&self) -> (c: u16)
        ensures
            c == self@.code,
            100 <= c <= 999,
    {
        proof {
            use_type_invariant(self);
        }
        self.code
    }

    /// The message.
    pub fn message(&self) -> (m: &str)
        ensures
            m@ == self@.message,
    {
        self.message.as_str()
    }

    /// The text of this error, as its `Display` shows it:
    /// `FogSpaceError! code:<status line>, err:<message>`.
    pub fn display_text(&self) -> (s: String)
        ensures
            s@ == error_text(self@),
    {
        proof {
            use_type_invariant(self);
        }
        let mut s = String::from_str("FogSpaceError! code:");
        let line = status_line(self.code);
        s.append(line.as_str());
        s.append(", err:");
        s.append(self.message.as_str());
        proof {
            reveal_strlit("FogSpaceError! code:");
        }
        s
    }
}

} // verus!
