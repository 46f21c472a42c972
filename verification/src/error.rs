//! The single error type of the client: what failed, and the platform's code.

use vstd::prelude::*;
use vstd::string::StringExecFns;

verus! {

/// The character of a decimal digit.
pub open spec fn digit_char(digit: nat) -> char
    recommends
        digit < 10,
{
    if digit == 0 {
        '0'
    } else if digit == 1 {
        '1'
    } else if digit == 2 {
        '2'
    } else if digit == 3 {
        '3'
    } else if digit == 4 {
        '4'
    } else if digit == 5 {
        '5'
    } else if digit == 6 {
        '6'
    } else if digit == 7 {
        '7'
    } else if digit == 8 {
        '8'
    } else {
        '9'
    }
}

/// The decimal digits of a number, most significant first, without leading
/// zeros.
pub open spec fn decimal(n: nat) -> Seq<char>
    decreases n,
{
    if n < 10 {
        seq![digit_char(n)]
    } else {
        decimal(n / 10).push(digit_char(n % 10))
    }
}

/// The line of text that shows an error.
pub open spec fn error_text(error: ErrorView) -> Seq<char> {
    "RequestError: "@ + error.description + " (Code: "@ + decimal(error.error_code as nat)
        + ")"@
}

/// A decimal digit as text.
fn digit_str(digit: u32) -> (text: &'static str)
    requires
        digit < 10,
    ensures
        text@ == seq![digit_char(digit as nat)],
{
    proof {
        reveal_strlit("0");
        reveal_strlit("1");
        reveal_strlit("2");
        reveal_strlit("3");
        reveal_strlit("4");
        reveal_strlit("5");
        reveal_strlit("6");
        reveal_strlit("7");
        reveal_strlit("8");
        reveal_strlit("9");
    }
    let text = match digit {
        0 => "0",
        1 => "1",
        2 => "2",
        3 => "3",
        4 => "4",
        5 => "5",
        6 => "6",
        7 => "7",
        8 => "8",
        _ => "9",
    };
    assert(text@ =~= seq![digit_char(digit as nat)]);
    text
}

/// Appends the decimal digits of a number to a text.
fn append_decimal(text: &mut String, n: u32)
    ensures
        final(text)@ == old(text)@ + decimal(n as nat),
    decreases n,
{
    if n >= 10 {
        append_decimal(text, n / 10);
    }
    text.append(digit_str(n % 10));
    assert(text@ =~= old(text)@ + decimal(n as nat));
}

/// What a caller can observe of a [`RequestError`].
pub struct ErrorView {
    /// The characters of the description.
    pub description: Seq<char>,
    /// The platform error code.
    pub error_code: u32,
}

/// A failed request: a fixed description of the step that failed and the
/// platform error code captured when it failed.
#[derive(Debug)]
pub struct RequestError {
    description: &'static str,
    error_code: u32,
}

impl View for RequestError {
    type V = ErrorView;

    closed spec fn view(&self) -> ErrorView {
        ErrorView { description: self.description@, error_code: self.error_code }
    }
}

impl RequestError {
    /// An error with the given description and platform code.
    #[inline]
    pub fn new(description: &'static str, error_code: u32) -> (error: Self)
        ensures
            error@ == (ErrorView { description: description@, error_code }),
    {
        Self { description, error_code }
    }

    /// The description this error was made with.
    #[inline]
    pub fn description(&self) -> (description: &'static str)
        ensures
            description@ == self@.description,
    {
        self.description
    }

    /// The platform code this error was made with.
    #[inline]
    pub fn error_code(&self) -> (code: u32)
        ensures
            code == self@.error_code,
    {
        self.error_code
    }

    /// The line of text that shows this error: its description, and its
    /// code in decimal.
    pub fn to_string(&self) -> (text: String)
        ensures
            text@ == error_text(self@),
    {
        let mut text = String::new();
        text.append("RequestError: ");
        text.append(self.description);
        text.append(" (Code: ");
        append_decimal(&mut text, self.error_code);
        text.append(")");
        assert(text@ =~= error_text(self@));
        text
    }
}

/// The result of an operation that fails with a [`RequestError`].
pub type ReqResult<T> = core::result::Result<T, RequestError>;

/// The view of a textual result: the characters on success, the error's
/// view on failure.
pub open spec fn text_result_view(result: ReqResult<String>) -> Result<Seq<char>, ErrorView> {
    match result {
        Ok(text) => Ok(text@),
        Err(error) => Err(error@),
    }
}

} // verus!
