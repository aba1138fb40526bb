//! The error type shared by the encoder and the decoder.
use vstd::prelude::*;
use vstd::string::StringExecFns;

verus! {

/// libvpx status code: success (`VPX_CODEC_OK`).
pub const CODEC_OK: u32 = 0;

/// libvpx status code: unspecified error (`VPX_CODEC_ERROR`).
pub const CODEC_ERROR: u32 = 1;

/// libvpx status code: memory allocation failed (`VPX_CODEC_MEM_ERROR`).
pub const CODEC_MEM_ERROR: u32 = 2;

/// libvpx status code: a required feature is not supported (`VPX_CODEC_UNSUP_FEATURE`).
pub const CODEC_UNSUP_FEATURE: u32 = 6;

/// libvpx status code: an invalid parameter was given (`VPX_CODEC_INVALID_PARAM`).
pub const CODEC_INVALID_PARAM: u32 = 8;

/// The decimal digit `d` (0 to 9).
pub open spec fn digit_char(d: nat) -> char {
    if d == 0 {
        '0'
    } else if d == 1 {
        '1'
    } else if d == 2 {
        '2'
    } else if d == 3 {
        '3'
    } else if d == 4 {
        '4'
    } else if d == 5 {
        '5'
    } else if d == 6 {
        '6'
    } else if d == 7 {
        '7'
    } else if d == 8 {
        '8'
    } else {
        '9'
    }
}

/// The decimal digits of `n`, most significant first, with no leading zero.
pub open spec fn decimal(n: nat) -> Seq<char>
    decreases n,
{
    if n < 10 {
        seq![digit_char(n)]
    } else {
        decimal(n / 10) + seq![digit_char(n % 10)]
    }
}

/// The text of an error: `<function>() failed: code=<code>`, then
/// `, reason=<reason>` where there is a reason and `, detail=<detail>` where
/// there is a detail.
pub open spec fn error_message(
    function: Seq<char>,
    code: u32,
    reason: Option<Seq<char>>,
    detail: Option<Seq<char>>,
) -> Seq<char> {
    function + "() failed: code="@ + decimal(code as nat) + (match reason {
        Some(r) => ", reason="@ + r,
        None => seq![],
    }) + (match detail {
        Some(d) => ", detail="@ + d,
        None => seq![],
    })
}

/// The text of the decimal digit `d`.
fn digit_str(d: u32) -> (s: &'static str)
    requires
        d < 10,
    ensures
        s@ == seq![digit_char(d as nat)],
{
    proof {
        reveal_strlit("0");
        reveal_strlit("1");
        reveal_strlit("2");
        reveal_strlit("3");
        reveal_strlit("4");
        reveal_strlit("5");
        reveal_strlit("6");
        reveal_strlit("7");
        reveal_strlit("8");
        reveal_strlit("9");
    }
    match d {
        0 => "0",
        1 => "1",
        2 => "2",
        3 => "3",
        4 => "4",
        5 => "5",
        6 => "6",
        7 => "7",
        8 => "8",
        _ => "9",
    }
}

/// Appends the decimal digits of `n` to `s`.
fn append_decimal(s: &mut String, n: u32)
    ensures
        final(s)@ == old(s)@ + decimal(n as nat),
    decreases n,
{
    if n >= 10 {
        append_decimal(s, n / 10);
    }
    s.append(digit_str(n % 10));
    assert(final(s)@ =~= old(s)@ + decimal(n as nat));
}

/// An error of the encoder or the decoder.
///
/// It records the libvpx status code, the function that failed, the reason
/// that this library gives (where it gives one), and the detail text that
/// libvpx attached to its codec context (where there was one).
#[derive(Debug)]
pub struct Error {
    code: u32,
    function: &'static str,
    reason: Option<&'static str>,
    detail: Option<String>,
}

impl Error {
    /// The libvpx status code.
    pub closed spec fn spec_code(&self) -> u32 {
        self.code
    }

    /// The name of the function that failed.
    pub closed spec fn spec_function(&self) -> &'static str {
        self.function
    }

    /// The reason this library gives, if it gives one.
    pub closed spec fn spec_reason(&self) -> Option<&'static str> {
        self.reason
    }

    /// The detail text that libvpx attached, if any.
    pub closed spec fn spec_detail(&self) -> Option<String> {
        self.detail
    }

    /// Turns a libvpx status code into a result: `Ok` for `CODEC_OK`, otherwise
    /// an error that carries the code, the failing function and the detail
    /// text read from the codec context (no reason of this library's own).
    pub fn check(code: u32, function: &'static str, detail: Option<String>) -> (res: Result<
        (),
        Self,
    >)
        ensures
            res is Ok <==> code == CODEC_OK,
            res matches Err(e) ==> {
                &&& e.spec_code() == code
                &&& e.spec_function() == function
                &&& e.spec_reason() is None
                &&& e.spec_detail() == detail
            },
    {
        if code == CODEC_OK {
            Ok(())
        } else {
            Err(Self { code, function, reason: None, detail })
        }
    }

    /// Makes an error with a reason of this library's own and no detail.
    pub fn with_reason(code: u32, function: &'static str, reason: &'static str) -> (e: Self)
        ensures
            e.spec_code() == code,
            e.spec_function() == function,
            e.spec_reason() == Some(reason),
            e.spec_detail() is None,
    {
        Self { code, function, reason: Some(reason), detail: None }
    }

    /// The libvpx status code.
    pub fn code(&self) -> (c: u32)
        ensures
            c == self.spec_code(),
    {
        self.code
    }

    /// The name of the function that failed.
    pub fn function(&self) -> (f: &'static str)
        ensures
            f == self.spec_function(),
    {
        self.function
    }

    /// The reason this library gave when it made the error; `None` for an
    /// error that came from a libvpx status code.
    pub fn own_reason(&self) -> (r: Option<&'static str>)
        ensures
            r == self.spec_reason(),
    {
        self.reason
    }

    /// The reason of the error: the one this library gave, else
    /// `libvpx_reason`, libvpx's description of the status code
    /// (`vpx_codec_err_to_string`, where it gives one as UTF-8 text).
    pub fn reason(&self, libvpx_reason: Option<&'static str>) -> (r: Option<&'static str>)
        ensures
            r == (match self.spec_reason() {
                Some(own) => Some(own),
                None => libvpx_reason,
            }),
    {
        match self.reason {
            Some(own) => Some(own),
            None => libvpx_reason,
        }
    }

    /// The text of the error: the failing function, the code, the reason and
    /// the detail. Where this library gave no reason, `libvpx_reason` (libvpx's
    /// description of the code, where it has one) stands in its place.
    pub fn message(&self, libvpx_reason: Option<&str>) -> (m: String)
        ensures
            m@ == error_message(
                self.spec_function()@,
                self.spec_code(),
                match self.spec_reason() {
                    Some(r) => Some(r@),
                    None => match libvpx_reason {
                        Some(l) => Some(l@),
                        None => None,
                    },
                },
                match self.spec_detail() {
                    Some(d) => Some(d@),
                    None => None,
                },
            ),
    {
        let mut m = String::from_str(self.function);
        m.append("() failed: code=");
        append_decimal(&mut m, self.code);
        let reason = match self.reason {
            Some(r) => Some(r),
            None => libvpx_reason,
        };
        if let Some(r) = reason {
            m.append(", reason=");
            m.append(r);
        }
        if let Some(d) = &self.detail {
            m.append(", detail=");
            m.append(d.as_str());
        }
        m
    }

    /// The detail text that libvpx attached to its codec context, if any.
    pub fn detail(&self) -> (d: Option<&String>)
        ensures
            d matches Some(s) ==> self.spec_detail() == Some(*s),
            d is None <==> self.spec_detail() is None,
    {
        match &self.detail {
            Some(s) => Some(s),
            None => None,
        }
    }
}

/// Makes an error with code `CODEC_INVALID_PARAM` and the given reason.
pub fn invalid_param(function: &'static str, reason: &'static str) -> (e: Error)
    ensures
        e.spec_code() == CODEC_INVALID_PARAM,
        e.spec_function() == function,
        e.spec_reason() == Some(reason),
        e.spec_detail() is None,
{
    Error::with_reason(CODEC_INVALID_PARAM, function, reason)
}

} // verus!
