use vstd::prelude::*;

verus! {

/// A failure reported by the host operating system: its numeric code and
/// the description the host gives for it.
#[derive(Clone, Debug, PartialEq, Eq)]
pub struct OsError {
    pub code: i32,
    pub description: String,
}

/// The host's code for a process that does not exist, or no longer answers
/// to this session.
pub const ESRCH: i32 = 3;

/// Whether `e` says that the process is gone.
pub open spec fn is_no_such_process(e: OsError) -> bool {
    e.code == ESRCH && e.description@ == "No such process"@
}

impl OsError {
    /// The failure reported for a process that is gone.
    pub fn no_such_process() -> (r: OsError)
        ensures
            is_no_such_process(r),
    {
        OsError { code: ESRCH, description: String::from_str("No such process") }
    }
}

/// Every failure a tracing session can report.
#[derive(Clone, Debug, PartialEq, Eq)]
pub enum Error {
    /// The executable path holds a NUL character and cannot be handed to the host.
    InvalidPathName,
    /// A memory read moved fewer bytes than asked for: (requested, actual).
    IncompleteRead(usize, usize),
    /// A memory write moved fewer bytes than asked for: (requested, actual).
    IncompleteWrite(usize, usize),
    /// A failure reported by the host.
    Kernel(OsError),
    /// The platform has no tracing backend.
    Unsupported,
}

/// Whether `e` is the host's report that the process is gone.
pub open spec fn is_gone(e: Error) -> bool {
    match e {
        Error::Kernel(os) => is_no_such_process(os),
        _ => false,
    }
}

/// The character of a decimal digit.
pub open spec fn digit_char(d: nat) -> char {
    if d == 0 { '0' }
    else if d == 1 { '1' }
    else if d == 2 { '2' }
    else if d == 3 { '3' }
    else if d == 4 { '4' }
    else if d == 5 { '5' }
    else if d == 6 { '6' }
    else if d == 7 { '7' }
    else if d == 8 { '8' }
    else { '9' }
}

/// `n` written in decimal, without leading zeros.
pub open spec fn decimal(n: nat) -> Seq<char>
    decreases n,
{
    if n < 10 {
        seq![digit_char(n)]
    } else {
        decimal(n / 10) + seq![digit_char(n % 10)]
    }
}

/// The one-sentence rendering of each error.
pub open spec fn message_of(e: Error) -> Seq<char> {
    match e {
        Error::InvalidPathName => "There appears to be a '\\0' in the path name."@,
        Error::IncompleteRead(req, res) =>
            "Tried to read "@ + decimal(req as nat) + " bytes, only read "@ + decimal(res as nat) + "."@,
        Error::IncompleteWrite(req, res) =>
            "Tried to write "@ + decimal(req as nat) + " bytes, only wrote "@ + decimal(res as nat) + "."@,
        Error::Kernel(err) => err.description@ + "."@,
        Error::Unsupported => "Process tracing is not supported on this platform."@,
    }
}

fn digit_str(d: usize) -> (r: &'static str)
    requires
        d < 10,
    ensures
        r@ == seq![digit_char(d as nat)],
{
    proof {
        reveal_strlit("0");
        reveal_strlit("1");
        reveal_strlit("2");
        reveal_strlit("3");
        reveal_strlit("4");
        reveal_strlit("5");
        reveal_strlit("6");
        reveal_strlit("7");
        reveal_strlit("8");
        reveal_strlit("9");
    }
    if d == 0 { "0" }
    else if d == 1 { "1" }
    else if d == 2 { "2" }
    else if d == 3 { "3" }
    else if d == 4 { "4" }
    else if d == 5 { "5" }
    else if d == 6 { "6" }
    else if d == 7 { "7" }
    else if d == 8 { "8" }
    else { "9" }
}

/// Appends `n` in decimal to `out`.
pub fn push_decimal(out: &mut String, n: usize)
    ensures
        final(out)@ == old(out)@ + decimal(n as nat),
    decreases n,
{
    if n < 10 {
        out.append(digit_str(n));
    } else {
        push_decimal(out, n / 10);
        out.append(digit_str(n % 10));
        assert(final(out)@ =~= old(out)@ + decimal(n as nat));
    }
}

impl Error {
    /// A human-readable sentence describing the error.
    pub fn message(&self) -> (r: String)
        ensures
            r@ == message_of(*self),
    {
        match self {
            Error::InvalidPathName => String::from_str("There appears to be a '\\0' in the path name."),
            Error::IncompleteRead(req, res) => {
                let mut s = String::from_str("Tried to read ");
                push_decimal(&mut s, *req);
                s.append(" bytes, only read ");
                push_decimal(&mut s, *res);
                s.append(".");
                s
            },
            Error::IncompleteWrite(req, res) => {
                let mut s = String::from_str("Tried to write ");
                push_decimal(&mut s, *req);
                s.append(" bytes, only wrote ");
                push_decimal(&mut s, *res);
                s.append(".");
                s
            },
            Error::Kernel(err) => {
                let mut s = err.description.clone();
                s.append(".");
                s
            },
            Error::Unsupported => String::from_str("Process tracing is not supported on this platform."),
        }
    }
}

} // verus!
