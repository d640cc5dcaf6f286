use vstd::prelude::*;

verus! {

/// The largest prime value that a `Result` can carry.
pub const MAX_PRIME: u16 = 4095;

/// The base of the status code of a successful result.
pub const OK_BASE: u16 = 0xA000;

/// The base of the status code of a failed result.
pub const ERROR_BASE: u16 = 0xF000;

/// The status of an execution: success or failure, each with a prime value in
/// `0..=4095`.
///
/// Reserved primes: `Error(0)` is a failure of the engine itself (a malformed
/// instruction or an unknown command), `Success(0)` means that help was served in
/// place of an execution.
#[derive(PartialEq, Eq, Structural, Hash, Debug, Clone, Copy)]
pub enum Result {
    Success(u16),
    Error(u16),
}

impl Result {
    /// The prime value carried by the result.
    pub open spec fn prime(self) -> u16 {
        match self {
            Result::Success(p) => p,
            Result::Error(p) => p,
        }
    }

    /// A result is well formed when its prime is in range.
    pub open spec fn wf(self) -> bool {
        self.prime() <= MAX_PRIME
    }

    /// The full status code: the base of the variant plus the prime.
    pub open spec fn spec_status_code(self) -> int {
        match self {
            Result::Success(p) => OK_BASE + p,
            Result::Error(p) => ERROR_BASE + p,
        }
    }

    /// A successful result with the given prime.
    pub fn ok(prime_val: u16) -> (r: Self)
        requires
            prime_val <= MAX_PRIME,
        ensures
            r == Result::Success(prime_val),
            r.wf(),
    {
        Result::Success(prime_val)
    }

    /// A failed result with the given prime.
    pub fn err(prime_val: u16) -> (r: Self)
        requires
            prime_val <= MAX_PRIME,
        ensures
            r == Result::Error(prime_val),
            r.wf(),
    {
        Result::Error(prime_val)
    }

    /// A successful result, or `None` when the prime is out of range.
    pub fn try_ok(prime_val: u16) -> (r: Option<Self>)
        ensures
            r == (if prime_val <= MAX_PRIME { Some(Result::Success(prime_val)) } else { None::<Result> }),
    {
        if prime_val <= MAX_PRIME {
            Some(Result::Success(prime_val))
        } else {
            None
        }
    }

    /// A failed result, or `None` when the prime is out of range.
    pub fn try_err(prime_val: u16) -> (r: Option<Self>)
        ensures
            r == (if prime_val <= MAX_PRIME { Some(Result::Error(prime_val)) } else { None::<Result> }),
    {
        if prime_val <= MAX_PRIME {
            Some(Result::Error(prime_val))
        } else {
            None
        }
    }

    /// The full status code (base plus prime).
    pub fn status_code(&self) -> (r: u16)
        requires
            self.wf(),
        ensures
            r == self.spec_status_code(),
    {
        match self {
            Result::Success(p) => OK_BASE + *p,
            Result::Error(p) => ERROR_BASE + *p,
        }
    }

    /// The prime value alone, with the base stripped.
    pub fn raw_val(&self) -> (r: u16)
        ensures
            r == self.prime(),
    {
        match self {
            Result::Success(p) => *p,
            Result::Error(p) => *p,
        }
    }

    pub fn is_ok(&self) -> (r: bool)
        ensures
            r == (*self is Success),
    {
        match self {
            Result::Success(_) => true,
            Result::Error(_) => false,
        }
    }

    pub fn is_err(&self) -> (r: bool)
        ensures
            r == (*self is Error),
    {
        !self.is_ok()
    }
}


/// The upper-case hexadecimal digit of `d` (for `d < 16`).
pub open spec fn hex_char(d: nat) -> char {
    seq!['0', '1', '2', '3', '4', '5', '6', '7', '8', '9', 'A', 'B', 'C', 'D', 'E', 'F'][d as int]
}

/// The upper-case hexadecimal form of `v`, without leading zeros.
pub open spec fn hex_of(v: nat) -> Seq<char>
    decreases v,
{
    if v < 16 {
        seq![hex_char(v)]
    } else {
        hex_of(v / 16) + seq![hex_char(v % 16)]
    }
}

/// The text of a result: `0x` followed by its status code in upper-case hex.
pub open spec fn result_text(r: Result) -> Seq<char> {
    "0x"@ + hex_of(r.spec_status_code() as nat)
}

fn hex_digit(d: u16) -> (r: &'static str)
    requires
        d < 16,
    ensures
        r@ == seq![hex_char(d as nat)],
{
    proof {
        reveal_strlit("0");
        reveal_strlit("1");
        reveal_strlit("2");
        reveal_strlit("3");
        reveal_strlit("4");
        reveal_strlit("5");
        reveal_strlit("6");
        reveal_strlit("7");
        reveal_strlit("8");
        reveal_strlit("9");
        reveal_strlit("A");
        reveal_strlit("B");
        reveal_strlit("C");
        reveal_strlit("D");
        reveal_strlit("E");
        reveal_strlit("F");
    }
    let r = if d == 0 {
        "0"
    } else if d == 1 {
        "1"
    } else if d == 2 {
        "2"
    } else if d == 3 {
        "3"
    } else if d == 4 {
        "4"
    } else if d == 5 {
        "5"
    } else if d == 6 {
        "6"
    } else if d == 7 {
        "7"
    } else if d == 8 {
        "8"
    } else if d == 9 {
        "9"
    } else if d == 10 {
        "A"
    } else if d == 11 {
        "B"
    } else if d == 12 {
        "C"
    } else if d == 13 {
        "D"
    } else if d == 14 {
        "E"
    } else {
        "F"
    };
    assert(r@ =~= seq![hex_char(d as nat)]);
    r
}

fn hex_upper(v: u16) -> (r: String)
    ensures
        r@ == hex_of(v as nat),
    decreases v,
{
    if v < 16 {
        String::from_str(hex_digit(v))
    } else {
        let mut s = hex_upper(v / 16);
        s.append(hex_digit(v % 16));
        s
    }
}

impl Result {
    /// The result as text, e.g. `0xA001`.
    pub fn to_string(&self) -> (r: String)
        requires
            self.wf(),
        ensures
            r@ == result_text(*self),
    {
        let code = self.status_code();
        let s = String::from_str("0x");
        s.concat(hex_upper(code).as_str())
    }
}

/// What a command's execution produced: a status and a free-form message.
#[derive(Debug)]
pub struct Output {
    pub result: Result,
    pub message: String,
}

/// The text of an output: its result, a dash, and the message in brackets.
pub open spec fn output_text(result: Result, message: Seq<char>) -> Seq<char> {
    result_text(result) + " - ["@ + message + "]"@
}

impl Output {
    /// An output from a result and an optional message (empty when absent).
    pub fn new(result: Result, msg: Option<&str>) -> (r: Self)
        ensures
            r.result == result,
            r.message@ == (match msg {
                Some(m) => m@,
                None => Seq::<char>::empty(),
            }),
    {
        let message = match msg {
            Some(m) => String::from_str(m),
            None => String::new(),
        };
        Output { result, message }
    }

    /// A successful output with the given prime and message.
    pub fn new_ok(prime_val: u16, msg: Option<&str>) -> (r: Self)
        requires
            prime_val <= MAX_PRIME,
        ensures
            r.result == Result::Success(prime_val),
            r.message@ == (match msg {
                Some(m) => m@,
                None => Seq::<char>::empty(),
            }),
    {
        Output::new(Result::ok(prime_val), msg)
    }

    /// A failed output with the given prime and message.
    pub fn new_error(prime_val: u16, msg: Option<&str>) -> (r: Self)
        requires
            prime_val <= MAX_PRIME,
        ensures
            r.result == Result::Error(prime_val),
            r.message@ == (match msg {
                Some(m) => m@,
                None => Seq::<char>::empty(),
            }),
    {
        Output::new(Result::err(prime_val), msg)
    }

    /// The output as text, e.g. `0xA001 - [done]`.
    pub fn to_string(&self) -> (r: String)
        requires
            self.result.wf(),
        ensures
            r@ == output_text(self.result, self.message@),
    {
        let s = self.result.to_string();
        let s = s.concat(" - [");
        let s = s.concat(self.message.as_str());
        s.concat("]")
    }
}

} // verus!
