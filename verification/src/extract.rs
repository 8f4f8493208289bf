//! The extraction engine: converting a raw matched path string into a typed
//! handler argument.
//!
//! Each extractible type offers two entry points. Qualified extraction
//! (`extract_with_arg`) takes the argument name, looks it up in the request's
//! matched path-parameter mapping and converts the raw string into the target
//! type; a missing name or a failed conversion yields an [`ExtractError`]
//! whose message names the argument. The unqualified entry point is a
//! contract violation for path parameters, because the name cannot be
//! recovered from the type itself: it fails immediately with a
//! [`ContractViolation`], which is distinct from [`ExtractError`] and not
//! meant to be recovered from at runtime.

use vstd::prelude::*;
use vstd::string::*;

use crate::model::Request;

verus! {

/// A missing or unconvertible piece of request data; recovered per request
/// and surfaced as a 4xx response before handler logic runs.
#[derive(Debug)]
pub struct ExtractError {
    message: String,
}

impl ExtractError {
    /// The client-facing message.
    pub fn message(&self) -> (m: &str)
        ensures
            m@ == self@,
    {
        self.message.as_str()
    }
}

impl View for ExtractError {
    type V = Seq<char>;

    closed spec fn view(&self) -> Seq<char> {
        self.message@
    }
}

/// The wrong entry point was invoked for a type's requirements: a
/// registration bug, reported immediately and not designed to be recovered
/// from at runtime.
#[derive(Debug)]
pub struct ContractViolation {
    message: String,
}

impl ContractViolation {
    /// Reports the misuse described by `message`.
    pub(crate) fn new(message: &str) -> (r: ContractViolation)
        ensures
            r@ == message@,
    {
        ContractViolation { message: message.to_owned() }
    }

    /// What was misused.
    pub fn message(&self) -> (m: &str)
        ensures
            m@ == self@,
    {
        self.message.as_str()
    }
}

impl View for ContractViolation {
    type V = Seq<char>;

    closed spec fn view(&self) -> Seq<char> {
        self.message@
    }
}

/// The message of the extraction failure for argument `name`.
pub open spec fn extraction_failure_text(name: Seq<char>) -> Seq<char> {
    "path parameter "@ + name + " not found or convert to type failed"@
}

/// `needle` occurs as a contiguous run inside `hay`.
pub open spec fn text_contains(hay: Seq<char>, needle: Seq<char>) -> bool {
    exists|i: int|
        0 <= i && i + needle.len() <= hay.len() && #[trigger] hay.subrange(i, i + needle.len())
            == needle
}

/// The extraction failure message names the argument it failed for.
pub proof fn lemma_failure_text_names_argument(name: Seq<char>)
    ensures
        text_contains(extraction_failure_text(name), name),
{
    let pre = "path parameter "@;
    let hay = extraction_failure_text(name);
    assert(hay.subrange(pre.len() as int, (pre.len() + name.len()) as int) =~= name);
}

/// `c` is a decimal digit.
pub open spec fn is_digit(c: char) -> bool {
    48 <= c as u32 <= 57
}

/// The value of the digit `c`.
pub open spec fn digit_val(c: char) -> nat
    recommends
        is_digit(c),
{
    (c as u32 - 48) as nat
}

/// Every character of `s` is a decimal digit.
pub open spec fn all_digits(s: Seq<char>) -> bool {
    forall|i: int| 0 <= i < s.len() ==> is_digit(s[i])
}

/// The number denoted by a sequence of decimal digits, most significant
/// first.
pub open spec fn dec_val(s: Seq<char>) -> nat
    decreases s.len(),
{
    if s.len() == 0 {
        0
    } else {
        dec_val(s.drop_last()) * 10 + digit_val(s.last())
    }
}

/// The raw string converts into a `u64`: non-empty, all digits, and the
/// denoted number fits.
pub open spec fn converts_to_u64(s: Seq<char>) -> bool {
    s.len() > 0 && all_digits(s) && dec_val(s) <= u64::MAX
}

/// A digit prefix never denotes more than the whole string.
proof fn lemma_dec_val_prefix_le(s: Seq<char>, i: int)
    requires
        0 <= i <= s.len(),
    ensures
        dec_val(s.subrange(0, i)) <= dec_val(s),
    decreases s.len() - i,
{
    if i < s.len() {
        lemma_dec_val_prefix_le(s, i + 1);
        assert(s.subrange(0, i + 1).drop_last() =~= s.subrange(0, i));
        assert(dec_val(s.subrange(0, i + 1)) == dec_val(s.subrange(0, i)) * 10 + digit_val(
            s.subrange(0, i + 1).last(),
        ));
    } else {
        assert(s.subrange(0, i) =~= s);
    }
}

/// Converts a raw matched string into a `u64`: succeeds exactly on non-empty
/// all-digit strings whose value fits, and then returns that value.
pub fn parse_u64(s: &str) -> (r: Option<u64>)
    ensures
        match r {
            Some(v) => converts_to_u64(s@) && v as nat == dec_val(s@),
            None => !converts_to_u64(s@),
        },
{
    let n = s.unicode_len();
    if n == 0 {
        return None;
    }
    let mut acc: u64 = 0;
    let mut i: usize = 0;
    while i < n
        invariant
            n == s@.len(),
            i <= n,
            all_digits(s@.subrange(0, i as int)),
            acc as nat == dec_val(s@.subrange(0, i as int)),
        decreases n - i,
    {
        let c = s.get_char(i);
        let cv = c as u32;
        if cv < 48 || cv > 57 {
            assert(!is_digit(s@[i as int]));
            return None;
        }
        let d = (cv - 48) as u64;
        proof {
            assert(s@.subrange(0, i + 1).drop_last() =~= s@.subrange(0, i as int));
            assert(s@.subrange(0, i + 1).last() == s@[i as int]);
        }
        let next = match acc.checked_mul(10) {
            Some(m) => m.checked_add(d),
            None => None,
        };
        match next {
            Some(v) => {
                acc = v;
            },
            None => {
                proof {
                    assert(dec_val(s@.subrange(0, i + 1)) > u64::MAX);
                    lemma_dec_val_prefix_le(s@, i + 1);
                }
                return None;
            },
        }
        i += 1;
    }
    proof {
        assert(s@.subrange(0, n as int) =~= s@);
    }
    Some(acc)
}

/// A parameter passed by the URI path: its argument name and the typed value
/// the extraction engine produced for it.
#[derive(Debug)]
pub struct PathParam<T> {
    name: String,
    value: T,
}

impl<T> PathParam<T> {
    /// The argument name the value was extracted under.
    pub closed spec fn name_text(&self) -> Seq<char> {
        self.name@
    }

    /// The extracted value.
    pub closed spec fn value_of(&self) -> T {
        self.value
    }

    /// Constructs a new `PathParam` with the given `name` and `value`.
    pub fn new(name: &str, value: T) -> (r: PathParam<T>)
        ensures
            r.name_text() == name@,
            r.value_of() == value,
    {
        PathParam { name: name.to_owned(), value }
    }

    /// The name of the parameter.
    pub fn name(&self) -> (r: &str)
        ensures
            r@ == self.name_text(),
    {
        self.name.as_str()
    }

    /// The value of the parameter.
    pub fn value(&self) -> (r: &T)
        ensures
            *r == self.value_of(),
    {
        &self.value
    }

    /// Unqualified extraction is a contract violation for a path parameter:
    /// the source name is not recoverable from the type, so this fails
    /// immediately, distinct from an [`ExtractError`].
    pub fn extract(_req: &Request) -> (r: Result<PathParam<T>, ContractViolation>)
        ensures
            match r {
                Ok(_) => false,
                Err(e) => e@ == "path parameter can not be extracted from request"@,
            },
    {
        Err(
            ContractViolation {
                message: "path parameter can not be extracted from request".to_owned(),
            },
        )
    }
}

/// Builds the extraction failure for argument `arg`.
fn extraction_failure(arg: &str) -> (e: ExtractError)
    ensures
        e@ == extraction_failure_text(arg@),
{
    let mut message = "path parameter ".to_owned();
    message.append(arg);
    message.append(" not found or convert to type failed");
    ExtractError { message }
}

impl PathParam<u64> {
    /// Qualified extraction of an integer path parameter: looks `arg` up in
    /// the request's matched mapping and converts the raw string. Returns the
    /// converted value exactly when `arg` is present and its raw string
    /// converts; fails with an error naming `arg` otherwise.
    pub fn extract_with_arg(req: &Request, arg: &str) -> (r: Result<
        PathParam<u64>,
        ExtractError,
    >)
        requires
            req.wf(),
        ensures
            match r {
                Ok(p) => req@.contains_key(arg@) && converts_to_u64(req@[arg@])
                    && p.name_text() == arg@ && p.value_of() as nat == dec_val(req@[arg@]),
                Err(e) => !(req@.contains_key(arg@) && converts_to_u64(req@[arg@])) && e@
                    == extraction_failure_text(arg@),
            },
    {
        match req.param(arg) {
            Some(raw) => match parse_u64(raw.as_str()) {
                Some(v) => Ok(PathParam { name: arg.to_owned(), value: v }),
                None => Err(extraction_failure(arg)),
            },
            None => Err(extraction_failure(arg)),
        }
    }
}

impl PathParam<String> {
    /// Qualified extraction of a string path parameter: looks `arg` up in the
    /// request's matched mapping. Returns the raw matched string exactly when
    /// `arg` is present; fails with an error naming `arg` otherwise.
    pub fn extract_with_arg(req: &Request, arg: &str) -> (r: Result<
        PathParam<String>,
        ExtractError,
    >)
        requires
            req.wf(),
        ensures
            match r {
                Ok(p) => req@.contains_key(arg@) && p.name_text() == arg@ && p.value_of()@
                    == req@[arg@],
                Err(e) => !req@.contains_key(arg@) && e@ == extraction_failure_text(arg@),
            },
    {
        match req.param(arg) {
            Some(raw) => Ok(PathParam { name: arg.to_owned(), value: raw.clone() }),
            None => Err(extraction_failure(arg)),
        }
    }
}

/// Declared metadata of an extractible type. A path parameter's own metadata
/// cannot determine the source name, so it stays empty.
pub struct Metadata {
    name: String,
}

impl Metadata {
    /// The declared name.
    pub fn name(&self) -> (r: &str)
        ensures
            r@ == self@,
    {
        self.name.as_str()
    }
}

impl View for Metadata {
    type V = Seq<char>;

    closed spec fn view(&self) -> Seq<char> {
        self.name@
    }
}

impl<T> PathParam<T> {
    /// The type's own declared metadata: empty, because qualified extraction
    /// takes its name from the caller.
    pub fn metadata() -> (m: Metadata)
        ensures
            m@ == ""@,
    {
        Metadata { name: "".to_owned() }
    }
}

} // verus!
