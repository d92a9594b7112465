//! What a production returns, and the model each production is proved against.
use vstd::prelude::*;

verus! {

#[derive(Debug, Clone, Copy, PartialEq, Eq, Structural)]
pub enum ParseErrorKind {
    /// A character run or a literal token did not match where it was expected.
    UnexpectedCharacter,
    /// A backslash was followed by whitespace or by the end of the input.
    EmptyEscapeBody,
    /// A system task or function name was attempted without its leading `$`.
    MissingDollarPrefix,
    /// Every branch of an ordered choice failed.
    NoAlternativeMatched,
}

/// A failure: its kind, and the input that was left where it was detected.
#[derive(Debug)]
pub struct ParseError<'a> {
    pub kind: ParseErrorKind,
    pub at: &'a str,
}

/// On success, the unconsumed rest of the input and the node built.
pub type PResult<'a, T> = Result<(&'a str, T), ParseError<'a>>;

/// The model of a production on an input `s`: on success the number of
/// characters consumed and the node's view; on failure the offset at which it
/// was detected and its kind.
pub type Outcome<V> = Result<(int, V), (int, ParseErrorKind)>;

/// `r` is what the model `o` describes for the input `s`.
pub open spec fn agrees<'a, T: View>(s: Seq<char>, r: PResult<'a, T>, o: Outcome<T::V>) -> bool {
    match (r, o) {
        (Ok((rest, t)), Ok((n, v))) => 0 <= n <= s.len() && rest@ =~= s.skip(n) && t@ == v,
        (Err(e), Err((n, k))) => 0 <= n <= s.len() && e.at@ =~= s.skip(n) && e.kind == k,
        _ => false,
    }
}

/// The outcome `o` of a production started `k` characters further on.
pub open spec fn shifted<V>(o: Outcome<V>, k: int) -> Outcome<V> {
    match o {
        Ok((n, v)) => Ok((n + k, v)),
        Err((n, e)) => Err((n + k, e)),
    }
}

pub proof fn lemma_agrees_shifted<'a, T: View>(
    s: Seq<char>,
    k: int,
    r: PResult<'a, T>,
    o: Outcome<T::V>,
)
    requires
        0 <= k <= s.len(),
        agrees(s.skip(k), r, o),
    ensures
        agrees(s, r, shifted(o, k)),
{
    match o {
        Ok((n, _)) => {
            assert(s.skip(k).skip(n) =~= s.skip(n + k));
        },
        Err((n, _)) => {
            assert(s.skip(k).skip(n) =~= s.skip(n + k));
        },
    }
}

/// The observable part of a result: the rest and the node's view, or the
/// failure's kind and where it stood.
pub open spec fn observed<'a, T: View>(r: PResult<'a, T>) -> Result<
    (Seq<char>, T::V),
    (Seq<char>, ParseErrorKind),
> {
    match r {
        Ok((rest, t)) => Ok((rest@, t@)),
        Err(e) => Err((e.at@, e.kind)),
    }
}

} // verus!
