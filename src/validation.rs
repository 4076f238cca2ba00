use crate::config::{blocks, SecurityConfig};
use crate::decode::{decoded_or_raw, percent_decode};
use crate::error::ValidationError;
use vstd::prelude::*;

verus! {

/// Relies on `String::push`: appends `ch` at the end of the string.
pub assume_specification[ String::push ](s: &mut String, ch: char)
    ensures
        final(s)@ == old(s)@.push(ch),
;

/// The description carried by every `BlockedPattern` error. The matching
/// pattern itself is never disclosed.
pub const BLOCK_NOTICE: &'static str = "blocked pattern detected";

/// Outcome of a successful run: the raw input and the validator's value.
#[derive(Debug, Clone)]
pub struct SanitizedInput<T> {
    /// The input as received, before decoding and sanitizing.
    pub original: String,
    /// The value the validator produced from the cleaned text.
    pub cleaned: T,
}

/// Turns cleaned text into a domain value. Implementations must be safe to
/// share between threads.
pub trait Validator<T>: Send + Sync {
    /// Converts already-sanitized text, or says why it does not fit.
    fn validate(&self, input: &str) -> Result<T, ValidationError>;

    /// Name of the produced type, for `InvalidFormat` errors.
    fn target_type(&self) -> &'static str;
}

/// The characters of `s` that are not forbidden, in order.
pub open spec fn kept(s: Seq<char>, forbidden: Set<char>) -> Seq<char> {
    s.filter(|c: char| !forbidden.contains(c))
}

/// The characters of `s` that are forbidden, in order and with repeats.
pub open spec fn removed(s: Seq<char>, forbidden: Set<char>) -> Seq<char> {
    s.filter(|c: char| forbidden.contains(c))
}

/// `c` between single quotes.
pub open spec fn quoted(c: char) -> Seq<char> {
    seq!['\'', c, '\'']
}

/// Each character of `cs` quoted, joined by `", "`.
pub open spec fn symbol_list(cs: Seq<char>) -> Seq<char>
    decreases cs.len(),
{
    if cs.len() == 0 {
        Seq::empty()
    } else if cs.len() == 1 {
        quoted(cs[0])
    } else {
        symbol_list(cs.drop_last()) + seq![',', ' '] + quoted(cs.last())
    }
}

/// Splits `input` into the characters that are not forbidden and those that
/// are, each in their original order.
pub fn sanitize_input(input: &str, config: &SecurityConfig) -> (r: (String, Vec<char>))
    ensures
        r.0@ == kept(input@, config.forbidden()),
        r.1@ == removed(input@, config.forbidden()),
{
    let mut cleaned = String::new();
    let mut bad_chars: Vec<char> = Vec::new();
    let ghost f = config.forbidden();
    for c in it: input.chars()
        invariant
            f == config.forbidden(),
            it.seq() == input@,
            cleaned@ == kept(input@.take(it.index()), f),
            bad_chars@ == removed(input@.take(it.index()), f),
    {
        let ghost i = it.index();
        proof {
            reveal(Seq::filter);
        }
        assert(input@.take(i + 1).drop_last() =~= input@.take(i));
        if config.is_char_forbidden(&c) {
            bad_chars.push(c);
        } else {
            cleaned.push(c);
        }
    }
    assert(input@.take(input@.len() as int) =~= input@);
    (cleaned, bad_chars)
}

/// Formats offending characters for display: each quoted, joined by `", "`.
pub fn format_symbols(chars: &Vec<char>) -> (r: String)
    ensures
        r@ == symbol_list(chars@),
{
    let mut out = String::new();
    let mut i: usize = 0;
    while i < chars.len()
        invariant
            i <= chars@.len(),
            out@ == symbol_list(chars@.take(i as int)),
        decreases chars@.len() - i,
    {
        let ghost before = out@;
        assert(chars@.take(i + 1).drop_last() =~= chars@.take(i as int));
        if i > 0 {
            out.push(',');
            out.push(' ');
        }
        out.push('\'');
        out.push(chars[i]);
        out.push('\'');
        assert(out@ =~= symbol_list(chars@.take(i + 1)));
        i = i + 1;
    }
    assert(chars@.take(chars@.len() as int) =~= chars@);
    out
}

/// The characters of the decoded input that are forbidden.
pub open spec fn found_forbidden(input: Seq<char>, forbidden: Set<char>) -> Seq<char> {
    removed(decoded_or_raw(input), forbidden)
}

/// The decoded input with its forbidden characters taken out.
pub open spec fn cleaned_text(input: Seq<char>, forbidden: Set<char>) -> Seq<char> {
    kept(decoded_or_raw(input), forbidden)
}

/// `e` reports exactly the offending characters `found`.
pub open spec fn reports_dangerous(e: ValidationError, found: Seq<char>) -> bool {
    e matches ValidationError::DangerousCharacters { symbols, count }
        && symbols@ == symbol_list(found) && count == found.len()
}

/// `e` is the error for a blocked pattern.
pub open spec fn reports_blocked(e: ValidationError) -> bool {
    e matches ValidationError::BlockedPattern { pattern } && pattern@ == BLOCK_NOTICE@
}

/// Whether the gates before validation reject `input`: it decodes to text
/// holding forbidden characters, or to text that a pattern blocks.
pub open spec fn rejected(input: Seq<char>, forbidden: Set<char>, patterns: Seq<Seq<char>>) -> bool {
    found_forbidden(input, forbidden).len() > 0 || blocks(patterns, cleaned_text(input, forbidden))
}

/// `e` is the error the gates give for `input`, which they reject: forbidden
/// characters are reported first, and only then blocked patterns.
pub open spec fn rejection(
    input: Seq<char>,
    forbidden: Set<char>,
    patterns: Seq<Seq<char>>,
    e: ValidationError,
) -> bool {
    if found_forbidden(input, forbidden).len() > 0 {
        reports_dangerous(e, found_forbidden(input, forbidden))
    } else {
        reports_blocked(e)
    }
}

/// The gates before validation: decode (falling back to the raw input),
/// reject forbidden characters, then reject blocked patterns. On success,
/// returns the cleaned text that the validator is to see.
pub fn screen(input: &str, config: &SecurityConfig) -> (r: Result<String, ValidationError>)
    ensures
        r is Err <==> rejected(input@, config.forbidden(), config.patterns()),
        r matches Err(e) ==> rejection(input@, config.forbidden(), config.patterns(), e),
        r matches Ok(s) ==> s@ == cleaned_text(input@, config.forbidden()),
{
    let decoded = percent_decode(input);
    let (cleaned, bad_chars) = sanitize_input(decoded.as_str(), config);
    if bad_chars.len() > 0 {
        let symbols = format_symbols(&bad_chars);
        return Err(ValidationError::DangerousCharacters { symbols, count: bad_chars.len() });
    }
    if config.has_blocked_pattern(cleaned.as_str()) {
        return Err(ValidationError::BlockedPattern { pattern: BLOCK_NOTICE.to_owned() });
    }
    Ok(cleaned)
}

/// The last step of the pipeline: pairs the validator's value with the raw
/// input, or passes the validator's error on unchanged.
pub fn conclude<T>(input: &str, outcome: Result<T, ValidationError>) -> (r: Result<SanitizedInput<T>, ValidationError>)
    ensures
        outcome matches Ok(t) ==> (r matches Ok(s) && s.original@ == input@ && s.cleaned == t),
        outcome matches Err(e) ==> r == Err::<SanitizedInput<T>, ValidationError>(e),
{
    match outcome {
        Ok(t) => Ok(SanitizedInput { original: input.to_owned(), cleaned: t }),
        Err(e) => Err(e),
    }
}

/// The full pipeline: decode, reject forbidden characters, reject blocked
/// patterns, then hand the cleaned text to `validator`. A success carries the
/// raw input unchanged; a validator's error is passed on unchanged.
pub fn sanitize_and_validate<T>(
    input: &str,
    validator: &impl Validator<T>,
    config: &SecurityConfig,
) -> (r: Result<SanitizedInput<T>, ValidationError>)
    ensures
        rejected(input@, config.forbidden(), config.patterns()) ==> (r matches Err(e)
            && rejection(input@, config.forbidden(), config.patterns(), e)),
        r matches Ok(s) ==> s.original@ == input@,
{
    match screen(input, config) {
        Err(e) => Err(e),
        Ok(cleaned) => conclude(input, validator.validate(cleaned.as_str())),
    }
}

/// Sanitizing partitions a text: every character is either kept or removed,
/// kept ones are never forbidden, removed ones always are, and text with no
/// forbidden character is kept whole.
pub proof fn lemma_sanitize_partitions(s: Seq<char>, forbidden: Set<char>)
    ensures
        kept(s, forbidden).len() + removed(s, forbidden).len() == s.len(),
        forall|j: int| 0 <= j < kept(s, forbidden).len() ==> !forbidden.contains(#[trigger] kept(s, forbidden)[j]),
        forall|j: int| 0 <= j < removed(s, forbidden).len() ==> forbidden.contains(#[trigger] removed(s, forbidden)[j]),
        (forall|i: int| 0 <= i < s.len() ==> !forbidden.contains(#[trigger] s[i])) ==> kept(s, forbidden) == s
            && removed(s, forbidden).len() == 0,
    decreases s.len(),
{
    reveal(Seq::filter);
    if s.len() > 0 {
        let rest = s.drop_last();
        lemma_sanitize_partitions(rest, forbidden);
        if forall|i: int| 0 <= i < s.len() ==> !forbidden.contains(#[trigger] s[i]) {
            assert forall|i: int| 0 <= i < rest.len() implies !forbidden.contains(#[trigger] rest[i]) by {
                assert(rest[i] == s[i]);
            }
            assert(!forbidden.contains(s[s.len() - 1]));
            assert(kept(rest, forbidden).push(s.last()) =~= s);
        }
    }
}

/// Sanitizing is idempotent: cleaning already-cleaned text changes nothing.
pub proof fn lemma_sanitize_idempotent(s: Seq<char>, forbidden: Set<char>)
    ensures
        kept(kept(s, forbidden), forbidden) == kept(s, forbidden),
{
    lemma_sanitize_partitions(s, forbidden);
    lemma_sanitize_partitions(kept(s, forbidden), forbidden);
}

/// Input that decodes to text with no forbidden character and no blocked
/// pattern passes the gates, and the validator sees the decoded text itself.
pub proof fn lemma_clean_input_passes(input: Seq<char>, forbidden: Set<char>, patterns: Seq<Seq<char>>)
    requires
        forall|i: int| 0 <= i < decoded_or_raw(input).len()
            ==> !forbidden.contains(#[trigger] decoded_or_raw(input)[i]),
        !blocks(patterns, decoded_or_raw(input)),
    ensures
        !rejected(input, forbidden, patterns),
        cleaned_text(input, forbidden) == decoded_or_raw(input),
{
    lemma_sanitize_partitions(decoded_or_raw(input), forbidden);
}

/// Input that decodes to text holding a forbidden character is rejected with
/// `DangerousCharacters`, whatever the patterns; the count is the number of
/// forbidden characters in the decoded text, repeats included.
pub proof fn lemma_forbidden_input_rejected(
    input: Seq<char>,
    forbidden: Set<char>,
    patterns: Seq<Seq<char>>,
    e: ValidationError,
)
    requires
        exists|i: int| 0 <= i < decoded_or_raw(input).len()
            && forbidden.contains(#[trigger] decoded_or_raw(input)[i]),
    ensures
        rejected(input, forbidden, patterns),
        rejection(input, forbidden, patterns, e) <==> reports_dangerous(e, found_forbidden(input, forbidden)),
        found_forbidden(input, forbidden).len() > 0,
        found_forbidden(input, forbidden).len()
            == decoded_or_raw(input).len() - cleaned_text(input, forbidden).len(),
        forall|j: int| 0 <= j < found_forbidden(input, forbidden).len()
            ==> forbidden.contains(#[trigger] found_forbidden(input, forbidden)[j]),
        forall|j: int| 0 <= j < cleaned_text(input, forbidden).len()
            ==> !forbidden.contains(#[trigger] cleaned_text(input, forbidden)[j]),
{
    let d = decoded_or_raw(input);
    lemma_sanitize_partitions(d, forbidden);
    if found_forbidden(input, forbidden).len() == 0 {
        let i = choose|i: int| 0 <= i < d.len() && forbidden.contains(#[trigger] d[i]);
        lemma_nothing_removed(d, forbidden, i);
    }
}

/// When sanitizing removes nothing, no character of `s` is forbidden.
proof fn lemma_nothing_removed(s: Seq<char>, forbidden: Set<char>, i: int)
    requires
        0 <= i < s.len(),
        removed(s, forbidden).len() == 0,
    ensures
        !forbidden.contains(s[i]),
    decreases s.len(),
{
    reveal(Seq::filter);
    let rest = s.drop_last();
    if forbidden.contains(s.last()) {
        assert(removed(s, forbidden).len() == removed(rest, forbidden).len() + 1);
    } else if i < s.len() - 1 {
        assert(rest[i] == s[i]);
        lemma_nothing_removed(rest, forbidden, i);
    }
}

/// Input free of forbidden characters that matches a blocked pattern is
/// rejected with `BlockedPattern`, before any validator runs.
pub proof fn lemma_blocked_input_rejected(
    input: Seq<char>,
    forbidden: Set<char>,
    patterns: Seq<Seq<char>>,
    e: ValidationError,
)
    requires
        forall|i: int| 0 <= i < decoded_or_raw(input).len()
            ==> !forbidden.contains(#[trigger] decoded_or_raw(input)[i]),
        blocks(patterns, decoded_or_raw(input)),
    ensures
        rejected(input, forbidden, patterns),
        rejection(input, forbidden, patterns, e) <==> reports_blocked(e),
{
    lemma_sanitize_partitions(decoded_or_raw(input), forbidden);
}

} // verus!
