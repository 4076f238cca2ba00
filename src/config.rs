use crate::pattern::{compile, regex_compiles, regex_finds, CompiledPattern};
use std::collections::HashSet;
use std::sync::Arc;
use vstd::prelude::*;

verus! {

broadcast use vstd::std_specs::hash::group_hash_axioms;

/// The characters that the recommended configuration forbids.
pub open spec fn default_forbidden_chars() -> Set<char> {
    set!['<', '>', '&', '\'', '"', '\\', ';', '`']
}

/// Sources of the recommended blocked patterns, in the order they are checked:
/// SQL injection, XSS, path traversal, encoded payloads, command injection.
pub open spec fn default_blocked_patterns() -> Seq<Seq<char>> {
    seq![
        SQL_INJECTION@,
        CROSS_SITE_SCRIPTING@,
        PATH_TRAVERSAL@,
        ENCODED_PAYLOAD@,
        COMMAND_INJECTION@,
    ]
}

/// SQL-injection keywords and comment markers.
pub const SQL_INJECTION: &'static str = r"(?i)(drop\s+table|delete\s+from|insert\s+into|select\s+\*|union\s+all|update\s+.*\s+set|--|;|\bexec\b)";

/// Script tags, event handlers and other XSS markers.
pub const CROSS_SITE_SCRIPTING: &'static str = r"(?i)(<script>|javascript:|on\w+\s*=|alert\(|eval\(|document\.|window\.)";

/// Parent-directory steps, plain or percent-encoded.
pub const PATH_TRAVERSAL: &'static str = r"(\.\./|\.\.\\|%2e%2e%2f|%2e%2e%5c)";

/// Runs of two or more percent-encoded bytes.
pub const ENCODED_PAYLOAD: &'static str = r"(?:%[0-9a-fA-F]{2}){2,}";

/// Shell metacharacters and command names.
pub const COMMAND_INJECTION: &'static str = r"(?i)(\||&&|;|`|\$\(|\bexec\b|\bsystem\b|\brm\b|\bdel\b)";

/// The patterns of `sources` that the regex engine accepts, in their order.
pub open spec fn accepted_patterns(sources: Seq<Seq<char>>) -> Seq<Seq<char>>
    decreases sources.len(),
{
    if sources.len() == 0 {
        Seq::empty()
    } else {
        let rest = accepted_patterns(sources.drop_last());
        if regex_compiles(sources.last()) {
            rest.push(sources.last())
        } else {
            rest
        }
    }
}

/// Whether some pattern of `patterns` matches somewhere in `text`.
pub open spec fn blocks(patterns: Seq<Seq<char>>, text: Seq<char>) -> bool {
    exists|i: int| 0 <= i < patterns.len() && regex_finds(#[trigger] patterns[i], text)
}

/// The set of characters whose code points `codes` holds.
pub open spec fn chars_of(codes: Set<u32>) -> Set<char> {
    Set::new(|c: char| codes.contains(c as u32))
}

proof fn lemma_chars_of_insert(codes: Set<u32>, c: char)
    ensures
        chars_of(codes.insert(c as u32)) == chars_of(codes).insert(c),
{
    assert forall|x: char| #[trigger] chars_of(codes.insert(c as u32)).contains(x) == chars_of(codes).insert(c).contains(x) by {
        if x as u32 == c as u32 {
            vstd::utf8::char_u32_cast(x, c as u32);
            vstd::utf8::char_u32_cast(c, c as u32);
        }
    }
    assert(chars_of(codes.insert(c as u32)) =~= chars_of(codes).insert(c));
}

/// An immutable, shareable set of security rules: forbidden characters and
/// blocked patterns. Built through [`SecurityConfigBuilder`].
#[derive(Debug, Clone)]
pub struct SecurityConfig {
    forbidden_chars: Arc<HashSet<u32>>,
    blocked_patterns: Arc<Vec<CompiledPattern>>,
}

impl SecurityConfig {
    /// The forbidden characters.
    pub closed spec fn forbidden(&self) -> Set<char> {
        chars_of(self.forbidden_chars@)
    }

    /// The sources of the blocked patterns, in the order they are checked.
    pub closed spec fn patterns(&self) -> Seq<Seq<char>> {
        self.blocked_patterns@.map_values(|p: CompiledPattern| p@)
    }

    /// A builder with no forbidden characters and no patterns.
    pub fn builder() -> (r: SecurityConfigBuilder)
        ensures
            r.forbidden() == Set::<char>::empty(),
            r.patterns() == Seq::<Seq<char>>::empty(),
    {
        SecurityConfigBuilder::new()
    }

    /// Whether `c` is a forbidden character.
    pub fn is_char_forbidden(&self, c: &char) -> (r: bool)
        ensures
            r == self.forbidden().contains(*c),
    {
        let code: u32 = *c as u32;
        self.forbidden_chars.contains(&code)
    }

    /// Whether some blocked pattern matches somewhere in `input`.
    pub fn has_blocked_pattern(&self, input: &str) -> (r: bool)
        ensures
            r == blocks(self.patterns(), input@),
    {
        let patterns: &Vec<CompiledPattern> = &self.blocked_patterns;
        let mut i: usize = 0;
        while i < patterns.len()
            invariant
                i <= patterns@.len(),
                patterns@ == self.blocked_patterns@,
                forall|j: int| 0 <= j < i ==> !regex_finds(#[trigger] self.patterns()[j], input@),
            decreases patterns@.len() - i,
        {
            if patterns[i].is_match(input) {
                assert(regex_finds(self.patterns()[i as int], input@));
                return true;
            }
            i = i + 1;
        }
        false
    }
}

impl Default for SecurityConfig {
    /// The recommended configuration: the default forbidden characters and the
    /// default blocked patterns.
    fn default() -> (r: Self)
        ensures
            r.forbidden() == default_forbidden_chars(),
            r.patterns() == accepted_patterns(default_blocked_patterns()),
    {
        let r = SecurityConfig::builder().with_default_forbidden_chars().with_default_blocked_patterns().build();
        assert(Set::<char>::empty().union(default_forbidden_chars()) =~= default_forbidden_chars());
        assert(Seq::<Seq<char>>::empty() + accepted_patterns(default_blocked_patterns()) =~= accepted_patterns(default_blocked_patterns()));
        r
    }
}

/// A configuration under construction. Each step consumes the builder and
/// returns it, so steps chain; [`SecurityConfigBuilder::build`] seals it.
#[derive(Debug)]
pub struct SecurityConfigBuilder {
    forbidden_chars: HashSet<u32>,
    blocked_patterns: Vec<CompiledPattern>,
}

impl SecurityConfigBuilder {
    /// The forbidden characters gathered so far.
    pub closed spec fn forbidden(&self) -> Set<char> {
        chars_of(self.forbidden_chars@)
    }

    /// The sources of the patterns gathered so far, in the order they were added.
    pub closed spec fn patterns(&self) -> Seq<Seq<char>> {
        self.blocked_patterns@.map_values(|p: CompiledPattern| p@)
    }

    /// An empty builder.
    pub fn new() -> (r: Self)
        ensures
            r.forbidden() == Set::<char>::empty(),
            r.patterns() == Seq::<Seq<char>>::empty(),
    {
        let r = SecurityConfigBuilder { forbidden_chars: HashSet::new(), blocked_patterns: Vec::new() };
        assert(r.forbidden() =~= Set::<char>::empty());
        assert(r.patterns() =~= Seq::<Seq<char>>::empty());
        r
    }

    /// Adds the recommended forbidden characters: `< > & ' " \ ; `` ` ``.
    pub fn with_default_forbidden_chars(self) -> (r: Self)
        ensures
            r.forbidden() == self.forbidden().union(default_forbidden_chars()),
            r.patterns() == self.patterns(),
    {
        let defaults: [char; 8] = ['<', '>', '&', '\'', '"', '\\', ';', '`'];
        let mut b = self;
        let mut i: usize = 0;
        while i < 8
            invariant
                i <= 8,
                b.patterns() == self.patterns(),
                b.forbidden() == self.forbidden().union(Set::new(|c: char| exists|j: int| 0 <= j < i && defaults[j] == c)),
            decreases 8 - i,
        {
            b = b.add_forbidden_char(defaults[i]);
            i = i + 1;
        }
        b
    }

    /// Adds the recommended blocked patterns, those the regex engine accepts,
    /// after the patterns already present.
    pub fn with_default_blocked_patterns(self) -> (r: Self)
        ensures
            r.forbidden() == self.forbidden(),
            r.patterns() == self.patterns() + accepted_patterns(default_blocked_patterns()),
    {
        let defaults: [&str; 5] = [SQL_INJECTION, CROSS_SITE_SCRIPTING, PATH_TRAVERSAL, ENCODED_PAYLOAD, COMMAND_INJECTION];
        let ghost sources = default_blocked_patterns();
        let mut b = self;
        let mut i: usize = 0;
        while i < 5
            invariant
                i <= 5,
                forall|j: int| 0 <= j < 5 ==> #[trigger] defaults[j]@ == sources[j],
                sources == default_blocked_patterns(),
                b.forbidden() == self.forbidden(),
                b.patterns() == self.patterns() + accepted_patterns(sources.take(i as int)),
            decreases 5 - i,
        {
            let ghost prior = b.patterns();
            assert(sources.take(i + 1).drop_last() =~= sources.take(i as int));
            assert(sources.take(i + 1).last() == sources[i as int]);
            let ghost accepted = accepted_patterns(sources.take(i as int));
            let ghost source = sources[i as int];
            assert(defaults[i as int]@ == source);
            match compile(defaults[i]) {
                Ok(p) => {
                    assert(accepted_patterns(sources.take(i + 1)) == accepted.push(source));
                    b.blocked_patterns.push(p);
                    assert(b.patterns() =~= prior.push(source));
                    assert(prior.push(source) =~= self.patterns() + accepted.push(source));
                },
                Err(_) => {
                    assert(accepted_patterns(sources.take(i + 1)) == accepted);
                },
            }
            i = i + 1;
        }
        assert(sources.take(5) =~= sources);
        b
    }

    /// Adds one forbidden character.
    pub fn add_forbidden_char(self, c: char) -> (r: Self)
        ensures
            r.forbidden() == self.forbidden().insert(c),
            r.patterns() == self.patterns(),
    {
        let mut b = self;
        let code: u32 = c as u32;
        b.forbidden_chars.insert(code);
        proof {
            lemma_chars_of_insert(self.forbidden_chars@, c);
        }
        b
    }

    /// Compiles `pattern` and appends it to the blocked patterns; fails with the
    /// regex engine's error when it does not accept the pattern.
    pub fn add_blocked_pattern(self, pattern: &str) -> (r: Result<Self, regex::Error>)
        ensures
            r is Ok <==> regex_compiles(pattern@),
            r matches Ok(b) ==> b.patterns() == self.patterns().push(pattern@)
                && b.forbidden() == self.forbidden(),
    {
        let mut b = self;
        match compile(pattern) {
            Ok(p) => {
                b.blocked_patterns.push(p);
                assert(b.patterns() =~= self.patterns().push(pattern@));
                Ok(b)
            },
            Err(e) => Err(e),
        }
    }

    /// Seals the builder into a shareable configuration with the same rules.
    pub fn build(self) -> (r: SecurityConfig)
        ensures
            r.forbidden() == self.forbidden(),
            r.patterns() == self.patterns(),
    {
        SecurityConfig {
            forbidden_chars: Arc::new(self.forbidden_chars),
            blocked_patterns: Arc::new(self.blocked_patterns),
        }
    }
}

} // verus!
