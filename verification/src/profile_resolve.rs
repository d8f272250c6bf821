//! Profile resolution results, errors and checksums.

use vstd::prelude::*;
use sha2::{Digest, Sha256};
use vstd::string::StringSliceAdditionalSpecFns;
use crate::text::{
    chars_of, contains_seq, contains_str, find_char, find_char_in, lowercase_of, push_str,
    str_eq, string_from_chars, string_views, to_lowercase,
};

verus! {

broadcast use vstd::string::group_string_axioms;

/// `std::path::PathBuf`, carried through as an opaque value.
#[verifier::external_type_specification]
#[verifier::external_body]
pub struct ExPathBuf(std::path::PathBuf);

/// `<PathBuf as Clone>::clone`, which the derived `Clone` of
/// [`ResolvedProfile`] calls; nothing is stated of the copy, the path being
/// an opaque value here.
pub assume_specification[ <std::path::PathBuf as Clone>::clone ](p: &std::path::PathBuf) -> std::path::PathBuf;

/// `std::io::Error`, carried through as an opaque value.
#[verifier::external_type_specification]
#[verifier::external_body]
pub struct ExIoError(std::io::Error);

/// Where a resolved profile was found.
#[derive(Debug, Clone, PartialEq, Eq)]
pub enum ProfileSource {
    /// Found in the user profiles directory (`~/.slicecore/profiles/`).
    User,
    /// Found in the library index under a specific vendor.
    Library {
        /// Vendor name, e.g. `"BBL"`, `"Creality"`.
        vendor: String,
    },
    /// Built-in default profile.
    BuiltIn,
}

/// How a profile source is shown: `user`, `library/<vendor>` or `built-in`.
pub open spec fn source_text(s: ProfileSource) -> Seq<char> {
    match s {
        ProfileSource::User => "user"@,
        ProfileSource::Library { vendor } => "library/"@ + vendor@,
        ProfileSource::BuiltIn => "built-in"@,
    }
}

impl ProfileSource {
    /// The display text of the source: `user`, `library/<vendor>` or `built-in`.
    pub fn to_display_string(&self) -> (r: String)
        ensures
            r@ == source_text(*self),
    {
        let mut v: Vec<char> = Vec::new();
        match self {
            ProfileSource::User => push_str(&mut v, "user"),
            ProfileSource::Library { vendor } => {
                push_str(&mut v, "library/");
                push_str(&mut v, vendor.as_str());
            },
            ProfileSource::BuiltIn => push_str(&mut v, "built-in"),
        }
        assert(v@ =~= source_text(*self));
        string_from_chars(v.as_slice())
    }
}

/// A successfully resolved profile with metadata.
#[derive(Debug, Clone)]
pub struct ResolvedProfile {
    /// Absolute path to the TOML profile file.
    pub path: std::path::PathBuf,
    /// Where the profile was found.
    pub source: ProfileSource,
    /// Profile type: `"machine"`, `"filament"`, or `"process"`.
    pub profile_type: String,
    /// Human-readable profile name.
    pub name: String,
    /// SHA-256 hex digest of the file content.
    pub checksum: String,
}

/// Errors that can occur during profile resolution.
#[derive(Debug)]
pub enum ProfileError {
    /// No profile matched the query.
    NotFound {
        /// The user-provided query string.
        query: String,
        /// Similar profile names for "did you mean?" hints.
        suggestions: Vec<String>,
    },
    /// Multiple profiles matched the query.
    Ambiguous {
        /// The user-provided query string.
        query: String,
        /// All matching profile names.
        matches: Vec<String>,
    },
    /// Profile found but wrong type.
    TypeMismatch {
        /// The user-provided query string.
        query: String,
        /// The type the user requested.
        expected_type: String,
        /// The actual type of the matched profile.
        actual_type: String,
        /// Hint like "did you mean --filament?".
        hint: Option<String>,
    },
    /// Circular inheritance detected.
    CircularInheritance {
        /// The chain of profile names forming the cycle.
        chain: Vec<String>,
    },
    /// I/O error reading a profile file.
    Io(std::io::Error),
    /// Failed to parse a profile TOML file.
    Parse(String),
}

// ---------------------------------------------------------------------------
// Message text
// ---------------------------------------------------------------------------

/// The items joined with `sep` between consecutive ones (`[T]::join`).
pub open spec fn joined(items: Seq<Seq<char>>, sep: Seq<char>) -> Seq<char>
    decreases items.len(),
{
    if items.len() == 0 {
        Seq::empty()
    } else if items.len() == 1 {
        items[0]
    } else {
        joined(items.drop_last(), sep) + sep + items.last()
    }
}

/// Appends the items joined with `sep`.
pub fn push_joined(v: &mut Vec<char>, items: &[String], sep: &str)
    ensures
        final(v)@ == old(v)@ + joined(string_views(items@), sep@),
{
    let ghost start = v@;
    let mut i: usize = 0;
    while i < items.len()
        invariant
            i <= items@.len(),
            v@ == start + joined(string_views(items@).take(i as int), sep@),
        decreases items@.len() - i,
    {
        let ghost w = string_views(items@);
        assert(w.take(i + 1).drop_last() =~= w.take(i as int));
        if i > 0 {
            push_str(v, sep);
        }
        push_str(v, items[i].as_str());
        proof {
            if i == 0 {
                assert(joined(w.take(1), sep@) == w[0]);
            }
        }
        assert(v@ =~= start + joined(w.take(i + 1), sep@));
        i = i + 1;
    }
    assert(string_views(items@).take(items@.len() as int) =~= string_views(items@));
}

/// The suggestion suffix of a not-found message: empty without suggestions,
/// else `. Did you mean: a, b?`.
pub open spec fn suggestions_text(suggestions: Seq<Seq<char>>) -> Seq<char> {
    if suggestions.len() == 0 {
        Seq::empty()
    } else {
        ". Did you mean: "@ + joined(suggestions, ", "@) + "?"@
    }
}

/// Format the "did you mean" suffix for a not-found error.
pub fn format_suggestions(suggestions: &[String]) -> (r: String)
    ensures
        r@ == suggestions_text(string_views(suggestions@)),
{
    if suggestions.len() == 0 {
        return String::new();
    }
    let mut v: Vec<char> = Vec::new();
    push_str(&mut v, ". Did you mean: ");
    push_joined(&mut v, suggestions, ", ");
    push_str(&mut v, "?");
    string_from_chars(v.as_slice())
}

/// The hint suffix of a type-mismatch message: ` (hint)`, or empty.
pub open spec fn hint_text(hint: Option<Seq<char>>) -> Seq<char> {
    match hint {
        Some(h) => " ("@ + h + ")"@,
        None => Seq::empty(),
    }
}

/// Format the hint suffix for a type-mismatch error.
pub fn format_hint(hint: &Option<String>) -> (r: String)
    ensures
        r@ == hint_text(
            match hint {
                Some(h) => Some(h@),
                None => None,
            },
        ),
{
    match hint {
        Some(h) => {
            let mut v: Vec<char> = Vec::new();
            push_str(&mut v, " (");
            push_str(&mut v, h.as_str());
            push_str(&mut v, ")");
            string_from_chars(v.as_slice())
        },
        None => String::new(),
    }
}

/// `<std::io::Error as ToString>::to_string`: the error's message. Nothing is
/// stated of the text, which comes from the operating system.
#[verifier::external_body]
fn io_error_text(e: &std::io::Error) -> String {
    e.to_string()
}

impl ProfileError {
    /// The error message of this error (what `to_string()` shows).
    pub fn message(&self) -> (r: String)
        ensures
            match self {
                ProfileError::NotFound { query, suggestions } => r@ == "profile not found: '"@
                    + query@ + "'"@ + suggestions_text(string_views(suggestions@)),
                ProfileError::Ambiguous { query, matches } => r@ == "ambiguous profile query '"@
                    + query@ + "', matches: "@ + joined(string_views(matches@), ", "@),
                ProfileError::TypeMismatch { query, expected_type, actual_type, hint } => r@
                    == "profile '"@ + query@ + "' is a "@ + actual_type@ + " profile, not "@
                    + expected_type@ + hint_text(
                    match hint {
                        Some(h) => Some(h@),
                        None => None,
                    },
                ),
                ProfileError::CircularInheritance { chain } => r@
                    == "circular inheritance detected: "@ + joined(string_views(chain@), " -> "@),
                ProfileError::Io(_) => r@.len() >= "IO error reading profile: "@.len()
                    && r@.take("IO error reading profile: "@.len() as int)
                    == "IO error reading profile: "@,
                ProfileError::Parse(s) => r@ == "failed to parse profile TOML: "@ + s@,
            },
    {
        let mut v: Vec<char> = Vec::new();
        match self {
            ProfileError::NotFound { query, suggestions } => {
                push_str(&mut v, "profile not found: '");
                push_str(&mut v, query.as_str());
                push_str(&mut v, "'");
                let s = format_suggestions(suggestions.as_slice());
                push_str(&mut v, s.as_str());
            },
            ProfileError::Ambiguous { query, matches } => {
                push_str(&mut v, "ambiguous profile query '");
                push_str(&mut v, query.as_str());
                push_str(&mut v, "', matches: ");
                push_joined(&mut v, matches.as_slice(), ", ");
            },
            ProfileError::TypeMismatch { query, expected_type, actual_type, hint } => {
                push_str(&mut v, "profile '");
                push_str(&mut v, query.as_str());
                push_str(&mut v, "' is a ");
                push_str(&mut v, actual_type.as_str());
                push_str(&mut v, " profile, not ");
                push_str(&mut v, expected_type.as_str());
                let h = format_hint(hint);
                push_str(&mut v, h.as_str());
            },
            ProfileError::CircularInheritance { chain } => {
                push_str(&mut v, "circular inheritance detected: ");
                push_joined(&mut v, chain.as_slice(), " -> ");
            },
            ProfileError::Io(e) => {
                push_str(&mut v, "IO error reading profile: ");
                let ghost prefix = v@;
                let t = io_error_text(e);
                push_str(&mut v, t.as_str());
                assert(v@.take(prefix.len() as int) =~= prefix);
            },
            ProfileError::Parse(s) => {
                push_str(&mut v, "failed to parse profile TOML: ");
                push_str(&mut v, s.as_str());
            },
        }
        string_from_chars(v.as_slice())
    }
}

// ---------------------------------------------------------------------------
// Checksums
// ---------------------------------------------------------------------------

/// What `Sha256::digest` returns for the given bytes (FIPS 180-4 SHA-256).
pub uninterp spec fn sha256_of(data: Seq<u8>) -> Seq<u8>;

/// `sha2::Sha256::digest`: the 32-byte SHA-256 digest of `data`, named
/// [`sha256_of`]; the hash function itself is not restated.
#[verifier::external_body]
fn sha256_digest(data: &[u8]) -> (r: Vec<u8>)
    ensures
        r@ == sha256_of(data@),
        r@.len() == 32,
{
    Sha256::digest(data).to_vec()
}

/// The lowercase hexadecimal digit of a value below 16.
pub open spec fn hex_digit(v: int) -> char {
    if v < 10 {
        (48 + v) as char
    } else {
        (87 + v) as char
    }
}

/// Lowercase hexadecimal text of bytes, two digits per byte, high nibble first.
pub open spec fn hex_text(bytes: Seq<u8>) -> Seq<char>
    decreases bytes.len(),
{
    if bytes.len() == 0 {
        Seq::empty()
    } else {
        hex_text(bytes.drop_last()) + seq![
            hex_digit(bytes.last() as int / 16),
            hex_digit(bytes.last() as int % 16),
        ]
    }
}

/// The hexadecimal digit character of a nibble.
fn hex_char(v: u8) -> (c: char)
    requires
        v < 16,
    ensures
        c == hex_digit(v as int),
{
    if v < 10 {
        (48u8 + v) as char
    } else {
        (87u8 + v) as char
    }
}

/// Lowercase hexadecimal text of bytes (`format!("{:x}", digest)`).
pub fn hex_lower(bytes: &[u8]) -> (r: String)
    ensures
        r@ == hex_text(bytes@),
{
    let mut v: Vec<char> = Vec::new();
    let mut i: usize = 0;
    while i < bytes.len()
        invariant
            i <= bytes@.len(),
            v@ == hex_text(bytes@.take(i as int)),
        decreases bytes@.len() - i,
    {
        let b = bytes[i];
        assert(bytes@.take(i + 1).drop_last() =~= bytes@.take(i as int));
        v.push(hex_char(b / 16));
        v.push(hex_char(b % 16));
        assert(v@ =~= hex_text(bytes@.take(i + 1)));
        i = i + 1;
    }
    assert(bytes@.take(bytes@.len() as int) =~= bytes@);
    string_from_chars(v.as_slice())
}

/// The checksum of a profile text: the lowercase hex SHA-256 of its UTF-8 bytes.
pub open spec fn checksum_of(content: &str) -> Seq<char> {
    hex_text(sha256_of(content.spec_bytes()))
}

/// Compute the SHA-256 hex digest of content.
pub fn compute_checksum(content: &str) -> (r: String)
    ensures
        r@ == checksum_of(content),
        r@.len() == 64,
{
    let digest = sha256_digest(content.as_bytes());
    proof {
        lemma_hex_text_len(digest@);
    }
    hex_lower(digest.as_slice())
}

/// Hex text has two characters per byte.
pub proof fn lemma_hex_text_len(bytes: Seq<u8>)
    ensures
        hex_text(bytes).len() == 2 * bytes.len(),
    decreases bytes.len(),
{
    if bytes.len() > 0 {
        lemma_hex_text_len(bytes.drop_last());
    }
}

// ---------------------------------------------------------------------------
// Search decisions
// ---------------------------------------------------------------------------

/// `s` ends with `suffix`.
pub open spec fn ends_with(s: Seq<char>, suffix: Seq<char>) -> bool {
    s.len() >= suffix.len() && s.skip(s.len() - suffix.len()) == suffix
}

/// A query names a file (rather than a profile) when it holds `/` or ends
/// with `.toml`.
pub open spec fn names_a_file(query: Seq<char>) -> bool {
    find_char(query, '/') is Some || ends_with(query, ".toml"@)
}

/// Whether a query names a profile file directly.
pub fn is_path_query(query: &str) -> (r: bool)
    ensures
        r == names_a_file(query@),
{
    let cs = chars_of(query);
    let n = cs.len();
    assert(cs@.subrange(0, n as int) =~= query@);
    if find_char_in(cs.as_slice(), 0, n, '/').is_some() {
        return true;
    }
    let suffix = chars_of(".toml");
    if n < suffix.len() {
        return false;
    }
    let start = n - suffix.len();
    let mut j: usize = 0;
    while j < suffix.len()
        invariant
            cs@ == query@,
            find_char(query@, '/') is None,
            n == cs@.len(),
            suffix@ == ".toml"@,
            start + suffix@.len() == n,
            j <= suffix@.len(),
            forall|k: int| 0 <= k < j ==> cs@[start + k] == suffix@[k],
        decreases suffix@.len() - j,
    {
        if cs[start + j] != suffix[j] {
            assert(query@.skip(start as int)[j as int] != suffix@[j as int]);
            assert(query@.skip(start as int) != suffix@);
            return false;
        }
        j = j + 1;
    }
    assert(query@.skip(start as int) =~= suffix@);
    true
}

/// A profile that a name search may select: the names that match the query
/// exactly, the name searched for the query as a substring, and whether the
/// profile can be used (right type, file readable).
pub struct SearchCandidate {
    pub exact_keys: Vec<String>,
    pub name: String,
    pub available: bool,
}

/// The candidate matches the query exactly: one of its exact keys equals the
/// query, ignoring case.
pub open spec fn is_exact_candidate(c: SearchCandidate, q: Seq<char>) -> bool {
    exists|j: int|
        0 <= j < c.exact_keys@.len() && lowercase_of(#[trigger] c.exact_keys@[j]@) == lowercase_of(q)
}

/// The candidate's name holds the query, ignoring case.
pub open spec fn is_partial_candidate(c: SearchCandidate, q: Seq<char>) -> bool {
    contains_seq(lowercase_of(c.name@), lowercase_of(q))
}

/// The first available exact candidate at or after `i`.
pub open spec fn first_exact_from(cs: Seq<SearchCandidate>, q: Seq<char>, i: int) -> Option<int>
    decreases cs.len() - i,
{
    if i < 0 || i >= cs.len() {
        None
    } else if cs[i].available && is_exact_candidate(cs[i], q) {
        Some(i)
    } else {
        first_exact_from(cs, q, i + 1)
    }
}

/// The available candidates among the first `n` whose names hold the query.
pub open spec fn partial_matches(cs: Seq<SearchCandidate>, q: Seq<char>, n: int) -> Seq<int>
    decreases n,
{
    if n <= 0 {
        Seq::empty()
    } else if cs[n - 1].available && is_partial_candidate(cs[n - 1], q) {
        partial_matches(cs, q, n - 1).push(n - 1)
    } else {
        partial_matches(cs, q, n - 1)
    }
}

/// The integer values of a list of indices.
pub open spec fn indices_of(v: Seq<usize>) -> Seq<int> {
    v.map_values(|i: usize| i as int)
}

/// What a name search selects: the first available exact match alone, or
/// else every available candidate whose name holds the query, in order.
pub open spec fn selected_matches(cs: Seq<SearchCandidate>, q: Seq<char>) -> Seq<int> {
    match first_exact_from(cs, q, 0) {
        Some(i) => seq![i],
        None => partial_matches(cs, q, cs.len() as int),
    }
}

/// Whether one of `keys` equals `lower` once lowercased.
fn has_exact_key(keys: &Vec<String>, lower: &str, ghost_q: Ghost<Seq<char>>) -> (r: bool)
    requires
        lower@ == lowercase_of(ghost_q@),
    ensures
        r == exists|j: int| 0 <= j < keys@.len() && lowercase_of(#[trigger] keys@[j]@) == lowercase_of(ghost_q@),
{
    let mut j: usize = 0;
    while j < keys.len()
        invariant
            lower@ == lowercase_of(ghost_q@),
            j <= keys@.len(),
            forall|k: int| 0 <= k < j ==> lowercase_of(#[trigger] keys@[k]@) != lowercase_of(ghost_q@),
        decreases keys@.len() - j,
    {
        let key_lower = to_lowercase(keys[j].as_str());
        if str_eq(key_lower.as_str(), lower) {
            return true;
        }
        j = j + 1;
    }
    false
}

/// Selects the profiles a name search returns, as indices into `candidates`:
/// the first available exact match alone, or else every available candidate
/// whose name holds the query (ignoring case), in order.
pub fn select_matches(candidates: &[SearchCandidate], query: &str) -> (r: Vec<usize>)
    ensures
        indices_of(r@) == selected_matches(candidates@, query@),
{
    let lower = to_lowercase(query);
    let ghost q = query@;
    let n = candidates.len();
    let mut i: usize = 0;
    while i < n
        invariant
            n == candidates@.len(),
            i <= n,
            q == query@,
            lower@ == lowercase_of(q),
            first_exact_from(candidates@, q, 0) == first_exact_from(candidates@, q, i as int),
        decreases n - i,
    {
        let c = &candidates[i];
        if c.available && has_exact_key(&c.exact_keys, lower.as_str(), Ghost(q)) {
            assert(candidates@[i as int] == *c);
            assert(is_exact_candidate(candidates@[i as int], q));
            assert(first_exact_from(candidates@, q, i as int) == Some(i as int));
            let mut r: Vec<usize> = Vec::new();
            r.push(i);
            assert(indices_of(r@) =~= seq![i as int]);
            return r;
        }
        i = i + 1;
    }
    let mut r: Vec<usize> = Vec::new();
    let mut k: usize = 0;
    assert(indices_of(r@) =~= Seq::<int>::empty());
    while k < n
        invariant
            n == candidates@.len(),
            k <= n,
            q == query@,
            lower@ == lowercase_of(q),
            indices_of(r@) == partial_matches(candidates@, q, k as int),
        decreases n - k,
    {
        let c = &candidates[k];
        if c.available {
            let name_lower = to_lowercase(c.name.as_str());
            if contains_str(name_lower.as_str(), lower.as_str()) {
                let ghost before = r@;
                r.push(k);
                assert(indices_of(r@) =~= indices_of(before).push(k as int));
            }
        }
        k = k + 1;
    }
    r
}

/// The number of candidates among the first `n` that match the query
/// exactly (ignoring case).
pub open spec fn exact_count(cs: Seq<SearchCandidate>, q: Seq<char>, n: int) -> nat
    decreases n,
{
    if n <= 0 {
        0
    } else {
        exact_count(cs, q, n - 1) + if is_exact_candidate(cs[n - 1], q) {
            1nat
        } else {
            0nat
        }
    }
}

/// The first candidate at or after `i` that matches the query exactly.
pub open spec fn first_exact_any(cs: Seq<SearchCandidate>, q: Seq<char>, i: int) -> Option<int>
    decreases cs.len() - i,
{
    if i < 0 || i >= cs.len() {
        None
    } else if is_exact_candidate(cs[i], q) {
        Some(i)
    } else {
        first_exact_any(cs, q, i + 1)
    }
}

/// The only candidate that matches the query exactly (ignoring case), if
/// exactly one does.
pub open spec fn unique_exact(cs: Seq<SearchCandidate>, q: Seq<char>) -> Option<int> {
    if exact_count(cs, q, cs.len() as int) == 1 {
        first_exact_any(cs, q, 0)
    } else {
        None
    }
}

/// No candidate among the first `n` matches exactly when the count is zero.
proof fn lemma_exact_count_zero(cs: Seq<SearchCandidate>, q: Seq<char>, n: int)
    requires
        0 <= n <= cs.len(),
    ensures
        exact_count(cs, q, n) == 0 <==> forall|j: int|
            0 <= j < n ==> !is_exact_candidate(#[trigger] cs[j], q),
    decreases n,
{
    if n > 0 {
        lemma_exact_count_zero(cs, q, n - 1);
    }
}

/// With candidate `i` matching, the count among the first `n` is one exactly
/// when no other of them matches.
proof fn lemma_exact_count_one(cs: Seq<SearchCandidate>, q: Seq<char>, n: int, i: int)
    requires
        0 <= i < n <= cs.len(),
        is_exact_candidate(cs[i], q),
    ensures
        exact_count(cs, q, n) == 1 <==> forall|j: int|
            0 <= j < n && j != i ==> !is_exact_candidate(#[trigger] cs[j], q),
    decreases n,
{
    if n - 1 == i {
        lemma_exact_count_zero(cs, q, n - 1);
    } else {
        lemma_exact_count_zero(cs, q, n - 1);
        lemma_exact_count_one(cs, q, n - 1, i);
        assert(exact_count(cs, q, n - 1) >= 1);
    }
}

/// What the search from `s` finds is a matching candidate at or after `s`.
proof fn lemma_first_exact_any_found(cs: Seq<SearchCandidate>, q: Seq<char>, s: int)
    requires
        0 <= s,
    ensures
        first_exact_any(cs, q, s) matches Some(i) ==> s <= i < cs.len() && is_exact_candidate(
            cs[i],
            q,
        ),
    decreases cs.len() - s,
{
    if s < cs.len() {
        lemma_first_exact_any_found(cs, q, s + 1);
    }
}

/// The search from `s` finds `i` when `i` matches and none before it does.
proof fn lemma_first_exact_any_at(cs: Seq<SearchCandidate>, q: Seq<char>, s: int, i: int)
    requires
        0 <= s <= i < cs.len(),
        is_exact_candidate(cs[i], q),
        forall|j: int| s <= j < i ==> !is_exact_candidate(#[trigger] cs[j], q),
    ensures
        first_exact_any(cs, q, s) == Some(i),
    decreases i - s,
{
    if s < i {
        lemma_first_exact_any_at(cs, q, s + 1, i);
    }
}

/// The unique exact match is candidate `i` exactly when candidate `i` has a
/// key equal to the query (ignoring case) and no other candidate has one; a
/// candidate counts once however many of its keys match.
pub proof fn lemma_unique_exact(cs: Seq<SearchCandidate>, q: Seq<char>, i: int)
    ensures
        unique_exact(cs, q) == Some(i) <==> {
            &&& 0 <= i < cs.len()
            &&& is_exact_candidate(cs[i], q)
            &&& forall|j: int|
                0 <= j < cs.len() && j != i ==> !is_exact_candidate(#[trigger] cs[j], q)
        },
{
    lemma_first_exact_any_found(cs, q, 0);
    if 0 <= i < cs.len() && is_exact_candidate(cs[i], q) {
        lemma_exact_count_one(cs, q, cs.len() as int, i);
        if forall|j: int| 0 <= j < cs.len() && j != i ==> !is_exact_candidate(#[trigger] cs[j], q) {
            lemma_first_exact_any_at(cs, q, 0, i);
        }
    }
}

/// Finds the only candidate that matches the query exactly (ignoring case),
/// if exactly one does; availability is not considered.
pub fn unique_exact_match(candidates: &[SearchCandidate], query: &str) -> (r: Option<usize>)
    ensures
        match r {
            Some(i) => unique_exact(candidates@, query@) == Some(i as int),
            None => unique_exact(candidates@, query@) is None,
        },
{
    let lower = to_lowercase(query);
    let ghost q = query@;
    let n = candidates.len();
    let mut count: usize = 0;
    let mut first: Option<usize> = None;
    let mut i: usize = 0;
    while i < n
        invariant
            n == candidates@.len(),
            i <= n,
            q == query@,
            lower@ == lowercase_of(q),
            count == exact_count(candidates@, q, i as int),
            count <= i,
            match first {
                Some(f) => f < i && first_exact_any(candidates@, q, 0) == Some(f as int),
                None => first_exact_any(candidates@, q, 0) == first_exact_any(candidates@, q, i as int),
            },
            first is None <==> count == 0,
        decreases n - i,
    {
        if has_exact_key(&candidates[i].exact_keys, lower.as_str(), Ghost(q)) {
            if first.is_none() {
                first = Some(i);
            }
            count = count + 1;
        }
        i = i + 1;
    }
    if count == 1 {
        first
    } else {
        None
    }
}

/// The hint of a type mismatch: `did you mean --<type>?`.
pub fn mismatch_hint(profile_type: &str) -> (r: String)
    ensures
        r@ == "did you mean --"@ + profile_type@ + "?"@,
{
    let mut v: Vec<char> = Vec::new();
    push_str(&mut v, "did you mean --");
    push_str(&mut v, profile_type);
    push_str(&mut v, "?");
    string_from_chars(v.as_slice())
}

/// Where the parent named by an `inherits` value is found.
#[derive(Debug, Clone, PartialEq, Eq)]
pub enum ParentReference {
    /// The value is a path to the parent's file.
    Path(String),
    /// The parent is the file of this name next to the child.
    Sibling(String),
}

/// Where the parent of an `inherits` value is: the value itself when it names
/// a file, else `<value>.toml` next to the child.
pub fn parent_reference(inherits: &str) -> (r: ParentReference)
    ensures
        match r {
            ParentReference::Path(p) => names_a_file(inherits@) && p@ == inherits@,
            ParentReference::Sibling(f) => !names_a_file(inherits@) && f@ == inherits@ + ".toml"@,
        },
{
    if is_path_query(inherits) {
        ParentReference::Path(String::from_str(inherits))
    } else {
        let mut v: Vec<char> = Vec::new();
        push_str(&mut v, inherits);
        push_str(&mut v, ".toml");
        ParentReference::Sibling(string_from_chars(v.as_slice()))
    }
}

// ---------------------------------------------------------------------------
// Profile files
// ---------------------------------------------------------------------------

/// What reading `content` as a TOML table (`toml::from_str::<toml::Table>`)
/// and taking its top-level string entry `key` gives: nothing when the text
/// is not a TOML document or `key` is not a string entry of it.
pub uninterp spec fn toml_string_entry_of(content: Seq<char>, key: Seq<char>) -> Option<Seq<char>>;

/// What `toml::from_str::<toml::Table>` reports for `content`: the text of its
/// error (`Display`), or nothing when the text is a TOML document.
pub uninterp spec fn toml_error_text_of(content: Seq<char>) -> Option<Seq<char>>;

/// `toml::from_str::<toml::Table>` and `Table::get(key)` / `Value::as_str`:
/// the top-level string entry `key` of a TOML document, named
/// [`toml_string_entry_of`]; TOML itself is not restated.
#[verifier::external_body]
fn toml_string_entry(content: &str, key: &str) -> (r: Option<String>)
    ensures
        match r {
            Some(v) => toml_string_entry_of(content@, key@) == Some(v@),
            None => toml_string_entry_of(content@, key@) is None,
        },
{
    let table: toml::Table = toml::from_str(content).ok()?;
    table.get(key).and_then(|v| v.as_str()).map(String::from)
}

/// `toml::from_str::<toml::Table>` and the `Display` text of its error: the
/// error message when `content` is not a TOML document, named
/// [`toml_error_text_of`].
#[verifier::external_body]
fn toml_parse_error(content: &str) -> (r: Option<String>)
    ensures
        match r {
            Some(m) => toml_error_text_of(content@) == Some(m@),
            None => toml_error_text_of(content@) is None,
        },
{
    toml::from_str::<toml::Table>(content).err().map(|e| e.to_string())
}

/// The profile type a profile file declares (`profile_type = "..."`), if the
/// file is a TOML document that declares one as a string.
pub fn extract_profile_type(content: &str) -> (r: Option<String>)
    ensures
        match r {
            Some(t) => toml_string_entry_of(content@, "profile_type"@) == Some(t@),
            None => toml_string_entry_of(content@, "profile_type"@) is None,
        },
{
    toml_string_entry(content, "profile_type")
}

/// The parent a profile file names (`inherits = "..."`), or the TOML error
/// message when the file is not a TOML document.
pub fn profile_inherits(content: &str) -> (r: Result<Option<String>, String>)
    ensures
        match r {
            Err(m) => toml_error_text_of(content@) == Some(m@),
            Ok(p) => toml_error_text_of(content@) is None && match p {
                Some(v) => toml_string_entry_of(content@, "inherits"@) == Some(v@),
                None => toml_string_entry_of(content@, "inherits"@) is None,
            },
        },
{
    match toml_parse_error(content) {
        Some(m) => Err(m),
        None => Ok(toml_string_entry(content, "inherits")),
    }
}

} // verus!
