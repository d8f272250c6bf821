//! Naming and metadata helpers of the profile library.
//!
//! Library entries are named after the profile: the file name is a sanitized
//! form of the profile name, and the material, printer model and quality
//! label are read from the name's wording.

use vstd::prelude::*;
use crate::profile_import_ini::IniSection;
use crate::text::{
    push_str, str_eq, chars_of, contains_seq, contains_str, find_char, find_char_in, find_chars, find_seq,
    lowercase_of, string_from_chars, string_of_range, to_lowercase, to_uppercase, trim, trim_end,
    trim_range, uppercase_of, string_views,
};

verus! {

broadcast use vstd::string::group_string_axioms;

// ---------------------------------------------------------------------------
// File names
// ---------------------------------------------------------------------------

/// `&&` replaced by `_and_`, scanning left to right.
pub open spec fn expand_ampersands(s: Seq<char>) -> Seq<char>
    decreases s.len(),
{
    if s.len() == 0 {
        s
    } else if s.len() >= 2 && s[0] == '&' && s[1] == '&' {
        seq!['_', 'a', 'n', 'd', '_'] + expand_ampersands(s.skip(2))
    } else {
        seq![s[0]] + expand_ampersands(s.skip(1))
    }
}

/// What a character becomes in a file name: spaces and `/` become `_`;
/// `@`, `(` and `)` are dropped; anything else is kept.
pub open spec fn file_char(c: char) -> Seq<char> {
    if c == ' ' || c == '/' {
        seq!['_']
    } else if c == '@' || c == '(' || c == ')' {
        Seq::empty()
    } else {
        seq![c]
    }
}

/// Each character replaced as [`file_char`] says.
pub open spec fn clean_file_chars(s: Seq<char>) -> Seq<char>
    decreases s.len(),
{
    if s.len() == 0 {
        s
    } else {
        file_char(s[0]) + clean_file_chars(s.skip(1))
    }
}

/// The file name for a profile name.
pub open spec fn sanitized(name: Seq<char>) -> Seq<char> {
    clean_file_chars(expand_ampersands(name))
}

/// Sanitize a profile name for use as a file name: `&&` becomes `_and_`,
/// spaces and `/` become `_`, and `@`, `(`, `)` are removed.
pub fn sanitize_filename(name: &str) -> (r: String)
    ensures
        r@ == sanitized(name@),
{
    let cs = chars_of(name);
    let n = cs.len();
    let mut expanded: Vec<char> = Vec::new();
    let mut i: usize = 0;
    assert(cs@.skip(0) =~= cs@);
    assert(expanded@ + expand_ampersands(cs@) =~= expand_ampersands(cs@));
    while i < n
        invariant
            n == cs@.len(),
            i <= n,
            expand_ampersands(cs@) == expanded@ + expand_ampersands(cs@.skip(i as int)),
        decreases n - i,
    {
        let ghost rest = cs@.skip(i as int);
        if i + 1 < n && cs[i] == '&' && cs[i + 1] == '&' {
            assert(rest[0] == '&' && rest[1] == '&');
            assert(rest.skip(2) =~= cs@.skip(i + 2));
            let ghost before = expanded@;
            expanded.push('_');
            expanded.push('a');
            expanded.push('n');
            expanded.push('d');
            expanded.push('_');
            assert(expanded@ =~= before + seq!['_', 'a', 'n', 'd', '_']);
            assert(before + (seq!['_', 'a', 'n', 'd', '_'] + expand_ampersands(cs@.skip(i + 2)))
                =~= expanded@ + expand_ampersands(cs@.skip(i + 2)));
            i = i + 2;
        } else {
            assert(rest[0] == cs@[i as int]);
            assert(rest.skip(1) =~= cs@.skip(i + 1));
            let ghost before = expanded@;
            expanded.push(cs[i]);
            assert(before + (seq![cs@[i as int]] + expand_ampersands(cs@.skip(i + 1)))
                =~= expanded@ + expand_ampersands(cs@.skip(i + 1)));
            i = i + 1;
        }
    }
    assert(cs@.skip(n as int) =~= Seq::<char>::empty());
    assert(expanded@ =~= expand_ampersands(name@));
    let m = expanded.len();
    let mut out: Vec<char> = Vec::new();
    let mut j: usize = 0;
    assert(expanded@.skip(0) =~= expanded@);
    assert(out@ + clean_file_chars(expanded@) =~= clean_file_chars(expanded@));
    while j < m
        invariant
            m == expanded@.len(),
            j <= m,
            clean_file_chars(expanded@) == out@ + clean_file_chars(expanded@.skip(j as int)),
        decreases m - j,
    {
        let c = expanded[j];
        let ghost rest = expanded@.skip(j as int);
        assert(rest[0] == c);
        assert(rest.skip(1) =~= expanded@.skip(j + 1));
        let ghost before = out@;
        if c == ' ' || c == '/' {
            out.push('_');
        } else if c == '@' || c == '(' || c == ')' {
        } else {
            out.push(c);
        }
        assert(out@ =~= before + file_char(c));
        assert(before + (file_char(c) + clean_file_chars(expanded@.skip(j + 1))) =~= out@
            + clean_file_chars(expanded@.skip(j + 1)));
        j = j + 1;
    }
    assert(expanded@.skip(m as int) =~= Seq::<char>::empty());
    assert(out@ =~= sanitized(name@));
    string_from_chars(out.as_slice())
}

/// A character that a sanitized file name never holds.
pub open spec fn is_unsafe_file_char(c: char) -> bool {
    c == ' ' || c == '/' || c == '@' || c == '(' || c == ')'
}

/// A sanitized name holds no space, `/`, `@`, `(` or `)`.
pub proof fn lemma_sanitized_is_safe(name: Seq<char>)
    ensures
        forall|i: int| 0 <= i < sanitized(name).len() ==> !is_unsafe_file_char(#[trigger] sanitized(name)[i]),
{
    lemma_clean_is_safe(expand_ampersands(name));
}

/// Cleaned characters hold no space, `/`, `@`, `(` or `)`.
proof fn lemma_clean_is_safe(s: Seq<char>)
    ensures
        forall|i: int| 0 <= i < clean_file_chars(s).len() ==> !is_unsafe_file_char(#[trigger] clean_file_chars(s)[i]),
    decreases s.len(),
{
    if s.len() > 0 {
        lemma_clean_is_safe(s.skip(1));
        let head = file_char(s[0]);
        let rest = clean_file_chars(s.skip(1));
        assert forall|i: int| 0 <= i < clean_file_chars(s).len() implies !is_unsafe_file_char(#[trigger] clean_file_chars(s)[i]) by {
            if i < head.len() {
                assert(clean_file_chars(s)[i] == head[i]);
            } else {
                assert(clean_file_chars(s)[i] == rest[i - head.len()]);
            }
        }
    }
}

// ---------------------------------------------------------------------------
// Facts read from profile names
// ---------------------------------------------------------------------------

/// The material named in an uppercase profile name: the first of the known
/// materials (longer names first) that occurs in it.
pub open spec fn material_in(upper: Seq<char>) -> Option<Seq<char>> {
    if contains_seq(upper, "PLA-CF"@) {
        Some("PLA-CF"@)
    } else if contains_seq(upper, "PLA+"@) {
        Some("PLA+"@)
    } else if contains_seq(upper, "PETG-CF"@) {
        Some("PETG-CF"@)
    } else if contains_seq(upper, "PA-CF"@) {
        Some("PA-CF"@)
    } else if contains_seq(upper, "PLA"@) {
        Some("PLA"@)
    } else if contains_seq(upper, "PETG"@) {
        Some("PETG"@)
    } else if contains_seq(upper, "ABS"@) {
        Some("ABS"@)
    } else if contains_seq(upper, "ASA"@) {
        Some("ASA"@)
    } else if contains_seq(upper, "PA"@) {
        Some("PA"@)
    } else if contains_seq(upper, "PC"@) {
        Some("PC"@)
    } else if contains_seq(upper, "TPU"@) {
        Some("TPU"@)
    } else if contains_seq(upper, "PVA"@) {
        Some("PVA"@)
    } else if contains_seq(upper, "HIPS"@) {
        Some("HIPS"@)
    } else if contains_seq(upper, "PP"@) {
        Some("PP"@)
    } else {
        None
    }
}

/// The materials a profile name can name, in the order they are looked for
/// (a longer name before the names it contains).
pub open spec fn known_materials() -> Seq<Seq<char>> {
    seq!["PLA-CF"@, "PLA+"@, "PETG-CF"@, "PA-CF"@, "PLA"@, "PETG"@, "ABS"@, "ASA"@, "PA"@, "PC"@, "TPU"@, "PVA"@, "HIPS"@, "PP"@]
}

/// The first of `list[i..]` that occurs in `hay`.
pub open spec fn first_occurring(hay: Seq<char>, list: Seq<Seq<char>>, i: nat) -> Option<Seq<char>>
    decreases list.len() - i,
{
    if i >= list.len() {
        None
    } else if contains_seq(hay, list[i as int]) {
        Some(list[i as int])
    } else {
        first_occurring(hay, list, i + 1)
    }
}

/// The material read from an uppercase name is the first of the known
/// materials that occurs in it (so it always occurs in the name), and none is
/// read when none occurs.
pub proof fn lemma_material_in_first(upper: Seq<char>)
    ensures
        material_in(upper) == first_occurring(upper, known_materials(), 0),
        material_in(upper) matches Some(m) ==> contains_seq(upper, m),
{
    reveal_with_fuel(first_occurring, 15);
}

/// The material named in an uppercase profile name.
pub fn material_in_uppercase(upper: &str) -> (r: Option<String>)
    ensures
        match r {
            Some(m) => material_in(upper@) == Some(m@),
            None => material_in(upper@) is None,
        },
{
    if contains_str(upper, "PLA-CF") {
        Some(String::from_str("PLA-CF"))
    } else if contains_str(upper, "PLA+") {
        Some(String::from_str("PLA+"))
    } else if contains_str(upper, "PETG-CF") {
        Some(String::from_str("PETG-CF"))
    } else if contains_str(upper, "PA-CF") {
        Some(String::from_str("PA-CF"))
    } else if contains_str(upper, "PLA") {
        Some(String::from_str("PLA"))
    } else if contains_str(upper, "PETG") {
        Some(String::from_str("PETG"))
    } else if contains_str(upper, "ABS") {
        Some(String::from_str("ABS"))
    } else if contains_str(upper, "ASA") {
        Some(String::from_str("ASA"))
    } else if contains_str(upper, "PA") {
        Some(String::from_str("PA"))
    } else if contains_str(upper, "PC") {
        Some(String::from_str("PC"))
    } else if contains_str(upper, "TPU") {
        Some(String::from_str("TPU"))
    } else if contains_str(upper, "PVA") {
        Some(String::from_str("PVA"))
    } else if contains_str(upper, "HIPS") {
        Some(String::from_str("HIPS"))
    } else if contains_str(upper, "PP") {
        Some(String::from_str("PP"))
    } else {
        None
    }
}

/// Extract the material type from a profile name (case-insensitive).
pub fn extract_material_from_name(name: &str) -> (r: Option<String>)
    ensures
        match r {
            Some(m) => material_in(uppercase_of(name@)) == Some(m@),
            None => material_in(uppercase_of(name@)) is None,
        },
{
    let upper = to_uppercase(name);
    material_in_uppercase(upper.as_str())
}

/// The printer model after the first `@` of a name, trimmed, if not empty.
pub open spec fn printer_model_in(name: Seq<char>) -> Option<Seq<char>> {
    match find_char(name, '@') {
        Some(k) => if trim(name.skip(k + 1)).len() > 0 {
            Some(trim(name.skip(k + 1)))
        } else {
            None
        },
        None => None,
    }
}

/// Extract the printer model from a profile name: the text after `@`.
pub fn extract_printer_model(name: &str) -> (r: Option<String>)
    ensures
        match r {
            Some(m) => printer_model_in(name@) == Some(m@),
            None => printer_model_in(name@) is None,
        },
{
    let cs = chars_of(name);
    let n = cs.len();
    assert(cs@.subrange(0, n as int) =~= name@);
    match find_char_in(cs.as_slice(), 0, n, '@') {
        Some(k) => {
            let (a, b) = trim_range(cs.as_slice(), k + 1, n);
            assert(name@.skip(k + 1) =~= cs@.subrange(k + 1, n as int));
            if a < b {
                Some(string_of_range(cs.as_slice(), a, b))
            } else {
                None
            }
        },
        None => None,
    }
}

/// The quality label named in a lowercase profile name: the first of the
/// known terms (longer ones first) that occurs in it.
pub open spec fn quality_in(lower: Seq<char>) -> Option<Seq<char>> {
    if contains_seq(lower, "super draft"@) {
        Some("Super Draft"@)
    } else if contains_seq(lower, "extra fine"@) {
        Some("Extra Fine"@)
    } else if contains_seq(lower, "high quality"@) {
        Some("High Quality"@)
    } else if contains_seq(lower, "ultradetail"@) {
        Some("Ultra Detail"@)
    } else if contains_seq(lower, "standard"@) {
        Some("Standard"@)
    } else if contains_seq(lower, "draft"@) {
        Some("Draft"@)
    } else if contains_seq(lower, "fine"@) {
        Some("Fine"@)
    } else if contains_seq(lower, "detail"@) {
        Some("Detail"@)
    } else if contains_seq(lower, "optimal"@) {
        Some("Optimal"@)
    } else if contains_seq(lower, "normal"@) {
        Some("Normal"@)
    } else if contains_seq(lower, "speed"@) {
        Some("Speed"@)
    } else if contains_seq(lower, "fast"@) {
        Some("Fast"@)
    } else {
        None
    }
}

/// The quality terms a lowercase profile name can hold, in the order they are
/// looked for (a longer term before the terms it contains), each with the
/// label it reads as.
pub open spec fn known_qualities() -> Seq<(Seq<char>, Seq<char>)> {
    seq![
        ("super draft"@, "Super Draft"@),
        ("extra fine"@, "Extra Fine"@),
        ("high quality"@, "High Quality"@),
        ("ultradetail"@, "Ultra Detail"@),
        ("standard"@, "Standard"@),
        ("draft"@, "Draft"@),
        ("fine"@, "Fine"@),
        ("detail"@, "Detail"@),
        ("optimal"@, "Optimal"@),
        ("normal"@, "Normal"@),
        ("speed"@, "Speed"@),
        ("fast"@, "Fast"@),
    ]
}

/// The label of the first of `list[i..]` whose term occurs in `hay`.
pub open spec fn first_labelled(hay: Seq<char>, list: Seq<(Seq<char>, Seq<char>)>, i: nat) -> Option<
    Seq<char>,
>
    decreases list.len() - i,
{
    if i >= list.len() {
        None
    } else if contains_seq(hay, list[i as int].0) {
        Some(list[i as int].1)
    } else {
        first_labelled(hay, list, i + 1)
    }
}

/// The quality read from a lowercase name is the label of the first known
/// quality term that occurs in it, and none is read when none occurs.
pub proof fn lemma_quality_in_first(lower: Seq<char>)
    ensures
        quality_in(lower) == first_labelled(lower, known_qualities(), 0),
{
    reveal_with_fuel(first_labelled, 13);
}

/// The quality label named in a lowercase profile name.
pub fn quality_in_lowercase(lower: &str) -> (r: Option<String>)
    ensures
        match r {
            Some(q) => quality_in(lower@) == Some(q@),
            None => quality_in(lower@) is None,
        },
{
    if contains_str(lower, "super draft") {
        Some(String::from_str("Super Draft"))
    } else if contains_str(lower, "extra fine") {
        Some(String::from_str("Extra Fine"))
    } else if contains_str(lower, "high quality") {
        Some(String::from_str("High Quality"))
    } else if contains_str(lower, "ultradetail") {
        Some(String::from_str("Ultra Detail"))
    } else if contains_str(lower, "standard") {
        Some(String::from_str("Standard"))
    } else if contains_str(lower, "draft") {
        Some(String::from_str("Draft"))
    } else if contains_str(lower, "fine") {
        Some(String::from_str("Fine"))
    } else if contains_str(lower, "detail") {
        Some(String::from_str("Detail"))
    } else if contains_str(lower, "optimal") {
        Some(String::from_str("Optimal"))
    } else if contains_str(lower, "normal") {
        Some(String::from_str("Normal"))
    } else if contains_str(lower, "speed") {
        Some(String::from_str("Speed"))
    } else if contains_str(lower, "fast") {
        Some(String::from_str("Fast"))
    } else {
        None
    }
}

/// Extract a quality label from a profile name (case-insensitive).
pub fn extract_quality_from_name(name: &str) -> (r: Option<String>)
    ensures
        match r {
            Some(q) => quality_in(lowercase_of(name@)) == Some(q@),
            None => quality_in(lowercase_of(name@)) is None,
        },
{
    let lower = to_lowercase(name);
    quality_in_lowercase(lower.as_str())
}

/// A character of a decimal number: an ASCII digit or `.`.
pub open spec fn is_number_char(c: char) -> bool {
    ('0' <= c && c <= '9') || c == '.'
}

/// The longest suffix of `s` made of number characters.
pub open spec fn trailing_number(s: Seq<char>) -> Seq<char>
    decreases s.len(),
{
    if s.len() > 0 && is_number_char(s.last()) {
        trailing_number(s.drop_last()).push(s.last())
    } else {
        Seq::empty()
    }
}

/// The trailing number of `cs[lo..hi]`, as a window `[start, hi)`.
fn trailing_number_start(cs: &[char], lo: usize, hi: usize) -> (start: usize)
    requires
        lo <= hi <= cs@.len(),
    ensures
        lo <= start <= hi,
        cs@.subrange(start as int, hi as int) == trailing_number(cs@.subrange(lo as int, hi as int)),
{
    let mut start = hi;
    while start > lo && ((cs[start - 1] >= '0' && cs[start - 1] <= '9') || cs[start - 1] == '.')
        invariant
            lo <= start <= hi <= cs@.len(),
            forall|k: int| start <= k < hi ==> is_number_char(#[trigger] cs@[k]),
        decreases start - lo,
    {
        start = start - 1;
    }
    proof {
        lemma_trailing_number(cs@.subrange(lo as int, hi as int), hi - start);
        assert(cs@.subrange(lo as int, hi as int).skip(start - lo) =~= cs@.subrange(start as int, hi as int));
    }
    start
}

/// The trailing number is the longest all-number suffix.
proof fn lemma_trailing_number(s: Seq<char>, n: int)
    requires
        0 <= n <= s.len(),
        forall|k: int| s.len() - n <= k < s.len() ==> is_number_char(#[trigger] s[k]),
        n == s.len() || !is_number_char(s[s.len() - n - 1]),
    ensures
        trailing_number(s) == s.skip(s.len() - n),
    decreases n,
{
    if n == 0 {
        assert(s.skip(s.len() as int) =~= Seq::<char>::empty());
    } else {
        let t = s.drop_last();
        assert forall|k: int| t.len() - (n - 1) <= k < t.len() implies is_number_char(#[trigger] t[k]) by {
            assert(t[k] == s[k]);
        }
        if n < s.len() {
            assert(t[t.len() - (n - 1) - 1] == s[s.len() - n - 1]);
        }
        lemma_trailing_number(t, n - 1);
        assert(s.skip(s.len() - n) =~= t.skip(t.len() - (n - 1)).push(s.last()));
    }
}

/// The layer-height text of a profile name: the number just before the first
/// `mm` of the trimmed name, if there is one.
pub open spec fn layer_height_text(name: Seq<char>) -> Option<Seq<char>> {
    let t = trim(name);
    match find_seq(t, "mm"@) {
        Some(p) => if trailing_number(t.take(p)).len() > 0 {
            Some(trailing_number(t.take(p)))
        } else {
            None
        },
        None => None,
    }
}

/// The digits of the layer height in a profile name like "0.20mm Standard".
pub fn layer_height_text_from_name(name: &str) -> (r: Option<String>)
    ensures
        match r {
            Some(t) => layer_height_text(name@) == Some(t@),
            None => layer_height_text(name@) is None,
        },
{
    let cs = chars_of(name);
    let n = cs.len();
    assert(cs@.subrange(0, n as int) =~= name@);
    let (a, b) = trim_range(cs.as_slice(), 0, n);
    let mut t: Vec<char> = Vec::new();
    let mut i = a;
    while i < b
        invariant
            a <= i <= b <= cs@.len(),
            t@ == cs@.subrange(a as int, i as int),
        decreases b - i,
    {
        t.push(cs[i]);
        assert(t@ =~= cs@.subrange(a as int, i + 1));
        i = i + 1;
    }
    let mm = chars_of("mm");
    match find_chars(t.as_slice(), mm.as_slice()) {
        Some(p) => {
            let start = trailing_number_start(t.as_slice(), 0, p);
            assert(t@.subrange(0, p as int) =~= t@.take(p as int));
            if start < p {
                Some(string_of_range(t.as_slice(), start, p))
            } else {
                None
            }
        },
        None => None,
    }
}

/// The nozzle-size text of a lowercase profile name: the number just before
/// the first `nozzle`, ignoring whitespace in between, if there is one.
pub open spec fn nozzle_size_text(lower: Seq<char>) -> Option<Seq<char>> {
    match find_seq(lower, "nozzle"@) {
        Some(p) => if trailing_number(trim_end(lower.take(p))).len() > 0 {
            Some(trailing_number(trim_end(lower.take(p))))
        } else {
            None
        },
        None => None,
    }
}

/// The digits of the nozzle size in a lowercase profile name.
pub fn nozzle_size_text_in_lowercase(lower: &str) -> (r: Option<String>)
    ensures
        match r {
            Some(t) => nozzle_size_text(lower@) == Some(t@),
            None => nozzle_size_text(lower@) is None,
        },
{
    let cs = chars_of(lower);
    let nozzle = chars_of("nozzle");
    match find_chars(cs.as_slice(), nozzle.as_slice()) {
        Some(p) => {
            assert(p + nozzle@.len() <= cs@.len());
            let mut e = p;
            while e > 0 && crate::text::is_whitespace(cs[e - 1])
                invariant
                    e <= p <= cs@.len(),
                    forall|k: int| e <= k < p ==> crate::text::is_ws(#[trigger] cs@[k]),
                decreases e,
            {
                e = e - 1;
            }
            proof {
                let w = cs@.take(p as int);
                assert forall|k: int| w.len() - (p - e) <= k < w.len() implies crate::text::is_ws(#[trigger] w[k]) by {
                    assert(w[k] == cs@[k]);
                }
                if e > 0 {
                    assert(w[w.len() - (p - e) - 1] == cs@[e - 1]);
                }
                crate::text::lemma_ws_suffix_len(w, p - e);
                assert(trim_end(w) =~= cs@.subrange(0, e as int));
            }
            let start = trailing_number_start(cs.as_slice(), 0, e);
            if start < e {
                Some(string_of_range(cs.as_slice(), start, e))
            } else {
                None
            }
        },
        None => None,
    }
}

/// The digits of the nozzle size in a profile name like "0.4 nozzle"
/// (case-insensitive).
pub fn nozzle_size_text_from_name(name: &str) -> (r: Option<String>)
    ensures
        match r {
            Some(t) => nozzle_size_text(lowercase_of(name@)) == Some(t@),
            None => nozzle_size_text(lowercase_of(name@)) is None,
        },
{
    let lower = to_lowercase(name);
    nozzle_size_text_in_lowercase(lower.as_str())
}

// ---------------------------------------------------------------------------
// Field lists of inherited profiles
// ---------------------------------------------------------------------------

/// `base` followed by the names of `extra` it does not hold yet, in order.
pub open spec fn merged_names(base: Seq<Seq<char>>, extra: Seq<Seq<char>>) -> Seq<Seq<char>>
    decreases extra.len(),
{
    if extra.len() == 0 {
        base
    } else {
        let m = merged_names(base, extra.drop_last());
        if m.contains(extra.last()) {
            m
        } else {
            m.push(extra.last())
        }
    }
}

/// Whether `name` is one of `names`.
fn holds_name(names: &[String], name: &String) -> (r: bool)
    ensures
        r == string_views(names@).contains(name@),
{
    let mut i: usize = 0;
    while i < names.len()
        invariant
            i <= names@.len(),
            forall|j: int| 0 <= j < i ==> names@[j]@ != name@,
        decreases names@.len() - i,
    {
        if crate::text::str_eq(names[i].as_str(), name.as_str()) {
            assert(string_views(names@)[i as int] == name@);
            return true;
        }
        i = i + 1;
    }
    assert forall|j: int| 0 <= j < string_views(names@).len() implies string_views(names@)[j] != name@ by {
        assert(string_views(names@)[j] == names@[j]@);
    }
    false
}

/// Merge the field-name lists of a parent and a child profile: the parent's
/// names, then each child name the list does not hold yet.
pub fn merge_field_lists(base: Vec<String>, extra: &[String]) -> (r: Vec<String>)
    ensures
        string_views(r@) == merged_names(string_views(base@), string_views(extra@)),
{
    let mut all = base;
    let ghost b = string_views(all@);
    let mut i: usize = 0;
    assert(string_views(extra@).take(0) =~= Seq::<Seq<char>>::empty());
    while i < extra.len()
        invariant
            i <= extra@.len(),
            string_views(all@) == merged_names(b, string_views(extra@).take(i as int)),
        decreases extra@.len() - i,
    {
        let ghost e = string_views(extra@);
        assert(e.take(i + 1).drop_last() =~= e.take(i as int));
        assert(e.take(i + 1).last() == extra@[i as int]@);
        if !holds_name(all.as_slice(), &extra[i]) {
            let ghost before = all@;
            all.push(extra[i].clone());
            assert(string_views(all@) =~= string_views(before).push(extra@[i as int]@));
        }
        i = i + 1;
    }
    assert(string_views(extra@).take(extra@.len() as int) =~= string_views(extra@));
    all
}

/// The merged list starts with the base list, holds every name of both lists,
/// and adds no duplicates: it is free of them when the base list is.
pub proof fn lemma_merged_names(base: Seq<Seq<char>>, extra: Seq<Seq<char>>)
    ensures
        merged_names(base, extra).len() >= base.len(),
        merged_names(base, extra).take(base.len() as int) == base,
        forall|i: int| 0 <= i < extra.len() ==> merged_names(base, extra).contains(#[trigger] extra[i]),
        forall|x: Seq<char>| #[trigger] merged_names(base, extra).contains(x) ==> base.contains(x) || extra.contains(x),
        base.no_duplicates() ==> merged_names(base, extra).no_duplicates(),
    decreases extra.len(),
{
    if extra.len() > 0 {
        let t = extra.drop_last();
        lemma_merged_names(base, t);
        let m = merged_names(base, t);
        assert forall|i: int| 0 <= i < extra.len() implies merged_names(base, extra).contains(#[trigger] extra[i]) by {
            if i < t.len() {
                assert(t[i] == extra[i]);
                assert(m.contains(t[i]));
                if !m.contains(extra.last()) {
                    let k = choose|k: int| 0 <= k < m.len() && m[k] == t[i];
                    assert(m.push(extra.last())[k] == t[i]);
                }
            } else {
                if !m.contains(extra.last()) {
                    assert(m.push(extra.last())[m.len() as int] == extra.last());
                }
            }
        }
        assert forall|x: Seq<char>| #[trigger] merged_names(base, extra).contains(x) implies base.contains(x) || extra.contains(x) by {
            if m.contains(x) {
                if t.contains(x) {
                    let k = choose|k: int| 0 <= k < t.len() && t[k] == x;
                    assert(extra[k] == x);
                }
            } else {
                assert(x == extra.last());
                assert(extra[extra.len() - 1] == x);
            }
        }
        if !m.contains(extra.last()) {
            assert(m.push(extra.last()).take(base.len() as int) =~= m.take(base.len() as int));
        }
    }
}

/// The indices of the existing entries whose id the new entries do not
/// reuse, in order.
pub open spec fn kept_indices(existing: Seq<Seq<char>>, new_ids: Seq<Seq<char>>, n: int) -> Seq<int>
    decreases n,
{
    if n <= 0 {
        Seq::empty()
    } else if new_ids.contains(existing[n - 1]) {
        kept_indices(existing, new_ids, n - 1)
    } else {
        kept_indices(existing, new_ids, n - 1).push(n - 1)
    }
}

/// The kept entries are, in increasing order, exactly the existing entries
/// whose id the new entries do not reuse.
pub proof fn lemma_kept_indices(existing: Seq<Seq<char>>, new_ids: Seq<Seq<char>>, n: int)
    requires
        0 <= n <= existing.len(),
    ensures
        forall|a: int, b: int|
            0 <= a < b < kept_indices(existing, new_ids, n).len() ==> kept_indices(existing, new_ids, n)[a]
                < kept_indices(existing, new_ids, n)[b],
        forall|i: int| #[trigger] kept_indices(existing, new_ids, n).contains(i) <==> (0 <= i < n
            && !new_ids.contains(existing[i])),
    decreases n,
{
    if n > 0 {
        lemma_kept_indices(existing, new_ids, n - 1);
        let k = kept_indices(existing, new_ids, n - 1);
        assert forall|i: int| #[trigger] kept_indices(existing, new_ids, n).contains(i) <==> (0 <= i < n
            && !new_ids.contains(existing[i])) by {
            if !new_ids.contains(existing[n - 1]) {
                let r = k.push(n - 1);
                if k.contains(i) {
                    let j = choose|j: int| 0 <= j < k.len() && k[j] == i;
                    assert(r[j] == i);
                }
                if r.contains(i) && i != n - 1 {
                    let j = choose|j: int| 0 <= j < r.len() && r[j] == i;
                    assert(j < k.len());
                    assert(k[j] == i);
                }
                if i == n - 1 {
                    assert(r[k.len() as int] == i);
                }
            }
        }
        if !new_ids.contains(existing[n - 1]) {
            let r = k.push(n - 1);
            assert forall|a: int, b: int| 0 <= a < b < r.len() implies r[a] < r[b] by {
                if b == k.len() {
                    assert(k.contains(k[a]));
                }
            }
        }
    }
}

/// The integer values of a list of indices.
pub open spec fn index_values(v: Seq<usize>) -> Seq<int> {
    v.map_values(|i: usize| i as int)
}

/// When merging a new profile index into an existing one: the existing
/// entries to keep (those whose id is not among the new ids), in order. The
/// merged index is these entries followed by all new ones.
pub fn entries_to_keep(existing_ids: &[String], new_ids: &[String]) -> (r: Vec<usize>)
    ensures
        index_values(r@) == kept_indices(string_views(existing_ids@), string_views(new_ids@), existing_ids@.len() as int),
{
    let mut r: Vec<usize> = Vec::new();
    let mut i: usize = 0;
    assert(index_values(r@) =~= Seq::<int>::empty());
    while i < existing_ids.len()
        invariant
            i <= existing_ids@.len(),
            index_values(r@) == kept_indices(string_views(existing_ids@), string_views(new_ids@), i as int),
        decreases existing_ids@.len() - i,
    {
        assert(string_views(existing_ids@)[i as int] == existing_ids@[i as int]@);
        if !holds_name(new_ids, &existing_ids[i]) {
            let ghost before = r@;
            r.push(i);
            assert(index_values(r@) =~= index_values(before).push(i as int));
        }
        i = i + 1;
    }
    r
}

// ---------------------------------------------------------------------------
// Library index entries
// ---------------------------------------------------------------------------

/// The id of a converted profile: `source/vendor/type/<sanitized name>`.
pub open spec fn index_id(source: Seq<char>, vendor: Seq<char>, profile_type: Seq<char>, name: Seq<char>) -> Seq<char> {
    source + seq!['/'] + vendor + seq!['/'] + profile_type + seq!['/'] + sanitized(name)
}

/// The id of a converted profile in the library index.
pub fn index_entry_id(source: &str, vendor: &str, profile_type: &str, name: &str) -> (r: String)
    ensures
        r@ == index_id(source@, vendor@, profile_type@, name@),
{
    let file = sanitize_filename(name);
    let mut v: Vec<char> = Vec::new();
    push_str(&mut v, source);
    v.push('/');
    push_str(&mut v, vendor);
    v.push('/');
    push_str(&mut v, profile_type);
    v.push('/');
    push_str(&mut v, file.as_str());
    assert(v@ =~= index_id(source@, vendor@, profile_type@, name@));
    string_from_chars(v.as_slice())
}

/// The library-relative path of a converted profile: its id with `.toml`.
pub fn index_entry_path(source: &str, vendor: &str, profile_type: &str, name: &str) -> (r: String)
    ensures
        r@ == index_id(source@, vendor@, profile_type@, name@) + ".toml"@,
{
    let id = index_entry_id(source, vendor, profile_type, name);
    let mut v: Vec<char> = Vec::new();
    push_str(&mut v, id.as_str());
    push_str(&mut v, ".toml");
    string_from_chars(v.as_slice())
}

/// An upstream JSON profile is converted only when its `instantiation` field
/// is the string `true`; base profiles are skipped.
pub fn is_instantiated(instantiation: Option<&str>) -> (r: bool)
    ensures
        r == (instantiation matches Some(v) && v@ == "true"@),
{
    match instantiation {
        Some(v) => str_eq(v, "true"),
        None => false,
    }
}

/// An INI section is converted when it is concrete, names a print,
/// filament or printer profile, and has a name.
pub open spec fn is_convertible(sec: crate::profile_import_ini::IniSectionView) -> bool {
    &&& !sec.is_abstract
    &&& (sec.section_type == "print"@ || sec.section_type == "filament"@ || sec.section_type
        == "printer"@)
    &&& sec.name.len() > 0
}

/// Whether a parsed INI section becomes a library profile.
pub fn is_convertible_ini_section(section: &IniSection) -> (r: bool)
    ensures
        r == is_convertible(section@),
{
    if section.is_abstract {
        return false;
    }
    let t = section.section_type.as_str();
    if !(str_eq(t, "print") || str_eq(t, "filament") || str_eq(t, "printer")) {
        return false;
    }
    !section.name.as_str().is_empty()
}

} // verus!
