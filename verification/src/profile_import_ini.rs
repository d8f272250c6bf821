//! PrusaSlicer vendor INI profiles: parsing and multi-parent inheritance.
//!
//! A vendor bundle is a sequence of `[type:name]` sections (or `[type]`),
//! each followed by `key = value` lines. Lines starting with `#` or `;` are
//! comments. A section whose name starts and ends with `*` is abstract: a base
//! that concrete profiles inherit from through `inherits = *a*; *b*`.
//!
//! The parser is specified by [`parse_ini`], a left-to-right reading of the
//! lines of the file; inheritance is specified by [`resolve_spec`].

use vstd::prelude::*;
use crate::text::{
    chars_of, find_char, find_char_in, lowercase_of, split, split_acc, str_eq, string_of_range, string_views,
    to_lowercase, trim, trim_range, trim_str, is_ws, ws_prefix_len, lemma_find_char, lemma_trim_window,
    lemma_trim_ends,
};
use crate::config::{GcodeDialect, InfillPattern};
use crate::seam::SeamPosition;
use crate::profile_import::ProfileMetadata;
use crate::field_map::FieldMap;

verus! {

broadcast use vstd::string::group_string_axioms;

// ---------------------------------------------------------------------------
// Sections
// ---------------------------------------------------------------------------

/// A parsed INI section with its type, name, and key-value pairs.
pub struct IniSection {
    /// Section type: "vendor", "printer_model", "print", "filament", "printer".
    pub section_type: String,
    /// Section name (e.g. "PrusaResearch", "*common*", "0.20mm NORMAL").
    pub name: String,
    /// Key-value pairs of this section; a later line for a key replaces an earlier one.
    pub fields: FieldMap,
    /// Whether this is an abstract base profile (name starts and ends with `*`).
    pub is_abstract: bool,
}

/// The mathematical content of an [`IniSection`].
pub struct IniSectionView {
    pub section_type: Seq<char>,
    pub name: Seq<char>,
    pub fields: Map<Seq<char>, Seq<char>>,
    pub is_abstract: bool,
}

impl View for IniSection {
    type V = IniSectionView;

    open spec fn view(&self) -> IniSectionView {
        IniSectionView {
            section_type: self.section_type@,
            name: self.name@,
            fields: self.fields@,
            is_abstract: self.is_abstract,
        }
    }
}

/// The views of a list of sections.
pub open spec fn section_views(v: Seq<IniSection>) -> Seq<IniSectionView> {
    v.map_values(|s: IniSection| s@)
}

/// A name marks an abstract profile when it starts and ends with `*`
/// (a lone `*` does not).
pub open spec fn is_abstract_name(name: Seq<char>) -> bool {
    name.len() >= 2 && name[0] == '*' && name.last() == '*'
}

// ---------------------------------------------------------------------------
// Line grammar
// ---------------------------------------------------------------------------

/// A trimmed line that is a section header: `[` ... `]`.
pub open spec fn is_header(t: Seq<char>) -> bool {
    t.len() > 0 && t[0] == '[' && t.last() == ']'
}

/// The (type, name) of a header line: the text between the brackets, split at
/// its first `:`; without a `:` the whole text is the type and the name is empty.
pub open spec fn header_parts(t: Seq<char>) -> (Seq<char>, Seq<char>) {
    let inner = t.subrange(1, t.len() - 1);
    match find_char(inner, ':') {
        Some(c) => (inner.take(c), inner.skip(c + 1)),
        None => (inner, Seq::empty()),
    }
}

/// The header of a trimmed line, if it is one.
pub open spec fn header_of(t: Seq<char>) -> Option<(Seq<char>, Seq<char>)> {
    if is_header(t) {
        Some(header_parts(t))
    } else {
        None
    }
}

/// The trimmed key and value of a `key = value` line, split at the first `=`.
pub open spec fn key_value(t: Seq<char>) -> Option<(Seq<char>, Seq<char>)> {
    match find_char(t, '=') {
        Some(e) => Some((trim(t.take(e)), trim(t.skip(e + 1)))),
        None => None,
    }
}

/// A `key = value` line splits at its first `=`: a line has a key and value
/// exactly when it holds an `=`, the key holds no `=`, and key and value are
/// trimmed (neither starts nor ends with whitespace).
pub proof fn lemma_key_value_split(t: Seq<char>)
    ensures
        key_value(t) is Some <==> t.contains('='),
        key_value(t) matches Some(kv) ==> !kv.0.contains('=') && (kv.0.len() > 0 ==> !is_ws(kv.0[0])
            && !is_ws(kv.0.last())) && (kv.1.len() > 0 ==> !is_ws(kv.1[0]) && !is_ws(kv.1.last())),
{
    lemma_find_char(t, '=');
    match find_char(t, '=') {
        Some(e) => {
            assert(t[e] == '=');
            let pre = t.take(e);
            lemma_trim_window(pre);
            lemma_trim_ends(pre);
            lemma_trim_ends(t.skip(e + 1));
            let k = trim(pre);
            let a = ws_prefix_len(pre) as int;
            assert forall|i: int| 0 <= i < k.len() implies k[i] != '=' by {
                assert(k[i] == pre[a + i]);
                assert(pre[a + i] == t[a + i]);
            }
        },
        None => {},
    }
}

/// A header names its type before the first `:` of the text between the
/// brackets (the type holds no `:`) and its name after it; without a `:` the
/// whole text is the type and the name is empty.
pub proof fn lemma_header_parts_split(t: Seq<char>)
    requires
        is_header(t),
    ensures
        ({
            let inner = t.subrange(1, t.len() - 1);
            let (ty, nm) = header_parts(t);
            &&& !ty.contains(':')
            &&& inner.contains(':') ==> inner == ty + seq![':'] + nm
            &&& !inner.contains(':') ==> ty == inner && nm.len() == 0
        }),
{
    let inner = t.subrange(1, t.len() - 1);
    lemma_find_char(inner, ':');
    match find_char(inner, ':') {
        Some(c) => {
            assert(inner[c] == ':');
            assert(inner =~= inner.take(c) + seq![':'] + inner.skip(c + 1));
            assert forall|i: int| 0 <= i < c implies inner.take(c)[i] != ':' by {}
        },
        None => {},
    }
}

/// A trimmed line that is skipped: empty, or a `#` / `;` comment.
pub open spec fn is_skipped(t: Seq<char>) -> bool {
    t.len() == 0 || t[0] == '#' || t[0] == ';'
}

/// Parser state after a prefix of the lines: the finished sections and the
/// section being filled.
pub struct ParseState {
    pub done: Seq<IniSectionView>,
    pub cur: Option<IniSectionView>,
}

/// The finished sections plus the one being filled.
pub open spec fn flush(st: ParseState) -> Seq<IniSectionView> {
    match st.cur {
        Some(c) => st.done.push(c),
        None => st.done,
    }
}

/// A fresh section opened by a header.
pub open spec fn new_section(ty: Seq<char>, nm: Seq<char>) -> IniSectionView {
    IniSectionView {
        section_type: ty,
        name: nm,
        fields: Map::empty(),
        is_abstract: is_abstract_name(nm),
    }
}

/// The effect of one line on the parser state.
pub open spec fn parse_line(st: ParseState, line: Seq<char>) -> ParseState {
    let t = trim(line);
    if is_skipped(t) {
        st
    } else if is_header(t) {
        ParseState {
            done: flush(st),
            cur: Some(new_section(header_parts(t).0, header_parts(t).1)),
        }
    } else {
        match (st.cur, key_value(t)) {
            (Some(c), Some(kv)) => if kv.0.len() > 0 {
                ParseState {
                    done: st.done,
                    cur: Some(
                        IniSectionView {
                            section_type: c.section_type,
                            name: c.name,
                            fields: c.fields.insert(kv.0, kv.1),
                            is_abstract: c.is_abstract,
                        },
                    ),
                }
            } else {
                st
            },
            _ => st,
        }
    }
}

/// The parser state after reading `lines` in order.
pub open spec fn parse_lines(lines: Seq<Seq<char>>) -> ParseState
    decreases lines.len(),
{
    if lines.len() == 0 {
        ParseState { done: Seq::empty(), cur: None }
    } else {
        parse_line(parse_lines(lines.drop_last()), lines.last())
    }
}

/// The sections of an INI file: its `\n`-separated lines read in order.
pub open spec fn parse_ini(content: Seq<char>) -> Seq<IniSectionView> {
    flush(parse_lines(split(content, '\n')))
}

/// The indices of the lines that are section headers, in order.
pub open spec fn header_positions(ls: Seq<Seq<char>>) -> Seq<int>
    decreases ls.len(),
{
    if ls.len() == 0 {
        Seq::empty()
    } else if is_header(trim(ls.last())) {
        header_positions(ls.drop_last()).push(ls.len() - 1)
    } else {
        header_positions(ls.drop_last())
    }
}

/// The fields a run of lines inside one section sets: every `key = value`
/// line with a non-empty key, a later line for a key replacing an earlier one.
pub open spec fn fields_of_lines(seg: Seq<Seq<char>>) -> Map<Seq<char>, Seq<char>>
    decreases seg.len(),
{
    if seg.len() == 0 {
        Map::empty()
    } else {
        let m = fields_of_lines(seg.drop_last());
        let t = trim(seg.last());
        if is_skipped(t) || is_header(t) {
            m
        } else {
            match key_value(t) {
                Some(kv) => if kv.0.len() > 0 {
                    m.insert(kv.0, kv.1)
                } else {
                    m
                },
                None => m,
            }
        }
    }
}

/// Section `i` of the lines: named by its header line, holding the fields of
/// the lines after it up to the next header (or the end).
pub open spec fn section_at(ls: Seq<Seq<char>>, hp: Seq<int>, i: int) -> IniSectionView {
    let h = hp[i];
    let end = if i + 1 < hp.len() {
        hp[i + 1]
    } else {
        ls.len() as int
    };
    let parts = header_parts(trim(ls[h]));
    IniSectionView {
        section_type: parts.0,
        name: parts.1,
        fields: fields_of_lines(ls.subrange(h + 1, end)),
        is_abstract: is_abstract_name(parts.1),
    }
}

/// Header positions are increasing line indices of header lines.
proof fn lemma_header_positions(ls: Seq<Seq<char>>)
    ensures
        forall|i: int| 0 <= i < header_positions(ls).len() ==> 0 <= #[trigger] header_positions(ls)[i] < ls.len()
            && is_header(trim(ls[header_positions(ls)[i]])),
        forall|i: int, j: int|
            0 <= i < j < header_positions(ls).len() ==> header_positions(ls)[i] < header_positions(ls)[j],
    decreases ls.len(),
{
    if ls.len() > 0 {
        let d = ls.drop_last();
        lemma_header_positions(d);
        let p = header_positions(d);
        assert forall|i: int| 0 <= i < p.len() implies #[trigger] ls[p[i]] == d[p[i]] by {}
    }
}

/// The parser state after some lines, described section by section.
proof fn lemma_parse_lines_sections(ls: Seq<Seq<char>>)
    ensures
        ({
            let hp = header_positions(ls);
            let st = parse_lines(ls);
            &&& hp.len() == 0 ==> st.cur is None && st.done.len() == 0
            &&& hp.len() > 0 ==> {
                &&& st.cur == Some(section_at(ls, hp, hp.len() - 1))
                &&& st.done.len() == hp.len() - 1
                &&& forall|i: int| 0 <= i < hp.len() - 1 ==> #[trigger] st.done[i] == section_at(ls, hp, i)
            }
        }),
    decreases ls.len(),
{
    if ls.len() > 0 {
        let d = ls.drop_last();
        let l = ls.last();
        let n = d.len() as int;
        lemma_parse_lines_sections(d);
        lemma_header_positions(d);
        let hp = header_positions(d);
        let st = parse_lines(d);
        let t = trim(l);
        assert(ls == d.push(l));
        // Sections other than the last one keep their lines.
        assert forall|i: int| 0 <= i < hp.len() - 1 implies #[trigger] section_at(ls, hp, i) == section_at(d, hp, i) by {
            assert(hp[i] < hp[i + 1]);
            assert(ls.subrange(hp[i] + 1, hp[i + 1]) =~= d.subrange(hp[i] + 1, hp[i + 1]));
            assert(ls[hp[i]] == d[hp[i]]);
        }
        if hp.len() > 0 {
            let k = hp.len() - 1;
            let h = hp[k];
            assert(ls[h] == d[h]);
            assert(ls.subrange(h + 1, n + 1) =~= d.subrange(h + 1, n).push(l));
            assert(ls.subrange(h + 1, n + 1).drop_last() =~= d.subrange(h + 1, n));
            assert(ls.subrange(h + 1, n) =~= d.subrange(h + 1, n));
        }
        if is_header(t) {
            let hp2 = hp.push(n);
            assert(header_positions(ls) == hp2);
            assert(ls.subrange(n + 1, n + 1) =~= Seq::<Seq<char>>::empty());
            assert forall|i: int| 0 <= i < hp.len() implies #[trigger] section_at(ls, hp2, i) == section_at(d, hp, i) by {
                if i < hp.len() - 1 {
                    assert(section_at(ls, hp2, i) == section_at(ls, hp, i));
                }
            }
            let st2 = parse_lines(ls);
            assert forall|i: int| 0 <= i < hp2.len() - 1 implies #[trigger] st2.done[i] == section_at(ls, hp2, i) by {
                if hp.len() > 0 && i == hp.len() - 1 {
                    assert(st2.done[i] == st.cur->0);
                } else {
                    assert(st2.done[i] == st.done[i]);
                }
            }
        } else {
            assert(header_positions(ls) == hp);
            if hp.len() > 0 {
                let st2 = parse_lines(ls);
                assert forall|i: int| 0 <= i < hp.len() - 1 implies #[trigger] st2.done[i] == section_at(ls, hp, i) by {
                    assert(st2.done[i] == st.done[i]);
                }
            }
        }
    }
}

/// The sections of an INI file, one per header line and in order: section
/// `i` takes its type and name from the `i`-th header line (split at the
/// first `:`), is abstract when its name starts and ends with `*`, and holds
/// the `key = value` lines that follow it up to the next header. Lines before
/// the first header belong to no section.
pub proof fn lemma_parse_ini_sections(content: Seq<char>)
    ensures
        ({
            let ls = split(content, '\n');
            let hp = header_positions(ls);
            &&& parse_ini(content).len() == hp.len()
            &&& forall|i: int| 0 <= i < hp.len() ==> #[trigger] parse_ini(content)[i] == section_at(ls, hp, i)
        }),
{
    let ls = split(content, '\n');
    lemma_parse_lines_sections(ls);
    let hp = header_positions(ls);
    let st = parse_lines(ls);
    if hp.len() > 0 {
        assert forall|i: int| 0 <= i < hp.len() implies #[trigger] parse_ini(content)[i] == section_at(ls, hp, i) by {
            if i < hp.len() - 1 {
                assert(parse_ini(content)[i] == st.done[i]);
            }
        }
    }
}

/// The last `key = value` line of a run that names `k` gives its value.
proof fn lemma_fields_of_lines_last(seg: Seq<Seq<char>>, j: int, k: Seq<char>, v: Seq<char>)
    requires
        0 <= j < seg.len(),
        !is_skipped(trim(seg[j])),
        !is_header(trim(seg[j])),
        key_value(trim(seg[j])) == Some((k, v)),
        k.len() > 0,
        forall|j2: int|
            j < j2 < seg.len() && !is_skipped(trim(#[trigger] seg[j2])) && !is_header(trim(seg[j2]))
                ==> !(key_value(trim(seg[j2])) matches Some(kv) && kv.0 == k),
    ensures
        fields_of_lines(seg).contains_key(k),
        fields_of_lines(seg)[k] == v,
    decreases seg.len(),
{
    let d = seg.drop_last();
    if j < seg.len() - 1 {
        assert forall|j2: int|
            j < j2 < d.len() && !is_skipped(trim(#[trigger] d[j2])) && !is_header(trim(d[j2]))
                implies !(key_value(trim(d[j2])) matches Some(kv) && kv.0 == k) by {
            assert(d[j2] == seg[j2]);
        }
        assert(d[j] == seg[j]);
        lemma_fields_of_lines_last(d, j, k, v);
        let l = seg.len() - 1;
        assert(seg[l] == seg.last());
    }
}

/// Every field of a run of lines has a non-empty key and comes from one of
/// its `key = value` lines.
proof fn lemma_fields_of_lines_source(seg: Seq<Seq<char>>, k: Seq<char>)
    requires
        fields_of_lines(seg).contains_key(k),
    ensures
        k.len() > 0,
        exists|j: int|
            0 <= j < seg.len() && !is_skipped(trim(#[trigger] seg[j])) && !is_header(trim(seg[j]))
                && key_value(trim(seg[j])) == Some((k, fields_of_lines(seg)[k])),
    decreases seg.len(),
{
    let d = seg.drop_last();
    let l = seg.len() - 1;
    let t = trim(seg.last());
    if !is_skipped(t) && !is_header(t) && (key_value(t) matches Some(kv) && kv.0.len() > 0 && kv.0 == k) {
        assert(seg[l] == seg.last());
    } else {
        lemma_fields_of_lines_source(d, k);
        let j = choose|j: int|
            0 <= j < d.len() && !is_skipped(trim(#[trigger] d[j])) && !is_header(trim(d[j]))
                && key_value(trim(d[j])) == Some((k, fields_of_lines(d)[k]));
        assert(seg[j] == d[j]);
    }
}

/// Inside a section, every `key = value` line with a non-empty key sets that
/// key to its trimmed value, whatever the value's length (an empty value is
/// kept), unless a later line of the same section sets the key again; and
/// every field of a section has a non-empty key and comes from such a line.
pub proof fn lemma_parse_ini_fields(content: Seq<char>, i: int)
    requires
        0 <= i < header_positions(split(content, '\n')).len(),
    ensures
        ({
            let ls = split(content, '\n');
            let hp = header_positions(ls);
            let end = if i + 1 < hp.len() { hp[i + 1] } else { ls.len() as int };
            let fields = parse_ini(content)[i].fields;
            &&& forall|j: int|
                hp[i] < j < end && !is_skipped(trim(#[trigger] ls[j])) && !is_header(trim(ls[j])) ==> (
                key_value(trim(ls[j])) matches Some(kv) ==> kv.0.len() > 0 && (forall|j2: int|
                    j < j2 < end && !is_skipped(trim(#[trigger] ls[j2])) && !is_header(trim(ls[j2]))
                        ==> !(key_value(trim(ls[j2])) matches Some(kv2) && kv2.0 == kv.0))
                    ==> fields.contains_key(kv.0) && fields[kv.0] == kv.1)
            &&& forall|k: Seq<char>| #[trigger] fields.contains_key(k) ==> k.len() > 0 && exists|j: int|
                hp[i] < j < end && !is_skipped(trim(#[trigger] ls[j])) && !is_header(trim(ls[j]))
                    && key_value(trim(ls[j])) == Some((k, fields[k]))
        }),
{
    let ls = split(content, '\n');
    let hp = header_positions(ls);
    lemma_parse_ini_sections(content);
    lemma_header_positions(ls);
    let end = if i + 1 < hp.len() { hp[i + 1] } else { ls.len() as int };
    let h = hp[i];
    if i + 1 < hp.len() {
        assert(hp[i] < hp[i + 1]);
    }
    let seg = ls.subrange(h + 1, end);
    let fields = parse_ini(content)[i].fields;
    assert(parse_ini(content)[i] == section_at(ls, hp, i));
    assert(fields == fields_of_lines(seg));
    assert forall|j: int|
        hp[i] < j < end && !is_skipped(trim(#[trigger] ls[j])) && !is_header(trim(ls[j])) implies (
        key_value(trim(ls[j])) matches Some(kv) ==> kv.0.len() > 0 && (forall|j2: int|
            j < j2 < end && !is_skipped(trim(#[trigger] ls[j2])) && !is_header(trim(ls[j2]))
                ==> !(key_value(trim(ls[j2])) matches Some(kv2) && kv2.0 == kv.0))
            ==> fields.contains_key(kv.0) && fields[kv.0] == kv.1) by {
        if let Some(kv) = key_value(trim(ls[j])) {
            let k = kv.0;
            if k.len() > 0 && (forall|j2: int|
                j < j2 < end && !is_skipped(trim(#[trigger] ls[j2])) && !is_header(trim(ls[j2]))
                    ==> !(key_value(trim(ls[j2])) matches Some(kv2) && kv2.0 == k)) {
                assert(seg[j - h - 1] == ls[j]);
                assert forall|j2: int|
                    j - h - 1 < j2 < seg.len() && !is_skipped(trim(#[trigger] seg[j2])) && !is_header(
                        trim(seg[j2]),
                    ) implies !(key_value(trim(seg[j2])) matches Some(kv2) && kv2.0 == k) by {
                    assert(seg[j2] == ls[j2 + h + 1]);
                }
                lemma_fields_of_lines_last(seg, j - h - 1, k, kv.1);
            }
        }
    }
    assert forall|k: Seq<char>| #[trigger] fields.contains_key(k) implies k.len() > 0 && exists|j: int|
        hp[i] < j < end && !is_skipped(trim(#[trigger] ls[j])) && !is_header(trim(ls[j]))
            && key_value(trim(ls[j])) == Some((k, fields[k])) by {
        lemma_fields_of_lines_source(seg, k);
        let j = choose|j: int|
            0 <= j < seg.len() && !is_skipped(trim(#[trigger] seg[j])) && !is_header(trim(seg[j]))
                && key_value(trim(seg[j])) == Some((k, fields_of_lines(seg)[k]));
        assert(seg[j] == ls[j + h + 1]);
    }
}

// ---------------------------------------------------------------------------
// Parser
// ---------------------------------------------------------------------------

/// Reads the header in the trimmed line `cs[a..b]`, if it is one.
fn header_in(cs: &[char], a: usize, b: usize) -> (r: Option<(String, String)>)
    requires
        a <= b <= cs@.len(),
    ensures
        match r {
            Some(h) => header_of(cs@.subrange(a as int, b as int)) == Some((h.0@, h.1@)),
            None => header_of(cs@.subrange(a as int, b as int)) is None,
        },
{
    let ghost t = cs@.subrange(a as int, b as int);
    if a == b || cs[a] != '[' || cs[b - 1] != ']' {
        return None;
    }
    assert(t[0] == cs@[a as int]);
    assert(t.last() == cs@[b - 1]);
    let lo = a + 1;
    let hi = b - 1;
    let ghost inner = t.subrange(1, t.len() - 1);
    assert(inner =~= cs@.subrange(lo as int, hi as int));
    match find_char_in(cs, lo, hi, ':') {
        Some(k) => {
            let ty = string_of_range(cs, lo, k);
            let nm = string_of_range(cs, k + 1, hi);
            assert(inner.take(k - lo) =~= cs@.subrange(lo as int, k as int));
            assert(inner.skip(k - lo + 1) =~= cs@.subrange(k + 1, hi as int));
            Some((ty, nm))
        },
        None => {
            let ty = string_of_range(cs, lo, hi);
            Some((ty, String::new()))
        },
    }
}

/// Parse a section header line `[type:name]` or `[type]` into (type, name).
///
/// Returns `None` when the line is not a section header.
pub fn parse_section_header(line: &str) -> (r: Option<(String, String)>)
    ensures
        match r {
            Some(h) => header_of(line@) == Some((h.0@, h.1@)),
            None => header_of(line@) is None,
        },
{
    let cs = chars_of(line);
    assert(cs@.subrange(0, cs@.len() as int) =~= line@);
    header_in(cs.as_slice(), 0, cs.len())
}

/// Whether the characters `cs[lo..hi]` form an abstract profile name.
fn abstract_name_in(cs: &[char], lo: usize, hi: usize) -> (r: bool)
    requires
        lo <= hi <= cs@.len(),
    ensures
        r == is_abstract_name(cs@.subrange(lo as int, hi as int)),
{
    if hi - lo >= 2 && cs[lo] == '*' && cs[hi - 1] == '*' {
        let ghost n = cs@.subrange(lo as int, hi as int);
        assert(n[0] == cs@[lo as int]);
        assert(n.last() == cs@[hi - 1]);
        true
    } else {
        proof {
            let n = cs@.subrange(lo as int, hi as int);
            if n.len() >= 2 {
                assert(n[0] == cs@[lo as int]);
                assert(n.last() == cs@[hi - 1]);
            }
        }
        false
    }
}

/// The executable parser state: finished sections and the one being filled.
struct IniParser {
    sections: Vec<IniSection>,
    current: Option<IniSection>,
}

impl IniParser {
    spec fn model(&self) -> ParseState {
        ParseState {
            done: section_views(self.sections@),
            cur: match self.current {
                Some(c) => Some(c@),
                None => None,
            },
        }
    }

    /// Moves the section being filled, if any, to the finished ones.
    fn finish_current(&mut self)
        ensures
            final(self).model().done == flush(old(self).model()),
            final(self).model().cur is None,
    {
        let cur = self.current.take();
        match cur {
            Some(sec) => {
                let ghost before = self.sections@;
                self.sections.push(sec);
                assert(section_views(self.sections@) =~= section_views(before).push(sec@));
            },
            None => {},
        }
    }

    /// Reads the line `cs[lo..hi]`.
    fn feed_line(&mut self, cs: &[char], lo: usize, hi: usize)
        requires
            lo <= hi <= cs@.len(),
        ensures
            final(self).model() == parse_line(old(self).model(), cs@.subrange(lo as int, hi as int)),
    {
        let ghost line = cs@.subrange(lo as int, hi as int);
        let (a, b) = trim_range(cs, lo, hi);
        let ghost t = cs@.subrange(a as int, b as int);
        assert(t == trim(line));
        if a == b {
            return;
        }
        assert(t[0] == cs@[a as int]);
        if cs[a] == '#' || cs[a] == ';' {
            return;
        }
        match header_in(cs, a, b) {
            Some(h) => {
                self.finish_current();
                let (ty, nm) = h;
                let ghost name_v = nm@;
                let abs = Self::header_name_is_abstract(cs, a, b);
                self.current = Some(IniSection {
                    section_type: ty,
                    name: nm,
                    fields: FieldMap::new(),
                    is_abstract: abs,
                });
                assert(self.model().cur == Some(new_section(header_parts(t).0, header_parts(t).1)));
                return;
            },
            None => {},
        }
        let cur = self.current.take();
        match cur {
            None => {},
            Some(mut sec) => {
                match find_char_in(cs, a, b, '=') {
                    Some(e) => {
                        let (ka, kb) = trim_range(cs, a, e);
                        let (va, vb) = trim_range(cs, e + 1, b);
                        assert(t.take(e - a) =~= cs@.subrange(a as int, e as int));
                        assert(t.skip(e - a + 1) =~= cs@.subrange(e + 1, b as int));
                        if ka < kb {
                            let key = string_of_range(cs, ka, kb);
                            let value = string_of_range(cs, va, vb);
                            sec.fields.insert(key, value);
                        }
                    },
                    None => {},
                }
                self.current = Some(sec);
            },
        }
    }

    /// Whether the name of the header `cs[a..b]` is abstract.
    fn header_name_is_abstract(cs: &[char], a: usize, b: usize) -> (r: bool)
        requires
            a <= b <= cs@.len(),
            is_header(cs@.subrange(a as int, b as int)),
        ensures
            r == is_abstract_name(header_parts(cs@.subrange(a as int, b as int)).1),
    {
        let ghost t = cs@.subrange(a as int, b as int);
        assert(t[0] == cs@[a as int]);
        assert(t.last() == cs@[b - 1]);
        assert(b - a >= 2);
        let lo = a + 1;
        let hi = b - 1;
        let ghost inner = t.subrange(1, t.len() - 1);
        assert(inner =~= cs@.subrange(lo as int, hi as int));
        match find_char_in(cs, lo, hi, ':') {
            Some(k) => {
                assert(inner.skip(k - lo + 1) =~= cs@.subrange(k + 1, hi as int));
                abstract_name_in(cs, k + 1, hi)
            },
            None => {
                assert(is_abstract_name(Seq::<char>::empty()) == false);
                false
            },
        }
    }
}

/// Parse a PrusaSlicer vendor INI file into typed sections.
///
/// Handles `[type:name]` and `[type]` headers, `key = value` lines (split at
/// the first `=`, both sides trimmed, empty keys ignored), `#` and `;` comment
/// lines, and abstract-name detection. Values are kept verbatim, so the
/// two-character escape `\n` inside G-code stays as written. Lines before the
/// first header are ignored.
pub fn parse_prusaslicer_ini(content: &str) -> (sections: Vec<IniSection>)
    ensures
        section_views(sections@) == parse_ini(content@),
{
    let cs = chars_of(content);
    let n = cs.len();
    let mut p = IniParser { sections: Vec::new(), current: None };
    assert(section_views(p.sections@) =~= Seq::<IniSectionView>::empty());
    let mut start: usize = 0;
    let mut i: usize = 0;
    while i < n
        invariant
            cs@ == content@,
            n == cs@.len(),
            start <= i <= n,
            split_acc(cs@.take(i as int), '\n').1 == cs@.subrange(start as int, i as int),
            p.model() == parse_lines(split_acc(cs@.take(i as int), '\n').0),
        decreases n - i,
    {
        let ghost prev = split_acc(cs@.take(i as int), '\n');
        assert(cs@.take(i + 1).drop_last() =~= cs@.take(i as int));
        assert(cs@.take(i + 1).last() == cs@[i as int]);
        if cs[i] == '\n' {
            p.feed_line(cs.as_slice(), start, i);
            let ghost next = split_acc(cs@.take(i + 1), '\n');
            assert(next.0 == prev.0.push(prev.1));
            assert(next.0.drop_last() =~= prev.0);
            assert(p.model() == parse_lines(next.0));
            start = i + 1;
            assert(next.1 =~= cs@.subrange(start as int, i + 1));
        } else {
            assert(split_acc(cs@.take(i + 1), '\n').1 =~= cs@.subrange(start as int, i + 1));
        }
        i = i + 1;
    }
    let ghost acc = split_acc(cs@.take(n as int), '\n');
    assert(cs@.take(n as int) =~= content@);
    p.feed_line(cs.as_slice(), start, n);
    assert(split(content@, '\n') == acc.0.push(acc.1));
    assert(split(content@, '\n').drop_last() =~= acc.0);
    p.finish_current();
    p.sections
}

// ---------------------------------------------------------------------------
// Section lookup
// ---------------------------------------------------------------------------

/// The binding of `k` made last among `es` (an entry is type, name, index).
pub open spec fn last_binding(es: Seq<(String, String, usize)>, k: (Seq<char>, Seq<char>)) -> Option<
    int,
>
    decreases es.len(),
{
    if es.len() == 0 {
        None
    } else if (es.last().0@, es.last().1@) == k {
        Some(es.last().2 as int)
    } else {
        last_binding(es.drop_last(), k)
    }
}

/// The binding of `k` is the one made by the last entry for `k`.
proof fn lemma_last_binding_at(es: Seq<(String, String, usize)>, k: (Seq<char>, Seq<char>), i: int)
    requires
        0 <= i < es.len(),
        (es[i].0@, es[i].1@) == k,
        forall|j: int| i < j < es.len() ==> (#[trigger] es[j].0@, es[j].1@) != k,
    ensures
        last_binding(es, k) == Some(es[i].2 as int),
    decreases es.len(),
{
    if i < es.len() - 1 {
        let t = es.drop_last();
        assert forall|j: int| i < j < t.len() implies (#[trigger] t[j].0@, t[j].1@) != k by {
            assert(t[j] == es[j]);
        }
        assert(t[i] == es[i]);
        lemma_last_binding_at(t, k, i);
    }
}

/// Without an entry for `k` there is no binding of `k`.
proof fn lemma_last_binding_none(es: Seq<(String, String, usize)>, k: (Seq<char>, Seq<char>))
    requires
        forall|j: int| 0 <= j < es.len() ==> (#[trigger] es[j].0@, es[j].1@) != k,
    ensures
        last_binding(es, k) is None,
    decreases es.len(),
{
    if es.len() > 0 {
        let t = es.drop_last();
        assert forall|j: int| 0 <= j < t.len() implies (#[trigger] t[j].0@, t[j].1@) != k by {
            assert(t[j] == es[j]);
        }
        lemma_last_binding_none(t, k);
    }
}

/// Index of the section for each (section type, name) pair.
pub struct SectionLookup {
    entries: Vec<(String, String, usize)>,
}

impl View for SectionLookup {
    type V = Map<(Seq<char>, Seq<char>), int>;

    closed spec fn view(&self) -> Map<(Seq<char>, Seq<char>), int> {
        Map::new(
            |k: (Seq<char>, Seq<char>)| last_binding(self.entries@, k) is Some,
            |k: (Seq<char>, Seq<char>)| last_binding(self.entries@, k)->0,
        )
    }
}

impl SectionLookup {
    /// An empty lookup.
    pub fn new() -> (r: Self)
        ensures
            r@ == Map::<(Seq<char>, Seq<char>), int>::empty(),
    {
        let r = SectionLookup { entries: Vec::new() };
        assert(r@ =~= Map::<(Seq<char>, Seq<char>), int>::empty());
        r
    }

    /// Binds (section type, name) to `index`, replacing an earlier binding.
    pub fn insert(&mut self, section_type: String, name: String, index: usize)
        ensures
            final(self)@ == old(self)@.insert((section_type@, name@), index as int),
    {
        let ghost k = (section_type@, name@);
        let ghost before = self.entries@;
        self.entries.push((section_type, name, index));
        let ghost es = self.entries@;
        assert(es.drop_last() =~= before);
        assert forall|kk: (Seq<char>, Seq<char>)| kk != k implies last_binding(es, kk) == last_binding(
            before,
            kk,
        ) by {}
        assert(self@ =~= old(self)@.insert(k, index as int));
    }

    /// The index bound to (section type, name), if any.
    pub fn get(&self, section_type: &str, name: &str) -> (r: Option<usize>)
        ensures
            match r {
                Some(i) => self@.contains_key((section_type@, name@)) && self@[(
                    section_type@,
                    name@,
                )] == i,
                None => !self@.contains_key((section_type@, name@)),
            },
    {
        let ghost k = (section_type@, name@);
        let mut i = self.entries.len();
        while i > 0
            invariant
                k == (section_type@, name@),
                i <= self.entries@.len(),
                forall|j: int|
                    i <= j < self.entries@.len() ==> (#[trigger] self.entries@[j].0@,
                    self.entries@[j].1@) != k,
            decreases i,
        {
            let e = &self.entries[i - 1];
            if crate::text::str_eq(e.0.as_str(), section_type) && crate::text::str_eq(
                e.1.as_str(),
                name,
            ) {
                proof {
                    lemma_last_binding_at(self.entries@, k, i - 1);
                }
                return Some(e.2);
            }
            i = i - 1;
        }
        proof {
            lemma_last_binding_none(self.entries@, k);
        }
        None
    }
}

/// The lookup built from `secs`: each (type, name) pair to the index of the
/// last section that has it.
pub open spec fn lookup_of(secs: Seq<IniSectionView>) -> Map<(Seq<char>, Seq<char>), int>
    decreases secs.len(),
{
    if secs.len() == 0 {
        Map::empty()
    } else {
        lookup_of(secs.drop_last()).insert(
            (secs.last().section_type, secs.last().name),
            secs.len() - 1,
        )
    }
}

/// Build a lookup map from (section_type, name) to the index of the section.
///
/// When two sections share a type and name, the later one wins.
pub fn build_section_lookup(sections: &[IniSection]) -> (r: SectionLookup)
    ensures
        r@ == lookup_of(section_views(sections@)),
{
    let mut r = SectionLookup::new();
    let mut i: usize = 0;
    while i < sections.len()
        invariant
            i <= sections@.len(),
            r@ == lookup_of(section_views(sections@).take(i as int)),
        decreases sections@.len() - i,
    {
        let ghost secs = section_views(sections@);
        assert(secs.take(i + 1).drop_last() =~= secs.take(i as int));
        r.insert(sections[i].section_type.clone(), sections[i].name.clone(), i);
        i = i + 1;
    }
    assert(section_views(sections@).take(sections@.len() as int) =~= section_views(sections@));
    r
}

/// What the lookup of a list of sections binds: exactly the (type, name)
/// pairs that occur, each to the last section carrying it.
pub proof fn lemma_lookup_of(secs: Seq<IniSectionView>, k: (Seq<char>, Seq<char>))
    ensures
        lookup_of(secs).contains_key(k) <==> exists|i: int|
            0 <= i < secs.len() && (#[trigger] secs[i].section_type, secs[i].name) == k,
        lookup_of(secs).contains_key(k) ==> {
            let i = lookup_of(secs)[k];
            &&& 0 <= i < secs.len()
            &&& (secs[i].section_type, secs[i].name) == k
            &&& forall|j: int| i < j < secs.len() ==> (#[trigger] secs[j].section_type, secs[j].name) != k
        },
    decreases secs.len(),
{
    if secs.len() > 0 {
        let t = secs.drop_last();
        let last = (secs.last().section_type, secs.last().name);
        lemma_lookup_of(t, k);
        if lookup_of(secs).contains_key(k) && k != last {
            let i = lookup_of(t)[k];
            assert(secs[i] == t[i]);
            assert forall|j: int| i < j < secs.len() implies (#[trigger] secs[j].section_type,
                secs[j].name) != k by {
                if j < t.len() {
                    assert(t[j] == secs[j]);
                }
            }
        }
        if exists|i: int|
            0 <= i < secs.len() && (#[trigger] secs[i].section_type, secs[i].name) == k {
            let i = choose|i: int|
                0 <= i < secs.len() && (#[trigger] secs[i].section_type, secs[i].name) == k;
            if i < t.len() {
                assert(t[i] == secs[i]);
            }
        }
        if lookup_of(t).contains_key(k) {
            let i = lookup_of(t)[k];
            assert(secs[i] == t[i]);
        }
    }
}

/// Every index of the lookup names a section of a list of `len` sections.
pub open spec fn indices_below(lk: Map<(Seq<char>, Seq<char>), int>, len: int) -> bool {
    forall|k: (Seq<char>, Seq<char>)| #[trigger] lk.contains_key(k) ==> 0 <= lk[k] < len
}

/// The lookup of a list of sections only names its own sections.
pub proof fn lemma_lookup_of_indices(secs: Seq<IniSectionView>)
    ensures
        indices_below(lookup_of(secs), secs.len() as int),
{
    assert forall|k: (Seq<char>, Seq<char>)| #[trigger] lookup_of(secs).contains_key(k) implies 0
        <= lookup_of(secs)[k] < secs.len() by {
        lemma_lookup_of(secs, k);
    }
}

// ---------------------------------------------------------------------------
// Inheritance
// ---------------------------------------------------------------------------

/// The trimmed pieces that are not empty, in order.
pub open spec fn nonempty_trimmed(pieces: Seq<Seq<char>>) -> Seq<Seq<char>>
    decreases pieces.len(),
{
    if pieces.len() == 0 {
        Seq::empty()
    } else {
        let r = nonempty_trimmed(pieces.drop_last());
        let t = trim(pieces.last());
        if t.len() > 0 {
            r.push(t)
        } else {
            r
        }
    }
}

/// The parent names of an `inherits` value: its `;`-separated pieces,
/// trimmed, without the empty ones.
pub open spec fn inherits_names(v: Seq<char>) -> Seq<Seq<char>> {
    nonempty_trimmed(split(v, ';'))
}

/// Appends the trimmed piece `cs[lo..hi]` to `names` when it is not empty.
fn push_trimmed_piece(names: &mut Vec<String>, cs: &[char], lo: usize, hi: usize)
    requires
        lo <= hi <= cs@.len(),
    ensures
        ({
            let t = trim(cs@.subrange(lo as int, hi as int));
            string_views(final(names)@) == if t.len() > 0 {
                string_views(old(names)@).push(t)
            } else {
                string_views(old(names)@)
            }
        }),
{
    let (a, b) = trim_range(cs, lo, hi);
    if a < b {
        let ghost before = names@;
        names.push(string_of_range(cs, a, b));
        assert(string_views(names@) =~= string_views(before).push(cs@.subrange(a as int, b as int)));
    }
}

/// Parse the `inherits` field value into the list of parent names.
///
/// Splits on `;`, trims each piece and drops empty pieces, so both `"a; b"`
/// and `"a;b"` give `["a", "b"]`.
pub fn parse_inherits(value: &str) -> (r: Vec<String>)
    ensures
        string_views(r@) == inherits_names(value@),
{
    let cs = chars_of(value);
    let n = cs.len();
    let mut names: Vec<String> = Vec::new();
    assert(string_views(names@) =~= Seq::<Seq<char>>::empty());
    let mut start: usize = 0;
    let mut i: usize = 0;
    while i < n
        invariant
            cs@ == value@,
            n == cs@.len(),
            start <= i <= n,
            split_acc(cs@.take(i as int), ';').1 == cs@.subrange(start as int, i as int),
            string_views(names@) == nonempty_trimmed(split_acc(cs@.take(i as int), ';').0),
        decreases n - i,
    {
        let ghost prev = split_acc(cs@.take(i as int), ';');
        assert(cs@.take(i + 1).drop_last() =~= cs@.take(i as int));
        assert(cs@.take(i + 1).last() == cs@[i as int]);
        if cs[i] == ';' {
            push_trimmed_piece(&mut names, cs.as_slice(), start, i);
            let ghost next = split_acc(cs@.take(i + 1), ';');
            assert(next.0 == prev.0.push(prev.1));
            assert(next.0.drop_last() =~= prev.0);
            start = i + 1;
            assert(next.1 =~= cs@.subrange(start as int, i + 1));
        } else {
            assert(split_acc(cs@.take(i + 1), ';').1 =~= cs@.subrange(start as int, i + 1));
        }
        i = i + 1;
    }
    let ghost acc = split_acc(cs@.take(n as int), ';');
    assert(cs@.take(n as int) =~= value@);
    push_trimmed_piece(&mut names, cs.as_slice(), start, n);
    assert(split(value@, ';') == acc.0.push(acc.1));
    assert(split(value@, ';').drop_last() =~= acc.0);
    names
}

/// Every parent name is non-empty and holds no `;`.
pub proof fn lemma_inherits_names_clean(v: Seq<char>)
    ensures
        forall|i: int| 0 <= i < inherits_names(v).len() ==> {
            &&& (#[trigger] inherits_names(v)[i]).len() > 0
            &&& !inherits_names(v)[i].contains(';')
        },
{
    crate::text::lemma_split_pieces_lack_sep(v, ';');
    lemma_nonempty_trimmed_clean(split(v, ';'), ';');
}

/// The kept pieces are non-empty and hold no `c` when no piece does.
proof fn lemma_nonempty_trimmed_clean(pieces: Seq<Seq<char>>, c: char)
    requires
        forall|i: int| 0 <= i < pieces.len() ==> !(#[trigger] pieces[i]).contains(c),
    ensures
        forall|i: int| 0 <= i < nonempty_trimmed(pieces).len() ==> {
            &&& (#[trigger] nonempty_trimmed(pieces)[i]).len() > 0
            &&& !nonempty_trimmed(pieces)[i].contains(c)
        },
    decreases pieces.len(),
{
    if pieces.len() > 0 {
        let d = pieces.drop_last();
        assert forall|i: int| 0 <= i < d.len() implies !(#[trigger] d[i]).contains(c) by {
            assert(d[i] == pieces[i]);
        }
        lemma_nonempty_trimmed_clean(d, c);
        let last = pieces.last();
        assert(!pieces[pieces.len() - 1].contains(c));
        let t = trim(last);
        crate::text::lemma_trim_window(last);
        assert forall|k: int| 0 <= k < t.len() implies t[k] != c by {
            let a = crate::text::ws_prefix_len(last) as int;
            assert(t[k] == last[a + k]);
        }
        let r = nonempty_trimmed(d);
        assert forall|i: int| 0 <= i < nonempty_trimmed(pieces).len() implies {
            &&& (#[trigger] nonempty_trimmed(pieces)[i]).len() > 0
            &&& !nonempty_trimmed(pieces)[i].contains(c)
        } by {
            if i < r.len() {
                assert(nonempty_trimmed(pieces)[i] == r[i]);
            }
        }
    }
}

/// Inheritance deeper than this is cut off (guards against cycles).
pub const MAX_INHERITANCE_DEPTH: usize = 10;

/// Termination measure of the inheritance recursion.
pub open spec fn depth_budget(depth: int) -> int {
    if depth <= MAX_INHERITANCE_DEPTH + 1 {
        MAX_INHERITANCE_DEPTH + 1 - depth
    } else {
        0
    }
}

/// The parents named by a section's own `inherits` field, if it has one.
pub open spec fn parents_of(sec: IniSectionView) -> Seq<Seq<char>> {
    if sec.fields.contains_key("inherits"@) {
        inherits_names(sec.fields["inherits"@])
    } else {
        Seq::empty()
    }
}

/// The fields a section has after inheritance, resolved at recursion `depth`.
///
/// Past [`MAX_INHERITANCE_DEPTH`] a section keeps its own fields as they are.
/// Otherwise the resolved fields of the parents that the lookup finds (of the
/// section's own type) are overlaid left to right, and the section's own
/// fields other than `inherits` are overlaid last.
pub open spec fn resolve_spec(
    secs: Seq<IniSectionView>,
    lk: Map<(Seq<char>, Seq<char>), int>,
    sec: IniSectionView,
    depth: int,
) -> Map<Seq<char>, Seq<char>>
    decreases depth_budget(depth), 1int, 0int,
{
    if depth > MAX_INHERITANCE_DEPTH {
        sec.fields
    } else {
        merge_parents(secs, lk, sec.section_type, parents_of(sec), depth).union_prefer_right(
            sec.fields.remove("inherits"@),
        )
    }
}

/// The overlay, left to right, of the resolved fields of the `parents` (of
/// section type `ty`) that the lookup finds, each resolved at `depth + 1`.
pub open spec fn merge_parents(
    secs: Seq<IniSectionView>,
    lk: Map<(Seq<char>, Seq<char>), int>,
    ty: Seq<char>,
    parents: Seq<Seq<char>>,
    depth: int,
) -> Map<Seq<char>, Seq<char>>
    decreases depth_budget(depth), 0int, parents.len(),
{
    if parents.len() == 0 || depth > MAX_INHERITANCE_DEPTH {
        Map::empty()
    } else {
        let acc = merge_parents(secs, lk, ty, parents.drop_last(), depth);
        let key = (ty, parents.last());
        if lk.contains_key(key) && 0 <= lk[key] < secs.len() {
            acc.union_prefer_right(resolve_spec(secs, lk, secs[lk[key]], depth + 1))
        } else {
            acc
        }
    }
}

/// Resolve the inheritance chain of a section into its flattened fields.
///
/// Multi-parent inheritance (`inherits = *base1*; *base2*`) is resolved left
/// to right: the resolved fields of each parent found in `lookup` (under the
/// section's own type) are overlaid in order, then the section's own fields
/// (except `inherits`) are overlaid on top. Past a recursion depth of
/// [`MAX_INHERITANCE_DEPTH`] the section's own fields are returned unchanged,
/// which stops circular chains.
pub fn resolve_ini_inheritance(
    section: &IniSection,
    sections: &[IniSection],
    lookup: &SectionLookup,
    depth: usize,
) -> (r: FieldMap)
    requires
        indices_below(lookup@, sections@.len() as int),
    ensures
        r@ == resolve_spec(section_views(sections@), lookup@, section@, depth as int),
    decreases depth_budget(depth as int),
{
    if depth > MAX_INHERITANCE_DEPTH {
        let mut own = FieldMap::new();
        own.overlay(&section.fields, None);
        assert(own@ =~= section.fields@);
        return own;
    }
    let ghost secs = section_views(sections@);
    let mut resolved = FieldMap::new();
    match section.fields.get("inherits") {
        Some(v) => {
            let parents = parse_inherits(v.as_str());
            let ghost names = string_views(parents@);
            assert(names == parents_of(section@));
            let mut j: usize = 0;
            while j < parents.len()
                invariant
                    depth <= MAX_INHERITANCE_DEPTH,
                    secs == section_views(sections@),
                    indices_below(lookup@, sections@.len() as int),
                    names == string_views(parents@),
                    j <= parents@.len(),
                    resolved@ == merge_parents(secs, lookup@, section.section_type@, names.take(j as int), depth as int),
                decreases parents@.len() - j,
            {
                let ghost acc = resolved@;
                assert(names.take(j + 1).drop_last() =~= names.take(j as int));
                assert(names.take(j + 1).last() == parents@[j as int]@);
                match lookup.get(section.section_type.as_str(), parents[j].as_str()) {
                    Some(idx) => {
                        assert(secs[idx as int] == sections@[idx as int]@);
                        let parent_fields = resolve_ini_inheritance(&sections[idx], sections, lookup, depth + 1);
                        resolved.overlay(&parent_fields, None);
                    },
                    None => {},
                }
                j = j + 1;
            }
            assert(names.take(parents@.len() as int) =~= names);
        },
        None => {
            assert(parents_of(section@) == Seq::<Seq<char>>::empty());
        },
    }
    resolved.overlay(&section.fields, Some("inherits"));
    resolved
}

// ---------------------------------------------------------------------------
// Laws of inheritance
// ---------------------------------------------------------------------------

/// Whether the lookup finds a parent named `p` of section type `ty`.
pub open spec fn finds_parent(
    secs: Seq<IniSectionView>,
    lk: Map<(Seq<char>, Seq<char>), int>,
    ty: Seq<char>,
    p: Seq<char>,
) -> bool {
    lk.contains_key((ty, p)) && 0 <= lk[(ty, p)] < secs.len()
}

/// A section's own field (other than `inherits`) always wins over anything
/// inherited, within the depth limit.
pub proof fn lemma_own_field_wins(
    secs: Seq<IniSectionView>,
    lk: Map<(Seq<char>, Seq<char>), int>,
    sec: IniSectionView,
    depth: int,
    k: Seq<char>,
)
    requires
        depth <= MAX_INHERITANCE_DEPTH,
        sec.fields.contains_key(k),
        k != "inherits"@,
    ensures
        resolve_spec(secs, lk, sec, depth).contains_key(k),
        resolve_spec(secs, lk, sec, depth)[k] == sec.fields[k],
{
}

/// A key the section does not set itself (or that is `inherits`) comes from
/// its parents exactly as merged.
pub proof fn lemma_inherited_field(
    secs: Seq<IniSectionView>,
    lk: Map<(Seq<char>, Seq<char>), int>,
    sec: IniSectionView,
    depth: int,
    k: Seq<char>,
)
    requires
        depth <= MAX_INHERITANCE_DEPTH,
        !sec.fields.contains_key(k) || k == "inherits"@,
    ensures
        ({
            let merged = merge_parents(secs, lk, sec.section_type, parents_of(sec), depth);
            &&& resolve_spec(secs, lk, sec, depth).contains_key(k) == merged.contains_key(k)
            &&& merged.contains_key(k) ==> resolve_spec(secs, lk, sec, depth)[k] == merged[k]
        }),
{
}

/// Among the parents, the last one found whose resolved fields have `k`
/// supplies `k`: later parents override earlier ones.
pub proof fn lemma_last_parent_wins(
    secs: Seq<IniSectionView>,
    lk: Map<(Seq<char>, Seq<char>), int>,
    ty: Seq<char>,
    parents: Seq<Seq<char>>,
    depth: int,
    k: Seq<char>,
    j: int,
)
    requires
        depth <= MAX_INHERITANCE_DEPTH,
        0 <= j < parents.len(),
        finds_parent(secs, lk, ty, parents[j]),
        resolve_spec(secs, lk, secs[lk[(ty, parents[j])]], depth + 1).contains_key(k),
        forall|i: int|
            j < i < parents.len() && finds_parent(secs, lk, ty, #[trigger] parents[i])
                ==> !resolve_spec(secs, lk, secs[lk[(ty, parents[i])]], depth + 1).contains_key(k),
    ensures
        merge_parents(secs, lk, ty, parents, depth).contains_key(k),
        merge_parents(secs, lk, ty, parents, depth)[k] == resolve_spec(
            secs,
            lk,
            secs[lk[(ty, parents[j])]],
            depth + 1,
        )[k],
    decreases parents.len(),
{
    let last = parents.len() - 1;
    if j < last {
        let t = parents.drop_last();
        assert(t[j] == parents[j]);
        assert forall|i: int|
            j < i < t.len() && finds_parent(secs, lk, ty, #[trigger] t[i]) implies !resolve_spec(
            secs,
            lk,
            secs[lk[(ty, t[i])]],
            depth + 1,
        ).contains_key(k) by {
            assert(t[i] == parents[i]);
        }
        lemma_last_parent_wins(secs, lk, ty, t, depth, k, j);
        if finds_parent(secs, lk, ty, parents[last]) {
            assert(!resolve_spec(secs, lk, secs[lk[(ty, parents[last])]], depth + 1).contains_key(
                k,
            ));
        }
    }
}

/// A key that no parent found supplies is not inherited.
pub proof fn lemma_no_parent_supplies(
    secs: Seq<IniSectionView>,
    lk: Map<(Seq<char>, Seq<char>), int>,
    ty: Seq<char>,
    parents: Seq<Seq<char>>,
    depth: int,
    k: Seq<char>,
)
    requires
        forall|i: int|
            0 <= i < parents.len() && finds_parent(secs, lk, ty, #[trigger] parents[i])
                ==> !resolve_spec(secs, lk, secs[lk[(ty, parents[i])]], depth + 1).contains_key(k),
    ensures
        !merge_parents(secs, lk, ty, parents, depth).contains_key(k),
    decreases parents.len(),
{
    if parents.len() > 0 && depth <= MAX_INHERITANCE_DEPTH {
        let t = parents.drop_last();
        assert forall|i: int|
            0 <= i < t.len() && finds_parent(secs, lk, ty, #[trigger] t[i]) implies !resolve_spec(
            secs,
            lk,
            secs[lk[(ty, t[i])]],
            depth + 1,
        ).contains_key(k) by {
            assert(t[i] == parents[i]);
        }
        lemma_no_parent_supplies(secs, lk, ty, t, depth, k);
        let lastp = parents[parents.len() - 1];
        if finds_parent(secs, lk, ty, lastp) {
            assert(!resolve_spec(secs, lk, secs[lk[(ty, lastp)]], depth + 1).contains_key(k));
        }
    }
}

/// Every inheritance path from `sec`, resolved at `depth`, ends within the
/// depth limit: every parent the lookup finds is again such a section one
/// level deeper.
pub open spec fn chains_within_limit(
    secs: Seq<IniSectionView>,
    lk: Map<(Seq<char>, Seq<char>), int>,
    sec: IniSectionView,
    depth: int,
) -> bool
    decreases depth_budget(depth),
{
    depth <= MAX_INHERITANCE_DEPTH && forall|i: int|
        0 <= i < parents_of(sec).len() && finds_parent(secs, lk, sec.section_type, #[trigger] parents_of(sec)[i])
            ==> chains_within_limit(
            secs,
            lk,
            secs[lk[(sec.section_type, parents_of(sec)[i])]],
            depth + 1,
        )
}

/// When no inheritance path is longer than the depth limit, the resolved
/// fields hold no `inherits` key.
pub proof fn lemma_no_inherits_within_limit(
    secs: Seq<IniSectionView>,
    lk: Map<(Seq<char>, Seq<char>), int>,
    sec: IniSectionView,
    depth: int,
)
    requires
        chains_within_limit(secs, lk, sec, depth),
    ensures
        !resolve_spec(secs, lk, sec, depth).contains_key("inherits"@),
    decreases depth_budget(depth), 1int, 0int,
{
    lemma_merge_no_inherits(secs, lk, sec.section_type, parents_of(sec), depth);
}

/// Merging parents that all resolve without an `inherits` key gives none.
proof fn lemma_merge_no_inherits(
    secs: Seq<IniSectionView>,
    lk: Map<(Seq<char>, Seq<char>), int>,
    ty: Seq<char>,
    parents: Seq<Seq<char>>,
    depth: int,
)
    requires
        depth <= MAX_INHERITANCE_DEPTH,
        forall|i: int|
            0 <= i < parents.len() && finds_parent(secs, lk, ty, #[trigger] parents[i])
                ==> chains_within_limit(secs, lk, secs[lk[(ty, parents[i])]], depth + 1),
    ensures
        !merge_parents(secs, lk, ty, parents, depth).contains_key("inherits"@),
    decreases depth_budget(depth), 0int, parents.len(),
{
    if parents.len() > 0 {
        let t = parents.drop_last();
        assert forall|i: int|
            0 <= i < t.len() && finds_parent(secs, lk, ty, #[trigger] t[i]) implies chains_within_limit(
            secs,
            lk,
            secs[lk[(ty, t[i])]],
            depth + 1,
        ) by {
            assert(t[i] == parents[i]);
        }
        lemma_merge_no_inherits(secs, lk, ty, t, depth);
        let last = parents[parents.len() - 1];
        if finds_parent(secs, lk, ty, last) {
            lemma_no_inherits_within_limit(secs, lk, secs[lk[(ty, last)]], depth + 1);
        }
    }
}

/// Past the depth limit a section resolves to its own fields, unchanged.
pub proof fn lemma_depth_cutoff(
    secs: Seq<IniSectionView>,
    lk: Map<(Seq<char>, Seq<char>), int>,
    sec: IniSectionView,
    depth: int,
)
    requires
        depth > MAX_INHERITANCE_DEPTH,
    ensures
        resolve_spec(secs, lk, sec, depth) == sec.fields,
{
}

// ---------------------------------------------------------------------------
// Field mapping
// ---------------------------------------------------------------------------

/// The configuration field a PrusaSlicer INI key maps to, if any.
pub open spec fn prusaslicer_field_of(key: Seq<char>) -> Option<Seq<char>> {
    if key == "layer_height"@ {
        Some("layer_height"@)
    } else if key == "first_layer_height"@ {
        Some("first_layer_height"@)
    } else if key == "perimeters"@ {
        Some("wall_count"@)
    } else if key == "fill_density"@ {
        Some("infill_density"@)
    } else if key == "fill_pattern"@ {
        Some("infill_pattern"@)
    } else if key == "top_solid_layers"@ {
        Some("top_solid_layers"@)
    } else if key == "bottom_solid_layers"@ {
        Some("bottom_solid_layers"@)
    } else if key == "perimeter_speed"@ {
        Some("perimeter_speed"@)
    } else if key == "infill_speed"@ {
        Some("infill_speed"@)
    } else if key == "travel_speed"@ {
        Some("travel_speed"@)
    } else if key == "first_layer_speed"@ {
        Some("first_layer_speed"@)
    } else if key == "skirts"@ {
        Some("skirt_loops"@)
    } else if key == "skirt_distance"@ {
        Some("skirt_distance"@)
    } else if key == "brim_width"@ {
        Some("brim_width"@)
    } else if key == "default_acceleration"@ {
        Some("print_acceleration"@)
    } else if key == "seam_position"@ {
        Some("seam_position"@)
    } else if key == "bridge_speed"@ {
        Some("speeds.bridge"@)
    } else if key == "small_perimeter_speed"@ {
        Some("speeds.small_perimeter"@)
    } else if key == "gap_fill_speed"@ {
        Some("speeds.gap_fill"@)
    } else if key == "top_solid_infill_speed"@ || key == "top_infill_speed"@ {
        Some("speeds.top_surface"@)
    } else if key == "solid_infill_speed"@ {
        Some("speeds.solid_infill"@)
    } else if key == "support_material_speed"@ {
        Some("speeds.support"@)
    } else if key == "support_material_interface_speed"@ {
        Some("speeds.support_interface"@)
    } else if key == "travel_speed_z"@ {
        Some("speeds.travel_z"@)
    } else if key == "first_layer_extrusion_width"@ {
        Some("line_widths.initial_layer"@)
    } else if key == "perimeter_extrusion_width"@ {
        Some("line_widths.outer_wall"@)
    } else if key == "external_perimeter_extrusion_width"@ {
        Some("line_widths.outer_wall"@)
    } else if key == "infill_extrusion_width"@ {
        Some("line_widths.infill"@)
    } else if key == "solid_infill_extrusion_width"@ {
        Some("line_widths.internal_solid_infill"@)
    } else if key == "top_infill_extrusion_width"@ {
        Some("line_widths.top_surface"@)
    } else if key == "support_material_extrusion_width"@ {
        Some("line_widths.support"@)
    } else if key == "max_fan_speed"@ {
        Some("cooling.fan_max_speed"@)
    } else if key == "min_fan_speed"@ {
        Some("cooling.fan_min_speed"@)
    } else if key == "slowdown_below_layer_time"@ {
        Some("cooling.slow_down_layer_time"@)
    } else if key == "min_print_speed"@ {
        Some("cooling.slow_down_min_speed"@)
    } else if key == "bridge_fan_speed"@ {
        Some("cooling.overhang_fan_speed"@)
    } else if key == "full_fan_speed_layer"@ {
        Some("cooling.full_fan_speed_layer"@)
    } else if key == "cooling"@ {
        Some("cooling.slow_down_for_layer_cooling"@)
    } else if key == "deretract_speed"@ {
        Some("retraction.deretraction_speed"@)
    } else if key == "retract_before_wipe"@ {
        Some("retraction.retract_before_wipe"@)
    } else if key == "retract_layer_change"@ {
        Some("retraction.retract_when_changing_layer"@)
    } else if key == "wipe"@ {
        Some("retraction.wipe"@)
    } else if key == "start_gcode"@ {
        Some("machine.start_gcode"@)
    } else if key == "end_gcode"@ {
        Some("machine.end_gcode"@)
    } else if key == "layer_gcode"@ {
        Some("machine.layer_change_gcode"@)
    } else if key == "max_print_height"@ {
        Some("machine.printable_height"@)
    } else if key == "machine_max_acceleration_x"@ {
        Some("machine.max_acceleration_x"@)
    } else if key == "machine_max_acceleration_y"@ {
        Some("machine.max_acceleration_y"@)
    } else if key == "machine_max_acceleration_z"@ {
        Some("machine.max_acceleration_z"@)
    } else if key == "machine_max_acceleration_e"@ {
        Some("machine.max_acceleration_e"@)
    } else if key == "machine_max_acceleration_extruding"@ {
        Some("machine.max_acceleration_extruding"@)
    } else if key == "machine_max_acceleration_retracting"@ {
        Some("machine.max_acceleration_retracting"@)
    } else if key == "machine_max_acceleration_travel"@ {
        Some("machine.max_acceleration_travel"@)
    } else if key == "machine_max_speed_x"@ || key == "machine_max_feedrate_x"@ {
        Some("machine.max_speed_x"@)
    } else if key == "machine_max_speed_y"@ || key == "machine_max_feedrate_y"@ {
        Some("machine.max_speed_y"@)
    } else if key == "machine_max_speed_z"@ || key == "machine_max_feedrate_z"@ {
        Some("machine.max_speed_z"@)
    } else if key == "machine_max_speed_e"@ || key == "machine_max_feedrate_e"@ {
        Some("machine.max_speed_e"@)
    } else if key == "nozzle_type"@ {
        Some("machine.nozzle_type"@)
    } else if key == "printer_model"@ {
        Some("machine.printer_model"@)
    } else if key == "bed_shape"@ {
        Some("machine.bed_shape"@)
    } else if key == "min_layer_height"@ {
        Some("machine.min_layer_height"@)
    } else if key == "max_layer_height"@ {
        Some("machine.max_layer_height"@)
    } else if key == "external_perimeter_acceleration"@ {
        Some("accel.outer_wall"@)
    } else if key == "perimeter_acceleration"@ {
        Some("accel.inner_wall"@)
    } else if key == "first_layer_acceleration"@ || key == "first_layer_acceleration_over_raft"@ {
        Some("accel.initial_layer"@)
    } else if key == "top_solid_infill_acceleration"@ {
        Some("accel.top_surface"@)
    } else if key == "infill_acceleration"@ {
        Some("accel.sparse_infill"@)
    } else if key == "bridge_acceleration"@ {
        Some("accel.bridge"@)
    } else if key == "temperature"@ {
        Some("nozzle_temp"@)
    } else if key == "first_layer_temperature"@ {
        Some("first_layer_nozzle_temp"@)
    } else if key == "bed_temperature"@ {
        Some("bed_temp"@)
    } else if key == "first_layer_bed_temperature"@ {
        Some("first_layer_bed_temp"@)
    } else if key == "filament_density"@ {
        Some("filament_density"@)
    } else if key == "filament_diameter"@ {
        Some("filament_diameter"@)
    } else if key == "filament_cost"@ {
        Some("filament_cost_per_kg"@)
    } else if key == "extrusion_multiplier"@ {
        Some("extrusion_multiplier"@)
    } else if key == "disable_fan_first_layers"@ {
        Some("disable_fan_first_layers"@)
    } else if key == "fan_below_layer_time"@ {
        Some("fan_below_layer_time"@)
    } else if key == "filament_type"@ {
        Some("filament.filament_type"@)
    } else if key == "filament_vendor"@ {
        Some("filament.filament_vendor"@)
    } else if key == "filament_max_volumetric_speed"@ {
        Some("filament.max_volumetric_speed"@)
    } else if key == "temperature_range_low"@ || key == "min_temperature"@ {
        Some("filament.nozzle_temperature_range_low"@)
    } else if key == "temperature_range_high"@ || key == "max_temperature"@ {
        Some("filament.nozzle_temperature_range_high"@)
    } else if key == "filament_retract_length"@ {
        Some("filament.filament_retraction_length"@)
    } else if key == "filament_retract_speed"@ {
        Some("filament.filament_retraction_speed"@)
    } else if key == "start_filament_gcode"@ {
        Some("filament.filament_start_gcode"@)
    } else if key == "end_filament_gcode"@ {
        Some("filament.filament_end_gcode"@)
    } else if key == "nozzle_diameter"@ {
        Some("nozzle_diameter"@)
    } else if key == "retract_length"@ {
        Some("retract_length"@)
    } else if key == "retract_speed"@ {
        Some("retract_speed"@)
    } else if key == "retract_lift"@ {
        Some("retract_z_hop"@)
    } else if key == "retract_before_travel"@ {
        Some("min_travel_for_retract"@)
    } else if key == "gcode_flavor"@ {
        Some("gcode_dialect"@)
    } else if key == "machine_max_jerk_x"@ {
        Some("jerk_x"@)
    } else if key == "machine_max_jerk_y"@ {
        Some("jerk_y"@)
    } else if key == "machine_max_jerk_z"@ {
        Some("jerk_z"@)
    } else if key == "bridge_flow_ratio"@ {
        Some("bridge_flow"@)
    } else if key == "elefant_foot_compensation"@ || key == "elephant_foot_compensation"@ {
        Some("elefant_foot_compensation"@)
    } else if key == "fill_angle"@ {
        Some("infill_direction"@)
    } else if key == "infill_overlap"@ {
        Some("infill_wall_overlap"@)
    } else if key == "spiral_vase"@ {
        Some("spiral_mode"@)
    } else if key == "only_one_perimeter_top"@ {
        Some("only_one_wall_top"@)
    } else if key == "resolution"@ {
        Some("resolution"@)
    } else if key == "raft_layers"@ {
        Some("raft_layers"@)
    } else if key == "thin_walls"@ || key == "detect_thin_wall"@ {
        Some("detect_thin_wall"@)
    } else {
        None
    }
}

/// Map a PrusaSlicer INI key name to the corresponding configuration field name.
///
/// Returns `Some("field_name")` for known keys and `None` for unmapped ones.
pub fn prusaslicer_key_to_config_field(key: &str) -> (r: Option<&'static str>)
    ensures
        match r {
            Some(f) => prusaslicer_field_of(key@) == Some(f@),
            None => prusaslicer_field_of(key@) is None,
        },
{
    if str_eq(key, "layer_height") {
        return Some("layer_height");
    }
    if str_eq(key, "first_layer_height") {
        return Some("first_layer_height");
    }
    if str_eq(key, "perimeters") {
        return Some("wall_count");
    }
    if str_eq(key, "fill_density") {
        return Some("infill_density");
    }
    if str_eq(key, "fill_pattern") {
        return Some("infill_pattern");
    }
    if str_eq(key, "top_solid_layers") {
        return Some("top_solid_layers");
    }
    if str_eq(key, "bottom_solid_layers") {
        return Some("bottom_solid_layers");
    }
    if str_eq(key, "perimeter_speed") {
        return Some("perimeter_speed");
    }
    if str_eq(key, "infill_speed") {
        return Some("infill_speed");
    }
    if str_eq(key, "travel_speed") {
        return Some("travel_speed");
    }
    if str_eq(key, "first_layer_speed") {
        return Some("first_layer_speed");
    }
    if str_eq(key, "skirts") {
        return Some("skirt_loops");
    }
    if str_eq(key, "skirt_distance") {
        return Some("skirt_distance");
    }
    if str_eq(key, "brim_width") {
        return Some("brim_width");
    }
    if str_eq(key, "default_acceleration") {
        return Some("print_acceleration");
    }
    if str_eq(key, "seam_position") {
        return Some("seam_position");
    }
    if str_eq(key, "bridge_speed") {
        return Some("speeds.bridge");
    }
    if str_eq(key, "small_perimeter_speed") {
        return Some("speeds.small_perimeter");
    }
    if str_eq(key, "gap_fill_speed") {
        return Some("speeds.gap_fill");
    }
    if str_eq(key, "top_solid_infill_speed") || str_eq(key, "top_infill_speed") {
        return Some("speeds.top_surface");
    }
    if str_eq(key, "solid_infill_speed") {
        return Some("speeds.solid_infill");
    }
    if str_eq(key, "support_material_speed") {
        return Some("speeds.support");
    }
    if str_eq(key, "support_material_interface_speed") {
        return Some("speeds.support_interface");
    }
    if str_eq(key, "travel_speed_z") {
        return Some("speeds.travel_z");
    }
    if str_eq(key, "first_layer_extrusion_width") {
        return Some("line_widths.initial_layer");
    }
    if str_eq(key, "perimeter_extrusion_width") {
        return Some("line_widths.outer_wall");
    }
    if str_eq(key, "external_perimeter_extrusion_width") {
        return Some("line_widths.outer_wall");
    }
    if str_eq(key, "infill_extrusion_width") {
        return Some("line_widths.infill");
    }
    if str_eq(key, "solid_infill_extrusion_width") {
        return Some("line_widths.internal_solid_infill");
    }
    if str_eq(key, "top_infill_extrusion_width") {
        return Some("line_widths.top_surface");
    }
    if str_eq(key, "support_material_extrusion_width") {
        return Some("line_widths.support");
    }
    if str_eq(key, "max_fan_speed") {
        return Some("cooling.fan_max_speed");
    }
    if str_eq(key, "min_fan_speed") {
        return Some("cooling.fan_min_speed");
    }
    if str_eq(key, "slowdown_below_layer_time") {
        return Some("cooling.slow_down_layer_time");
    }
    if str_eq(key, "min_print_speed") {
        return Some("cooling.slow_down_min_speed");
    }
    if str_eq(key, "bridge_fan_speed") {
        return Some("cooling.overhang_fan_speed");
    }
    if str_eq(key, "full_fan_speed_layer") {
        return Some("cooling.full_fan_speed_layer");
    }
    if str_eq(key, "cooling") {
        return Some("cooling.slow_down_for_layer_cooling");
    }
    if str_eq(key, "deretract_speed") {
        return Some("retraction.deretraction_speed");
    }
    if str_eq(key, "retract_before_wipe") {
        return Some("retraction.retract_before_wipe");
    }
    if str_eq(key, "retract_layer_change") {
        return Some("retraction.retract_when_changing_layer");
    }
    if str_eq(key, "wipe") {
        return Some("retraction.wipe");
    }
    if str_eq(key, "start_gcode") {
        return Some("machine.start_gcode");
    }
    if str_eq(key, "end_gcode") {
        return Some("machine.end_gcode");
    }
    if str_eq(key, "layer_gcode") {
        return Some("machine.layer_change_gcode");
    }
    if str_eq(key, "max_print_height") {
        return Some("machine.printable_height");
    }
    if str_eq(key, "machine_max_acceleration_x") {
        return Some("machine.max_acceleration_x");
    }
    if str_eq(key, "machine_max_acceleration_y") {
        return Some("machine.max_acceleration_y");
    }
    if str_eq(key, "machine_max_acceleration_z") {
        return Some("machine.max_acceleration_z");
    }
    if str_eq(key, "machine_max_acceleration_e") {
        return Some("machine.max_acceleration_e");
    }
    if str_eq(key, "machine_max_acceleration_extruding") {
        return Some("machine.max_acceleration_extruding");
    }
    if str_eq(key, "machine_max_acceleration_retracting") {
        return Some("machine.max_acceleration_retracting");
    }
    if str_eq(key, "machine_max_acceleration_travel") {
        return Some("machine.max_acceleration_travel");
    }
    if str_eq(key, "machine_max_speed_x") || str_eq(key, "machine_max_feedrate_x") {
        return Some("machine.max_speed_x");
    }
    if str_eq(key, "machine_max_speed_y") || str_eq(key, "machine_max_feedrate_y") {
        return Some("machine.max_speed_y");
    }
    if str_eq(key, "machine_max_speed_z") || str_eq(key, "machine_max_feedrate_z") {
        return Some("machine.max_speed_z");
    }
    if str_eq(key, "machine_max_speed_e") || str_eq(key, "machine_max_feedrate_e") {
        return Some("machine.max_speed_e");
    }
    if str_eq(key, "nozzle_type") {
        return Some("machine.nozzle_type");
    }
    if str_eq(key, "printer_model") {
        return Some("machine.printer_model");
    }
    if str_eq(key, "bed_shape") {
        return Some("machine.bed_shape");
    }
    if str_eq(key, "min_layer_height") {
        return Some("machine.min_layer_height");
    }
    if str_eq(key, "max_layer_height") {
        return Some("machine.max_layer_height");
    }
    if str_eq(key, "external_perimeter_acceleration") {
        return Some("accel.outer_wall");
    }
    if str_eq(key, "perimeter_acceleration") {
        return Some("accel.inner_wall");
    }
    if str_eq(key, "first_layer_acceleration") || str_eq(key, "first_layer_acceleration_over_raft") {
        return Some("accel.initial_layer");
    }
    if str_eq(key, "top_solid_infill_acceleration") {
        return Some("accel.top_surface");
    }
    if str_eq(key, "infill_acceleration") {
        return Some("accel.sparse_infill");
    }
    if str_eq(key, "bridge_acceleration") {
        return Some("accel.bridge");
    }
    if str_eq(key, "temperature") {
        return Some("nozzle_temp");
    }
    if str_eq(key, "first_layer_temperature") {
        return Some("first_layer_nozzle_temp");
    }
    if str_eq(key, "bed_temperature") {
        return Some("bed_temp");
    }
    if str_eq(key, "first_layer_bed_temperature") {
        return Some("first_layer_bed_temp");
    }
    if str_eq(key, "filament_density") {
        return Some("filament_density");
    }
    if str_eq(key, "filament_diameter") {
        return Some("filament_diameter");
    }
    if str_eq(key, "filament_cost") {
        return Some("filament_cost_per_kg");
    }
    if str_eq(key, "extrusion_multiplier") {
        return Some("extrusion_multiplier");
    }
    if str_eq(key, "disable_fan_first_layers") {
        return Some("disable_fan_first_layers");
    }
    if str_eq(key, "fan_below_layer_time") {
        return Some("fan_below_layer_time");
    }
    if str_eq(key, "filament_type") {
        return Some("filament.filament_type");
    }
    if str_eq(key, "filament_vendor") {
        return Some("filament.filament_vendor");
    }
    if str_eq(key, "filament_max_volumetric_speed") {
        return Some("filament.max_volumetric_speed");
    }
    if str_eq(key, "temperature_range_low") || str_eq(key, "min_temperature") {
        return Some("filament.nozzle_temperature_range_low");
    }
    if str_eq(key, "temperature_range_high") || str_eq(key, "max_temperature") {
        return Some("filament.nozzle_temperature_range_high");
    }
    if str_eq(key, "filament_retract_length") {
        return Some("filament.filament_retraction_length");
    }
    if str_eq(key, "filament_retract_speed") {
        return Some("filament.filament_retraction_speed");
    }
    if str_eq(key, "start_filament_gcode") {
        return Some("filament.filament_start_gcode");
    }
    if str_eq(key, "end_filament_gcode") {
        return Some("filament.filament_end_gcode");
    }
    if str_eq(key, "nozzle_diameter") {
        return Some("nozzle_diameter");
    }
    if str_eq(key, "retract_length") {
        return Some("retract_length");
    }
    if str_eq(key, "retract_speed") {
        return Some("retract_speed");
    }
    if str_eq(key, "retract_lift") {
        return Some("retract_z_hop");
    }
    if str_eq(key, "retract_before_travel") {
        return Some("min_travel_for_retract");
    }
    if str_eq(key, "gcode_flavor") {
        return Some("gcode_dialect");
    }
    if str_eq(key, "machine_max_jerk_x") {
        return Some("jerk_x");
    }
    if str_eq(key, "machine_max_jerk_y") {
        return Some("jerk_y");
    }
    if str_eq(key, "machine_max_jerk_z") {
        return Some("jerk_z");
    }
    if str_eq(key, "bridge_flow_ratio") {
        return Some("bridge_flow");
    }
    if str_eq(key, "elefant_foot_compensation") || str_eq(key, "elephant_foot_compensation") {
        return Some("elefant_foot_compensation");
    }
    if str_eq(key, "fill_angle") {
        return Some("infill_direction");
    }
    if str_eq(key, "infill_overlap") {
        return Some("infill_wall_overlap");
    }
    if str_eq(key, "spiral_vase") {
        return Some("spiral_mode");
    }
    if str_eq(key, "only_one_perimeter_top") {
        return Some("only_one_wall_top");
    }
    if str_eq(key, "resolution") {
        return Some("resolution");
    }
    if str_eq(key, "raft_layers") {
        return Some("raft_layers");
    }
    if str_eq(key, "thin_walls") || str_eq(key, "detect_thin_wall") {
        return Some("detect_thin_wall");
    }
    None
}

/// The infill pattern a lowercase PrusaSlicer name denotes, if any.
pub open spec fn prusaslicer_infill_pattern(name: Seq<char>) -> Option<InfillPattern> {
    if name == "grid"@ {
        Some(InfillPattern::Grid)
    } else if name == "honeycomb"@ {
        Some(InfillPattern::Honeycomb)
    } else if name == "gyroid"@ {
        Some(InfillPattern::Gyroid)
    } else if name == "cubic"@ {
        Some(InfillPattern::Cubic)
    } else if name == "adaptivecubic"@ {
        Some(InfillPattern::AdaptiveCubic)
    } else if name == "lightning"@ {
        Some(InfillPattern::Lightning)
    } else if name == "monotonic"@ {
        Some(InfillPattern::Monotonic)
    } else if name == "rectilinear"@ || name == "line"@ {
        Some(InfillPattern::Rectilinear)
    } else {
        None
    }
}

/// The infill pattern a lowercase PrusaSlicer name denotes, if any.
pub fn prusaslicer_infill_pattern_of_lowercase(name: &str) -> (r: Option<InfillPattern>)
    ensures
        r == prusaslicer_infill_pattern(name@),
{
    if str_eq(name, "grid") {
        return Some(InfillPattern::Grid);
    }
    if str_eq(name, "honeycomb") {
        return Some(InfillPattern::Honeycomb);
    }
    if str_eq(name, "gyroid") {
        return Some(InfillPattern::Gyroid);
    }
    if str_eq(name, "cubic") {
        return Some(InfillPattern::Cubic);
    }
    if str_eq(name, "adaptivecubic") {
        return Some(InfillPattern::AdaptiveCubic);
    }
    if str_eq(name, "lightning") {
        return Some(InfillPattern::Lightning);
    }
    if str_eq(name, "monotonic") {
        return Some(InfillPattern::Monotonic);
    }
    if str_eq(name, "rectilinear") || str_eq(name, "line") {
        return Some(InfillPattern::Rectilinear);
    }
    None
}

/// Map a PrusaSlicer infill pattern name (any letter case) to its setting value.
pub fn map_infill_pattern_prusaslicer(value: &str) -> (r: Option<InfillPattern>)
    ensures
        r == prusaslicer_infill_pattern(lowercase_of(value@)),
{
    let lower = to_lowercase(value);
    prusaslicer_infill_pattern_of_lowercase(lower.as_str())
}

/// The seam position a lowercase PrusaSlicer name denotes, if any.
pub open spec fn prusaslicer_seam_position(name: Seq<char>) -> Option<SeamPosition> {
    if name == "aligned"@ {
        Some(SeamPosition::Aligned)
    } else if name == "random"@ {
        Some(SeamPosition::Random)
    } else if name == "rear"@ {
        Some(SeamPosition::Rear)
    } else if name == "nearest"@ {
        Some(SeamPosition::NearestCorner)
    } else {
        None
    }
}

/// The seam position a lowercase PrusaSlicer name denotes, if any.
pub fn prusaslicer_seam_position_of_lowercase(name: &str) -> (r: Option<SeamPosition>)
    ensures
        r == prusaslicer_seam_position(name@),
{
    if str_eq(name, "aligned") {
        return Some(SeamPosition::Aligned);
    }
    if str_eq(name, "random") {
        return Some(SeamPosition::Random);
    }
    if str_eq(name, "rear") {
        return Some(SeamPosition::Rear);
    }
    if str_eq(name, "nearest") {
        return Some(SeamPosition::NearestCorner);
    }
    None
}

/// Map a PrusaSlicer seam position name (any letter case) to its setting value.
pub fn map_seam_position_prusaslicer(value: &str) -> (r: Option<SeamPosition>)
    ensures
        r == prusaslicer_seam_position(lowercase_of(value@)),
{
    let lower = to_lowercase(value);
    prusaslicer_seam_position_of_lowercase(lower.as_str())
}

/// The G-code flavor a lowercase PrusaSlicer name denotes, if any.
pub open spec fn prusaslicer_gcode_dialect(name: Seq<char>) -> Option<GcodeDialect> {
    if name == "marlin"@ || name == "marlin2"@ {
        Some(GcodeDialect::Marlin)
    } else if name == "klipper"@ {
        Some(GcodeDialect::Klipper)
    } else if name == "reprapfirmware"@ || name == "reprap"@ {
        Some(GcodeDialect::RepRapFirmware)
    } else {
        None
    }
}

/// The G-code flavor a lowercase PrusaSlicer name denotes, if any.
pub fn prusaslicer_gcode_dialect_of_lowercase(name: &str) -> (r: Option<GcodeDialect>)
    ensures
        r == prusaslicer_gcode_dialect(name@),
{
    if str_eq(name, "marlin") || str_eq(name, "marlin2") {
        return Some(GcodeDialect::Marlin);
    }
    if str_eq(name, "klipper") {
        return Some(GcodeDialect::Klipper);
    }
    if str_eq(name, "reprapfirmware") || str_eq(name, "reprap") {
        return Some(GcodeDialect::RepRapFirmware);
    }
    None
}

/// Map a PrusaSlicer G-code flavor name (any letter case) to its setting value.
pub fn map_gcode_dialect_prusaslicer(value: &str) -> (r: Option<GcodeDialect>)
    ensures
        r == prusaslicer_gcode_dialect(lowercase_of(value@)),
{
    let lower = to_lowercase(value);
    prusaslicer_gcode_dialect_of_lowercase(lower.as_str())
}


/// Two PrusaSlicer keys are synonyms: different spellings of one setting.
pub open spec fn prusaslicer_synonyms(a: Seq<char>, b: Seq<char>) -> bool {
    ((a == "top_solid_infill_speed"@ || a == "top_infill_speed"@) && (b == "top_solid_infill_speed"@ || b == "top_infill_speed"@))
        || ((a == "perimeter_extrusion_width"@ || a == "external_perimeter_extrusion_width"@) && (b == "perimeter_extrusion_width"@ || b == "external_perimeter_extrusion_width"@))
        || ((a == "machine_max_speed_x"@ || a == "machine_max_feedrate_x"@) && (b == "machine_max_speed_x"@ || b == "machine_max_feedrate_x"@))
        || ((a == "machine_max_speed_y"@ || a == "machine_max_feedrate_y"@) && (b == "machine_max_speed_y"@ || b == "machine_max_feedrate_y"@))
        || ((a == "machine_max_speed_z"@ || a == "machine_max_feedrate_z"@) && (b == "machine_max_speed_z"@ || b == "machine_max_feedrate_z"@))
        || ((a == "machine_max_speed_e"@ || a == "machine_max_feedrate_e"@) && (b == "machine_max_speed_e"@ || b == "machine_max_feedrate_e"@))
        || ((a == "first_layer_acceleration"@ || a == "first_layer_acceleration_over_raft"@) && (b == "first_layer_acceleration"@ || b == "first_layer_acceleration_over_raft"@))
        || ((a == "temperature_range_low"@ || a == "min_temperature"@) && (b == "temperature_range_low"@ || b == "min_temperature"@))
        || ((a == "temperature_range_high"@ || a == "max_temperature"@) && (b == "temperature_range_high"@ || b == "max_temperature"@))
        || ((a == "elefant_foot_compensation"@ || a == "elephant_foot_compensation"@) && (b == "elefant_foot_compensation"@ || b == "elephant_foot_compensation"@))
        || ((a == "thin_walls"@ || a == "detect_thin_wall"@) && (b == "thin_walls"@ || b == "detect_thin_wall"@))
}

/// The PrusaSlicer keys that feed each configuration field.
spec fn prusaslicer_source(f: Seq<char>, key: Seq<char>) -> bool {
    (f == "layer_height"@ && (key == "layer_height"@))
        || (f == "first_layer_height"@ && (key == "first_layer_height"@))
        || (f == "wall_count"@ && (key == "perimeters"@))
        || (f == "infill_density"@ && (key == "fill_density"@))
        || (f == "infill_pattern"@ && (key == "fill_pattern"@))
        || (f == "top_solid_layers"@ && (key == "top_solid_layers"@))
        || (f == "bottom_solid_layers"@ && (key == "bottom_solid_layers"@))
        || (f == "perimeter_speed"@ && (key == "perimeter_speed"@))
        || (f == "infill_speed"@ && (key == "infill_speed"@))
        || (f == "travel_speed"@ && (key == "travel_speed"@))
        || (f == "first_layer_speed"@ && (key == "first_layer_speed"@))
        || (f == "skirt_loops"@ && (key == "skirts"@))
        || (f == "skirt_distance"@ && (key == "skirt_distance"@))
        || (f == "brim_width"@ && (key == "brim_width"@))
        || (f == "print_acceleration"@ && (key == "default_acceleration"@))
        || (f == "seam_position"@ && (key == "seam_position"@))
        || (f == "speeds.bridge"@ && (key == "bridge_speed"@))
        || (f == "speeds.small_perimeter"@ && (key == "small_perimeter_speed"@))
        || (f == "speeds.gap_fill"@ && (key == "gap_fill_speed"@))
        || (f == "speeds.top_surface"@ && (key == "top_solid_infill_speed"@ || key == "top_infill_speed"@))
        || (f == "speeds.solid_infill"@ && (key == "solid_infill_speed"@))
        || (f == "speeds.support"@ && (key == "support_material_speed"@))
        || (f == "speeds.support_interface"@ && (key == "support_material_interface_speed"@))
        || (f == "speeds.travel_z"@ && (key == "travel_speed_z"@))
        || (f == "line_widths.initial_layer"@ && (key == "first_layer_extrusion_width"@))
        || (f == "line_widths.outer_wall"@ && (key == "perimeter_extrusion_width"@ || key == "external_perimeter_extrusion_width"@))
        || (f == "line_widths.infill"@ && (key == "infill_extrusion_width"@))
        || (f == "line_widths.internal_solid_infill"@ && (key == "solid_infill_extrusion_width"@))
        || (f == "line_widths.top_surface"@ && (key == "top_infill_extrusion_width"@))
        || (f == "line_widths.support"@ && (key == "support_material_extrusion_width"@))
        || (f == "cooling.fan_max_speed"@ && (key == "max_fan_speed"@))
        || (f == "cooling.fan_min_speed"@ && (key == "min_fan_speed"@))
        || (f == "cooling.slow_down_layer_time"@ && (key == "slowdown_below_layer_time"@))
        || (f == "cooling.slow_down_min_speed"@ && (key == "min_print_speed"@))
        || (f == "cooling.overhang_fan_speed"@ && (key == "bridge_fan_speed"@))
        || (f == "cooling.full_fan_speed_layer"@ && (key == "full_fan_speed_layer"@))
        || (f == "cooling.slow_down_for_layer_cooling"@ && (key == "cooling"@))
        || (f == "retraction.deretraction_speed"@ && (key == "deretract_speed"@))
        || (f == "retraction.retract_before_wipe"@ && (key == "retract_before_wipe"@))
        || (f == "retraction.retract_when_changing_layer"@ && (key == "retract_layer_change"@))
        || (f == "retraction.wipe"@ && (key == "wipe"@))
        || (f == "machine.start_gcode"@ && (key == "start_gcode"@))
        || (f == "machine.end_gcode"@ && (key == "end_gcode"@))
        || (f == "machine.layer_change_gcode"@ && (key == "layer_gcode"@))
        || (f == "machine.printable_height"@ && (key == "max_print_height"@))
        || (f == "machine.max_acceleration_x"@ && (key == "machine_max_acceleration_x"@))
        || (f == "machine.max_acceleration_y"@ && (key == "machine_max_acceleration_y"@))
        || (f == "machine.max_acceleration_z"@ && (key == "machine_max_acceleration_z"@))
        || (f == "machine.max_acceleration_e"@ && (key == "machine_max_acceleration_e"@))
        || (f == "machine.max_acceleration_extruding"@ && (key == "machine_max_acceleration_extruding"@))
        || (f == "machine.max_acceleration_retracting"@ && (key == "machine_max_acceleration_retracting"@))
        || (f == "machine.max_acceleration_travel"@ && (key == "machine_max_acceleration_travel"@))
        || (f == "machine.max_speed_x"@ && (key == "machine_max_speed_x"@ || key == "machine_max_feedrate_x"@))
        || (f == "machine.max_speed_y"@ && (key == "machine_max_speed_y"@ || key == "machine_max_feedrate_y"@))
        || (f == "machine.max_speed_z"@ && (key == "machine_max_speed_z"@ || key == "machine_max_feedrate_z"@))
        || (f == "machine.max_speed_e"@ && (key == "machine_max_speed_e"@ || key == "machine_max_feedrate_e"@))
        || (f == "machine.nozzle_type"@ && (key == "nozzle_type"@))
        || (f == "machine.printer_model"@ && (key == "printer_model"@))
        || (f == "machine.bed_shape"@ && (key == "bed_shape"@))
        || (f == "machine.min_layer_height"@ && (key == "min_layer_height"@))
        || (f == "machine.max_layer_height"@ && (key == "max_layer_height"@))
        || (f == "accel.outer_wall"@ && (key == "external_perimeter_acceleration"@))
        || (f == "accel.inner_wall"@ && (key == "perimeter_acceleration"@))
        || (f == "accel.initial_layer"@ && (key == "first_layer_acceleration"@ || key == "first_layer_acceleration_over_raft"@))
        || (f == "accel.top_surface"@ && (key == "top_solid_infill_acceleration"@))
        || (f == "accel.sparse_infill"@ && (key == "infill_acceleration"@))
        || (f == "accel.bridge"@ && (key == "bridge_acceleration"@))
        || (f == "nozzle_temp"@ && (key == "temperature"@))
        || (f == "first_layer_nozzle_temp"@ && (key == "first_layer_temperature"@))
        || (f == "bed_temp"@ && (key == "bed_temperature"@))
        || (f == "first_layer_bed_temp"@ && (key == "first_layer_bed_temperature"@))
        || (f == "filament_density"@ && (key == "filament_density"@))
        || (f == "filament_diameter"@ && (key == "filament_diameter"@))
        || (f == "filament_cost_per_kg"@ && (key == "filament_cost"@))
        || (f == "extrusion_multiplier"@ && (key == "extrusion_multiplier"@))
        || (f == "disable_fan_first_layers"@ && (key == "disable_fan_first_layers"@))
        || (f == "fan_below_layer_time"@ && (key == "fan_below_layer_time"@))
        || (f == "filament.filament_type"@ && (key == "filament_type"@))
        || (f == "filament.filament_vendor"@ && (key == "filament_vendor"@))
        || (f == "filament.max_volumetric_speed"@ && (key == "filament_max_volumetric_speed"@))
        || (f == "filament.nozzle_temperature_range_low"@ && (key == "temperature_range_low"@ || key == "min_temperature"@))
        || (f == "filament.nozzle_temperature_range_high"@ && (key == "temperature_range_high"@ || key == "max_temperature"@))
        || (f == "filament.filament_retraction_length"@ && (key == "filament_retract_length"@))
        || (f == "filament.filament_retraction_speed"@ && (key == "filament_retract_speed"@))
        || (f == "filament.filament_start_gcode"@ && (key == "start_filament_gcode"@))
        || (f == "filament.filament_end_gcode"@ && (key == "end_filament_gcode"@))
        || (f == "nozzle_diameter"@ && (key == "nozzle_diameter"@))
        || (f == "retract_length"@ && (key == "retract_length"@))
        || (f == "retract_speed"@ && (key == "retract_speed"@))
        || (f == "retract_z_hop"@ && (key == "retract_lift"@))
        || (f == "min_travel_for_retract"@ && (key == "retract_before_travel"@))
        || (f == "gcode_dialect"@ && (key == "gcode_flavor"@))
        || (f == "jerk_x"@ && (key == "machine_max_jerk_x"@))
        || (f == "jerk_y"@ && (key == "machine_max_jerk_y"@))
        || (f == "jerk_z"@ && (key == "machine_max_jerk_z"@))
        || (f == "bridge_flow"@ && (key == "bridge_flow_ratio"@))
        || (f == "elefant_foot_compensation"@ && (key == "elefant_foot_compensation"@ || key == "elephant_foot_compensation"@))
        || (f == "infill_direction"@ && (key == "fill_angle"@))
        || (f == "infill_wall_overlap"@ && (key == "infill_overlap"@))
        || (f == "spiral_mode"@ && (key == "spiral_vase"@))
        || (f == "only_one_wall_top"@ && (key == "only_one_perimeter_top"@))
        || (f == "resolution"@ && (key == "resolution"@))
        || (f == "raft_layers"@ && (key == "raft_layers"@))
        || (f == "detect_thin_wall"@ && (key == "thin_walls"@ || key == "detect_thin_wall"@))
}

/// Every mapped key is a source of its field.
proof fn lemma_prusaslicer_source(key: Seq<char>)
    ensures
        prusaslicer_field_of(key) matches Some(f) ==> prusaslicer_source(f, key),
{
}

/// Keys that feed one field are synonyms.
#[verifier::rlimit(100)]
proof fn lemma_prusaslicer_source_unique(f: Seq<char>, a: Seq<char>, b: Seq<char>)
    requires
        prusaslicer_source(f, a),
        prusaslicer_source(f, b),
    ensures
        a == b || prusaslicer_synonyms(a, b),
{
    reveal_strlit("layer_height");
    reveal_strlit("first_layer_height");
    reveal_strlit("wall_count");
    reveal_strlit("infill_density");
    reveal_strlit("infill_pattern");
    reveal_strlit("top_solid_layers");
    reveal_strlit("bottom_solid_layers");
    reveal_strlit("perimeter_speed");
    reveal_strlit("infill_speed");
    reveal_strlit("travel_speed");
    reveal_strlit("first_layer_speed");
    reveal_strlit("skirt_loops");
    reveal_strlit("skirt_distance");
    reveal_strlit("brim_width");
    reveal_strlit("print_acceleration");
    reveal_strlit("seam_position");
    reveal_strlit("speeds.bridge");
    reveal_strlit("speeds.small_perimeter");
    reveal_strlit("speeds.gap_fill");
    reveal_strlit("speeds.top_surface");
    reveal_strlit("speeds.solid_infill");
    reveal_strlit("speeds.support");
    reveal_strlit("speeds.support_interface");
    reveal_strlit("speeds.travel_z");
    reveal_strlit("line_widths.initial_layer");
    reveal_strlit("line_widths.outer_wall");
    reveal_strlit("line_widths.infill");
    reveal_strlit("line_widths.internal_solid_infill");
    reveal_strlit("line_widths.top_surface");
    reveal_strlit("line_widths.support");
    reveal_strlit("cooling.fan_max_speed");
    reveal_strlit("cooling.fan_min_speed");
    reveal_strlit("cooling.slow_down_layer_time");
    reveal_strlit("cooling.slow_down_min_speed");
    reveal_strlit("cooling.overhang_fan_speed");
    reveal_strlit("cooling.full_fan_speed_layer");
    reveal_strlit("cooling.slow_down_for_layer_cooling");
    reveal_strlit("retraction.deretraction_speed");
    reveal_strlit("retraction.retract_before_wipe");
    reveal_strlit("retraction.retract_when_changing_layer");
    reveal_strlit("retraction.wipe");
    reveal_strlit("machine.start_gcode");
    reveal_strlit("machine.end_gcode");
    reveal_strlit("machine.layer_change_gcode");
    reveal_strlit("machine.printable_height");
    reveal_strlit("machine.max_acceleration_x");
    reveal_strlit("machine.max_acceleration_y");
    reveal_strlit("machine.max_acceleration_z");
    reveal_strlit("machine.max_acceleration_e");
    reveal_strlit("machine.max_acceleration_extruding");
    reveal_strlit("machine.max_acceleration_retracting");
    reveal_strlit("machine.max_acceleration_travel");
    reveal_strlit("machine.max_speed_x");
    reveal_strlit("machine.max_speed_y");
    reveal_strlit("machine.max_speed_z");
    reveal_strlit("machine.max_speed_e");
    reveal_strlit("machine.nozzle_type");
    reveal_strlit("machine.printer_model");
    reveal_strlit("machine.bed_shape");
    reveal_strlit("machine.min_layer_height");
    reveal_strlit("machine.max_layer_height");
    reveal_strlit("accel.outer_wall");
    reveal_strlit("accel.inner_wall");
    reveal_strlit("accel.initial_layer");
    reveal_strlit("accel.top_surface");
    reveal_strlit("accel.sparse_infill");
    reveal_strlit("accel.bridge");
    reveal_strlit("nozzle_temp");
    reveal_strlit("first_layer_nozzle_temp");
    reveal_strlit("bed_temp");
    reveal_strlit("first_layer_bed_temp");
    reveal_strlit("filament_density");
    reveal_strlit("filament_diameter");
    reveal_strlit("filament_cost_per_kg");
    reveal_strlit("extrusion_multiplier");
    reveal_strlit("disable_fan_first_layers");
    reveal_strlit("fan_below_layer_time");
    reveal_strlit("filament.filament_type");
    reveal_strlit("filament.filament_vendor");
    reveal_strlit("filament.max_volumetric_speed");
    reveal_strlit("filament.nozzle_temperature_range_low");
    reveal_strlit("filament.nozzle_temperature_range_high");
    reveal_strlit("filament.filament_retraction_length");
    reveal_strlit("filament.filament_retraction_speed");
    reveal_strlit("filament.filament_start_gcode");
    reveal_strlit("filament.filament_end_gcode");
    reveal_strlit("nozzle_diameter");
    reveal_strlit("retract_length");
    reveal_strlit("retract_speed");
    reveal_strlit("retract_z_hop");
    reveal_strlit("min_travel_for_retract");
    reveal_strlit("gcode_dialect");
    reveal_strlit("jerk_x");
    reveal_strlit("jerk_y");
    reveal_strlit("jerk_z");
    reveal_strlit("bridge_flow");
    reveal_strlit("elefant_foot_compensation");
    reveal_strlit("infill_direction");
    reveal_strlit("infill_wall_overlap");
    reveal_strlit("spiral_mode");
    reveal_strlit("only_one_wall_top");
    reveal_strlit("resolution");
    reveal_strlit("raft_layers");
    reveal_strlit("detect_thin_wall");
    assert("layer_height"@.len() == 12
        && "first_layer_height"@.len() == 18
        && "wall_count"@.len() == 10
        && "infill_density"@.len() == 14
        && "infill_pattern"@.len() == 14
        && "top_solid_layers"@.len() == 16
        && "bottom_solid_layers"@.len() == 19
        && "perimeter_speed"@.len() == 15
        && "infill_speed"@.len() == 12
        && "travel_speed"@.len() == 12
        && "first_layer_speed"@.len() == 17
        && "skirt_loops"@.len() == 11
        && "skirt_distance"@.len() == 14
        && "brim_width"@.len() == 10
        && "print_acceleration"@.len() == 18
        && "seam_position"@.len() == 13
        && "speeds.bridge"@.len() == 13
        && "speeds.small_perimeter"@.len() == 22
        && "speeds.gap_fill"@.len() == 15
        && "speeds.top_surface"@.len() == 18
        && "speeds.solid_infill"@.len() == 19
        && "speeds.support"@.len() == 14
        && "speeds.support_interface"@.len() == 24
        && "speeds.travel_z"@.len() == 15
        && "line_widths.initial_layer"@.len() == 25
        && "line_widths.outer_wall"@.len() == 22
        && "line_widths.infill"@.len() == 18
        && "line_widths.internal_solid_infill"@.len() == 33
        && "line_widths.top_surface"@.len() == 23
        && "line_widths.support"@.len() == 19
        && "cooling.fan_max_speed"@.len() == 21
        && "cooling.fan_min_speed"@.len() == 21
        && "cooling.slow_down_layer_time"@.len() == 28
        && "cooling.slow_down_min_speed"@.len() == 27
        && "cooling.overhang_fan_speed"@.len() == 26
        && "cooling.full_fan_speed_layer"@.len() == 28
        && "cooling.slow_down_for_layer_cooling"@.len() == 35
        && "retraction.deretraction_speed"@.len() == 29
        && "retraction.retract_before_wipe"@.len() == 30
        && "retraction.retract_when_changing_layer"@.len() == 38);
    assert("retraction.wipe"@.len() == 15
        && "machine.start_gcode"@.len() == 19
        && "machine.end_gcode"@.len() == 17
        && "machine.layer_change_gcode"@.len() == 26
        && "machine.printable_height"@.len() == 24
        && "machine.max_acceleration_x"@.len() == 26
        && "machine.max_acceleration_y"@.len() == 26
        && "machine.max_acceleration_z"@.len() == 26
        && "machine.max_acceleration_e"@.len() == 26
        && "machine.max_acceleration_extruding"@.len() == 34
        && "machine.max_acceleration_retracting"@.len() == 35
        && "machine.max_acceleration_travel"@.len() == 31
        && "machine.max_speed_x"@.len() == 19
        && "machine.max_speed_y"@.len() == 19
        && "machine.max_speed_z"@.len() == 19
        && "machine.max_speed_e"@.len() == 19
        && "machine.nozzle_type"@.len() == 19
        && "machine.printer_model"@.len() == 21
        && "machine.bed_shape"@.len() == 17
        && "machine.min_layer_height"@.len() == 24
        && "machine.max_layer_height"@.len() == 24
        && "accel.outer_wall"@.len() == 16
        && "accel.inner_wall"@.len() == 16
        && "accel.initial_layer"@.len() == 19
        && "accel.top_surface"@.len() == 17
        && "accel.sparse_infill"@.len() == 19
        && "accel.bridge"@.len() == 12
        && "nozzle_temp"@.len() == 11
        && "first_layer_nozzle_temp"@.len() == 23
        && "bed_temp"@.len() == 8
        && "first_layer_bed_temp"@.len() == 20
        && "filament_density"@.len() == 16
        && "filament_diameter"@.len() == 17
        && "filament_cost_per_kg"@.len() == 20
        && "extrusion_multiplier"@.len() == 20
        && "disable_fan_first_layers"@.len() == 24
        && "fan_below_layer_time"@.len() == 20
        && "filament.filament_type"@.len() == 22
        && "filament.filament_vendor"@.len() == 24
        && "filament.max_volumetric_speed"@.len() == 29);
    assert("filament.nozzle_temperature_range_low"@.len() == 37
        && "filament.nozzle_temperature_range_high"@.len() == 38
        && "filament.filament_retraction_length"@.len() == 35
        && "filament.filament_retraction_speed"@.len() == 34
        && "filament.filament_start_gcode"@.len() == 29
        && "filament.filament_end_gcode"@.len() == 27
        && "nozzle_diameter"@.len() == 15
        && "retract_length"@.len() == 14
        && "retract_speed"@.len() == 13
        && "retract_z_hop"@.len() == 13
        && "min_travel_for_retract"@.len() == 22
        && "gcode_dialect"@.len() == 13
        && "jerk_x"@.len() == 6
        && "jerk_y"@.len() == 6
        && "jerk_z"@.len() == 6
        && "bridge_flow"@.len() == 11
        && "elefant_foot_compensation"@.len() == 25
        && "infill_direction"@.len() == 16
        && "infill_wall_overlap"@.len() == 19
        && "spiral_mode"@.len() == 11
        && "only_one_wall_top"@.len() == 17
        && "resolution"@.len() == 10
        && "raft_layers"@.len() == 11
        && "detect_thin_wall"@.len() == 16
        && "accel.bridge"@[0] == 'a'
        && "infill_speed"@[0] == 'i'
        && "layer_height"@[0] == 'l'
        && "travel_speed"@[0] == 't'
        && "accel.initial_layer"@[0] == 'a'
        && "accel.initial_layer"@[6] == 'i'
        && "accel.initial_layer"@[8] == 'i'
        && "accel.initial_layer"@[18] == 'r'
        && "accel.sparse_infill"@[0] == 'a'
        && "accel.sparse_infill"@[6] == 's'
        && "accel.sparse_infill"@[8] == 'a'
        && "accel.sparse_infill"@[18] == 'l'
        && "bottom_solid_layers"@[0] == 'b'
        && "bottom_solid_layers"@[6] == '_'
        && "bottom_solid_layers"@[8] == 'o'
        && "bottom_solid_layers"@[18] == 's');
    assert("infill_wall_overlap"@[0] == 'i'
        && "infill_wall_overlap"@[6] == '_'
        && "infill_wall_overlap"@[8] == 'a'
        && "infill_wall_overlap"@[18] == 'p'
        && "line_widths.support"@[0] == 'l'
        && "line_widths.support"@[6] == 'i'
        && "line_widths.support"@[8] == 't'
        && "line_widths.support"@[18] == 't'
        && "machine.max_speed_e"@[0] == 'm'
        && "machine.max_speed_e"@[6] == 'e'
        && "machine.max_speed_e"@[8] == 'm'
        && "machine.max_speed_e"@[18] == 'e'
        && "machine.max_speed_x"@[0] == 'm'
        && "machine.max_speed_x"@[6] == 'e'
        && "machine.max_speed_x"@[8] == 'm'
        && "machine.max_speed_x"@[18] == 'x'
        && "machine.max_speed_y"@[0] == 'm'
        && "machine.max_speed_y"@[6] == 'e'
        && "machine.max_speed_y"@[8] == 'm'
        && "machine.max_speed_y"@[18] == 'y'
        && "machine.max_speed_z"@[0] == 'm'
        && "machine.max_speed_z"@[6] == 'e'
        && "machine.max_speed_z"@[8] == 'm'
        && "machine.max_speed_z"@[18] == 'z'
        && "machine.nozzle_type"@[0] == 'm'
        && "machine.nozzle_type"@[6] == 'e'
        && "machine.nozzle_type"@[8] == 'n'
        && "machine.nozzle_type"@[18] == 'e'
        && "machine.start_gcode"@[0] == 'm'
        && "machine.start_gcode"@[6] == 'e'
        && "machine.start_gcode"@[8] == 's'
        && "machine.start_gcode"@[18] == 'e'
        && "speeds.solid_infill"@[0] == 's'
        && "speeds.solid_infill"@[6] == '.'
        && "speeds.solid_infill"@[8] == 'o'
        && "speeds.solid_infill"@[18] == 'l'
        && "accel.inner_wall"@[0] == 'a'
        && "accel.inner_wall"@[6] == 'i'
        && "accel.outer_wall"@[0] == 'a'
        && "accel.outer_wall"@[6] == 'o');
    assert("detect_thin_wall"@[0] == 'd'
        && "detect_thin_wall"@[6] == '_'
        && "filament_density"@[0] == 'f'
        && "filament_density"@[6] == 'n'
        && "infill_direction"@[0] == 'i'
        && "infill_direction"@[6] == '_'
        && "top_solid_layers"@[0] == 't'
        && "top_solid_layers"@[6] == 'l'
        && "accel.top_surface"@[0] == 'a'
        && "accel.top_surface"@[2] == 'c'
        && "accel.top_surface"@[8] == 'p'
        && "filament_diameter"@[0] == 'f'
        && "filament_diameter"@[2] == 'l'
        && "filament_diameter"@[8] == '_'
        && "first_layer_speed"@[0] == 'f'
        && "first_layer_speed"@[2] == 'r'
        && "first_layer_speed"@[8] == 'y'
        && "machine.bed_shape"@[0] == 'm'
        && "machine.bed_shape"@[2] == 'c'
        && "machine.bed_shape"@[8] == 'b'
        && "machine.end_gcode"@[0] == 'm'
        && "machine.end_gcode"@[2] == 'c'
        && "machine.end_gcode"@[8] == 'e'
        && "only_one_wall_top"@[0] == 'o'
        && "only_one_wall_top"@[2] == 'l'
        && "only_one_wall_top"@[8] == '_'
        && "bridge_flow"@[0] == 'b'
        && "bridge_flow"@[1] == 'r'
        && "nozzle_temp"@[0] == 'n'
        && "nozzle_temp"@[1] == 'o'
        && "raft_layers"@[0] == 'r'
        && "raft_layers"@[1] == 'a'
        && "skirt_loops"@[0] == 's'
        && "skirt_loops"@[1] == 'k'
        && "spiral_mode"@[0] == 's'
        && "spiral_mode"@[1] == 'p'
        && "brim_width"@[0] == 'b'
        && "resolution"@[0] == 'r'
        && "wall_count"@[0] == 'w'
        && "cooling.fan_max_speed"@[0] == 'c');
    assert("cooling.fan_max_speed"@[13] == 'a'
        && "cooling.fan_min_speed"@[0] == 'c'
        && "cooling.fan_min_speed"@[13] == 'i'
        && "machine.printer_model"@[0] == 'm'
        && "machine.printer_model"@[13] == 'e'
        && "cooling.full_fan_speed_layer"@[8] == 'f'
        && "cooling.slow_down_layer_time"@[8] == 's'
        && "cooling.overhang_fan_speed"@[0] == 'c'
        && "cooling.overhang_fan_speed"@[8] == 'o'
        && "cooling.overhang_fan_speed"@[25] == 'd'
        && "machine.layer_change_gcode"@[0] == 'm'
        && "machine.layer_change_gcode"@[8] == 'l'
        && "machine.layer_change_gcode"@[25] == 'e'
        && "machine.max_acceleration_e"@[0] == 'm'
        && "machine.max_acceleration_e"@[8] == 'm'
        && "machine.max_acceleration_e"@[25] == 'e'
        && "machine.max_acceleration_x"@[0] == 'm'
        && "machine.max_acceleration_x"@[8] == 'm'
        && "machine.max_acceleration_x"@[25] == 'x'
        && "machine.max_acceleration_y"@[0] == 'm'
        && "machine.max_acceleration_y"@[8] == 'm'
        && "machine.max_acceleration_y"@[25] == 'y'
        && "machine.max_acceleration_z"@[0] == 'm'
        && "machine.max_acceleration_z"@[8] == 'm'
        && "machine.max_acceleration_z"@[25] == 'z'
        && "cooling.slow_down_for_layer_cooling"@[0] == 'c'
        && "filament.filament_retraction_length"@[0] == 'f'
        && "machine.max_acceleration_retracting"@[0] == 'm'
        && "cooling.slow_down_min_speed"@[0] == 'c'
        && "filament.filament_end_gcode"@[0] == 'f'
        && "disable_fan_first_layers"@[0] == 'd'
        && "disable_fan_first_layers"@[8] == 'f'
        && "disable_fan_first_layers"@[9] == 'a'
        && "filament.filament_vendor"@[0] == 'f'
        && "filament.filament_vendor"@[8] == '.'
        && "filament.filament_vendor"@[9] == 'f'
        && "machine.max_layer_height"@[0] == 'm'
        && "machine.max_layer_height"@[8] == 'm'
        && "machine.max_layer_height"@[9] == 'a'
        && "machine.min_layer_height"@[0] == 'm');
    assert("machine.min_layer_height"@[8] == 'm'
        && "machine.min_layer_height"@[9] == 'i'
        && "machine.printable_height"@[0] == 'm'
        && "machine.printable_height"@[8] == 'p'
        && "machine.printable_height"@[9] == 'r'
        && "speeds.support_interface"@[0] == 's'
        && "speeds.support_interface"@[8] == 'u'
        && "speeds.support_interface"@[9] == 'p'
        && "elefant_foot_compensation"@[0] == 'e'
        && "line_widths.initial_layer"@[0] == 'l'
        && "extrusion_multiplier"@[0] == 'e'
        && "extrusion_multiplier"@[1] == 'x'
        && "extrusion_multiplier"@[2] == 't'
        && "fan_below_layer_time"@[0] == 'f'
        && "fan_below_layer_time"@[1] == 'a'
        && "fan_below_layer_time"@[2] == 'n'
        && "filament_cost_per_kg"@[0] == 'f'
        && "filament_cost_per_kg"@[1] == 'i'
        && "filament_cost_per_kg"@[2] == 'l'
        && "first_layer_bed_temp"@[0] == 'f'
        && "first_layer_bed_temp"@[1] == 'i'
        && "first_layer_bed_temp"@[2] == 'r'
        && "filament.filament_retraction_speed"@[0] == 'f'
        && "machine.max_acceleration_extruding"@[0] == 'm'
        && "filament.filament_start_gcode"@[0] == 'f'
        && "filament.filament_start_gcode"@[9] == 'f'
        && "filament.max_volumetric_speed"@[0] == 'f'
        && "filament.max_volumetric_speed"@[9] == 'm'
        && "retraction.deretraction_speed"@[0] == 'r'
        && "retraction.deretraction_speed"@[9] == 'n'
        && "filament.filament_type"@[0] == 'f'
        && "line_widths.outer_wall"@[0] == 'l'
        && "min_travel_for_retract"@[0] == 'm'
        && "speeds.small_perimeter"@[0] == 's'
        && "filament.nozzle_temperature_range_high"@[0] == 'f'
        && "retraction.retract_when_changing_layer"@[0] == 'r'
        && "first_layer_height"@[0] == 'f'
        && "line_widths.infill"@[0] == 'l'
        && "print_acceleration"@[0] == 'p'
        && "speeds.top_surface"@[0] == 's');
    assert("first_layer_nozzle_temp"@[0] == 'f'
        && "line_widths.top_surface"@[0] == 'l'
        && "gcode_dialect"@[0] == 'g'
        && "gcode_dialect"@[1] == 'c'
        && "gcode_dialect"@[8] == 'a'
        && "retract_speed"@[0] == 'r'
        && "retract_speed"@[1] == 'e'
        && "retract_speed"@[8] == 's'
        && "retract_z_hop"@[0] == 'r'
        && "retract_z_hop"@[1] == 'e'
        && "retract_z_hop"@[8] == 'z'
        && "seam_position"@[0] == 's'
        && "seam_position"@[1] == 'e'
        && "seam_position"@[8] == 'i'
        && "speeds.bridge"@[0] == 's'
        && "speeds.bridge"@[1] == 'p'
        && "speeds.bridge"@[8] == 'r'
        && "infill_density"@[0] == 'i'
        && "infill_density"@[1] == 'n'
        && "infill_density"@[7] == 'd'
        && "infill_pattern"@[0] == 'i'
        && "infill_pattern"@[1] == 'n'
        && "infill_pattern"@[7] == 'p'
        && "retract_length"@[0] == 'r'
        && "retract_length"@[1] == 'e'
        && "retract_length"@[7] == '_'
        && "skirt_distance"@[0] == 's'
        && "skirt_distance"@[1] == 'k'
        && "skirt_distance"@[7] == 'i'
        && "speeds.support"@[0] == 's'
        && "speeds.support"@[1] == 'p'
        && "speeds.support"@[7] == 's'
        && "jerk_x"@[5] == 'x'
        && "jerk_y"@[5] == 'y'
        && "jerk_z"@[5] == 'z'
        && "nozzle_diameter"@[0] == 'n'
        && "nozzle_diameter"@[7] == 'd'
        && "perimeter_speed"@[0] == 'p'
        && "perimeter_speed"@[7] == 'e'
        && "retraction.wipe"@[0] == 'r');
    assert("retraction.wipe"@[7] == 'i'
        && "speeds.gap_fill"@[0] == 's'
        && "speeds.gap_fill"@[7] == 'g'
        && "speeds.travel_z"@[0] == 's'
        && "speeds.travel_z"@[7] == 't');
}

/// Two PrusaSlicer keys map to the same configuration field only when they are
/// the same key or synonyms: different settings never share a field.
pub proof fn lemma_prusaslicer_fields_distinct(a: Seq<char>, b: Seq<char>)
    requires
        prusaslicer_field_of(a) is Some,
        prusaslicer_field_of(a) == prusaslicer_field_of(b),
    ensures
        a == b || prusaslicer_synonyms(a, b),
{
    lemma_prusaslicer_source(a);
    lemma_prusaslicer_source(b);
    lemma_prusaslicer_source_unique(prusaslicer_field_of(a)->0, a, b);
}


/// The boolean a trimmed PrusaSlicer value denotes ("1"/"true", "0"/"false").
pub open spec fn bool_of(t: Seq<char>) -> Option<bool> {
    if t == "1"@ || t == "true"@ {
        Some(true)
    } else if t == "0"@ || t == "false"@ {
        Some(false)
    } else {
        None
    }
}

/// Parse a PrusaSlicer boolean value ("0"/"1" or "true"/"false"), ignoring
/// surrounding whitespace.
pub fn parse_bool(value: &str) -> (r: Option<bool>)
    ensures
        r == bool_of(trim(value@)),
{
    let t = trim_str(value);
    let t = t.as_str();
    if str_eq(t, "1") || str_eq(t, "true") {
        Some(true)
    } else if str_eq(t, "0") || str_eq(t, "false") {
        Some(false)
    } else {
        None
    }
}

/// The text of `v` before the first `c` (all of `v` when there is none).
pub open spec fn before_first(v: Seq<char>, c: char) -> Seq<char> {
    match find_char(v, c) {
        Some(k) => v.take(k),
        None => v,
    }
}

/// The first comma-separated value of a multi-extruder field, trimmed.
pub fn first_comma_value(value: &str) -> (r: String)
    ensures
        r@ == trim(before_first(value@, ',')),
{
    let cs = chars_of(value);
    let n = cs.len();
    let end = match find_char_in(cs.as_slice(), 0, n, ',') {
        Some(k) => k,
        None => n,
    };
    assert(cs@.subrange(0, n as int) =~= value@);
    assert(cs@.subrange(0, end as int) == before_first(value@, ','));
    let (a, b) = trim_range(cs.as_slice(), 0, end);
    string_of_range(cs.as_slice(), a, b)
}

// ---------------------------------------------------------------------------
// Profile metadata
// ---------------------------------------------------------------------------

/// Keys that describe a profile's relations rather than settings; they are
/// not mapped onto configuration fields.
pub open spec fn is_metadata_key(key: Seq<char>) -> bool {
    key == "inherits"@ || key == "compatible_printers"@ || key == "compatible_printers_condition"@
        || key == "compatible_prints"@ || key == "compatible_prints_condition"@ || key
        == "renamed_from"@
}

/// Whether an INI key is profile metadata (`inherits`, the compatibility
/// lists and conditions, `renamed_from`), which field mapping skips.
pub fn is_ini_metadata_key(key: &str) -> (r: bool)
    ensures
        r == is_metadata_key(key@),
{
    str_eq(key, "inherits") || str_eq(key, "compatible_printers") || str_eq(
        key,
        "compatible_printers_condition",
    ) || str_eq(key, "compatible_prints") || str_eq(key, "compatible_prints_condition")
        || str_eq(key, "renamed_from")
}

/// The profile type of an INI section type: print sections are process
/// profiles, printer sections machine profiles; other types keep their name.
pub open spec fn profile_type_for(section_type: Seq<char>) -> Seq<char> {
    if section_type == "print"@ {
        "process"@
    } else if section_type == "filament"@ {
        "filament"@
    } else if section_type == "printer"@ {
        "machine"@
    } else {
        section_type
    }
}

/// The profile type of an INI section type.
pub fn profile_type_for_section(section_type: &str) -> (r: String)
    ensures
        r@ == profile_type_for(section_type@),
{
    if str_eq(section_type, "print") {
        String::from_str("process")
    } else if str_eq(section_type, "filament") {
        String::from_str("filament")
    } else if str_eq(section_type, "printer") {
        String::from_str("machine")
    } else {
        String::from_str(section_type)
    }
}

/// The metadata of a PrusaSlicer profile imported from its resolved fields:
/// its name, its profile type, and its `inherits` value if it still has one.
pub fn ini_profile_metadata(resolved_fields: &FieldMap, name: &str, section_type: &str) -> (m:
    ProfileMetadata)
    ensures
        m.name matches Some(n) && n@ == name@,
        m.profile_type matches Some(t) && t@ == profile_type_for(section_type@),
        match m.inherits {
            Some(v) => resolved_fields@.contains_key("inherits"@) && resolved_fields@["inherits"@] == v@,
            None => !resolved_fields@.contains_key("inherits"@),
        },
{
    let inherits = match resolved_fields.get("inherits") {
        Some(v) => Some(v.clone()),
        None => None,
    };
    ProfileMetadata {
        name: Some(String::from_str(name)),
        profile_type: Some(profile_type_for_section(section_type)),
        inherits,
    }
}

} // verus!
