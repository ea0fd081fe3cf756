//! Window-title parsing: turns a raw window title into a candidate
//! (project, editor kind) identity, following the CAD tool's title
//! conventions. Parsing is deliberately tolerant of false negatives: a title
//! that does not match the expected shape yields no identity, and an editor
//! label that is not an exact match yields `Unknown`, never a guess.

use vstd::prelude::*;

use crate::strutil::str_eq;

verus! {

/// Which editor window the title belongs to.
#[derive(Clone, Copy, Debug, PartialEq, Eq, Structural)]
pub enum EditorKind {
    Schematic,
    Layout,
    Unknown,
}

/// The identity extracted from one window title.
pub struct ParsedIdentity {
    pub project: String,
    pub editor_kind: EditorKind,
}

/// The title separator " — " (space, em dash, space) starts at index `i`.
pub open spec fn sep_at(s: Seq<char>, i: int) -> bool {
    &&& 0 <= i
    &&& i + 3 <= s.len()
    &&& s[i] == ' '
    &&& s[i + 1] == '\u{2014}'
    &&& s[i + 2] == ' '
}

/// Index of the first separator occurrence, if any.
pub open spec fn find_sep(s: Seq<char>) -> Option<int>
    decreases s.len(),
{
    if s.len() < 3 {
        None
    } else if s[0] == ' ' && s[1] == '\u{2014}' && s[2] == ' ' {
        Some(0int)
    } else {
        match find_sep(s.drop_first()) {
            None => None,
            Some(i) => Some(i + 1),
        }
    }
}

proof fn lemma_find_sep_none(s: Seq<char>)
    requires
        forall|i: int| !sep_at(s, i),
    ensures
        find_sep(s) is None,
    decreases s.len(),
{
    if s.len() >= 3 {
        assert(!sep_at(s, 0));
        let t = s.drop_first();
        assert forall|i: int| !sep_at(t, i) by {
            if 0 <= i && i + 3 <= t.len() {
                assert(t[i] == s[i + 1]);
                assert(t[i + 1] == s[i + 2]);
                assert(t[i + 2] == s[i + 3]);
                assert(!sep_at(s, i + 1));
            }
        }
        lemma_find_sep_none(t);
    }
}

proof fn lemma_find_sep_at(s: Seq<char>, i: int)
    requires
        sep_at(s, i),
        forall|j: int| 0 <= j < i ==> !sep_at(s, j),
    ensures
        find_sep(s) == Some(i),
    decreases i,
{
    if i == 0 {
    } else {
        assert(!sep_at(s, 0));
        let t = s.drop_first();
        assert(t[i - 1] == s[i]);
        assert(t[i] == s[i + 1]);
        assert(t[i + 1] == s[i + 2]);
        assert(sep_at(t, i - 1));
        assert forall|j: int| 0 <= j < i - 1 implies !sep_at(t, j) by {
            assert(t[j] == s[j + 1]);
            assert(t[j + 1] == s[j + 2]);
            assert(t[j + 2] == s[j + 3]);
            assert(!sep_at(s, j + 1));
        }
        lemma_find_sep_at(t, i - 1);
    }
}

/// Locate the first separator " — " in the title, if any.
pub fn find_sep_pos(s: &str) -> (r: Option<usize>)
    ensures
        match r {
            Some(i) => find_sep(s@) == Some(i as int) && sep_at(s@, i as int),
            None => find_sep(s@) is None,
        },
{
    let n = s.unicode_len();
    if n < 3 {
        proof {
            lemma_find_sep_none(s@);
        }
        return None;
    }
    let mut i: usize = 0;
    while i < n - 2
        invariant
            3 <= n,
            n == s@.len(),
            i <= n - 2,
            forall|j: int| 0 <= j < i ==> !sep_at(s@, j),
        decreases n - i,
    {
        let c0 = s.get_char(i);
        let c1 = s.get_char(i + 1);
        let c2 = s.get_char(i + 2);
        if c0 == ' ' && c1 == '\u{2014}' && c2 == ' ' {
            proof {
                lemma_find_sep_at(s@, i as int);
            }
            return Some(i);
        }
        i = i + 1;
    }
    proof {
        assert forall|j: int| !sep_at(s@, j) by {
            if 0 <= j && j + 3 <= s@.len() {
                assert(j < i);
            }
        }
        lemma_find_sep_none(s@);
    }
    None
}

/// A recognized "nothing loaded" placeholder project token.
pub open spec fn is_placeholder(p: Seq<char>) -> bool {
    p == "[no schematic loaded]"@ || p == "[no pcb loaded]"@
}

/// Editor kind of a title's trailing label; only the two exact labels are
/// recognized.
pub open spec fn editor_kind_of(label: Seq<char>) -> EditorKind {
    if label == "Schematic Editor"@ {
        EditorKind::Schematic
    } else if label == "PCB Editor"@ {
        EditorKind::Layout
    } else {
        EditorKind::Unknown
    }
}

/// A " [" pair (start of a hierarchical-sheet suffix) starts at index `i`.
pub open spec fn pair_at(p: Seq<char>, i: int) -> bool {
    &&& 0 <= i
    &&& i + 2 <= p.len()
    &&& p[i] == ' '
    &&& p[i + 1] == '['
}

/// Index of the last " [" occurrence, if any.
pub open spec fn find_last_pair(p: Seq<char>) -> Option<int>
    decreases p.len(),
{
    if p.len() < 2 {
        None
    } else if pair_at(p, p.len() - 2) {
        Some(p.len() - 2)
    } else {
        find_last_pair(p.drop_last())
    }
}

proof fn lemma_find_last_pair_none(p: Seq<char>)
    requires
        forall|i: int| !pair_at(p, i),
    ensures
        find_last_pair(p) is None,
    decreases p.len(),
{
    if p.len() >= 2 {
        let t = p.drop_last();
        assert forall|i: int| !pair_at(t, i) by {
            if 0 <= i && i + 2 <= t.len() {
                assert(t[i] == p[i]);
                assert(t[i + 1] == p[i + 1]);
                assert(!pair_at(p, i));
            }
        }
        lemma_find_last_pair_none(t);
    }
}

proof fn lemma_find_last_pair_at(p: Seq<char>, i: int)
    requires
        pair_at(p, i),
        forall|j: int| j > i ==> !pair_at(p, j),
    ensures
        find_last_pair(p) == Some(i),
    decreases p.len(),
{
    if i == p.len() - 2 {
    } else {
        assert(!pair_at(p, p.len() - 2));
        let t = p.drop_last();
        assert(t[i] == p[i]);
        assert(t[i + 1] == p[i + 1]);
        assert(pair_at(t, i));
        assert forall|j: int| j > i implies !pair_at(t, j) by {
            if 0 <= j && j + 2 <= t.len() {
                assert(t[j] == p[j]);
                assert(t[j + 1] == p[j + 1]);
                assert(!pair_at(p, j));
            }
        }
        lemma_find_last_pair_at(t, i);
    }
}

/// Locate the last " [" in the project token, if any.
pub fn find_last_pair_pos(p: &str) -> (r: Option<usize>)
    ensures
        match r {
            Some(i) => find_last_pair(p@) == Some(i as int) && pair_at(p@, i as int),
            None => find_last_pair(p@) is None,
        },
{
    let n = p.unicode_len();
    if n < 2 {
        proof {
            lemma_find_last_pair_none(p@);
        }
        return None;
    }
    let mut pos: usize = n - 1;
    while pos > 0
        invariant
            n == p@.len(),
            2 <= n,
            pos <= n - 1,
            forall|j: int| j >= pos ==> !pair_at(p@, j),
        decreases pos,
    {
        pos = pos - 1;
        if p.get_char(pos) == ' ' && p.get_char(pos + 1) == '[' {
            proof {
                lemma_find_last_pair_at(p@, pos as int);
            }
            return Some(pos);
        }
        assert(!pair_at(p@, pos as int));
    }
    proof {
        lemma_find_last_pair_none(p@);
    }
    None
}

/// A '[' stands at index `i`.
pub open spec fn lb_at(p: Seq<char>, i: int) -> bool {
    0 <= i < p.len() && p[i] == '['
}

/// Index of the first '[' occurrence, if any.
pub open spec fn find_lbracket(p: Seq<char>) -> Option<int>
    decreases p.len(),
{
    if p.len() == 0 {
        None
    } else if p[0] == '[' {
        Some(0int)
    } else {
        match find_lbracket(p.drop_first()) {
            None => None,
            Some(i) => Some(i + 1),
        }
    }
}

proof fn lemma_find_lbracket_none(p: Seq<char>)
    requires
        forall|i: int| !lb_at(p, i),
    ensures
        find_lbracket(p) is None,
    decreases p.len(),
{
    if p.len() > 0 {
        assert(!lb_at(p, 0));
        let t = p.drop_first();
        assert forall|i: int| !lb_at(t, i) by {
            if 0 <= i < t.len() {
                assert(t[i] == p[i + 1]);
                assert(!lb_at(p, i + 1));
            }
        }
        lemma_find_lbracket_none(t);
    }
}

proof fn lemma_find_lbracket_at(p: Seq<char>, i: int)
    requires
        lb_at(p, i),
        forall|j: int| 0 <= j < i ==> !lb_at(p, j),
    ensures
        find_lbracket(p) == Some(i),
    decreases i,
{
    if i == 0 {
    } else {
        assert(!lb_at(p, 0));
        let t = p.drop_first();
        assert(t[i - 1] == p[i]);
        assert(lb_at(t, i - 1));
        assert forall|j: int| 0 <= j < i - 1 implies !lb_at(t, j) by {
            assert(t[j] == p[j + 1]);
            assert(!lb_at(p, j + 1));
        }
        lemma_find_lbracket_at(t, i - 1);
    }
}

/// Locate the first '[' in the project token, if any.
pub fn find_lbracket_pos(p: &str) -> (r: Option<usize>)
    ensures
        match r {
            Some(i) => find_lbracket(p@) == Some(i as int) && lb_at(p@, i as int),
            None => find_lbracket(p@) is None,
        },
{
    let n = p.unicode_len();
    let mut i: usize = 0;
    while i < n
        invariant
            n == p@.len(),
            i <= n,
            forall|j: int| 0 <= j < i ==> !lb_at(p@, j),
        decreases n - i,
    {
        if p.get_char(i) == '[' {
            proof {
                lemma_find_lbracket_at(p@, i as int);
            }
            return Some(i);
        }
        i = i + 1;
    }
    proof {
        lemma_find_lbracket_none(p@);
    }
    None
}

/// Drop a single leading unsaved-changes marker '*', if present.
pub open spec fn strip_marker(p: Seq<char>) -> Seq<char> {
    if p.len() > 0 && p[0] == '*' {
        p.drop_first()
    } else {
        p
    }
}

/// Drop a trailing hierarchical-sheet suffix: prefer cutting at the last
/// " ["; failing that, cut at a '[' that is not at index zero; a leading
/// '[' is part of the project name and is kept.
pub open spec fn strip_sheet_suffix(p: Seq<char>) -> Seq<char> {
    match find_last_pair(p) {
        Some(i) => p.subrange(0, i),
        None => match find_lbracket(p) {
            Some(i) => if i > 0 {
                p.subrange(0, i)
            } else {
                p
            },
            None => p,
        },
    }
}

/// What `parse` returns: the project token left of the first separator,
/// with the marker and sheet suffix stripped, and the exactly matched
/// editor kind; no identity when the separator is missing or the project
/// token is a placeholder.
pub open spec fn parse_spec(title: Seq<char>) -> Option<(Seq<char>, EditorKind)> {
    match find_sep(title) {
        None => None,
        Some(i) => {
            let raw = title.subrange(0, i);
            let label = title.subrange(i + 3, title.len() as int);
            if is_placeholder(raw) {
                None
            } else {
                Some((strip_sheet_suffix(strip_marker(raw)), editor_kind_of(label)))
            }
        },
    }
}

/// Parse one window title into a candidate identity.
pub fn parse(title: &str) -> (r: Option<ParsedIdentity>)
    ensures
        match r {
            Some(id) => parse_spec(title@) == Some((id.project@, id.editor_kind)),
            None => parse_spec(title@) is None,
        },
{
    let n = title.unicode_len();
    let sep = match find_sep_pos(title) {
        Some(i) => i,
        None => {
            return None;
        },
    };
    let raw = title.substring_char(0, sep);
    let label = title.substring_char(sep + 3, n);
    if str_eq(raw, "[no schematic loaded]") || str_eq(raw, "[no pcb loaded]") {
        return None;
    }
    let m = raw.unicode_len();
    let body = if m > 0 && raw.get_char(0) == '*' {
        raw.substring_char(1, m)
    } else {
        raw
    };
    assert(body@ == strip_marker(raw@));
    let proj = match find_last_pair_pos(body) {
        Some(i) => body.substring_char(0, i),
        None => match find_lbracket_pos(body) {
            Some(i) => if i > 0 {
                body.substring_char(0, i)
            } else {
                body
            },
            None => body,
        },
    };
    assert(proj@ == strip_sheet_suffix(body@));
    let kind = if str_eq(label, "Schematic Editor") {
        EditorKind::Schematic
    } else if str_eq(label, "PCB Editor") {
        EditorKind::Layout
    } else {
        EditorKind::Unknown
    };
    Some(ParsedIdentity { project: proj.to_owned(), editor_kind: kind })
}

/// The bare filename the identity stands for, when the editor is
/// recognized: the project name plus the editor's file extension.
pub open spec fn filename_spec(project: Seq<char>, kind: EditorKind) -> Option<Seq<char>> {
    match kind {
        EditorKind::Schematic => Some(project + ".kicad_sch"@),
        EditorKind::Layout => Some(project + ".kicad_pcb"@),
        EditorKind::Unknown => None,
    }
}

/// Derive the tracked filename for an identity; `None` exactly when the
/// editor kind is `Unknown`, which callers treat as "no identity."
pub fn filename_for(id: &ParsedIdentity) -> (r: Option<String>)
    ensures
        match r {
            Some(f) => filename_spec(id.project@, id.editor_kind) == Some(f@),
            None => filename_spec(id.project@, id.editor_kind) is None,
        },
{
    match id.editor_kind {
        EditorKind::Schematic => {
            let mut s = id.project.clone();
            s.append(".kicad_sch");
            Some(s)
        },
        EditorKind::Layout => {
            let mut s = id.project.clone();
            s.append(".kicad_pcb");
            Some(s)
        },
        EditorKind::Unknown => None,
    }
}

/// Law: a title without the separator " — " never yields an identity.
pub proof fn lemma_no_separator_no_identity(title: Seq<char>)
    requires
        forall|i: int| !sep_at(title, i),
    ensures
        parse_spec(title) is None,
{
    lemma_find_sep_none(title);
}

/// Law: a title whose left part is a recognized placeholder never yields
/// an identity, whatever stands right of the separator.
pub proof fn lemma_placeholder_no_identity(title: Seq<char>, i: int)
    requires
        find_sep(title) == Some(i),
        is_placeholder(title.subrange(0, i)),
    ensures
        parse_spec(title) is None,
{
}

} // verus!
