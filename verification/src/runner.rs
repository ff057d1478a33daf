//! Phases of a design specification, and the text the staged runner derives from them.

use vstd::prelude::*;

use crate::context::{empty_context, PromptContext, PromptContextView};
use crate::event::GbaEvent;
use crate::text::{
    first_index, is_ws, join, trim_start,
    chars_of, decimal, usize_to_decimal, find, find_char, lemma_first_index_props, lines, range_starts_with, starts_with,
    string_of, string_of_range, strip_cr, strip_leading, trim, trim_bounds,
};

verus! {

/// A single phase extracted from a design specification.
#[derive(Debug, Clone, PartialEq, Eq)]
pub struct Phase {
    /// Phase name (e.g., "Core Implementation").
    pub name: String,
    /// Phase description with implementation details.
    pub description: String,
}

/// The mathematical value of a [`Phase`].
pub struct PhaseView {
    pub name: Seq<char>,
    pub description: Seq<char>,
}

impl View for Phase {
    type V = PhaseView;

    open spec fn view(&self) -> PhaseView {
        PhaseView { name: self.name@, description: self.description@ }
    }
}

/// The views of a sequence of phases.
pub open spec fn phase_views(v: Seq<Phase>) -> Seq<PhaseView> {
    v.map_values(|p: Phase| p@)
}

/// State of the line-by-line scan of a design specification: the phases closed so
/// far, and the name and accumulated description of the phase being read (an empty
/// name means no phase is open).
pub struct PhaseScan {
    pub phases: Seq<PhaseView>,
    pub name: Seq<char>,
    pub desc: Seq<char>,
}

/// A trimmed line that opens a phase: `## Phase`, `## phase` or `## PHASE` at its start.
pub open spec fn is_phase_header(t: Seq<char>) -> bool {
    ||| starts_with(t, seq!['#', '#', ' ', 'P', 'h', 'a', 's', 'e'])
    ||| starts_with(t, seq!['#', '#', ' ', 'p', 'h', 'a', 's', 'e'])
    ||| starts_with(t, seq!['#', '#', ' ', 'P', 'H', 'A', 'S', 'E'])
}

/// The phase name a header line gives: the trimmed text after the first `:` of the
/// header (without its leading `#`s), else after its first `-`, else the whole header.
pub open spec fn header_name(t: Seq<char>) -> Seq<char> {
    let h = trim(strip_leading(t, '#'));
    match find(h, ':') {
        Some(p) => trim(h.subrange(p + 1, h.len() as int)),
        None => match find(h, '-') {
            Some(p) => trim(h.subrange(p + 1, h.len() as int)),
            None => h,
        },
    }
}

/// The phase that is open in `acc`, closed, appended to the phases.
pub open spec fn close_phase(acc: PhaseScan) -> Seq<PhaseView> {
    if acc.name.len() > 0 {
        acc.phases.push(PhaseView { name: acc.name, description: trim(acc.desc) })
    } else {
        acc.phases
    }
}

/// One step of the scan: a header closes the open phase and opens a new one; any
/// other line is appended (newline-separated) to the open phase's description.
pub open spec fn scan_line(acc: PhaseScan, line: Seq<char>) -> PhaseScan {
    let t = trim(line);
    if is_phase_header(t) {
        PhaseScan { phases: close_phase(acc), name: header_name(t), desc: seq![] }
    } else if acc.name.len() > 0 {
        PhaseScan {
            phases: acc.phases,
            name: acc.name,
            desc: if acc.desc.len() > 0 {
                acc.desc.push('\n') + line
            } else {
                line
            },
        }
    } else {
        acc
    }
}

/// The scan step as a spec closure, for folding.
pub open spec fn scan_step() -> spec_fn(PhaseScan, Seq<char>) -> PhaseScan {
    |acc: PhaseScan, line: Seq<char>| scan_line(acc, line)
}

/// The scan state before the first line.
pub open spec fn empty_scan() -> PhaseScan {
    PhaseScan { phases: seq![], name: seq![], desc: seq![] }
}

/// The phase used when a specification declares none.
pub open spec fn default_phase() -> PhaseView {
    PhaseView {
        name: "Implementation"@,
        description: "Implement the feature according to the design specification."@,
    }
}

/// The phases of a design specification: its lines scanned in order, the last open
/// phase closed, and the default phase when no phase was found.
pub open spec fn spec_parse_phases(design_spec: Seq<char>) -> Seq<PhaseView> {
    let found = close_phase(lines(design_spec).fold_left(empty_scan(), scan_step()));
    if found.len() == 0 {
        seq![default_phase()]
    } else {
        found
    }
}

proof fn lemma_strip_leading_skip(s: Seq<char>, c: char, i: int)
    requires
        0 <= i <= s.len(),
        forall|j: int| 0 <= j < i ==> #[trigger] s[j] == c,
        i < s.len() ==> s[i] != c,
    ensures
        strip_leading(s, c) == s.subrange(i, s.len() as int),
    decreases i,
{
    if i == 0 {
        assert(s.subrange(0, s.len() as int) =~= s);
    } else {
        let t = s.drop_first();
        assert forall|j: int| 0 <= j < i - 1 implies #[trigger] t[j] == c by {
            assert(t[j] == s[j + 1]);
        }
        if i < s.len() {
            assert(t[i - 1] == s[i]);
        }
        lemma_strip_leading_skip(t, c, i - 1);
        assert(t.subrange(i - 1, t.len() as int) =~= s.subrange(i, s.len() as int));
    }
}

/// Folding `[x] + rest` is folding `rest` from the state after `x`.
proof fn lemma_fold_cons(x: Seq<char>, rest: Seq<Seq<char>>, acc: PhaseScan)
    ensures
        (seq![x] + rest).fold_left(acc, scan_step()) == rest.fold_left(
            scan_line(acc, x),
            scan_step(),
        ),
{
    let s = seq![x] + rest;
    s.lemma_fold_left_alt(acc, scan_step());
    rest.lemma_fold_left_alt(scan_line(acc, x), scan_step());
    assert(s.subrange(1, s.len() as int) =~= rest);
    assert(s[0] == x);
}

/// A copy of `v[lo..hi]`.
fn copy_range(v: &Vec<char>, lo: usize, hi: usize) -> (r: Vec<char>)
    requires
        lo <= hi <= v@.len(),
    ensures
        r@ == v@.subrange(lo as int, hi as int),
{
    let mut r: Vec<char> = Vec::new();
    let mut i = lo;
    while i < hi
        invariant
            lo <= i <= hi <= v@.len(),
            r@ == v@.subrange(lo as int, i as int),
        decreases hi - i,
    {
        r.push(v[i]);
        i = i + 1;
        assert(r@ =~= v@.subrange(lo as int, i as int));
    }
    r
}

/// Tests whether the trimmed line `v[a..b]` is a phase header.
fn line_is_header(v: &Vec<char>, a: usize, b: usize) -> (r: bool)
    requires
        a <= b <= v@.len(),
    ensures
        r == is_phase_header(v@.subrange(a as int, b as int)),
{
    let p1 = vec!['#', '#', ' ', 'P', 'h', 'a', 's', 'e'];
    let p2 = vec!['#', '#', ' ', 'p', 'h', 'a', 's', 'e'];
    let p3 = vec!['#', '#', ' ', 'P', 'H', 'A', 'S', 'E'];
    assert(p1@ =~= seq!['#', '#', ' ', 'P', 'h', 'a', 's', 'e']);
    assert(p2@ =~= seq!['#', '#', ' ', 'p', 'h', 'a', 's', 'e']);
    assert(p3@ =~= seq!['#', '#', ' ', 'P', 'H', 'A', 'S', 'E']);
    range_starts_with(v, a, b, &p1) || range_starts_with(v, a, b, &p2) || range_starts_with(
        v,
        a,
        b,
        &p3,
    )
}

/// The phase name of the header line `v[a..b]`.
fn line_header_name(v: &Vec<char>, a: usize, b: usize) -> (r: Vec<char>)
    requires
        a <= b <= v@.len(),
    ensures
        r@ == header_name(v@.subrange(a as int, b as int)),
{
    let ghost t = v@.subrange(a as int, b as int);
    let mut k = a;
    while k < b && v[k] == '#'
        invariant
            a <= k <= b <= v@.len(),
            forall|j: int| a <= j < k ==> #[trigger] v@[j] == '#',
        decreases b - k,
    {
        k = k + 1;
    }
    proof {
        assert forall|j: int| 0 <= j < k - a implies #[trigger] t[j] == '#' by {
            assert(t[j] == v@[a + j]);
        }
        if k < b {
            assert(t[k - a] == v@[k as int]);
        }
        lemma_strip_leading_skip(t, '#', k - a);
        assert(t.subrange(k - a, t.len() as int) =~= v@.subrange(k as int, b as int));
    }
    let (ha, hb) = trim_bounds(v, k, b);
    let ghost h = v@.subrange(ha as int, hb as int);
    assert(h == trim(strip_leading(t, '#')));
    let c = find_char(v, ha, hb, ':');
    if c < hb {
        let (na, nb) = trim_bounds(v, c + 1, hb);
        assert(h.subrange(c - ha + 1, h.len() as int) =~= v@.subrange(c + 1, hb as int));
        return copy_range(v, na, nb);
    }
    let d = find_char(v, ha, hb, '-');
    if d < hb {
        let (na, nb) = trim_bounds(v, d + 1, hb);
        assert(h.subrange(d - ha + 1, h.len() as int) =~= v@.subrange(d + 1, hb as int));
        return copy_range(v, na, nb);
    }
    copy_range(v, ha, hb)
}

/// Parses phases from a design specification markdown document.
///
/// Phases are headers of the form `## Phase N: Phase Name` or `## Phase N - Phase
/// Name`; the lines after a header, up to the next header, form its description.
/// When no phase is found, a single default "Implementation" phase is returned.
pub fn parse_phases(design_spec: &str) -> (r: Vec<Phase>)
    ensures
        phase_views(r@) == spec_parse_phases(design_spec@),
{
    let v = chars_of(design_spec);
    let n = v.len();
    let mut phases: Vec<Phase> = Vec::new();
    let mut name: Vec<char> = Vec::new();
    let mut desc: Vec<char> = Vec::new();
    let mut pos: usize = 0;
    let ghost total = lines(v@).fold_left(empty_scan(), scan_step());
    proof {
        assert(v@.subrange(0, n as int) =~= v@);
        assert(phase_views(phases@) =~= Seq::<PhaseView>::empty());
        assert(name@ =~= Seq::<char>::empty());
        assert(desc@ =~= Seq::<char>::empty());
        assert(PhaseScan { phases: phase_views(phases@), name: name@, desc: desc@ } == empty_scan());
    }
    while pos < n
        invariant
            n == v@.len(),
            v@ == design_spec@,
            pos <= n,
            total == lines(v@).fold_left(empty_scan(), scan_step()),
            lines(v@.subrange(pos as int, n as int)).fold_left(
                PhaseScan { phases: phase_views(phases@), name: name@, desc: desc@ },
                scan_step(),
            ) == total,
        decreases n - pos,
    {
        let ghost acc = PhaseScan { phases: phase_views(phases@), name: name@, desc: desc@ };
        let ghost rest = v@.subrange(pos as int, n as int);
        let i = find_char(&v, pos, n, '\n');
        // bounds of the current line, without the `\r` of a `\r\n` ending
        let hi = if i < n && i > pos && v[i - 1] == '\r' {
            i - 1
        } else {
            i
        };
        let ghost line = v@.subrange(pos as int, hi as int);
        proof {
            lemma_first_index_props(rest, '\n');
            if i < n {
                assert(rest.subrange(0, i - pos) =~= v@.subrange(pos as int, i as int));
                assert(strip_cr(v@.subrange(pos as int, i as int)) =~= line);
                assert(rest.subrange(i - pos + 1, rest.len() as int) =~= v@.subrange(
                    i + 1,
                    n as int,
                ));
                assert(lines(rest) == seq![line] + lines(v@.subrange(i + 1, n as int)));
                lemma_fold_cons(line, lines(v@.subrange(i + 1, n as int)), acc);
            } else {
                assert(line =~= rest);
                assert(lines(rest) == seq![line]);
                let e: Seq<Seq<char>> = seq![];
                assert(seq![line] + e =~= seq![line]);
                lemma_fold_cons(line, e, acc);
                assert(lines(v@.subrange(n as int, n as int)) =~= e);
            }
        }
        let (a, b) = trim_bounds(&v, pos, hi);
        if line_is_header(&v, a, b) {
            let ghost before = phases@;
            if name.len() > 0 {
                let (da, db) = trim_bounds(&desc, 0, desc.len());
                assert(desc@.subrange(0, desc@.len() as int) =~= desc@);
                let p = Phase { name: string_of(&name), description: string_of_range(&desc, da, db) };
                phases.push(p);
                assert(phase_views(phases@) =~= phase_views(before).push(
                    PhaseView { name: name@, description: trim(desc@) },
                ));
            }
            name = line_header_name(&v, a, b);
            desc = Vec::new();
            assert(desc@ =~= seq![]);
        } else if name.len() > 0 {
            let ghost old_desc = desc@;
            if desc.len() > 0 {
                desc.push('\n');
            }
            let mut k = pos;
            while k < hi
                invariant
                    pos <= k <= hi <= n,
                    n == v@.len(),
                    desc@ == (if old_desc.len() > 0 {
                        old_desc.push('\n')
                    } else {
                        old_desc
                    }) + v@.subrange(pos as int, k as int),
                decreases hi - k,
            {
                desc.push(v[k]);
                k = k + 1;
                assert(desc@ =~= (if old_desc.len() > 0 {
                    old_desc.push('\n')
                } else {
                    old_desc
                }) + v@.subrange(pos as int, k as int));
            }
            assert(old_desc + line =~= old_desc + v@.subrange(pos as int, hi as int));
        }
        pos = if i < n {
            i + 1
        } else {
            n
        };
    }
    proof {
        let e: Seq<Seq<char>> = seq![];
        assert(v@.subrange(n as int, n as int).len() == 0);
        assert(lines(v@.subrange(n as int, n as int)) =~= e);
    }
    let ghost before = phases@;
    if name.len() > 0 {
        let (da, db) = trim_bounds(&desc, 0, desc.len());
        assert(desc@.subrange(0, desc@.len() as int) =~= desc@);
        let p = Phase { name: string_of(&name), description: string_of_range(&desc, da, db) };
        phases.push(p);
        assert(phase_views(phases@) =~= phase_views(before).push(
            PhaseView { name: name@, description: trim(desc@) },
        ));
    }
    if phases.len() == 0 {
        let p = Phase {
            name: String::from_str("Implementation"),
            description: String::from_str(
                "Implement the feature according to the design specification.",
            ),
        };
        phases.push(p);
        assert(phase_views(phases@) =~= seq![default_phase()]);
    }
    phases
}

} // verus!

verus! {

/// Every phase of a scan state has a name.
pub open spec fn names_present(ps: Seq<PhaseView>) -> bool {
    forall|i: int| 0 <= i < ps.len() ==> (#[trigger] ps[i]).name.len() > 0
}

proof fn lemma_scan_keeps_names(ls: Seq<Seq<char>>)
    ensures
        names_present(ls.fold_left(empty_scan(), scan_step()).phases),
    decreases ls.len(),
{
    if ls.len() > 0 {
        lemma_scan_keeps_names(ls.drop_last());
        let acc = ls.drop_last().fold_left(empty_scan(), scan_step());
        let next = scan_line(acc, ls.last());
        assert(ls.fold_left(empty_scan(), scan_step()) == next);
        assert(names_present(close_phase(acc))) by {
            let c = close_phase(acc);
            assert forall|i: int| 0 <= i < c.len() implies (#[trigger] c[i]).name.len() > 0 by {
                if i < acc.phases.len() {
                    assert(c[i] == acc.phases[i]);
                }
            }
        }
    }
}

/// A design specification always yields at least one phase, and every phase has a
/// non-empty name.
pub proof fn law_phases_nonempty_and_named(design_spec: Seq<char>)
    ensures
        spec_parse_phases(design_spec).len() >= 1,
        names_present(spec_parse_phases(design_spec)),
{
    reveal_strlit("Implementation");
    let acc = lines(design_spec).fold_left(empty_scan(), scan_step());
    lemma_scan_keeps_names(lines(design_spec));
    let c = close_phase(acc);
    assert forall|i: int| 0 <= i < c.len() implies (#[trigger] c[i]).name.len() > 0 by {
        if i < acc.phases.len() {
            assert(c[i] == acc.phases[i]);
        }
    }
    if c.len() == 0 {
        assert(spec_parse_phases(design_spec)[0] == default_phase());
    }
}

/// A specification without phase headers is implemented as the single default phase.
pub proof fn law_no_header_default_phase(design_spec: Seq<char>)
    requires
        forall|i: int|
            0 <= i < lines(design_spec).len() ==> !is_phase_header(
                trim(#[trigger] lines(design_spec)[i]),
            ),
    ensures
        spec_parse_phases(design_spec) == seq![default_phase()],
{
    lemma_no_header_no_phase(lines(design_spec));
}

proof fn lemma_no_header_no_phase(ls: Seq<Seq<char>>)
    requires
        forall|i: int| 0 <= i < ls.len() ==> !is_phase_header(trim(#[trigger] ls[i])),
    ensures
        ls.fold_left(empty_scan(), scan_step()) == empty_scan(),
    decreases ls.len(),
{
    if ls.len() > 0 {
        let t = ls.drop_last();
        assert forall|i: int| 0 <= i < t.len() implies !is_phase_header(trim(#[trigger] t[i])) by {
            assert(t[i] == ls[i]);
        }
        lemma_no_header_no_phase(t);
        assert(ls.last() == ls[ls.len() - 1]);
    }
}

/// `n` holds only newlines.
pub open spec fn all_newlines(n: Seq<char>) -> bool {
    forall|i: int| 0 <= i < n.len() ==> #[trigger] n[i] == '\n'
}

/// Leading newlines do not change a trimmed text.
proof fn lemma_trim_newlines(n: Seq<char>, d: Seq<char>)
    requires
        all_newlines(n),
    ensures
        trim(n + d) == trim(d),
    decreases n.len(),
{
    if n.len() > 0 {
        let s = n + d;
        assert(s[0] == '\n');
        assert(is_ws(s[0]));
        assert(s.drop_first() =~= n.drop_first() + d);
        lemma_trim_newlines(n.drop_first(), d);
        assert(trim_start(s) == trim_start(n.drop_first() + d));
    }
}

/// Scanning lines none of which is a phase header, with a phase open and no
/// description yet, keeps the phase open and gathers the lines: joined by newlines,
/// they are the description after some leading newlines (those of leading empty
/// lines). Returns those newlines.
proof fn lemma_scan_body(ls: Seq<Seq<char>>, name: Seq<char>) -> (nl: Seq<char>)
    requires
        name.len() > 0,
        forall|i: int| 0 <= i < ls.len() ==> !is_phase_header(trim(#[trigger] ls[i])),
    ensures
        all_newlines(nl),
        ls.fold_left(PhaseScan { phases: seq![], name, desc: seq![] }, scan_step()).phases == Seq::<
            PhaseView,
        >::empty(),
        ls.fold_left(PhaseScan { phases: seq![], name, desc: seq![] }, scan_step()).name == name,
        join(ls, "\n"@) == nl + ls.fold_left(
            PhaseScan { phases: seq![], name, desc: seq![] },
            scan_step(),
        ).desc,
    decreases ls.len(),
{
    reveal_strlit("\n");
    let init = PhaseScan { phases: seq![], name, desc: seq![] };
    if ls.len() == 0 {
        assert(join(ls, "\n"@) =~= Seq::<char>::empty() + init.desc);
        Seq::<char>::empty()
    } else {
        let prev = ls.drop_last();
        let x = ls.last();
        assert forall|i: int| 0 <= i < prev.len() implies !is_phase_header(trim(#[trigger] prev[i])) by {
            assert(prev[i] == ls[i]);
        }
        assert(!is_phase_header(trim(ls[ls.len() - 1])));
        let nl0 = lemma_scan_body(prev, name);
        let r0 = prev.fold_left(init, scan_step());
        assert(ls.fold_left(init, scan_step()) == scan_line(r0, x));
        let r = scan_line(r0, x);
        if r0.desc.len() > 0 {
            assert(prev.len() > 0);
            assert(join(ls, "\n"@) == join(prev, "\n"@) + "\n"@ + x);
            assert(r.desc == r0.desc.push('\n') + x);
            assert(join(ls, "\n"@) =~= nl0 + r.desc);
            nl0
        } else {
            assert(r.desc == x);
            if prev.len() == 0 {
                assert(join(ls, "\n"@) == ls[0]);
                assert(join(ls, "\n"@) =~= Seq::<char>::empty() + r.desc);
                Seq::<char>::empty()
            } else {
                assert(join(prev, "\n"@) =~= nl0);
                let nl = nl0 + "\n"@;
                assert(join(ls, "\n"@) =~= nl + r.desc);
                nl
            }
        }
    }
}

/// A design specification made of one phase header line (with a non-empty name)
/// followed by lines none of which is a phase header is exactly one phase: named by
/// its header, and described by all the following lines joined by newlines and
/// trimmed, whatever they start with (sub-headings included).
pub proof fn law_single_phase(header: Seq<char>, body: Seq<char>)
    requires
        !header.contains('\n'),
        is_phase_header(trim(strip_cr(header))),
        header_name(trim(strip_cr(header))).len() > 0,
        forall|i: int|
            0 <= i < lines(body).len() ==> !is_phase_header(trim(#[trigger] lines(body)[i])),
    ensures
        spec_parse_phases(header + seq!['\n'] + body) == seq![
            PhaseView {
                name: header_name(trim(strip_cr(header))),
                description: trim(join(lines(body), "\n"@)),
            },
        ],
{
    let s = header + seq!['\n'] + body;
    let k = header.len() as int;
    lemma_first_index_props(s, '\n');
    assert(s[k] == '\n');
    assert forall|j: int| 0 <= j < k implies s[j] != '\n' by {
        assert(s[j] == header[j]);
        if s[j] == '\n' {
            assert(header.contains('\n'));
        }
    }
    assert(first_index(s, '\n') == k);
    assert(s.subrange(0, k) =~= header);
    assert(s.subrange(k + 1, s.len() as int) =~= body);
    assert(lines(s) == seq![strip_cr(header)] + lines(body));
    lemma_fold_cons(strip_cr(header), lines(body), empty_scan());
    let name = header_name(trim(strip_cr(header)));
    let first = scan_line(empty_scan(), strip_cr(header));
    assert(first == PhaseScan { phases: seq![], name, desc: seq![] });
    let nl = lemma_scan_body(lines(body), name);
    let r = lines(body).fold_left(first, scan_step());
    assert(lines(s).fold_left(empty_scan(), scan_step()) == r);
    assert(close_phase(r) =~= seq![PhaseView { name, description: trim(r.desc) }]);
    lemma_trim_newlines(nl, r.desc);
}

/// The commit message of a phase: `feat(id): name - Phase index/total`.
pub open spec fn spec_commit_message(
    feature_id: Seq<char>,
    name: Seq<char>,
    index: nat,
    total: nat,
) -> Seq<char> {
    "feat("@ + feature_id + "): "@ + name + " - Phase "@ + decimal(index) + "/"@ + decimal(total)
}

/// The commit message of a phase.
pub fn commit_message(feature_id: &str, name: &str, index: usize, total: usize) -> (r: String)
    ensures
        r@ == spec_commit_message(feature_id@, name@, index as nat, total as nat),
{
    let mut r = String::from_str("feat(");
    r.append(feature_id);
    r.append("): ");
    r.append(name);
    r.append(" - Phase ");
    r.append(usize_to_decimal(index).as_str());
    r.append("/");
    r.append(usize_to_decimal(total).as_str());
    r
}

/// The staged execution of a feature: its specification documents and the phases
/// parsed from its design.
#[derive(Debug, Clone)]
pub struct Runner {
    feature_id: String,
    design_spec: String,
    verification_plan: String,
    phases: Vec<Phase>,
}

impl Runner {
    /// The feature id.
    pub closed spec fn spec_feature_id(&self) -> Seq<char> {
        self.feature_id@
    }

    /// The design specification.
    pub closed spec fn spec_design(&self) -> Seq<char> {
        self.design_spec@
    }

    /// The verification plan.
    pub closed spec fn spec_verification(&self) -> Seq<char> {
        self.verification_plan@
    }

    /// The phases to run.
    pub closed spec fn spec_phases(&self) -> Seq<Phase> {
        self.phases@
    }

    /// The phases are those of the design specification.
    pub open spec fn wf(&self) -> bool {
        phase_views(self.spec_phases()) == spec_parse_phases(self.spec_design())
    }

    /// A runner for a feature, from its design specification and verification plan.
    pub fn from_specs(feature_id: &str, design_spec: String, verification_plan: String) -> (r: Self)
        ensures
            r.wf(),
            r.spec_feature_id() == feature_id@,
            r.spec_design() == design_spec@,
            r.spec_verification() == verification_plan@,
    {
        let phases = parse_phases(design_spec.as_str());
        Runner { feature_id: String::from_str(feature_id), design_spec, verification_plan, phases }
    }

    /// Returns the parsed phases.
    pub fn phases(&self) -> (r: &Vec<Phase>)
        ensures
            r@ == self.spec_phases(),
    {
        &self.phases
    }

    /// Returns the total number of phases.
    pub fn total_phases(&self) -> (r: usize)
        ensures
            r == self.spec_phases().len(),
    {
        self.phases.len()
    }

    /// The feature id.
    pub fn feature_id(&self) -> (r: &str)
        ensures
            r@ == self.spec_feature_id(),
    {
        self.feature_id.as_str()
    }

    /// The design specification.
    pub fn design_spec(&self) -> (r: &str)
        ensures
            r@ == self.spec_design(),
    {
        self.design_spec.as_str()
    }

    /// The verification plan.
    pub fn verification_plan(&self) -> (r: &str)
        ensures
            r@ == self.spec_verification(),
    {
        self.verification_plan.as_str()
    }

    /// The event that announces phase `index` (0-based) as phase `index + 1` of all.
    pub fn phase_started(&self, index: usize) -> (r: GbaEvent)
        requires
            index < self.spec_phases().len(),
        ensures
            r matches GbaEvent::PhaseStarted { name, index: i, total } && name@
                == self.spec_phases()[index as int].name@ && i == index + 1 && total
                == self.spec_phases().len(),
    {
        let total = self.phases.len();
        GbaEvent::PhaseStarted { name: self.phases[index].name.clone(), index: index + 1, total }
    }

    /// The event that reports phase `index` (0-based) committed.
    pub fn phase_committed(&self, index: usize) -> (r: GbaEvent)
        requires
            index < self.spec_phases().len(),
        ensures
            r matches GbaEvent::PhaseCommitted { name } && name@ == self.spec_phases()[index as int].name@,
    {
        GbaEvent::PhaseCommitted { name: self.phases[index].name.clone() }
    }

    /// The commit message of phase `index` (0-based).
    pub fn phase_commit_message(&self, index: usize) -> (r: String)
        requires
            index < self.spec_phases().len(),
        ensures
            r@ == spec_commit_message(
                self.spec_feature_id(),
                self.spec_phases()[index as int].name@,
                (index + 1) as nat,
                self.spec_phases().len(),
            ),
    {
        let total = self.phases.len();
        commit_message(
            self.feature_id.as_str(),
            self.phases[index].name.as_str(),
            index + 1,
            total,
        )
    }

    /// The prompt context shared by all phases: the working directory, the feature,
    /// its documents and the repository tree.
    pub fn system_context(&self, working_dir: &str, repo_tree: &str) -> (r: PromptContext)
        ensures
            r@ == (PromptContextView {
                working_dir: working_dir@,
                feature_slug: self.spec_feature_id(),
                design_spec: self.spec_design(),
                verification_plan: self.spec_verification(),
                repo_tree: repo_tree@,
                ..empty_context()
            }),
    {
        PromptContext::new().with_working_dir(working_dir).with_feature_slug(
            self.feature_id.as_str(),
        ).with_design_spec(self.design_spec.as_str()).with_verification_plan(
            self.verification_plan.as_str(),
        ).with_repo_tree(repo_tree)
    }

    /// The prompt context of phase `index` (0-based): `base` with the phase's name,
    /// description, number and the total.
    pub fn phase_context(&self, base: PromptContext, index: usize) -> (r: PromptContext)
        requires
            index < self.spec_phases().len(),
        ensures
            r@ == (PromptContextView {
                phase_name: self.spec_phases()[index as int].name@,
                phase_description: self.spec_phases()[index as int].description@,
                phase_index: (index + 1) as nat,
                phase_total: self.spec_phases().len(),
                ..base@
            }),
    {
        let total = self.phases.len();
        base.with_phase_name(self.phases[index].name.as_str()).with_phase_description(
            self.phases[index].description.as_str(),
        ).with_phase_index(index + 1).with_phase_total(total)
    }
}

} // verus!
