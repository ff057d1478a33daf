//! Layout of the `.gba/` workspace directory and feature numbering.

use vstd::prelude::*;

use crate::config::{spec_config_file, spec_gba_dir, spec_specs_dir, spec_trees_dir};
use crate::path::{join, join_path};
use crate::text::{
    all_digits, chars_of, digit_char, digits_value, find_char, first_index, parse_u32, push_decimal, decimal,
    string_of, string_of_range, zero_padded,
};

verus! {

/// The name of the GBA directory.
pub const GBA_DIR_NAME: &'static str = ".gba";

/// The name of the specs directory within `.gba/`.
pub const SPECS_DIR_NAME: &'static str = "specs";

/// The name of the trees directory within `.gba/`.
pub const TREES_DIR_NAME: &'static str = "trees";

/// The name of the templates directory within `.gba/`.
pub const TEMPLATES_DIR_NAME: &'static str = "templates";

/// The name of the config file.
pub const CONFIG_FILE_NAME: &'static str = "config.yaml";

/// The name of the design spec file.
pub const DESIGN_SPEC_FILE: &'static str = "design.md";

/// The name of the verification plan file.
pub const VERIFICATION_FILE: &'static str = "verification.md";

/// Workspace manager: the paths of the `.gba/` directory structure under a root.
#[derive(Debug, Clone, PartialEq, Eq)]
pub struct Workspace {
    /// Root directory of the workspace (contains `.gba/`).
    root: String,
}

/// The spec directory of a feature: `specs/{feature_id}_`.
pub open spec fn spec_feature_spec_dir(root: Seq<char>, feature_id: Seq<char>) -> Seq<char> {
    join_path(spec_specs_dir(root), feature_id + seq!['_'])
}

/// The feature id a spec directory name carries: its text before the first `_`.
pub open spec fn id_prefix(name: Seq<char>) -> Seq<char> {
    name.subrange(0, first_index(name, '_'))
}

/// The largest feature number among directory names whose id prefix parses as a
/// number, or 0 when none does.
pub open spec fn max_feature_number(names: Seq<Seq<char>>) -> nat
    decreases names.len(),
{
    if names.len() == 0 {
        0
    } else {
        let m = max_feature_number(names.drop_last());
        match parse_u32(id_prefix(names.last())) {
            Some(v) => if v > m {
                v as nat
            } else {
                m
            },
            None => m,
        }
    }
}

/// The id of the next feature: one more than the largest existing number, written
/// with at least four digits.
pub open spec fn spec_next_feature_id(names: Seq<Seq<char>>) -> Seq<char> {
    zero_padded(max_feature_number(names) + 1, 4)
}

/// No existing feature number is `u32::MAX`, so there is a next one.
pub open spec fn numbers_below_max(names: Seq<Seq<char>>) -> bool {
    forall|i: int| 0 <= i < names.len() ==> parse_u32(id_prefix(#[trigger] names[i])) != Some(
        u32::MAX,
    )
}

proof fn lemma_max_bounded(names: Seq<Seq<char>>)
    requires
        numbers_below_max(names),
    ensures
        max_feature_number(names) < u32::MAX,
        forall|i: int|
            0 <= i < names.len() && (#[trigger] parse_u32(id_prefix(names[i]))) is Some
                ==> parse_u32(id_prefix(names[i]))->0 <= max_feature_number(names),
    decreases names.len(),
{
    if names.len() > 0 {
        let t = names.drop_last();
        assert forall|i: int| 0 <= i < t.len() implies parse_u32(id_prefix(#[trigger] t[i]))
            != Some(u32::MAX) by {
            assert(t[i] == names[i]);
        }
        lemma_max_bounded(t);
        assert(names.last() == names[names.len() - 1]);
        assert forall|i: int|
            0 <= i < names.len() && (#[trigger] parse_u32(id_prefix(names[i]))) is Some implies
            parse_u32(id_prefix(names[i]))->0 <= max_feature_number(names) by {
            if i < names.len() - 1 {
                assert(t[i] == names[i]);
            }
        }
    }
}

/// Parsing stops growing once a prefix of digits is too large.
proof fn lemma_digits_value_mono(s: Seq<char>, k: int)
    requires
        0 <= k <= s.len(),
        all_digits(s),
    ensures
        digits_value(s.subrange(0, k)) <= digits_value(s),
    decreases s.len() - k,
{
    if k < s.len() {
        let t = s.drop_last();
        assert(t.subrange(0, k) =~= s.subrange(0, k));
        assert(all_digits(t)) by {
            assert forall|i: int| 0 <= i < t.len() implies '0' <= #[trigger] t[i] && t[i] <= '9' by {
                assert(t[i] == s[i]);
            }
        }
        lemma_digits_value_mono(t, k);
    } else {
        assert(s.subrange(0, k) =~= s);
    }
}

/// What `v[lo..hi].parse::<u32>()` returns.
pub fn parse_u32_range(v: &Vec<char>, lo: usize, hi: usize) -> (r: Option<u32>)
    requires
        lo <= hi <= v@.len(),
    ensures
        r == parse_u32(v@.subrange(lo as int, hi as int)),
{
    let ghost s = v@.subrange(lo as int, hi as int);
    let start = if lo < hi && v[lo] == '+' {
        lo + 1
    } else {
        lo
    };
    let ghost d = v@.subrange(start as int, hi as int);
    proof {
        if lo < hi && v@[lo as int] == '+' {
            assert(s.drop_first() =~= d);
        } else {
            assert(s =~= d);
        }
    }
    if start == hi {
        return None;
    }
    assert(parse_u32(s) == (if all_digits(d) && digits_value(d) <= u32::MAX {
        Some(digits_value(d) as u32)
    } else {
        None
    }));
    assert(v@.subrange(start as int, start as int) =~= Seq::<char>::empty());
    let mut val: u64 = 0;
    let mut k = start;
    while k < hi
        invariant
            lo <= start <= k <= hi <= v@.len(),
            d == v@.subrange(start as int, hi as int),
            s == v@.subrange(lo as int, hi as int),
            parse_u32(s) == (if all_digits(d) && digits_value(d) <= u32::MAX {
                Some(digits_value(d) as u32)
            } else {
                None
            }),
            all_digits(v@.subrange(start as int, k as int)),
            val == digits_value(v@.subrange(start as int, k as int)),
            val <= u32::MAX,
        decreases hi - k,
    {
        let c = v[k];
        if c < '0' || c > '9' {
            proof {
                assert(d[k - start] == c);
            }
            return None;
        }
        let digit = (c as u32 - '0' as u32) as u64;
        proof {
            let p = v@.subrange(start as int, k + 1);
            assert(p.drop_last() =~= v@.subrange(start as int, k as int));
            assert(p.last() == c);
            assert forall|i: int| 0 <= i < p.len() implies '0' <= #[trigger] p[i] && p[i] <= '9' by {
                if i < p.len() - 1 {
                    assert(p[i] == v@.subrange(start as int, k as int)[i]);
                }
            }
        }
        assert(digits_value(v@.subrange(start as int, k + 1)) == val * 10 + digit);
        let next = val * 10 + digit;
        if next > 0xFFFF_FFFF {
            proof {
                let p = v@.subrange(start as int, k + 1);
                if all_digits(d) {
                    assert(d.subrange(0, k + 1 - start) =~= p);
                    lemma_digits_value_mono(d, k + 1 - start);
                }
            }
            return None;
        }
        val = next;
        k = k + 1;
    }
    assert(v@.subrange(start as int, hi as int) =~= d);
    Some(val as u32)
}

/// `decimal(n)` padded with zeros to at least `width` characters.
pub fn zero_padded_decimal(n: usize, width: usize) -> (r: String)
    ensures
        r@ == zero_padded(n as nat, width as nat),
{
    let mut digits: Vec<char> = Vec::new();
    push_decimal(&mut digits, n);
    assert(digits@ =~= decimal(n as nat));
    let mut out: Vec<char> = Vec::new();
    let mut k: usize = digits.len();
    while k < width
        invariant
            digits@.len() <= k <= (if width > digits@.len() {
                width as int
            } else {
                digits@.len() as int
            }),
            out@ == Seq::new((k - digits@.len()) as nat, |i: int| '0'),
        decreases width - k,
    {
        out.push('0');
        k = k + 1;
        assert(out@ =~= Seq::new((k - digits@.len()) as nat, |i: int| '0'));
    }
    let mut i: usize = 0;
    let ghost pad = out@;
    while i < digits.len()
        invariant
            i <= digits@.len(),
            out@ == pad + digits@.subrange(0, i as int),
        decreases digits@.len() - i,
    {
        out.push(digits[i]);
        i = i + 1;
        assert(out@ =~= pad + digits@.subrange(0, i as int));
    }
    assert(digits@.subrange(0, digits@.len() as int) =~= digits@);
    proof {
        if digits@.len() >= width {
            assert(pad =~= Seq::<char>::empty());
            assert(out@ =~= digits@);
        }
    }
    string_of(&out)
}

impl Workspace {
    /// Creates a new workspace manager for the given root directory.
    pub fn new(root: &str) -> (r: Self)
        ensures
            r.spec_root() == root@,
    {
        Workspace { root: String::from_str(root) }
    }

    /// The root directory.
    pub closed spec fn spec_root(&self) -> Seq<char> {
        self.root@
    }

    /// Returns the root directory path.
    pub fn root(&self) -> (r: &str)
        ensures
            r@ == self.spec_root(),
    {
        self.root.as_str()
    }

    /// Returns the path to the `.gba/` directory.
    pub fn gba_dir(&self) -> (r: String)
        ensures
            r@ == spec_gba_dir(self.spec_root()),
    {
        join(self.root.as_str(), GBA_DIR_NAME)
    }

    /// Returns the path to the specs directory.
    pub fn specs_dir(&self) -> (r: String)
        ensures
            r@ == spec_specs_dir(self.spec_root()),
    {
        join(self.gba_dir().as_str(), SPECS_DIR_NAME)
    }

    /// Returns the path to the trees directory.
    pub fn trees_dir(&self) -> (r: String)
        ensures
            r@ == spec_trees_dir(self.spec_root()),
    {
        join(self.gba_dir().as_str(), TREES_DIR_NAME)
    }

    /// The directories that make up the workspace, parents first: `.gba/`, its
    /// specs and its trees.
    pub fn init_dirs(&self) -> (r: Vec<String>)
        ensures
            crate::text::views(r@) == seq![
                spec_gba_dir(self.spec_root()),
                spec_specs_dir(self.spec_root()),
                spec_trees_dir(self.spec_root()),
            ],
    {
        let r = vec![self.gba_dir(), self.specs_dir(), self.trees_dir()];
        assert(crate::text::views(r@) =~= seq![
            spec_gba_dir(self.spec_root()),
            spec_specs_dir(self.spec_root()),
            spec_trees_dir(self.spec_root()),
        ]);
        r
    }

    /// Returns the path to the file that records a feature's slug, `.slug` in its
    /// spec directory.
    pub fn slug_path(&self, feature_id: &str) -> (r: String)
        ensures
            r@ == join_path(spec_feature_spec_dir(self.spec_root(), feature_id@), ".slug"@),
    {
        join(self.feature_spec_dir(feature_id).as_str(), ".slug")
    }

    /// Returns the path to the templates directory.
    pub fn templates_dir(&self) -> (r: String)
        ensures
            r@ == join_path(spec_gba_dir(self.spec_root()), TEMPLATES_DIR_NAME@),
    {
        join(self.gba_dir().as_str(), TEMPLATES_DIR_NAME)
    }

    /// Returns the path to the config file.
    pub fn config_path(&self) -> (r: String)
        ensures
            r@ == spec_config_file(self.spec_root()),
    {
        join(self.gba_dir().as_str(), CONFIG_FILE_NAME)
    }

    /// Returns the path to a feature's spec directory.
    pub fn feature_spec_dir(&self, feature_id: &str) -> (r: String)
        ensures
            r@ == spec_feature_spec_dir(self.spec_root(), feature_id@),
    {
        let mut name = String::from_str(feature_id);
        name.append("_");
        proof {
            reveal_strlit("_");
        }
        join(self.specs_dir().as_str(), name.as_str())
    }

    /// Returns the path to a feature's design spec file.
    pub fn design_spec_path(&self, feature_id: &str) -> (r: String)
        ensures
            r@ == join_path(spec_feature_spec_dir(self.spec_root(), feature_id@), DESIGN_SPEC_FILE@),
    {
        join(self.feature_spec_dir(feature_id).as_str(), DESIGN_SPEC_FILE)
    }

    /// Returns the path to a feature's verification plan file.
    pub fn verification_path(&self, feature_id: &str) -> (r: String)
        ensures
            r@ == join_path(
                spec_feature_spec_dir(self.spec_root(), feature_id@),
                VERIFICATION_FILE@,
            ),
    {
        join(self.feature_spec_dir(feature_id).as_str(), VERIFICATION_FILE)
    }

    /// The id of the next feature, given the names of the entries of the specs
    /// directory: one more than the largest number before a `_` in a name, written
    /// with four digits ("0001" when there is none).
    pub fn next_feature_id_from(names: &Vec<String>) -> (r: String)
        requires
            numbers_below_max(names@.map_values(|s: String| s@)),
        ensures
            r@ == spec_next_feature_id(names@.map_values(|s: String| s@)),
    {
        let ghost all = names@.map_values(|s: String| s@);
        let mut max_id: u32 = 0;
        let mut i: usize = 0;
        while i < names.len()
            invariant
                i <= names@.len(),
                all == names@.map_values(|s: String| s@),
                numbers_below_max(all),
                max_id as nat == max_feature_number(all.subrange(0, i as int)),
                max_id < u32::MAX,
            decreases names@.len() - i,
        {
            let v = chars_of(names[i].as_str());
            let end = find_char(&v, 0, v.len(), '_');
            assert(v@.subrange(0, v@.len() as int) =~= v@);
            assert(v@.subrange(0, end as int) == id_prefix(all[i as int]));
            let parsed = parse_u32_range(&v, 0, end);
            proof {
                let p = all.subrange(0, i + 1);
                assert(p.drop_last() =~= all.subrange(0, i as int));
                assert(p.last() == all[i as int]);
            }
            match parsed {
                Some(id) => {
                    if id > max_id {
                        max_id = id;
                    }
                },
                None => {},
            }
            i = i + 1;
        }
        assert(all.subrange(0, all.len() as int) =~= all);
        zero_padded_decimal((max_id + 1) as usize, 4)
    }
}

/// The layout of a workspace agrees with the configuration paths of the same root:
/// both name the same `.gba/`, specs, trees and configuration file paths.
pub proof fn law_workspace_matches_config(root: Seq<char>)
    ensures
        join_path(root, GBA_DIR_NAME@) == spec_gba_dir(root),
        join_path(spec_gba_dir(root), SPECS_DIR_NAME@) == spec_specs_dir(root),
        join_path(spec_gba_dir(root), TREES_DIR_NAME@) == spec_trees_dir(root),
        join_path(spec_gba_dir(root), CONFIG_FILE_NAME@) == spec_config_file(root),
{
}

/// The next feature id is numbered above every existing feature, so a new feature
/// never reuses the number of an existing one.
pub proof fn law_next_feature_id_is_fresh(names: Seq<Seq<char>>)
    requires
        numbers_below_max(names),
    ensures
        parse_u32(spec_next_feature_id(names)) == Some((max_feature_number(names) + 1) as u32),
        forall|i: int|
            0 <= i < names.len() && (#[trigger] parse_u32(id_prefix(names[i]))) is Some
                ==> parse_u32(id_prefix(names[i]))->0 < max_feature_number(names) + 1,
{
    lemma_max_bounded(names);
    lemma_parse_padded((max_feature_number(names) + 1) as nat, 4);
}

/// Parsing a zero-padded decimal gives back its number.
proof fn lemma_parse_padded(n: nat, width: nat)
    requires
        n <= u32::MAX,
    ensures
        parse_u32(zero_padded(n, width)) == Some(n as u32),
{
    lemma_decimal_digits(n);
    let d = decimal(n);
    let z = zero_padded(n, width);
    if d.len() < width {
        let pad = Seq::new((width - d.len()) as nat, |i: int| '0');
        lemma_leading_zeros(pad, d);
        assert(z == pad + d);
    }
    assert(z.len() > 0);
    assert(z[0] == '0' || z[0] != '+');
    if z.len() > 0 && z[0] == '+' {
        assert(false);
    }
}

/// The value of a digit character.
proof fn lemma_digit_char(d: nat)
    requires
        d < 10,
    ensures
        '0' <= digit_char(d) <= '9',
        (digit_char(d) as u32 - '0' as u32) as nat == d,
{
}

/// The decimal digits of `n` are digits with value `n`.
proof fn lemma_decimal_digits(n: nat)
    ensures
        decimal(n).len() > 0,
        all_digits(decimal(n)),
        digits_value(decimal(n)) == n,
        decimal(n)[0] != '+',
    decreases n,
{
    if n < 10 {
        lemma_digit_char(n);
        let d = decimal(n);
        assert(d.drop_last() =~= Seq::<char>::empty());
        assert(d.last() == digit_char(n));
        assert(digits_value(d) == digits_value(d.drop_last()) * 10 + (d.last() as u32
            - '0' as u32) as nat);
    } else {
        lemma_digit_char(n % 10);
        lemma_decimal_digits(n / 10);
        let d = decimal(n);
        assert(d.drop_last() =~= decimal(n / 10));
        assert forall|i: int| 0 <= i < d.len() implies '0' <= #[trigger] d[i] && d[i] <= '9' by {
            if i < d.len() - 1 {
                assert(d[i] == decimal(n / 10)[i]);
            }
        }
        assert(d[0] == decimal(n / 10)[0]);
        assert(d.last() == digit_char(n % 10));
        assert(digits_value(d) == digits_value(d.drop_last()) * 10 + (d.last() as u32
            - '0' as u32) as nat);
        assert((n / 10) * 10 + n % 10 == n) by (nonlinear_arith);
    }
}

/// Leading zeros add nothing to the value of a string of digits.
proof fn lemma_leading_zeros(pad: Seq<char>, d: Seq<char>)
    requires
        forall|i: int| 0 <= i < pad.len() ==> #[trigger] pad[i] == '0',
        all_digits(d),
    ensures
        all_digits(pad + d),
        digits_value(pad + d) == digits_value(d),
        (pad + d).len() > 0 ==> (pad + d)[0] != '+',
    decreases d.len(),
{
    let s = pad + d;
    assert forall|i: int| 0 <= i < s.len() implies '0' <= #[trigger] s[i] && s[i] <= '9' by {
        if i < pad.len() {
            assert(s[i] == pad[i]);
        } else {
            assert(s[i] == d[i - pad.len()]);
        }
    }
    if d.len() == 0 {
        lemma_zeros_value(pad);
        assert(s =~= pad);
    } else {
        let t = d.drop_last();
        assert(all_digits(t)) by {
            assert forall|i: int| 0 <= i < t.len() implies '0' <= #[trigger] t[i] && t[i] <= '9' by {
                assert(t[i] == d[i]);
            }
        }
        lemma_leading_zeros(pad, t);
        assert(s.drop_last() =~= pad + t);
        assert(s.last() == d.last());
    }
    if s.len() > 0 {
        if pad.len() > 0 {
            assert(s[0] == pad[0]);
        } else {
            assert(s[0] == d[0]);
        }
    }
}

/// A string of zeros has value zero.
proof fn lemma_zeros_value(pad: Seq<char>)
    requires
        forall|i: int| 0 <= i < pad.len() ==> #[trigger] pad[i] == '0',
    ensures
        digits_value(pad) == 0,
    decreases pad.len(),
{
    if pad.len() > 0 {
        let t = pad.drop_last();
        assert forall|i: int| 0 <= i < t.len() implies #[trigger] t[i] == '0' by {
            assert(t[i] == pad[i]);
        }
        lemma_zeros_value(t);
        assert(pad.last() == pad[pad.len() - 1]);
    }
}

} // verus!

verus! {

/// The feature ids of the spec directories named `names`, sorted.
pub open spec fn spec_feature_ids(names: Seq<Seq<char>>) -> Seq<Seq<char>> {
    names.map_values(|n: Seq<char>| id_prefix(n)).sort_by(crate::order::str_order())
}

impl Workspace {
    /// The ids of the features whose spec directories are named `dir_names`: the
    /// text before the first `_` of each name, sorted.
    pub fn feature_ids_from(dir_names: &Vec<String>) -> (r: Vec<String>)
        ensures
            crate::text::views(r@) == spec_feature_ids(crate::text::views(dir_names@)),
    {
        let ghost names = crate::text::views(dir_names@);
        let mut ids: Vec<Vec<char>> = Vec::new();
        let mut i: usize = 0;
        while i < dir_names.len()
            invariant
                i <= dir_names@.len(),
                names == crate::text::views(dir_names@),
                ids@.map_values(|v: Vec<char>| v@) == names.subrange(0, i as int).map_values(
                    |n: Seq<char>| id_prefix(n),
                ),
            decreases dir_names@.len() - i,
        {
            let v = chars_of(dir_names[i].as_str());
            let end = find_char(&v, 0, v.len(), '_');
            assert(v@.subrange(0, v@.len() as int) =~= v@);
            let mut id: Vec<char> = Vec::new();
            let mut k: usize = 0;
            while k < end
                invariant
                    k <= end <= v@.len(),
                    id@ == v@.subrange(0, k as int),
                decreases end - k,
            {
                id.push(v[k]);
                k = k + 1;
                assert(id@ =~= v@.subrange(0, k as int));
            }
            let ghost before = ids@.map_values(|v: Vec<char>| v@);
            let ghost idv = id@;
            ids.push(id);
            assert(ids@.map_values(|v: Vec<char>| v@) =~= before.push(idv));
            assert(names[i as int] == dir_names@[i as int]@);
            assert(names.subrange(0, i + 1).map_values(|n: Seq<char>| id_prefix(n))
                =~= names.subrange(0, i as int).map_values(|n: Seq<char>| id_prefix(n)).push(
                id_prefix(names[i as int]),
            ));
            i = i + 1;
        }
        assert(names.subrange(0, names.len() as int) =~= names);
        let sorted = crate::order::sort_chars(ids);
        let mut r: Vec<String> = Vec::new();
        let mut j: usize = 0;
        while j < sorted.len()
            invariant
                j <= sorted@.len(),
                crate::text::views(r@) == sorted@.subrange(0, j as int).map_values(
                    |v: Vec<char>| v@,
                ),
            decreases sorted@.len() - j,
        {
            let s = string_of(&sorted[j]);
            let ghost before = crate::text::views(r@);
            let ghost sv = s@;
            r.push(s);
            assert(crate::text::views(r@) =~= before.push(sv));
            assert(sorted@.subrange(0, j + 1).map_values(|v: Vec<char>| v@) =~= sorted@.subrange(
                0,
                j as int,
            ).map_values(|v: Vec<char>| v@).push(sorted@[j as int]@));
            j = j + 1;
        }
        assert(sorted@.subrange(0, sorted@.len() as int) =~= sorted@);
        r
    }
}

/// The feature ids are listed in order: each id comes before or equals the next.
pub proof fn law_feature_ids_sorted(names: Seq<Seq<char>>)
    ensures
        vstd::relations::sorted_by(spec_feature_ids(names), crate::order::str_order()),
{
    crate::order::law_str_order_total();
    names.map_values(|n: Seq<char>| id_prefix(n)).lemma_sort_by_ensures(crate::order::str_order());
}

} // verus!
