//! Agent tool permission presets.
//!
//! The presets are hardcoded security boundaries: they decide which tools an agent
//! session may use in each phase, and they are not configurable.

use vstd::prelude::*;

verus! {

/// Agent tool permission presets.
#[derive(Debug, Clone, Copy, PartialEq, Eq, Hash, Structural)]
pub enum AgentPreset {
    /// Read-only access: Read, Glob, Grep.
    ReadOnly,
    /// Spec writing access: Read, Glob, Grep, Write.
    WriteSpec,
    /// Full coding access: Read, Write, Edit, Bash, Glob, Grep.
    FullCoding,
    /// Verification access: Read, Glob, Grep, Bash.
    Verify,
}

/// The tool names a preset allows, in order.
pub open spec fn spec_allowed_tools(p: AgentPreset) -> Seq<Seq<char>> {
    match p {
        AgentPreset::ReadOnly => seq!["Read"@, "Glob"@, "Grep"@],
        AgentPreset::WriteSpec => seq!["Read"@, "Glob"@, "Grep"@, "Write"@],
        AgentPreset::FullCoding => seq!["Read"@, "Write"@, "Edit"@, "Bash"@, "Glob"@, "Grep"@],
        AgentPreset::Verify => seq!["Read"@, "Glob"@, "Grep"@, "Bash"@],
    }
}

/// The views of a sequence of string slices.
pub open spec fn str_views(v: Seq<&str>) -> Seq<Seq<char>> {
    v.map_values(|s: &str| s@)
}

impl AgentPreset {
    /// Returns the list of allowed tool names for this preset.
    pub fn allowed_tools(&self) -> (r: Vec<&'static str>)
        ensures
            str_views(r@) == spec_allowed_tools(*self),
    {
        let r = match self {
            AgentPreset::ReadOnly => vec!["Read", "Glob", "Grep"],
            AgentPreset::WriteSpec => vec!["Read", "Glob", "Grep", "Write"],
            AgentPreset::FullCoding => vec!["Read", "Write", "Edit", "Bash", "Glob", "Grep"],
            AgentPreset::Verify => vec!["Read", "Glob", "Grep", "Bash"],
        };
        assert(str_views(r@) =~= spec_allowed_tools(*self));
        r
    }

    /// Returns a description of this preset's capabilities.
    pub fn description(&self) -> (r: &'static str)
        ensures
            r@ == match *self {
                AgentPreset::ReadOnly => "Read-only access for analysis and review"@,
                AgentPreset::WriteSpec => "Read and write access for spec file generation"@,
                AgentPreset::FullCoding => "Full access for implementation phases"@,
                AgentPreset::Verify => "Read and command execution for verification"@,
            },
    {
        match self {
            AgentPreset::ReadOnly => "Read-only access for analysis and review",
            AgentPreset::WriteSpec => "Read and write access for spec file generation",
            AgentPreset::FullCoding => "Full access for implementation phases",
            AgentPreset::Verify => "Read and command execution for verification",
        }
    }

    /// The preset's name, as it is displayed.
    pub fn name(&self) -> (r: &'static str)
        ensures
            r@ == match *self {
                AgentPreset::ReadOnly => "ReadOnly"@,
                AgentPreset::WriteSpec => "WriteSpec"@,
                AgentPreset::FullCoding => "FullCoding"@,
                AgentPreset::Verify => "Verify"@,
            },
    {
        match self {
            AgentPreset::ReadOnly => "ReadOnly",
            AgentPreset::WriteSpec => "WriteSpec",
            AgentPreset::FullCoding => "FullCoding",
            AgentPreset::Verify => "Verify",
        }
    }

    /// Returns `true` if this preset allows file writing.
    pub fn can_write(&self) -> (r: bool)
        ensures
            r == (*self == AgentPreset::WriteSpec || *self == AgentPreset::FullCoding),
    {
        match self {
            AgentPreset::WriteSpec | AgentPreset::FullCoding => true,
            _ => false,
        }
    }

    /// Returns `true` if this preset allows file editing.
    pub fn can_edit(&self) -> (r: bool)
        ensures
            r == (*self == AgentPreset::FullCoding),
    {
        match self {
            AgentPreset::FullCoding => true,
            _ => false,
        }
    }

    /// Returns `true` if this preset allows bash command execution.
    pub fn can_execute(&self) -> (r: bool)
        ensures
            r == (*self == AgentPreset::FullCoding || *self == AgentPreset::Verify),
    {
        match self {
            AgentPreset::FullCoding | AgentPreset::Verify => true,
            _ => false,
        }
    }
}

/// The six tool names are pairwise distinct.
proof fn lemma_tool_names_distinct()
    ensures
        "Read"@ != "Write"@,
        "Glob"@ != "Write"@,
        "Grep"@ != "Write"@,
        "Bash"@ != "Write"@,
        "Edit"@ != "Write"@,
        "Read"@ != "Edit"@,
        "Glob"@ != "Edit"@,
        "Grep"@ != "Edit"@,
        "Bash"@ != "Edit"@,
        "Read"@ != "Bash"@,
        "Glob"@ != "Bash"@,
        "Grep"@ != "Bash"@,
        "Read"@ != "Glob"@,
        "Read"@ != "Grep"@,
        "Glob"@ != "Grep"@,
{
    reveal_strlit("Read");
    reveal_strlit("Glob");
    reveal_strlit("Grep");
    reveal_strlit("Write");
    reveal_strlit("Edit");
    reveal_strlit("Bash");
    assert("Read"@[0] != "Write"@[0]);
    assert("Glob"@[0] != "Write"@[0]);
    assert("Grep"@[0] != "Write"@[0]);
    assert("Bash"@[0] != "Write"@[0]);
    assert("Edit"@[0] != "Write"@[0]);
    assert("Read"@[0] != "Edit"@[0]);
    assert("Glob"@[0] != "Edit"@[0]);
    assert("Grep"@[0] != "Edit"@[0]);
    assert("Bash"@[0] != "Edit"@[0]);
    assert("Read"@[0] != "Bash"@[0]);
    assert("Glob"@[0] != "Bash"@[0]);
    assert("Grep"@[0] != "Bash"@[0]);
    assert("Read"@[0] != "Glob"@[0]);
    assert("Read"@[0] != "Grep"@[0]);
    assert("Glob"@[1] != "Grep"@[1]);
}

/// The capability predicates agree with the tool lists: a preset can write exactly
/// when it allows `Write`, edit exactly when it allows `Edit`, and execute commands
/// exactly when it allows `Bash`.
pub proof fn law_capabilities_match_tools(p: AgentPreset)
    ensures
        (p == AgentPreset::WriteSpec || p == AgentPreset::FullCoding) <==> spec_allowed_tools(
            p,
        ).contains("Write"@),
        (p == AgentPreset::FullCoding) <==> spec_allowed_tools(p).contains("Edit"@),
        (p == AgentPreset::FullCoding || p == AgentPreset::Verify) <==> spec_allowed_tools(
            p,
        ).contains("Bash"@),
{
    lemma_tool_names_distinct();
    let t = spec_allowed_tools(p);
    match p {
        AgentPreset::ReadOnly => {
            assert(!t.contains("Write"@));
            assert(!t.contains("Edit"@));
            assert(!t.contains("Bash"@));
        },
        AgentPreset::WriteSpec => {
            assert(t[3] == "Write"@);
            assert(!t.contains("Edit"@));
            assert(!t.contains("Bash"@));
        },
        AgentPreset::FullCoding => {
            assert(t[1] == "Write"@);
            assert(t[2] == "Edit"@);
            assert(t[3] == "Bash"@);
        },
        AgentPreset::Verify => {
            assert(!t.contains("Write"@));
            assert(!t.contains("Edit"@));
            assert(t[3] == "Bash"@);
        },
    }
}

/// Every preset allows reading and searching (`Read`, `Glob`, `Grep`), and every
/// tool of the read-only preset is allowed by every other preset.
pub proof fn law_every_preset_reads(p: AgentPreset)
    ensures
        spec_allowed_tools(p).contains("Read"@),
        spec_allowed_tools(p).contains("Glob"@),
        spec_allowed_tools(p).contains("Grep"@),
        forall|t: Seq<char>|
            #[trigger] spec_allowed_tools(AgentPreset::ReadOnly).contains(t)
                ==> spec_allowed_tools(p).contains(t),
{
    let t = spec_allowed_tools(p);
    match p {
        AgentPreset::FullCoding => {
            assert(t[0] == "Read"@);
            assert(t[4] == "Glob"@);
            assert(t[5] == "Grep"@);
        },
        _ => {
            assert(t[0] == "Read"@);
            assert(t[1] == "Glob"@);
            assert(t[2] == "Grep"@);
        },
    }
    let r = spec_allowed_tools(AgentPreset::ReadOnly);
    assert forall|x: Seq<char>| #[trigger] r.contains(x) implies t.contains(x) by {
        let i = choose|i: int| 0 <= i < r.len() && r[i] == x;
        assert(x == r[i]);
    }
}

/// Every tool allowed by some preset is allowed by the full coding preset, and the
/// write-spec preset allows everything the read-only one does plus `Write` only.
pub proof fn law_full_coding_is_widest(p: AgentPreset)
    ensures
        forall|t: Seq<char>|
            #[trigger] spec_allowed_tools(p).contains(t) ==> spec_allowed_tools(
                AgentPreset::FullCoding,
            ).contains(t),
        spec_allowed_tools(AgentPreset::WriteSpec) == spec_allowed_tools(
            AgentPreset::ReadOnly,
        ).push("Write"@),
{
    lemma_tool_names_distinct();
    let t = spec_allowed_tools(p);
    let f = spec_allowed_tools(AgentPreset::FullCoding);
    assert forall|x: Seq<char>| #[trigger] t.contains(x) implies f.contains(x) by {
        let i = choose|i: int| 0 <= i < t.len() && t[i] == x;
        if x == "Read"@ {
            assert(f[0] == x);
        } else if x == "Write"@ {
            assert(f[1] == x);
        } else if x == "Edit"@ {
            assert(f[2] == x);
        } else if x == "Bash"@ {
            assert(f[3] == x);
        } else if x == "Glob"@ {
            assert(f[4] == x);
        } else {
            assert(f[5] == x);
        }
    }
    assert(spec_allowed_tools(AgentPreset::WriteSpec) =~= spec_allowed_tools(
        AgentPreset::ReadOnly,
    ).push("Write"@));
}

/// The presets form a chain of tool sets: write-spec is read-only plus `Write`,
/// full coding is write-spec plus `Edit` and `Bash`, verification is read-only plus
/// `Bash`; neither read-only nor verification may write or edit, and no preset lists
/// a tool twice.
pub proof fn law_preset_tool_sets(p: AgentPreset)
    ensures
        spec_allowed_tools(AgentPreset::WriteSpec).to_set() == spec_allowed_tools(
            AgentPreset::ReadOnly,
        ).to_set().insert("Write"@),
        spec_allowed_tools(AgentPreset::FullCoding).to_set() == spec_allowed_tools(
            AgentPreset::WriteSpec,
        ).to_set().insert("Edit"@).insert("Bash"@),
        spec_allowed_tools(AgentPreset::Verify).to_set() == spec_allowed_tools(
            AgentPreset::ReadOnly,
        ).to_set().insert("Bash"@),
        !spec_allowed_tools(AgentPreset::ReadOnly).contains("Write"@),
        !spec_allowed_tools(AgentPreset::ReadOnly).contains("Edit"@),
        !spec_allowed_tools(AgentPreset::Verify).contains("Write"@),
        !spec_allowed_tools(AgentPreset::Verify).contains("Edit"@),
        spec_allowed_tools(p).no_duplicates(),
{
    lemma_tool_names_distinct();
    law_capabilities_match_tools(AgentPreset::ReadOnly);
    law_capabilities_match_tools(AgentPreset::Verify);
    let r = spec_allowed_tools(AgentPreset::ReadOnly);
    let w = spec_allowed_tools(AgentPreset::WriteSpec);
    let f = spec_allowed_tools(AgentPreset::FullCoding);
    let v = spec_allowed_tools(AgentPreset::Verify);
    assert forall|x: Seq<char>| w.to_set().contains(x) <==> r.to_set().insert("Write"@).contains(
        x,
    ) by {
        if w.contains(x) {
            let i = choose|i: int| 0 <= i < w.len() && w[i] == x;
            if i < 3 {
                assert(r[i] == x);
            }
        }
        if r.contains(x) {
            let i = choose|i: int| 0 <= i < r.len() && r[i] == x;
            assert(w[i] == x);
        }
        if x == "Write"@ {
            assert(w[3] == x);
        }
    }
    assert(w.to_set() =~= r.to_set().insert("Write"@));
    assert forall|x: Seq<char>| f.to_set().contains(x) <==> w.to_set().insert("Edit"@).insert(
        "Bash"@,
    ).contains(x) by {
        if f.contains(x) {
            let i = choose|i: int| 0 <= i < f.len() && f[i] == x;
            if i == 0 {
                assert(w[0] == x);
            } else if i == 1 {
                assert(w[3] == x);
            } else if i == 4 {
                assert(w[1] == x);
            } else if i == 5 {
                assert(w[2] == x);
            }
        }
        if w.contains(x) {
            let i = choose|i: int| 0 <= i < w.len() && w[i] == x;
            if i == 0 {
                assert(f[0] == x);
            } else if i == 1 {
                assert(f[4] == x);
            } else if i == 2 {
                assert(f[5] == x);
            } else {
                assert(f[1] == x);
            }
        }
        if x == "Edit"@ {
            assert(f[2] == x);
        }
        if x == "Bash"@ {
            assert(f[3] == x);
        }
    }
    assert(f.to_set() =~= w.to_set().insert("Edit"@).insert("Bash"@));
    assert forall|x: Seq<char>| v.to_set().contains(x) <==> r.to_set().insert("Bash"@).contains(
        x,
    ) by {
        if v.contains(x) {
            let i = choose|i: int| 0 <= i < v.len() && v[i] == x;
            if i < 3 {
                assert(r[i] == x);
            }
        }
        if r.contains(x) {
            let i = choose|i: int| 0 <= i < r.len() && r[i] == x;
            assert(v[i] == x);
        }
        if x == "Bash"@ {
            assert(v[3] == x);
        }
    }
    assert(v.to_set() =~= r.to_set().insert("Bash"@));
    let t = spec_allowed_tools(p);
    assert forall|i: int, j: int| 0 <= i < t.len() && 0 <= j < t.len() && i != j implies t[i]
        != t[j] by {
        match p {
            AgentPreset::ReadOnly => {},
            AgentPreset::WriteSpec => {},
            AgentPreset::FullCoding => {},
            AgentPreset::Verify => {},
        }
    }
}

} // verus!
