//! The configuration resolver: from the flag list to a validated configuration.

use vstd::prelude::*;
use crate::decls::text_is;

verus! {

/// The validated configuration that every later decision reads.
#[derive(Clone, Copy, PartialEq, Eq, Structural, Debug)]
pub struct ResolvedConfig {
    /// The user supplies the traversal behaviour; no default one is generated.
    pub custom: bool,
    /// Depth tracking was asked for explicitly.
    pub depth_requested: bool,
    /// Path tracking was asked for.
    pub path_requested: bool,
    /// The declaration already has a field named `depth`.
    pub has_depth_field: bool,
}

/// A configuration error: generation stops and nothing is emitted.
#[derive(Debug)]
pub enum GenError {
    /// A flag outside `custom`, `depth` and `path`; it holds the flag as written.
    UnsupportedFlag(String),
    /// The `depth` flag, given for a declaration that already has a `depth` field.
    DepthAlreadyDeclared,
}

/// The flag list as character sequences.
pub open spec fn flag_texts(flags: Seq<String>) -> Seq<Seq<char>> {
    flags.map_values(|s: String| s@)
}

/// Whether a single flag is accepted, given whether a `depth` field already exists.
pub open spec fn flag_accepted(t: Seq<char>, has_depth: bool) -> bool {
    t == "custom"@ || t == "path"@ || (t == "depth"@ && !has_depth)
}

/// Whether every flag of the list is accepted.
pub open spec fn all_accepted(flags: Seq<Seq<char>>, has_depth: bool) -> bool {
    forall|i: int| 0 <= i < flags.len() ==> flag_accepted(#[trigger] flags[i], has_depth)
}

/// The configuration that an accepted flag list resolves to.
pub open spec fn resolved(flags: Seq<Seq<char>>, has_depth: bool) -> ResolvedConfig {
    ResolvedConfig {
        custom: flags.contains("custom"@),
        depth_requested: flags.contains("depth"@),
        path_requested: flags.contains("path"@),
        has_depth_field: has_depth,
    }
}

/// Whether `e` is the error reported for the rejected flag `t`.
pub open spec fn reports(e: GenError, t: Seq<char>) -> bool {
    match e {
        GenError::UnsupportedFlag(s) => s@ == t && t != "depth"@,
        GenError::DepthAlreadyDeclared => t == "depth"@,
    }
}

/// Whether `e` reports the first rejected flag of the list.
pub open spec fn reports_first_rejected(e: GenError, flags: Seq<Seq<char>>, has_depth: bool) -> bool {
    exists|i: int|
        0 <= i < flags.len() && !flag_accepted(#[trigger] flags[i], has_depth) && (forall|j: int|
            0 <= j < i ==> flag_accepted(#[trigger] flags[j], has_depth)) && reports(e, flags[i])
}

/// Whether depth tracking is synthesised under the configuration.
pub open spec fn depth_synthesized(c: ResolvedConfig) -> bool {
    (c.depth_requested || !c.custom) && !c.has_depth_field
}

impl ResolvedConfig {
    /// Whether a `depth` field and the depth-tracking implementation are added.
    pub fn synthesizes_depth(&self) -> (r: bool)
        ensures
            r == depth_synthesized(*self),
    {
        (self.depth_requested || !self.custom) && !self.has_depth_field
    }
}

impl GenError {
    /// The diagnostic shown to the user; it names the rejected flag.
    pub fn message(&self) -> (r: String)
        ensures
            r@ == match self {
                GenError::UnsupportedFlag(s) => "unsupported attribute `"@ + s@ + "`"@,
                GenError::DepthAlreadyDeclared => "unsupported attribute `depth`: the struct already declares a `depth` field"@,
            },
    {
        match self {
            GenError::UnsupportedFlag(s) => {
                let mut m = String::from_str("unsupported attribute `");
                m.append(s.as_str());
                m.append("`");
                m
            },
            GenError::DepthAlreadyDeclared => String::from_str(
                "unsupported attribute `depth`: the struct already declares a `depth` field",
            ),
        }
    }
}

proof fn lemma_push_contains(s: Seq<Seq<char>>, x: Seq<char>, y: Seq<char>)
    ensures
        s.push(x).contains(y) == (s.contains(y) || x == y),
{
    if s.contains(y) {
        let j = choose|j: int| 0 <= j < s.len() && s[j] == y;
        assert(s.push(x)[j] == y);
    }
    if x == y {
        assert(s.push(x)[s.len() as int] == y);
    }
    if s.push(x).contains(y) {
        let k = choose|k: int| 0 <= k < s.push(x).len() && s.push(x)[k] == y;
        if k < s.len() {
            assert(s[k] == y);
        }
    }
}

/// Validates the flag list and resolves it into a configuration.
///
/// Each flag must be `custom`, `path`, or `depth` where the declaration has no
/// `depth` field of its own. The first flag that is not is reported; otherwise
/// each setting is on exactly when its flag occurs. Order and repetition of
/// flags make no difference.
pub fn resolve_config(flags: &Vec<String>, has_depth_field: bool) -> (r: Result<
    ResolvedConfig,
    GenError,
>)
    ensures
        r is Ok <==> all_accepted(flag_texts(flags@), has_depth_field),
        r matches Ok(c) ==> c == resolved(flag_texts(flags@), has_depth_field),
        r matches Err(e) ==> reports_first_rejected(e, flag_texts(flags@), has_depth_field),
{
    let ghost ts = flag_texts(flags@);
    let mut custom = false;
    let mut depth = false;
    let mut path = false;
    let mut i: usize = 0;
    while i < flags.len()
        invariant
            i <= flags@.len(),
            ts == flag_texts(flags@),
            forall|j: int| 0 <= j < i ==> flag_accepted(#[trigger] ts[j], has_depth_field),
            custom == ts.subrange(0, i as int).contains("custom"@),
            depth == ts.subrange(0, i as int).contains("depth"@),
            path == ts.subrange(0, i as int).contains("path"@),
        decreases flags@.len() - i,
    {
        let f = &flags[i];
        assert(ts[i as int] == f@);
        assert(ts.subrange(0, i + 1) == ts.subrange(0, i as int).push(f@));
        proof {
            lemma_push_contains(ts.subrange(0, i as int), f@, "custom"@);
            lemma_push_contains(ts.subrange(0, i as int), f@, "depth"@);
            lemma_push_contains(ts.subrange(0, i as int), f@, "path"@);
        }
        if text_is(f, "custom") {
            custom = true;
        } else if !has_depth_field && text_is(f, "depth") {
            depth = true;
        } else if text_is(f, "path") {
            path = true;
        } else {
            proof {
                reveal_strlit("depth");
                reveal_strlit("path");
                reveal_strlit("custom");
            }
            let e = if text_is(f, "depth") {
                GenError::DepthAlreadyDeclared
            } else {
                GenError::UnsupportedFlag(f.clone())
            };
            assert(reports(e, ts[i as int]));
            return Err(e);
        }
        proof {
            reveal_strlit("depth");
            reveal_strlit("path");
            reveal_strlit("custom");
        }
        i = i + 1;
    }
    assert(ts.subrange(0, i as int) == ts);
    Ok(ResolvedConfig { custom, depth_requested: depth, path_requested: path, has_depth_field })
}

} // verus!
