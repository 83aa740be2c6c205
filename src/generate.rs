//! The whole generation pass, and the laws it obeys.

use vstd::prelude::*;
use crate::config::{
    GenError, all_accepted, depth_synthesized, flag_accepted, flag_texts, reports,
    reports_first_rejected, resolve_config,
};
use crate::decls::{FieldModel, TypeSkeleton, declares_depth, field_models, has_depth_field};
use crate::emit::{config_for, emit, generated_text};
use crate::plan::{
    CtorKind, ImplKind, PlannedModel, carried, ctor_extras, depth_field, file_path_stmt,
    memory_path_stmt, planned_fields, planned_impls, reader_field, synthesize,
};

verus! {

/// Generates the chunked-format parser type for a record declaration.
///
/// The flags are validated against the declaration; the first rejected flag
/// stops generation. Otherwise the result is the emitted source text: the
/// struct with the user's fields, the reader and the synthesised fields, its
/// three constructors, and its interface implementations.
pub fn chunk_parser(flags: &Vec<String>, decl: &TypeSkeleton) -> (r: Result<String, GenError>)
    ensures
        r is Ok <==> all_accepted(flag_texts(flags@), declares_depth(field_models(decl.fields@))),
        r matches Ok(s) ==> s@ == generated_text(
            flag_texts(flags@),
            decl.name@,
            field_models(decl.fields@),
        ),
        r matches Err(e) ==> reports_first_rejected(
            e,
            flag_texts(flags@),
            declares_depth(field_models(decl.fields@)),
        ),
{
    let has_depth = has_depth_field(&decl.fields);
    let c = match resolve_config(flags, has_depth) {
        Ok(c) => c,
        Err(e) => return Err(e),
    };
    let plan = synthesize(&c, &decl.fields);
    Ok(emit(&decl.name, &plan))
}

/// Whether no two names of the list are equal.
pub open spec fn names_distinct(ns: Seq<Seq<char>>) -> bool {
    forall|i: int, j: int| 0 <= i < j < ns.len() ==> ns[i] != ns[j]
}

/// The names of a list of planned fields.
pub open spec fn planned_names(fs: Seq<PlannedModel>) -> Seq<Seq<char>> {
    fs.map_values(|f: PlannedModel| f.name)
}

/// The names of the declared fields.
pub open spec fn declared_names(fields: Seq<FieldModel>) -> Seq<Seq<char>> {
    fields.map_values(|f: FieldModel| f.name)
}

proof fn lemma_distinct_push(ns: Seq<Seq<char>>, x: Seq<char>)
    requires
        names_distinct(ns),
        !ns.contains(x),
    ensures
        names_distinct(ns.push(x)),
{
    assert forall|i: int, j: int| 0 <= i < j < ns.push(x).len() implies ns.push(x)[i] != ns.push(
        x,
    )[j] by {
        if j == ns.len() {
            assert(ns[i] == ns.push(x)[i]);
        }
    }
}

/// The synthesised field list never names a field twice, and it has a `depth`
/// field exactly when the declaration has one, the `depth` flag is given, or
/// `custom` is not.
///
/// This holds for every accepted flag list and every declaration whose own
/// field names are distinct and do not take the names of the reader field or,
/// where path tracking is asked for, of the path field.
pub proof fn lemma_field_names_distinct(flags: Seq<Seq<char>>, fields: Seq<FieldModel>)
    requires
        all_accepted(flags, declares_depth(fields)),
        names_distinct(declared_names(fields)),
        !declared_names(fields).contains("reader"@),
        flags.contains("path"@) ==> !declared_names(fields).contains("path"@),
    ensures
        names_distinct(planned_names(planned_fields(config_for(flags, fields), fields))),
        planned_names(planned_fields(config_for(flags, fields), fields)).contains("depth"@) <==> (
        declares_depth(fields) || flags.contains("depth"@) || !flags.contains("custom"@)),
{
    reveal_strlit("reader");
    reveal_strlit("depth");
    reveal_strlit("path");
    assert("reader"@.len() != "depth"@.len() && "reader"@.len() != "path"@.len()
        && "depth"@.len() != "path"@.len());
    let c = config_for(flags, fields);
    let user = fields.map_values(|f: FieldModel| carried(f));
    let dn = declared_names(fields);
    assert(planned_names(user) == dn);
    let with_reader = user + seq![reader_field()];
    let with_depth = with_reader + (if depth_synthesized(c) {
        seq![depth_field()]
    } else {
        seq![]
    });
    let all = planned_fields(c, fields);
    assert(planned_names(with_reader) == dn.push("reader"@));
    lemma_distinct_push(dn, "reader"@);
    let rn = dn.push("reader"@);
    assert(dn.contains("depth"@) == declares_depth(fields)) by {
        if declares_depth(fields) {
            let i = choose|i: int| 0 <= i < fields.len() && #[trigger] fields[i].name == "depth"@;
            assert(dn[i] == "depth"@);
        }
        if dn.contains("depth"@) {
            let i = choose|i: int| 0 <= i < dn.len() && dn[i] == "depth"@;
            assert(fields[i].name == "depth"@);
        }
    }
    assert(rn.contains("depth"@) == dn.contains("depth"@)) by {
        if rn.contains("depth"@) {
            let i = choose|i: int| 0 <= i < rn.len() && rn[i] == "depth"@;
            if i == dn.len() {
                assert(rn[i] == "reader"@);
            }
            assert(dn[i] == "depth"@);
        }
        if dn.contains("depth"@) {
            let i = choose|i: int| 0 <= i < dn.len() && dn[i] == "depth"@;
            assert(rn[i] == "depth"@);
        }
    }
    let dpn = planned_names(with_depth);
    if depth_synthesized(c) {
        assert(dpn == rn.push("depth"@));
        lemma_distinct_push(rn, "depth"@);
        assert(dpn[rn.len() as int] == "depth"@);
    } else {
        assert(dpn == rn);
    }
    assert(dpn.contains("depth"@) <==> (declares_depth(fields) || depth_synthesized(c)));
    if c.path_requested {
        assert(planned_names(all) == dpn.push("path"@));
        assert(!dn.contains("path"@));
        assert(!dpn.contains("path"@)) by {
            if dpn.contains("path"@) {
                let i = choose|i: int| 0 <= i < dpn.len() && dpn[i] == "path"@;
                if i < dn.len() {
                    assert(dn[i] == "path"@);
                } else if i == dn.len() {
                    assert(dpn[i] == "reader"@);
                } else {
                    assert(dpn[i] == "depth"@);
                }
            }
        }
        lemma_distinct_push(dpn, "path"@);
        assert(planned_names(all).contains("depth"@) == dpn.contains("depth"@)) by {
            if planned_names(all).contains("depth"@) {
                let i = choose|i: int|
                    0 <= i < planned_names(all).len() && planned_names(all)[i] == "depth"@;
                assert(i < dpn.len());
                assert(dpn[i] == "depth"@);
            }
            if dpn.contains("depth"@) {
                let i = choose|i: int| 0 <= i < dpn.len() && dpn[i] == "depth"@;
                assert(planned_names(all)[i] == "depth"@);
            }
        }
    } else {
        assert(planned_names(all) == dpn);
    }
}

/// A flag outside `custom`, `depth` and `path` makes generation fail, and
/// where it is the first rejected flag the error holds that flag exactly.
pub proof fn lemma_unrecognized_flag_reported(flags: Seq<Seq<char>>, has_depth: bool, i: int)
    requires
        0 <= i < flags.len(),
        flags[i] != "custom"@ && flags[i] != "depth"@ && flags[i] != "path"@,
    ensures
        !all_accepted(flags, has_depth),
        (forall|j: int| 0 <= j < i ==> flag_accepted(#[trigger] flags[j], has_depth)) ==> (forall|
            e: GenError,
        |
            #[trigger] reports_first_rejected(e, flags, has_depth) ==> (e matches GenError::UnsupportedFlag(
                s,
            ) && s@ == flags[i])),
{
    assert(!flag_accepted(flags[i], has_depth));
    if forall|j: int| 0 <= j < i ==> flag_accepted(#[trigger] flags[j], has_depth) {
        assert forall|e: GenError| #[trigger] reports_first_rejected(e, flags, has_depth) implies (
        e matches GenError::UnsupportedFlag(s) && s@ == flags[i]) by {
            let k = choose|k: int|
                0 <= k < flags.len() && !flag_accepted(#[trigger] flags[k], has_depth) && (forall|
                    j: int,
                | 0 <= j < k ==> flag_accepted(#[trigger] flags[j], has_depth)) && reports(e, flags[k]);
            if k < i {
                assert(flag_accepted(flags[k], has_depth));
            }
            if k > i {
                assert(flag_accepted(flags[i], has_depth));
            }
        }
    }
}

/// When the declaration already has a `depth` field, the `depth` flag makes
/// generation fail.
pub proof fn lemma_depth_flag_rejected_when_declared(flags: Seq<Seq<char>>, fields: Seq<FieldModel>)
    requires
        declares_depth(fields),
        flags.contains("depth"@),
    ensures
        !all_accepted(flags, declares_depth(fields)),
{
    reveal_strlit("custom");
    reveal_strlit("depth");
    reveal_strlit("path");
    assert("depth"@.len() != "custom"@.len() && "depth"@.len() != "path"@.len());
    let i = choose|i: int| 0 <= i < flags.len() && flags[i] == "depth"@;
    assert(!flag_accepted(flags[i], true));
}

/// Generation is a function of its inputs: the same flags and the same
/// declaration give the same output text.
pub proof fn lemma_generation_deterministic(
    flags1: Seq<Seq<char>>,
    flags2: Seq<Seq<char>>,
    name1: Seq<char>,
    name2: Seq<char>,
    fields1: Seq<FieldModel>,
    fields2: Seq<FieldModel>,
)
    requires
        flags1 == flags2,
        name1 == name2,
        fields1 == fields2,
    ensures
        all_accepted(flags1, declares_depth(fields1)) == all_accepted(flags2, declares_depth(fields2)),
        generated_text(flags1, name1, fields1) == generated_text(flags2, name2, fields2),
{
}

/// The order of the flags and their repetition make no difference: two flag
/// lists that hold the same flags are accepted alike and generate the same text.
pub proof fn lemma_flag_order_irrelevant(
    flags1: Seq<Seq<char>>,
    flags2: Seq<Seq<char>>,
    name: Seq<char>,
    fields: Seq<FieldModel>,
)
    requires
        forall|t: Seq<char>| flags1.contains(t) == flags2.contains(t),
    ensures
        all_accepted(flags1, declares_depth(fields)) == all_accepted(flags2, declares_depth(fields)),
        generated_text(flags1, name, fields) == generated_text(flags2, name, fields),
{
    let hd = declares_depth(fields);
    assert(flags1.contains("custom"@) == flags2.contains("custom"@));
    assert(flags1.contains("depth"@) == flags2.contains("depth"@));
    assert(flags1.contains("path"@) == flags2.contains("path"@));
    assert(config_for(flags1, fields) == config_for(flags2, fields));
    if all_accepted(flags1, hd) {
        assert forall|i: int| 0 <= i < flags2.len() implies flag_accepted(#[trigger] flags2[i], hd) by {
            assert(flags2.contains(flags2[i]));
            assert(flags1.contains(flags2[i]));
        }
    }
    if all_accepted(flags2, hd) {
        assert forall|i: int| 0 <= i < flags1.len() implies flag_accepted(#[trigger] flags1[i], hd) by {
            assert(flags1.contains(flags1[i]));
            assert(flags2.contains(flags1[i]));
        }
    }
}

/// With path tracking, the buffer constructor sets the path to the in-memory
/// marker, the file constructor sets it to the path it was given, and the
/// generic constructor adds nothing.
pub proof fn lemma_path_constructors(flags: Seq<Seq<char>>, fields: Seq<FieldModel>)
    requires
        flags.contains("path"@),
    ensures
        ctor_extras(config_for(flags, fields), CtorKind::Buffer) == seq![memory_path_stmt()],
        ctor_extras(config_for(flags, fields), CtorKind::File) == seq![file_path_stmt()],
        ctor_extras(config_for(flags, fields), CtorKind::Generic) == Seq::<Seq<char>>::empty(),
{
}

/// With `custom`, the default traversal implementation is not emitted.
pub proof fn lemma_custom_omits_traversal(flags: Seq<Seq<char>>, fields: Seq<FieldModel>)
    requires
        flags.contains("custom"@),
    ensures
        !planned_impls(config_for(flags, fields)).contains(ImplKind::Traversal),
{
    let ks = planned_impls(config_for(flags, fields));
    if ks.contains(ImplKind::Traversal) {
        let i = choose|i: int| 0 <= i < ks.len() && ks[i] == ImplKind::Traversal;
        assert(false);
    }
}

} // verus!
