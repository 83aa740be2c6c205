//! The emitter: the generated type, its constructors and its implementations as source text.

use vstd::prelude::*;
use crate::config::{ResolvedConfig, resolved};
use crate::decls::{FieldModel, declares_depth};
use crate::plan::{
    CtorKind, ImplKind, PlannedField, PlannedModel, SynthesisPlan, ctor_extras, planned_fields,
    planned_impls, planned_models, stmt_texts,
};

verus! {

/// The field declarations of the struct body, each `name: type, `.
pub open spec fn field_decls_text(fs: Seq<PlannedModel>) -> Seq<char>
    decreases fs.len(),
{
    if fs.len() == 0 {
        seq![]
    } else {
        field_decls_text(fs.drop_last()) + fs.last().name + ": "@ + fs.last().ty + ", "@
    }
}

/// The initialisers of the generic constructor, each `name: value, `, for the
/// fields that have one.
pub open spec fn inits_text(fs: Seq<PlannedModel>) -> Seq<char>
    decreases fs.len(),
{
    if fs.len() == 0 {
        seq![]
    } else {
        inits_text(fs.drop_last()) + match fs.last().init {
            Some(v) => fs.last().name + ": "@ + v + ", "@,
            None => seq![],
        }
    }
}

/// A constructor's extra statements, each followed by a space.
pub open spec fn stmts_text(ss: Seq<Seq<char>>) -> Seq<char>
    decreases ss.len(),
{
    if ss.len() == 0 {
        seq![]
    } else {
        stmts_text(ss.drop_last()) + ss.last() + " "@
    }
}

/// The struct definition.
pub open spec fn struct_text(name: Seq<char>, fs: Seq<PlannedModel>) -> Seq<char> {
    "pub struct "@ + name + "<R> { "@ + field_decls_text(fs) + "}\n"@
}

/// The generic constructor, which takes an open reader.
pub open spec fn generic_ctor_text(name: Seq<char>, fs: Seq<PlannedModel>) -> Seq<char> {
    "impl<R: std::io::Read> "@ + name + "<R> { #[inline] pub fn new(reader: R) -> Self { Self { reader, "@
        + inits_text(fs) + "} } }\n"@
}

/// The buffer constructor, which reads from memory.
pub open spec fn buffer_ctor_text(name: Seq<char>, extras: Seq<Seq<char>>) -> Seq<char> {
    "impl "@ + name + BUFFER_CTOR_HEAD@ + stmts_text(extras) + "new } }\n"@
}

/// The file constructor, which opens the given path.
pub open spec fn file_ctor_text(name: Seq<char>, extras: Seq<Seq<char>>) -> Seq<char> {
    "impl "@ + name + FILE_CTOR_HEAD@ + stmts_text(extras) + "Ok(new) } }\n"@
}

/// What stands before and after the type's name in an implementation.
pub open spec fn impl_parts(k: ImplKind) -> (Seq<char>, Seq<char>) {
    match k {
        ImplKind::Reader => (
            "impl<R> ParserReader<R> for "@,
            "<R> { #[inline] fn reader(&mut self) -> &mut R { &mut self.reader } }\n"@,
        ),
        ImplKind::Seek => ("impl<R: std::io::Seek> ParserSeek<R> for "@, "<R> {}\n"@),
        ImplKind::Read => ("impl<R: std::io::Read> ParserRead<R> for "@, "<R> {}\n"@),
        ImplKind::Depth => (
            "impl<R> ParserDepth for "@,
            "<R> { #[inline] fn inner_depth(&mut self) -> &mut u8 { &mut self.depth } }\n"@,
        ),
        ImplKind::Path => (
            "impl<R> ParserPath for "@,
            "<R> { #[inline] fn path(&self) -> &std::path::PathBuf { &self.path } }\n"@,
        ),
        ImplKind::Traversal => (
            "impl<R: std::io::Read + std::io::Seek> ChunkParser<R> for "@,
            "<R> {}\n"@,
        ),
    }
}

/// One implementation for the named type.
pub open spec fn impl_text(k: ImplKind, name: Seq<char>) -> Seq<char> {
    impl_parts(k).0 + name + impl_parts(k).1
}

/// The implementations, in order.
pub open spec fn impls_text(ks: Seq<ImplKind>, name: Seq<char>) -> Seq<char>
    decreases ks.len(),
{
    if ks.len() == 0 {
        seq![]
    } else {
        impls_text(ks.drop_last(), name) + impl_text(ks.last(), name)
    }
}

/// The whole emitted unit: struct, the three constructors, then the implementations.
pub open spec fn emitted_text(
    name: Seq<char>,
    fs: Seq<PlannedModel>,
    buffer: Seq<Seq<char>>,
    file: Seq<Seq<char>>,
    impls: Seq<ImplKind>,
) -> Seq<char> {
    struct_text(name, fs) + generic_ctor_text(name, fs) + buffer_ctor_text(name, buffer)
        + file_ctor_text(name, file) + impls_text(impls, name)
}

/// The configuration that the flags give for the declared fields.
pub open spec fn config_for(flags: Seq<Seq<char>>, fields: Seq<FieldModel>) -> ResolvedConfig {
    resolved(flags, declares_depth(fields))
}

/// The text generated for accepted flags and a declaration.
pub open spec fn generated_text(flags: Seq<Seq<char>>, name: Seq<char>, fields: Seq<FieldModel>) -> Seq<char> {
    let c = config_for(flags, fields);
    emitted_text(
        name,
        planned_fields(c, fields),
        ctor_extras(c, CtorKind::Buffer),
        ctor_extras(c, CtorKind::File),
        planned_impls(c),
    )
}

/// The buffer constructor's text between the type's name and its extra statements.
pub const BUFFER_CTOR_HEAD: &'static str = "<std::io::Cursor<&[u8]>> { #[inline] pub fn cursor(buffer: &'static [u8]) -> Self { let mut new = Self::new(std::io::Cursor::new(buffer)); ";

/// The file constructor's text between the type's name and its extra statements.
pub const FILE_CTOR_HEAD: &'static str = "<std::io::BufReader<std::fs::File>> { #[inline] pub fn file(file_path: &str) -> chunk_parser::Result<Self> { let file = std::fs::File::open(file_path)?; let mut new = Self::new(std::io::BufReader::new(file)); ";

/// Appends `pre`, the name and `post` to `out`.
fn push_around(out: &mut String, pre: &str, name: &String, post: &str)
    ensures
        final(out)@ == old(out)@ + pre@ + name@ + post@,
{
    out.append(pre);
    out.append(name.as_str());
    out.append(post);
}

fn emit_field_decls(out: &mut String, fs: &Vec<PlannedField>)
    ensures
        final(out)@ == old(out)@ + field_decls_text(planned_models(fs@)),
{
    let ghost start = out@;
    let ghost ms = planned_models(fs@);
    let mut i: usize = 0;
    while i < fs.len()
        invariant
            i <= fs@.len(),
            ms == planned_models(fs@),
            out@ == start + field_decls_text(ms.subrange(0, i as int)),
        decreases fs@.len() - i,
    {
        let f = &fs[i];
        assert(ms.subrange(0, i + 1).drop_last() == ms.subrange(0, i as int));
        assert(ms.subrange(0, i + 1).last() == f@);
        out.append(f.name.as_str());
        out.append(": ");
        out.append(f.ty.as_str());
        out.append(", ");
        i = i + 1;
    }
    assert(ms.subrange(0, i as int) == ms);
}

fn emit_inits(out: &mut String, fs: &Vec<PlannedField>)
    ensures
        final(out)@ == old(out)@ + inits_text(planned_models(fs@)),
{
    let ghost start = out@;
    let ghost ms = planned_models(fs@);
    let mut i: usize = 0;
    while i < fs.len()
        invariant
            i <= fs@.len(),
            ms == planned_models(fs@),
            out@ == start + inits_text(ms.subrange(0, i as int)),
        decreases fs@.len() - i,
    {
        let f = &fs[i];
        assert(ms.subrange(0, i + 1).drop_last() == ms.subrange(0, i as int));
        assert(ms.subrange(0, i + 1).last() == f@);
        match &f.init {
            Some(v) => {
                out.append(f.name.as_str());
                out.append(": ");
                out.append(v.as_str());
                out.append(", ");
            },
            None => {},
        }
        i = i + 1;
    }
    assert(ms.subrange(0, i as int) == ms);
}

fn emit_stmts(out: &mut String, ss: &Vec<String>)
    ensures
        final(out)@ == old(out)@ + stmts_text(stmt_texts(ss@)),
{
    let ghost start = out@;
    let ghost ts = stmt_texts(ss@);
    let mut i: usize = 0;
    while i < ss.len()
        invariant
            i <= ss@.len(),
            ts == stmt_texts(ss@),
            out@ == start + stmts_text(ts.subrange(0, i as int)),
        decreases ss@.len() - i,
    {
        assert(ts.subrange(0, i + 1).drop_last() == ts.subrange(0, i as int));
        assert(ts.subrange(0, i + 1).last() == ss@[i as int]@);
        out.append(ss[i].as_str());
        out.append(" ");
        i = i + 1;
    }
    assert(ts.subrange(0, i as int) == ts);
}

/// Appends one implementation for the named type.
fn emit_impl(out: &mut String, k: ImplKind, name: &String)
    ensures
        final(out)@ == old(out)@ + impl_text(k, name@),
{
    match k {
        ImplKind::Reader => push_around(
            out,
            "impl<R> ParserReader<R> for ",
            name,
            "<R> { #[inline] fn reader(&mut self) -> &mut R { &mut self.reader } }\n",
        ),
        ImplKind::Seek => push_around(out, "impl<R: std::io::Seek> ParserSeek<R> for ", name, "<R> {}\n"),
        ImplKind::Read => push_around(out, "impl<R: std::io::Read> ParserRead<R> for ", name, "<R> {}\n"),
        ImplKind::Depth => push_around(
            out,
            "impl<R> ParserDepth for ",
            name,
            "<R> { #[inline] fn inner_depth(&mut self) -> &mut u8 { &mut self.depth } }\n",
        ),
        ImplKind::Path => push_around(
            out,
            "impl<R> ParserPath for ",
            name,
            "<R> { #[inline] fn path(&self) -> &std::path::PathBuf { &self.path } }\n",
        ),
        ImplKind::Traversal => push_around(
            out,
            "impl<R: std::io::Read + std::io::Seek> ChunkParser<R> for ",
            name,
            "<R> {}\n",
        ),
    }
}

fn emit_impls(out: &mut String, ks: &Vec<ImplKind>, name: &String)
    ensures
        final(out)@ == old(out)@ + impls_text(ks@, name@),
{
    let ghost start = out@;
    let mut i: usize = 0;
    while i < ks.len()
        invariant
            i <= ks@.len(),
            out@ == start + impls_text(ks@.subrange(0, i as int), name@),
        decreases ks@.len() - i,
    {
        assert(ks@.subrange(0, i + 1).drop_last() == ks@.subrange(0, i as int));
        assert(ks@.subrange(0, i + 1).last() == ks@[i as int]);
        emit_impl(out, ks[i], name);
        i = i + 1;
    }
    assert(ks@.subrange(0, i as int) == ks@);
}

/// Emits the generated unit for the named type from its synthesis plan.
pub fn emit(name: &String, plan: &SynthesisPlan) -> (r: String)
    ensures
        r@ == emitted_text(
            name@,
            planned_models(plan.fields@),
            stmt_texts(plan.buffer_extras@),
            stmt_texts(plan.file_extras@),
            plan.impls@,
        ),
{
    let mut out = String::new();
    push_around(&mut out, "pub struct ", name, "<R> { ");
    emit_field_decls(&mut out, &plan.fields);
    out.append("}\n");
    push_around(
        &mut out,
        "impl<R: std::io::Read> ",
        name,
        "<R> { #[inline] pub fn new(reader: R) -> Self { Self { reader, ",
    );
    emit_inits(&mut out, &plan.fields);
    out.append("} } }\n");
    push_around(&mut out, "impl ", name, BUFFER_CTOR_HEAD);
    emit_stmts(&mut out, &plan.buffer_extras);
    out.append("new } }\n");
    push_around(&mut out, "impl ", name, FILE_CTOR_HEAD);
    emit_stmts(&mut out, &plan.file_extras);
    out.append("Ok(new) } }\n");
    emit_impls(&mut out, &plan.impls, name);
    out
}

} // verus!
