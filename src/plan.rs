//! The field, constructor and interface synthesisers.

use vstd::prelude::*;
use crate::config::{ResolvedConfig, depth_synthesized};
use crate::decls::{FieldDecl, FieldModel, field_models};

verus! {

/// A field of the generated type: its name, its type, and the initialiser that
/// the generic constructor gives it (none for the reader, which the caller hands in).
pub struct PlannedField {
    pub name: String,
    pub ty: String,
    pub init: Option<String>,
}

/// The mathematical value of a planned field.
pub struct PlannedModel {
    pub name: Seq<char>,
    pub ty: Seq<char>,
    pub init: Option<Seq<char>>,
}

impl View for PlannedField {
    type V = PlannedModel;

    open spec fn view(&self) -> PlannedModel {
        PlannedModel {
            name: self.name@,
            ty: self.ty@,
            init: match self.init {
                Some(s) => Some(s@),
                None => None,
            },
        }
    }
}

/// The capability interfaces that the generated type may implement.
#[derive(Clone, Copy, PartialEq, Eq, Structural, Debug)]
pub enum ImplKind {
    /// Mutable access to the stored reader.
    Reader,
    /// Seeking, for readers that seek.
    Seek,
    /// Byte reads, for readers that read.
    Read,
    /// Mutable access to the depth counter.
    Depth,
    /// Read access to the recorded path.
    Path,
    /// The library's default chunk traversal.
    Traversal,
}

/// The three constructors of the generated type.
#[derive(Clone, Copy, PartialEq, Eq, Structural, Debug)]
pub enum CtorKind {
    /// Takes an open reader.
    Generic,
    /// Takes an in-memory byte buffer.
    Buffer,
    /// Takes a file path.
    File,
}

/// Everything that the emitter needs besides the type's name.
pub struct SynthesisPlan {
    pub fields: Vec<PlannedField>,
    pub buffer_extras: Vec<String>,
    pub file_extras: Vec<String>,
    pub impls: Vec<ImplKind>,
}

/// The initialiser of a user field: its type's default value.
pub open spec fn default_init(ty: Seq<char>) -> Seq<char> {
    "<"@ + ty + ">::default()"@
}

/// A user field, carried over with its default initialiser.
pub open spec fn carried(f: FieldModel) -> PlannedModel {
    PlannedModel { name: f.name, ty: f.ty, init: Some(default_init(f.ty)) }
}

/// The reader field, whose type is the generic parameter.
pub open spec fn reader_field() -> PlannedModel {
    PlannedModel { name: "reader"@, ty: "R"@, init: None }
}

/// The depth counter, starting at zero.
pub open spec fn depth_field() -> PlannedModel {
    PlannedModel { name: "depth"@, ty: "u8"@, init: Some("0"@) }
}

/// The path field, first set from the reader's type name.
pub open spec fn path_field() -> PlannedModel {
    PlannedModel {
        name: "path"@,
        ty: "std::path::PathBuf"@,
        init: Some("std::any::type_name::<R>().into()"@),
    }
}

/// The fields of the generated type, in order: the user's own, the reader,
/// then depth and path where they are synthesised.
pub open spec fn planned_fields(c: ResolvedConfig, fields: Seq<FieldModel>) -> Seq<PlannedModel> {
    fields.map_values(|f: FieldModel| carried(f)) + seq![reader_field()] + (if depth_synthesized(c) {
        seq![depth_field()]
    } else {
        seq![]
    }) + (if c.path_requested {
        seq![path_field()]
    } else {
        seq![]
    })
}

/// The statement that marks a buffer-backed value as having no backing file.
pub open spec fn memory_path_stmt() -> Seq<char> {
    "new.path = \":memory:\".into();"@
}

/// The statement that records the path a file-backed value was opened from.
pub open spec fn file_path_stmt() -> Seq<char> {
    "new.path = file_path.into();"@
}

/// The extra statements that a constructor runs after the generic one.
pub open spec fn ctor_extras(c: ResolvedConfig, k: CtorKind) -> Seq<Seq<char>> {
    if c.path_requested {
        match k {
            CtorKind::Generic => seq![],
            CtorKind::Buffer => seq![memory_path_stmt()],
            CtorKind::File => seq![file_path_stmt()],
        }
    } else {
        seq![]
    }
}

/// The interface implementations, in emission order.
pub open spec fn planned_impls(c: ResolvedConfig) -> Seq<ImplKind> {
    seq![ImplKind::Reader, ImplKind::Seek, ImplKind::Read] + (if depth_synthesized(c) {
        seq![ImplKind::Depth]
    } else {
        seq![]
    }) + (if c.path_requested {
        seq![ImplKind::Path]
    } else {
        seq![]
    }) + (if !c.custom {
        seq![ImplKind::Traversal]
    } else {
        seq![]
    })
}

/// The planned fields as mathematical values.
pub open spec fn planned_models(fs: Seq<PlannedField>) -> Seq<PlannedModel> {
    fs.map_values(|f: PlannedField| f@)
}

/// A list of statements as character sequences.
pub open spec fn stmt_texts(v: Seq<String>) -> Seq<Seq<char>> {
    v.map_values(|s: String| s@)
}

impl SynthesisPlan {
    /// Whether this plan is the one synthesised for the configuration and fields.
    pub open spec fn is_plan_for(&self, c: ResolvedConfig, fields: Seq<FieldModel>) -> bool {
        &&& planned_models(self.fields@) == planned_fields(c, fields)
        &&& stmt_texts(self.buffer_extras@) == ctor_extras(c, CtorKind::Buffer)
        &&& stmt_texts(self.file_extras@) == ctor_extras(c, CtorKind::File)
        &&& self.impls@ == planned_impls(c)
    }
}

/// The initialiser text of a user field of type `ty`.
fn default_init_text(ty: &String) -> (r: String)
    ensures
        r@ == default_init(ty@),
{
    let mut s = String::from_str("<");
    s.append(ty.as_str());
    s.append(">::default()");
    s
}

/// Synthesises the field list: the user's fields, then the reader, then depth
/// and path where the configuration asks for them.
pub fn synthesize_fields(c: &ResolvedConfig, fields: &Vec<FieldDecl>) -> (r: Vec<PlannedField>)
    ensures
        planned_models(r@) == planned_fields(*c, field_models(fields@)),
{
    let ghost fm = field_models(fields@);
    let mut out: Vec<PlannedField> = Vec::new();
    let mut i: usize = 0;
    while i < fields.len()
        invariant
            i <= fields@.len(),
            fm == field_models(fields@),
            out@.len() == i,
            forall|j: int| 0 <= j < i ==> #[trigger] out@[j]@ == carried(fm[j]),
        decreases fields@.len() - i,
    {
        let f = &fields[i];
        let p = PlannedField {
            name: f.name.clone(),
            ty: f.ty.clone(),
            init: Some(default_init_text(&f.ty)),
        };
        out.push(p);
        i = i + 1;
    }
    let ghost user = out@;
    assert(planned_models(user) == fm.map_values(|f: FieldModel| carried(f)));
    out.push(PlannedField { name: String::from_str("reader"), ty: String::from_str("R"), init: None });
    let ghost with_reader = out@;
    if c.synthesizes_depth() {
        out.push(
            PlannedField {
                name: String::from_str("depth"),
                ty: String::from_str("u8"),
                init: Some(String::from_str("0")),
            },
        );
    }
    let ghost with_depth = out@;
    if c.path_requested {
        out.push(
            PlannedField {
                name: String::from_str("path"),
                ty: String::from_str("std::path::PathBuf"),
                init: Some(String::from_str("std::any::type_name::<R>().into()")),
            },
        );
    }
    assert(planned_models(with_reader) == planned_models(user) + seq![reader_field()]);
    assert(planned_models(with_depth) == planned_models(with_reader) + (if depth_synthesized(*c) {
        seq![depth_field()]
    } else {
        seq![]
    }));
    assert(planned_models(out@) == planned_models(with_depth) + (if c.path_requested {
        seq![path_field()]
    } else {
        seq![]
    }));
    out
}

/// The extra statements of the given constructor under the configuration.
pub fn synthesize_ctor_extras(c: &ResolvedConfig, k: CtorKind) -> (r: Vec<String>)
    ensures
        stmt_texts(r@) == ctor_extras(*c, k),
{
    let mut out: Vec<String> = Vec::new();
    if c.path_requested {
        match k {
            CtorKind::Generic => {},
            CtorKind::Buffer => out.push(String::from_str("new.path = \":memory:\".into();")),
            CtorKind::File => out.push(String::from_str("new.path = file_path.into();")),
        }
    }
    assert(stmt_texts(out@) == ctor_extras(*c, k));
    out
}

/// The interface implementations that the generated type receives: reader,
/// seek and byte-read always; depth and path where synthesised; the default
/// traversal unless the configuration is custom.
pub fn synthesize_impls(c: &ResolvedConfig) -> (r: Vec<ImplKind>)
    ensures
        r@ == planned_impls(*c),
{
    let mut out: Vec<ImplKind> = Vec::new();
    out.push(ImplKind::Reader);
    out.push(ImplKind::Seek);
    out.push(ImplKind::Read);
    let ghost base = out@;
    if c.synthesizes_depth() {
        out.push(ImplKind::Depth);
    }
    let ghost d = out@;
    if c.path_requested {
        out.push(ImplKind::Path);
    }
    let ghost p = out@;
    if !c.custom {
        out.push(ImplKind::Traversal);
    }
    assert(base == seq![ImplKind::Reader, ImplKind::Seek, ImplKind::Read]);
    assert(d == base + (if depth_synthesized(*c) { seq![ImplKind::Depth] } else { seq![] }));
    assert(p == d + (if c.path_requested { seq![ImplKind::Path] } else { seq![] }));
    assert(out@ == p + (if !c.custom { seq![ImplKind::Traversal] } else { seq![] }));
    out
}

/// Builds the whole synthesis plan for a configuration and the user's fields.
pub fn synthesize(c: &ResolvedConfig, fields: &Vec<FieldDecl>) -> (r: SynthesisPlan)
    ensures
        r.is_plan_for(*c, field_models(fields@)),
{
    SynthesisPlan {
        fields: synthesize_fields(c, fields),
        buffer_extras: synthesize_ctor_extras(c, CtorKind::Buffer),
        file_extras: synthesize_ctor_extras(c, CtorKind::File),
        impls: synthesize_impls(c),
    }
}

} // verus!
