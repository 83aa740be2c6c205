use chunk_parser_gen::{
    chunk_parser, has_depth_field, resolve_config, synthesize, CtorKind, FieldDecl, GenError,
    ImplKind, ResolvedConfig, TypeSkeleton,
};
use chunk_parser_gen::plan::{synthesize_ctor_extras, synthesize_fields, synthesize_impls};

fn field(name: &str, ty: &str) -> FieldDecl {
    FieldDecl { name: name.to_string(), ty: ty.to_string() }
}

fn skeleton(name: &str, fields: Vec<FieldDecl>) -> TypeSkeleton {
    TypeSkeleton { name: name.to_string(), fields }
}

fn flags(fs: &[&str]) -> Vec<String> {
    fs.iter().map(|f| f.to_string()).collect()
}

fn field_names(decl: &TypeSkeleton, fs: &[&str]) -> Vec<String> {
    let c = resolve_config(&flags(fs), has_depth_field(&decl.fields)).unwrap();
    synthesize_fields(&c, &decl.fields).into_iter().map(|f| f.name).collect()
}

fn config(custom: bool, depth: bool, path: bool, has_depth: bool) -> ResolvedConfig {
    ResolvedConfig {
        custom,
        depth_requested: depth,
        path_requested: path,
        has_depth_field: has_depth,
    }
}

#[test]
fn name_text_with_depth_and_path() {
    let decl = skeleton("Foo", vec![field("name", "Text")]);
    assert_eq!(field_names(&decl, &["depth", "path"]), vec!["name", "reader", "depth", "path"]);
    let out = chunk_parser(&flags(&["depth", "path"]), &decl).unwrap();
    assert!(out.starts_with(
        "pub struct Foo<R> { name: Text, reader: R, depth: u8, path: std::path::PathBuf, }\n"
    ));
    assert!(out.contains("pub fn new(reader: R) -> Self"));
    assert!(out.contains("pub fn cursor(buffer: &'static [u8]) -> Self"));
    assert!(out.contains("pub fn file(file_path: &str)"));
    assert!(out.contains("impl<R> ParserReader<R> for Foo<R>"));
    assert!(out.contains("impl<R: std::io::Seek> ParserSeek<R> for Foo<R> {}"));
    assert!(out.contains("impl<R: std::io::Read> ParserRead<R> for Foo<R> {}"));
    assert!(out.contains("impl<R> ParserDepth for Foo<R>"));
    assert!(out.contains("impl<R> ParserPath for Foo<R>"));
    assert!(out.contains("impl<R: std::io::Read + std::io::Seek> ChunkParser<R> for Foo<R> {}"));
    assert_eq!(out.matches("impl").count(), 9);
}

#[test]
fn field_lists_of_each_flag_combination() {
    let decl = skeleton("P", vec![field("name", "Text")]);
    let cases: Vec<(&[&str], Vec<&str>)> = vec![
        (&[], vec!["name", "reader", "depth"]),
        (&["custom"], vec!["name", "reader"]),
        (&["depth"], vec!["name", "reader", "depth"]),
        (&["path"], vec!["name", "reader", "depth", "path"]),
        (&["custom", "path"], vec!["name", "reader", "path"]),
        (&["depth", "path"], vec!["name", "reader", "depth", "path"]),
        (&["custom", "depth"], vec!["name", "reader", "depth"]),
    ];
    for (fs, expected) in cases {
        let names = field_names(&decl, fs);
        assert_eq!(names, expected, "flags {:?}", fs);
        let mut sorted = names.clone();
        sorted.sort();
        sorted.dedup();
        assert_eq!(sorted.len(), names.len());
    }
}

#[test]
fn declared_depth_field_is_not_duplicated() {
    let decl = skeleton("P", vec![field("depth", "u8"), field("x", "u32")]);
    assert!(has_depth_field(&decl.fields));
    assert_eq!(field_names(&decl, &[]), vec!["depth", "x", "reader"]);
    assert_eq!(field_names(&decl, &["path"]), vec!["depth", "x", "reader", "path"]);
    let out = chunk_parser(&flags(&[]), &decl).unwrap();
    assert_eq!(out.matches("depth:").count(), 2); // declaration and initialiser
    assert!(!out.contains("ParserDepth"));
}

#[test]
fn depth_flag_rejected_when_field_declared() {
    let decl = skeleton("P", vec![field("depth", "i32")]);
    let r = chunk_parser(&flags(&["path", "depth"]), &decl);
    assert!(matches!(r, Err(GenError::DepthAlreadyDeclared)));
    assert_eq!(
        GenError::DepthAlreadyDeclared.message(),
        "unsupported attribute `depth`: the struct already declares a `depth` field"
    );
}

#[test]
fn unrecognized_flags_are_named() {
    let decl = skeleton("P", vec![]);
    for bad in ["bogus", "Custom", "paths", "dep th", ""] {
        let r = chunk_parser(&flags(&["custom", bad, "other"]), &decl);
        match r {
            Err(GenError::UnsupportedFlag(t)) => {
                assert_eq!(t, bad);
                let e = GenError::UnsupportedFlag(t);
                assert_eq!(e.message(), format!("unsupported attribute `{}`", bad));
            }
            other => panic!("expected an unsupported flag, got {:?}", other),
        }
    }
}

#[test]
fn generation_is_repeatable() {
    let decl = skeleton("Riff", vec![field("size", "u32"), field("tag", "String")]);
    let a = chunk_parser(&flags(&["path"]), &decl).unwrap();
    let b = chunk_parser(&flags(&["path"]), &decl).unwrap();
    assert_eq!(a, b);
}

#[test]
fn flag_order_and_repetition_are_irrelevant() {
    let decl = skeleton("Riff", vec![field("size", "u32")]);
    let a = chunk_parser(&flags(&["depth", "path", "custom"]), &decl).unwrap();
    let b = chunk_parser(&flags(&["custom", "path", "depth", "path", "custom"]), &decl).unwrap();
    assert_eq!(a, b);
}

#[test]
fn path_constructors_set_path() {
    let decl = skeleton("P", vec![]);
    let out = chunk_parser(&flags(&["path"]), &decl).unwrap();
    assert!(out.contains(
        "let mut new = Self::new(std::io::Cursor::new(buffer)); new.path = \":memory:\".into(); new } }"
    ));
    assert!(out.contains(
        "let mut new = Self::new(std::io::BufReader::new(file)); new.path = file_path.into(); Ok(new) } }"
    ));
    assert!(out.contains("path: std::any::type_name::<R>().into(), } } }"));
    let c = config(false, false, true, false);
    assert!(synthesize_ctor_extras(&c, CtorKind::Generic).is_empty());
    assert_eq!(synthesize_ctor_extras(&c, CtorKind::Buffer), vec!["new.path = \":memory:\".into();"]);
    assert_eq!(synthesize_ctor_extras(&c, CtorKind::File), vec!["new.path = file_path.into();"]);
    let plain = config(false, false, false, false);
    assert!(synthesize_ctor_extras(&plain, CtorKind::Buffer).is_empty());
}

#[test]
fn custom_omits_default_traversal() {
    let decl = skeleton("P", vec![field("a", "u8")]);
    let out = chunk_parser(&flags(&["custom"]), &decl).unwrap();
    assert!(!out.contains("ChunkParser"));
    assert!(!out.contains("ParserDepth"));
    let out = chunk_parser(&flags(&["custom", "depth"]), &decl).unwrap();
    assert!(!out.contains("ChunkParser"));
    assert!(out.contains("impl<R> ParserDepth for P<R>"));
}

#[test]
fn exact_output_of_custom_empty_record() {
    let decl = skeleton("Empty", vec![]);
    let out = chunk_parser(&flags(&["custom"]), &decl).unwrap();
    let expected: String = [
        "pub struct Empty<R> { reader: R, }\n",
        "impl<R: std::io::Read> Empty<R> { #[inline] pub fn new(reader: R) -> Self { Self { reader, } } }\n",
        "impl Empty<std::io::Cursor<&[u8]>> { #[inline] pub fn cursor(buffer: &'static [u8]) -> Self { let mut new = Self::new(std::io::Cursor::new(buffer)); new } }\n",
        "impl Empty<std::io::BufReader<std::fs::File>> { #[inline] pub fn file(file_path: &str) -> chunk_parser::Result<Self> { let file = std::fs::File::open(file_path)?; let mut new = Self::new(std::io::BufReader::new(file)); Ok(new) } }\n",
        "impl<R> ParserReader<R> for Empty<R> { #[inline] fn reader(&mut self) -> &mut R { &mut self.reader } }\n",
        "impl<R: std::io::Seek> ParserSeek<R> for Empty<R> {}\n",
        "impl<R: std::io::Read> ParserRead<R> for Empty<R> {}\n",
    ]
    .concat();
    assert_eq!(out, expected);
}

#[test]
fn user_fields_get_default_initialisers() {
    let decl = skeleton("P", vec![field("items", "Vec<u8>"), field("n", "u64")]);
    let out = chunk_parser(&flags(&[]), &decl).unwrap();
    assert!(out.contains(
        "Self { reader, items: <Vec<u8>>::default(), n: <u64>::default(), depth: 0, } } }"
    ));
}

#[test]
fn output_is_valid_rust() {
    let decl = skeleton("Wav", vec![field("name", "String"), field("items", "Vec<u8>")]);
    for fs in [&[][..], &["custom"], &["depth", "path"], &["custom", "path"]] {
        let out = chunk_parser(&flags(fs), &decl).unwrap();
        assert!(syn::parse_file(&out).is_ok(), "{}", out);
    }
}

#[test]
fn resolve_config_values() {
    let c = resolve_config(&flags(&["path", "custom"]), false).unwrap();
    assert_eq!(c, config(true, false, true, false));
    assert!(!c.synthesizes_depth());
    let c = resolve_config(&flags(&[]), true).unwrap();
    assert_eq!(c, config(false, false, false, true));
    assert!(!c.synthesizes_depth());
    let c = resolve_config(&flags(&["depth", "custom"]), false).unwrap();
    assert!(c.synthesizes_depth());
    assert!(config(false, false, false, false).synthesizes_depth());
}

#[test]
fn impl_lists() {
    assert_eq!(synthesize_impls(&config(false, false, false, false)), vec![ImplKind::Reader, ImplKind::Seek, ImplKind::Read, ImplKind::Depth, ImplKind::Traversal]);
    assert_eq!(synthesize_impls(&config(true, false, true, false)), vec![ImplKind::Reader, ImplKind::Seek, ImplKind::Read, ImplKind::Path]);
    assert_eq!(synthesize_impls(&config(false, true, true, true)), vec![ImplKind::Reader, ImplKind::Seek, ImplKind::Read, ImplKind::Path, ImplKind::Traversal]);
    let plan = synthesize(&config(true, true, false, false), &vec![field("a", "u8")]);
    assert_eq!(plan.impls, vec![ImplKind::Reader, ImplKind::Seek, ImplKind::Read, ImplKind::Depth]);
    assert_eq!(plan.fields.len(), 3);
    assert_eq!(plan.fields[0].init.as_deref(), Some("<u8>::default()"));
    assert!(plan.fields[1].init.is_none());
    assert_eq!(plan.fields[2].init.as_deref(), Some("0"));
}
