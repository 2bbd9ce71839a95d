use syn::parse::{ParseStream, Parser};
use vulkano_shaders::input::{Field, MacroInput, MacroInputBuilder, ParseError, ShaderKind, SourceKind};

fn run(src: &str) -> Result<MacroInput, ParseError> {
    let tokens: proc_macro2::TokenStream = src.parse().unwrap();
    let reader = |input: ParseStream| {
        let r = MacroInput::parse(input);
        // Drain whatever an early error left behind, so that the Parser
        // harness does not report the leftovers instead.
        let _rest: proc_macro2::TokenStream = input.parse()?;
        Ok(r)
    };
    Parser::parse2(reader, tokens).unwrap()
}

#[test]
fn shader_kind_names_map_to_their_kinds() {
    assert_eq!(ShaderKind::from_name("vertex"), Some(ShaderKind::Vertex));
    assert_eq!(ShaderKind::from_name("fragment"), Some(ShaderKind::Fragment));
    assert_eq!(ShaderKind::from_name("geometry"), Some(ShaderKind::Geometry));
    assert_eq!(ShaderKind::from_name("tess_ctrl"), Some(ShaderKind::TessControl));
    assert_eq!(ShaderKind::from_name("tess_eval"), Some(ShaderKind::TessEvaluation));
    assert_eq!(ShaderKind::from_name("compute"), Some(ShaderKind::Compute));
}

#[test]
fn unknown_shader_kind_names_map_to_none() {
    assert_eq!(ShaderKind::from_name(""), None);
    assert_eq!(ShaderKind::from_name("Vertex"), None);
    assert_eq!(ShaderKind::from_name("tess"), None);
}

#[test]
fn field_names_map_to_their_fields() {
    assert_eq!(Field::from_name("mod_name"), Some(Field::ModName));
    assert_eq!(Field::from_name("ty"), Some(Field::Ty));
    assert_eq!(Field::from_name("src"), Some(Field::Src));
    assert_eq!(Field::from_name("path"), Some(Field::Path));
    assert_eq!(Field::from_name("dump"), Some(Field::Dump));
    assert_eq!(Field::from_name("mod"), None);
    assert_eq!(Field::from_name(""), None);
}

#[test]
fn builder_fills_and_finishes() {
    let mut b = MacroInputBuilder::new();
    assert!(b.check_new_field(Field::Ty).is_ok());
    assert!(b.set_shader_kind("compute").is_ok());
    assert!(b.check_new_field(Field::Src).is_ok());
    b.set_source(SourceKind::Src("void main() {}".to_owned()));
    assert!(b.check_new_field(Field::ModName).is_ok());
    b.set_mod_name("cs".to_owned());
    let m = b.finish().unwrap();
    assert_eq!(
        m,
        MacroInput {
            mod_ident: "cs".to_owned(),
            shader_kind: ShaderKind::Compute,
            source_kind: SourceKind::Src("void main() {}".to_owned()),
            dump: false,
        }
    );
}

#[test]
fn builder_rejects_each_duplicate() {
    let mut b = MacroInputBuilder::new();
    b.set_mod_name("m".to_owned());
    assert!(matches!(b.check_new_field(Field::ModName), Err(ParseError::DuplicateModName)));
    assert!(b.set_shader_kind("vertex").is_ok());
    assert!(matches!(b.check_new_field(Field::Ty), Err(ParseError::DuplicateShaderKind)));
    b.set_source(SourceKind::Path("a.glsl".to_owned()));
    assert!(matches!(b.check_new_field(Field::Src), Err(ParseError::DuplicateSource)));
    assert!(matches!(b.check_new_field(Field::Path), Err(ParseError::DuplicateSource)));
    b.set_dump(true);
    assert!(matches!(b.check_new_field(Field::Dump), Err(ParseError::DuplicateDump)));
}

#[test]
fn builder_rejects_unknown_shader_kind_value() {
    let mut b = MacroInputBuilder::new();
    assert!(matches!(b.set_shader_kind("pixel"), Err(ParseError::UnknownShaderKind)));
    assert!(b.shader_kind.is_none());
    assert!(b.set_shader_kind("fragment").is_ok());
    assert_eq!(b.shader_kind, Some(ShaderKind::Fragment));
}

#[test]
fn finish_complains_about_missing_ty_first() {
    let b = MacroInputBuilder::new();
    assert!(matches!(b.finish(), Err(ParseError::MissingShaderKind)));
}

#[test]
fn finish_complains_about_missing_source_second() {
    let mut b = MacroInputBuilder::new();
    b.set_mod_name("m".to_owned());
    assert!(b.set_shader_kind("vertex").is_ok());
    assert!(matches!(b.finish(), Err(ParseError::MissingSource)));
}

#[test]
fn finish_complains_about_missing_mod_name_last() {
    let mut b = MacroInputBuilder::new();
    assert!(b.set_shader_kind("vertex").is_ok());
    b.set_source(SourceKind::Src("s".to_owned()));
    assert!(matches!(b.finish(), Err(ParseError::MissingModName)));
}

#[test]
fn parses_a_full_inline_source_input() {
    let m = run("mod_name: vs, ty: \"vertex\", src: \"#version 450\"").unwrap();
    assert_eq!(
        m,
        MacroInput {
            mod_ident: "vs".to_owned(),
            shader_kind: ShaderKind::Vertex,
            source_kind: SourceKind::Src("#version 450".to_owned()),
            dump: false,
        }
    );
}

#[test]
fn parses_a_path_input_with_dump() {
    let m = run("ty: \"fragment\", path: \"shaders/frag.glsl\", mod_name: fs, dump: true").unwrap();
    assert_eq!(
        m,
        MacroInput {
            mod_ident: "fs".to_owned(),
            shader_kind: ShaderKind::Fragment,
            source_kind: SourceKind::Path("shaders/frag.glsl".to_owned()),
            dump: true,
        }
    );
}

#[test]
fn accepts_a_trailing_comma() {
    let m = run("mod_name: cs, ty: \"compute\", src: \"x\",").unwrap();
    assert_eq!(m.shader_kind, ShaderKind::Compute);
}

#[test]
fn rejects_an_unknown_field() {
    let r = run("mod_name: vs, kind: \"vertex\"");
    assert!(matches!(r, Err(ParseError::UnknownField(n)) if n == "kind"));
}

#[test]
fn rejects_a_duplicate_ty_before_reading_its_value() {
    let r = run("ty: \"vertex\", ty: 17");
    assert!(matches!(r, Err(ParseError::DuplicateShaderKind)));
}

#[test]
fn rejects_src_after_path() {
    let r = run("path: \"a.glsl\", src: \"code\"");
    assert!(matches!(r, Err(ParseError::DuplicateSource)));
}

#[test]
fn rejects_an_unknown_shader_kind_value() {
    let r = run("ty: \"pixel\", src: \"code\", mod_name: m");
    assert!(matches!(r, Err(ParseError::UnknownShaderKind)));
}

#[test]
fn empty_input_misses_the_shader_kind() {
    let r = run("");
    assert!(matches!(r, Err(ParseError::MissingShaderKind)));
}

#[test]
fn a_wrong_value_token_is_a_stream_error() {
    let r = run("ty: vertex");
    assert!(matches!(r, Err(ParseError::Stream(_))));
}

#[test]
fn a_missing_comma_is_a_stream_error() {
    let r = run("ty: \"vertex\" src: \"x\"");
    assert!(matches!(r, Err(ParseError::Stream(_))));
}

#[test]
fn a_missing_colon_is_a_stream_error() {
    let r = run("ty \"vertex\"");
    assert!(matches!(r, Err(ParseError::Stream(_))));
}
