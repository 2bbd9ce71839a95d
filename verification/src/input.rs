//! The macro input's field language: shader kinds, field names, sources,
//! and the builder that enforces the rules on them.

use vstd::prelude::*;

verus! {

/// The pipeline stage a shader is compiled for, as named by the `ty` field.
#[derive(Clone, Copy, Debug, PartialEq, Eq, Structural)]
pub enum ShaderKind {
    Vertex,
    Fragment,
    Geometry,
    TessControl,
    TessEvaluation,
    Compute,
}

/// The shader kind that a `ty` field value names, if any.
pub open spec fn shader_kind_of_name(s: Seq<char>) -> Option<ShaderKind> {
    if s == "vertex"@ {
        Some(ShaderKind::Vertex)
    } else if s == "fragment"@ {
        Some(ShaderKind::Fragment)
    } else if s == "geometry"@ {
        Some(ShaderKind::Geometry)
    } else if s == "tess_ctrl"@ {
        Some(ShaderKind::TessControl)
    } else if s == "tess_eval"@ {
        Some(ShaderKind::TessEvaluation)
    } else if s == "compute"@ {
        Some(ShaderKind::Compute)
    } else {
        None
    }
}

/// String equality by contents.
fn str_eq(a: &str, b: &str) -> (r: bool)
    ensures
        r == (a@ == b@),
{
    let sa: String = a.to_owned();
    let sb: String = b.to_owned();
    sa == sb
}

impl ShaderKind {
    /// Maps a `ty` field value to its shader kind; unknown names map to `None`.
    pub fn from_name(s: &str) -> (r: Option<ShaderKind>)
        ensures
            r == shader_kind_of_name(s@),
    {
        if str_eq(s, "vertex") {
            Some(ShaderKind::Vertex)
        } else if str_eq(s, "fragment") {
            Some(ShaderKind::Fragment)
        } else if str_eq(s, "geometry") {
            Some(ShaderKind::Geometry)
        } else if str_eq(s, "tess_ctrl") {
            Some(ShaderKind::TessControl)
        } else if str_eq(s, "tess_eval") {
            Some(ShaderKind::TessEvaluation)
        } else if str_eq(s, "compute") {
            Some(ShaderKind::Compute)
        } else {
            None
        }
    }
}

/// Where the GLSL source comes from: given inline, or named by a path
/// relative to the package manifest.
#[derive(Clone, Debug, PartialEq, Eq)]
pub enum SourceKind {
    Src(String),
    Path(String),
}

/// The field names the macro input accepts.
#[derive(Clone, Copy, Debug, PartialEq, Eq, Structural)]
pub enum Field {
    ModName,
    Ty,
    Src,
    Path,
    Dump,
}

/// The field that a name denotes, if any.
pub open spec fn field_of_name(s: Seq<char>) -> Option<Field> {
    if s == "mod_name"@ {
        Some(Field::ModName)
    } else if s == "ty"@ {
        Some(Field::Ty)
    } else if s == "src"@ {
        Some(Field::Src)
    } else if s == "path"@ {
        Some(Field::Path)
    } else if s == "dump"@ {
        Some(Field::Dump)
    } else {
        None
    }
}

impl Field {
    /// Maps a field name to the field it denotes; unknown names map to `None`.
    pub fn from_name(s: &str) -> (r: Option<Field>)
        ensures
            r == field_of_name(s@),
    {
        if str_eq(s, "mod_name") {
            Some(Field::ModName)
        } else if str_eq(s, "ty") {
            Some(Field::Ty)
        } else if str_eq(s, "src") {
            Some(Field::Src)
        } else if str_eq(s, "path") {
            Some(Field::Path)
        } else if str_eq(s, "dump") {
            Some(Field::Dump)
        } else {
            None
        }
    }
}

/// Why a macro input is rejected.
#[derive(Debug)]
pub enum ParseError {
    /// A token was not what the grammar asks for; carries syn's diagnostic.
    Stream(syn::Error),
    /// `mod_name` was given twice.
    DuplicateModName,
    /// `ty` was given twice.
    DuplicateShaderKind,
    /// More than one of `src` and `path` was given.
    DuplicateSource,
    /// `dump` was given twice.
    DuplicateDump,
    /// The field name is none of the accepted ones; carries that name.
    UnknownField(String),
    /// The `ty` value names no shader kind.
    UnknownShaderKind,
    /// No `ty` field was given.
    MissingShaderKind,
    /// Neither `src` nor `path` was given.
    MissingSource,
    /// No `mod_name` field was given.
    MissingModName,
}

/// A fully collected macro input.
#[derive(Clone, Debug, PartialEq, Eq)]
pub struct MacroInput {
    /// The module the generated code goes in.
    pub mod_ident: String,
    /// The pipeline stage to compile for.
    pub shader_kind: ShaderKind,
    /// Where the GLSL source comes from.
    pub source_kind: SourceKind,
    /// Whether to print the generated code instead of compiling it.
    pub dump: bool,
}

/// The fields seen so far while reading a macro input.
pub struct MacroInputBuilder {
    pub mod_ident: Option<String>,
    pub shader_kind: Option<ShaderKind>,
    pub source_kind: Option<SourceKind>,
    pub dump: Option<bool>,
}

/// The duplicate-field error that giving `f` once more would raise, if its
/// slot is already filled. `src` and `path` share one slot.
pub open spec fn duplicate_error(b: MacroInputBuilder, f: Field) -> Option<ParseError> {
    match f {
        Field::ModName => if b.mod_ident is Some {
            Some(ParseError::DuplicateModName)
        } else {
            None
        },
        Field::Ty => if b.shader_kind is Some {
            Some(ParseError::DuplicateShaderKind)
        } else {
            None
        },
        Field::Src | Field::Path => if b.source_kind is Some {
            Some(ParseError::DuplicateSource)
        } else {
            None
        },
        Field::Dump => if b.dump is Some {
            Some(ParseError::DuplicateDump)
        } else {
            None
        },
    }
}

/// How many of the builder's slots are still unset. Reading one more field
/// either fills a fresh slot or stops with an error, so this bounds the
/// reading loop.
pub open spec fn unset_count(b: MacroInputBuilder) -> nat {
    (if b.mod_ident is None {
        1nat
    } else {
        0nat
    }) + (if b.shader_kind is None {
        1nat
    } else {
        0nat
    }) + (if b.source_kind is None {
        1nat
    } else {
        0nat
    }) + (if b.dump is None {
        1nat
    } else {
        0nat
    })
}

impl MacroInputBuilder {
    /// A builder with no field seen yet.
    pub fn new() -> (r: MacroInputBuilder)
        ensures
            r == (MacroInputBuilder {
                mod_ident: None,
                shader_kind: None,
                source_kind: None,
                dump: None,
            }),
    {
        MacroInputBuilder { mod_ident: None, shader_kind: None, source_kind: None, dump: None }
    }

    /// Rejects a field whose slot is already filled, before its value is read.
    pub fn check_new_field(&self, f: Field) -> (r: Result<(), ParseError>)
        ensures
            match duplicate_error(*self, f) {
                Some(e) => r == Err::<(), ParseError>(e),
                None => r == Ok::<(), ParseError>(()),
            },
    {
        match f {
            Field::ModName => if self.mod_ident.is_some() {
                Err(ParseError::DuplicateModName)
            } else {
                Ok(())
            },
            Field::Ty => if self.shader_kind.is_some() {
                Err(ParseError::DuplicateShaderKind)
            } else {
                Ok(())
            },
            Field::Src | Field::Path => if self.source_kind.is_some() {
                Err(ParseError::DuplicateSource)
            } else {
                Ok(())
            },
            Field::Dump => if self.dump.is_some() {
                Err(ParseError::DuplicateDump)
            } else {
                Ok(())
            },
        }
    }

    /// Records the module name.
    pub fn set_mod_name(&mut self, v: String)
        requires
            old(self).mod_ident is None,
        ensures
            *final(self) == (MacroInputBuilder { mod_ident: Some(v), ..*old(self) }),
    {
        self.mod_ident = Some(v);
    }

    /// Records the shader kind that the `ty` value names, or rejects the value.
    pub fn set_shader_kind(&mut self, v: &str) -> (r: Result<(), ParseError>)
        requires
            old(self).shader_kind is None,
        ensures
            match shader_kind_of_name(v@) {
                Some(k) => r == Ok::<(), ParseError>(()) && *final(self) == (MacroInputBuilder {
                    shader_kind: Some(k),
                    ..*old(self)
                }),
                None => r == Err::<(), ParseError>(ParseError::UnknownShaderKind) && *final(self)
                    == *old(self),
            },
    {
        match ShaderKind::from_name(v) {
            Some(k) => {
                self.shader_kind = Some(k);
                Ok(())
            },
            None => Err(ParseError::UnknownShaderKind),
        }
    }

    /// Records the source, inline or by path.
    pub fn set_source(&mut self, v: SourceKind)
        requires
            old(self).source_kind is None,
        ensures
            *final(self) == (MacroInputBuilder { source_kind: Some(v), ..*old(self) }),
    {
        self.source_kind = Some(v);
    }

    /// Records the dump flag.
    pub fn set_dump(&mut self, v: bool)
        requires
            old(self).dump is None,
        ensures
            *final(self) == (MacroInputBuilder { dump: Some(v), ..*old(self) }),
    {
        self.dump = Some(v);
    }

    /// Closes the builder: `ty`, a source and `mod_name` must have been given,
    /// in that order of complaint; `dump` defaults to `false`.
    pub fn finish(self) -> (r: Result<MacroInput, ParseError>)
        ensures
            self.shader_kind is None ==> r == Err::<MacroInput, ParseError>(
                ParseError::MissingShaderKind,
            ),
            self.shader_kind is Some && self.source_kind is None ==> r == Err::<
                MacroInput,
                ParseError,
            >(ParseError::MissingSource),
            self.shader_kind is Some && self.source_kind is Some && self.mod_ident is None ==> r
                == Err::<MacroInput, ParseError>(ParseError::MissingModName),
            self.shader_kind is Some && self.source_kind is Some && self.mod_ident is Some ==> (r
                matches Ok(m) && m.mod_ident == self.mod_ident.unwrap() && m.shader_kind
                == self.shader_kind.unwrap() && m.source_kind == self.source_kind.unwrap()
                && m.dump == self.dump.unwrap_or(false)),
    {
        let shader_kind = match self.shader_kind {
            Some(k) => k,
            None => {
                return Err(ParseError::MissingShaderKind);
            },
        };
        let source_kind = match self.source_kind {
            Some(s) => s,
            None => {
                return Err(ParseError::MissingSource);
            },
        };
        let mod_ident = match self.mod_ident {
            Some(m) => m,
            None => {
                return Err(ParseError::MissingModName);
            },
        };
        let dump = self.dump.unwrap_or(false);
        Ok(MacroInput { mod_ident, shader_kind, source_kind, dump })
    }
}

impl MacroInput {
    /// Reads a whole macro input: a comma-separated list of `name: value`
    /// fields, closed by the builder's completeness rules.
    ///
    /// Token-level reads go through the trusted facade in `tokens`; every
    /// decision on what was read (field dispatch, duplicate and unknown
    /// fields, shader-kind names, completeness) is verified against the
    /// builder's contracts. Nothing can be promised of the opaque stream,
    /// so the result is pinned by those contracts, one call down; of the
    /// result alone only this much can be said: an unknown-field error
    /// carries a name that maps to no field.
    pub fn parse(input: syn::parse::ParseStream<'_>) -> (r: Result<MacroInput, ParseError>)
        ensures
            r matches Err(ParseError::UnknownField(n)) ==> field_of_name(n@) is None,
    {
        let mut builder = MacroInputBuilder::new();
        while !crate::tokens::stream_is_empty(input)
            decreases unset_count(builder),
        {
            let name = match crate::tokens::parse_ident_string(input) {
                Ok(n) => n,
                Err(e) => {
                    return Err(ParseError::Stream(e));
                },
            };
            match crate::tokens::parse_colon(input) {
                Ok(u) => u,
                Err(e) => {
                    return Err(ParseError::Stream(e));
                },
            }
            let field = match Field::from_name(name.as_str()) {
                Some(f) => f,
                None => {
                    return Err(ParseError::UnknownField(name));
                },
            };
            match builder.check_new_field(field) {
                Ok(u) => u,
                Err(e) => {
                    return Err(e);
                },
            }
            match field {
                Field::ModName => {
                    let v = match crate::tokens::parse_ident_string(input) {
                        Ok(v) => v,
                        Err(e) => {
                            return Err(ParseError::Stream(e));
                        },
                    };
                    builder.set_mod_name(v);
                },
                Field::Ty => {
                    let v = match crate::tokens::parse_string_literal(input) {
                        Ok(v) => v,
                        Err(e) => {
                            return Err(ParseError::Stream(e));
                        },
                    };
                    match builder.set_shader_kind(v.as_str()) {
                        Ok(u) => u,
                        Err(e) => {
                            return Err(e);
                        },
                    }
                },
                Field::Src => {
                    let v = match crate::tokens::parse_string_literal(input) {
                        Ok(v) => v,
                        Err(e) => {
                            return Err(ParseError::Stream(e));
                        },
                    };
                    builder.set_source(SourceKind::Src(v));
                },
                Field::Path => {
                    let v = match crate::tokens::parse_string_literal(input) {
                        Ok(v) => v,
                        Err(e) => {
                            return Err(ParseError::Stream(e));
                        },
                    };
                    builder.set_source(SourceKind::Path(v));
                },
                Field::Dump => {
                    let v = match crate::tokens::parse_bool_literal(input) {
                        Ok(v) => v,
                        Err(e) => {
                            return Err(ParseError::Stream(e));
                        },
                    };
                    builder.set_dump(v);
                },
            }
            if !crate::tokens::stream_is_empty(input) {
                match crate::tokens::parse_comma(input) {
                    Ok(u) => u,
                    Err(e) => {
                        return Err(ParseError::Stream(e));
                    },
                }
            }
        }
        builder.finish()
    }
}

} // verus!
