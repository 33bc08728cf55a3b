//! Shader sources: what a source imports, and under which name others
//! import it.

use naga_oil::compose::ImportDefinition;
use uuid::Uuid;
use vstd::prelude::*;
use vstd::string::{StrSliceExecFns, StringExecFns};

verus! {

#[verifier::external_type_specification]
#[verifier::external_body]
pub struct ExUuid(Uuid);

#[verifier::external_type_specification]
#[verifier::external_body]
pub struct ExImportDefinition(ImportDefinition);

/// The 128 bits of an id.
pub uninterp spec fn uuid_bits(id: Uuid) -> u128;

/// The import path that a source declares for itself, if it declares one,
/// and the modules that it imports, in the order of their first use, as
/// naga_oil's preprocessor reads them out of the source text.
pub uninterp spec fn preprocessor_data(source: Seq<char>) -> (Option<Seq<char>>, Seq<Seq<char>>);

/// The bits of an id that hold its version and its variant.
pub const VERSION_AND_VARIANT_MASK: u128 = 0x0000_0000_0000_F000_C000_0000_0000_0000;

/// The version and variant bits of a random id: version 4, variant 1.
pub const RANDOM_VERSION_AND_VARIANT: u128 = 0x0000_0000_0000_4000_8000_0000_0000_0000;

/// The characters of each string of a list.
pub open spec fn texts(strings: Seq<String>) -> Seq<Seq<char>> {
    strings.map_values(|s: String| s@)
}

/// The characters of a string that may be there.
pub open spec fn text_of(string: Option<String>) -> Option<Seq<char>> {
    match string {
        Some(s) => Some(s@),
        None => None,
    }
}

/// uuid's `Uuid::new_v4`: a random id. Claimed of every outcome: the version
/// bits say 4 and the variant bits say 1, as the function sets them.
#[verifier::external_body]
fn new_id() -> (id: Uuid)
    ensures
        uuid_bits(id) & VERSION_AND_VARIANT_MASK == RANDOM_VERSION_AND_VARIANT,
{
    Uuid::new_v4()
}

/// naga_oil's `compose::get_preprocessor_data`, of which the declared import
/// path and the `import` field of each import definition are handed on. Not
/// proved: that both depend on the source text alone, which is what naming
/// them `preprocessor_data` claims.
#[verifier::external_body]
fn preprocessor_data_of(source: &str) -> (r: (Option<String>, Vec<String>))
    ensures
        text_of(r.0) == preprocessor_data(source@).0,
        texts(r.1@) == preprocessor_data(source@).1,
{
    let (import_path, imports, _) = naga_oil::compose::get_preprocessor_data(source);
    (import_path, imports.into_iter().map(|import| import.import).collect())
}

/// The name by which a shader is imported.
#[derive(Debug, PartialEq, Eq, Clone, Hash)]
pub enum ShaderImport {
    /// The path of the asset that holds the shader.
    AssetPath(String),
    /// A name that the shader declares for itself.
    Custom(String),
}

/// A shader's import name, as characters.
pub enum ImportName {
    /// The path of the asset that holds the shader.
    AssetPath(Seq<char>),
    /// A name that the shader declares for itself.
    Custom(Seq<char>),
}

impl View for ShaderImport {
    type V = ImportName;

    open spec fn view(&self) -> ImportName {
        match self {
            ShaderImport::AssetPath(s) => ImportName::AssetPath(s@),
            ShaderImport::Custom(s) => ImportName::Custom(s@),
        }
    }
}

/// The import names of a list, as characters.
pub open spec fn names(imports: Seq<ShaderImport>) -> Seq<ImportName> {
    imports.map_values(|i: ShaderImport| i@)
}

/// The double quote.
pub open spec fn quote() -> char {
    '"'
}

/// `text` between double quotes.
pub open spec fn quoted(text: Seq<char>) -> Seq<char> {
    seq![quote()] + text + seq![quote()]
}

/// `end` is where the quoted part of `text` ends, which begins after the
/// first character: at the next double quote, or at the end of the text
/// where no other follows.
pub open spec fn is_quote_end(text: Seq<char>, end: int) -> bool {
    &&& 1 <= end <= text.len()
    &&& end < text.len() ==> text[end] == quote()
    &&& forall|k: int| 1 <= k < end ==> text[k] != quote()
}

/// `name` is what the import written as `text` in a source refers to. A
/// text that begins with a double quote names an asset by its path, which
/// is what stands between that quote and the next. Any other text is a
/// custom name, taken as it is.
pub open spec fn is_import_of(text: Seq<char>, name: ImportName) -> bool {
    if text.len() > 0 && text[0] == quote() {
        exists|end: int| #[trigger]
            is_quote_end(text, end) && name == ImportName::AssetPath(text.subrange(1, end))
    } else {
        name == ImportName::Custom(text)
    }
}

/// `names` are what the imports written as `texts` refer to, one for one.
pub open spec fn are_imports_of(texts: Seq<Seq<char>>, names: Seq<ImportName>) -> bool {
    &&& names.len() == texts.len()
    &&& forall|i: int| 0 <= i < texts.len() ==> is_import_of(texts[i], #[trigger] names[i])
}

/// The import name of a shader: the one that its source declares, or else
/// the path of its asset.
pub open spec fn own_name(declared: Option<Seq<char>>, path: Seq<char>) -> ImportName {
    match declared {
        Some(name) => ImportName::Custom(name),
        None => ImportName::AssetPath(path),
    }
}

impl ShaderImport {
    /// The name as it is written in an import: an asset's path between
    /// double quotes, a custom name as it is.
    pub open spec fn spec_module_name(&self) -> Seq<char> {
        match self {
            ShaderImport::AssetPath(s) => quoted(s@),
            ShaderImport::Custom(s) => s@,
        }
    }

    /// The name as it is written in an import: an asset's path between
    /// double quotes, a custom name as it is.
    pub fn module_name(&self) -> (name: String)
        ensures
            name@ == self.spec_module_name(),
    {
        match self {
            ShaderImport::AssetPath(s) => quote_text(s.as_str()),
            ShaderImport::Custom(s) => s.clone(),
        }
    }

    /// What the import written as `import` in a source refers to.
    pub fn from_import(import: String) -> (r: ShaderImport)
        ensures
            is_import_of(import@, r@),
    {
        let text = import.as_str();
        let n: usize = text.unicode_len();
        if n > 0 && text.get_char(0) == '"' {
            let mut end: usize = 1;
            while end < n && text.get_char(end) != '"'
                invariant
                    1 <= end <= n,
                    n == text@.len(),
                    forall|k: int| 1 <= k < end ==> text@[k] != quote(),
                decreases n - end,
            {
                end += 1;
            }
            assert(is_quote_end(text@, end as int));
            let path = text.substring_char(1, end).to_owned();
            ShaderImport::AssetPath(path)
        } else {
            ShaderImport::Custom(import)
        }
    }
}

/// `text` between double quotes.
pub fn quote_text(text: &str) -> (r: String)
    ensures
        r@ == quoted(text@),
{
    proof {
        reveal_strlit("\"");
    }
    let r = String::from_str("\"").concat(text).concat("\"");
    assert(r@ =~= quoted(text@));
    r
}

/// The text of a shader.
#[derive(Debug, Clone, PartialEq, Eq)]
pub enum Source {
    /// Text in the WebGPU shading language.
    Wgsl(String),
}

impl Source {
    /// The text.
    pub open spec fn spec_text(&self) -> Seq<char> {
        match self {
            Source::Wgsl(s) => s@,
        }
    }

    /// The text.
    pub fn as_str(&self) -> (s: &str)
        ensures
            s@ == self.spec_text(),
    {
        match self {
            Source::Wgsl(s) => s.as_str(),
        }
    }
}

/// A value that a shader is compiled with.
#[derive(Debug, Clone, PartialEq, Eq, Hash)]
pub enum ShaderDefVal {
    /// A named flag.
    Bool(String, bool),
    /// A named signed number.
    Int(String, i32),
    /// A named unsigned number.
    UInt(String, u32),
}

/// A shader as it was read: its text may still hold preprocessor
/// directives.
#[derive(Debug)]
pub struct Shader {
    /// The id of the shader, drawn at random.
    pub id: Uuid,
    /// The path of the asset that holds the shader.
    pub path: String,
    /// The text of the shader.
    pub source: Source,
    /// The name by which others import the shader.
    pub import_path: ShaderImport,
    /// What the shader's text imports.
    pub imports: Vec<ShaderImport>,
    /// What the shader imports besides.
    pub additional_imports: Vec<ImportDefinition>,
    /// The values that every user of the shader is compiled with.
    pub shader_defs: Vec<ShaderDefVal>,
    /// The shaders that this one keeps alive.
    pub file_dependencies: Vec<Shader>,
}

/// The `Shader` whose fields these are, but for its id.
pub open spec fn is_shader_of(
    shader: Shader,
    source: Seq<char>,
    path: Seq<char>,
    shader_defs: Seq<ShaderDefVal>,
) -> bool {
    &&& uuid_bits(shader.id) & VERSION_AND_VARIANT_MASK == RANDOM_VERSION_AND_VARIANT
    &&& shader.path@ == path
    &&& shader.source.spec_text() == source
    &&& shader.import_path@ == own_name(preprocessor_data(source).0, path)
    &&& are_imports_of(preprocessor_data(source).1, names(shader.imports@))
    &&& shader.additional_imports@.len() == 0
    &&& shader.shader_defs@ == shader_defs
    &&& shader.file_dependencies@.len() == 0
}

impl Shader {
    /// The import name of a shader and what it imports, from what the
    /// preprocessor read out of its source: the declared import path, or the
    /// path of the asset where the source declares none, and the reference
    /// of each import, in order.
    pub fn resolve_imports(declared: Option<String>, imports: Vec<String>, path: &str) -> (r: (
        ShaderImport,
        Vec<ShaderImport>,
    ))
        ensures
            r.0@ == own_name(text_of(declared), path@),
            are_imports_of(texts(imports@), names(r.1@)),
    {
        let import_path = match declared {
            Some(name) => ShaderImport::Custom(name),
            None => ShaderImport::AssetPath(path.to_owned()),
        };
        let mut resolved: Vec<ShaderImport> = Vec::with_capacity(imports.len());
        let mut i: usize = 0;
        while i < imports.len()
            invariant
                i <= imports@.len(),
                resolved@.len() == i,
                forall|k: int|
                    0 <= k < i ==> is_import_of(
                        texts(imports@)[k],
                        #[trigger] names(resolved@)[k],
                    ),
            decreases imports@.len() - i,
        {
            let import = ShaderImport::from_import(imports[i].clone());
            let ghost before = resolved@;
            resolved.push(import);
            assert forall|k: int| 0 <= k < i + 1 implies is_import_of(
                texts(imports@)[k],
                #[trigger] names(resolved@)[k],
            ) by {
                if k < i {
                    assert(names(resolved@)[k] == names(before)[k]);
                }
            }
            i += 1;
        }
        (import_path, resolved)
    }

    /// The import name of the shader with this source text at this path,
    /// and what it imports.
    fn preprocess(source: &str, path: &str) -> (r: (ShaderImport, Vec<ShaderImport>))
        ensures
            r.0@ == own_name(preprocessor_data(source@).0, path@),
            are_imports_of(preprocessor_data(source@).1, names(r.1@)),
    {
        let (declared, imports) = preprocessor_data_of(source);
        Shader::resolve_imports(declared, imports, path)
    }

    /// The shader with this text in the WebGPU shading language, read from
    /// the asset at `path`.
    pub fn from_wgsl(source: String, path: String) -> (shader: Shader)
        ensures
            is_shader_of(shader, source@, path@, Seq::empty()),
    {
        Shader::from_wgsl_with_defs(source, path, Vec::new())
    }

    /// The shader with this text in the WebGPU shading language, read from
    /// the asset at `path`, whose users are compiled with `shader_defs`.
    pub fn from_wgsl_with_defs(source: String, path: String, shader_defs: Vec<ShaderDefVal>) -> (shader:
        Shader)
        ensures
            is_shader_of(shader, source@, path@, shader_defs@),
    {
        let id = new_id();
        let (import_path, imports) = Shader::preprocess(source.as_str(), path.as_str());
        Shader {
            id,
            path,
            imports,
            import_path,
            source: Source::Wgsl(source),
            additional_imports: Vec::new(),
            shader_defs,
            file_dependencies: Vec::new(),
        }
    }

    /// Gives the shader the custom import name `import_path`.
    pub fn set_import_path(&mut self, import_path: String)
        ensures
            final(self).import_path@ == ImportName::Custom(import_path@),
            final(self).id == old(self).id,
            final(self).path == old(self).path,
            final(self).source == old(self).source,
            final(self).imports == old(self).imports,
            final(self).additional_imports == old(self).additional_imports,
            final(self).shader_defs == old(self).shader_defs,
            final(self).file_dependencies == old(self).file_dependencies,
    {
        self.import_path = ShaderImport::Custom(import_path);
    }

    /// The shader under the custom import name `import_path`.
    #[must_use]
    pub fn with_import_path(self, import_path: String) -> (shader: Shader)
        ensures
            shader.import_path@ == ImportName::Custom(import_path@),
            shader.id == self.id,
            shader.path == self.path,
            shader.source == self.source,
            shader.imports == self.imports,
            shader.additional_imports == self.additional_imports,
            shader.shader_defs == self.shader_defs,
            shader.file_dependencies == self.file_dependencies,
    {
        let mut shader = self;
        shader.set_import_path(import_path);
        shader
    }

    /// The name by which others import the shader.
    pub fn import_path(&self) -> (name: &ShaderImport)
        ensures
            *name == self.import_path,
    {
        &self.import_path
    }

    /// What the shader's text imports, in order.
    pub fn imports(&self) -> (imports: &[ShaderImport])
        ensures
            imports@ == self.imports@,
    {
        self.imports.as_slice()
    }

    /// The name under which the composer takes the shader in where its
    /// import name is the path of its asset: that path between double
    /// quotes. A shader with a custom import name goes in under the name
    /// that its text declares.
    pub fn as_name(&self) -> (name: Option<String>)
        ensures
            match self.import_path {
                ShaderImport::AssetPath(path) => name is Some && name->Some_0@ == quoted(path@),
                ShaderImport::Custom(_) => name is None,
            },
    {
        match &self.import_path {
            ShaderImport::AssetPath(path) => Some(quote_text(path.as_str())),
            ShaderImport::Custom(_) => None,
        }
    }
}

/// Reads shaders from their assets.
pub struct ShaderLoader;

impl Default for ShaderLoader {
    fn default() -> (r: Self) {
        ShaderLoader
    }
}

#[verifier::external_type_specification]
#[verifier::external_body]
pub struct ExIoError(std::io::Error);

#[verifier::external_type_specification]
#[verifier::external_body]
pub struct ExFromUtf8Error(std::string::FromUtf8Error);

/// Why a shader could not be read from its asset.
#[non_exhaustive]
#[derive(Debug)]
pub enum ShaderLoaderError {
    /// The asset could not be read.
    Io(std::io::Error),
    /// The asset is not text.
    Parse(std::string::FromUtf8Error),
}

/// A reference to a shader.
pub enum ShaderRef {
    /// The shader that the context uses by default.
    Default,
}

} // verus!
