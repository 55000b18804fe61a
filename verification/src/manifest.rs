//! The build manifest of the synthesized project.

use crate::edition::RustEdition;
use crate::error::CargoPlayError;
use crate::text::{lowercase_of, texts};
use vstd::prelude::*;
use vstd::string::StringExecFns;

verus! {

/// A parsed TOML value, as the `toml` crate holds it.
#[verifier::external_type_specification]
#[verifier::external_body]
pub struct ExValue(toml::Value);

/// The `toml` crate's error for a text that is no TOML document.
#[verifier::external_type_specification]
#[verifier::external_body]
pub struct ExTomlError(toml::de::Error);

/// Whether the `toml` crate reads `text` as a document.
pub uninterp spec fn toml_accepts(text: Seq<char>) -> bool;

/// Calls `str::parse` for `toml::Value`, which is `toml::from_str`. Claimed:
/// whether the text is accepted depends on the text alone. Nothing is claimed
/// of the value or of the error.
#[verifier::external_body]
pub(crate) fn parse_document(text: &str) -> (r: Result<toml::Value, toml::de::Error>)
    ensures
        r is Ok == toml_accepts(text@),
{
    text.parse::<toml::Value>()
}

/// Calls `to_string` on a `toml::de::Error`: the parser's message. Nothing is
/// claimed of it.
#[verifier::external_body]
pub(crate) fn error_message(e: &toml::de::Error) -> (r: String) {
    e.to_string()
}

/// The version that every synthesized package declares.
pub open spec fn package_version() -> Seq<char> {
    "0.1.0"@
}

/// The header of the dependency table.
pub open spec fn dependency_header() -> Seq<char> {
    "[dependencies]\n"@
}

/// The lines joined by line feeds, with none after the last.
pub open spec fn join_lines(lines: Seq<Seq<char>>) -> Seq<char>
    decreases lines.len(),
{
    if lines.len() == 0 {
        Seq::empty()
    } else if lines.len() == 1 {
        lines[0]
    } else {
        join_lines(lines.drop_last()) + seq!['\n'] + lines.last()
    }
}

/// The manifest fragment that the directives make: the header of the
/// dependency table, then the directives as they are, one on each line.
pub open spec fn dependency_section_of(directives: Seq<Seq<char>>) -> Seq<char> {
    dependency_header() + join_lines(directives)
}

/// The package section of a manifest.
#[derive(Debug, Clone)]
pub struct CargoPackage {
    pub name: String,
    pub version: String,
    pub edition: String,
}

/// A package section as plain texts.
pub struct CargoPackageView {
    pub name: Seq<char>,
    pub version: Seq<char>,
    pub edition: Seq<char>,
}

impl View for CargoPackage {
    type V = CargoPackageView;

    open spec fn view(&self) -> CargoPackageView {
        CargoPackageView { name: self.name@, version: self.version@, edition: self.edition@ }
    }
}

/// The package section for a project name and an edition: the name in lower
/// case, the fixed version, the edition's name.
pub open spec fn package_of(name: Seq<char>, edition: RustEdition) -> CargoPackageView {
    CargoPackageView {
        name: lowercase_of(name),
        version: package_version(),
        edition: edition.name(),
    }
}

impl CargoPackage {
    /// The package section for `name` and `edition`.
    pub fn new(name: String, edition: RustEdition) -> (r: CargoPackage)
        ensures
            r@ == package_of(name@, edition),
    {
        CargoPackage {
            name: name.as_str().to_lowercase(),
            version: String::from_str("0.1.0"),
            edition: edition.into(),
        }
    }
}

/// A manifest: the package section and the parsed dependency table.
#[derive(Debug)]
pub struct CargoManifest {
    pub package: CargoPackage,
    /// The document that holds the dependency table.
    pub dependencies: toml::Value,
}

/// The text of the manifest fragment for `directives`.
pub fn dependency_section(directives: &Vec<String>) -> (r: String)
    ensures
        r@ == dependency_section_of(texts(directives@)),
{
    let mut out = String::from_str("[dependencies]\n");
    let ghost lines = texts(directives@);
    let n = directives.len();
    let mut i: usize = 0;
    while i < n
        invariant
            n == directives.len(),
            lines == texts(directives@),
            i <= n,
            out@ == dependency_header() + join_lines(lines.take(i as int)),
        decreases n - i,
    {
        proof {
            assert(lines.take(i as int + 1).drop_last() =~= lines.take(i as int));
            assert(lines.take(i as int + 1).last() == directives@[i as int]@);
        }
        if i > 0 {
            out.push('\n');
        }
        out.append(directives[i].as_str());
        i += 1;
        assert(out@ =~= dependency_header() + join_lines(lines.take(i as int)));
    }
    assert(lines.take(n as int) =~= lines);
    out
}

impl CargoManifest {
    /// The manifest for a package and what the parser made of the dependency
    /// fragment: the parser's value is kept as the dependency table, and the
    /// parser's error becomes `ManifestParse`.
    pub fn with_parsed(
        name: String,
        parsed: Result<toml::Value, toml::de::Error>,
        edition: RustEdition,
    ) -> (r: Result<CargoManifest, CargoPlayError>)
        ensures
            match r {
                Ok(m) => parsed == Ok::<toml::Value, toml::de::Error>(m.dependencies) && m.package@
                    == package_of(name@, edition),
                Err(e) => parsed is Err && e is ManifestParse,
            },
    {
        match parsed {
            Ok(dependencies) => Ok(
                CargoManifest { package: CargoPackage::new(name, edition), dependencies },
            ),
            Err(e) => Err(CargoPlayError::ManifestParse(error_message(&e))),
        }
    }

    /// The manifest of a project: succeeds exactly where the fragment made of
    /// the directives is a TOML document, and fails with `ManifestParse`
    /// otherwise. No directive is dropped or changed on the way.
    pub fn new(name: String, dependencies: Vec<String>, edition: RustEdition) -> (r: Result<
        CargoManifest,
        CargoPlayError,
    >)
        ensures
            match r {
                Ok(m) => toml_accepts(dependency_section_of(texts(dependencies@))) && m.package@
                    == package_of(name@, edition),
                Err(e) => !toml_accepts(dependency_section_of(texts(dependencies@)))
                    && e is ManifestParse,
            },
    {
        let text = dependency_section(&dependencies);
        let parsed = parse_document(text.as_str());
        Self::with_parsed(name, parsed, edition)
    }
}

} // verus!
