//! The settings handed to the binding generator, composed from the package
//! identity and its configuration.

use vstd::prelude::*;
use vstd::string::StringExecFns;

use crate::config::{Config, ConfigView};
use crate::macros::{compose_version_macros, shouty_snake_case, version_macros};
use crate::package::{PackageIdentity, PackageIdentityView};
use crate::text::{option_text, texts};

verus! {

/// Indentation width of the generated header.
pub const TAB_WIDTH: usize = 4;

/// Everything the binding generator is configured with for one run.
#[derive(Debug)]
pub struct GeneratorSettings {
    /// Indentation width.
    pub tab_width: usize,
    /// System includes at the beginning of the header.
    pub sys_includes: Vec<String>,
    /// Text put right after the includes: the block of version macros.
    pub after_includes: Option<String>,
    /// Comment at the very top of the header.
    pub header: String,
    /// Whether GObject binding conventions are asked for.
    pub gobject: bool,
}

/// A [`GeneratorSettings`] as mathematical values.
pub struct GeneratorSettingsView {
    pub tab_width: usize,
    pub sys_includes: Seq<Seq<char>>,
    pub after_includes: Option<Seq<char>>,
    pub header: Seq<char>,
    pub gobject: bool,
}

/// The configuration gives no namespace, so the macro names cannot be formed.
#[derive(Debug, Clone, Copy, PartialEq, Eq, Structural)]
pub struct NamespaceMissing;

impl View for GeneratorSettings {
    type V = GeneratorSettingsView;

    open spec fn view(&self) -> GeneratorSettingsView {
        GeneratorSettingsView {
            tab_width: self.tab_width,
            sys_includes: texts(self.sys_includes@),
            after_includes: option_text(self.after_includes),
            header: self.header@,
            gobject: self.gobject,
        }
    }
}

/// The outcome of a composition as mathematical values.
pub open spec fn composition_view(r: Result<GeneratorSettings, NamespaceMissing>) -> Result<
    GeneratorSettingsView,
    NamespaceMissing,
> {
    match r {
        Ok(settings) => Ok(settings@),
        Err(e) => Err(e),
    }
}

/// The disclaimer at the top of a header generated for the package `name`.
pub open spec fn header_comment(name: Seq<char>) -> Seq<char> {
    "/* GObject C binding from Rust "@ + name
        + " project, generated with gbindgen: DO NOT EDIT. */"@
}

/// The settings for a package and its configuration: the fixed indentation,
/// the configured includes, the version macros under the configured
/// namespace, the disclaimer that names the package, and GObject conventions.
/// Without a namespace there are none.
pub open spec fn settings_of(identity: PackageIdentityView, config: ConfigView) -> Result<
    GeneratorSettingsView,
    NamespaceMissing,
> {
    match config.namespace {
        None => Err(NamespaceMissing),
        Some(namespace) => Ok(
            GeneratorSettingsView {
                tab_width: TAB_WIDTH,
                sys_includes: config.sys_includes,
                after_includes: Some(
                    version_macros(shouty_snake_case(namespace), identity.version),
                ),
                header: header_comment(identity.name),
                gobject: true,
            },
        ),
    }
}

/// Writes the disclaimer at the top of a header generated for `name`.
pub fn render_header_comment(name: &str) -> (r: String)
    ensures
        r@ == header_comment(name@),
{
    let mut out = String::from_str("/* GObject C binding from Rust ");
    out.append(name);
    out.append(" project, generated with gbindgen: DO NOT EDIT. */");
    out
}

impl GeneratorSettings {
    /// Composes the settings of one run.
    ///
    /// Fails exactly when the configuration has no namespace.
    pub fn compose(identity: &PackageIdentity, config: Config) -> (r: Result<
        GeneratorSettings,
        NamespaceMissing,
    >)
        ensures
            composition_view(r) == settings_of(identity@, config@),
    {
        let Config { sys_includes, namespace } = config;
        match namespace {
            None => Err(NamespaceMissing),
            Some(namespace) => {
                let macros = compose_version_macros(namespace.as_str(), identity.version);
                Ok(
                    GeneratorSettings {
                        tab_width: TAB_WIDTH,
                        sys_includes,
                        after_includes: Some(macros),
                        header: render_header_comment(identity.name.as_str()),
                        gobject: true,
                    },
                )
            },
        }
    }
}

} // verus!
