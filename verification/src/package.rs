//! The binding package: how it is chosen among the packages that the
//! metadata resolver reports, and the identity that the run derives from it.

use vstd::prelude::*;
use vstd::string::StringExecFns;

use crate::text::{join3, option_text, same_text};
use crate::version::{semver_numbers, version_of, Version};

verus! {

/// What the metadata resolver reports of one package.
#[derive(Debug)]
pub struct PackageMetadata {
    /// Name of the package.
    pub name: String,
    /// Version string that the package declares, if it declares one.
    pub version: Option<String>,
    /// Directory of the package's manifest, where it has one.
    pub crate_dir: Option<String>,
}

/// A [`PackageMetadata`] as mathematical values.
pub struct PackageMetadataView {
    pub name: Seq<char>,
    pub version: Option<Seq<char>>,
    pub crate_dir: Option<Seq<char>>,
}

/// What the metadata resolver reports of the workspace at the input path.
#[derive(Debug)]
pub struct WorkspaceMetadata {
    /// Name of the package whose manifest lies at the input path, if any.
    pub root_package: Option<String>,
    /// Every package of the workspace and of its dependencies.
    pub packages: Vec<PackageMetadata>,
}

/// A [`WorkspaceMetadata`] as mathematical values.
pub struct WorkspaceMetadataView {
    pub root_package: Option<Seq<char>>,
    pub packages: Seq<PackageMetadataView>,
}

/// Name, version and root directory of the binding package.
#[derive(Debug)]
pub struct PackageIdentity {
    pub name: String,
    pub version: Version,
    pub root_directory: String,
}

/// A [`PackageIdentity`] as mathematical values.
pub struct PackageIdentityView {
    pub name: Seq<char>,
    pub version: Version,
    pub root_directory: Seq<char>,
}

/// Why the binding package could not be located.
#[derive(Debug)]
pub enum LocationError {
    /// The resolver could not resolve the package or its workspace.
    Unresolved { message: String },
    /// No package is named and the input path holds none.
    NoBindingPackage,
    /// The workspace has no package of the wanted name.
    PackageNotFound { name: String },
    /// The package declares no version.
    MissingVersion { package: String },
    /// The declared version is no semantic version.
    InvalidVersion { version: String },
}

/// A [`LocationError`] as mathematical values.
pub enum LocationErrorView {
    Unresolved { message: Seq<char> },
    NoBindingPackage,
    PackageNotFound { name: Seq<char> },
    MissingVersion { package: Seq<char> },
    InvalidVersion { version: Seq<char> },
}

impl View for PackageMetadata {
    type V = PackageMetadataView;

    open spec fn view(&self) -> PackageMetadataView {
        PackageMetadataView {
            name: self.name@,
            version: option_text(self.version),
            crate_dir: option_text(self.crate_dir),
        }
    }
}

/// A list of reports as mathematical values.
pub open spec fn package_views(packages: Seq<PackageMetadata>) -> Seq<PackageMetadataView> {
    Seq::new(packages.len(), |i: int| packages[i]@)
}

impl View for WorkspaceMetadata {
    type V = WorkspaceMetadataView;

    open spec fn view(&self) -> WorkspaceMetadataView {
        WorkspaceMetadataView {
            root_package: option_text(self.root_package),
            packages: package_views(self.packages@),
        }
    }
}

impl View for PackageIdentity {
    type V = PackageIdentityView;

    open spec fn view(&self) -> PackageIdentityView {
        PackageIdentityView {
            name: self.name@,
            version: self.version,
            root_directory: self.root_directory@,
        }
    }
}

impl View for LocationError {
    type V = LocationErrorView;

    open spec fn view(&self) -> LocationErrorView {
        match *self {
            LocationError::Unresolved { message } => LocationErrorView::Unresolved {
                message: message@,
            },
            LocationError::NoBindingPackage => LocationErrorView::NoBindingPackage,
            LocationError::PackageNotFound { name } => LocationErrorView::PackageNotFound {
                name: name@,
            },
            LocationError::MissingVersion { package } => LocationErrorView::MissingVersion {
                package: package@,
            },
            LocationError::InvalidVersion { version } => LocationErrorView::InvalidVersion {
                version: version@,
            },
        }
    }
}

/// The outcome of a location as mathematical values.
pub open spec fn location_view(r: Result<PackageIdentity, LocationError>) -> Result<
    PackageIdentityView,
    LocationErrorView,
> {
    match r {
        Ok(identity) => Ok(identity@),
        Err(error) => Err(error@),
    }
}

/// The name of the binding package: the one that is given, else the name of
/// the package at the input path.
pub open spec fn binding_name(explicit: Option<Seq<char>>, root_package: Option<Seq<char>>) -> Option<
    Seq<char>,
> {
    match explicit {
        Some(name) => Some(name),
        None => root_package,
    }
}

/// The place of the first package of the name `name`, if there is one.
pub open spec fn position_of(packages: Seq<PackageMetadataView>, name: Seq<char>) -> Option<int>
    decreases packages.len(),
{
    if packages.len() == 0 {
        None
    } else {
        match position_of(packages.drop_last(), name) {
            Some(i) => Some(i),
            None => if packages.last().name == name {
                Some(packages.len() - 1)
            } else {
                None
            },
        }
    }
}

/// The directory beside which the configuration is looked for: the package's
/// own directory, or the input path where the resolver found none.
pub open spec fn root_directory(input: Seq<char>, crate_dir: Option<Seq<char>>) -> Seq<char> {
    match crate_dir {
        Some(dir) => dir,
        None => input,
    }
}

/// The identity that a report gives once its version string has been parsed
/// to `parsed`: a package without a version or with one that does not parse
/// has no identity.
pub open spec fn identity_of(
    input: Seq<char>,
    metadata: PackageMetadataView,
    parsed: Option<Version>,
) -> Result<PackageIdentityView, LocationErrorView> {
    match metadata.version {
        None => Err(LocationErrorView::MissingVersion { package: metadata.name }),
        Some(text) => match parsed {
            None => Err(LocationErrorView::InvalidVersion { version: text }),
            Some(version) => Ok(
                PackageIdentityView {
                    name: metadata.name,
                    version,
                    root_directory: root_directory(input, metadata.crate_dir),
                },
            ),
        },
    }
}

/// What the declared version string of a report parses to.
pub open spec fn parsed_version(metadata: PackageMetadataView) -> Option<Version> {
    match metadata.version {
        Some(text) => version_of(semver_numbers(text)),
        None => None,
    }
}

/// The identity of the binding package of a workspace: the first package of
/// the binding name, with its version parsed.
pub open spec fn locate_outcome(
    input: Seq<char>,
    explicit: Option<Seq<char>>,
    metadata: WorkspaceMetadataView,
) -> Result<PackageIdentityView, LocationErrorView> {
    match binding_name(explicit, metadata.root_package) {
        None => Err(LocationErrorView::NoBindingPackage),
        Some(name) => match position_of(metadata.packages, name) {
            None => Err(LocationErrorView::PackageNotFound { name }),
            Some(i) => identity_of(
                input,
                metadata.packages[i],
                parsed_version(metadata.packages[i]),
            ),
        },
    }
}

/// The message of a location error, as it is shown to the user: the
/// resolver's own message as it came, or what is wrong with the package.
pub open spec fn location_error_message(error: LocationErrorView) -> Seq<char> {
    match error {
        LocationErrorView::Unresolved { message } => message,
        LocationErrorView::NoBindingPackage => "No package to generate bindings for."@,
        LocationErrorView::PackageNotFound { name } => "Unable to find package "@ + name + "."@,
        LocationErrorView::MissingVersion { package } => "Package "@ + package
            + " declares no version."@,
        LocationErrorView::InvalidVersion { version } => "Failed to parse crate version: "@
            + version + "."@,
    }
}

impl LocationError {
    /// The message of this error, as it is shown to the user.
    pub fn message(&self) -> (r: String)
        ensures
            r@ == location_error_message(self@),
    {
        match self {
            LocationError::Unresolved { message } => message.clone(),
            LocationError::NoBindingPackage => String::from_str(
                "No package to generate bindings for.",
            ),
            LocationError::PackageNotFound { name } => join3(
                "Unable to find package ",
                name.as_str(),
                ".",
            ),
            LocationError::MissingVersion { package } => join3(
                "Package ",
                package.as_str(),
                " declares no version.",
            ),
            LocationError::InvalidVersion { version } => join3(
                "Failed to parse crate version: ",
                version.as_str(),
                ".",
            ),
        }
    }
}

/// A position is that of the first package of a name exactly when the
/// package there has the name and none before it has.
pub proof fn lemma_position_of_is_first(packages: Seq<PackageMetadataView>, name: Seq<char>)
    ensures
        match position_of(packages, name) {
            Some(i) => {
                &&& 0 <= i < packages.len()
                &&& packages[i].name == name
                &&& forall|j: int| 0 <= j < i ==> (#[trigger] packages[j]).name != name
            },
            None => forall|j: int| 0 <= j < packages.len() ==> (#[trigger] packages[j]).name != name,
        },
    decreases packages.len(),
{
    if packages.len() > 0 {
        lemma_position_of_is_first(packages.drop_last(), name);
        assert forall|j: int| 0 <= j < packages.len() - 1 implies packages.drop_last()[j]
            == packages[j] by {}
    }
}

/// Finds the first package of the name `name`.
pub fn find_package(packages: &Vec<PackageMetadata>, name: &str) -> (r: Option<usize>)
    ensures
        match r {
            Some(i) => i < packages.len() && position_of(package_views(packages@), name@) == Some(
                i as int,
            ),
            None => position_of(package_views(packages@), name@) is None,
        },
{
    let ghost views = package_views(packages@);
    let mut i: usize = 0;
    while i < packages.len()
        invariant
            i <= packages.len(),
            views == package_views(packages@),
            position_of(views.take(i as int), name@) is None,
        decreases packages.len() - i,
    {
        proof {
            assert(views.take(i + 1).drop_last() =~= views.take(i as int));
            assert(views.take(i + 1).last() == packages@[i as int]@);
        }
        if same_text(packages[i].name.as_str(), name) {
            proof {
                lemma_position_extends(views, i + 1);
            }
            return Some(i);
        }
        i += 1;
    }
    assert(views.take(i as int) =~= views);
    None
}

/// A package found in a prefix is the one found in the whole list.
proof fn lemma_position_extends(packages: Seq<PackageMetadataView>, n: int)
    requires
        0 <= n <= packages.len(),
    ensures
        forall|name: Seq<char>|
            position_of(packages.take(n), name) is Some ==> #[trigger] position_of(
                packages,
                name,
            ) == position_of(packages.take(n), name),
    decreases packages.len() - n,
{
    if n == packages.len() {
        assert(packages.take(n) =~= packages);
    } else {
        assert(packages.take(n + 1).drop_last() =~= packages.take(n));
        lemma_position_extends(packages, n + 1);
        assert forall|name: Seq<char>| position_of(packages.take(n), name) is Some implies
            #[trigger] position_of(packages, name) == position_of(packages.take(n), name) by {
            assert(position_of(packages.take(n + 1), name) == position_of(
                packages.take(n),
                name,
            ));
        }
    }
}

impl PackageIdentity {
    /// Derives the identity from the report of the binding package, whose
    /// version string, if it has one, has been parsed to `parsed`.
    pub fn from_parsed(input: &str, metadata: &PackageMetadata, parsed: Option<Version>) -> (r:
        Result<PackageIdentity, LocationError>)
        ensures
            location_view(r) == identity_of(input@, metadata@, parsed),
    {
        match &metadata.version {
            None => Err(LocationError::MissingVersion { package: metadata.name.clone() }),
            Some(text) => match parsed {
                None => Err(LocationError::InvalidVersion { version: text.clone() }),
                Some(version) => {
                    let root_directory = match &metadata.crate_dir {
                        Some(dir) => dir.clone(),
                        None => String::from_str(input),
                    };
                    Ok(PackageIdentity { name: metadata.name.clone(), version, root_directory })
                },
            },
        }
    }

    /// Derives the identity from the report of the binding package.
    ///
    /// The declared version must parse as a semantic version. The root
    /// directory is the package's own, or `input` where the report has none.
    pub fn of_package(input: &str, metadata: &PackageMetadata) -> (r: Result<
        PackageIdentity,
        LocationError,
    >)
        ensures
            location_view(r) == identity_of(input@, metadata@, parsed_version(metadata@)),
    {
        let parsed = match &metadata.version {
            Some(text) => Version::parse(text.as_str()),
            None => None,
        };
        PackageIdentity::from_parsed(input, metadata, parsed)
    }

    /// Locates the binding package in the resolver's report on `input`.
    ///
    /// The binding package is the first one of the name `explicit`, or, where
    /// no name is given, of the name of the package at the input path.
    pub fn locate(input: &str, explicit: Option<&str>, metadata: &WorkspaceMetadata) -> (r: Result<
        PackageIdentity,
        LocationError,
    >)
        ensures
            location_view(r) == locate_outcome(
                input@,
                match explicit {
                    Some(name) => Some(name@),
                    None => None,
                },
                metadata@,
            ),
    {
        let name = match explicit {
            Some(name) => name,
            None => match &metadata.root_package {
                Some(name) => name.as_str(),
                None => {
                    return Err(LocationError::NoBindingPackage);
                },
            },
        };
        match find_package(&metadata.packages, name) {
            Some(i) => PackageIdentity::of_package(input, &metadata.packages[i]),
            None => Err(LocationError::PackageNotFound { name: String::from_str(name) }),
        }
    }
}

} // verus!
