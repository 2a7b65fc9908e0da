//! The data of a lockfile that resolution reads.
use vstd::prelude::*;

verus! {

/// Where a locked binary package is fetched from.
pub enum PackageLocation {
    /// A download URL, held as its serialization.
    Url(String),
    /// A path on the local filesystem.
    Path(String),
}

/// One package of an environment's platform set. `R` is the package's
/// metadata record, which resolution carries through without reading.
#[allow(inconsistent_fields)]
pub enum LockedPackage<R> {
    /// An already built conda package.
    Binary { package_record: R, file_name: String, location: PackageLocation, channel: Option<String> },
    /// A conda package that would first have to be built from source.
    Source { location: String },
    /// A package of the Python package index.
    Pypi { location: String },
}

/// The packages locked for one platform of an environment, in lockfile order.
pub struct PlatformPackages<R> {
    pub platform: String,
    pub packages: Vec<LockedPackage<R>>,
}

/// A named environment with its per-platform package sets.
pub struct LockedEnvironment<R> {
    pub name: String,
    pub platforms: Vec<PlatformPackages<R>>,
}

/// A lockfile: its environments in file order.
pub struct LockFile<R> {
    pub environments: Vec<LockedEnvironment<R>>,
}

/// What the installation engine consumes for one package.
pub struct InstallableRecord<R> {
    pub package_record: R,
    pub file_name: String,
    pub url: String,
    pub channel: Option<String>,
}

/// The kinds of locked package that cannot be installed from a URL.
#[derive(PartialEq, Eq, Structural, Clone, Copy, Debug)]
pub enum PackageKind {
    PathPackage,
    SourcePackage,
    ForeignPackage,
}

/// Why an environment could not be resolved.
#[derive(Debug)]
pub enum ResolveError {
    /// The lockfile has no environment of this name.
    UnknownEnvironment(String),
    /// The environment has no packages for this platform: (environment, platform).
    UnsupportedPlatform(String, String),
    /// A package of this kind, at this location, cannot be installed.
    UnsupportedPackageKind(PackageKind, String),
}

impl PackageKind {
    /// A short description of the kind, as used in messages.
    pub fn describe(&self) -> (r: &'static str)
        ensures
            r@ == kind_text(*self),
    {
        match self {
            PackageKind::PathPackage => "path package",
            PackageKind::SourcePackage => "source package",
            PackageKind::ForeignPackage => "foreign package",
        }
    }
}

pub open spec fn kind_text(k: PackageKind) -> Seq<char> {
    match k {
        PackageKind::PathPackage => "path package"@,
        PackageKind::SourcePackage => "source package"@,
        PackageKind::ForeignPackage => "foreign package"@,
    }
}

/// A package can be installed exactly when it is a binary package with a URL.
pub open spec fn installable<R>(p: LockedPackage<R>) -> bool {
    p matches LockedPackage::Binary { location: PackageLocation::Url(_), .. }
}

/// The record that an installable package becomes.
pub open spec fn converted<R>(p: LockedPackage<R>) -> InstallableRecord<R>
    recommends
        installable(p),
{
    match p {
        LockedPackage::Binary { package_record, file_name, location, channel } => match location {
            PackageLocation::Url(url) => InstallableRecord { package_record, file_name, url, channel },
            PackageLocation::Path(_) => arbitrary(),
        },
        _ => arbitrary(),
    }
}

/// The error that a package which cannot be installed is rejected with.
pub open spec fn rejection<R>(p: LockedPackage<R>) -> ResolveError
    recommends
        !installable(p),
{
    match p {
        LockedPackage::Binary { location, .. } => match location {
            PackageLocation::Path(path) => ResolveError::UnsupportedPackageKind(PackageKind::PathPackage, path),
            PackageLocation::Url(_) => arbitrary(),
        },
        LockedPackage::Source { location } => ResolveError::UnsupportedPackageKind(PackageKind::SourcePackage, location),
        LockedPackage::Pypi { location } => ResolveError::UnsupportedPackageKind(PackageKind::ForeignPackage, location),
    }
}

/// Classifies one package and converts it when it is installable.
pub fn to_installable<R>(p: LockedPackage<R>) -> (r: Result<InstallableRecord<R>, ResolveError>)
    ensures
        r is Ok <==> installable(p),
        r matches Ok(rec) ==> rec == converted(p),
        r matches Err(e) ==> e == rejection(p),
{
    match p {
        LockedPackage::Binary { package_record, file_name, location, channel } => match location {
            PackageLocation::Url(url) => Ok(InstallableRecord { package_record, file_name, url, channel }),
            PackageLocation::Path(path) => Err(ResolveError::UnsupportedPackageKind(PackageKind::PathPackage, path)),
        },
        LockedPackage::Source { location } => Err(ResolveError::UnsupportedPackageKind(PackageKind::SourcePackage, location)),
        LockedPackage::Pypi { location } => Err(ResolveError::UnsupportedPackageKind(PackageKind::ForeignPackage, location)),
    }
}

} // verus!
