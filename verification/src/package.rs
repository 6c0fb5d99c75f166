//! The package manifest model: the fields of a `package.json`, with the two
//! edits the orchestrator makes — adding a dependency and pinning an engine
//! range. Reading a manifest from disk and writing it back are the unverified
//! shell's work.

use crate::strmap::StringMap;
use vstd::prelude::*;

verus! {

/// A bare string, or a list.
pub enum StringOrArray<T> {
    String(String),
    Array(Vec<T>),
}

impl<T> DeepView for StringOrArray<T> {
    type V = StringOrArray<T>;

    open spec fn deep_view(&self) -> StringOrArray<T> {
        *self
    }
}

/// A bare string, or a structured value.
pub enum StringOrObject<T> {
    String(String),
    Object(T),
}

impl<T> DeepView for StringOrObject<T> {
    type V = StringOrObject<T>;

    open spec fn deep_view(&self) -> StringOrObject<T> {
        *self
    }
}

/// A bare string, a list, or a structured value.
pub enum StringArrayOrObject<T> {
    String(String),
    Array(Vec<T>),
    Object(T),
}

impl<T> DeepView for StringArrayOrObject<T> {
    type V = StringArrayOrObject<T>;

    open spec fn deep_view(&self) -> StringArrayOrObject<T> {
        *self
    }
}

pub type BinSet = StringMap<String>;

pub type DepsMetaSet = StringMap<DependencyMeta>;

pub type DepsSet = StringMap<String>;

pub type EnginesSet = StringMap<String>;

pub type OverridesSet = StringMap<StringOrObject<DepsSet>>;

pub type PeerDepsMetaSet = StringMap<PeerDependencyMeta>;

pub type ScriptsSet = StringMap<String>;

pub type Bin = StringOrArray<BinSet>;

/// Where to report problems.
pub struct Bug {
    pub email: Option<String>,
    pub url: Option<String>,
}

/// Per-dependency installation metadata.
pub struct DependencyMeta {
    pub optional: Option<bool>,
    pub built: Option<bool>,
    pub unplugged: Option<bool>,
    pub injected: Option<bool>,
}

impl DeepView for DependencyMeta {
    type V = DependencyMeta;

    open spec fn deep_view(&self) -> DependencyMeta {
        *self
    }
}

/// The package's conventional directories.
pub struct Directories {
    pub bin: Option<String>,
    pub man: Option<String>,
}

/// One way to fund the package.
pub struct FundingMetadata {
    pub type_of: String,
    pub url: String,
}

pub type Funding = StringArrayOrObject<FundingMetadata>;

/// One license the package is offered under.
pub struct LicenseMetadata {
    pub type_of: String,
    pub url: String,
}

pub type License = StringArrayOrObject<LicenseMetadata>;

/// A person named in the manifest.
pub struct PersonMetadata {
    pub name: String,
    pub email: Option<String>,
    pub url: Option<String>,
}

pub type Person = StringOrObject<PersonMetadata>;

/// Per-peer-dependency metadata.
pub struct PeerDependencyMeta {
    pub optional: Option<bool>,
}

impl DeepView for PeerDependencyMeta {
    type V = PeerDependencyMeta;

    open spec fn deep_view(&self) -> PeerDependencyMeta {
        *self
    }
}

/// pnpm-specific manifest settings.
pub struct Pnpm {
    pub never_built_dependencies: Option<Vec<String>>,
    pub overrides: Option<OverridesSet>,
}

/// Where the package's source lives.
pub struct RepositoryMetadata {
    pub directory: Option<String>,
    pub type_of: String,
    pub url: String,
}

pub type Repository = StringOrObject<RepositoryMetadata>;

/// The expanded form of the workspaces field.
pub struct WorkspacesExpanded {
    pub nohoist: Option<Vec<String>>,
    pub packages: Option<Vec<String>>,
}

/// The workspaces field: a plain list of globs, or the expanded form.
pub enum Workspaces {
    Array(Vec<String>),
    Object(WorkspacesExpanded),
}

/// A package manifest. Free-form fields a manifest may carry beyond these
/// (arbitrary JSON values) stay with the shell that reads and writes the file.
pub struct PackageJson {
    pub author: Option<Person>,
    pub bin: Option<Bin>,
    pub browser: Option<String>,
    pub bugs: Option<Bug>,
    pub bundled_dependencies: Option<Vec<String>>,
    pub contributors: Option<Vec<Person>>,
    pub cpu: Option<Vec<String>>,
    pub dependencies: Option<DepsSet>,
    pub description: Option<String>,
    pub dev_dependencies: Option<DepsSet>,
    pub directories: Option<Directories>,
    pub engines: Option<EnginesSet>,
    pub files: Option<Vec<String>>,
    pub funding: Option<Funding>,
    pub homepage: Option<String>,
    pub keywords: Option<Vec<String>>,
    pub license: Option<License>,
    pub main: Option<String>,
    pub man: Option<StringOrArray<String>>,
    pub module: Option<String>,
    pub name: Option<String>,
    pub optional_dependencies: Option<DepsSet>,
    pub os: Option<Vec<String>>,
    pub overrides: Option<OverridesSet>,
    pub peer_dependencies: Option<DepsSet>,
    pub peer_dependencies_meta: Option<PeerDepsMetaSet>,
    pub private: Option<bool>,
    pub repository: Option<Repository>,
    pub scripts: Option<ScriptsSet>,
    pub type_of: Option<String>,
    pub version: Option<String>,
    pub workspaces: Option<Workspaces>,
    pub package_manager: Option<String>,
    pub pnpm: Option<Pnpm>,
    pub dependencies_meta: Option<DepsMetaSet>,
    pub language_name: Option<String>,
    pub prefer_unplugged: Option<bool>,
    pub resolutions: Option<DepsSet>,
    /// Where the manifest was read from.
    pub path: String,
}

/// The dependencies map, empty when the field is absent.
pub open spec fn deps_view(p: PackageJson) -> Map<Seq<char>, Seq<char>> {
    match p.dependencies {
        Some(d) => d@,
        None => Map::empty(),
    }
}

/// The engines map, empty when the field is absent.
pub open spec fn engines_view(p: PackageJson) -> Map<Seq<char>, Seq<char>> {
    match p.engines {
        Some(e) => e@,
        None => Map::empty(),
    }
}

/// `p` with only its dependencies replaced.
pub open spec fn with_dependencies(p: PackageJson, d: Option<DepsSet>) -> PackageJson {
    PackageJson { dependencies: d, ..p }
}

/// `p` with only its engines replaced.
pub open spec fn with_engines(p: PackageJson, e: Option<EnginesSet>) -> PackageJson {
    PackageJson { engines: e, ..p }
}

impl PackageJson {
    /// Add `name` at `range` to the dependencies. With `if_missing`, an
    /// already-present dependency is kept as it is and nothing changes;
    /// returns whether the manifest changed.
    pub fn add_dependency(&mut self, name: String, range: String, if_missing: bool) -> (r: bool)
        ensures
            r == !(if_missing && deps_view(*old(self)).contains_key(name@)),
            !r ==> *final(self) == *old(self),
            r ==> final(self).dependencies is Some && deps_view(*final(self)) == deps_view(
                *old(self),
            ).insert(name@, range@),
            *final(self) == with_dependencies(*old(self), final(self).dependencies),
    {
        let mut dependencies = match &self.dependencies {
            Some(deps) => deps.duplicate(),
            None => StringMap::new(),
        };

        // only added when the dependency does not already exist
        if if_missing && dependencies.contains_key(&name) {
            return false;
        }

        dependencies.insert(name, range);

        self.dependencies = Some(dependencies);

        true
    }

    /// Pin `engine` to `range` in the engines field; returns whether the new
    /// value differs from the old one (an equal pin changes nothing).
    pub fn add_engine(&mut self, engine: &str, range: &str) -> (r: bool)
        ensures
            r == !(engines_view(*old(self)).contains_key(engine@)
                && engines_view(*old(self))[engine@] == range@),
            !r ==> *final(self) == *old(self),
            r ==> final(self).engines is Some && engines_view(*final(self)) == engines_view(
                *old(self),
            ).insert(engine@, range@),
            *final(self) == with_engines(*old(self), final(self).engines),
    {
        let engine_key = engine.to_owned();
        let range_val = range.to_owned();
        if let Some(engines) = &self.engines {
            if let Some(existing) = engines.get(&engine_key) {
                if *existing == range_val {
                    return false;
                }
            }
        }
        let mut engines = match &self.engines {
            Some(e) => e.duplicate(),
            None => StringMap::new(),
        };
        engines.insert(engine_key, range_val);
        self.engines = Some(engines);
        true
    }
}

} // verus!
