//! Discovery of installed lenses.
//!
//! A lens lives in a directory of its own below the lenses directory:
//!
//! ```text
//! ~/.graphyn/lenses/
//! ├── figma/
//! │   ├── lens.toml           # manifest
//! │   ├── lens.output.yaml    # output contract
//! │   └── libfigma.dylib      # compiled lens
//! └── vibe/
//!     ├── lens.toml
//!     └── libvibe.dylib
//! ```
//!
//! The host lists the directories and reads the files; what it found is
//! reconciled here into one validated unit per lens.

use vstd::prelude::*;
use crate::error::LensError;
use crate::files::{
    home_dir, join_path, path_debug, path_debug_text, path_exists, path_is_dir, path_joined,
    Loaded,
};
use crate::manifest::LensManifest;
use crate::output_spec::{
    is_invalid_input, output_spec_outcome, LensOutputSpec, OUTPUT_SPEC_FILENAME,
};
use crate::text::{replace_char, replaced, same_text};

verus! {

/// Manifest filename.
pub const MANIFEST_FILENAME: &'static str = "lens.toml";

/// Default lenses directory name.
pub const LENS_DIR: &'static str = "lenses";

/// The family of platforms that the host runs on, as far as the names of
/// shared libraries go.
#[derive(Debug, Clone, Copy, PartialEq, Eq, Structural)]
pub enum Platform {
    /// Libraries end in `dylib`, or in `so`.
    MacOs,
    /// Libraries end in `dll`.
    Windows,
    /// Libraries end in `so`.
    Other,
}

/// What the host found in one directory below the lenses directory.
#[derive(Debug, Clone)]
pub struct LensDirectory {
    /// Path to the directory.
    pub path: std::path::PathBuf,
    /// The manifest, where a file of its name stands in the directory.
    pub manifest: Option<Loaded<LensManifest>>,
    /// The output contract as written, where a file of its name stands in
    /// the directory.
    pub output_spec: Option<Loaded<LensOutputSpec>>,
    /// Names of the files that exist directly in the directory.
    pub files: Vec<String>,
    /// Names of the files that exist in the build output directory below it.
    pub build_files: Vec<String>,
}

/// One entry of the lenses directory.
#[derive(Debug, Clone)]
pub enum DirectoryEntry {
    /// The entry could not be read; the text is the cause.
    Unreadable(String),
    /// The entry is not a directory.
    NotADirectory,
    /// The entry is a directory, with what was found in it.
    Lens(LensDirectory),
}

/// What the host found at the lenses directory.
#[derive(Debug, Clone)]
pub enum RootListing {
    /// There is no directory at that path.
    Absent,
    /// The directory could not be listed; the text is the cause.
    Unreadable(String),
    /// The entries of the directory, in the order in which they were listed.
    Entries(Vec<DirectoryEntry>),
}

/// A discovered lens with its manifest and location.
#[derive(Debug, Clone)]
pub struct DiscoveredLens {
    /// Parsed lens manifest.
    pub manifest: LensManifest,
    /// Path to the lens directory.
    pub path: std::path::PathBuf,
    /// Path to the manifest file.
    pub manifest_path: std::path::PathBuf,
    /// Path to the output contract, if there is one.
    pub output_spec_path: Option<std::path::PathBuf>,
    /// The validated output contract, if there is one.
    pub output_spec: Option<LensOutputSpec>,
    /// Path to the compiled lens library, if there is one.
    pub library_path: Option<std::path::PathBuf>,
}

/// The outcome of a scan: the lenses that were found, and a warning for each
/// directory that was passed over.
#[derive(Debug, Clone)]
pub struct ScanReport {
    /// The discovered lenses, in the order of their directories.
    pub lenses: Vec<DiscoveredLens>,
    /// The warnings, in the order of the directories they are about.
    pub warnings: Vec<String>,
}

/// A file name under which the library of a lens is looked for, and the
/// place where: the lens directory, or the build output directory below it.
#[derive(Debug, Clone)]
pub struct LibraryCandidate {
    /// Whether the file is looked for in the build output directory.
    pub in_build_dir: bool,
    /// The file name.
    pub file_name: String,
}

/// What a `LibraryCandidate` holds, as plain values.
pub struct LibraryCandidateView {
    pub in_build_dir: bool,
    pub file_name: Seq<char>,
}

impl View for LibraryCandidate {
    type V = LibraryCandidateView;

    open spec fn view(&self) -> LibraryCandidateView {
        LibraryCandidateView { in_build_dir: self.in_build_dir, file_name: self.file_name@ }
    }
}

/// The extensions under which a library is looked for, in order.
pub open spec fn library_extensions(platform: Platform) -> Seq<Seq<char>> {
    match platform {
        Platform::MacOs => seq!["dylib"@, "so"@],
        Platform::Windows => seq!["dll"@],
        Platform::Other => seq!["so"@],
    }
}

/// The name of a lens as it stands in the file name of its library: the id
/// with every hyphen replaced by an underscore.
pub open spec fn library_stem(lens_id: Seq<char>) -> Seq<char> {
    replaced(lens_id, '-', '_')
}

/// The two file names tried for one extension, in one place: first with the
/// prefix `lib`, then without.
pub open spec fn names_for(stem: Seq<char>, extension: Seq<char>, in_build_dir: bool) -> Seq<
    LibraryCandidateView,
> {
    seq![
        LibraryCandidateView { in_build_dir, file_name: "lib"@ + stem + "."@ + extension },
        LibraryCandidateView { in_build_dir, file_name: stem + "."@ + extension },
    ]
}

/// The candidates in one place, for the extensions up to `count`.
pub open spec fn candidates_in(
    stem: Seq<char>,
    extensions: Seq<Seq<char>>,
    in_build_dir: bool,
    count: int,
) -> Seq<LibraryCandidateView>
    decreases count,
{
    if count <= 0 {
        Seq::empty()
    } else {
        candidates_in(stem, extensions, in_build_dir, count - 1) + names_for(
            stem,
            extensions[count - 1],
            in_build_dir,
        )
    }
}

/// Every candidate for the library of a lens, in the order in which they are
/// tried: the lens directory for each extension, then the build output
/// directory for each extension.
pub open spec fn library_candidates_of(lens_id: Seq<char>, platform: Platform) -> Seq<
    LibraryCandidateView,
> {
    let stem = library_stem(lens_id);
    let extensions = library_extensions(platform);
    candidates_in(stem, extensions, false, extensions.len() as int) + candidates_in(
        stem,
        extensions,
        true,
        extensions.len() as int,
    )
}

/// The path at which the manifest of a lens directory is looked for.
pub open spec fn manifest_path_of(dir: std::path::PathBuf) -> std::path::PathBuf {
    path_joined(dir, MANIFEST_FILENAME@)
}

/// The path at which the output contract of a lens directory is looked for.
pub open spec fn output_spec_path_of(dir: std::path::PathBuf) -> std::path::PathBuf {
    path_joined(dir, OUTPUT_SPEC_FILENAME@)
}

/// The build output directory below a lens directory.
pub open spec fn build_dir_of(dir: std::path::PathBuf) -> std::path::PathBuf {
    path_joined(path_joined(dir, "target"@), "release"@)
}

/// Whether a file name is among the names listed.
pub open spec fn is_listed(names: Seq<String>, name: Seq<char>) -> bool {
    exists|i: int| 0 <= i < names.len() && names[i]@ == name
}

/// Where a candidate is, if it is there: its file name adjoined to the lens
/// directory, or to the build output directory below it, where the name is
/// among the files of that place.
pub open spec fn located(dir: LensDirectory, candidate: LibraryCandidateView) -> Option<
    std::path::PathBuf,
> {
    if candidate.in_build_dir {
        if is_listed(dir.build_files@, candidate.file_name) {
            Some(path_joined(build_dir_of(dir.path), candidate.file_name))
        } else {
            None
        }
    } else {
        if is_listed(dir.files@, candidate.file_name) {
            Some(path_joined(dir.path, candidate.file_name))
        } else {
            None
        }
    }
}

/// Where the first candidate at or after `from` that is there is.
pub open spec fn first_located(
    dir: LensDirectory,
    candidates: Seq<LibraryCandidateView>,
    from: int,
) -> Option<std::path::PathBuf>
    decreases candidates.len() - from,
{
    if from < 0 || from >= candidates.len() {
        None
    } else {
        match located(dir, candidates[from]) {
            Some(path) => Some(path),
            None => first_located(dir, candidates, from + 1),
        }
    }
}

/// The printed form of an `InvalidInput` error with this cause.
pub open spec fn invalid_input_text(cause: Seq<char>) -> Seq<char> {
    "Invalid lens input: "@ + cause
}

/// What loading a manifest from the file at `path` comes to.
pub open spec fn manifest_outcome(path: std::path::PathBuf, file: Loaded<LensManifest>) -> Result<
    LensManifest,
    Seq<char>,
> {
    match file {
        Loaded::Unreadable(cause) => Err(
            "Failed to read manifest "@ + path_debug_text(path) + ": "@ + cause@,
        ),
        Loaded::Malformed(cause) => Err("Failed to parse manifest: "@ + cause@),
        Loaded::Parsed(manifest) => Ok(manifest),
    }
}

/// Load a manifest from what the host read at `path`.
pub fn load_manifest(path: &std::path::PathBuf, file: Loaded<LensManifest>) -> (r: Result<
    LensManifest,
    LensError,
>)
    ensures
        (match manifest_outcome(*path, file) {
            Ok(manifest) => r == Ok::<LensManifest, LensError>(manifest),
            Err(message) => r matches Err(e) && is_invalid_input(e, message),
        }),
{
    match file {
        Loaded::Unreadable(cause) => {
            let mut message = String::from_str("Failed to read manifest ");
            message.append(path_debug(path).as_str());
            message.append(": ");
            message.append(cause.as_str());
            Err(LensError::InvalidInput(message))
        },
        Loaded::Malformed(cause) => {
            let mut message = String::from_str("Failed to parse manifest: ");
            message.append(cause.as_str());
            Err(LensError::InvalidInput(message))
        },
        Loaded::Parsed(manifest) => Ok(manifest),
    }
}

/// Load an output contract from what the host read at `path`, and validate
/// it.
pub fn load_output_spec(path: &std::path::PathBuf, file: Loaded<LensOutputSpec>) -> (r: Result<
    LensOutputSpec,
    LensError,
>)
    ensures
        (match output_spec_outcome(*path, file) {
            Ok(spec) => r == Ok::<LensOutputSpec, LensError>(spec),
            Err(message) => r matches Err(e) && is_invalid_input(e, message),
        }),
{
    LensOutputSpec::from_file(path, file)
}

impl DiscoveredLens {
    /// Get the lens ID from the manifest.
    pub fn id(&self) -> (r: &str)
        ensures
            r@ == self.manifest.lens.id@,
    {
        self.manifest.lens.id.as_str()
    }

    /// Get the lens name from the manifest.
    pub fn name(&self) -> (r: &str)
        ensures
            r@ == self.manifest.lens.name@,
    {
        self.manifest.lens.name.as_str()
    }

    /// Get the lens version from the manifest.
    pub fn version(&self) -> (r: &str)
        ensures
            r@ == self.manifest.lens.version@,
    {
        self.manifest.lens.version.as_str()
    }

    /// Get the path to a component file, relative to the lens directory.
    pub fn component_path(&self, component: &str) -> (r: std::path::PathBuf)
        ensures
            r == path_joined(self.path, component@),
    {
        join_path(&self.path, component)
    }
}

/// Lens discovery service.
#[derive(Debug, Clone)]
pub struct LensDiscovery {
    /// Base directory to scan for lenses.
    lenses_dir: std::path::PathBuf,
    /// The platform whose library names are looked for.
    platform: Platform,
}

/// The lenses and the warnings that a scan has gathered so far.
pub struct Gathered {
    pub lenses: Seq<DiscoveredLens>,
    pub warnings: Seq<Seq<char>>,
}

impl LensDiscovery {
    /// The directory that is scanned.
    pub closed spec fn dir(&self) -> std::path::PathBuf {
        self.lenses_dir
    }

    /// The platform whose library names are looked for.
    pub closed spec fn target(&self) -> Platform {
        self.platform
    }

    /// Create a new discovery instance for the given directory.
    pub fn new(lenses_dir: std::path::PathBuf, platform: Platform) -> (r: Self)
        ensures
            r.dir() == lenses_dir,
            r.target() == platform,
    {
        LensDiscovery { lenses_dir, platform }
    }

    /// Create discovery for the lenses directory below the home directory,
    /// where the host knows of one.
    pub fn from_home(home: Option<std::path::PathBuf>, platform: Platform) -> (r: Result<
        Self,
        LensError,
    >)
        ensures
            (match home {
                Some(home) => r matches Ok(d) && d.dir() == path_joined(
                    path_joined(home, ".graphyn"@),
                    LENS_DIR@,
                ) && d.target() == platform,
                None => r matches Err(LensError::Initialization(m)) && m@
                    == "Could not determine home directory"@,
            }),
    {
        match home {
            Some(home) => {
                let graphyn_dir = join_path(&home, ".graphyn");
                Ok(LensDiscovery::for_graphyn_dir(&graphyn_dir, platform))
            },
            None => Err(
                LensError::Initialization(String::from_str("Could not determine home directory")),
            ),
        }
    }

    /// Create discovery for the default `~/.graphyn/lenses` directory: the
    /// lenses directory below whatever home directory the environment gives.
    /// Fails only where the home directory cannot be determined.
    pub fn default_directory(platform: Platform) -> (r: Result<Self, LensError>)
        ensures
            r matches Ok(d) ==> d.target() == platform && exists|home: std::path::PathBuf|
                d.dir() == path_joined(path_joined(home, ".graphyn"@), LENS_DIR@),
            r matches Err(e) ==> e matches LensError::Initialization(m) && m@
                == "Could not determine home directory"@,
    {
        let home = home_dir();
        let ghost given = home;
        let r = LensDiscovery::from_home(home, platform);
        proof {
            if let Some(found) = given {
                let d = r->Ok_0;
                assert(d.dir() == path_joined(path_joined(found, ".graphyn"@), LENS_DIR@));
            }
        }
        r
    }

    /// Create discovery for a custom graphyn directory.
    pub fn for_graphyn_dir(graphyn_dir: &std::path::PathBuf, platform: Platform) -> (r: Self)
        ensures
            r.dir() == path_joined(*graphyn_dir, LENS_DIR@),
            r.target() == platform,
    {
        LensDiscovery::new(join_path(graphyn_dir, LENS_DIR), platform)
    }

    /// Get the lenses directory path.
    pub fn plugins_dir(&self) -> (r: &std::path::PathBuf)
        ensures
            *r == self.dir(),
    {
        &self.lenses_dir
    }

    /// Check if the lenses directory exists on disk, as a directory.
    pub fn dir_exists(&self) -> (r: bool) {
        // Both answers are the disk's, as it stands at the moment of each
        // question; what is made of them is `is_present`.
        let found = path_exists(&self.lenses_dir);
        let is_directory = if found {
            path_is_dir(&self.lenses_dir)
        } else {
            false
        };
        LensDiscovery::is_present(found, is_directory)
    }

    /// Whether a lenses directory is there, given what the disk answered of
    /// its path: something has to stand at the path, and what stands there
    /// has to be a directory.
    pub fn is_present(found: bool, is_directory: bool) -> (r: bool)
        ensures
            r == (found && is_directory),
    {
        found && is_directory
    }

    /// The candidates for the library of a lens, in the order in which they
    /// are tried.
    pub fn library_candidates(&self, lens_id: &str) -> (r: Vec<LibraryCandidate>)
        ensures
            r@.map_values(|c: LibraryCandidate| c@) == library_candidates_of(lens_id@, self.target()),
    {
        let stem = replace_char(lens_id, '-', '_');
        let mut extensions: Vec<&'static str> = Vec::new();
        match self.platform {
            Platform::MacOs => {
                extensions.push("dylib");
                extensions.push("so");
            },
            Platform::Windows => {
                extensions.push("dll");
            },
            Platform::Other => {
                extensions.push("so");
            },
        }
        let ghost wanted = library_extensions(self.platform);
        assert(extensions@.map_values(|e: &'static str| e@) =~= wanted);
        let mut out: Vec<LibraryCandidate> = Vec::new();
        let mut pass: usize = 0;
        while pass < 2
            invariant
                pass <= 2,
                stem@ == library_stem(lens_id@),
                extensions@.map_values(|e: &'static str| e@) == wanted,
                wanted == library_extensions(self.platform),
                pass == 0 ==> out@.len() == 0,
                pass == 1 ==> out@.map_values(|c: LibraryCandidate| c@) == candidates_in(
                    stem@,
                    wanted,
                    false,
                    wanted.len() as int,
                ),
                pass == 2 ==> out@.map_values(|c: LibraryCandidate| c@) == library_candidates_of(
                    lens_id@,
                    self.platform,
                ),
            decreases 2 - pass,
        {
            let in_build_dir = pass == 1;
            let ghost before = out@.map_values(|c: LibraryCandidate| c@);
            let mut e: usize = 0;
            while e < extensions.len()
                invariant
                    e <= extensions@.len(),
                    stem@ == library_stem(lens_id@),
                    extensions@.map_values(|e: &'static str| e@) == wanted,
                    out@.map_values(|c: LibraryCandidate| c@) == before + candidates_in(
                        stem@,
                        wanted,
                        in_build_dir,
                        e as int,
                    ),
                decreases extensions@.len() - e,
            {
                let extension = extensions[e];
                assert(wanted[e as int] == extension@);
                let ghost gathered = out@.map_values(|c: LibraryCandidate| c@);
                let mut prefixed = String::from_str("lib");
                prefixed.append(stem.as_str());
                prefixed.append(".");
                prefixed.append(extension);
                let mut bare = stem.clone();
                bare.append(".");
                bare.append(extension);
                let ghost pair = names_for(stem@, extension@, in_build_dir);
                assert(prefixed@ == pair[0].file_name);
                assert(bare@ == pair[1].file_name);
                out.push(LibraryCandidate { in_build_dir, file_name: prefixed });
                out.push(LibraryCandidate { in_build_dir, file_name: bare });
                e += 1;
                assert(out@.map_values(|c: LibraryCandidate| c@) =~= gathered + pair);
                assert(out@.map_values(|c: LibraryCandidate| c@) =~= before + candidates_in(
                    stem@,
                    wanted,
                    in_build_dir,
                    e as int,
                ));
            }
            assert(wanted.len() == extensions@.len());
            pass += 1;
        }
        out
    }

    /// Find the compiled library of a lens among the files that the host
    /// found: the path of the first candidate that is there, if any is.
    #[verifier::loop_isolation(false)]
    pub fn find_library(&self, dir: &LensDirectory, lens_id: &str) -> (r: Option<std::path::PathBuf>)
        ensures
            r == first_located(*dir, library_candidates_of(lens_id@, self.target()), 0),
    {
        let candidates = self.library_candidates(lens_id);
        let ghost wanted = library_candidates_of(lens_id@, self.platform);
        let mut i: usize = 0;
        while i < candidates.len()
            invariant
                i <= candidates@.len(),
                candidates@.map_values(|c: LibraryCandidate| c@) == wanted,
                first_located(*dir, wanted, 0) == first_located(*dir, wanted, i as int),
            decreases candidates@.len() - i,
        {
            let candidate = &candidates[i];
            assert(wanted[i as int] == candidate@);
            let files = if candidate.in_build_dir {
                &dir.build_files
            } else {
                &dir.files
            };
            let mut k: usize = 0;
            while k < files.len()
                invariant
                    k <= files@.len(),
                    forall|j: int| 0 <= j < k ==> files@[j]@ != candidate.file_name@,
                decreases files@.len() - k,
            {
                if same_text(files[k].as_str(), candidate.file_name.as_str()) {
                    assert(is_listed(files@, candidate.file_name@));
                    if candidate.in_build_dir {
                        let build_dir = join_path(&join_path(&dir.path, "target"), "release");
                        return Some(join_path(&build_dir, candidate.file_name.as_str()));
                    } else {
                        return Some(join_path(&dir.path, candidate.file_name.as_str()));
                    }
                }
                k += 1;
            }
            assert(!is_listed(files@, candidate.file_name@));
            i += 1;
        }
        None
    }
}

/// The first of `lenses`, at or after `from`, that has the id.
pub open spec fn first_with_id(lenses: Seq<DiscoveredLens>, id: Seq<char>, from: int) -> Option<
    DiscoveredLens,
>
    decreases lenses.len() - from,
{
    if from < 0 || from >= lenses.len() {
        None
    } else if lenses[from].manifest.lens.id@ == id {
        Some(lenses[from])
    } else {
        first_with_id(lenses, id, from + 1)
    }
}

/// An `Initialization` error that carries exactly this message.
pub open spec fn is_initialization(e: LensError, message: Seq<char>) -> bool {
    e matches LensError::Initialization(m) && m@ == message
}

impl LensDiscovery {
    /// The output contract that goes with a manifest, given what was found
    /// at the path of the contract: none where no file stands there; else
    /// the contract, which has to load, to be valid and to name the lens of
    /// the manifest.
    pub open spec fn attached_contract(dir: LensDirectory, manifest: LensManifest) -> Result<
        Option<LensOutputSpec>,
        Seq<char>,
    > {
        let shown = path_debug_text(output_spec_path_of(dir.path));
        match dir.output_spec {
            None => Ok(None),
            Some(file) => match output_spec_outcome(output_spec_path_of(dir.path), file) {
                Err(cause) => Err(
                    "Failed to load output spec "@ + shown + ": "@ + invalid_input_text(cause),
                ),
                Ok(spec) => if spec.lens_id@ == manifest.lens.id@ {
                    Ok(Some(spec))
                } else {
                    Err(
                        "Failed to load output spec "@ + shown + ": lens_id '"@ + spec.lens_id@
                            + "' does not match the manifest id '"@ + manifest.lens.id@ + "'"@,
                    )
                },
            },
        }
    }

    /// What loading the lens of a directory comes to: the lens, or the cause
    /// for which there is none.
    pub open spec fn outcome(&self, dir: LensDirectory) -> Result<DiscoveredLens, Seq<char>> {
        match dir.manifest {
            None => Err("No "@ + MANIFEST_FILENAME@ + " found in "@ + path_debug_text(dir.path)),
            Some(Loaded::Unreadable(cause)) => Err(
                "Failed to read manifest "@ + path_debug_text(manifest_path_of(dir.path)) + ": "@
                    + cause@,
            ),
            Some(Loaded::Malformed(cause)) => Err(
                "Failed to parse manifest "@ + path_debug_text(manifest_path_of(dir.path)) + ": "@
                    + cause@,
            ),
            Some(Loaded::Parsed(manifest)) => match Self::attached_contract(dir, manifest) {
                Err(message) => Err(message),
                Ok(output_spec) => Ok(
                    DiscoveredLens {
                        manifest,
                        path: dir.path,
                        manifest_path: manifest_path_of(dir.path),
                        output_spec_path: if output_spec is Some {
                            Some(output_spec_path_of(dir.path))
                        } else {
                            None
                        },
                        output_spec,
                        library_path: first_located(
                            dir,
                            library_candidates_of(manifest.lens.id@, self.target()),
                            0,
                        ),
                    },
                ),
            },
        }
    }

    /// What becomes of one more entry, after `so_far` was gathered: an entry
    /// that could not be read ends the scan; one that is not a directory is
    /// passed over; a directory adds its lens, or a warning where it holds
    /// none that loads, or none with the output contract that is required.
    pub open spec fn gathered_with(
        &self,
        so_far: Gathered,
        entry: DirectoryEntry,
        require_output_spec: bool,
    ) -> Result<Gathered, Seq<char>> {
        match entry {
            DirectoryEntry::Unreadable(cause) => Err("Failed to read directory entry: "@ + cause@),
            DirectoryEntry::NotADirectory => Ok(so_far),
            DirectoryEntry::Lens(dir) => match self.outcome(dir) {
                Ok(lens) => if require_output_spec && lens.output_spec is None {
                    Ok(
                        Gathered {
                            lenses: so_far.lenses,
                            warnings: so_far.warnings.push(
                                "Warning: Lens at "@ + path_debug_text(dir.path) + " missing "@
                                    + OUTPUT_SPEC_FILENAME@,
                            ),
                        },
                    )
                } else {
                    Ok(Gathered { lenses: so_far.lenses.push(lens), warnings: so_far.warnings })
                },
                Err(message) => Ok(
                    Gathered {
                        lenses: so_far.lenses,
                        warnings: so_far.warnings.push(
                            "Warning: Failed to load lens from "@ + path_debug_text(dir.path)
                                + ": "@ + invalid_input_text(message),
                        ),
                    },
                ),
            },
        }
    }

    /// What a scan of these entries gathers, taking them in order.
    pub open spec fn gathered_from(
        &self,
        entries: Seq<DirectoryEntry>,
        require_output_spec: bool,
    ) -> Result<Gathered, Seq<char>>
        decreases entries.len(),
    {
        if entries.len() == 0 {
            Ok(Gathered { lenses: Seq::empty(), warnings: Seq::empty() })
        } else {
            match self.gathered_from(entries.drop_last(), require_output_spec) {
                Err(message) => Err(message),
                Ok(so_far) => self.gathered_with(so_far, entries.last(), require_output_spec),
            }
        }
    }

    /// What a scan comes to: nothing where the lenses directory is absent, a
    /// failure where it cannot be listed, else what its entries give.
    pub open spec fn scanned(&self, root: RootListing, require_output_spec: bool) -> Result<
        Gathered,
        Seq<char>,
    > {
        match root {
            RootListing::Absent => Ok(Gathered { lenses: Seq::empty(), warnings: Seq::empty() }),
            RootListing::Unreadable(cause) => Err(
                "Failed to read lenses directory "@ + path_debug_text(self.dir()) + ": "@ + cause@,
            ),
            RootListing::Entries(entries) => self.gathered_from(entries@, require_output_spec),
        }
    }

    /// Load a single lens from what the host found in its directory.
    pub fn load_lens(&self, dir: LensDirectory) -> (r: Result<DiscoveredLens, LensError>)
        ensures
            (match self.outcome(dir) {
                Ok(lens) => r == Ok::<DiscoveredLens, LensError>(lens),
                Err(message) => r matches Err(e) && is_invalid_input(e, message),
            }),
    {
        let library_path = match &dir.manifest {
            Some(Loaded::Parsed(manifest)) => self.find_library(&dir, manifest.lens.id.as_str()),
            _ => None,
        };
        let LensDirectory { path, manifest, output_spec, files: _, build_files: _ } = dir;
        let manifest_path = join_path(&path, MANIFEST_FILENAME);
        let output_spec_path = join_path(&path, OUTPUT_SPEC_FILENAME);
        let manifest = match manifest {
            None => {
                let mut message = String::from_str("No ");
                message.append(MANIFEST_FILENAME);
                message.append(" found in ");
                message.append(path_debug(&path).as_str());
                return Err(LensError::InvalidInput(message));
            },
            Some(Loaded::Unreadable(cause)) => {
                let mut message = String::from_str("Failed to read manifest ");
                message.append(path_debug(&manifest_path).as_str());
                message.append(": ");
                message.append(cause.as_str());
                return Err(LensError::InvalidInput(message));
            },
            Some(Loaded::Malformed(cause)) => {
                let mut message = String::from_str("Failed to parse manifest ");
                message.append(path_debug(&manifest_path).as_str());
                message.append(": ");
                message.append(cause.as_str());
                return Err(LensError::InvalidInput(message));
            },
            Some(Loaded::Parsed(manifest)) => manifest,
        };
        let (output_spec_path, output_spec) = match output_spec {
            None => (None, None),
            Some(file) => match load_output_spec(&output_spec_path, file) {
                Err(e) => {
                    let mut message = String::from_str("Failed to load output spec ");
                    message.append(path_debug(&output_spec_path).as_str());
                    message.append(": ");
                    message.append(e.to_string().as_str());
                    return Err(LensError::InvalidInput(message));
                },
                Ok(spec) => {
                    if !same_text(spec.lens_id.as_str(), manifest.lens.id.as_str()) {
                        let mut message = String::from_str("Failed to load output spec ");
                        message.append(path_debug(&output_spec_path).as_str());
                        message.append(": lens_id '");
                        message.append(spec.lens_id.as_str());
                        message.append("' does not match the manifest id '");
                        message.append(manifest.lens.id.as_str());
                        message.append("'");
                        return Err(LensError::InvalidInput(message));
                    }
                    (Some(output_spec_path), Some(spec))
                },
            },
        };
        Ok(
            DiscoveredLens {
                manifest,
                path,
                manifest_path,
                output_spec_path,
                output_spec,
                library_path,
            },
        )
    }

    /// Scan what the host found at the lenses directory, and report the
    /// lenses together with a warning for each directory that was passed
    /// over. One broken lens never ends the scan; an entry that could not be
    /// read does.
    pub fn scan_with_report(&self, root: RootListing, require_output_spec: bool) -> (r: Result<
        ScanReport,
        LensError,
    >)
        ensures
            (match self.scanned(root, require_output_spec) {
                Ok(gathered) => r matches Ok(report) && report.lenses@ == gathered.lenses
                    && report.warnings@.map_values(|w: String| w@) == gathered.warnings,
                Err(message) => r matches Err(e) && is_initialization(e, message),
            }),
    {
        let mut lenses: Vec<DiscoveredLens> = Vec::new();
        let mut warnings: Vec<String> = Vec::new();
        let entries = match root {
            RootListing::Absent => {
                assert(warnings@.map_values(|w: String| w@) =~= Seq::<Seq<char>>::empty());
                return Ok(ScanReport { lenses, warnings });
            },
            RootListing::Unreadable(cause) => {
                let mut message = String::from_str("Failed to read lenses directory ");
                message.append(path_debug(&self.lenses_dir).as_str());
                message.append(": ");
                message.append(cause.as_str());
                return Err(LensError::Initialization(message));
            },
            RootListing::Entries(entries) => entries,
        };
        assert(warnings@.map_values(|w: String| w@) =~= Seq::<Seq<char>>::empty());
        assert(entries@.take(0) =~= Seq::<DirectoryEntry>::empty());
        let ghost all = entries@;
        for entry in it: entries
            invariant
                it.seq() == all,
                self.scanned(root, require_output_spec) == self.gathered_from(
                    all,
                    require_output_spec,
                ),
                self.gathered_from(all.take(it.index()), require_output_spec) == Ok::<
                    Gathered,
                    Seq<char>,
                >(
                    Gathered {
                        lenses: lenses@,
                        warnings: warnings@.map_values(|w: String| w@),
                    },
                ),
        {
            let ghost done = it.index();
            let ghost so_far = Gathered {
                lenses: lenses@,
                warnings: warnings@.map_values(|w: String| w@),
            };
            let ghost noted = warnings@.map_values(|w: String| w@);
            proof {
                assert(entry == all[done]);
                assert(all.take(done + 1).drop_last() =~= all.take(done));
                assert(all.take(done + 1).last() == entry);
                assert(self.gathered_from(all.take(done + 1), require_output_spec)
                    == self.gathered_with(so_far, entry, require_output_spec));
            }
            match entry {
                DirectoryEntry::Unreadable(cause) => {
                    let mut message = String::from_str("Failed to read directory entry: ");
                    message.append(cause.as_str());
                    proof {
                        Self::lemma_failure_is_final(
                            *self,
                            all,
                            done + 1,
                            require_output_spec,
                        );
                        assert(all.take(all.len() as int) =~= all);
                    }
                    return Err(LensError::Initialization(message));
                },
                DirectoryEntry::NotADirectory => {},
                DirectoryEntry::Lens(dir) => {
                    let shown = path_debug(&dir.path);
                    match self.load_lens(dir) {
                        Ok(lens) => {
                            if require_output_spec && lens.output_spec.is_none() {
                                let mut warning = String::from_str("Warning: Lens at ");
                                warning.append(shown.as_str());
                                warning.append(" missing ");
                                warning.append(OUTPUT_SPEC_FILENAME);
                                let ghost text = warning@;
                                warnings.push(warning);
                                assert(warnings@.map_values(|w: String| w@) =~= noted.push(text));
                            } else {
                                lenses.push(lens);
                            }
                        },
                        Err(e) => {
                            let mut warning = String::from_str("Warning: Failed to load lens from ");
                            warning.append(shown.as_str());
                            warning.append(": ");
                            warning.append(e.to_string().as_str());
                            let ghost text = warning@;
                            warnings.push(warning);
                            assert(warnings@.map_values(|w: String| w@) =~= noted.push(text));
                        },
                    }
                },
            }
        }
        assert(all.take(all.len() as int) =~= all);
        Ok(ScanReport { lenses, warnings })
    }

    /// Once the entries up to `upto` have ended the scan, the rest cannot
    /// mend it.
    pub proof fn lemma_failure_is_final(
        discovery: LensDiscovery,
        entries: Seq<DirectoryEntry>,
        upto: int,
        require_output_spec: bool,
    )
        requires
            0 <= upto <= entries.len(),
            discovery.gathered_from(entries.take(upto), require_output_spec) is Err,
        ensures
            discovery.gathered_from(entries.take(entries.len() as int), require_output_spec)
                == discovery.gathered_from(entries.take(upto), require_output_spec),
        decreases entries.len() - upto,
    {
        if upto < entries.len() {
            assert(entries.take(upto + 1).drop_last() =~= entries.take(upto));
            Self::lemma_failure_is_final(discovery, entries, upto + 1, require_output_spec);
        }
    }

    /// Scan with a configurable validation policy: where an output contract
    /// is required, a lens without one is passed over.
    pub fn scan_with_options(&self, root: RootListing, require_output_spec: bool) -> (r: Result<
        Vec<DiscoveredLens>,
        LensError,
    >)
        ensures
            (match self.scanned(root, require_output_spec) {
                Ok(gathered) => r matches Ok(lenses) && lenses@ == gathered.lenses,
                Err(message) => r matches Err(e) && is_initialization(e, message),
            }),
    {
        match self.scan_with_report(root, require_output_spec) {
            Ok(report) => Ok(report.lenses),
            Err(e) => Err(e),
        }
    }

    /// Scan what the host found at the lenses directory and discover all
    /// lenses, with or without an output contract.
    pub fn scan(&self, root: RootListing) -> (r: Result<Vec<DiscoveredLens>, LensError>)
        ensures
            (match self.scanned(root, false) {
                Ok(gathered) => r matches Ok(lenses) && lenses@ == gathered.lenses,
                Err(message) => r matches Err(e) && is_initialization(e, message),
            }),
    {
        self.scan_with_options(root, false)
    }

    /// Get a specific lens by id: the first one that a scan finds under it.
    #[verifier::loop_isolation(false)]
    pub fn get_lens(&self, root: RootListing, lens_id: &str) -> (r: Result<
        Option<DiscoveredLens>,
        LensError,
    >)
        ensures
            (match self.scanned(root, false) {
                Ok(gathered) => r == Ok::<Option<DiscoveredLens>, LensError>(
                    first_with_id(gathered.lenses, lens_id@, 0),
                ),
                Err(message) => r matches Err(e) && is_initialization(e, message),
            }),
    {
        let mut lenses = match self.scan(root) {
            Ok(lenses) => lenses,
            Err(e) => {
                return Err(e);
            },
        };
        let ghost all = lenses@;
        let mut i: usize = 0;
        while i < lenses.len()
            invariant
                lenses@ == all,
                i <= all.len(),
                first_with_id(all, lens_id@, 0) == first_with_id(all, lens_id@, i as int),
            decreases all.len() - i,
        {
            if same_text(lenses[i].id(), lens_id) {
                let found = lenses.swap_remove(i);
                return Ok(Some(found));
            }
            i += 1;
        }
        Ok(None)
    }

    /// Check if a lens is installed: whether a scan finds one under the id.
    pub fn is_installed(&self, root: RootListing, lens_id: &str) -> (r: Result<bool, LensError>)
        ensures
            (match self.scanned(root, false) {
                Ok(gathered) => r == Ok::<bool, LensError>(
                    first_with_id(gathered.lenses, lens_id@, 0) is Some,
                ),
                Err(message) => r matches Err(e) && is_initialization(e, message),
            }),
    {
        match self.get_lens(root, lens_id) {
            Ok(found) => Ok(found.is_some()),
            Err(e) => Err(e),
        }
    }
}

/// A lenses directory that holds one lens, with a manifest that parsed and no
/// output contract, gives that one lens, without a contract, where no
/// contract is required, and no lens where one is.
pub proof fn lemma_scan_of_lens_without_contract(
    discovery: LensDiscovery,
    root: RootListing,
    dir: LensDirectory,
    manifest: LensManifest,
)
    requires
        root matches RootListing::Entries(entries) && entries@ == seq![DirectoryEntry::Lens(dir)],
        dir.manifest == Some(Loaded::Parsed(manifest)),
        dir.output_spec is None,
    ensures
        discovery.scanned(root, false) matches Ok(gathered) && gathered.lenses.len() == 1
            && gathered.lenses[0].manifest == manifest && gathered.lenses[0].output_spec is None,
        discovery.scanned(root, true) matches Ok(gathered) && gathered.lenses.len() == 0,
{
    let entries = seq![DirectoryEntry::Lens(dir)];
    assert(entries.drop_last() =~= Seq::<DirectoryEntry>::empty());
    assert(entries.last() == DirectoryEntry::Lens(dir));
    let nothing = Gathered { lenses: Seq::empty(), warnings: Seq::empty() };
    assert(discovery.gathered_from(entries.drop_last(), false) == Ok::<Gathered, Seq<char>>(
        nothing,
    ));
    assert(discovery.gathered_from(entries.drop_last(), true) == Ok::<Gathered, Seq<char>>(nothing));
    assert(discovery.outcome(dir) is Ok);
}

/// How many of the entries are directories.
pub open spec fn directories_among(entries: Seq<DirectoryEntry>) -> nat
    decreases entries.len(),
{
    if entries.len() == 0 {
        0
    } else if entries.last() is Lens {
        directories_among(entries.drop_last()) + 1
    } else {
        directories_among(entries.drop_last())
    }
}

/// Discovery is best effort: where every entry could be read, the scan
/// succeeds whatever the directories hold, and each directory gives either a
/// lens or a warning.
pub proof fn lemma_scan_is_best_effort(
    discovery: LensDiscovery,
    entries: Seq<DirectoryEntry>,
    require_output_spec: bool,
)
    requires
        forall|i: int| 0 <= i < entries.len() ==> !(entries[i] is Unreadable),
    ensures
        discovery.gathered_from(entries, require_output_spec) matches Ok(gathered)
            && gathered.lenses.len() + gathered.warnings.len() == directories_among(entries),
    decreases entries.len(),
{
    if entries.len() > 0 {
        let rest = entries.drop_last();
        assert forall|i: int| 0 <= i < rest.len() implies !(rest[i] is Unreadable) by {
            assert(rest[i] == entries[i]);
        }
        lemma_scan_is_best_effort(discovery, rest, require_output_spec);
        assert(!(entries[entries.len() - 1] is Unreadable));
    }
}

/// A lens is discovered only in a consistent state: it has the path of an
/// output contract exactly when it has the contract, and a contract that it
/// has is valid and names the lens of the manifest.
pub proof fn lemma_discovered_lens_is_consistent(discovery: LensDiscovery, dir: LensDirectory)
    requires
        discovery.outcome(dir) is Ok,
    ensures
        ({
            let lens = discovery.outcome(dir)->Ok_0;
            &&& dir.manifest == Some(Loaded::Parsed(lens.manifest))
            &&& lens.path == dir.path
            &&& lens.manifest_path == manifest_path_of(dir.path)
            &&& lens.output_spec_path is Some <==> lens.output_spec is Some
            &&& lens.output_spec_path matches Some(path) ==> path == output_spec_path_of(dir.path)
            &&& lens.output_spec matches Some(spec) ==> spec.is_valid() && spec.lens_id@
                == lens.manifest.lens.id@
        }),
{
}

} // verus!
