//! The configuration of a project and the places it gives to what is
//! built: every directory and file is a path under the project's root.
use vstd::prelude::*;
use vstd::string::StringExecFns;
use crate::utils::path::{is_relative_path, join_path, path_is_relative, path_join};

verus! {

/// The sub-directory where local or user configuration files are stored.
pub const CONFIG_SUBDIR: &'static str = ".config/shinc";

/// The name of the configuration file.
pub const CONFIG_FILENAME: &'static str = "config.toml";

#[derive(Debug, Clone, PartialEq, Eq)]
pub struct Config {
    /// The directory of the project.
    pub root: String,
    pub project: Project,
    /// The scripts to build, where the project names them.
    pub bin: Option<Vec<Bin>>,
    pub build: Option<Build>,
    pub dist: Dist,
    pub tools: Tools,
    pub release: Release,
}

#[derive(Debug, Clone, PartialEq, Eq)]
pub struct Project {
    pub name: String,
    pub version: String,
    pub description: Option<String>,
    pub homepage: Option<String>,
    pub repository: Option<String>,
    pub license: Option<String>,
}

#[derive(Debug, Clone, PartialEq, Eq)]
pub struct Bin {
    pub name: String,
    pub path: String,
}

/// What a [`Bin`] holds.
pub struct BinView {
    pub name: Seq<char>,
    pub path: Seq<char>,
}

impl View for Bin {
    type V = BinView;

    open spec fn view(&self) -> BinView {
        BinView { name: self.name@, path: self.path@ }
    }
}

/// The views of the scripts in `bins`.
pub open spec fn bins_view(bins: Seq<Bin>) -> Seq<BinView> {
    bins.map_values(|b: Bin| b@)
}

impl Bin {
    pub fn new(name: &str, path: &str) -> (bin: Bin)
        ensures
            bin@ == (BinView { name: name@, path: path@ }),
    {
        Bin { name: name.to_owned(), path: path.to_owned() }
    }

    pub fn name(&self) -> (name: &str)
        ensures
            name@ == self.name@,
    {
        self.name.as_str()
    }

    pub fn path(&self) -> (path: &str)
        ensures
            path@ == self.path@,
    {
        self.path.as_str()
    }
}

#[derive(Debug, Clone, PartialEq, Eq)]
pub struct Build {
    pub target_dir: Option<String>,
}

#[derive(Debug, Clone, PartialEq, Eq)]
pub struct Dist {
    pub name: Option<String>,
    pub include_extra: Vec<String>,
}

#[derive(Debug, Clone, PartialEq, Eq)]
pub struct Tools {
    pub shfmt: Shfmt,
}

#[derive(Debug, Clone, PartialEq, Eq)]
pub struct Shfmt {
    pub options: Vec<String>,
}

#[derive(Debug, Clone, PartialEq, Eq)]
pub struct Release {
    pub changelog: String,
}

/// The project has no configuration file.
#[derive(Debug, Clone, Copy, PartialEq, Eq)]
pub struct NoConfigFile;

impl NoConfigFile {
    pub fn message(&self) -> (text: String)
        ensures
            text@ == "No config file found"@,
    {
        String::from_str("No config file found")
    }
}

impl Project {
    pub fn name(&self) -> (name: &str)
        ensures
            name@ == self.name@,
    {
        self.name.as_str()
    }

    pub fn version(&self) -> (version: &str)
        ensures
            version@ == self.version@,
    {
        self.version.as_str()
    }

    pub fn repository(&self) -> (repository: Option<&String>)
        ensures
            match repository {
                Some(r) => self.repository == Some(*r),
                None => self.repository is None,
            },
    {
        self.repository.as_ref()
    }
}

impl Config {
    /// The path of `p` under the project's root.
    pub open spec fn root_path(&self, p: Seq<char>) -> Seq<char> {
        path_join(self.root@, p)
    }

    pub open spec fn src_dir_path(&self) -> Seq<char> {
        self.root_path("src"@)
    }

    /// The path of `p` under the source directory.
    pub open spec fn src_path(&self, p: Seq<char>) -> Seq<char> {
        path_join(self.src_dir_path(), p)
    }

    pub open spec fn main_file_path(&self) -> Seq<char> {
        self.src_path("main.sh"@)
    }

    /// The directory that everything is built into: the one the project
    /// names, or `target`, under the project's root.
    pub open spec fn target_dir_path(&self) -> Seq<char> {
        match self.build {
            Some(build) => match build.target_dir {
                Some(dir) => self.root_path(dir@),
                None => self.root_path("target"@),
            },
            None => self.root_path("target"@),
        }
    }

    /// The path of `p` under the target directory.
    pub open spec fn target_path(&self, p: Seq<char>) -> Seq<char> {
        path_join(self.target_dir_path(), p)
    }

    /// The path of `p` under the directory of shared files.
    pub open spec fn share_path(&self, p: Seq<char>) -> Seq<char> {
        path_join(self.target_path("share"@), p)
    }

    /// Where the configuration file of the project at `root` lies.
    pub open spec fn config_path(root: Seq<char>) -> Seq<char> {
        path_join(path_join(root, CONFIG_SUBDIR@), CONFIG_FILENAME@)
    }

    /// The scripts found without being named: the main file under the
    /// project's name, if it is there.
    pub open spec fn inferred_bins_model(&self, main_file_exists: bool) -> Seq<BinView> {
        if main_file_exists {
            seq![BinView { name: self.project.name@, path: self.main_file_path() }]
        } else {
            Seq::empty()
        }
    }

    /// The script with its path under the project's root, unless the path
    /// is absolute.
    pub open spec fn rooted(&self, bin: BinView) -> BinView {
        BinView {
            name: bin.name,
            path: if path_is_relative(bin.path) {
                self.root_path(bin.path)
            } else {
                bin.path
            },
        }
    }

    /// The scripts to build: those the project names, else those found,
    /// each with its path under the project's root.
    pub open spec fn bins_model(&self, main_file_exists: bool) -> Seq<BinView> {
        match self.bin {
            Some(bins) => bins_view(bins@).map_values(|b: BinView| self.rooted(b)),
            None => self.inferred_bins_model(main_file_exists).map_values(
                |b: BinView| self.rooted(b),
            ),
        }
    }

    /// The name of the distribution: the one the project gives, else the
    /// name of its only script, else the project's name.
    pub open spec fn dist_name_model(&self, main_file_exists: bool) -> Seq<char> {
        match self.dist.name {
            Some(name) => name@,
            None => {
                let bins = self.bins_model(main_file_exists);
                if bins.len() != 1 {
                    self.project.name@
                } else {
                    bins[0].name
                }
            },
        }
    }

    /// The configuration of the project at `root`, from its settings.
    pub fn new(
        root: String,
        project: Project,
        bin: Option<Vec<Bin>>,
        build: Option<Build>,
        dist: Dist,
        tools: Tools,
        release: Release,
    ) -> (config: Config)
        ensures
            config == (Config { root, project, bin, build, dist, tools, release }),
    {
        Config { root, project, bin, build, dist, tools, release }
    }

    pub fn locate_config_path(root: &str) -> (path: String)
        ensures
            path@ == Self::config_path(root@),
    {
        let dir = join_path(root, CONFIG_SUBDIR);
        join_path(dir.as_str(), CONFIG_FILENAME)
    }

    /// The configuration files to read for the project at `root`, on top
    /// of the defaults: its own file, which has to be there.
    /// `file_exists` says whether it is.
    pub fn config_files(root: &str, file_exists: bool) -> (r: Result<Vec<String>, NoConfigFile>)
        ensures
            match r {
                Ok(files) => file_exists && files@.len() == 1 && files@[0]@ == Self::config_path(
                    root@,
                ),
                Err(_) => !file_exists,
            },
    {
        if file_exists {
            let mut files: Vec<String> = Vec::new();
            files.push(Self::locate_config_path(root));
            Ok(files)
        } else {
            Err(NoConfigFile)
        }
    }

    pub fn path(&self) -> (path: String)
        ensures
            path@ == Self::config_path(self.root@),
    {
        Self::locate_config_path(self.root.as_str())
    }

    pub fn project(&self) -> (project: &Project)
        ensures
            *project == self.project,
    {
        &self.project
    }

    /// `main_file_exists` says whether the main file is there.
    pub fn inferred_bins(&self, main_file_exists: bool) -> (bins: Vec<Bin>)
        ensures
            bins_view(bins@) == self.inferred_bins_model(main_file_exists),
    {
        let mut bins: Vec<Bin> = Vec::new();
        let main_file = self.main_file();
        if main_file_exists {
            bins.push(Bin::new(self.project.name.as_str(), main_file.as_str()));
        }
        assert(bins_view(bins@) =~= self.inferred_bins_model(main_file_exists));
        bins
    }

    /// `main_file_exists` says whether the main file is there.
    pub fn bins(&self, main_file_exists: bool) -> (bins: Vec<Bin>)
        ensures
            bins_view(bins@) == self.bins_model(main_file_exists),
    {
        let inferred = self.inferred_bins(main_file_exists);
        let declared: &Vec<Bin> = match &self.bin {
            Some(bins) => bins,
            None => &inferred,
        };
        let mut bins: Vec<Bin> = Vec::new();
        let mut i: usize = 0;
        while i < declared.len()
            invariant
                i <= declared.len(),
                bins.len() == i,
                forall|j: int| 0 <= j < i ==> (#[trigger] bins@[j])@ == self.rooted(declared@[j]@),
            decreases declared.len() - i,
        {
            let bin = &declared[i];
            let path = if is_relative_path(bin.path.as_str()) {
                self.resolve_root_path(bin.path.as_str())
            } else {
                bin.path.clone()
            };
            bins.push(Bin { name: bin.name.clone(), path });
            i += 1;
        }
        assert(bins_view(bins@) =~= bins_view(declared@).map_values(|b: BinView| self.rooted(b)));
        bins
    }

    /// The path of `p` under the project's root; an absolute `p` is its
    /// own path.
    pub fn resolve_root_path(&self, p: &str) -> (path: String)
        ensures
            path@ == self.root_path(p@),
            !path_is_relative(p@) ==> path@ == p@,
    {
        join_path(self.root.as_str(), p)
    }

    pub fn src_dir(&self) -> (path: String)
        ensures
            path@ == self.src_dir_path(),
    {
        self.resolve_root_path("src")
    }

    pub fn resolve_src_path(&self, p: &str) -> (path: String)
        ensures
            path@ == self.src_path(p@),
    {
        join_path(self.src_dir().as_str(), p)
    }

    pub fn main_file(&self) -> (path: String)
        ensures
            path@ == self.main_file_path(),
    {
        self.resolve_src_path("main.sh")
    }

    pub fn target_dir(&self) -> (path: String)
        ensures
            path@ == self.target_dir_path(),
    {
        match &self.build {
            Some(build) => match &build.target_dir {
                Some(dir) => self.resolve_root_path(dir.as_str()),
                None => self.resolve_root_path("target"),
            },
            None => self.resolve_root_path("target"),
        }
    }

    pub fn bin_dir(&self) -> (path: String)
        ensures
            path@ == self.target_path("bin"@),
    {
        join_path(self.target_dir().as_str(), "bin")
    }

    pub fn bin_file(&self, name: &str) -> (path: String)
        ensures
            path@ == path_join(self.target_path("bin"@), name@),
    {
        join_path(self.bin_dir().as_str(), name)
    }

    pub fn build_dir(&self) -> (path: String)
        ensures
            path@ == self.target_path("build"@),
    {
        join_path(self.target_dir().as_str(), "build")
    }

    pub fn build_file(&self, name: &str) -> (path: String)
        ensures
            path@ == path_join(self.target_path("build"@), name@),
    {
        join_path(self.build_dir().as_str(), name)
    }

    pub fn share_dir(&self) -> (path: String)
        ensures
            path@ == self.target_path("share"@),
    {
        join_path(self.target_dir().as_str(), "share")
    }

    pub fn resolve_share_path(&self, p: &str) -> (path: String)
        ensures
            path@ == self.share_path(p@),
    {
        join_path(self.share_dir().as_str(), p)
    }

    pub fn man_dir(&self) -> (path: String)
        ensures
            path@ == self.share_path("man"@),
    {
        self.resolve_share_path("man")
    }

    pub fn man_file(&self, p: &str) -> (path: String)
        ensures
            path@ == path_join(self.share_path("man"@), p@),
    {
        join_path(self.man_dir().as_str(), p)
    }

    pub fn comp_dir(&self) -> (path: String)
        ensures
            path@ == self.share_path("completions"@),
    {
        self.resolve_share_path("completions")
    }

    pub fn comp_file(&self, p: &str) -> (path: String)
        ensures
            path@ == path_join(self.share_path("completions"@), p@),
    {
        join_path(self.comp_dir().as_str(), p)
    }

    pub fn dist_dir(&self) -> (path: String)
        ensures
            path@ == self.target_path("dist"@),
    {
        join_path(self.target_dir().as_str(), "dist")
    }

    pub fn dist_file(&self, name: &str) -> (path: String)
        ensures
            path@ == path_join(self.target_path("dist"@), name@),
    {
        join_path(self.dist_dir().as_str(), name)
    }

    /// `main_file_exists` says whether the main file is there.
    pub fn inferred_dist_name(&self, main_file_exists: bool) -> (name: String)
        ensures
            name@ == self.dist_name_model(main_file_exists),
    {
        let bins = self.bins(main_file_exists);
        match self.dist_name() {
            Some(name) => name.to_owned(),
            None => {
                if bins.len() != 1 {
                    self.project.name.clone()
                } else {
                    assert(bins_view(bins@)[0] == bins@[0]@);
                    bins[0].name.clone()
                }
            },
        }
    }

    pub fn dist_name(&self) -> (name: Option<&str>)
        ensures
            match name {
                Some(n) => self.dist.name matches Some(m) && n@ == m@,
                None => self.dist.name is None,
            },
    {
        match &self.dist.name {
            Some(name) => Some(name.as_str()),
            None => None,
        }
    }

    pub fn dist_include_extra_paths(&self) -> (paths: Vec<String>)
        ensures
            paths@.len() == self.dist.include_extra@.len(),
            forall|i: int|
                0 <= i < paths@.len() ==> (#[trigger] paths@[i])@ == self.dist.include_extra@[i]@,
    {
        let mut paths: Vec<String> = Vec::new();
        let mut i: usize = 0;
        while i < self.dist.include_extra.len()
            invariant
                i <= self.dist.include_extra.len(),
                paths.len() == i,
                forall|j: int|
                    0 <= j < i ==> (#[trigger] paths@[j])@ == self.dist.include_extra@[j]@,
            decreases self.dist.include_extra.len() - i,
        {
            paths.push(self.dist.include_extra[i].clone());
            i += 1;
        }
        paths
    }

    pub fn shfmt_options(&self) -> (options: Vec<&str>)
        ensures
            options@.len() == self.tools.shfmt.options@.len(),
            forall|i: int|
                0 <= i < options@.len() ==> (#[trigger] options@[i])@
                    == self.tools.shfmt.options@[i]@,
    {
        let mut options: Vec<&str> = Vec::new();
        let mut i: usize = 0;
        while i < self.tools.shfmt.options.len()
            invariant
                i <= self.tools.shfmt.options.len(),
                options.len() == i,
                forall|j: int|
                    0 <= j < i ==> (#[trigger] options@[j])@ == self.tools.shfmt.options@[j]@,
            decreases self.tools.shfmt.options.len() - i,
        {
            options.push(self.tools.shfmt.options[i].as_str());
            i += 1;
        }
        options
    }

    pub fn changelog(&self) -> (changelog: &str)
        ensures
            changelog@ == self.release.changelog@,
    {
        self.release.changelog.as_str()
    }
}

} // verus!
