//! The manifest and what it asks of the host's package manager.
//!
//! A bundle holds exactly four packages, one for each role, and the roles
//! have a fixed order: the compiler (0), its support library (1), the toolkit
//! (2) and the toolkit's companion (3). Packages are looked at, downloaded
//! and named in commands in that order, whatever order a manifest file lists
//! them in. They are installed in two batches: the compiler with its support
//! library, and the toolkit with its companion.

use vstd::prelude::*;
use vstd::string::*;
use crate::cli::{join, log, print, printed, put, silence, styled, Line, LineView, Lvl};
use crate::exec::{
    contains, join3, occurs_in, reach_lines, reachable, reply_view, verify_link, Command,
    CommandView, Reply, ReplyView, TMPDIR,
};

verus! {

/// First item of the menu of bundles, and the name of that bundle.
pub const RECENT: &'static str = "Recent";

/// Second item of the menu of bundles, and the name of that bundle.
pub const COMPATIBLE: &'static str = "Compatible";

/// Installs package files.
pub const INSTALL: &'static str = "sudo pacman -U";

/// Brings the host up to date and installs packages by name.
pub const UPDATE: &'static str = "sudo pacman -Syu";

/// Fetches a URL into a file.
pub const DOWNLOAD: &'static str = "curl -o";

/// Asks the package database for a package.
pub const QUERY: &'static str = "pacman -Q";

/// How many packages a bundle holds.
pub const ROLES: usize = 4;

/// One package of a bundle.
#[derive(Clone, Debug, PartialEq, Eq)]
pub struct Pkg {
    /// The name under which the package database knows it.
    pub pkg: String,
    /// The version wanted, written as the manifest's number prints.
    pub version: String,
    /// The name of its file, also the name it is shown under.
    pub name: String,
    /// Where its file is downloaded from.
    pub link: String,
}

/// A [`Pkg`] as a mathematical value.
pub struct PkgView {
    pub pkg: Seq<char>,
    pub version: Seq<char>,
    pub name: Seq<char>,
    pub link: Seq<char>,
}

impl View for Pkg {
    type V = PkgView;

    open spec fn view(&self) -> PkgView {
        PkgView { pkg: self.pkg@, version: self.version@, name: self.name@, link: self.link@ }
    }
}

/// A bundle: four packages that go together, and the configurations that
/// they are known to support.
#[derive(Clone, Debug, PartialEq, Eq)]
pub struct Pkgs {
    pub support: Vec<String>,
    pub gcc: Pkg,
    pub gcc_libs: Pkg,
    pub cuda: Pkg,
    pub cudnn: Pkg,
}

/// A [`Pkgs`] as a mathematical value.
pub struct PkgsView {
    pub support: Seq<Seq<char>>,
    pub gcc: PkgView,
    pub gcc_libs: PkgView,
    pub cuda: PkgView,
    pub cudnn: PkgView,
}

impl View for Pkgs {
    type V = PkgsView;

    open spec fn view(&self) -> PkgsView {
        PkgsView {
            support: self.support.deep_view(),
            gcc: self.gcc@,
            gcc_libs: self.gcc_libs@,
            cuda: self.cuda@,
            cudnn: self.cudnn@,
        }
    }
}

/// The manifest: the packages that the host needs beforehand, and the two
/// bundles to choose from.
#[derive(Clone, Debug, PartialEq, Eq)]
pub struct Data {
    pub deps: String,
    pub recent: Pkgs,
    pub compatible: Pkgs,
}

/// A [`Data`] as a mathematical value.
pub struct DataView {
    pub deps: Seq<char>,
    pub recent: PkgsView,
    pub compatible: PkgsView,
}

impl View for Data {
    type V = DataView;

    open spec fn view(&self) -> DataView {
        DataView { deps: self.deps@, recent: self.recent@, compatible: self.compatible@ }
    }
}

/// The two batches in which packages are installed.
#[derive(Clone, Copy, Debug, PartialEq, Eq, Structural)]
pub enum Batch {
    /// The compiler and its support library.
    Gcc,
    /// The toolkit and its companion.
    Cuda,
}

/// The commands of a run, each named by what it is for.
#[derive(Clone, Copy, Debug, PartialEq, Eq, Structural)]
pub enum Task {
    /// Bring the host up to date and install what the manifest asks for
    /// beforehand.
    Update,
    /// Create the scratch directory.
    MakeTmp,
    /// Ask the package database for the package of a role.
    Query(usize),
    /// Look whether the package of a role can be downloaded.
    Probe(usize),
    /// Download the package of a role into the scratch directory.
    Fetch(usize),
    /// Install what was downloaded of a batch.
    Install(Batch),
    /// Remove the scratch directory.
    RemoveTmp,
}

/// Where the download of a package stands after one of its commands.
#[derive(Clone, Copy, Debug, PartialEq, Eq, Structural)]
pub enum Progress {
    /// The package needs this command next.
    Then(Task),
    /// The package is installed already: there is nothing to download.
    Present,
    /// The package's file is in the scratch directory.
    Stored,
    /// The package cannot be had: the run is given up.
    Broken,
}

/// The install commands of a run, one for each batch of which something was
/// downloaded.
#[derive(Clone, Debug, PartialEq, Eq)]
pub struct Plan {
    pub gcc: Option<Command>,
    pub cuda: Option<Command>,
}

/// A [`Plan`] as a mathematical value.
pub struct PlanView {
    pub gcc: Option<CommandView>,
    pub cuda: Option<CommandView>,
}

/// The mathematical value of a command that may be missing.
pub open spec fn command_view(cmd: Option<Command>) -> Option<CommandView> {
    match cmd {
        Some(c) => Some(c@),
        None => None,
    }
}

impl View for Plan {
    type V = PlanView;

    open spec fn view(&self) -> PlanView {
        PlanView { gcc: command_view(self.gcc), cuda: command_view(self.cuda) }
    }
}

impl Batch {
    /// The two roles of a batch, in their order.
    pub open spec fn roles(self) -> (usize, usize) {
        match self {
            Batch::Gcc => (0, 1),
            Batch::Cuda => (2, 3),
        }
    }

    /// What is written once the batch was to be installed. A batch that
    /// failed is an error to report, no more.
    pub open spec fn report(self, reply: ReplyView) -> Seq<LineView> {
        match (self, reply) {
            (Batch::Gcc, Ok(_)) => seq![styled(Lvl::Success, "GCC installed successfully."@)],
            (Batch::Gcc, Err(error)) => seq![
                styled(Lvl::Error, "GCC not installed successfully: "@ + error),
            ],
            (Batch::Cuda, Ok(_)) => seq![styled(Lvl::Success, "CUDA installed successfully."@)],
            (Batch::Cuda, Err(error)) => seq![
                styled(Lvl::Error, "Package was not installed successfully: "@ + error),
            ],
        }
    }

    /// Reads the reply to the install command of the batch.
    pub fn installed(self, reply: &Reply) -> (lines: Vec<Line>)
        ensures
            lines.deep_view() == self.report(reply_view(*reply)),
    {
        let mut lines = silence();
        match self {
            Batch::Gcc => match reply {
                Ok(_) => {
                    put(&mut lines, log(Lvl::Success, "GCC installed successfully."));
                },
                Err(error) => {
                    let text = join("GCC not installed successfully: ", error.as_str());
                    put(&mut lines, log(Lvl::Error, text.as_str()));
                },
            },
            Batch::Cuda => match reply {
                Ok(_) => {
                    put(&mut lines, log(Lvl::Success, "CUDA installed successfully."));
                },
                Err(error) => {
                    let text = join("Package was not installed successfully: ", error.as_str());
                    put(&mut lines, log(Lvl::Error, text.as_str()));
                },
            },
        }
        lines
    }
}

impl Task {
    /// The role whose package a command is about, if it is about one.
    pub open spec fn role(self) -> Option<usize> {
        match self {
            Task::Query(role) => Some(role),
            Task::Probe(role) => Some(role),
            Task::Fetch(role) => Some(role),
            _ => None,
        }
    }
}

impl PkgView {
    /// The command that asks the package database for the package.
    pub open spec fn query(self) -> CommandView {
        CommandView { line: QUERY@ + " "@ + self.pkg, interactive: false, verbose: false }
    }

    /// Whether the reply to the query shows the package as installed in the
    /// version wanted: the query ended well, and both the package's name and
    /// the version stand somewhere in its output.
    pub open spec fn installed(self, reply: ReplyView) -> bool {
        match reply {
            Ok(output) => occurs_in(self.pkg, output) && occurs_in(self.version, output),
            Err(_) => false,
        }
    }

    /// Where the package's file is put.
    pub open spec fn path(self) -> Seq<char> {
        TMPDIR@ + "/"@ + self.name
    }

    /// The command that downloads the package's file into the scratch
    /// directory.
    pub open spec fn fetch(self) -> CommandView {
        CommandView {
            line: DOWNLOAD@ + " "@ + TMPDIR@ + "/"@ + self.name + " "@ + self.link,
            interactive: true,
            verbose: true,
        }
    }
}

impl PkgsView {
    /// The four packages in the order of their roles.
    pub open spec fn packages(self) -> Seq<PkgView> {
        seq![self.gcc, self.gcc_libs, self.cuda, self.cudnn]
    }

    /// The names of the four packages in the order of their roles, with a
    /// blank between two of them.
    pub open spec fn names(self) -> Seq<char> {
        self.gcc.pkg + " "@ + self.gcc_libs.pkg + " "@ + self.cuda.pkg + " "@ + self.cudnn.pkg
    }

    /// The advice that closes a run that went through.
    pub open spec fn goodbye(self) -> Seq<LineView> {
        seq![
            printed(
                "\nTo prevent the system from updating the packages, add the following to /etc/pacman.conf"@,
            ),
            styled(Lvl::Info, "\t IgnorePkg = "@ + self.names()),
            printed("\nCommon Error\n# ERROR: libdevice not found at ./libdevice.10.bc"@),
            printed("To fix this error, run the following command:"@),
            styled(Lvl::Info, "\texport XLA_FLAGS=--xla_gpu_cuda_data_dir=/opt/cuda\n"@),
        ]
    }

    /// The supported configurations, one indented line each.
    pub open spec fn supported(self) -> Seq<LineView> {
        Seq::new(self.support.len(), |i: int| styled(Lvl::Info, "\t"@ + self.support[i]))
    }

    /// The supported configurations, one indented line each, and an empty
    /// line after them.
    pub open spec fn support_lines(self) -> Seq<LineView> {
        self.supported().push(printed(""@))
    }

    /// What the download of a package does after `task` has been answered
    /// with `reply`.
    ///
    /// A package that the query shows as installed is left alone. Any other
    /// is probed; one that cannot be reached ends the run, as does a
    /// download that fails.
    pub open spec fn progress(self, task: Task, reply: ReplyView) -> Progress {
        match task {
            Task::Query(role) => if self.packages()[role as int].installed(reply) {
                Progress::Present
            } else {
                Progress::Then(Task::Probe(role))
            },
            Task::Probe(role) => if reachable(reply) {
                Progress::Then(Task::Fetch(role))
            } else {
                Progress::Broken
            },
            Task::Fetch(role) => if reply is Ok {
                Progress::Stored
            } else {
                Progress::Broken
            },
            _ => Progress::Broken,
        }
    }

    /// What is written after `task` has been answered with `reply`.
    pub open spec fn progress_lines(self, task: Task, reply: ReplyView) -> Seq<LineView> {
        match task {
            Task::Query(role) => if self.packages()[role as int].installed(reply) {
                seq![
                    styled(
                        Lvl::Warning,
                        "Package already installed: "@ + self.packages()[role as int].name,
                    ),
                ]
            } else {
                Seq::empty()
            },
            Task::Probe(role) => if reachable(reply) {
                reach_lines(reply)
            } else {
                reach_lines(reply).push(styled(Lvl::Error, "Invalid link"@))
            },
            Task::Fetch(role) => match reply {
                Ok(_) => seq![
                    styled(
                        Lvl::Success,
                        "Package downloaded successfully: "@ + self.packages()[role as int].name,
                    ),
                ],
                Err(error) => seq![
                    styled(Lvl::Error, "Failed to download package: "@ + error),
                ],
            },
            _ => Seq::empty(),
        }
    }

    /// How the package of `role` is named in an install command: by the path
    /// of its file if it was downloaded, and not at all if it was not.
    pub open spec fn slot(self, role: usize, downloaded: Seq<usize>) -> Seq<char> {
        if downloaded.contains(role) {
            self.packages()[role as int].path()
        } else {
            Seq::empty()
        }
    }

    /// The install command of a batch: one command that names the files of
    /// those of its two packages that were downloaded, and none if neither
    /// was.
    pub open spec fn batch(self, batch: Batch, downloaded: Seq<usize>) -> Option<CommandView> {
        let (a, b) = batch.roles();
        if downloaded.contains(a) || downloaded.contains(b) {
            Some(
                CommandView {
                    line: INSTALL@ + " "@ + self.slot(a, downloaded) + " "@ + self.slot(
                        b,
                        downloaded,
                    ),
                    interactive: true,
                    verbose: true,
                },
            )
        } else {
            None
        }
    }

    /// The install commands for what was downloaded.
    pub open spec fn plan(self, downloaded: Seq<usize>) -> PlanView {
        PlanView {
            gcc: self.batch(Batch::Gcc, downloaded),
            cuda: self.batch(Batch::Cuda, downloaded),
        }
    }
}

impl DataView {
    /// The bundle at a position of the menu of bundles.
    pub open spec fn bundle(self, choice: usize) -> PkgsView {
        if choice == 0 {
            self.recent
        } else {
            self.compatible
        }
    }

    /// The command that brings the host up to date and installs what the
    /// bundles need beforehand.
    pub open spec fn install_deps(self) -> CommandView {
        CommandView { line: UPDATE@ + " "@ + self.deps, interactive: true, verbose: true }
    }

    /// What is written once the host was to be brought up to date. A
    /// failure is an error to report, no more.
    pub open spec fn updated(self, reply: ReplyView) -> Seq<LineView> {
        match reply {
            Ok(_) => seq![
                styled(Lvl::Success, "Dependencies installed successfully: "@ + self.deps),
            ],
            Err(error) => seq![styled(Lvl::Error, "Failed to install dependencies: "@ + error)],
        }
    }
}

/// The name of the bundle at a position of the menu of bundles.
pub open spec fn bundle_name(choice: usize) -> Seq<char> {
    if choice == 0 {
        RECENT@
    } else {
        COMPATIBLE@
    }
}

/// The line that heads the supported configurations of a bundle.
pub open spec fn heading(choice: usize) -> LineView {
    styled(Lvl::Info, "\nSupporting packages for `"@ + bundle_name(choice) + "` version:"@)
}

/// Whether every entry of `downloaded` is one of the four roles.
pub open spec fn are_roles(downloaded: Seq<usize>) -> bool {
    forall|i: int| 0 <= i < downloaded.len() ==> #[trigger] downloaded[i] < ROLES
}

/// Whether `role` is among `downloaded`.
pub fn holds(downloaded: &Vec<usize>, role: usize) -> (found: bool)
    ensures
        found == downloaded@.contains(role),
{
    let mut i: usize = 0;
    while i < downloaded.len()
        invariant
            i <= downloaded.len(),
            forall|k: int| 0 <= k < i ==> downloaded@[k] != role,
        decreases downloaded.len() - i,
    {
        if downloaded[i] == role {
            return true;
        }
        i += 1;
    }
    false
}

impl Pkg {
    /// The command that asks the package database for the package. It runs
    /// in the background and is not announced.
    pub fn query(&self) -> (cmd: Command)
        ensures
            cmd@ == self@.query(),
    {
        Command {
            line: join3(QUERY, " ", self.pkg.as_str()),
            interactive: false,
            verbose: false,
        }
    }

    /// Reads the reply to [`Pkg::query`]: whether the package is installed
    /// in the version wanted. A query that failed says that it is not.
    pub fn installed(&self, reply: &Reply) -> (found: bool)
        ensures
            found == self@.installed(reply_view(*reply)),
    {
        match reply {
            Ok(output) => {
                contains(output.as_str(), self.pkg.as_str()) && contains(
                    output.as_str(),
                    self.version.as_str(),
                )
            },
            Err(_) => false,
        }
    }

    /// Where the package's file is put: under its own name, directly in
    /// the scratch directory.
    pub fn path(&self) -> (path: String)
        ensures
            path@ == self@.path(),
    {
        join3(TMPDIR, "/", self.name.as_str())
    }

    /// The command that downloads the package's file into the scratch
    /// directory. It gets the terminal and is announced.
    pub fn fetch(&self) -> (cmd: Command)
        ensures
            cmd@ == self@.fetch(),
    {
        let mut line = join3(DOWNLOAD, " ", TMPDIR);
        line.append("/");
        line.append(self.name.as_str());
        line.append(" ");
        line.append(self.link.as_str());
        Command { line, interactive: true, verbose: true }
    }
}

impl Pkgs {
    /// The four packages in the order of their roles.
    pub fn packages(&self) -> (all: [&Pkg; 4])
        ensures
            all@.len() == 4,
            forall|role: int| 0 <= role < 4 ==> (#[trigger] all@[role])@ == self@.packages()[role],
    {
        [&self.gcc, &self.gcc_libs, &self.cuda, &self.cudnn]
    }

    /// The package of a role.
    pub fn package(&self, role: usize) -> (pkg: &Pkg)
        requires
            role < ROLES,
        ensures
            pkg@ == self@.packages()[role as int],
    {
        let all = self.packages();
        all[role]
    }

    /// The names of the four packages in the order of their roles, with a
    /// blank between two of them.
    pub fn packages_to_string(&self) -> (names: String)
        ensures
            names@ == self@.names(),
    {
        let mut names = join3(self.gcc.pkg.as_str(), " ", self.gcc_libs.pkg.as_str());
        names.append(" ");
        names.append(self.cuda.pkg.as_str());
        names.append(" ");
        names.append(self.cudnn.pkg.as_str());
        names
    }

    /// The advice that closes a run that went through: how to keep the host
    /// from updating the four packages, and how to mend a known error.
    pub fn goodbye(&self) -> (lines: Vec<Line>)
        ensures
            lines.deep_view() == self@.goodbye(),
    {
        let mut lines = silence();
        put(
            &mut lines,
            print(
                "\nTo prevent the system from updating the packages, add the following to /etc/pacman.conf",
            ),
        );
        let names = self.packages_to_string();
        let ignore = join("\t IgnorePkg = ", names.as_str());
        put(&mut lines, log(Lvl::Info, ignore.as_str()));
        put(
            &mut lines,
            print("\nCommon Error\n# ERROR: libdevice not found at ./libdevice.10.bc"),
        );
        put(&mut lines, print("To fix this error, run the following command:"));
        put(&mut lines, log(Lvl::Info, "\texport XLA_FLAGS=--xla_gpu_cuda_data_dir=/opt/cuda\n"));
        lines
    }

    /// The supported configurations of the bundle, one indented line each,
    /// and an empty line after them.
    pub fn print_support(&self) -> (lines: Vec<Line>)
        ensures
            lines.deep_view() == self@.support_lines(),
    {
        let mut lines = silence();
        let mut i: usize = 0;
        while i < self.support.len()
            invariant
                i <= self.support.len(),
                lines.deep_view() == self@.supported().take(i as int),
            decreases self.support.len() - i,
        {
            let text = join("\t", self.support[i].as_str());
            put(&mut lines, log(Lvl::Info, text.as_str()));
            i += 1;
            assert(self@.supported().take(i as int) =~= self@.supported().take(i - 1).push(
                self@.supported()[i - 1],
            ));
        }
        assert(self@.supported().take(i as int) =~= self@.supported());
        put(&mut lines, print(""));
        lines
    }

    /// One decision of the download phase: what the package of a role needs
    /// after `task` has been answered with `reply`, and what to write about
    /// it.
    ///
    /// The package is first asked for in the package database. If it is
    /// installed in the version wanted it is left alone, and a warning says
    /// so. Else its link is probed: one that cannot be reached is an error
    /// that ends the run, before anything of the package is downloaded. A
    /// download that fails ends the run as well.
    pub fn download(&self, task: Task, reply: &Reply) -> (r: (Progress, Vec<Line>))
        requires
            task.role() matches Some(role) ==> role < ROLES,
        ensures
            r.0 == self@.progress(task, reply_view(*reply)),
            r.1.deep_view() == self@.progress_lines(task, reply_view(*reply)),
    {
        let mut lines = silence();
        match task {
            Task::Query(role) => {
                let pkg = self.package(role);
                if pkg.installed(reply) {
                    let text = join("Package already installed: ", pkg.name.as_str());
                    put(&mut lines, log(Lvl::Warning, text.as_str()));
                    (Progress::Present, lines)
                } else {
                    (Progress::Then(Task::Probe(role)), lines)
                }
            },
            Task::Probe(role) => {
                let (valid, mut lines) = verify_link(reply);
                if valid {
                    (Progress::Then(Task::Fetch(role)), lines)
                } else {
                    put(&mut lines, log(Lvl::Error, "Invalid link"));
                    (Progress::Broken, lines)
                }
            },
            Task::Fetch(role) => {
                let pkg = self.package(role);
                match reply {
                    Ok(_) => {
                        let text = join("Package downloaded successfully: ", pkg.name.as_str());
                        put(&mut lines, log(Lvl::Success, text.as_str()));
                        (Progress::Stored, lines)
                    },
                    Err(error) => {
                        let text = join("Failed to download package: ", error.as_str());
                        put(&mut lines, log(Lvl::Error, text.as_str()));
                        (Progress::Broken, lines)
                    },
                }
            },
            _ => (Progress::Broken, lines),
        }
    }

    /// How the package of `role` is named in an install command.
    fn slot(&self, role: usize, downloaded: &Vec<usize>) -> (text: String)
        requires
            role < ROLES,
        ensures
            text@ == self@.slot(role, downloaded@),
    {
        if holds(downloaded, role) {
            self.package(role).path()
        } else {
            String::new()
        }
    }

    /// The install command of one batch, if anything of it was downloaded.
    fn batch(&self, batch: Batch, downloaded: &Vec<usize>) -> (cmd: Option<Command>)
        ensures
            command_view(cmd) == self@.batch(batch, downloaded@),
    {
        let (a, b): (usize, usize) = match batch {
            Batch::Gcc => (0, 1),
            Batch::Cuda => (2, 3),
        };
        if holds(downloaded, a) || holds(downloaded, b) {
            let first = self.slot(a, downloaded);
            let second = self.slot(b, downloaded);
            let mut line = join3(INSTALL, " ", first.as_str());
            line.append(" ");
            line.append(second.as_str());
            Some(Command { line, interactive: true, verbose: true })
        } else {
            None
        }
    }

    /// The install commands for the roles in `downloaded`: at most two, one
    /// for each batch.
    ///
    /// The command of a batch names the files of exactly those of its two
    /// packages that were downloaded, the compiler before its support
    /// library and the toolkit before its companion. A batch of which
    /// nothing was downloaded has no command.
    pub fn install(&self, downloaded: &Vec<usize>) -> (plan: Plan)
        requires
            are_roles(downloaded@),
        ensures
            plan@ == self@.plan(downloaded@),
    {
        Plan {
            gcc: self.batch(Batch::Gcc, downloaded),
            cuda: self.batch(Batch::Cuda, downloaded),
        }
    }
}

impl Data {
    /// The command that brings the host up to date and installs what the
    /// bundles need beforehand. It gets the terminal and is announced.
    pub fn install_deps(&self) -> (cmd: Command)
        ensures
            cmd@ == self@.install_deps(),
    {
        Command {
            line: join3(UPDATE, " ", self.deps.as_str()),
            interactive: true,
            verbose: true,
        }
    }

    /// Reads the reply to [`Data::install_deps`].
    pub fn updated(&self, reply: &Reply) -> (lines: Vec<Line>)
        ensures
            lines.deep_view() == self@.updated(reply_view(*reply)),
    {
        let mut lines = silence();
        match reply {
            Ok(_) => {
                let text = join("Dependencies installed successfully: ", self.deps.as_str());
                put(&mut lines, log(Lvl::Success, text.as_str()));
            },
            Err(error) => {
                let text = join("Failed to install dependencies: ", error.as_str());
                put(&mut lines, log(Lvl::Error, text.as_str()));
            },
        }
        lines
    }

    /// The bundle that the user picked in the menu of bundles, and the line
    /// that heads what is shown of it: the first position is the recent
    /// bundle, the second the compatible one.
    pub fn version(&self, choice: usize) -> (r: (&Pkgs, Line))
        requires
            choice < 2,
        ensures
            r.0@ == self@.bundle(choice),
            r.1@ == heading(choice),
    {
        let name = if choice == 0 {
            RECENT
        } else {
            COMPATIBLE
        };
        let text = join3("\nSupporting packages for `", name, "` version:");
        let line = log(Lvl::Info, text.as_str());
        if choice == 0 {
            (&self.recent, line)
        } else {
            (&self.compatible, line)
        }
    }
}

} // verus!
