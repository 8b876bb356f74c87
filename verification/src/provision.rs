//! Tool provisioner: the fixed probe order for the rendering tool,
//! the resolved location of each helper executable, and the bounded
//! wait that supervises a tool installer.

use vstd::prelude::*;
use crate::paths::{joined, tools_dir_of, get_tools_dir, join_path};

verus! {

/// How long an installer may run before it is killed.
pub const INSTALLER_TIMEOUT_SECS: u64 = 120;

/// The rendering tool's private directory under a tools directory.
pub open spec fn render_tool_dir_of(tools: Seq<char>) -> Seq<char> {
    joined(tools, "gs"@)
}

/// The private directory the rendering tool is installed into.
pub fn get_ghostscript_dir() -> (r: String)
    ensures
        exists|base: Seq<char>| r@ == render_tool_dir_of(tools_dir_of(base)),
{
    let tools = get_tools_dir();
    let ghost base = choose|b: Seq<char>| tools@ == tools_dir_of(b);
    let r = join_path(tools.as_str(), "gs");
    proof {
        assert(r@ == render_tool_dir_of(tools_dir_of(base)));
    }
    r
}

/// The rendering executable inside its private directory.
pub open spec fn render_exe_of(dir: Seq<char>) -> Seq<char> {
    joined(joined(dir, "bin"@), "gswin64c.exe"@)
}

/// The expected path of the rendering executable.
pub fn get_ghostscript_path() -> (r: String)
    ensures
        exists|base: Seq<char>| r@ == render_exe_of(render_tool_dir_of(tools_dir_of(base))),
{
    let dir = get_ghostscript_dir();
    let ghost base = choose|b: Seq<char>| dir@ == render_tool_dir_of(tools_dir_of(b));
    let bin = join_path(dir.as_str(), "bin");
    let r = join_path(bin.as_str(), "gswin64c.exe");
    proof {
        assert(r@ == render_exe_of(render_tool_dir_of(tools_dir_of(base))));
    }
    r
}

/// The generic printing tool's executable under a tools directory.
pub open spec fn generic_tool_exe_of(tools: Seq<char>) -> Seq<char> {
    joined(tools, "SumatraPDF.exe"@)
}

/// The expected path of the generic printing tool.
pub fn get_sumatra_path() -> (r: String)
    ensures
        exists|base: Seq<char>| r@ == generic_tool_exe_of(tools_dir_of(base)),
{
    let tools = get_tools_dir();
    let ghost base = choose|b: Seq<char>| tools@ == tools_dir_of(b);
    let r = join_path(tools.as_str(), "SumatraPDF.exe");
    proof {
        assert(r@ == generic_tool_exe_of(tools_dir_of(base)));
    }
    r
}

/// Whether the rendering tool is needed at all on this platform; the
/// host print system does its own rasterisation here, so it always
/// counts as installed.
pub fn is_ghostscript_installed() -> (r: bool)
    ensures
        r == true,
{
    true
}

/// The rendering tool versions probed under each system install root,
/// newest first.
pub open spec fn render_tool_versions() -> Seq<Seq<char>> {
    seq![
        "gs10.04.0"@,
        "gs10.03.1"@,
        "gs10.03.0"@,
        "gs10.02.1"@,
        "gs10.02.0"@,
        "gs10.01.2"@,
        "gs10.00.0"@,
        "gs9.56.1"@,
        "gs9.55.0"@,
    ]
}

/// The two candidate paths inside the tool's private directory.
pub open spec fn local_candidates(dir: Seq<char>) -> Seq<Seq<char>> {
    seq![
        joined(joined(dir, "bin"@), "gswin64c.exe"@),
        joined(joined(joined(dir, "gs10.04.0"@), "bin"@), "gswin64c.exe"@),
    ]
}

/// The two candidate executables of one version under one root: the
/// wide build first, then the narrow one.
pub open spec fn version_candidates(base: Seq<char>, v: Seq<char>) -> Seq<Seq<char>> {
    seq![
        joined(joined(joined(joined(base, "gs"@), v), "bin"@), "gswin64c.exe"@),
        joined(joined(joined(joined(base, "gs"@), v), "bin"@), "gswin32c.exe"@),
    ]
}

/// The candidates of the first `k` probed versions under one root.
pub open spec fn root_candidates_upto(base: Seq<char>, k: int) -> Seq<Seq<char>>
    decreases k,
{
    if k <= 0 {
        Seq::empty()
    } else {
        root_candidates_upto(base, k - 1) + version_candidates(
            base,
            render_tool_versions()[k - 1],
        )
    }
}

/// The whole probe order: the private directory first, then every
/// known version under each system install root.
pub open spec fn probe_order(dir: Seq<char>, root1: Seq<char>, root2: Seq<char>) -> Seq<
    Seq<char>,
> {
    local_candidates(dir) + root_candidates_upto(root1, render_tool_versions().len() as int)
        + root_candidates_upto(root2, render_tool_versions().len() as int)
}

/// Pushes both candidate executables of one version under one root.
fn push_version_candidates(out: &mut Vec<String>, base: &str, v: &str)
    ensures
        final(out)@.map_values(|s: String| s@) == old(out)@.map_values(|s: String| s@)
            + version_candidates(base@, v@),
{
    let ghost pre = out@;
    let vdir = join_path(join_path(base, "gs").as_str(), v);
    let bin = join_path(vdir.as_str(), "bin");
    let wide = join_path(bin.as_str(), "gswin64c.exe");
    let narrow = join_path(bin.as_str(), "gswin32c.exe");
    out.push(wide);
    out.push(narrow);
    proof {
        assert(out@.map_values(|s: String| s@) =~= pre.map_values(|s: String| s@)
            + version_candidates(base@, v@));
    }
}

/// Pushes every versioned candidate under one system install root.
fn push_root_candidates(out: &mut Vec<String>, base: &str)
    ensures
        final(out)@.map_values(|s: String| s@) == old(out)@.map_values(|s: String| s@)
            + root_candidates_upto(base@, render_tool_versions().len() as int),
{
    let versions: Vec<&str> = vec![
        "gs10.04.0",
        "gs10.03.1",
        "gs10.03.0",
        "gs10.02.1",
        "gs10.02.0",
        "gs10.01.2",
        "gs10.00.0",
        "gs9.56.1",
        "gs9.55.0",
    ];
    proof {
        assert(versions@.map_values(|v: &str| v@) =~= render_tool_versions());
    }
    let ghost pre = out@.map_values(|s: String| s@);
    proof {
        assert(pre + root_candidates_upto(base@, 0) =~= pre);
    }
    let mut k: usize = 0;
    while k < versions.len()
        invariant
            versions@.map_values(|v: &str| v@) == render_tool_versions(),
            versions@.len() == render_tool_versions().len(),
            k <= versions@.len(),
            out@.map_values(|s: String| s@) == pre + root_candidates_upto(base@, k as int),
        decreases versions@.len() - k,
    {
        push_version_candidates(out, base, versions[k]);
        proof {
            let ghost vk = versions@.map_values(|v: &str| v@)[k as int];
            assert(render_tool_versions()[k as int] == vk);
            assert((pre + root_candidates_upto(base@, k as int)) + version_candidates(
                base@,
                render_tool_versions()[k as int],
            ) =~= pre + root_candidates_upto(base@, k + 1));
        }
        k += 1;
    }
}

/// The full ordered list of locations probed for the rendering tool:
/// the tool's private directory, then each known version under the
/// two system install roots, wide build before narrow.
pub fn ghostscript_candidate_paths(dir: &str, root1: &str, root2: &str) -> (r: Vec<String>)
    ensures
        r@.map_values(|s: String| s@) == probe_order(dir@, root1@, root2@),
{
    let mut out: Vec<String> = Vec::new();
    let bin = join_path(dir, "bin");
    out.push(join_path(bin.as_str(), "gswin64c.exe"));
    let vdir = join_path(dir, "gs10.04.0");
    let vbin = join_path(vdir.as_str(), "bin");
    out.push(join_path(vbin.as_str(), "gswin64c.exe"));
    proof {
        assert(out@.map_values(|s: String| s@) =~= local_candidates(dir@));
    }
    push_root_candidates(&mut out, root1);
    push_root_candidates(&mut out, root2);
    proof {
        assert(out@.map_values(|s: String| s@) =~= probe_order(dir@, root1@, root2@));
    }
    out
}

/// The first line of a command's output, trimmed: how the PATH probe
/// reads the location a lookup tool prints.
pub fn first_line_trimmed(s: &str) -> (r: String)
    ensures
        r@ == crate::text::trim_seq(crate::printers::split_lines_spec(s@)[0]),
{
    let n = s.unicode_len();
    let mut i: usize = 0;
    while i < n
        invariant
            n == s@.len(),
            i <= n,
            forall|j: int| 0 <= j < i ==> s@[j] != '\n',
        decreases n - i,
    {
        if s.get_char(i) == '\n' {
            proof {
                crate::printers::lemma_first_line(s@, i as int);
            }
            return crate::text::trim(s.substring_char(0, i));
        }
        i += 1;
    }
    proof {
        crate::printers::lemma_first_line_whole(s@);
    }
    crate::text::trim(s)
}

/// The silent-install arguments for the rendering tool's installer:
/// silent mode and the destination directory.
pub fn installer_args(install_dir: &str) -> (r: Vec<String>)
    ensures
        r@.map_values(|a: String| a@) == seq!["/S"@, "/D="@ + install_dir@],
{
    let mut args: Vec<String> = Vec::new();
    args.push(String::from_str("/S"));
    args.push(String::from_str("/D=").concat(install_dir));
    proof {
        assert(args@.map_values(|a: String| a@) =~= seq!["/S"@, "/D="@ + install_dir@]);
    }
    args
}

/// Picks the first candidate that the probe found present.
pub fn select_existing(candidates: &Vec<String>, exists: &Vec<bool>) -> (r: Option<String>)
    requires
        candidates@.len() == exists@.len(),
    ensures
        r matches Some(p) ==> exists|i: int|
            {
                &&& 0 <= i < exists@.len()
                &&& exists@[i]
                &&& p@ == candidates@[i]@
                &&& forall|j: int| 0 <= j < i ==> !exists@[j]
            },
        r is None ==> forall|j: int| 0 <= j < exists@.len() ==> !exists@[j],
{
    let mut i: usize = 0;
    while i < exists.len()
        invariant
            candidates@.len() == exists@.len(),
            i <= exists@.len(),
            forall|j: int| 0 <= j < i ==> !exists@[j],
        decreases exists@.len() - i,
    {
        if exists[i] {
            return Some(candidates[i].clone());
        }
        i += 1;
    }
    None
}

/// The supervision states of a tool installer run.
pub enum InstallerPhase {
    /// The child process is being spawned.
    Starting,
    /// The child runs; the wait polls it once a second.
    Running,
    /// The child exited within the allowed time.
    Completed,
    /// The child outlived the allowed time and was killed.
    TimedOut,
    /// Polling the child failed.
    Failed,
}

/// What one poll of the child reported.
pub enum InstallerPoll {
    /// The child has exited.
    Exited,
    /// The child is still running.
    StillRunning,
    /// The poll itself failed.
    PollFailed,
}

/// What the supervisor must do after a poll.
pub enum InstallerAction {
    /// Go on to verify the installation.
    Proceed,
    /// Sleep one second and poll again.
    SleepAndPoll,
    /// Kill the child and give the run up as timed out.
    KillChild,
    /// Give the run up as failed.
    Abort,
}

/// The bounded wait that supervises one installer run: an explicit
/// state machine instead of an ad hoc sleep loop.
pub struct InstallerWait {
    /// Seconds waited so far.
    pub elapsed_secs: u64,
    /// The bound after which the child is killed.
    pub timeout_secs: u64,
    /// Where the run stands.
    pub phase: InstallerPhase,
}

impl InstallerWait {
    /// The wait never runs past its bound by more than one poll.
    pub open spec fn wf(self) -> bool {
        self.timeout_secs <= 0xFFFFFFFF && self.elapsed_secs <= self.timeout_secs + 1
    }

    /// Opens a run that is about to spawn its child.
    pub fn start(timeout_secs: u64) -> (r: InstallerWait)
        requires
            timeout_secs <= 0xFFFFFFFF,
        ensures
            r.wf(),
            r.phase is Starting,
            r.elapsed_secs == 0,
            r.timeout_secs == timeout_secs,
    {
        InstallerWait { elapsed_secs: 0, timeout_secs, phase: InstallerPhase::Starting }
    }

    /// Marks the child as spawned; polling may begin.
    pub fn child_spawned(&mut self)
        requires
            old(self).wf(),
            old(self).phase is Starting,
        ensures
            final(self).wf(),
            final(self).phase is Running,
            final(self).elapsed_secs == old(self).elapsed_secs,
            final(self).timeout_secs == old(self).timeout_secs,
    {
        self.phase = InstallerPhase::Running;
    }

    /// Advances the wait by one poll of the child: an exited child
    /// completes the run; a poll failure aborts it; a child still
    /// running past the bound is killed; otherwise the supervisor
    /// sleeps one second and polls again.
    pub fn on_poll(&mut self, poll: InstallerPoll) -> (a: InstallerAction)
        requires
            old(self).wf(),
            old(self).phase is Running,
        ensures
            final(self).wf(),
            final(self).timeout_secs == old(self).timeout_secs,
            poll is Exited ==> final(self).phase is Completed && a is Proceed,
            poll is PollFailed ==> final(self).phase is Failed && a is Abort,
            poll is StillRunning && old(self).elapsed_secs > old(self).timeout_secs
                ==> final(self).phase is TimedOut && a is KillChild,
            poll is StillRunning && old(self).elapsed_secs <= old(self).timeout_secs
                ==> final(self).phase is Running && final(self).elapsed_secs == old(
                self,
            ).elapsed_secs + 1 && a is SleepAndPoll,
    {
        match poll {
            InstallerPoll::Exited => {
                self.phase = InstallerPhase::Completed;
                InstallerAction::Proceed
            },
            InstallerPoll::PollFailed => {
                self.phase = InstallerPhase::Failed;
                InstallerAction::Abort
            },
            InstallerPoll::StillRunning => {
                if self.elapsed_secs > self.timeout_secs {
                    self.phase = InstallerPhase::TimedOut;
                    InstallerAction::KillChild
                } else {
                    self.elapsed_secs = self.elapsed_secs + 1;
                    InstallerAction::SleepAndPoll
                }
            },
        }
    }
}

} // verus!
