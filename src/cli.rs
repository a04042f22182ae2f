use vstd::prelude::*;

use crate::error::WgError;
use crate::manifest::{lemma_merged_fields, merged, table_lists, table_strings, ws};
use crate::extras::{toolchain_file_contents, toolchain_text};
use crate::members::{
    cargo_new_args, collect_members, creation_args, ensure_no_duplicate_members, has_duplicate,
    is_first_repeat, names, MemberKind,
};
use crate::paths::{entry_path, is_absolute_path, joined, lemma_entries_differ, resolve_path, resolved_root, WorkDir};

verus! {

/// The request to create a workspace.
#[derive(Debug, Clone)]
pub struct NewArgs {
    /// Directory where the workspace is created (created if missing).
    pub path: String,
    /// Library members, in order.
    pub libs: Vec<String>,
    /// Binary members, in order.
    pub bins: Vec<String>,
    /// Initialize a repository in the new workspace.
    pub git: bool,
    /// Accept a directory that is not empty.
    pub force: bool,
    /// Channel to pin in the toolchain file, if any.
    pub toolchain: Option<String>,
}

/// The subcommands.
#[derive(Debug, Clone)]
pub enum Command {
    /// Create a new workspace with optional members.
    New(NewArgs),
}

/// The whole invocation.
#[derive(Debug, Clone)]
pub struct Cli {
    pub command: Command,
}

/// One thing done to the file system, or reported, while creating a workspace.
#[derive(Debug, Clone)]
pub enum Step {
    /// Check the target and create it if absent.
    PrepareDirectory { path: String, force: bool },
    /// Merge the member list into the manifest at `path`.
    WriteManifest { path: String, members: Vec<String> },
    /// Write the ignore file at `path` unless one is there.
    WriteIgnoreFile { path: String },
    /// Write `contents` to the toolchain file at `path`, replacing it.
    WriteToolchain { path: String, contents: String },
    /// Run the repository initializer in `dir`.
    InitRepository { dir: String },
    /// Create the member `name` at `member_dir` by running `cargo` with `args`
    /// in `workdir`, unless `member_dir` is already there.
    CreateMember { name: String, member_dir: String, workdir: String, args: Vec<String> },
    /// Print where the workspace is and its members.
    Report { root: String, members: Vec<String> },
}

/// The mathematical content of a step.
pub enum StepModel {
    PrepareDirectory { path: Seq<char>, force: bool },
    WriteManifest { path: Seq<char>, members: Seq<Seq<char>> },
    WriteIgnoreFile { path: Seq<char> },
    WriteToolchain { path: Seq<char>, contents: Seq<char> },
    InitRepository { dir: Seq<char> },
    CreateMember {
        name: Seq<char>,
        member_dir: Seq<char>,
        workdir: Seq<char>,
        args: Seq<Seq<char>>,
    },
    Report { root: Seq<char>, members: Seq<Seq<char>> },
}

impl View for Step {
    type V = StepModel;

    open spec fn view(&self) -> StepModel {
        match self {
            Step::PrepareDirectory { path, force } => StepModel::PrepareDirectory {
                path: path@,
                force: *force,
            },
            Step::WriteManifest { path, members } => StepModel::WriteManifest {
                path: path@,
                members: names(members@),
            },
            Step::WriteIgnoreFile { path } => StepModel::WriteIgnoreFile { path: path@ },
            Step::WriteToolchain { path, contents } => StepModel::WriteToolchain {
                path: path@,
                contents: contents@,
            },
            Step::InitRepository { dir } => StepModel::InitRepository { dir: dir@ },
            Step::CreateMember { name, member_dir, workdir, args } => StepModel::CreateMember {
                name: name@,
                member_dir: member_dir@,
                workdir: workdir@,
                args: names(args@),
            },
            Step::Report { root, members } => StepModel::Report {
                root: root@,
                members: names(members@),
            },
        }
    }
}

/// The content of each step of a list.
pub open spec fn steps_view(v: Seq<Step>) -> Seq<StepModel> {
    v.map_values(|s: Step| s@)
}

/// The step that creates the member `name` of the given kind under `root`.
pub open spec fn member_step(root: Seq<char>, name: Seq<char>, kind: MemberKind) -> StepModel {
    StepModel::CreateMember {
        name,
        member_dir: joined(root, name),
        workdir: root,
        args: creation_args(name, kind),
    }
}

/// The creation steps of a list of members, in its order.
pub open spec fn member_steps(root: Seq<char>, ns: Seq<Seq<char>>, kind: MemberKind) -> Seq<
    StepModel,
> {
    ns.map_values(|n: Seq<char>| member_step(root, n, kind))
}

/// Everything done to create the workspace at `root`, in order: the target is
/// prepared, a manifest without members is written, then the ignore file, the
/// toolchain pin if asked, the repository if asked, each library and each
/// binary, and the manifest again with all members, which are then reported.
pub open spec fn workspace_plan(
    root: Seq<char>,
    libs: Seq<Seq<char>>,
    bins: Seq<Seq<char>>,
    git: bool,
    force: bool,
    toolchain: Option<Seq<char>>,
) -> Seq<StepModel> {
    let manifest = joined(root, "Cargo.toml"@);
    seq![
        StepModel::PrepareDirectory { path: root, force },
        StepModel::WriteManifest { path: manifest, members: seq![] },
        StepModel::WriteIgnoreFile { path: joined(root, ".gitignore"@) },
    ] + match toolchain {
        Some(c) => seq![
            StepModel::WriteToolchain {
                path: joined(root, "rust-toolchain.toml"@),
                contents: toolchain_text(c),
            },
        ],
        None => seq![],
    } + if git {
        seq![StepModel::InitRepository { dir: root }]
    } else {
        seq![]
    } + member_steps(root, libs, MemberKind::Lib) + member_steps(root, bins, MemberKind::Bin) + seq![
        StepModel::WriteManifest { path: manifest, members: libs + bins },
        StepModel::Report { root, members: libs + bins },
    ]
}

/// The manifest, the ignore file and the toolchain pin of a plan are three
/// different files, so no other file step of the plan writes the ignore file;
/// the ignore file's own step leaves an existing one as it is.
pub proof fn lemma_plan_files_differ(root: Seq<char>)
    ensures
        joined(root, "Cargo.toml"@) != joined(root, ".gitignore"@),
        joined(root, "Cargo.toml"@) != joined(root, "rust-toolchain.toml"@),
        joined(root, ".gitignore"@) != joined(root, "rust-toolchain.toml"@),
{
    reveal_strlit("Cargo.toml");
    reveal_strlit(".gitignore");
    reveal_strlit("rust-toolchain.toml");
    assert("Cargo.toml"@[0] != ".gitignore"@[0]);
    assert("Cargo.toml"@[0] != "rust-toolchain.toml"@[0]);
    assert(".gitignore"@[0] != "rust-toolchain.toml"@[0]);
    lemma_entries_differ(root, "Cargo.toml"@, ".gitignore"@);
    lemma_entries_differ(root, "Cargo.toml"@, "rust-toolchain.toml"@);
    lemma_entries_differ(root, ".gitignore"@, "rust-toolchain.toml"@);
}

/// The last manifest write of a plan lists the libraries then the binaries,
/// each in its order, and nothing else; merged into the manifest, they become
/// its members, beside the resolver "3".
pub proof fn lemma_plan_final_members(
    root: Seq<char>,
    libs: Seq<Seq<char>>,
    bins: Seq<Seq<char>>,
    git: bool,
    force: bool,
    toolchain: Option<Seq<char>>,
    before: toml_edit::DocumentMut,
    after: toml_edit::DocumentMut,
)
    requires
        merged(before, after, libs + bins),
    ensures
        ({
            let p = workspace_plan(root, libs, bins, git, force, toolchain);
            p.len() >= 2 && p[p.len() - 2] == (StepModel::WriteManifest {
                path: joined(root, "Cargo.toml"@),
                members: libs + bins,
            })
        }),
        table_lists(after, ws())["members"@] == libs + bins,
        table_strings(after, ws())["resolver"@] == "3"@,
{
    lemma_merged_fields(before, after, libs + bins);
    let p = workspace_plan(root, libs, bins, git, force, toolchain);
    assert(p.len() >= 2);
}

/// Appends the creation steps of `ns` to `steps`.
fn push_member_steps(steps: &mut Vec<Step>, root: &String, ns: &[String], kind: MemberKind)
    ensures
        steps_view(final(steps)@) == steps_view(old(steps)@) + member_steps(root@, names(ns@), kind),
{
    let ghost start = steps_view(steps@);
    let mut i: usize = 0;
    while i < ns.len()
        invariant
            i <= ns@.len(),
            steps_view(steps@) == start + member_steps(root@, names(ns@.subrange(0, i as int)), kind),
        decreases ns@.len() - i,
    {
        let name = ns[i].clone();
        let member_dir = entry_path(root.as_str(), name.as_str());
        let args = cargo_new_args(name.as_str(), kind);
        let ghost before = steps@;
        steps.push(Step::CreateMember { name, member_dir, workdir: root.clone(), args });
        proof {
            assert(steps@ == before.push(steps@.last()));
            assert(names(ns@.subrange(0, i + 1)) =~= names(ns@.subrange(0, i as int)).push(
                ns@[i as int]@,
            ));
            assert(steps_view(steps@) =~= steps_view(before).push(steps@.last()@));
            assert(member_steps(root@, names(ns@.subrange(0, i + 1)), kind) =~= member_steps(
                root@,
                names(ns@.subrange(0, i as int)),
                kind,
            ).push(member_step(root@, ns@[i as int]@, kind)));
        }
        i = i + 1;
    }
    assert(ns@.subrange(0, ns@.len() as int) == ns@);
}

/// The text of an optional channel.
pub open spec fn channel_view(c: Option<String>) -> Option<Seq<char>> {
    match c {
        Some(s) => Some(s@),
        None => None,
    }
}

/// What running the request gives with the working directory `cwd`: the
/// first repeated member name is refused, then a relative path without a
/// working directory; otherwise the plan of the workspace at the resolved path.
pub open spec fn run_outcome(a: NewArgs, cwd: WorkDir, r: Result<Vec<Step>, WgError>) -> bool {
    let dup = has_duplicate(names(a.libs@ + a.bins@));
    &&& dup ==> exists|j: int|
        is_first_repeat(names(a.libs@ + a.bins@), j) && r == Err::<Vec<Step>, WgError>(
            WgError::DuplicateMember((a.libs@ + a.bins@)[j]),
        )
    &&& !dup && !is_absolute_path(a.path@) && cwd is NotText ==> (r matches Err(WgError::InvalidPath(p)) && p@ == a.path@)
    &&& !dup && !is_absolute_path(a.path@) && cwd is Unreadable ==> (r matches Err(WgError::Io(m)) && m@ == "failed to read current directory: "@ + cwd->Unreadable_0@)
    &&& !dup && (is_absolute_path(a.path@) || cwd is Text) ==> (r matches Ok(steps) && steps_view(steps@) == workspace_plan(
        resolved_root(a.path@, cwd_text(cwd)),
        names(a.libs@),
        names(a.bins@),
        a.git,
        a.force,
        channel_view(a.toolchain),
    ))
}

/// The text of the working directory, where there is one.
pub open spec fn cwd_text(c: WorkDir) -> Seq<char> {
    match c {
        WorkDir::Text(s) => s@,
        _ => Seq::empty(),
    }
}

impl NewArgs {
    /// Checks the request and lays out every step of creating the workspace.
    /// Fails when a member name is requested twice, or when the path is
    /// relative and the working directory is not available as text.
    pub fn run(&self, cwd: &WorkDir) -> (r: Result<Vec<Step>, WgError>)
        requires
            self.libs@.len() + self.bins@.len() <= usize::MAX,
        ensures
            run_outcome(*self, *cwd, r),
    {
        match ensure_no_duplicate_members(self.libs.as_slice(), self.bins.as_slice()) {
            Ok(()) => {},
            Err(e) => {
                return Err(e);
            },
        }
        let root = match resolve_path(self.path.as_str(), cwd) {
            Ok(p) => p,
            Err(e) => {
                return Err(e);
            },
        };
        let ghost r0 = resolved_root(self.path@, cwd_text(*cwd));
        assert(root@ == r0);
        let manifest = entry_path(root.as_str(), "Cargo.toml");
        let mut steps: Vec<Step> = Vec::new();
        steps.push(Step::PrepareDirectory { path: root.clone(), force: self.force });
        steps.push(Step::WriteManifest { path: manifest.clone(), members: Vec::new() });
        steps.push(Step::WriteIgnoreFile { path: entry_path(root.as_str(), ".gitignore") });
        assert(names(Seq::<String>::empty()) =~= Seq::<Seq<char>>::empty());
        let ghost first = seq![
            StepModel::PrepareDirectory { path: r0, force: self.force },
            StepModel::WriteManifest { path: joined(r0, "Cargo.toml"@), members: seq![] },
            StepModel::WriteIgnoreFile { path: joined(r0, ".gitignore"@) },
        ];
        assert(steps_view(steps@) =~= first);
        let ghost pin: Seq<StepModel> = match channel_view(self.toolchain) {
            Some(c) => seq![
                StepModel::WriteToolchain {
                    path: joined(r0, "rust-toolchain.toml"@),
                    contents: toolchain_text(c),
                },
            ],
            None => seq![],
        };
        match &self.toolchain {
            Some(channel) => {
                let path = entry_path(root.as_str(), "rust-toolchain.toml");
                let contents = toolchain_file_contents(channel.as_str());
                steps.push(Step::WriteToolchain { path, contents });
            },
            None => {},
        }
        assert(steps_view(steps@) =~= first + pin);
        let ghost repo: Seq<StepModel> = if self.git {
            seq![StepModel::InitRepository { dir: r0 }]
        } else {
            seq![]
        };
        if self.git {
            steps.push(Step::InitRepository { dir: root.clone() });
        }
        assert(steps_view(steps@) =~= first + pin + repo);
        push_member_steps(&mut steps, &root, self.libs.as_slice(), MemberKind::Lib);
        push_member_steps(&mut steps, &root, self.bins.as_slice(), MemberKind::Bin);
        let ghost mid = steps_view(steps@);
        let members = collect_members(self.libs.as_slice(), self.bins.as_slice());
        let listed = members.clone();
        assert(listed@ =~= members@);
        steps.push(Step::WriteManifest { path: manifest, members: listed });
        steps.push(Step::Report { root, members });
        proof {
            let libs = names(self.libs@);
            let bins = names(self.bins@);
            assert(names(self.libs@ + self.bins@) =~= libs + bins);
            let last = seq![
                StepModel::WriteManifest { path: joined(r0, "Cargo.toml"@), members: libs + bins },
                StepModel::Report { root: r0, members: libs + bins },
            ];
            assert(steps_view(steps@) =~= mid + last);
        }
        assert(steps_view(steps@) =~= workspace_plan(
            r0,
            names(self.libs@),
            names(self.bins@),
            self.git,
            self.force,
            channel_view(self.toolchain),
        ));
        Ok(steps)
    }
}

impl Command {
    /// Lays out the steps of the subcommand.
    pub fn run(&self, cwd: &WorkDir) -> (r: Result<Vec<Step>, WgError>)
        requires
            self matches Command::New(a) && a.libs@.len() + a.bins@.len() <= usize::MAX,
        ensures
            self matches Command::New(a) && run_outcome(*a, *cwd, r),
    {
        match self {
            Command::New(args) => args.run(cwd),
        }
    }
}

impl Cli {
    /// Lays out the steps of the invoked subcommand.
    pub fn run(&self, cwd: &WorkDir) -> (r: Result<Vec<Step>, WgError>)
        requires
            self.command matches Command::New(a) && a.libs@.len() + a.bins@.len() <= usize::MAX,
        ensures
            self.command matches Command::New(a) && run_outcome(a, *cwd, r),
    {
        self.command.run(cwd)
    }
}

} // verus!
