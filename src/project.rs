//! A project: its targets, and the artifacts synthesized for them.
use crate::igloo::{Igloo, IglooErrType};
use crate::manifest::{lookup, scalar_of, strings_view, table_named, ManifestValue};
use crate::render::{makefile_text, render_makefile};
use crate::target::{includes_of, make_key, resolve, resolve_spec, IglooTarget, TargetModel};
use vstd::prelude::*;

verus! {

/// `b` inside directory `a`.
pub open spec fn join(a: Seq<char>, b: Seq<char>) -> Seq<char> {
    a + "/"@ + b
}

pub fn join_path(a: &str, b: &str) -> (r: String)
    ensures
        r@ == join(a@, b@),
{
    let mut r = a.to_owned();
    r.append("/");
    r.append(b);
    r
}

/// Where a target's files live inside a project.
pub open spec fn target_root(project_dir: Seq<char>, target: Seq<char>) -> Seq<char> {
    join(join(join(project_dir, ".igloo"@), "target"@), target)
}

/// Why creating project `name` for target `target` fails, if it does: an empty
/// name, a target that does not resolve, or a manifest file that was not loaded.
pub open spec fn project_error(inst: &Igloo, name: Seq<char>, target: Seq<char>) -> Option<
    IglooErrType,
> {
    if name.len() == 0 {
        Some(IglooErrType::InvalidProjectName)
    } else {
        match resolve_spec(inst.make_manifest@, inst.target_manifest@, target) {
            Err(e) => Some(e),
            Ok(names) => if table_named(inst.target_files@, names.1) is Some {
                None
            } else {
                Some(IglooErrType::ErrUnknown)
            },
        }
    }
}

/// The descriptor of the one target a new project starts with.
pub open spec fn initial_target(inst: &Igloo, name: Seq<char>, target: Seq<char>) -> TargetModel {
    let names = resolve_spec(inst.make_manifest@, inst.target_manifest@, target)->Ok_0;
    let links = table_named(inst.target_files@, names.1)->0;
    TargetModel {
        name: target,
        root: target_root(join(inst.env_info.cwd@, name), target),
        make: table_named(inst.make_manifest@, names.0)->0,
        links: links,
        includes: includes_of(links),
    }
}

pub open spec fn targets_view(ts: Seq<IglooTarget>) -> Seq<TargetModel> {
    ts.map_values(|t: IglooTarget| t@)
}

pub open spec fn files_view(fs: Seq<(String, String)>) -> Seq<(Seq<char>, Seq<char>)> {
    fs.map_values(|f: (String, String)| (f.0@, f.1@))
}

/// One `#include` line per header file, tab-indented.
pub open spec fn include_lines(incs: Seq<Seq<char>>) -> Seq<char>
    decreases incs.len(),
{
    if incs.len() == 0 {
        Seq::empty()
    } else {
        include_lines(incs.drop_last()) + "\t#include \""@ + incs.last() + "\"\n"@
    }
}

/// The block of the aggregating header for a target whose MCU symbol is `mcu`.
pub open spec fn header_block(mcu: Seq<char>, incs: Seq<Seq<char>>) -> Seq<char> {
    "#ifdef "@ + mcu + "\n"@ + include_lines(incs) + "#endif\n"@
}

/// The aggregating header of all targets, in order; none where a target has
/// no MCU symbol.
pub open spec fn header_text(ts: Seq<TargetModel>) -> Option<Seq<char>>
    decreases ts.len(),
{
    if ts.len() == 0 {
        Some(Seq::empty())
    } else {
        match (header_text(ts.drop_last()), scalar_of(ts.last().make, "MCU"@)) {
            (Some(h), Some(m)) => Some(h + header_block(m, ts.last().includes)),
            _ => None,
        }
    }
}

/// A header that cannot be rendered for a prefix of the targets cannot be
/// rendered for all of them.
pub proof fn lemma_header_prefix(ts: Seq<TargetModel>, i: int)
    requires
        0 <= i <= ts.len(),
        header_text(ts.subrange(0, i)) is None,
    ensures
        header_text(ts) is None,
    decreases ts.len(),
{
    if i < ts.len() {
        assert(ts.drop_last().subrange(0, i) =~= ts.subrange(0, i));
        lemma_header_prefix(ts.drop_last(), i);
    } else {
        assert(ts.subrange(0, i) =~= ts);
    }
}

/// A target that the catalog does not declare is rejected as invalid, so no
/// project, and no target descriptor, is created for it.
pub proof fn lemma_undeclared_target_rejected(inst: &Igloo, name: Seq<char>, target: Seq<char>)
    requires
        name.len() > 0,
        lookup(inst.target_manifest@, make_key(target)) is None,
    ensures
        project_error(inst, name, target) == Some(IglooErrType::InvalidTarget),
{
}

/// A project with a non-empty name and a target that resolves, and whose
/// manifest file is loaded, is created with exactly that one target.
pub proof fn lemma_valid_project_has_one_target(inst: &Igloo, name: Seq<char>, target: Seq<char>)
    requires
        name.len() > 0,
        resolve_spec(inst.make_manifest@, inst.target_manifest@, target) is Ok,
        table_named(
            inst.target_files@,
            resolve_spec(inst.make_manifest@, inst.target_manifest@, target)->Ok_0.1,
        ) is Some,
    ensures
        project_error(inst, name, target) is None,
        initial_target(inst, name, target).name == target,
{
}

/// An empty project name is rejected whatever the target and the catalogs.
pub proof fn lemma_empty_name_rejected(inst: &Igloo, target: Seq<char>)
    ensures
        project_error(inst, Seq::empty(), target) == Some(IglooErrType::InvalidProjectName),
{
}

/// The stub program.
pub open spec fn main_text() -> Seq<char> {
    "#include \"igloo.h\"\n"@ + "\n\nint main()\n{\n\treturn 0;\n}\n"@
}

/// The fixed directories of a project rooted at `root`, in creation order.
pub open spec fn skeleton_dirs(root: Seq<char>) -> Seq<Seq<char>> {
    seq![
        root,
        join(root, ".igloo"@),
        join(join(root, ".igloo"@), "target"@),
        join(root, "src"@),
        join(root, "inc"@),
        join(root, "cfg"@),
        join(root, "ESF"@),
    ]
}

/// What populating a project puts on disk: directories to create, in order,
/// then files to write, each a path and its contents.
pub struct Scaffold {
    pub dirs: Vec<String>,
    pub files: Vec<(String, String)>,
    /// `ErrNone`, or `ErrUnknown` when the aggregating header could not be rendered.
    pub status: IglooErrType,
}

pub struct IglooPrj {
    pub name: String,
    pub target_bank: Vec<IglooTarget>,
    pub project_dir: String,
    pub root: String,
}

impl IglooPrj {
    /// The Makefile of every target, each with its path.
    pub open spec fn makefile_entries(&self) -> Seq<(Seq<char>, Seq<char>)> {
        self.target_bank@.map_values(
            |t: IglooTarget|
                (join(t.root@, "Makefile"@), makefile_text(self.name@, t.name@, t.make_manifest@)),
        )
    }

    pub open spec fn header_path(&self) -> Seq<char> {
        join(join(self.project_dir@, "inc"@), "igloo.h"@)
    }

    pub open spec fn main_path(&self) -> Seq<char> {
        join(join(self.project_dir@, "src"@), "main.c"@)
    }

    /// A project with no name and no targets.
    pub fn default() -> (r: IglooPrj)
        ensures
            r.name@.len() == 0,
            r.target_bank@.len() == 0,
            r.project_dir@.len() == 0,
            r.root@.len() == 0,
    {
        IglooPrj {
            name: String::new(),
            target_bank: Vec::new(),
            project_dir: String::new(),
            root: String::new(),
        }
    }

    /// Creates project `name_in` under the working directory with the one
    /// target `target_in`.
    pub fn new(inst: &Igloo, name_in: &str, target_in: &str) -> (r: Result<IglooPrj, IglooErrType>)
        ensures
            name_in@.len() == 0 ==> r == Err::<IglooPrj, IglooErrType>(
                IglooErrType::InvalidProjectName,
            ),
            r is Err <==> project_error(inst, name_in@, target_in@) is Some,
            r matches Err(e) ==> project_error(inst, name_in@, target_in@) == Some(e),
            r matches Ok(p) ==> {
                &&& p.name@ == name_in@
                &&& p.project_dir@ == join(inst.env_info.cwd@, name_in@)
                &&& p.root@ == p.project_dir@
                &&& p.target_bank@.len() == 1
                &&& p.target_bank@[0]@ == initial_target(inst, name_in@, target_in@)
            },
    {
        if name_in.is_empty() {
            return Err(IglooErrType::InvalidProjectName);
        }
        let entry = match resolve(&inst.make_manifest, &inst.target_manifest, target_in) {
            Ok(e) => e,
            Err(e) => {
                return Err(e);
            },
        };
        let project_dir = join_path(inst.env_info.cwd.as_str(), name_in);
        let meta = join_path(project_dir.as_str(), ".igloo");
        let targets = join_path(meta.as_str(), "target");
        let root = join_path(targets.as_str(), target_in);
        let targ = match IglooTarget::from(
            root,
            inst,
            target_in.to_owned(),
            &entry.make_table,
            &entry.manifest_file,
        ) {
            Ok(t) => t,
            Err(e) => {
                return Err(e);
            },
        };
        let mut target_bank: Vec<IglooTarget> = Vec::new();
        target_bank.push(targ);
        let prj_root = project_dir.clone();
        Ok(IglooPrj { name: name_in.to_owned(), target_bank, project_dir, root: prj_root })
    }

    /// The Makefile text of `target`.
    pub fn gen_makefile(&self, target: &IglooTarget) -> (r: String)
        ensures
            r@ == makefile_text(self.name@, target.name@, target.make_manifest@),
    {
        render_makefile(self.name.as_str(), target.name.as_str(), &target.make_manifest)
    }

    /// The Makefile of every target, with its path inside the target's directory.
    pub fn gen_targets(&self) -> (r: Vec<(String, String)>)
        ensures
            files_view(r@) == self.makefile_entries(),
    {
        let mut r: Vec<(String, String)> = Vec::new();
        let mut i: usize = 0;
        while i < self.target_bank.len()
            invariant
                i <= self.target_bank.len(),
                r@.len() == i,
                forall|j: int|
                    0 <= j < i ==> #[trigger] r@[j].0@ == join(self.target_bank@[j].root@, "Makefile"@)
                        && r@[j].1@ == makefile_text(
                        self.name@,
                        self.target_bank@[j].name@,
                        self.target_bank@[j].make_manifest@,
                    ),
            decreases self.target_bank.len() - i,
        {
            let t = &self.target_bank[i];
            let path = join_path(t.root.as_str(), "Makefile");
            let text = self.gen_makefile(t);
            let ghost prev = r@;
            r.push((path, text));
            assert(forall|j: int| 0 <= j < i ==> r@[j] == prev[j]);
            i = i + 1;
        }
        assert forall|k: int| 0 <= k < r@.len() implies #[trigger] files_view(r@)[k]
            == self.makefile_entries()[k] by {
            assert(r@[k].0@ == join(self.target_bank@[k].root@, "Makefile"@));
        }
        assert(files_view(r@) =~= self.makefile_entries());
        r
    }

    /// The aggregating header: one block per target, guarded by its MCU symbol.
    /// Fails when a target has no MCU symbol.
    pub fn gen_igloo_header(&self) -> (r: Result<String, IglooErrType>)
        ensures
            match r {
                Ok(s) => header_text(targets_view(self.target_bank@)) == Some(s@),
                Err(e) => e == IglooErrType::ErrUnknown && header_text(
                    targets_view(self.target_bank@),
                ) is None,
            },
    {
        let ghost ts = targets_view(self.target_bank@);
        let mut out = String::new();
        let mut i: usize = 0;
        assert(ts.subrange(0, 0) =~= Seq::<TargetModel>::empty());
        while i < self.target_bank.len()
            invariant
                i <= self.target_bank.len(),
                ts == targets_view(self.target_bank@),
                header_text(ts.subrange(0, i as int)) == Some(out@),
            decreases self.target_bank.len() - i,
        {
            let t = &self.target_bank[i];
            let ghost pre = ts.subrange(0, i + 1);
            assert(pre.drop_last() =~= ts.subrange(0, i as int));
            assert(pre.last() == t@);
            match t.make_manifest.get(&"MCU".to_owned()) {
                Some(ManifestValue::Scalar(m)) => {
                    let ghost before = out@;
                    out.append("#ifdef ");
                    out.append(m.as_str());
                    out.append("\n");
                    emit_includes(&t.includes, &mut out);
                    out.append("#endif\n");
                    assert(out@ =~= before + header_block(m@, t@.includes));
                },
                _ => {
                    proof {
                        lemma_header_prefix(ts, i + 1);
                    }
                    return Err(IglooErrType::ErrUnknown);
                },
            }
            i = i + 1;
        }
        assert(ts.subrange(0, i as int) =~= ts);
        Ok(out)
    }

    /// The stub program, which includes the aggregating header.
    pub fn gen_igloo_main(&self) -> (r: String)
        ensures
            r@ == main_text(),
    {
        let mut r = "#include \"igloo.h\"\n".to_owned();
        r.append("\n\nint main()\n{\n\treturn 0;\n}\n");
        r
    }

    /// Everything that populating the project puts on disk: the directory
    /// skeleton and each target's directory, then each target's Makefile, the
    /// aggregating header (left out when it cannot be rendered) and the stub
    /// program.
    pub fn populate(&self) -> (r: Scaffold)
        ensures
            strings_view(r.dirs@) == skeleton_dirs(self.root@) + targets_view(
                self.target_bank@,
            ).map_values(|t: TargetModel| t.root),
            files_view(r.files@) == self.makefile_entries() + match header_text(
                targets_view(self.target_bank@),
            ) {
                Some(h) => seq![(self.header_path(), h)],
                None => Seq::empty(),
            } + seq![(self.main_path(), main_text())],
            r.status == if header_text(targets_view(self.target_bank@)) is Some {
                IglooErrType::ErrNone
            } else {
                IglooErrType::ErrUnknown
            },
    {
        let root = self.root.as_str();
        let mut dirs: Vec<String> = Vec::new();
        dirs.push(root.to_owned());
        let meta = join_path(root, ".igloo");
        dirs.push(join_path(meta.as_str(), "target"));
        dirs.insert(1, meta);
        dirs.push(join_path(root, "src"));
        dirs.push(join_path(root, "inc"));
        dirs.push(join_path(root, "cfg"));
        dirs.push(join_path(root, "ESF"));
        assert(strings_view(dirs@) =~= skeleton_dirs(self.root@));
        let mut i: usize = 0;
        while i < self.target_bank.len()
            invariant
                i <= self.target_bank.len(),
                dirs@.len() == 7 + i,
                forall|j: int| 0 <= j < 7 ==> #[trigger] dirs@[j]@ == skeleton_dirs(self.root@)[j],
                forall|j: int|
                    7 <= j < 7 + i ==> #[trigger] dirs@[j]@ == self.target_bank@[j - 7].root@,
            decreases self.target_bank.len() - i,
        {
            let d = self.target_bank[i].root.clone();
            let ghost prev = dirs@;
            dirs.push(d);
            assert(forall|j: int| 0 <= j < 7 + i ==> dirs@[j] == prev[j]);
            i = i + 1;
        }
        assert forall|k: int| 0 <= k < dirs@.len() implies #[trigger] strings_view(dirs@)[k] == (
        skeleton_dirs(self.root@) + targets_view(self.target_bank@).map_values(
            |t: TargetModel| t.root,
        ))[k] by {
            if k >= 7 {
                assert(dirs@[k]@ == self.target_bank@[k - 7].root@);
            }
        }
        assert(strings_view(dirs@) =~= skeleton_dirs(self.root@) + targets_view(
            self.target_bank@,
        ).map_values(|t: TargetModel| t.root));
        let mut files = self.gen_targets();
        let ghost makefiles = files_view(files@);
        let inc = join_path(self.project_dir.as_str(), "inc");
        let status = match self.gen_igloo_header() {
            Ok(h) => {
                files.push((join_path(inc.as_str(), "igloo.h"), h));
                IglooErrType::ErrNone
            },
            Err(e) => e,
        };
        let ghost with_header = files_view(files@);
        let src = join_path(self.project_dir.as_str(), "src");
        files.push((join_path(src.as_str(), "main.c"), self.gen_igloo_main()));
        assert(files_view(files@) =~= with_header + seq![(self.main_path(), main_text())]);
        assert(with_header =~= makefiles + match header_text(targets_view(self.target_bank@)) {
            Some(h) => seq![(self.header_path(), h)],
            None => Seq::<(Seq<char>, Seq<char>)>::empty(),
        });
        Scaffold { dirs, files, status }
    }
}

/// Appends one `#include` line per header file.
pub fn emit_includes(incs: &Vec<String>, out: &mut String)
    ensures
        final(out)@ == old(out)@ + include_lines(strings_view(incs@)),
{
    let mut i: usize = 0;
    while i < incs.len()
        invariant
            i <= incs.len(),
            out@ == old(out)@ + include_lines(strings_view(incs@).subrange(0, i as int)),
        decreases incs.len() - i,
    {
        let ghost pre = strings_view(incs@).subrange(0, i + 1);
        assert(pre.drop_last() =~= strings_view(incs@).subrange(0, i as int));
        assert(pre.last() == incs@[i as int]@);
        out.append("\t#include \"");
        out.append(incs[i].as_str());
        out.append("\"\n");
        assert(out@ =~= old(out)@ + include_lines(pre));
        i = i + 1;
    }
    assert(strings_view(incs@).subrange(0, incs.len() as int) =~= strings_view(incs@));
}

} // verus!
