//! The tool's context: commands, error kinds, environment and loaded catalogs.
use crate::manifest::{ManifestTable, NamedTables};
use crate::project::{initial_target, project_error, IglooPrj};
use vstd::prelude::*;

verus! {

/// The command that an invocation asks for.
#[derive(Debug, PartialEq, Eq, Structural, Clone, Copy)]
pub enum IglooInstType {
    Null,
    New,
    Run,
    Flash,
    Debug,
    Clean,
    Erase,
    GenDoc,
}

/// Outcomes and failures of the tool.
#[derive(Debug, PartialEq, Eq, Structural, Clone, Copy)]
pub enum IglooErrType {
    ErrNone,
    ErrUnknown,
    ConfigNotFound,
    ConfigFound,
    UnknownInstType,
    NewCalledInsidePrj,
    FolderAlreadyExists,
    InvalidProjectName,
    EnvInfoInvalid,
    InvalidTarget,
}

/// The process environment the tool works in, as paths.
#[derive(Debug, PartialEq, Eq)]
pub struct IglooEnvInfo {
    /// Current working directory
    pub cwd: String,
    /// Home directory
    pub hd: String,
    /// Support-files directory
    pub esfd: String,
}

impl IglooEnvInfo {
    /// Assembles the environment from what was discovered; any value that
    /// could not be discovered makes it invalid.
    pub fn info(cwd: Option<String>, hd: Option<String>, esfd: Option<String>) -> (r: Result<
        IglooEnvInfo,
        IglooErrType,
    >)
        ensures
            r is Err <==> (cwd is None || hd is None || esfd is None),
            r matches Err(e) ==> e == IglooErrType::EnvInfoInvalid,
            r matches Ok(env) ==> env.cwd@ == cwd->0@ && env.hd@ == hd->0@ && env.esfd@
                == esfd->0@,
    {
        match (cwd, hd, esfd) {
            (Some(cwd), Some(hd), Some(esfd)) => Ok(IglooEnvInfo { cwd, hd, esfd }),
            _ => Err(IglooErrType::EnvInfoInvalid),
        }
    }
}

/// The command named `name`, if it is one the tool knows.
pub open spec fn inst_type_of(name: Seq<char>) -> Option<IglooInstType> {
    if name == "new"@ {
        Some(IglooInstType::New)
    } else if name == "run"@ {
        Some(IglooInstType::Run)
    } else if name == "flash"@ {
        Some(IglooInstType::Flash)
    } else if name == "clean"@ {
        Some(IglooInstType::Clean)
    } else if name == "erase"@ {
        Some(IglooInstType::Erase)
    } else {
        None
    }
}

/// The tool's context: its environment and the catalogs it loaded.
pub struct Igloo {
    pub env_info: IglooEnvInfo,
    /// The make-rule catalog: one table of make variables per make-table name.
    pub make_manifest: NamedTables,
    /// The target catalog, keyed by `target.make.<name>` and `target.manifest.<name>`.
    pub target_manifest: ManifestTable,
    /// The per-target manifest files, one link table per file name.
    pub target_files: NamedTables,
}

impl Igloo {
    pub fn new(
        env_info: IglooEnvInfo,
        make_manifest: NamedTables,
        target_manifest: ManifestTable,
        target_files: NamedTables,
    ) -> (r: Igloo)
        ensures
            r.env_info == env_info,
            r.make_manifest@ == make_manifest@,
            r.target_manifest@ == target_manifest@,
            r.target_files@ == target_files@,
    {
        Igloo { env_info, make_manifest, target_manifest, target_files }
    }

    /// The command that the subcommand `command` asks for.
    pub fn start(&self, command: Option<&str>) -> (r: Result<IglooInstType, IglooErrType>)
        ensures
            match command {
                None => r == Err::<IglooInstType, IglooErrType>(IglooErrType::UnknownInstType),
                Some(c) => match inst_type_of(c@) {
                    Some(t) => r == Ok::<IglooInstType, IglooErrType>(t),
                    None => r == Err::<IglooInstType, IglooErrType>(
                        IglooErrType::UnknownInstType,
                    ),
                },
            },
    {
        let c = match command {
            None => {
                return Err(IglooErrType::UnknownInstType);
            },
            Some(c) => c.to_owned(),
        };
        if c == "new".to_owned() {
            Ok(IglooInstType::New)
        } else if c == "run".to_owned() {
            Ok(IglooInstType::Run)
        } else if c == "flash".to_owned() {
            Ok(IglooInstType::Flash)
        } else if c == "clean".to_owned() {
            Ok(IglooInstType::Clean)
        } else if c == "erase".to_owned() {
            Ok(IglooInstType::Erase)
        } else {
            Err(IglooErrType::UnknownInstType)
        }
    }

    /// Carries out `inst_type`. Creating a project hands the new project back,
    /// to be populated on disk; the other commands have nothing to hand back.
    pub fn run(&self, inst_type: IglooInstType, prj_name: &str, target: &str) -> (r: Result<
        Option<IglooPrj>,
        IglooErrType,
    >)
        ensures
            inst_type == IglooInstType::Null ==> r == Err::<Option<IglooPrj>, IglooErrType>(
                IglooErrType::ErrUnknown,
            ),
            inst_type == IglooInstType::New ==> match project_error(self, prj_name@, target@) {
                Some(e) => r == Err::<Option<IglooPrj>, IglooErrType>(e),
                None => r matches Ok(Some(p)) && p.name@ == prj_name@ && p.target_bank@.len()
                    == 1 && p.target_bank@[0]@ == initial_target(self, prj_name@, target@),
            },
            inst_type != IglooInstType::Null && inst_type != IglooInstType::New ==> r matches Ok(
                None,
            ),
    {
        match inst_type {
            IglooInstType::Null => Err(IglooErrType::ErrUnknown),
            IglooInstType::New => match IglooPrj::new(self, prj_name, target) {
                Ok(p) => Ok(Some(p)),
                Err(e) => Err(e),
            },
            _ => Ok(None),
        }
    }
}

} // verus!
