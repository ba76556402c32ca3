//! Target resolution against the catalogs, and the resolved target descriptor.
use crate::igloo::{Igloo, IglooErrType};
use crate::manifest::{
    copy_strings, list_of, lookup, scalar_of, strings_view, table_named, ManifestTable,
    ManifestValue, NamedTables, ValueModel,
};
use vstd::prelude::*;

verus! {

/// The catalog key that declares a target and names its make table.
pub open spec fn make_key(name: Seq<char>) -> Seq<char> {
    "target.make."@ + name
}

/// The catalog key that names a target's manifest file.
pub open spec fn manifest_key(name: Seq<char>) -> Seq<char> {
    "target.manifest."@ + name
}

/// What resolving `name` gives: the make-table name and the manifest-file name.
/// A target that the catalog does not declare is invalid; a declared target
/// whose names are missing, are not scalars, or whose make table the make-rule
/// catalog lacks, is a catalog inconsistency.
pub open spec fn resolve_spec(
    make_cat: Seq<(Seq<char>, Seq<(Seq<char>, ValueModel)>)>,
    target_cat: Seq<(Seq<char>, ValueModel)>,
    name: Seq<char>,
) -> Result<(Seq<char>, Seq<char>), IglooErrType> {
    match lookup(target_cat, make_key(name)) {
        None => Err(IglooErrType::InvalidTarget),
        Some(ValueModel::List(_)) => Err(IglooErrType::ErrUnknown),
        Some(ValueModel::Scalar(m)) => match scalar_of(target_cat, manifest_key(name)) {
            None => Err(IglooErrType::ErrUnknown),
            Some(f) => if table_named(make_cat, m) is Some {
                Ok((m, f))
            } else {
                Err(IglooErrType::ErrUnknown)
            },
        },
    }
}

/// A target's entry in the catalog.
pub struct TargetEntry {
    pub make_table: String,
    pub manifest_file: String,
}

/// Validates `name` against the target catalog and the make-rule catalog.
pub fn resolve(make_man: &NamedTables, target_man: &ManifestTable, name: &str) -> (r:
    Result<TargetEntry, IglooErrType>)
    ensures
        lookup(target_man@, make_key(name@)) is None ==> r == Err::<TargetEntry, IglooErrType>(
            IglooErrType::InvalidTarget,
        ),
        match r {
            Ok(e) => resolve_spec(make_man@, target_man@, name@) == Ok::<
                (Seq<char>, Seq<char>),
                IglooErrType,
            >((e.make_table@, e.manifest_file@)),
            Err(e) => resolve_spec(make_man@, target_man@, name@) == Err::<
                (Seq<char>, Seq<char>),
                IglooErrType,
            >(e),
        },
{
    let mut mk = "target.make.".to_owned();
    mk.append(name);
    let make_table = match target_man.get(&mk) {
        None => {
            return Err(IglooErrType::InvalidTarget);
        },
        Some(ManifestValue::List(_)) => {
            return Err(IglooErrType::ErrUnknown);
        },
        Some(ManifestValue::Scalar(m)) => m.clone(),
    };
    let mut fk = "target.manifest.".to_owned();
    fk.append(name);
    let manifest_file = match target_man.get(&fk) {
        Some(ManifestValue::Scalar(f)) => f.clone(),
        _ => {
            return Err(IglooErrType::ErrUnknown);
        },
    };
    if make_man.get(&make_table).is_none() {
        return Err(IglooErrType::ErrUnknown);
    }
    Ok(TargetEntry { make_table, manifest_file })
}

/// The link-table key whose list names the target's header files.
pub open spec fn includes_key() -> Seq<char> {
    "includes"@
}

/// The header files that a link table lists; none where it lists none.
pub open spec fn includes_of(links: Seq<(Seq<char>, ValueModel)>) -> Seq<Seq<char>> {
    match list_of(links, includes_key()) {
        Some(l) => l,
        None => Seq::empty(),
    }
}

/// A resolved target, mathematically.
pub struct TargetModel {
    pub name: Seq<char>,
    pub root: Seq<char>,
    pub make: Seq<(Seq<char>, ValueModel)>,
    pub links: Seq<(Seq<char>, ValueModel)>,
    pub includes: Seq<Seq<char>>,
}

/// A resolved build target: its make-variable table, its link table and the
/// header files it contributes.
pub struct IglooTarget {
    pub name: String,
    /// Where the target's files live: `<project>/.igloo/target/<name>`.
    pub root: String,
    pub make_manifest: ManifestTable,
    pub links: ManifestTable,
    pub includes: Vec<String>,
}

impl View for IglooTarget {
    type V = TargetModel;

    open spec fn view(&self) -> TargetModel {
        TargetModel {
            name: self.name@,
            root: self.root@,
            make: self.make_manifest@,
            links: self.links@,
            includes: strings_view(self.includes@),
        }
    }
}

impl IglooTarget {
    /// Builds the descriptor of target `name` from the make table and the
    /// manifest file that the catalog names for it. Either one missing is a
    /// catalog inconsistency.
    pub fn from(
        root: String,
        inst: &Igloo,
        name: String,
        make_table_name: &String,
        manifest_file_name: &String,
    ) -> (r: Result<IglooTarget, IglooErrType>)
        ensures
            r is Ok <==> (table_named(inst.make_manifest@, make_table_name@) is Some && table_named(
                inst.target_files@,
                manifest_file_name@,
            ) is Some),
            r matches Err(e) ==> e == IglooErrType::ErrUnknown,
            r matches Ok(t) ==> t@ == (TargetModel {
                name: name@,
                root: root@,
                make: table_named(inst.make_manifest@, make_table_name@)->0,
                links: table_named(inst.target_files@, manifest_file_name@)->0,
                includes: includes_of(table_named(inst.target_files@, manifest_file_name@)->0),
            }),
    {
        let make = match inst.make_manifest.get(make_table_name) {
            Some(t) => t.copy(),
            None => {
                return Err(IglooErrType::ErrUnknown);
            },
        };
        let links = match inst.target_files.get(manifest_file_name) {
            Some(t) => t.copy(),
            None => {
                return Err(IglooErrType::ErrUnknown);
            },
        };
        let includes = match links.get(&"includes".to_owned()) {
            Some(ManifestValue::List(l)) => copy_strings(l),
            _ => {
                let v: Vec<String> = Vec::new();
                assert(strings_view(v@) =~= Seq::<Seq<char>>::empty());
                v
            },
        };
        Ok(IglooTarget { name, root, make_manifest: make, links, includes })
    }
}

} // verus!
