use igloo::igloo::{Igloo, IglooEnvInfo, IglooErrType, IglooInstType};
use igloo::manifest::{ManifestTable, ManifestValue, NamedTables};
use igloo::project::IglooPrj;
use igloo::render::{
    missing_keys, render_makefile, BLANK, NEWLINE, PATTERN_RULES, SEARCH_PATHS, SHELL_SELECTION, TRAILER,
};
use igloo::target::resolve;

fn s(x: &str) -> String {
    x.to_string()
}

fn scalar(x: &str) -> ManifestValue {
    ManifestValue::Scalar(s(x))
}

fn list(xs: &[&str]) -> ManifestValue {
    ManifestValue::List(xs.iter().map(|x| s(x)).collect())
}

fn make_table() -> ManifestTable {
    let mut t = ManifestTable::new();
    t.insert(s("TOOLCHAIN"), scalar("arm-none-eabi"));
    t.insert(s("CC"), scalar("arm-none-eabi-gcc"));
    t.insert(s("MCU"), scalar("STM32F4"));
    t.insert(s("CFLAGS"), list(&["-O2", "-Wall"]));
    t.insert(s("ALL_PREREQS"), list(&["$(PROJECT_NAME).elf"]));
    t.insert(s("ALL_CMDS"), list(&["@echo done"]));
    t
}

fn env() -> IglooEnvInfo {
    IglooEnvInfo::info(Some(s("/work")), Some(s("/home/u")), Some(s("/esf"))).unwrap()
}

fn context(make: ManifestTable) -> Igloo {
    let mut makes = NamedTables::new();
    makes.insert(s("stm32f4_make"), make);
    let mut catalog = ManifestTable::new();
    catalog.insert(s("target.make.stm32f4"), scalar("stm32f4_make"));
    catalog.insert(s("target.manifest.stm32f4"), scalar("stm32f4.toml"));
    let mut links = ManifestTable::new();
    links.insert(s("includes"), list(&["hal.h", "clock.h"]));
    let mut files = NamedTables::new();
    files.insert(s("stm32f4.toml"), links);
    Igloo::new(env(), makes, catalog, files)
}

#[test]
fn unknown_target_is_invalid() {
    let inst = context(make_table());
    assert!(matches!(
        resolve(&inst.make_manifest, &inst.target_manifest, "avr"),
        Err(IglooErrType::InvalidTarget)
    ));
    assert!(matches!(IglooPrj::new(&inst, "blinky", "avr"), Err(IglooErrType::InvalidTarget)));
}

#[test]
fn catalog_without_manifest_name_is_inconsistent() {
    let mut inst = context(make_table());
    inst.target_manifest = ManifestTable::new();
    inst.target_manifest.insert(s("target.make.stm32f4"), scalar("stm32f4_make"));
    assert!(matches!(
        resolve(&inst.make_manifest, &inst.target_manifest, "stm32f4"),
        Err(IglooErrType::ErrUnknown)
    ));
    assert!(matches!(IglooPrj::new(&inst, "blinky", "stm32f4"), Err(IglooErrType::ErrUnknown)));
}

#[test]
fn missing_make_table_is_inconsistent() {
    let mut inst = context(make_table());
    inst.make_manifest = NamedTables::new();
    assert!(matches!(
        resolve(&inst.make_manifest, &inst.target_manifest, "stm32f4"),
        Err(IglooErrType::ErrUnknown)
    ));
}

#[test]
fn missing_manifest_file_is_inconsistent() {
    let mut inst = context(make_table());
    inst.target_files = NamedTables::new();
    assert!(matches!(IglooPrj::new(&inst, "blinky", "stm32f4"), Err(IglooErrType::ErrUnknown)));
}

#[test]
fn resolve_gives_catalog_names() {
    let inst = context(make_table());
    let e = resolve(&inst.make_manifest, &inst.target_manifest, "stm32f4").unwrap();
    assert_eq!(e.make_table, "stm32f4_make");
    assert_eq!(e.manifest_file, "stm32f4.toml");
}

#[test]
fn new_project_has_one_target() {
    let inst = context(make_table());
    let p = IglooPrj::new(&inst, "blinky", "stm32f4").unwrap();
    assert_eq!(p.name, "blinky");
    assert_eq!(p.project_dir, "/work/blinky");
    assert_eq!(p.root, "/work/blinky");
    assert_eq!(p.target_bank.len(), 1);
    assert_eq!(p.target_bank[0].name, "stm32f4");
    assert_eq!(p.target_bank[0].root, "/work/blinky/.igloo/target/stm32f4");
    assert_eq!(p.target_bank[0].includes, vec![s("hal.h"), s("clock.h")]);
}

#[test]
fn empty_project_name_is_rejected() {
    let inst = context(make_table());
    assert!(matches!(IglooPrj::new(&inst, "", "stm32f4"), Err(IglooErrType::InvalidProjectName)));
    assert!(matches!(IglooPrj::new(&inst, "", "avr"), Err(IglooErrType::InvalidProjectName)));
}

#[test]
fn makefile_rendering_is_repeatable() {
    let inst = context(make_table());
    let p = IglooPrj::new(&inst, "blinky", "stm32f4").unwrap();
    let a = p.gen_makefile(&p.target_bank[0]);
    let b = p.gen_makefile(&p.target_bank[0]);
    assert_eq!(a, b);
}

#[test]
fn cflags_are_continued_in_order() {
    let inst = context(make_table());
    let p = IglooPrj::new(&inst, "blinky", "stm32f4").unwrap();
    let m = p.gen_makefile(&p.target_bank[0]);
    assert!(m.contains("CFLAGS= \\\n-O2 \\\n-Wall\n"));
    assert!(m.find("-O2").unwrap() < m.find("-Wall").unwrap());
}

#[test]
fn missing_toolchain_is_omitted() {
    let mut t = make_table();
    t.entries.retain(|e| e.0 != "TOOLCHAIN");
    let m = render_makefile("blinky", "stm32f4", &t);
    assert!(!m.contains("TOOLCHAIN="));
    assert!(m.contains("CC=arm-none-eabi-gcc\n"));
}

#[test]
fn makefile_of_empty_table_is_fixed_text() {
    let m = render_makefile("p", "t", &ManifestTable::new());
    let mut want = s("# ePenguin Generated Variables\nPROJECT_NAME=p\nTARGET_NAME=t\n");
    for part in [BLANK, BLANK, BLANK, BLANK, BLANK, BLANK, SHELL_SELECTION, BLANK, BLANK, BLANK, BLANK]
    {
        want.push_str(part);
    }
    want.push_str(NEWLINE);
    want.push_str(SEARCH_PATHS);
    for _ in 0..5 {
        want.push_str(BLANK);
    }
    want.push_str(PATTERN_RULES);
    want.push_str(BLANK);
    want.push_str(BLANK);
    want.push_str(TRAILER);
    assert_eq!(m, want);
}

#[test]
fn scalar_and_rule_lines() {
    let mut t = ManifestTable::new();
    t.insert(s("AS"), scalar("as"));
    t.insert(s("DEPS"), scalar("$(OBJS:%.o=%.d)"));
    t.insert(s("OBJS"), list(&["a.o", "b.o"]));
    t.insert(s("CLEAN_PREREQS"), list(&["", "x"]));
    t.insert(s("CLEAN_CMDS"), list(&["rm -f x", ""]));
    let m = render_makefile("p", "t", &t);
    assert!(m.contains("AS=as\n"));
    assert!(m.contains("DEPS:=$(OBJS:%.o=%.d)\n"));
    assert!(m.contains("OBJS+= \\\na.o \\\nb.o\n"));
    assert!(m.contains("clean: \\\nx\n\trm -f x\n"));
}

#[test]
fn empty_list_elements_are_skipped() {
    let mut t = ManifestTable::new();
    t.insert(s("CFLAGS"), list(&["-O2", ""]));
    t.insert(s("ELF_FLAGS"), list(&[]));
    let m = render_makefile("p", "t", &t);
    assert!(m.contains("CFLAGS= \\\n-O2\n\n"));
    assert!(m.contains("ELF_FLAGS=\n\n"));
    assert!(!m.contains("\\\n\n"));
}

#[test]
fn value_of_other_kind_is_omitted() {
    let mut t = ManifestTable::new();
    t.insert(s("CC"), list(&["gcc"]));
    t.insert(s("CFLAGS"), scalar("-O2"));
    let m = render_makefile("p", "t", &t);
    assert!(!m.contains("CC="));
    assert!(!m.contains("CFLAGS="));
}

#[test]
fn later_entry_overrides() {
    let mut t = ManifestTable::new();
    t.insert(s("CC"), scalar("gcc"));
    t.insert(s("CC"), scalar("clang"));
    assert!(matches!(t.get(&s("CC")), Some(ManifestValue::Scalar(v)) if v == "clang"));
    assert!(t.get(&s("CXX")).is_none());
    let m = render_makefile("p", "t", &t);
    assert!(m.contains("CC=clang\n"));
    assert!(!m.contains("CC=gcc"));
}

#[test]
fn header_guards_includes_by_mcu() {
    let inst = context(make_table());
    let p = IglooPrj::new(&inst, "blinky", "stm32f4").unwrap();
    assert_eq!(
        p.gen_igloo_header().unwrap(),
        "#ifdef STM32F4\n\t#include \"hal.h\"\n\t#include \"clock.h\"\n#endif\n"
    );
}

#[test]
fn header_without_mcu_fails() {
    let mut t = make_table();
    t.entries.retain(|e| e.0 != "MCU");
    let inst = context(t);
    let p = IglooPrj::new(&inst, "blinky", "stm32f4").unwrap();
    assert!(matches!(p.gen_igloo_header(), Err(IglooErrType::ErrUnknown)));
    let sc = p.populate();
    assert_eq!(sc.status, IglooErrType::ErrUnknown);
    assert!(sc.files.iter().all(|f| !f.0.ends_with("igloo.h")));
}

#[test]
fn populate_end_to_end() {
    let inst = context(make_table());
    let p = IglooPrj::new(&inst, "blinky", "stm32f4").unwrap();
    let sc = p.populate();
    assert_eq!(sc.status, IglooErrType::ErrNone);
    assert_eq!(
        sc.dirs,
        vec![
            s("/work/blinky"),
            s("/work/blinky/.igloo"),
            s("/work/blinky/.igloo/target"),
            s("/work/blinky/src"),
            s("/work/blinky/inc"),
            s("/work/blinky/cfg"),
            s("/work/blinky/ESF"),
            s("/work/blinky/.igloo/target/stm32f4"),
        ]
    );
    let paths: Vec<&str> = sc.files.iter().map(|f| f.0.as_str()).collect();
    assert_eq!(
        paths,
        vec![
            "/work/blinky/.igloo/target/stm32f4/Makefile",
            "/work/blinky/inc/igloo.h",
            "/work/blinky/src/main.c",
        ]
    );
    assert_eq!(sc.files[0].1, p.gen_makefile(&p.target_bank[0]));
    assert_eq!(sc.files[2].1, "#include \"igloo.h\"\n\n\nint main()\n{\n\treturn 0;\n}\n");
    assert_eq!(sc.files[2].1, p.gen_igloo_main());
}

#[test]
fn gen_targets_lists_each_makefile() {
    let inst = context(make_table());
    let p = IglooPrj::new(&inst, "blinky", "stm32f4").unwrap();
    let mk = p.gen_targets();
    assert_eq!(mk.len(), 1);
    assert_eq!(mk[0].0, "/work/blinky/.igloo/target/stm32f4/Makefile");
    assert!(mk[0].1.starts_with("# ePenguin Generated Variables\nPROJECT_NAME=blinky\nTARGET_NAME=stm32f4\n"));
}

#[test]
fn default_project_is_empty() {
    let p = IglooPrj::default();
    assert_eq!(p.name, "");
    assert!(p.target_bank.is_empty());
}

#[test]
fn env_info_needs_every_value() {
    assert!(matches!(
        IglooEnvInfo::info(Some(s("/w")), Some(s("/h")), None),
        Err(IglooErrType::EnvInfoInvalid)
    ));
    assert!(matches!(
        IglooEnvInfo::info(None, Some(s("/h")), Some(s("/e"))),
        Err(IglooErrType::EnvInfoInvalid)
    ));
    let e = env();
    assert_eq!(e.cwd, "/work");
    assert_eq!(e.esfd, "/esf");
}

#[test]
fn start_maps_subcommands() {
    let inst = context(make_table());
    assert_eq!(inst.start(Some("new")), Ok(IglooInstType::New));
    assert_eq!(inst.start(Some("run")), Ok(IglooInstType::Run));
    assert_eq!(inst.start(Some("flash")), Ok(IglooInstType::Flash));
    assert_eq!(inst.start(Some("clean")), Ok(IglooInstType::Clean));
    assert_eq!(inst.start(Some("erase")), Ok(IglooInstType::Erase));
    assert_eq!(inst.start(Some("bogus")), Err(IglooErrType::UnknownInstType));
    assert_eq!(inst.start(None), Err(IglooErrType::UnknownInstType));
}

#[test]
fn run_creates_project_on_new() {
    let inst = context(make_table());
    assert!(matches!(inst.run(IglooInstType::Null, "b", "stm32f4"), Err(IglooErrType::ErrUnknown)));
    assert!(matches!(inst.run(IglooInstType::Flash, "b", "stm32f4"), Ok(None)));
    let p = inst.run(IglooInstType::New, "blinky", "stm32f4").unwrap().unwrap();
    assert_eq!(p.target_bank[0].name, "stm32f4");
    assert!(matches!(
        inst.run(IglooInstType::New, "", "stm32f4"),
        Err(IglooErrType::InvalidProjectName)
    ));
}

#[test]
fn value_copies_are_equal() {
    let v = list(&["a", "b"]);
    match v.copy() {
        ManifestValue::List(l) => assert_eq!(l, vec![s("a"), s("b")]),
        _ => panic!("kind changed"),
    }
    let t = make_table();
    let c = t.copy();
    assert_eq!(c.entries.len(), t.entries.len());
    assert_eq!(render_makefile("p", "t", &c), render_makefile("p", "t", &t));
}

#[test]
fn missing_keys_follow_layout() {
    let mut t = ManifestTable::new();
    t.insert(s("CC"), scalar("gcc"));
    t.insert(s("MCU"), list(&["x"]));
    let keys = missing_keys(&t);
    assert_eq!(keys[0], "TOOLCHAIN");
    assert!(!keys.iter().any(|k| k == "CC"));
    assert!(keys.iter().any(|k| k == "MCU"));
    assert_eq!(keys.last().unwrap(), "PUSH_CMDS");
    assert_eq!(keys.len(), 39);
    let full = missing_keys(&ManifestTable::new());
    assert_eq!(full.len(), 40);
}
