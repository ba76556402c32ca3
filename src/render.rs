//! Makefile text: a declarative layout of items rendered against a make-variable table.
use crate::manifest::{list_of, lookup, scalar_of, strings_view, ManifestTable, ManifestValue, ValueModel};
use vstd::prelude::*;

verus! {

/// One entry of the Makefile layout.
#[derive(Clone, Copy)]
pub enum MakeItem {
    /// Fixed text, emitted as it stands.
    Text(&'static str),
    /// `KEY<op>value` on one line, when the key holds a scalar.
    Scalar(&'static str, &'static str),
    /// `KEY<op>` followed by one continuation line per non-empty element,
    /// when the key holds a list.
    List(&'static str, &'static str),
    /// `rule:` followed by one continuation line per non-empty prerequisite,
    /// when the key holds a list.
    Prereqs(&'static str, &'static str),
    /// One tab-indented recipe line per non-empty command, when the key holds a list.
    Cmds(&'static str),
}

/// An empty line after a block.
pub const BLANK: &'static str = "\n\n";

pub const NEWLINE: &'static str = "\n";

/// Shell and directory-creation command chosen by host platform.
pub const SHELL_SELECTION: &'static str = "\nifdef SystemRoot\n\
\tSHELL = cmd.exe\n\
\tMK_DIR = mkdir\n\
else\n\
\tifeq ($(shell uname), Linux)\n\
\t\tMK_DIR = mkdir -p\n\
\tendif\n\n\
\tifeq ($(shell uname | cut -d _ -f 1), CYGWIN)\n\
\t\tMK_DIR = mkdir -p\n\
\tendif\n\n\
\tifeq ($(shell uname | cut -d _ -f 1), MINGW32)\n\
\t\tMK_DIR = mkdir -p\n\
\tendif\n\n\
\tifeq ($(shell uname | cut -d _ -f 1), MINGW64)\n\
\t\tMK_DIR = mkdir -p\n\
\tendif\n\n\
\tifeq ($(shell uname | cut -d _ -f 1), DARWIN)\n\
\t\tMK_DIR = mkdir -p\n\
\tendif\n\
endif\n";

/// Source search paths and the phony rules.
pub const SEARCH_PATHS: &'static str = "\nvpath %.c ../../../\n\
vpath %.s ../../../\n\
vpath %.S ../../../\n\n\
.PHONY: debug clean\n\n";

/// Pattern rules from sources to objects, the rule that creates the object
/// directories, and the dependency files.
pub const PATTERN_RULES: &'static str = "\n\n# Compiler targets\n\
%.o: %.c\n\
\t@echo Building file: $<\n\
\t@echo ARM/GNU C Compiler\n\
\t$(QUOTE)$(CC)$(QUOTE) $(CFLAGS) -o $(QUOTE)$@$(QUOTE) $(QUOTE)$<$(QUOTE)\n\
\t@echo Finished building: $<\n\n\
%.o: %.s\n\
\t@echo Building file: $<\n\
\t@echo ARM/GNU Assembler\n\
\t$(QUOTE)$(AS)$(QUOTE) $(CFLAGS) -o $(QUOTE)$@$(QUOTE) $(QUOTE)$<$(QUOTE)\n\
\t@echo Finished building: $<\n\n\
%.o: %.S\n\
\t@echo Building file: $<\n\
\t@echo ARM/GNU Preprocessing Assembler\n\
\t$(QUOTE)$(CC)$(QUOTE) $(CFLAGS) -o $(QUOTE)$@$(QUOTE) $(QUOTE)$<$(QUOTE)\n\
\t@echo Finished building: $<\n\n\n\n\
$(SUB_DIRS):\n\
\t$(MK_DIR) $(QUOTE)$@$(QUOTE)\n\n\
ifneq ($(MAKECMDGOALS),clean)\n\
ifneq ($(strip $(DEPS)),)\n\
-include $(DEPS)\n\
endif\n\
endif\n\n\n";

/// The quoting helper the pattern rules use.
pub const TRAILER: &'static str = "\n\nQUOTE:=\"\n";

pub open spec fn makefile_layout() -> Seq<MakeItem> {
    seq![
        MakeItem::Scalar("TOOLCHAIN", "="),
        MakeItem::Scalar("CC", "="),
        MakeItem::Scalar("CXX", "="),
        MakeItem::Scalar("OBJCOPY", "="),
        MakeItem::Scalar("OBJDUMP", "="),
        MakeItem::Scalar("GDB", "="),
        MakeItem::Scalar("SIZE", "="),
        MakeItem::Scalar("AS", "="),
        MakeItem::Text(BLANK),
        MakeItem::Scalar("MCPU", "="),
        MakeItem::Scalar("MCU", "="),
        MakeItem::Scalar("LD_PATH", "="),
        MakeItem::Scalar("LD_SCRIPT", "="),
        MakeItem::Text(BLANK),
        MakeItem::List("CFLAGS", "="),
        MakeItem::Text(BLANK),
        MakeItem::List("ELF_FLAGS", "="),
        MakeItem::Text(BLANK),
        MakeItem::List("HEX_FLAGS", "="),
        MakeItem::Text(BLANK),
        MakeItem::List("EEP_FLAGS", "="),
        MakeItem::Text(BLANK),
        MakeItem::Text(SHELL_SELECTION),
        MakeItem::List("SUB_DIRS", "+="),
        MakeItem::Text(BLANK),
        MakeItem::List("OBJS", "+="),
        MakeItem::Text(BLANK),
        MakeItem::List("OBJS_AS_ARGS", "+="),
        MakeItem::Text(BLANK),
        MakeItem::List("DIR_INCLUDES", "+="),
        MakeItem::Text(BLANK),
        MakeItem::Scalar("DEPS", ":="),
        MakeItem::Text(NEWLINE),
        MakeItem::Scalar("DEPS_AS_ARGS", ":="),
        MakeItem::Text(SEARCH_PATHS),
        MakeItem::Prereqs("ALL_PREREQS", "all"),
        MakeItem::Cmds("ALL_CMDS"),
        MakeItem::Text(BLANK),
        MakeItem::Prereqs("ELF_TARGET_PREREQS", "$(PROJECT_NAME).elf"),
        MakeItem::Cmds("ELF_TARGET_CMDS"),
        MakeItem::Text(BLANK),
        MakeItem::Prereqs("BIN_TARGET_PREREQS", "$(PROJECT_NAME).bin"),
        MakeItem::Cmds("BIN_TARGET_CMDS"),
        MakeItem::Text(BLANK),
        MakeItem::Prereqs("HEX_TARGET_PREREQS", "$(PROJECT_NAME).hex"),
        MakeItem::Cmds("HEX_TARGET_CMDS"),
        MakeItem::Text(BLANK),
        MakeItem::Prereqs("EEP_TARGET_PREREQS", "$(PROJECT_NAME).eep"),
        MakeItem::Cmds("EEP_TARGET_CMDS"),
        MakeItem::Text(BLANK),
        MakeItem::Prereqs("LSS_TARGET_PREREQS", "$(PROJECT_NAME).lss"),
        MakeItem::Cmds("LSS_TARGET_CMDS"),
        MakeItem::Text(PATTERN_RULES),
        MakeItem::Prereqs("CLEAN_PREREQS", "clean"),
        MakeItem::Cmds("CLEAN_CMDS"),
        MakeItem::Text(BLANK),
        MakeItem::Prereqs("DEBUG_PREREQS", "debug"),
        MakeItem::Cmds("DEBUG_CMDS"),
        MakeItem::Text(BLANK),
        MakeItem::Prereqs("PUSH_PREREQS", "push"),
        MakeItem::Cmds("PUSH_CMDS"),
        MakeItem::Text(TRAILER),
    ]
}

pub fn makefile_items() -> (r: Vec<MakeItem>)
    ensures
        r@ == makefile_layout(),
{
    let r: Vec<MakeItem> = vec![
        MakeItem::Scalar("TOOLCHAIN", "="),
        MakeItem::Scalar("CC", "="),
        MakeItem::Scalar("CXX", "="),
        MakeItem::Scalar("OBJCOPY", "="),
        MakeItem::Scalar("OBJDUMP", "="),
        MakeItem::Scalar("GDB", "="),
        MakeItem::Scalar("SIZE", "="),
        MakeItem::Scalar("AS", "="),
        MakeItem::Text(BLANK),
        MakeItem::Scalar("MCPU", "="),
        MakeItem::Scalar("MCU", "="),
        MakeItem::Scalar("LD_PATH", "="),
        MakeItem::Scalar("LD_SCRIPT", "="),
        MakeItem::Text(BLANK),
        MakeItem::List("CFLAGS", "="),
        MakeItem::Text(BLANK),
        MakeItem::List("ELF_FLAGS", "="),
        MakeItem::Text(BLANK),
        MakeItem::List("HEX_FLAGS", "="),
        MakeItem::Text(BLANK),
        MakeItem::List("EEP_FLAGS", "="),
        MakeItem::Text(BLANK),
        MakeItem::Text(SHELL_SELECTION),
        MakeItem::List("SUB_DIRS", "+="),
        MakeItem::Text(BLANK),
        MakeItem::List("OBJS", "+="),
        MakeItem::Text(BLANK),
        MakeItem::List("OBJS_AS_ARGS", "+="),
        MakeItem::Text(BLANK),
        MakeItem::List("DIR_INCLUDES", "+="),
        MakeItem::Text(BLANK),
        MakeItem::Scalar("DEPS", ":="),
        MakeItem::Text(NEWLINE),
        MakeItem::Scalar("DEPS_AS_ARGS", ":="),
        MakeItem::Text(SEARCH_PATHS),
        MakeItem::Prereqs("ALL_PREREQS", "all"),
        MakeItem::Cmds("ALL_CMDS"),
        MakeItem::Text(BLANK),
        MakeItem::Prereqs("ELF_TARGET_PREREQS", "$(PROJECT_NAME).elf"),
        MakeItem::Cmds("ELF_TARGET_CMDS"),
        MakeItem::Text(BLANK),
        MakeItem::Prereqs("BIN_TARGET_PREREQS", "$(PROJECT_NAME).bin"),
        MakeItem::Cmds("BIN_TARGET_CMDS"),
        MakeItem::Text(BLANK),
        MakeItem::Prereqs("HEX_TARGET_PREREQS", "$(PROJECT_NAME).hex"),
        MakeItem::Cmds("HEX_TARGET_CMDS"),
        MakeItem::Text(BLANK),
        MakeItem::Prereqs("EEP_TARGET_PREREQS", "$(PROJECT_NAME).eep"),
        MakeItem::Cmds("EEP_TARGET_CMDS"),
        MakeItem::Text(BLANK),
        MakeItem::Prereqs("LSS_TARGET_PREREQS", "$(PROJECT_NAME).lss"),
        MakeItem::Cmds("LSS_TARGET_CMDS"),
        MakeItem::Text(PATTERN_RULES),
        MakeItem::Prereqs("CLEAN_PREREQS", "clean"),
        MakeItem::Cmds("CLEAN_CMDS"),
        MakeItem::Text(BLANK),
        MakeItem::Prereqs("DEBUG_PREREQS", "debug"),
        MakeItem::Cmds("DEBUG_CMDS"),
        MakeItem::Text(BLANK),
        MakeItem::Prereqs("PUSH_PREREQS", "push"),
        MakeItem::Cmds("PUSH_CMDS"),
        MakeItem::Text(TRAILER),
    ];
    assert(r@ =~= makefile_layout());
    r
}

/// The fixed banner and the project and target names.
pub open spec fn makefile_header(project: Seq<char>, target: Seq<char>) -> Seq<char> {
    "# ePenguin Generated Variables\n"@ + "PROJECT_NAME="@ + project + "\n"@ + "TARGET_NAME="@ + target
        + "\n"@
}

/// The whole Makefile of a target: the header, then the layout rendered against
/// the target's make-variable table.
pub open spec fn makefile_text(
    project: Seq<char>,
    target: Seq<char>,
    t: Seq<(Seq<char>, ValueModel)>,
) -> Seq<char> {
    makefile_header(project, target) + items_text(t, makefile_layout())
}

/// Rendering is deterministic: the same project name and target name, with
/// make-variable tables that give the same value for every key, always give
/// byte-identical Makefiles.
pub proof fn lemma_makefile_deterministic(
    project: Seq<char>,
    target: Seq<char>,
    t1: Seq<(Seq<char>, ValueModel)>,
    t2: Seq<(Seq<char>, ValueModel)>,
)
    requires
        forall|k: Seq<char>| lookup(t1, k) == lookup(t2, k),
    ensures
        makefile_text(project, target, t1) == makefile_text(project, target, t2),
{
    lemma_items_text_by_lookup(t1, t2, makefile_layout());
}

proof fn lemma_items_text_by_lookup(
    t1: Seq<(Seq<char>, ValueModel)>,
    t2: Seq<(Seq<char>, ValueModel)>,
    items: Seq<MakeItem>,
)
    requires
        forall|k: Seq<char>| lookup(t1, k) == lookup(t2, k),
    ensures
        items_text(t1, items) == items_text(t2, items),
    decreases items.len(),
{
    if items.len() > 0 {
        lemma_items_text_by_lookup(t1, t2, items.drop_last());
    }
}

/// Renders the Makefile of target `target` of project `project` from its
/// make-variable table.
pub fn render_makefile(project: &str, target: &str, t: &ManifestTable) -> (r: String)
    ensures
        r@ == makefile_text(project@, target@, t@),
{
    let mut out = String::new();
    out.append("# ePenguin Generated Variables\n");
    out.append("PROJECT_NAME=");
    out.append(project);
    out.append("\n");
    out.append("TARGET_NAME=");
    out.append(target);
    out.append("\n");
    let ghost head = out@;
    assert(head =~= makefile_header(project@, target@));
    let items = makefile_items();
    emit_items(t, &items, &mut out);
    out
}

/// The key of a layout item that the table does not resolve to a value of the
/// kind the item needs; such an item is left out of the Makefile.
pub open spec fn unresolved_key(t: Seq<(Seq<char>, ValueModel)>, it: MakeItem) -> Option<Seq<char>> {
    match it {
        MakeItem::Text(_) => None,
        MakeItem::Scalar(k, _) => if scalar_of(t, k@) is None {
            Some(k@)
        } else {
            None
        },
        MakeItem::List(k, _) | MakeItem::Prereqs(k, _) | MakeItem::Cmds(k) => if list_of(
            t,
            k@,
        ) is None {
            Some(k@)
        } else {
            None
        },
    }
}

/// The unresolved keys of a sequence of layout items, in order.
pub open spec fn unresolved_keys(t: Seq<(Seq<char>, ValueModel)>, items: Seq<MakeItem>) -> Seq<
    Seq<char>,
>
    decreases items.len(),
{
    if items.len() == 0 {
        Seq::empty()
    } else {
        unresolved_keys(t, items.drop_last()) + match unresolved_key(t, items.last()) {
            Some(k) => seq![k],
            None => Seq::empty(),
        }
    }
}

/// The keys of the Makefile layout that the table leaves unresolved, in layout
/// order: the lines that rendering leaves out.
pub fn missing_keys(t: &ManifestTable) -> (r: Vec<String>)
    ensures
        strings_view(r@) == unresolved_keys(t@, makefile_layout()),
{
    let items = makefile_items();
    let mut r: Vec<String> = Vec::new();
    let mut i: usize = 0;
    while i < items.len()
        invariant
            i <= items.len(),
            items@ == makefile_layout(),
            strings_view(r@) == unresolved_keys(t@, items@.subrange(0, i as int)),
        decreases items.len() - i,
    {
        let ghost pre = items@.subrange(0, i + 1);
        assert(pre.drop_last() =~= items@.subrange(0, i as int));
        let ghost prev = r@;
        let key = match items[i] {
            MakeItem::Text(_) => None,
            MakeItem::Scalar(k, _) => match t.get(&k.to_owned()) {
                Some(ManifestValue::Scalar(_)) => None,
                _ => Some(k),
            },
            MakeItem::List(k, _) | MakeItem::Prereqs(k, _) | MakeItem::Cmds(k) => match t.get(
                &k.to_owned(),
            ) {
                Some(ManifestValue::List(_)) => None,
                _ => Some(k),
            },
        };
        match key {
            Some(k) => {
                r.push(k.to_owned());
            },
            None => {},
        }
        assert(strings_view(r@) =~= unresolved_keys(t@, pre));
        i = i + 1;
    }
    assert(items@.subrange(0, items.len() as int) =~= items@);
    r
}

/// Each non-empty element on a line of its own, each preceded by a backslash-newline.
/// Empty elements are skipped, so no backslash is ever left without a following token.
pub open spec fn continuation(items: Seq<Seq<char>>) -> Seq<char>
    decreases items.len(),
{
    if items.len() == 0 {
        Seq::empty()
    } else {
        continuation(items.drop_last()) + if items.last().len() == 0 {
            Seq::empty()
        } else {
            " \\\n"@ + items.last()
        }
    }
}

/// Each non-empty command as a tab-indented line.
pub open spec fn recipe(items: Seq<Seq<char>>) -> Seq<char>
    decreases items.len(),
{
    if items.len() == 0 {
        Seq::empty()
    } else {
        recipe(items.drop_last()) + if items.last().len() == 0 {
            Seq::empty()
        } else {
            "\t"@ + items.last() + "\n"@
        }
    }
}

/// The text of one layout item; a key that is absent, or holds the other kind
/// of value, contributes nothing.
pub open spec fn item_text(t: Seq<(Seq<char>, ValueModel)>, it: MakeItem) -> Seq<char> {
    match it {
        MakeItem::Text(s) => s@,
        MakeItem::Scalar(k, op) => match scalar_of(t, k@) {
            Some(v) => k@ + op@ + v + "\n"@,
            None => Seq::empty(),
        },
        MakeItem::List(k, op) => match list_of(t, k@) {
            Some(l) => k@ + op@ + continuation(l),
            None => Seq::empty(),
        },
        MakeItem::Prereqs(k, rule) => match list_of(t, k@) {
            Some(l) => rule@ + ":"@ + continuation(l),
            None => Seq::empty(),
        },
        MakeItem::Cmds(k) => match list_of(t, k@) {
            Some(l) => "\n"@ + recipe(l),
            None => Seq::empty(),
        },
    }
}

/// The text of a sequence of layout items, in order.
pub open spec fn items_text(t: Seq<(Seq<char>, ValueModel)>, items: Seq<MakeItem>) -> Seq<char>
    decreases items.len(),
{
    if items.len() == 0 {
        Seq::empty()
    } else {
        items_text(t, items.drop_last()) + item_text(t, items.last())
    }
}

pub fn emit_continuation(items: &Vec<String>, out: &mut String)
    ensures
        final(out)@ == old(out)@ + continuation(strings_view(items@)),
{
    let mut i: usize = 0;
    while i < items.len()
        invariant
            i <= items.len(),
            out@ == old(out)@ + continuation(strings_view(items@).subrange(0, i as int)),
        decreases items.len() - i,
    {
        let ghost pre = strings_view(items@).subrange(0, i + 1);
        assert(pre.drop_last() =~= strings_view(items@).subrange(0, i as int));
        assert(pre.last() == items@[i as int]@);
        if !items[i].as_str().is_empty() {
            out.append(" \\\n");
            out.append(items[i].as_str());
        }
        assert(out@ =~= old(out)@ + continuation(pre));
        i = i + 1;
    }
    assert(strings_view(items@).subrange(0, items.len() as int) =~= strings_view(items@));
}

pub fn emit_recipe(items: &Vec<String>, out: &mut String)
    ensures
        final(out)@ == old(out)@ + recipe(strings_view(items@)),
{
    let mut i: usize = 0;
    while i < items.len()
        invariant
            i <= items.len(),
            out@ == old(out)@ + recipe(strings_view(items@).subrange(0, i as int)),
        decreases items.len() - i,
    {
        let ghost pre = strings_view(items@).subrange(0, i + 1);
        assert(pre.drop_last() =~= strings_view(items@).subrange(0, i as int));
        assert(pre.last() == items@[i as int]@);
        if !items[i].as_str().is_empty() {
            out.append("\t");
            out.append(items[i].as_str());
            out.append("\n");
        }
        assert(out@ =~= old(out)@ + recipe(pre));
        i = i + 1;
    }
    assert(strings_view(items@).subrange(0, items.len() as int) =~= strings_view(items@));
}

pub fn emit_item(t: &ManifestTable, it: MakeItem, out: &mut String)
    ensures
        final(out)@ == old(out)@ + item_text(t@, it),
{
    match it {
        MakeItem::Text(s) => {
            out.append(s);
        },
        MakeItem::Scalar(k, op) => {
            let key = k.to_owned();
            match t.get(&key) {
                Some(ManifestValue::Scalar(v)) => {
                    out.append(k);
                    out.append(op);
                    out.append(v.as_str());
                    out.append("\n");
                    assert(out@ =~= old(out)@ + item_text(t@, it));
                },
                _ => {
                    assert(out@ =~= old(out)@ + item_text(t@, it));
                },
            }
        },
        MakeItem::List(k, op) => {
            let key = k.to_owned();
            match t.get(&key) {
                Some(ManifestValue::List(l)) => {
                    out.append(k);
                    out.append(op);
                    emit_continuation(l, out);
                    assert(out@ =~= old(out)@ + item_text(t@, it));
                },
                _ => {
                    assert(out@ =~= old(out)@ + item_text(t@, it));
                },
            }
        },
        MakeItem::Prereqs(k, rule) => {
            let key = k.to_owned();
            match t.get(&key) {
                Some(ManifestValue::List(l)) => {
                    out.append(rule);
                    out.append(":");
                    emit_continuation(l, out);
                    assert(out@ =~= old(out)@ + item_text(t@, it));
                },
                _ => {
                    assert(out@ =~= old(out)@ + item_text(t@, it));
                },
            }
        },
        MakeItem::Cmds(k) => {
            let key = k.to_owned();
            match t.get(&key) {
                Some(ManifestValue::List(l)) => {
                    out.append("\n");
                    emit_recipe(l, out);
                    assert(out@ =~= old(out)@ + item_text(t@, it));
                },
                _ => {
                    assert(out@ =~= old(out)@ + item_text(t@, it));
                },
            }
        },
    }
}

/// Renders every item of `items`, in order, against the table `t`.
pub fn emit_items(t: &ManifestTable, items: &Vec<MakeItem>, out: &mut String)
    ensures
        final(out)@ == old(out)@ + items_text(t@, items@),
{
    let mut i: usize = 0;
    while i < items.len()
        invariant
            i <= items.len(),
            out@ == old(out)@ + items_text(t@, items@.subrange(0, i as int)),
        decreases items.len() - i,
    {
        let ghost pre = items@.subrange(0, i + 1);
        assert(pre.drop_last() =~= items@.subrange(0, i as int));
        emit_item(t, items[i], out);
        assert(out@ =~= old(out)@ + items_text(t@, pre));
        i = i + 1;
    }
    assert(items@.subrange(0, items.len() as int) =~= items@);
}

} // verus!
