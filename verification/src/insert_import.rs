//! The imports that a module needs for the components it uses, and the module
//! text with those imports in front.

use vstd::prelude::*;
use crate::component_index::{
    find_component,
    first_named,
    holds_name,
    lookup,
    ComponentIndex,
    IndexView,
    Resolved,
};
use crate::find_local_components::{
    is_capitalized,
    is_capitalized_name,
    ComponentInfo,
    ComponentView,
    ExportType,
};
use crate::paths::{
    directory,
    directory_of,
    import_specifier,
    is_base_path,
    lemma_directory_is_base_path,
    relative_import,
};

verus! {

/// The statement that imports a component from `path` under its name.
pub open spec fn import_statement(c: ComponentView, path: Seq<char>) -> Seq<char> {
    match c.export_type {
        ExportType::Default => "import "@ + c.name + " from '"@ + path + "'"@,
        ExportType::Named => "import { "@ + c.original_name + " as "@ + c.name + " } from '"@
            + path + "'"@,
    }
}

/// The statement that imports a stylesheet for its effect.
pub open spec fn style_import(sheet: Seq<char>) -> Seq<char> {
    "import '"@ + sheet + "'"@
}

/// The lines with `line` behind them, unless they hold it already.
pub open spec fn with_line(lines: Seq<Seq<char>>, line: Seq<char>) -> Seq<Seq<char>> {
    if lines.contains(line) {
        lines
    } else {
        lines.push(line)
    }
}

/// The lines with the imports of a component behind them: its own import,
/// from `path`, then that of its stylesheet where it has one.
pub open spec fn with_component(lines: Seq<Seq<char>>, c: ComponentView, path: Seq<char>) -> Seq<
    Seq<char>,
> {
    let imported = with_line(lines, import_statement(c, path));
    match c.style {
        Some(sheet) => with_line(imported, style_import(sheet)),
        None => imported,
    }
}

/// The lines with what one usage needs behind them. A usage needs nothing
/// where its identifier is not capitalized, is bound in the module already,
/// or is not in the index. A component of the project is imported from its
/// file, seen from the directory `dir` of the module; one of a library from
/// the library's module.
pub open spec fn with_usage(
    lines: Seq<Seq<char>>,
    index: IndexView,
    dir: Seq<char>,
    bound: Seq<Seq<char>>,
    usage: Seq<char>,
) -> Seq<Seq<char>> {
    if !is_capitalized(usage) || bound.contains(usage) {
        lines
    } else {
        match lookup(index, usage) {
            Some(Resolved::Local(c)) => with_component(lines, c, import_specifier(dir, c.path)),
            Some(Resolved::Library(c)) => with_component(lines, c, c.path),
            None => lines,
        }
    }
}

/// The imports that the usages of a module need, each once, in the order in
/// which the usages first need them.
pub open spec fn required_imports(
    index: IndexView,
    dir: Seq<char>,
    bound: Seq<Seq<char>>,
    usages: Seq<Seq<char>>,
) -> Seq<Seq<char>>
    decreases usages.len(),
{
    if usages.len() == 0 {
        Seq::empty()
    } else {
        with_usage(
            required_imports(index, dir, bound, usages.drop_last()),
            index,
            dir,
            bound,
            usages.last(),
        )
    }
}

/// The lines as text, each with a line end.
pub open spec fn import_block(lines: Seq<Seq<char>>) -> Seq<char>
    decreases lines.len(),
{
    if lines.len() == 0 {
        Seq::empty()
    } else {
        import_block(lines.drop_last()) + lines.last() + "\n"@
    }
}

/// The module text with the imports it needs in front, or nothing where it
/// needs none.
pub open spec fn transformed(
    index: IndexView,
    module_id: Seq<char>,
    bound: Seq<Seq<char>>,
    usages: Seq<Seq<char>>,
    content: Seq<char>,
) -> Option<Seq<char>> {
    let lines = required_imports(index, directory(module_id), bound, usages);
    if lines.len() == 0 {
        None
    } else {
        Some(import_block(lines) + content)
    }
}

/// A line that is added stands among the lines, and no line stands twice.
pub proof fn lemma_with_line(lines: Seq<Seq<char>>, line: Seq<char>)
    requires
        lines.no_duplicates(),
    ensures
        with_line(lines, line).no_duplicates(),
        with_line(lines, line).contains(line),
{
    if lines.contains(line) {
    } else {
        assert(lines.push(line)[lines.len() as int] == line);
    }
}

/// No import is required twice.
pub proof fn lemma_required_imports_are_distinct(
    index: IndexView,
    dir: Seq<char>,
    bound: Seq<Seq<char>>,
    usages: Seq<Seq<char>>,
)
    ensures
        required_imports(index, dir, bound, usages).no_duplicates(),
    decreases usages.len(),
{
    if usages.len() > 0 {
        let before = required_imports(index, dir, bound, usages.drop_last());
        lemma_required_imports_are_distinct(index, dir, bound, usages.drop_last());
        let usage = usages.last();
        if is_capitalized(usage) && !bound.contains(usage) {
            match lookup(index, usage) {
                Some(Resolved::Local(c)) => {
                    lemma_with_component(before, c, import_specifier(dir, c.path));
                },
                Some(Resolved::Library(c)) => {
                    lemma_with_component(before, c, c.path);
                },
                None => {},
            }
        }
    }
}

/// The imports of a component keep the lines distinct.
pub proof fn lemma_with_component(lines: Seq<Seq<char>>, c: ComponentView, path: Seq<char>)
    requires
        lines.no_duplicates(),
    ensures
        with_component(lines, c, path).no_duplicates(),
        with_component(lines, c, path).contains(import_statement(c, path)),
{
    lemma_with_line(lines, import_statement(c, path));
    let imported = with_line(lines, import_statement(c, path));
    match c.style {
        Some(sheet) => {
            lemma_with_line(imported, style_import(sheet));
            let k = choose|k: int|
                0 <= k < imported.len() && imported[k] == import_statement(c, path);
            assert(with_line(imported, style_import(sheet))[k] == import_statement(c, path));
        },
        None => {},
    }
}

/// A module whose only usage is an unbound component of the project gets
/// exactly one line in front of its text, the import of that component from
/// its file, and the text itself stays as it was.
pub proof fn lemma_single_usage_gets_one_import(
    index: IndexView,
    module_id: Seq<char>,
    bound: Seq<Seq<char>>,
    usage: Seq<char>,
    content: Seq<char>,
)
    requires
        is_capitalized(usage),
        !bound.contains(usage),
        holds_name(index.local, usage),
        first_named(index.local, usage).style is None,
    ensures
        ({
            let c = first_named(index.local, usage);
            let path = import_specifier(directory(module_id), c.path);
            transformed(index, module_id, bound, seq![usage], content) == Some(
                import_statement(c, path) + "\n"@ + content,
            )
        }),
{
    let c = first_named(index.local, usage);
    let dir = directory(module_id);
    let path = import_specifier(dir, c.path);
    let usages = seq![usage];
    assert(usages.drop_last() == Seq::<Seq<char>>::empty());
    assert(required_imports(index, dir, bound, usages.drop_last()) == Seq::<Seq<char>>::empty());
    let lines = required_imports(index, dir, bound, usages);
    assert(lines == seq![import_statement(c, path)]);
    assert(lines.drop_last() == Seq::<Seq<char>>::empty());
    assert(import_block(lines.drop_last()) == Seq::<char>::empty());
    assert(import_block(lines) =~= import_statement(c, path) + "\n"@);
}

/// Where the module binds every component of the index that it uses, no
/// import is required, and it stays as it is. So it is with a module that
/// holds the imports of an earlier run: an import binds the name that the
/// usage has.
pub proof fn lemma_bound_usages_need_no_import(
    index: IndexView,
    module_id: Seq<char>,
    bound: Seq<Seq<char>>,
    usages: Seq<Seq<char>>,
    content: Seq<char>,
)
    requires
        forall|i: int|
            0 <= i < usages.len() && is_capitalized(#[trigger] usages[i]) && lookup(
                index,
                usages[i],
            ) is Some ==> bound.contains(usages[i]),
    ensures
        required_imports(index, directory(module_id), bound, usages).len() == 0,
        transformed(index, module_id, bound, usages, content) is None,
    decreases usages.len(),
{
    if usages.len() > 0 {
        let before = usages.drop_last();
        assert forall|i: int|
            0 <= i < before.len() && is_capitalized(#[trigger] before[i]) && lookup(
                index,
                before[i],
            ) is Some implies bound.contains(before[i]) by {
            assert(before[i] == usages[i]);
        }
        lemma_bound_usages_need_no_import(index, module_id, bound, before, content);
        let usage = usages[usages.len() - 1];
        assert(is_capitalized(usage) && lookup(index, usage) is Some ==> bound.contains(usage));
    }
}

/// An identifier that the index does not hold requires nothing.
pub proof fn lemma_unknown_usage_needs_no_import(
    lines: Seq<Seq<char>>,
    index: IndexView,
    dir: Seq<char>,
    bound: Seq<Seq<char>>,
    usage: Seq<char>,
)
    requires
        !holds_name(index.local, usage),
        !holds_name(index.resolvers, usage),
    ensures
        with_usage(lines, index, dir, bound, usage) == lines,
{
}

fn holds_line(lines: &Vec<String>, line: &String) -> (found: bool)
    ensures
        found == lines.deep_view().contains(line@),
{
    let mut k: usize = 0;
    while k < lines.len()
        invariant
            k <= lines.len(),
            forall|j: int| 0 <= j < k ==> lines.deep_view()[j] != line@,
        decreases lines.len() - k,
    {
        if lines[k] == *line {
            assert(lines.deep_view()[k as int] == line@);
            return true;
        }
        k += 1;
    }
    false
}

fn add_line(lines: &mut Vec<String>, line: String)
    ensures
        final(lines).deep_view() == with_line(old(lines).deep_view(), line@),
{
    if !holds_line(lines, &line) {
        let ghost before = lines.deep_view();
        lines.push(line);
        assert(lines.deep_view() == before.push(line@));
    }
}

fn render_import(c: &ComponentInfo, path: &str) -> (statement: String)
    ensures
        statement@ == import_statement(c@, path@),
{
    let mut statement = String::from_str("import ");
    match c.export_type {
        ExportType::Default => {
            statement.append(c.name.as_str());
        },
        ExportType::Named => {
            statement.append("{ ");
            statement.append(c.original_name.as_str());
            statement.append(" as ");
            statement.append(c.name.as_str());
            statement.append(" }");
        },
    }
    statement.append(" from '");
    statement.append(path);
    statement.append("'");
    proof {
        reveal_strlit("import ");
        reveal_strlit("import { ");
        reveal_strlit("{ ");
        reveal_strlit(" }");
        reveal_strlit(" from '");
        reveal_strlit(" } from '");
    }
    assert(statement@ =~= import_statement(c@, path@));
    statement
}

fn add_component(lines: &mut Vec<String>, c: &ComponentInfo, path: &str)
    ensures
        final(lines).deep_view() == with_component(old(lines).deep_view(), c@, path@),
{
    add_line(lines, render_import(c, path));
    match &c.style {
        Some(sheet) => {
            let mut statement = String::from_str("import '");
            statement.append(sheet.as_str());
            statement.append("'");
            add_line(lines, statement);
        },
        None => {},
    }
}

/// Collects the imports that a module needs. `usages` are the identifiers
/// that stand as a tag or a call target, in the order of the source;
/// `bindings` are those that an import or a declaration of the module binds.
pub fn collect_imports(
    module_id: &str,
    usages: &Vec<String>,
    bindings: &Vec<String>,
    index: &ComponentIndex,
) -> (lines: Vec<String>)
    requires
        index.local.len() > 0 ==> is_base_path(module_id@),
    ensures
        lines.deep_view() == required_imports(
            index@,
            directory(module_id@),
            bindings.deep_view(),
            usages.deep_view(),
        ),
{
    let dir = directory_of(module_id);
    proof {
        if index.local.len() > 0 {
            lemma_directory_is_base_path(module_id@);
        }
    }
    let ghost all = usages.deep_view();
    let mut lines: Vec<String> = Vec::new();
    let mut i: usize = 0;
    assert(lines.deep_view() == Seq::<Seq<char>>::empty());
    while i < usages.len()
        invariant
            i <= usages.len(),
            all == usages.deep_view(),
            dir@ == directory(module_id@),
            index.local.len() > 0 ==> is_base_path(dir@),
            lines.deep_view() == required_imports(
                index@,
                dir@,
                bindings.deep_view(),
                all.take(i as int),
            ),
        decreases usages.len() - i,
    {
        proof {
            assert(all.take(i + 1).drop_last() == all.take(i as int));
            assert(all.take(i + 1).last() == usages[i as int]@);
        }
        let usage = &usages[i];
        if is_capitalized_name(usage.as_str()) && !holds_line(bindings, usage) {
            match find_component(&index.local, usage) {
                Some(c) => {
                    let path = relative_import(dir.as_str(), c.path.as_str());
                    add_component(&mut lines, c, path.as_str());
                },
                None => match find_component(&index.resolvers, usage) {
                    Some(c) => {
                        add_component(&mut lines, c, c.path.as_str());
                    },
                    None => {},
                },
            }
        }
        i += 1;
    }
    assert(all.take(i as int) == all);
    lines
}

/// Puts the imports that a module needs in front of its text. Returns
/// nothing where it needs none: the module stays as it is.
pub fn transform(
    content: &str,
    module_id: &str,
    usages: &Vec<String>,
    bindings: &Vec<String>,
    index: &ComponentIndex,
) -> (out: Option<String>)
    requires
        index.local.len() > 0 ==> is_base_path(module_id@),
    ensures
        out.deep_view() == transformed(
            index@,
            module_id@,
            bindings.deep_view(),
            usages.deep_view(),
            content@,
        ),
{
    let lines = collect_imports(module_id, usages, bindings, index);
    if lines.len() == 0 {
        return None;
    }
    let ghost all = lines.deep_view();
    let mut text = String::new();
    let mut i: usize = 0;
    while i < lines.len()
        invariant
            i <= lines.len(),
            all == lines.deep_view(),
            text@ == import_block(all.take(i as int)),
        decreases lines.len() - i,
    {
        proof {
            assert(all.take(i + 1).drop_last() == all.take(i as int));
            assert(all.take(i + 1).last() == lines[i as int]@);
        }
        text.append(lines[i].as_str());
        text.append("\n");
        i += 1;
    }
    assert(all.take(i as int) == all);
    text.append(content);
    Some(text)
}

} // verus!
