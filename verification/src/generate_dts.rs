//! The ambient declaration text that describes the component index.

use vstd::prelude::*;
use crate::find_local_components::{ComponentInfo, ComponentView, ExportType};
use crate::paths::{import_specifier, is_base_path, relative_import};

verus! {

/// What the declaration emitter renders.
pub struct GenerateDtsOption<'a> {
    /// The project's own components, in scan order.
    pub components: &'a Vec<&'a ComponentInfo>,
    /// The components of the configured libraries, in configuration order.
    pub resolvers_components: &'a Vec<&'a ComponentInfo>,
    /// The absolute path of the project root.
    pub root_path: String,
    /// The name of the declaration file below the root.
    pub filename: String,
    /// Whether the project's own components are declared.
    pub local: bool,
}

/// The part of a [`GenerateDtsOption`] that decides the declaration text.
pub struct DeclarationModel {
    pub components: Seq<ComponentView>,
    pub resolvers_components: Seq<ComponentView>,
    pub root_path: Seq<char>,
    pub local: bool,
}

impl<'a> View for GenerateDtsOption<'a> {
    type V = DeclarationModel;

    open spec fn view(&self) -> DeclarationModel {
        DeclarationModel {
            components: self.components.deep_view(),
            resolvers_components: self.resolvers_components.deep_view(),
            root_path: self.root_path@,
            local: self.local,
        }
    }
}

/// The export of its module that a component is: `default`, or the identifier
/// of the named export.
pub open spec fn export_target(c: ComponentView) -> Seq<char> {
    match c.export_type {
        ExportType::Named => c.original_name,
        ExportType::Default => "default"@,
    }
}

/// One line of the global block: `name` has the type of the export `target`
/// of the module `path`.
pub open spec fn declaration_line(name: Seq<char>, path: Seq<char>, target: Seq<char>) -> Seq<
    char,
> {
    "  const "@ + name + ": typeof import('"@ + path + "')['"@ + target + "']\n"@
}

/// The declaration line of a library component: its module is its `path`.
pub open spec fn resolver_declaration(c: ComponentView) -> Seq<char> {
    declaration_line(c.name, c.path, export_target(c))
}

/// The declaration line of a project component: its module is its file, seen
/// from the project root.
pub open spec fn component_declaration(root: Seq<char>, c: ComponentView) -> Seq<char> {
    declaration_line(c.name, import_specifier(root, c.path), export_target(c))
}

/// The lines of the project components, in their order.
pub open spec fn component_block(root: Seq<char>, items: Seq<ComponentView>) -> Seq<char>
    decreases items.len(),
{
    if items.len() == 0 {
        Seq::empty()
    } else {
        component_block(root, items.drop_last()) + component_declaration(root, items.last())
    }
}

/// The lines of the library components, in their order.
pub open spec fn resolver_block(items: Seq<ComponentView>) -> Seq<char>
    decreases items.len(),
{
    if items.len() == 0 {
        Seq::empty()
    } else {
        resolver_block(items.drop_last()) + resolver_declaration(items.last())
    }
}

/// What stands before the declaration lines.
pub open spec fn declaration_header() -> Seq<char> {
    "/* generated */\nexport {}\ndeclare global {\n"@
}

/// The whole declaration file: the header, the project components where they
/// are wanted, the library components, and the closing line. Every component
/// has its line, in index order, also where several have one name: of such
/// declarations an editor keeps the last, while a lookup by name finds the
/// first.
pub open spec fn declaration_text(m: DeclarationModel) -> Seq<char> {
    declaration_header() + (if m.local {
        component_block(m.root_path, m.components)
    } else {
        Seq::empty()
    }) + resolver_block(m.resolvers_components) + "}\n"@
}

/// Two runs on one index give the same text: the text is a function of the
/// components, the root and the flag, and of nothing else.
pub proof fn lemma_declaration_text_is_deterministic(a: GenerateDtsOption, b: GenerateDtsOption)
    requires
        a@ == b@,
    ensures
        declaration_text(a@) == declaration_text(b@),
{
}

/// The lines of the library components follow the order of the index: the
/// block of two lists in a row is the two blocks in a row.
pub proof fn lemma_resolver_block_appends(a: Seq<ComponentView>, b: Seq<ComponentView>)
    ensures
        resolver_block(a + b) == resolver_block(a) + resolver_block(b),
    decreases b.len(),
{
    if b.len() == 0 {
        assert(a + b == a);
    } else {
        assert((a + b).drop_last() == a + b.drop_last());
        lemma_resolver_block_appends(a, b.drop_last());
    }
}

/// The lines of the project components follow the order of the index.
pub proof fn lemma_component_block_appends(
    root: Seq<char>,
    a: Seq<ComponentView>,
    b: Seq<ComponentView>,
)
    ensures
        component_block(root, a + b) == component_block(root, a) + component_block(root, b),
    decreases b.len(),
{
    if b.len() == 0 {
        assert(a + b == a);
    } else {
        assert((a + b).drop_last() == a + b.drop_last());
        lemma_component_block_appends(root, a, b.drop_last());
    }
}

fn render_line(name: &str, path: &str, target: &str) -> (line: String)
    ensures
        line@ == declaration_line(name@, path@, target@),
{
    let mut line = String::from_str("  const ");
    line.append(name);
    line.append(": typeof import('");
    line.append(path);
    line.append("')['");
    line.append(target);
    line.append("']\n");
    line
}

fn target_of(item: &ComponentInfo) -> (target: &str)
    ensures
        target@ == export_target(item@),
{
    match item.export_type {
        ExportType::Named => item.original_name.as_str(),
        ExportType::Default => "default",
    }
}

/// Renders the declaration line of a library component.
pub fn stringify_resolver(item: &ComponentInfo) -> (line: String)
    ensures
        line@ == resolver_declaration(item@),
{
    render_line(item.name.as_str(), item.path.as_str(), target_of(item))
}

/// Renders the declaration line of a project component below `root_path`.
pub fn stringify_component(root_path: &str, item: &ComponentInfo) -> (line: String)
    requires
        is_base_path(root_path@),
    ensures
        line@ == component_declaration(root_path@, item@),
{
    let import_path = relative_import(root_path, item.path.as_str());
    render_line(item.name.as_str(), import_path.as_str(), target_of(item))
}

/// Renders the declaration file. The caller writes the text to `filename`
/// below `root_path`, in place of what the file held.
pub fn generate_dts(option: GenerateDtsOption) -> (code: String)
    requires
        option.local && option.components.len() > 0 ==> is_base_path(option.root_path@),
    ensures
        code@ == declaration_text(option@),
{
    let mut code = String::from_str("/* generated */\nexport {}\ndeclare global {\n");
    let ghost model = option@;
    if option.local {
        let n = option.components.len();
        let mut i: usize = 0;
        while i < n
            invariant
                i <= n,
                n == option.components.len(),
                n > 0 ==> is_base_path(option.root_path@),
                model == option@,
                code@ == declaration_header() + component_block(
                    model.root_path,
                    model.components.take(i as int),
                ),
            decreases n - i,
        {
            let line = stringify_component(option.root_path.as_str(), option.components[i]);
            proof {
                let next = model.components.take(i + 1);
                assert(next.drop_last() == model.components.take(i as int));
                assert(next.last() == option.components[i as int]@);
            }
            code.append(line.as_str());
            i += 1;
        }
        assert(model.components.take(n as int) == model.components);
    }
    let ghost head = code@;
    let m = option.resolvers_components.len();
    let mut j: usize = 0;
    while j < m
        invariant
            j <= m,
            m == option.resolvers_components.len(),
            model == option@,
            code@ == head + resolver_block(model.resolvers_components.take(j as int)),
        decreases m - j,
    {
        let line = stringify_resolver(option.resolvers_components[j]);
        proof {
            let next = model.resolvers_components.take(j + 1);
            assert(next.drop_last() == model.resolvers_components.take(j as int));
            assert(next.last() == option.resolvers_components[j as int]@);
        }
        code.append(line.as_str());
        j += 1;
    }
    assert(model.resolvers_components.take(m as int) == model.resolvers_components);
    code.append("}\n");
    code
}

} // verus!
