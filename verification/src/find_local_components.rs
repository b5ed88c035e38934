//! The component data model and the index of a project's own components.

use vstd::prelude::*;
use crate::paths::{file_stem, file_stem_of, has_component_suffix, has_component_suffix_of};
use crate::patterns::{is_selected, is_selected_text};
use crate::text::chars_of;

verus! {

/// How a module exposes a component.
#[derive(Clone, Copy, Debug, PartialEq, Eq, Structural)]
pub enum ExportType {
    /// The module's default export is the component.
    Default,
    /// The component is the named export `original_name`.
    Named,
}

/// One discoverable component.
#[derive(Clone, Debug)]
pub struct ComponentInfo {
    /// The identifier used at call sites.
    pub name: String,
    /// A file path for a project component, a module specifier for a
    /// component of a library.
    pub path: String,
    pub export_type: ExportType,
    /// The identifier under which the source module exports the component.
    pub original_name: String,
    /// The stylesheet that is imported for its effect beside the component.
    pub style: Option<String>,
}

/// The mathematical value of a [`ComponentInfo`].
pub struct ComponentView {
    pub name: Seq<char>,
    pub path: Seq<char>,
    pub export_type: ExportType,
    pub original_name: Seq<char>,
    pub style: Option<Seq<char>>,
}

impl View for ComponentInfo {
    type V = ComponentView;

    open spec fn view(&self) -> ComponentView {
        ComponentView {
            name: self.name@,
            path: self.path@,
            export_type: self.export_type,
            original_name: self.original_name@,
            style: match self.style {
                Some(s) => Some(s@),
                None => None,
            },
        }
    }
}

impl DeepView for ComponentInfo {
    type V = ComponentView;

    open spec fn deep_view(&self) -> ComponentView {
        self@
    }
}

/// An identifier that starts with a capital letter, as a component's does.
pub open spec fn is_capitalized(identifier: Seq<char>) -> bool {
    identifier.len() > 0 && 'A' <= identifier[0] <= 'Z'
}

/// Decides [`is_capitalized`].
pub fn is_capitalized_name(identifier: &str) -> (capital: bool)
    ensures
        capital == is_capitalized(identifier@),
{
    let chars = chars_of(identifier);
    chars.len() > 0 && 'A' <= chars[0] && chars[0] <= 'Z'
}

/// One export statement of a module, as far as the index reads it.
#[derive(Clone, Debug)]
pub enum ExportStatement {
    /// `export default ...`
    Default,
    /// An export under the identifier given.
    Named(String),
}

/// The mathematical value of an [`ExportStatement`].
pub enum ExportStatementView {
    Default,
    Named(Seq<char>),
}

impl View for ExportStatement {
    type V = ExportStatementView;

    open spec fn view(&self) -> ExportStatementView {
        match self {
            ExportStatement::Default => ExportStatementView::Default,
            ExportStatement::Named(identifier) => ExportStatementView::Named(identifier@),
        }
    }
}

impl DeepView for ExportStatement {
    type V = ExportStatementView;

    open spec fn deep_view(&self) -> ExportStatementView {
        self@
    }
}

/// How a module exports its component, as its export statements show it.
#[derive(Clone, Debug)]
pub enum ExportShape {
    /// The default export is the component.
    Default,
    /// The named export of this identifier is the component.
    Named(String),
    /// No export, or none that can be told to be the component.
    Unsupported,
}

/// The mathematical value of an [`ExportShape`].
pub enum ExportShapeView {
    Default,
    Named(Seq<char>),
    Unsupported,
}

impl View for ExportShape {
    type V = ExportShapeView;

    open spec fn view(&self) -> ExportShapeView {
        match self {
            ExportShape::Default => ExportShapeView::Default,
            ExportShape::Named(identifier) => ExportShapeView::Named(identifier@),
            ExportShape::Unsupported => ExportShapeView::Unsupported,
        }
    }
}

/// Some statement is a default export.
pub open spec fn has_default_export(statements: Seq<ExportStatementView>) -> bool {
    exists|i: int| 0 <= i < statements.len() && #[trigger] statements[i] is Default
}

/// Statement `i` exports a capitalized identifier by name.
pub open spec fn component_export_at(statements: Seq<ExportStatementView>, i: int) -> bool {
    &&& 0 <= i < statements.len()
    &&& statements[i] matches ExportStatementView::Named(identifier)
    &&& is_capitalized(identifier)
}

/// Statement `i` is the only one that exports a capitalized identifier by
/// name.
pub open spec fn single_component_export(statements: Seq<ExportStatementView>, i: int) -> bool {
    &&& component_export_at(statements, i)
    &&& forall|j: int| component_export_at(statements, j) ==> j == i
}

/// The shape of a module's exports. A default export decides. Without one, a
/// single named export of a capitalized identifier decides; with several of
/// them, or none, nothing does.
pub open spec fn export_shape(statements: Seq<ExportStatementView>) -> ExportShapeView {
    if has_default_export(statements) {
        ExportShapeView::Default
    } else if exists|i: int| single_component_export(statements, i) {
        let i = choose|i: int| single_component_export(statements, i);
        ExportShapeView::Named(statements[i]->Named_0)
    } else {
        ExportShapeView::Unsupported
    }
}

/// Computes [`export_shape`].
pub fn detect_export(statements: &Vec<ExportStatement>) -> (shape: ExportShape)
    ensures
        shape@ == export_shape(statements.deep_view()),
{
    let ghost all = statements.deep_view();
    let ghost mut at: int = 0;
    let mut found: Option<&String> = None;
    let mut several = false;
    let mut i: usize = 0;
    while i < statements.len()
        invariant
            i <= statements.len(),
            all == statements.deep_view(),
            forall|k: int| 0 <= k < i ==> !(#[trigger] all[k] is Default),
            found is None ==> !several && forall|k: int|
                0 <= k < i ==> !component_export_at(all, k),
            found matches Some(identifier) ==> at < i && component_export_at(all, at)
                && all[at] == ExportStatementView::Named(identifier@),
            found is Some ==> (several <==> exists|k: int|
                0 <= k < i && k != at && component_export_at(all, k)),
        decreases statements.len() - i,
    {
        match &statements[i] {
            ExportStatement::Default => {
                assert(all[i as int] is Default);
                return ExportShape::Default;
            },
            ExportStatement::Named(identifier) => {
                if is_capitalized_name(identifier.as_str()) {
                    assert(component_export_at(all, i as int));
                    if found.is_some() {
                        several = true;
                    } else {
                        found = Some(identifier);
                        proof {
                            at = i as int;
                        }
                    }
                }
            },
        }
        i += 1;
    }
    match found {
        Some(identifier) if !several => {
            proof {
                assert(single_component_export(all, at));
                let chosen = choose|k: int| single_component_export(all, k);
                assert(chosen == at);
            }
            ExportShape::Named(identifier.clone())
        },
        Some(_) => {
            proof {
                let other = choose|o: int| 0 <= o < i && o != at && component_export_at(all, o);
                assert forall|k: int| !single_component_export(all, k) by {
                    if single_component_export(all, k) {
                        assert(other == k && at == k);
                    }
                }
            }
            ExportShape::Unsupported
        },
        None => ExportShape::Unsupported,
    }
}

/// A source file as the scan of a directory found it: its path and its
/// export statements, in source order.
#[derive(Clone, Debug)]
pub struct SourceFile {
    pub path: String,
    pub exports: Vec<ExportStatement>,
}

/// The mathematical value of a [`SourceFile`].
pub struct SourceFileView {
    pub path: Seq<char>,
    pub exports: Seq<ExportStatementView>,
}

impl View for SourceFile {
    type V = SourceFileView;

    open spec fn view(&self) -> SourceFileView {
        SourceFileView { path: self.path@, exports: self.exports.deep_view() }
    }
}

impl DeepView for SourceFile {
    type V = SourceFileView;

    open spec fn deep_view(&self) -> SourceFileView {
        self@
    }
}

/// The component of a source file. A file without the suffix of a component
/// module has none, and neither has one whose exports show no component. The
/// name is the file's stem, however the component is exported.
pub open spec fn indexed_component(file: SourceFileView) -> Option<ComponentView> {
    if !has_component_suffix(file.path) {
        None
    } else {
        match export_shape(file.exports) {
            ExportShapeView::Default => Some(
                ComponentView {
                    name: file_stem(file.path),
                    path: file.path,
                    export_type: ExportType::Default,
                    original_name: file_stem(file.path),
                    style: None,
                },
            ),
            ExportShapeView::Named(identifier) => Some(
                ComponentView {
                    name: file_stem(file.path),
                    path: file.path,
                    export_type: ExportType::Named,
                    original_name: identifier,
                    style: None,
                },
            ),
            ExportShapeView::Unsupported => None,
        }
    }
}

/// Computes [`indexed_component`].
pub fn index_file(file: &SourceFile) -> (component: Option<ComponentInfo>)
    ensures
        component.deep_view() == indexed_component(file@),
{
    if !has_component_suffix_of(file.path.as_str()) {
        return None;
    }
    match detect_export(&file.exports) {
        ExportShape::Default => Some(
            ComponentInfo {
                name: file_stem_of(file.path.as_str()),
                path: file.path.clone(),
                export_type: ExportType::Default,
                original_name: file_stem_of(file.path.as_str()),
                style: None,
            },
        ),
        ExportShape::Named(identifier) => Some(
            ComponentInfo {
                name: file_stem_of(file.path.as_str()),
                path: file.path.clone(),
                export_type: ExportType::Named,
                original_name: identifier,
                style: None,
            },
        ),
        ExportShape::Unsupported => None,
    }
}

/// The component of a file that the filters select.
pub open spec fn selected_component(
    includes: Seq<Seq<char>>,
    exclude: Seq<Seq<char>>,
    file: SourceFileView,
) -> Option<ComponentView> {
    if is_selected(includes, exclude, file.path) {
        indexed_component(file)
    } else {
        None
    }
}

/// The index of the project's own components: the component of each selected
/// file that has one, in scan order.
pub open spec fn local_components(
    files: Seq<SourceFileView>,
    includes: Seq<Seq<char>>,
    exclude: Seq<Seq<char>>,
) -> Seq<ComponentView> {
    files.filter_map(|file: SourceFileView| selected_component(includes, exclude, file))
}

/// Builds the index of the project's own components from the files that a
/// scan of its directories found, in the order of the scan. The patterns
/// are tested on the paths of the files.
pub fn find_local_components(
    files: &Vec<SourceFile>,
    includes: &Vec<String>,
    exclude: &Vec<String>,
) -> (out: Vec<ComponentInfo>)
    ensures
        out.deep_view() == local_components(
            files.deep_view(),
            includes.deep_view(),
            exclude.deep_view(),
        ),
{
    let ghost all = files.deep_view();
    let ghost pick = |file: SourceFileView|
        selected_component(includes.deep_view(), exclude.deep_view(), file);
    let mut out: Vec<ComponentInfo> = Vec::new();
    let mut i: usize = 0;
    assert(out.deep_view() == all.take(0).filter_map(pick));
    while i < files.len()
        invariant
            i <= files.len(),
            all == files.deep_view(),
            pick == |file: SourceFileView|
                selected_component(includes.deep_view(), exclude.deep_view(), file),
            out.deep_view() == all.take(i as int).filter_map(pick),
        decreases files.len() - i,
    {
        proof {
            all.lemma_filter_map_take_succ(pick, i as int);
        }
        if is_selected_text(includes, exclude, files[i].path.as_str()) {
            match index_file(&files[i]) {
                Some(c) => {
                    let ghost before = out.deep_view();
                    out.push(c);
                    assert(out.deep_view() == before.push(c@));
                },
                None => {},
            }
        }
        i += 1;
    }
    assert(all.take(i as int) == all);
    out
}

/// A component file with one named export of a capitalized identifier, and
/// no default export, is indexed as a named export of that identifier.
pub proof fn lemma_single_named_export_is_named(file: SourceFileView, i: int)
    requires
        has_component_suffix(file.path),
        !has_default_export(file.exports),
        single_component_export(file.exports, i),
    ensures
        indexed_component(file) matches Some(c) && c.export_type == ExportType::Named
            && c.original_name == file.exports[i]->Named_0,
{
    let chosen = choose|k: int| single_component_export(file.exports, k);
    assert(chosen == i);
}

/// A component file with a default export is indexed as a default export,
/// whatever else it exports.
pub proof fn lemma_default_export_is_default(file: SourceFileView)
    requires
        has_component_suffix(file.path),
        has_default_export(file.exports),
    ensures
        indexed_component(file) matches Some(c) && c.export_type == ExportType::Default,
{
}

} // verus!
