//! The component index: the project's own components and those of the
//! configured libraries, and the lookup of a component by its name.

use vstd::prelude::*;
use crate::find_local_components::{
    find_local_components,
    local_components,
    ComponentInfo,
    ComponentView,
    SourceFile,
    SourceFileView,
};
use crate::resolvers::{
    get_resolvers_result,
    resolvers_outcome,
    ConfigurationError,
    ConfigurationErrorView,
    ResolverOption,
    ResolverView,
};

verus! {

/// The components that a module can use without importing them: the
/// project's own, then those of the configured libraries.
#[derive(Clone, Debug)]
pub struct ComponentIndex {
    /// The project's own components, in scan order; none where they are not
    /// indexed.
    pub local: Vec<ComponentInfo>,
    /// The components of the libraries, in configuration order.
    pub resolvers: Vec<ComponentInfo>,
}

/// The mathematical value of a [`ComponentIndex`].
pub struct IndexView {
    pub local: Seq<ComponentView>,
    pub resolvers: Seq<ComponentView>,
}

impl View for ComponentIndex {
    type V = IndexView;

    open spec fn view(&self) -> IndexView {
        IndexView { local: self.local.deep_view(), resolvers: self.resolvers.deep_view() }
    }
}

/// Some component of `items` has the name.
pub open spec fn holds_name(items: Seq<ComponentView>, name: Seq<char>) -> bool {
    exists|k: int| 0 <= k < items.len() && (#[trigger] items[k]).name == name
}

/// `items[k]` is the first component of that name.
pub open spec fn is_first_named(items: Seq<ComponentView>, name: Seq<char>, k: int) -> bool {
    &&& 0 <= k < items.len()
    &&& items[k].name == name
    &&& forall|j: int| 0 <= j < k ==> (#[trigger] items[j]).name != name
}

/// The first component of that name, where there is one.
pub open spec fn first_named(items: Seq<ComponentView>, name: Seq<char>) -> ComponentView {
    items[choose|k: int| is_first_named(items, name, k)]
}

/// Only one component is the first of its name.
pub proof fn lemma_first_named_is_unique(
    items: Seq<ComponentView>,
    name: Seq<char>,
    k: int,
    l: int,
)
    requires
        is_first_named(items, name, k),
        is_first_named(items, name, l),
    ensures
        k == l,
{
}

/// The first component of a name has that name.
pub proof fn lemma_first_named_has_the_name(items: Seq<ComponentView>, name: Seq<char>)
    requires
        holds_name(items, name),
    ensures
        first_named(items, name).name == name,
{
    let k = choose|k: int| 0 <= k < items.len() && (#[trigger] items[k]).name == name;
    lemma_holds_first(items, name, k);
}

/// Where some component has the name, one is the first that has it.
proof fn lemma_holds_first(items: Seq<ComponentView>, name: Seq<char>, k: int)
    requires
        0 <= k < items.len(),
        items[k].name == name,
    ensures
        exists|f: int| is_first_named(items, name, f),
    decreases k,
{
    if forall|j: int| 0 <= j < k ==> (#[trigger] items[j]).name != name {
        assert(is_first_named(items, name, k));
    } else {
        let j = choose|j: int| 0 <= j < k && (#[trigger] items[j]).name == name;
        lemma_holds_first(items, name, j);
    }
}

/// A component that the index holds under a name.
pub enum Resolved {
    /// One of the project's own, imported from its file.
    Local(ComponentView),
    /// One of a library, imported from the library's module.
    Library(ComponentView),
}

/// The component that a name resolves to: the first of that name, the
/// project's own components before those of the libraries.
pub open spec fn lookup(index: IndexView, name: Seq<char>) -> Option<Resolved> {
    if holds_name(index.local, name) {
        Some(Resolved::Local(first_named(index.local, name)))
    } else if holds_name(index.resolvers, name) {
        Some(Resolved::Library(first_named(index.resolvers, name)))
    } else {
        None
    }
}

/// Finds the first component of that name.
pub fn find_component<'a>(items: &'a Vec<ComponentInfo>, name: &String) -> (found: Option<
    &'a ComponentInfo,
>)
    ensures
        match found {
            Some(c) => holds_name(items.deep_view(), name@) && c@ == first_named(
                items.deep_view(),
                name@,
            ),
            None => !holds_name(items.deep_view(), name@),
        },
{
    let mut k: usize = 0;
    while k < items.len()
        invariant
            k <= items.len(),
            forall|j: int| 0 <= j < k ==> (#[trigger] items.deep_view()[j]).name != name@,
        decreases items.len() - k,
    {
        if items[k].name == *name {
            proof {
                let all = items.deep_view();
                assert(all[k as int].name == name@);
                assert(is_first_named(all, name@, k as int));
                let chosen = choose|c: int| is_first_named(all, name@, c);
                lemma_first_named_is_unique(all, name@, k as int, chosen);
            }
            return Some(&items[k]);
        }
        k += 1;
    }
    None
}

/// The index of a project: its own components where they are wanted, and
/// those of its libraries; or the refusal of the first resolver that is
/// refused.
pub open spec fn index_outcome(
    local: bool,
    files: Seq<SourceFileView>,
    includes: Seq<Seq<char>>,
    exclude: Seq<Seq<char>>,
    resolvers: Seq<ResolverView>,
    listings: Seq<Seq<Seq<char>>>,
) -> Result<IndexView, ConfigurationErrorView> {
    let own = if local {
        local_components(files, includes, exclude)
    } else {
        Seq::empty()
    };
    match resolvers_outcome(resolvers, listings) {
        Err(e) => Err(e),
        Ok(libraries) => Ok(IndexView { local: own, resolvers: libraries }),
    }
}

/// The mathematical value of what [`build_index`] returns.
pub open spec fn index_view(out: Result<ComponentIndex, ConfigurationError>) -> Result<
    IndexView,
    ConfigurationErrorView,
> {
    match out {
        Ok(index) => Ok(index@),
        Err(e) => Err(e@),
    }
}

/// Builds the index anew from the files that a scan found and from the
/// identifiers that each library exports, `listings[i]` being those of the
/// library of `resolvers[i]`.
pub fn build_index(
    local: bool,
    files: &Vec<SourceFile>,
    includes: &Vec<String>,
    exclude: &Vec<String>,
    resolvers: &Vec<ResolverOption>,
    listings: &Vec<Vec<String>>,
) -> (out: Result<ComponentIndex, ConfigurationError>)
    requires
        resolvers.len() == listings.len(),
    ensures
        index_view(out) == index_outcome(
            local,
            files.deep_view(),
            includes.deep_view(),
            exclude.deep_view(),
            resolvers.deep_view(),
            listings.deep_view(),
        ),
{
    let own = if local {
        find_local_components(files, includes, exclude)
    } else {
        let none: Vec<ComponentInfo> = Vec::new();
        assert(none.deep_view() == Seq::<ComponentView>::empty());
        none
    };
    match get_resolvers_result(resolvers, listings) {
        Ok(libraries) => Ok(ComponentIndex { local: own, resolvers: libraries }),
        Err(e) => Err(e),
    }
}

} // verus!
