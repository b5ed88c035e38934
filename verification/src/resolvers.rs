//! Components of third-party libraries: what a resolver makes of the
//! identifiers that its library exports.

use vstd::prelude::*;
use crate::find_local_components::{ComponentInfo, ComponentView, ExportType};
use crate::patterns::{
    glob_matches,
    is_literal,
    is_selected,
    is_selected_text,
    lemma_literal_matches_itself_only,
};

verus! {

/// How the components of one library are resolved.
#[derive(Clone, Debug)]
pub struct ResolverOption {
    /// The module specifier that the components are imported from.
    pub module: String,
    /// How the library exposes its components; a default export where unset.
    pub export_type: Option<ExportType>,
    /// Whether the library's stylesheet is imported beside a component.
    pub style: Option<bool>,
    /// Patterns of which a resolved identifier matches none.
    pub exclude: Option<Vec<String>>,
    /// Patterns of which a resolved identifier matches one, if there is any.
    pub includes: Option<Vec<String>>,
    /// What stands before the identifier in the name used at call sites.
    pub prefix: Option<String>,
}

/// The mathematical value of a [`ResolverOption`], with what is unset
/// replaced by what it stands for.
pub struct ResolverView {
    pub module: Seq<char>,
    pub export_type: ExportType,
    pub style: bool,
    pub exclude: Seq<Seq<char>>,
    pub includes: Seq<Seq<char>>,
    pub prefix: Seq<char>,
}

impl View for ResolverOption {
    type V = ResolverView;

    open spec fn view(&self) -> ResolverView {
        ResolverView {
            module: self.module@,
            export_type: match self.export_type {
                Some(t) => t,
                None => ExportType::Default,
            },
            style: self.style == Some(true),
            exclude: match self.exclude {
                Some(patterns) => patterns.deep_view(),
                None => Seq::empty(),
            },
            includes: match self.includes {
                Some(patterns) => patterns.deep_view(),
                None => Seq::empty(),
            },
            prefix: match self.prefix {
                Some(p) => p@,
                None => Seq::empty(),
            },
        }
    }
}

impl DeepView for ResolverOption {
    type V = ResolverView;

    open spec fn deep_view(&self) -> ResolverView {
        self@
    }
}

/// Why a configuration is refused.
#[derive(Debug)]
pub enum ConfigurationError {
    /// The filters of the resolver of the named module leave none of the
    /// components that its library exports.
    EmptySelection(String),
}

/// The mathematical value of a [`ConfigurationError`].
pub enum ConfigurationErrorView {
    EmptySelection(Seq<char>),
}

impl View for ConfigurationError {
    type V = ConfigurationErrorView;

    open spec fn view(&self) -> ConfigurationErrorView {
        match self {
            ConfigurationError::EmptySelection(m) => ConfigurationErrorView::EmptySelection(m@),
        }
    }
}

/// The stylesheet of a library: the `style` entry of its module.
pub open spec fn stylesheet(module: Seq<char>) -> Seq<char> {
    module + "/style"@
}

/// The component that a resolver makes of one exported identifier.
pub open spec fn resolved_component(r: ResolverView, identifier: Seq<char>) -> ComponentView {
    ComponentView {
        name: r.prefix + identifier,
        path: r.module,
        export_type: r.export_type,
        original_name: identifier,
        style: if r.style {
            Some(stylesheet(r.module))
        } else {
            None
        },
    }
}

/// The identifiers that the resolver's filters select, in their order.
pub open spec fn selected_identifiers(r: ResolverView, identifiers: Seq<Seq<char>>) -> Seq<
    Seq<char>,
> {
    identifiers.filter(|id: Seq<char>| is_selected(r.includes, r.exclude, id))
}

/// The components of the selected identifiers, in the same order.
pub open spec fn resolved_components(r: ResolverView, identifiers: Seq<Seq<char>>) -> Seq<
    ComponentView,
> {
    selected_identifiers(r, identifiers).map_values(|id: Seq<char>| resolved_component(r, id))
}

/// What one resolver yields: its components, or why it is refused. It is
/// refused where its library exports components and its filters select none
/// of them.
pub open spec fn resolver_outcome(r: ResolverView, identifiers: Seq<Seq<char>>) -> Result<
    Seq<ComponentView>,
    ConfigurationErrorView,
> {
    if identifiers.len() > 0 && selected_identifiers(r, identifiers).len() == 0 {
        Err(ConfigurationErrorView::EmptySelection(r.module))
    } else {
        Ok(resolved_components(r, identifiers))
    }
}

/// What the resolvers yield together, each with the identifiers of its own
/// library: the components in configuration order, or the first refusal.
pub open spec fn resolvers_outcome(
    resolvers: Seq<ResolverView>,
    listings: Seq<Seq<Seq<char>>>,
) -> Result<Seq<ComponentView>, ConfigurationErrorView>
    decreases resolvers.len(),
{
    if resolvers.len() == 0 {
        Ok(Seq::empty())
    } else {
        match resolvers_outcome(resolvers.drop_last(), listings.drop_last()) {
            Err(e) => Err(e),
            Ok(before) => match resolver_outcome(resolvers.last(), listings.last()) {
                Err(e) => Err(e),
                Ok(here) => Ok(before + here),
            },
        }
    }
}

/// The mathematical value of what a resolver function returns.
pub open spec fn outcome_view(out: Result<Vec<ComponentInfo>, ConfigurationError>) -> Result<
    Seq<ComponentView>,
    ConfigurationErrorView,
> {
    match out {
        Ok(components) => Ok(components.deep_view()),
        Err(e) => Err(e@),
    }
}

fn resolve_one(option: &ResolverOption, identifier: &String) -> (c: ComponentInfo)
    ensures
        c@ == resolved_component(option@, identifier@),
{
    let mut name = match &option.prefix {
        Some(p) => p.clone(),
        None => String::new(),
    };
    name.append(identifier.as_str());
    let style = match option.style {
        Some(true) => {
            let mut sheet = option.module.clone();
            sheet.append("/style");
            Some(sheet)
        },
        _ => None,
    };
    let export_type = match option.export_type {
        Some(t) => t,
        None => ExportType::Default,
    };
    ComponentInfo {
        name,
        path: option.module.clone(),
        export_type,
        original_name: identifier.clone(),
        style,
    }
}

/// Resolves the identifiers that a library exports, in the order given.
pub fn resolve_components(option: &ResolverOption, identifiers: &Vec<String>) -> (out: Result<
    Vec<ComponentInfo>,
    ConfigurationError,
>)
    ensures
        outcome_view(out) == resolver_outcome(option@, identifiers.deep_view()),
{
    let none: Vec<String> = Vec::new();
    let includes = match &option.includes {
        Some(patterns) => patterns,
        None => &none,
    };
    let exclude = match &option.exclude {
        Some(patterns) => patterns,
        None => &none,
    };
    let ghost r = option@;
    let ghost ids = identifiers.deep_view();
    let ghost pred = |id: Seq<char>| is_selected(r.includes, r.exclude, id);
    let ghost make = |id: Seq<char>| resolved_component(r, id);
    let mut out: Vec<ComponentInfo> = Vec::new();
    let mut i: usize = 0;
    while i < identifiers.len()
        invariant
            i <= identifiers.len(),
            r == option@,
            ids == identifiers.deep_view(),
            pred == |id: Seq<char>| is_selected(r.includes, r.exclude, id),
            make == |id: Seq<char>| resolved_component(r, id),
            includes.deep_view() == r.includes,
            exclude.deep_view() == r.exclude,
            out.deep_view() == ids.take(i as int).filter(pred).map_values(make),
        decreases identifiers.len() - i,
    {
        proof {
            let before = ids.take(i as int);
            assert(ids.take(i + 1) == before.push(ids[i as int]));
            before.lemma_filter_push(ids[i as int], pred);
            before.filter(pred).lemma_push_map_commute(make, ids[i as int]);
        }
        if is_selected_text(includes, exclude, identifiers[i].as_str()) {
            let c = resolve_one(option, &identifiers[i]);
            let ghost old_out = out.deep_view();
            out.push(c);
            assert(out.deep_view() == old_out.push(c@));
        }
        i += 1;
    }
    assert(ids.take(i as int) == ids);
    proof {
        ids.lemma_filter_len(pred);
    }
    if identifiers.len() > 0 && out.len() == 0 {
        return Err(ConfigurationError::EmptySelection(option.module.clone()));
    }
    Ok(out)
}

/// Resolves every configured library, `listings[i]` being the identifiers that
/// the library of `resolvers[i]` exports.
pub fn get_resolvers_result(resolvers: &Vec<ResolverOption>, listings: &Vec<Vec<String>>) -> (out:
    Result<Vec<ComponentInfo>, ConfigurationError>)
    requires
        resolvers.len() == listings.len(),
    ensures
        outcome_view(out) == resolvers_outcome(resolvers.deep_view(), listings.deep_view()),
{
    let ghost rs = resolvers.deep_view();
    let ghost ls = listings.deep_view();
    let mut out: Vec<ComponentInfo> = Vec::new();
    let mut i: usize = 0;
    assert(out.deep_view() == Seq::<ComponentView>::empty());
    while i < resolvers.len()
        invariant
            i <= resolvers.len(),
            resolvers.len() == listings.len(),
            rs == resolvers.deep_view(),
            ls == listings.deep_view(),
            resolvers_outcome(rs.take(i as int), ls.take(i as int)) == Ok::<
                Seq<ComponentView>,
                ConfigurationErrorView,
            >(out.deep_view()),
        decreases resolvers.len() - i,
    {
        proof {
            assert(rs.take(i + 1).drop_last() == rs.take(i as int));
            assert(ls.take(i + 1).drop_last() == ls.take(i as int));
            assert(rs.take(i + 1).last() == resolvers[i as int]@);
            assert(ls.take(i + 1).last() == listings[i as int].deep_view());
        }
        match resolve_components(&resolvers[i], &listings[i]) {
            Err(e) => {
                proof {
                    lemma_refusal_stays(rs, ls, i + 1);
                }
                return Err(e);
            },
            Ok(mut here) => {
                let ghost before = out.deep_view();
                let ghost added = here.deep_view();
                out.append(&mut here);
                assert(out.deep_view() == before + added);
            },
        }
        i += 1;
    }
    assert(rs.take(i as int) == rs);
    assert(ls.take(i as int) == ls);
    Ok(out)
}

/// Every resolved component is that of an identifier which the library
/// exports and the filters select.
pub proof fn lemma_resolved_are_selected(r: ResolverView, identifiers: Seq<Seq<char>>, k: int)
    requires
        0 <= k < resolved_components(r, identifiers).len(),
    ensures
        ({
            let identifier = resolved_components(r, identifiers)[k].original_name;
            &&& identifiers.contains(identifier)
            &&& is_selected(r.includes, r.exclude, identifier)
            &&& resolved_components(r, identifiers)[k] == resolved_component(r, identifier)
        }),
{
    let pred = |id: Seq<char>| is_selected(r.includes, r.exclude, id);
    let selected = selected_identifiers(r, identifiers);
    identifiers.lemma_filter_pred(pred, k);
    assert(selected.contains(selected[k]));
    identifiers.lemma_filter_contains_rev(pred, selected[k]);
}

/// With one include pattern that is a plain identifier, and whatever is
/// excluded, every resolved component is that of this identifier.
pub proof fn lemma_literal_filter_keeps_its_identifier(
    r: ResolverView,
    identifiers: Seq<Seq<char>>,
    k: int,
)
    requires
        r.includes.len() == 1,
        is_literal(r.includes[0]),
        0 <= k < resolved_components(r, identifiers).len(),
    ensures
        resolved_components(r, identifiers)[k] == resolved_component(r, r.includes[0]),
{
    lemma_resolved_are_selected(r, identifiers, k);
    let identifier = resolved_components(r, identifiers)[k].original_name;
    let i = choose|i: int|
        0 <= i < r.includes.len() && glob_matches(#[trigger] r.includes[i], identifier);
    assert(i == 0);
    lemma_literal_matches_itself_only(r.includes[0], identifier);
}

/// Every identifier that the filters select has its component among the
/// resolved ones.
pub proof fn lemma_selected_are_resolved(r: ResolverView, identifiers: Seq<Seq<char>>, i: int)
    requires
        0 <= i < identifiers.len(),
        is_selected(r.includes, r.exclude, identifiers[i]),
    ensures
        resolved_components(r, identifiers).contains(resolved_component(r, identifiers[i])),
{
    let pred = |id: Seq<char>| is_selected(r.includes, r.exclude, id);
    let selected = selected_identifiers(r, identifiers);
    assert(pred(identifiers[i]));
    identifiers.lemma_filter_contains(pred, i);
    let k = choose|k: int| 0 <= k < selected.len() && selected[k] == identifiers[i];
    assert(resolved_components(r, identifiers)[k] == resolved_component(r, identifiers[i]));
}

/// A refusal among the first `n` resolvers is the refusal of them all.
pub proof fn lemma_refusal_stays(
    resolvers: Seq<ResolverView>,
    listings: Seq<Seq<Seq<char>>>,
    n: int,
)
    requires
        0 <= n <= resolvers.len(),
        resolvers.len() == listings.len(),
        resolvers_outcome(resolvers.take(n), listings.take(n)) is Err,
    ensures
        resolvers_outcome(resolvers, listings) == resolvers_outcome(
            resolvers.take(n),
            listings.take(n),
        ),
    decreases resolvers.len() - n,
{
    if n == resolvers.len() {
        assert(resolvers.take(n) == resolvers);
        assert(listings.take(n) == listings);
    } else {
        assert(resolvers.take(n + 1).drop_last() == resolvers.take(n));
        assert(listings.take(n + 1).drop_last() == listings.take(n));
        lemma_refusal_stays(resolvers, listings, n + 1);
    }
}

} // verus!
