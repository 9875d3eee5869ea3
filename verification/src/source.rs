//! Where a component comes from. The source is the identity of a component:
//! two entries name the same component exactly when their sources are the
//! same.

use crate::text::{clone_opt_text, clone_texts, opt_text, same_opt_text, same_text, same_texts, texts};
use std::collections::BTreeMap;
use vstd::prelude::*;

verus! {

/// A component that is installed as a crate.
#[derive(Debug, PartialEq, Eq)]
pub struct CargoDistribution {
    pub crate_name: String,
    pub version: Option<String>,
    pub binary: Option<String>,
    pub args: Vec<String>,
}

/// A component that is run as an npm package.
#[derive(Debug, PartialEq, Eq)]
pub struct NpxDistribution {
    pub package: String,
    pub args: Vec<String>,
    pub env: BTreeMap<String, String>,
}

/// The source of a component.
#[derive(Debug, PartialEq, Eq)]
pub enum ComponentSource {
    /// A component that is built in, by its name.
    Builtin(String),
    Cargo(CargoDistribution),
    Npx(NpxDistribution),
}

/// The mathematical value of a [`CargoDistribution`].
pub struct CargoView {
    pub crate_name: Seq<char>,
    pub version: Option<Seq<char>>,
    pub binary: Option<Seq<char>>,
    pub args: Seq<Seq<char>>,
}

/// The mathematical value of an [`NpxDistribution`].
pub struct NpxView {
    pub package: Seq<char>,
    pub args: Seq<Seq<char>>,
    pub env: Map<String, String>,
}

/// The mathematical value of a [`ComponentSource`].
pub enum SourceView {
    Builtin(Seq<char>),
    Cargo(CargoView),
    Npx(NpxView),
}

impl View for CargoDistribution {
    type V = CargoView;

    open spec fn view(&self) -> CargoView {
        CargoView {
            crate_name: self.crate_name@,
            version: opt_text(self.version),
            binary: opt_text(self.binary),
            args: texts(self.args@),
        }
    }
}

impl View for NpxDistribution {
    type V = NpxView;

    open spec fn view(&self) -> NpxView {
        NpxView { package: self.package@, args: texts(self.args@), env: self.env@ }
    }
}

impl View for ComponentSource {
    type V = SourceView;

    open spec fn view(&self) -> SourceView {
        match self {
            ComponentSource::Builtin(name) => SourceView::Builtin(name@),
            ComponentSource::Cargo(dist) => SourceView::Cargo(dist@),
            ComponentSource::Npx(dist) => SourceView::Npx(dist@),
        }
    }
}

/// The sources of a list.
pub open spec fn sources_view(v: Seq<ComponentSource>) -> Seq<SourceView> {
    Seq::new(v.len(), |i: int| v[i]@)
}

/// `BTreeMap`'s own equality: two maps are equal exactly when they bind the
/// same keys to the same values.
#[verifier::external_body]
fn same_env(a: &BTreeMap<String, String>, b: &BTreeMap<String, String>) -> (r: bool)
    ensures
        r == (a@ == b@),
{
    a == b
}

impl Clone for CargoDistribution {
    fn clone(&self) -> (r: CargoDistribution)
        ensures
            r@ == self@,
    {
        CargoDistribution {
            crate_name: self.crate_name.clone(),
            version: clone_opt_text(&self.version),
            binary: clone_opt_text(&self.binary),
            args: clone_texts(&self.args),
        }
    }
}

impl Clone for NpxDistribution {
    fn clone(&self) -> (r: NpxDistribution)
        ensures
            r@ == self@,
    {
        NpxDistribution {
            package: self.package.clone(),
            args: clone_texts(&self.args),
            env: self.env.clone(),
        }
    }
}

impl Clone for ComponentSource {
    fn clone(&self) -> (r: ComponentSource)
        ensures
            r@ == self@,
    {
        match self {
            ComponentSource::Builtin(name) => ComponentSource::Builtin(name.clone()),
            ComponentSource::Cargo(dist) => ComponentSource::Cargo(dist.clone()),
            ComponentSource::Npx(dist) => ComponentSource::Npx(dist.clone()),
        }
    }
}

/// The name under which a source is shown.
pub open spec fn shown_name(source: SourceView) -> Seq<char> {
    match source {
        SourceView::Builtin(name) => name,
        SourceView::Cargo(dist) => dist.crate_name,
        SourceView::Npx(dist) => dist.package,
    }
}

impl ComponentSource {
    /// The name under which the source is shown: the name of a built-in
    /// component, of the crate, or of the package.
    pub fn display_name(&self) -> (r: String)
        ensures
            r@ == shown_name(self@),
    {
        match self {
            ComponentSource::Builtin(name) => name.clone(),
            ComponentSource::Cargo(dist) => dist.crate_name.clone(),
            ComponentSource::Npx(dist) => dist.package.clone(),
        }
    }

    /// Whether two sources are the same.
    pub fn same(&self, other: &ComponentSource) -> (r: bool)
        ensures
            r == (self@ == other@),
    {
        match (self, other) {
            (ComponentSource::Builtin(a), ComponentSource::Builtin(b)) => same_text(
                a.as_str(),
                b.as_str(),
            ),
            (ComponentSource::Cargo(a), ComponentSource::Cargo(b)) => {
                same_text(a.crate_name.as_str(), b.crate_name.as_str()) && same_opt_text(
                    &a.version,
                    &b.version,
                ) && same_opt_text(&a.binary, &b.binary) && same_texts(&a.args, &b.args)
            },
            (ComponentSource::Npx(a), ComponentSource::Npx(b)) => {
                same_text(a.package.as_str(), b.package.as_str()) && same_texts(&a.args, &b.args)
                    && same_env(&a.env, &b.env)
            },
            _ => false,
        }
    }
}

} // verus!
