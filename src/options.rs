use vstd::prelude::*;

use skim::prelude::SkimOptionsBuilder;
use skim::SkimOptions;

use crate::pool::all_present;
use crate::session::Picking;

verus! {

#[verifier::external_type_specification]
#[verifier::external_body]
pub struct ExSkimOptions<'a>(SkimOptions<'a>);

#[verifier::external_type_specification]
#[verifier::external_body]
pub struct ExSkimOptionsBuilder<'a>(SkimOptionsBuilder<'a>);

/// Relies on `Default` for `skim::SkimOptions`: the engine's documented
/// default configuration.
pub assume_specification<'a>[ <SkimOptions<'a> as core::default::Default>::default ]() -> SkimOptions<'a>;

/// Relies on `skim::prelude::SkimOptionsBuilder::build` to finish a
/// builder's configuration. It never fails: the builder fills every field
/// left unset from `SkimOptions::default` and has no validation step.
#[verifier::external_body]
fn build_options<'a>(builder: SkimOptionsBuilder<'a>) -> (r: Option<SkimOptions<'a>>)
    ensures
        r is Some,
{
    let mut builder = builder;
    builder.build().ok()
}

/// A configuration of the search session, ready-made or still to be
/// finished, from which a pick is started.
pub trait SkimPick<'a>: Sized {
    /// The finished configuration this already is, if it is one; such a
    /// configuration is used as it stands.
    spec fn ready(&self) -> Option<SkimOptions<'a>>;

    /// Whether this configuration can always be finished.
    spec fn finishes(&self) -> bool;

    /// Starts a pick of `items` under this configuration, finishing it first
    /// where needed: `None` where it cannot be finished.
    fn pick<T>(self, items: Vec<T>) -> (r: Option<Picking<'a, T>>)
        ensures
            self.finishes() ==> r is Some,
            self.ready() matches Some(o) ==> r matches Some(p) && p.config() == o,
            r matches Some(p) ==> p.cells() == all_present(items@),
    ;
}

impl<'a> SkimPick<'a> for SkimOptions<'a> {
    open spec fn ready(&self) -> Option<SkimOptions<'a>> {
        Some(*self)
    }

    open spec fn finishes(&self) -> bool {
        true
    }

    fn pick<T>(self, items: Vec<T>) -> (r: Option<Picking<'a, T>>) {
        Some(Picking::new(self, items))
    }
}

impl<'a> SkimPick<'a> for SkimOptionsBuilder<'a> {
    open spec fn ready(&self) -> Option<SkimOptions<'a>> {
        None
    }

    open spec fn finishes(&self) -> bool {
        true
    }

    fn pick<T>(self, items: Vec<T>) -> (r: Option<Picking<'a, T>>) {
        match build_options(self) {
            Some(options) => Some(Picking::new(options, items)),
            None => None,
        }
    }
}

/// A pick of `items` under the engine's default configuration.
pub fn pick_default<T>(items: Vec<T>) -> (r: Picking<'static, T>)
    ensures
        r.cells() == all_present(items@),
{
    Picking::new(SkimOptions::default(), items)
}

} // verus!
