//! A flag: an argument that is there or not, and takes no value.

use vstd::prelude::*;
use crate::arg::Arg;
use crate::arg_builder::base::{bare_base, declared_base, Base, BaseView, GetBase};
use crate::arg_builder::switched::{
    bare_switched,
    declared_switched,
    switch_text,
    GetSwitched,
    Switched,
    SwitchedView,
};
use crate::error::BuildError;
use crate::settings::ArgSettings;

verus! {

/// An argument given by a switch, without a value.
#[derive(Debug)]
pub struct Flag<'n, 'e> where 'n: 'e {
    pub b: Base<'n, 'e>,
    pub s: Switched<'e>,
}

/// A [`Flag`] as plain values.
pub struct FlagView {
    pub b: BaseView,
    pub s: SwitchedView,
}

impl<'n, 'e> View for Flag<'n, 'e> {
    type V = FlagView;

    open spec fn view(&self) -> FlagView {
        FlagView { b: self.b@, s: self.s@ }
    }
}

impl FlagView {
    /// How usage text shows the flag: by its long form where it has one, else
    /// by its short form.
    pub open spec fn usage(self) -> Seq<char> {
        switch_text(self.s)
    }
}

/// A flag with a long form shows as two hyphens and that form, whether or not
/// it has a short form too; a flag with only a short form shows as one hyphen
/// and that form.
pub proof fn lemma_flag_usage(flag: FlagView)
    requires
        flag.s.has_switch(),
    ensures
        flag.s.long matches Some(long) ==> flag.usage() == seq!['-', '-'] + long,
        flag.s.long is None ==> flag.usage() == seq!['-', flag.s.short->0],
{
}

/// No alias, hidden or visible, changes how a flag shows.
pub proof fn lemma_flag_usage_ignores_aliases(
    flag: FlagView,
    aliases: Option<Seq<(Seq<char>, bool)>>,
)
    ensures
        (FlagView { s: SwitchedView { aliases, ..flag.s }, ..flag }).usage() == flag.usage(),
{
}

impl<'n, 'e> Default for Flag<'n, 'e> {
    fn default() -> (flag: Self)
        ensures
            flag@ == (FlagView { b: bare_base(Seq::empty()), s: bare_switched() }),
    {
        Flag { b: Base::default(), s: Switched::default() }
    }
}

impl<'n, 'e> Clone for Flag<'n, 'e> {
    fn clone(&self) -> (copy: Self)
        ensures
            copy@ == self@,
    {
        Flag { b: self.b.clone(), s: self.s.clone() }
    }
}

impl<'n, 'e> Flag<'n, 'e> {
    /// The flag named `name`, with no form, no help and no settings.
    pub fn new(name: &'n str) -> (flag: Self)
        ensures
            flag@ == (FlagView { b: bare_base(name@), s: bare_switched() }),
    {
        Flag { b: Base::new(name), s: Switched::default() }
    }

    /// Adds `s` to the settings.
    pub fn set(&mut self, s: ArgSettings)
        ensures
            final(self)@ == (FlagView {
                b: BaseView { settings: old(self)@.b.settings.insert(s), ..old(self)@.b },
                ..old(self)@
            }),
    {
        self.b.set(s);
    }

    /// The flag that `a` defines. A definition that is marked as required is
    /// refused; any other is taken over as it stands, settings included.
    pub fn from_arg<'z>(a: &'z Arg<'n, 'e>) -> (built: Result<Self, BuildError<'n>>)
        ensures
            built is Err <==> a.settings@.contains(ArgSettings::Required),
            built matches Ok(flag) ==> flag@ == (FlagView {
                b: declared_base(a),
                s: declared_switched(a),
            }),
            built matches Err(e) ==> e == (BuildError::RequiredFlag { name: a.name }),
    {
        if a.settings.is_set(ArgSettings::Required) {
            return Err(BuildError::RequiredFlag { name: a.name });
        }
        Ok(Flag { b: Base::from(a), s: Switched::from(a) })
    }

    /// The flag as usage text shows it.
    pub fn to_string(&self) -> (text: String)
        requires
            self@.s.has_switch(),
        ensures
            text@ == self@.usage(),
    {
        self.s.switch_form()
    }
}

impl<'n, 'e> GetBase<'n, 'e> for Flag<'n, 'e> {
    open spec fn base_facet(&self) -> Base<'n, 'e> {
        self.b
    }

    fn base(&self) -> (base: &Base<'n, 'e>) {
        &self.b
    }
}

impl<'n, 'e> GetSwitched<'e> for Flag<'n, 'e> {
    open spec fn switched_facet(&self) -> Switched<'e> {
        self.s
    }

    fn switched(&self) -> (switched: &Switched<'e>) {
        &self.s
    }
}

} // verus!
