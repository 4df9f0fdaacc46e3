//! The facet that every kind of argument has.

use vstd::prelude::*;
use vstd::std_specs::convert::FromSpecImpl;
use crate::arg::Arg;
use crate::settings::{ArgFlags, ArgSettings};
use crate::text::{copy_names, listed, non_empty, opt_view, opt_views, slice_views};

verus! {

/// What is common to every argument.
#[derive(Debug)]
pub struct Base<'a, 'b> where 'a: 'b {
    /// The key by which the argument is matched and referred to.
    pub name: &'a str,
    pub help: Option<&'b str>,
    /// Arguments that may not occur together with this one.
    pub blacklist: Option<Vec<&'a str>>,
    pub settings: ArgFlags,
    /// Arguments whose presence waives that this one is required.
    pub r_unless: Option<Vec<&'a str>>,
    /// Arguments that this one supersedes.
    pub overrides: Option<Vec<&'a str>>,
    /// Groups that this argument belongs to.
    pub groups: Option<Vec<&'a str>>,
    /// Arguments that must occur where this one does.
    pub requires: Option<Vec<&'a str>>,
}

/// A [`Base`] as plain values.
pub struct BaseView {
    pub name: Seq<char>,
    pub help: Option<Seq<char>>,
    pub blacklist: Option<Seq<Seq<char>>>,
    pub settings: Set<ArgSettings>,
    pub r_unless: Option<Seq<Seq<char>>>,
    pub overrides: Option<Seq<Seq<char>>>,
    pub groups: Option<Seq<Seq<char>>>,
    pub requires: Option<Seq<Seq<char>>>,
}

impl<'a, 'b> View for Base<'a, 'b> {
    type V = BaseView;

    open spec fn view(&self) -> BaseView {
        BaseView {
            name: self.name@,
            help: opt_view(self.help),
            blacklist: opt_views(self.blacklist),
            settings: self.settings@,
            r_unless: opt_views(self.r_unless),
            overrides: opt_views(self.overrides),
            groups: opt_views(self.groups),
            requires: opt_views(self.requires),
        }
    }
}

/// The base facet that `arg` declares.
pub open spec fn declared_base(arg: &Arg) -> BaseView {
    BaseView {
        name: arg.name@,
        help: opt_view(arg.help),
        blacklist: opt_views(arg.blacklist),
        settings: arg.settings@,
        r_unless: opt_views(arg.r_unless),
        overrides: opt_views(arg.overrides),
        groups: opt_views(arg.groups),
        requires: opt_views(arg.requires),
    }
}

/// A base with the name `name` and nothing else.
pub open spec fn bare_base(name: Seq<char>) -> BaseView {
    BaseView {
        name,
        help: None,
        blacklist: None,
        settings: Set::empty(),
        r_unless: None,
        overrides: None,
        groups: None,
        requires: None,
    }
}

impl<'n, 'e> Default for Base<'n, 'e> {
    fn default() -> (base: Self)
        ensures
            base@ == bare_base(Seq::empty()),
    {
        let name = "";
        proof {
            reveal_strlit("");
            assert(name@ =~= Seq::<char>::empty());
        }
        Base {
            name,
            help: None,
            blacklist: None,
            settings: ArgFlags::new(),
            r_unless: None,
            overrides: None,
            requires: None,
            groups: None,
        }
    }
}

impl<'n, 'e> Base<'n, 'e> {
    /// A base with the name `name`, no help, no settings and no relations.
    pub fn new(name: &'n str) -> (base: Self)
        ensures
            base@ == bare_base(name@),
    {
        Base {
            name,
            help: None,
            blacklist: None,
            settings: ArgFlags::new(),
            r_unless: None,
            overrides: None,
            requires: None,
            groups: None,
        }
    }

    /// Adds `s` to the settings.
    pub fn set(&mut self, s: ArgSettings)
        ensures
            final(self)@ == (BaseView { settings: old(self)@.settings.insert(s), ..old(self)@ }),
    {
        self.settings.set(s);
    }
}

/// What is built from a definition owns lists of its own. It equals the
/// definition field by field in its view, which `from` states, and not as a
/// value.
impl<'n, 'e, 'z> FromSpecImpl<&'z Arg<'n, 'e>> for Base<'n, 'e> {
    open spec fn obeys_from_spec() -> bool {
        false
    }

    open spec fn from_spec(a: &'z Arg<'n, 'e>) -> Self {
        Base {
            name: a.name,
            help: a.help,
            blacklist: a.blacklist,
            settings: a.settings,
            r_unless: a.r_unless,
            overrides: a.overrides,
            groups: a.groups,
            requires: a.requires,
        }
    }
}

impl<'n, 'e, 'z> From<&'z Arg<'n, 'e>> for Base<'n, 'e> {
    /// The base facet of `a`: every field of it that `a` declares.
    fn from(a: &'z Arg<'n, 'e>) -> (base: Self)
        ensures
            base@ == declared_base(a),
    {
        Base {
            name: a.name,
            help: a.help,
            blacklist: copy_names(&a.blacklist),
            settings: a.settings,
            r_unless: copy_names(&a.r_unless),
            overrides: copy_names(&a.overrides),
            requires: copy_names(&a.requires),
            groups: copy_names(&a.groups),
        }
    }
}

impl<'n, 'e> Clone for Base<'n, 'e> {
    fn clone(&self) -> (copy: Self)
        ensures
            copy@ == self@,
    {
        Base {
            name: self.name,
            help: self.help,
            blacklist: copy_names(&self.blacklist),
            overrides: copy_names(&self.overrides),
            requires: copy_names(&self.requires),
            settings: self.settings,
            groups: copy_names(&self.groups),
            r_unless: copy_names(&self.r_unless),
        }
    }
}

/// An argument that has a base facet.
pub trait GetBase<'n: 'e, 'e> {
    /// The base facet, as contracts speak of it.
    spec fn base_facet(&self) -> Base<'n, 'e>;

    fn base(&self) -> (base: &Base<'n, 'e>)
        ensures
            *base == self.base_facet(),
    ;
}

/// Read access to the base facet of any argument that has one.
pub trait BaseArg<'n: 'e, 'e> {
    /// The base facet as plain values.
    spec fn base_view(&self) -> BaseView;

    fn name(&self) -> (name: &'n str)
        ensures
            name@ == self.base_view().name,
    ;

    fn help(&self) -> (help: Option<&'e str>)
        ensures
            opt_view(help) == self.base_view().help,
    ;

    /// The conflicting arguments, if there are any.
    fn blacklist<'s>(&'s self) -> (list: Option<&'s [&'n str]>) where 'e: 's
        ensures
            slice_views(list) == non_empty(self.base_view().blacklist),
    ;

    /// The arguments that waive the requirement, if there are any.
    fn required_unless<'s>(&'s self) -> (list: Option<&'s [&'n str]>) where 'e: 's
        ensures
            slice_views(list) == non_empty(self.base_view().r_unless),
    ;

    /// The superseded arguments, if there are any.
    fn overrides<'s>(&'s self) -> (list: Option<&'s [&'n str]>) where 'e: 's
        ensures
            slice_views(list) == non_empty(self.base_view().overrides),
    ;

    /// The groups of the argument, if there are any.
    fn groups<'s>(&'s self) -> (list: Option<&'s [&'n str]>) where 'e: 's
        ensures
            slice_views(list) == non_empty(self.base_view().groups),
    ;

    /// The arguments that this one needs, if there are any.
    fn requirements<'s>(&'s self) -> (list: Option<&'s [&'n str]>) where 'e: 's
        ensures
            slice_views(list) == non_empty(self.base_view().requires),
    ;

    fn is_set(&self, s: ArgSettings) -> (yes: bool)
        ensures
            yes == self.base_view().settings.contains(s),
    ;
}

impl<'n: 'e, 'e, T> BaseArg<'n, 'e> for T where T: GetBase<'n, 'e> {
    open spec fn base_view(&self) -> BaseView {
        self.base_facet()@
    }

    fn name(&self) -> (name: &'n str) {
        self.base().name
    }

    fn overrides<'s>(&'s self) -> (list: Option<&'s [&'n str]>) where 'e: 's {
        listed(&self.base().overrides)
    }

    fn requirements<'s>(&'s self) -> (list: Option<&'s [&'n str]>) where 'e: 's {
        listed(&self.base().requires)
    }

    fn blacklist<'s>(&'s self) -> (list: Option<&'s [&'n str]>) where 'e: 's {
        listed(&self.base().blacklist)
    }

    fn required_unless<'s>(&'s self) -> (list: Option<&'s [&'n str]>) where 'e: 's {
        listed(&self.base().r_unless)
    }

    fn is_set(&self, s: ArgSettings) -> (yes: bool) {
        self.base().settings.is_set(s)
    }

    fn help(&self) -> (help: Option<&'e str>) {
        self.base().help
    }

    fn groups<'s>(&'s self) -> (list: Option<&'s [&'n str]>) where 'e: 's {
        listed(&self.base().groups)
    }
}

} // verus!
