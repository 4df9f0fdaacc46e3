//! An option: an argument given by a switch that takes values.

use vstd::prelude::*;
use vstd::std_specs::convert::{FromSpec, FromSpecImpl};
use crate::arg::Arg;
use crate::arg_builder::base::{bare_base, declared_base, Base, BaseArg, BaseView, GetBase};
use crate::arg_builder::switched::{
    bare_switched,
    declared_switched,
    switch_text,
    GetSwitched,
    Switched,
    SwitchedView,
};
use crate::arg_builder::valued::{
    bare_valued,
    declared_valued,
    GetValued,
    Valued,
    ValuedArg,
    ValuedView,
};
use crate::settings::ArgSettings;
use crate::text::{
    bracketed,
    ellipsis,
    names_usage,
    push_bracketed,
    push_char,
    push_ellipsis,
    push_names,
    push_repeated,
    repeated_usage,
};
use crate::val_names::{count, ordered_values, values};

verus! {

/// An argument of the style `--name <value>`.
pub struct Opt<'n, 'e> where 'n: 'e {
    pub b: Base<'n, 'e>,
    pub s: Switched<'e>,
    pub v: Valued<'n, 'e>,
}

/// An [`Opt`] as plain values.
pub struct OptView {
    pub b: BaseView,
    pub s: SwitchedView,
    pub v: ValuedView,
}

impl<'n, 'e> View for Opt<'n, 'e> {
    type V = OptView;

    open spec fn view(&self) -> OptView {
        OptView { b: self.b@, s: self.s@, v: self.v@ }
    }
}

/// The number of values that a definition fixes: the number of its value
/// names where it declares more than one, else the number it gives.
pub open spec fn derived_num_vals(v: ValuedView) -> Option<u64> {
    match v.val_names {
        Some(names) => if ordered_values(names).len() > 1 {
            Some(ordered_values(names).len() as u64)
        } else {
            v.num_vals
        },
        None => v.num_vals,
    }
}

/// The option that `arg` defines.
pub open spec fn declared_opt(arg: &Arg) -> OptView {
    OptView {
        b: declared_base(arg),
        s: declared_switched(arg),
        v: ValuedView {
            num_vals: derived_num_vals(declared_valued(arg)),
            ..declared_valued(arg)
        },
    }
}

impl OptView {
    /// How usage text shows the values: the value names where there are any,
    /// else the argument's name once for each value; the mark of repetition
    /// follows a single name of an option that may be repeated.
    pub open spec fn values_usage(self) -> Seq<char> {
        let multiple = self.b.settings.contains(ArgSettings::Multiple);
        match self.v.val_names {
            Some(names) => names_usage(ordered_values(names)) + (if multiple && ordered_values(
                names,
            ).len() == 1 {
                ellipsis()
            } else {
                Seq::empty()
            }),
            None => match self.v.num_vals {
                Some(n) => repeated_usage(self.b.name, n as nat),
                None => bracketed(self.b.name) + (if multiple {
                    ellipsis()
                } else {
                    Seq::empty()
                }),
            },
        }
    }

    /// How usage text shows the option: its switch, a space, its values.
    pub open spec fn usage(self) -> Seq<char> {
        switch_text(self.s) + seq![' '] + self.values_usage()
    }
}

/// An option with value names shows them behind its switch, in the order of
/// their slots, each between brackets and a space between neighbours. Two
/// names or more show so whatever the settings are; the mark of repetition
/// follows only a single name of an option that may be repeated.
pub proof fn lemma_opt_usage_with_names(opt: OptView)
    requires
        opt.v.val_names is Some,
    ensures
        ({
            let names = ordered_values(opt.v.val_names->0);
            let multiple = opt.b.settings.contains(ArgSettings::Multiple);
            let head = switch_text(opt.s) + seq![' '];
            &&& names.len() >= 2 ==> opt.usage() == head + names_usage(names)
            &&& names.len() == 1 && multiple ==> opt.usage() == head + bracketed(names[0])
                + ellipsis()
            &&& names.len() == 1 && !multiple ==> opt.usage() == head + bracketed(names[0])
        }),
{
    let names = ordered_values(opt.v.val_names->0);
    let head = switch_text(opt.s) + seq![' '];
    if names.len() == 1 {
        assert(names =~= seq![names[0]]);
        crate::text::lemma_names_usage(Seq::empty(), names[0]);
        assert(head + (bracketed(names[0]) + ellipsis()) =~= head + bracketed(names[0])
            + ellipsis());
        assert(head + (bracketed(names[0]) + Seq::<char>::empty()) =~= head + bracketed(
            names[0],
        ));
    } else {
        assert(head + (names_usage(names) + Seq::<char>::empty()) =~= head + names_usage(names));
    }
}

impl<'n, 'e> Default for Opt<'n, 'e> {
    fn default() -> (opt: Self)
        ensures
            opt@ == (OptView { b: bare_base(Seq::empty()), s: bare_switched(), v: bare_valued() }),
    {
        Opt { b: Base::default(), s: Switched::default(), v: Valued::default() }
    }
}

impl<'n, 'e> Clone for Opt<'n, 'e> {
    fn clone(&self) -> (copy: Self)
        ensures
            copy@ == self@,
    {
        Opt { b: self.b.clone(), s: self.s.clone(), v: self.v.clone() }
    }
}

impl<'n, 'e> Opt<'n, 'e> {
    /// The option named `name`: no form, no help, no settings, one
    /// unconstrained value.
    pub fn new(name: &'n str) -> (opt: Self)
        ensures
            opt@ == (OptView { b: bare_base(name@), s: bare_switched(), v: bare_valued() }),
    {
        Opt { b: Base::new(name), s: Switched::default(), v: Valued::default() }
    }

    /// The option that `a` defines: every facet as `a` declares it, the
    /// number of values taken from the value names where there are several,
    /// the validator shared with `a`.
    pub fn from_arg(a: &Arg<'n, 'e>) -> (opt: Self)
        ensures
            opt@ == declared_opt(a),
    {
        let mut ob = Opt::from(a);
        let mut named: Option<u64> = None;
        if let Some(vec) = ob.val_names() {
            let n = count(vec);
            if n > 1 {
                named = Some(n as u64);
            }
        }
        if named.is_some() {
            ob.v.num_vals = named;
        }
        ob
    }

    /// Adds `s` to the settings.
    pub fn set(&mut self, s: ArgSettings)
        ensures
            final(self)@ == (OptView {
                b: BaseView { settings: old(self)@.b.settings.insert(s), ..old(self)@.b },
                ..old(self)@
            }),
    {
        self.b.set(s);
    }

    /// The option as usage text shows it.
    pub fn to_string(&self) -> (text: String)
        requires
            self@.s.has_switch(),
        ensures
            text@ == self@.usage(),
    {
        let mut text = self.s.switch_form();
        push_char(&mut text, ' ');
        let ghost head = text@;
        if let Some(vec) = self.val_names() {
            let names = values(vec);
            push_names(&mut text, &names);
            if self.is_set(ArgSettings::Multiple) && names.len() == 1 {
                push_ellipsis(&mut text);
            }
        } else if let Some(num) = self.num_vals() {
            push_repeated(&mut text, self.name(), num);
        } else {
            push_bracketed(&mut text, self.name());
            if self.is_set(ArgSettings::Multiple) {
                push_ellipsis(&mut text);
            }
        }
        proof {
            assert(head =~= switch_text(self@.s) + seq![' ']);
            assert(text@ =~= head + self@.values_usage());
        }
        text
    }
}

/// What is built from a definition owns lists of its own. It equals the
/// definition field by field in its view, which `from` states, and not as a
/// value.
impl<'n, 'e, 'z> FromSpecImpl<&'z Arg<'n, 'e>> for Opt<'n, 'e> {
    open spec fn obeys_from_spec() -> bool {
        false
    }

    open spec fn from_spec(a: &'z Arg<'n, 'e>) -> Self {
        Opt {
            b: <Base<'n, 'e> as FromSpec<&'z Arg<'n, 'e>>>::from_spec(a),
            s: <Switched<'e> as FromSpec<&'z Arg<'n, 'e>>>::from_spec(a),
            v: <Valued<'n, 'e> as FromSpec<&'z Arg<'n, 'e>>>::from_spec(a),
        }
    }
}

impl<'n, 'e, 'z> From<&'z Arg<'n, 'e>> for Opt<'n, 'e> {
    /// The three facets of `a`, each as `a` declares it.
    fn from(a: &'z Arg<'n, 'e>) -> (opt: Self)
        ensures
            opt@ == (OptView {
                b: declared_base(a),
                s: declared_switched(a),
                v: declared_valued(a),
            }),
    {
        Opt { b: Base::from(a), s: Switched::from(a), v: Valued::from(a) }
    }
}

impl<'n, 'e> GetBase<'n, 'e> for Opt<'n, 'e> {
    open spec fn base_facet(&self) -> Base<'n, 'e> {
        self.b
    }

    fn base(&self) -> (base: &Base<'n, 'e>) {
        &self.b
    }
}

impl<'n, 'e> GetSwitched<'e> for Opt<'n, 'e> {
    open spec fn switched_facet(&self) -> Switched<'e> {
        self.s
    }

    fn switched(&self) -> (switched: &Switched<'e>) {
        &self.s
    }
}

impl<'n, 'e> GetValued<'n, 'e> for Opt<'n, 'e> {
    open spec fn valued_facet(&self) -> Valued<'n, 'e> {
        self.v
    }

    fn valued(&self) -> (valued: &Valued<'n, 'e>) {
        &self.v
    }
}

} // verus!
