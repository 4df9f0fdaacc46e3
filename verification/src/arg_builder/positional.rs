//! A positional argument: one that is found by where it stands.

use std::borrow::Cow;
use vstd::prelude::*;
use vstd::string::StringExecFns;
use crate::arg::Arg;
use crate::arg_builder::base::{bare_base, declared_base, Base, BaseArg, BaseView, GetBase};
use crate::arg_builder::valued::{
    bare_valued,
    declared_valued,
    GetValued,
    Valued,
    ValuedArg,
    ValuedView,
};
use crate::error::BuildError;
use crate::settings::ArgSettings;
use crate::text::{bracketed, ellipsis, names_usage, push_bracketed, push_names};
use crate::val_names::{ordered_values, values};

verus! {

/// An argument without a switch, at a fixed place among such arguments.
pub struct Positional<'n, 'e> where 'n: 'e {
    pub b: Base<'n, 'e>,
    pub v: Valued<'n, 'e>,
    /// The place of the argument, counted from 1.
    pub index: u64,
}

/// A [`Positional`] as plain values.
pub struct PositionalView {
    pub b: BaseView,
    pub v: ValuedView,
    pub index: u64,
}

impl<'n, 'e> View for Positional<'n, 'e> {
    type V = PositionalView;

    open spec fn view(&self) -> PositionalView {
        PositionalView { b: self.b@, v: self.v@, index: self.index }
    }
}

/// Whether `arg` asks for several values: by a least or a greatest number of
/// them, or by a fixed number above one.
pub open spec fn takes_several(arg: &Arg) -> bool {
    arg.max_vals is Some || arg.min_vals is Some || (arg.num_vals matches Some(n) && n > 1)
}

/// The positional argument that `arg` defines for the place `idx`.
pub open spec fn declared_positional(arg: &Arg, idx: u64) -> PositionalView {
    let base = declared_base(arg);
    PositionalView {
        b: if takes_several(arg) {
            BaseView { settings: base.settings.insert(ArgSettings::Multiple), ..base }
        } else {
            base
        },
        v: declared_valued(arg),
        index: idx,
    }
}

impl PositionalView {
    /// The mark of repetition, where the argument may be repeated and no
    /// value names stand for its values.
    pub open spec fn multiple_text(self) -> Seq<char> {
        if self.b.settings.contains(ArgSettings::Multiple) && self.v.val_names is None {
            ellipsis()
        } else {
            Seq::empty()
        }
    }

    /// The value names between angle brackets where there are any, else the
    /// bare name of the argument.
    pub open spec fn plain_name(self) -> Seq<char> {
        match self.v.val_names {
            Some(names) => names_usage(ordered_values(names)),
            None => self.b.name,
        }
    }

    /// How usage text shows the argument: its value names where there are
    /// any, else its name, between angle brackets; then the mark of
    /// repetition.
    pub open spec fn usage(self) -> Seq<char> {
        (match self.v.val_names {
            Some(names) => names_usage(ordered_values(names)),
            None => bracketed(self.b.name),
        }) + self.multiple_text()
    }
}

/// A positional argument with value names shows these and nothing else,
/// whatever its settings are; one without shows its name between brackets,
/// and behind it the mark of repetition if and only if it may be repeated.
pub proof fn lemma_positional_usage(pos: PositionalView)
    ensures
        pos.v.val_names matches Some(names) ==> pos.usage() == names_usage(ordered_values(names)),
        pos.v.val_names is None && pos.b.settings.contains(ArgSettings::Multiple) ==> pos.usage()
            == bracketed(pos.b.name) + ellipsis(),
        pos.v.val_names is None && !pos.b.settings.contains(ArgSettings::Multiple) ==> pos.usage()
            == bracketed(pos.b.name),
{
    match pos.v.val_names {
        Some(names) => {
            assert(names_usage(ordered_values(names)) + Seq::<char>::empty() =~= names_usage(
                ordered_values(names),
            ));
        },
        None => {
            assert(bracketed(pos.b.name) + Seq::<char>::empty() =~= bracketed(pos.b.name));
        },
    }
}

impl<'n, 'e> Default for Positional<'n, 'e> {
    fn default() -> (pos: Self)
        ensures
            pos@ == (PositionalView { b: bare_base(Seq::empty()), v: bare_valued(), index: 0 }),
    {
        Positional { b: Base::default(), v: Valued::default(), index: 0 }
    }
}

impl<'n, 'e> Positional<'n, 'e> {
    /// The positional argument named `name` at the place `idx`: no help, no
    /// settings, one unconstrained value.
    pub fn new(name: &'n str, idx: u64) -> (pos: Self)
        ensures
            pos@ == (PositionalView { b: bare_base(name@), v: bare_valued(), index: idx }),
    {
        Positional { b: Base::new(name), v: Valued::default(), index: idx }
    }

    /// The positional argument that `a` defines for the place `idx`. A
    /// definition with both a short and a long form is refused. Any other is
    /// taken over as it stands, and marked as repeatable where it asks for
    /// several values.
    pub fn from_arg<'z>(a: &'z Arg<'n, 'e>, idx: u64) -> (built: Result<Self, BuildError<'n>>)
        ensures
            built is Err <==> a.short is Some && a.long is Some,
            built matches Ok(pos) ==> pos@ == declared_positional(a, idx),
            built matches Err(e) ==> e == (BuildError::SwitchedPositional { name: a.name }),
    {
        if a.short.is_some() && a.long.is_some() {
            return Err(BuildError::SwitchedPositional { name: a.name });
        }
        let mut pb = Positional { b: Base::from(a), v: Valued::from(a), index: idx };
        if a.max_vals.is_some() || a.min_vals.is_some() || (a.num_vals.is_some()
            && a.num_vals.unwrap() > 1) {
            pb.set(ArgSettings::Multiple);
        }
        Ok(pb)
    }

    /// The mark that usage text puts behind the argument.
    pub fn multiple_str(&self) -> (mark: &'static str)
        ensures
            mark@ == self@.multiple_text(),
    {
        if self.is_set(ArgSettings::Multiple) && self.val_names().is_none() {
            proof {
                reveal_strlit("...");
                assert("..."@ =~= ellipsis());
            }
            "..."
        } else {
            proof {
                reveal_strlit("");
                assert(""@ =~= Seq::<char>::empty());
            }
            ""
        }
    }

    /// Adds `s` to the settings.
    pub fn set(&mut self, s: ArgSettings)
        ensures
            final(self)@ == (PositionalView {
                b: BaseView { settings: old(self)@.b.settings.insert(s), ..old(self)@.b },
                ..old(self)@
            }),
    {
        self.b.set(s);
    }

    /// The argument as usage text shows it where it adds the brackets round
    /// the name itself.
    pub fn name_no_brackets(&self) -> (text: Cow<'n, str>)
        ensures
            text@ == self@.plain_name(),
    {
        if let Some(names) = self.val_names() {
            let mut text = String::new();
            let names = values(names);
            push_names(&mut text, &names);
            proof {
                assert(text@ =~= names_usage(crate::text::views(names@)));
            }
            Cow::Owned(text)
        } else {
            Cow::Borrowed(self.name())
        }
    }

    /// The argument as usage text shows it.
    pub fn to_string(&self) -> (text: String)
        ensures
            text@ == self@.usage(),
    {
        let mut text = String::new();
        if let Some(names) = self.val_names() {
            let names = values(names);
            push_names(&mut text, &names);
        } else {
            push_bracketed(&mut text, self.name());
        }
        let ghost head = text@;
        text.append(self.multiple_str());
        proof {
            assert(text@ =~= head + self@.multiple_text());
        }
        text
    }
}

impl<'n, 'e> GetBase<'n, 'e> for Positional<'n, 'e> {
    open spec fn base_facet(&self) -> Base<'n, 'e> {
        self.b
    }

    fn base(&self) -> (base: &Base<'n, 'e>) {
        &self.b
    }
}

impl<'n, 'e> GetValued<'n, 'e> for Positional<'n, 'e> {
    open spec fn valued_facet(&self) -> Valued<'n, 'e> {
        self.v
    }

    fn valued(&self) -> (valued: &Valued<'n, 'e>) {
        &self.v
    }
}

} // verus!
