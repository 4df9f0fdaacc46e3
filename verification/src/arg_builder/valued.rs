//! The facet of arguments that take values.

use std::rc::Rc;
use vstd::prelude::*;
use vstd::std_specs::convert::FromSpecImpl;
use vec_map::VecMap;
use crate::arg::{Arg, Validator};
use crate::text::{copy_names, opt_view, opt_views, slice_views};
use crate::val_names::{duplicate, names_of};

verus! {

/// How many values an argument takes, what they may be and how they are named.
pub struct Valued<'a, 'b> {
    /// The only values that are accepted, where the set is closed.
    pub possible_vals: Option<Vec<&'b str>>,
    /// The names under which the values are shown, by slot.
    pub val_names: Option<VecMap<&'b str>>,
    pub num_vals: Option<u64>,
    pub max_vals: Option<u64>,
    pub min_vals: Option<u64>,
    /// A check of the user's own, shared by every copy of the argument.
    pub validator: Option<Rc<dyn Validator>>,
    /// The character at which one token is split into values.
    pub val_delim: Option<char>,
    /// The value of the argument where it is absent.
    pub default_val: Option<&'a str>,
}

/// A [`Valued`] as plain values.
pub struct ValuedView {
    pub possible_vals: Option<Seq<Seq<char>>>,
    pub val_names: Option<Map<usize, Seq<char>>>,
    pub num_vals: Option<u64>,
    pub max_vals: Option<u64>,
    pub min_vals: Option<u64>,
    pub validator: Option<Rc<dyn Validator>>,
    pub val_delim: Option<char>,
    pub default_val: Option<Seq<char>>,
}

/// What an optional map of value names holds.
pub open spec fn opt_names_of(names: Option<VecMap<&str>>) -> Option<Map<usize, Seq<char>>> {
    match names {
        Some(m) => Some(names_of(m)),
        None => None,
    }
}

/// What a borrowed optional map of value names holds.
pub open spec fn ref_names_of(names: Option<&VecMap<&str>>) -> Option<Map<usize, Seq<char>>> {
    match names {
        Some(m) => Some(names_of(*m)),
        None => None,
    }
}

impl<'a, 'b> View for Valued<'a, 'b> {
    type V = ValuedView;

    open spec fn view(&self) -> ValuedView {
        ValuedView {
            possible_vals: opt_views(self.possible_vals),
            val_names: opt_names_of(self.val_names),
            num_vals: self.num_vals,
            max_vals: self.max_vals,
            min_vals: self.min_vals,
            validator: self.validator,
            val_delim: self.val_delim,
            default_val: opt_view(self.default_val),
        }
    }
}

/// The facet of one unconstrained value, split at a comma.
pub open spec fn bare_valued() -> ValuedView {
    ValuedView {
        possible_vals: None,
        val_names: None,
        num_vals: None,
        max_vals: None,
        min_vals: None,
        validator: None,
        val_delim: Some(','),
        default_val: None,
    }
}

/// The valued facet that `arg` declares.
pub open spec fn declared_valued(arg: &Arg) -> ValuedView {
    ValuedView {
        possible_vals: opt_views(arg.possible_vals),
        val_names: opt_names_of(arg.val_names),
        num_vals: arg.num_vals,
        max_vals: arg.max_vals,
        min_vals: arg.min_vals,
        validator: arg.validator,
        val_delim: arg.val_delim,
        default_val: opt_view(arg.default_val),
    }
}

/// `Clone::clone` of an optional `Rc`: where there is a validator, one more
/// pointer to the same one.
#[verifier::external_body]
fn share_validator(validator: &Option<Rc<dyn Validator>>) -> (shared: Option<Rc<dyn Validator>>)
    ensures
        shared == *validator,
{
    validator.clone()
}

/// A map of value names of its own that holds what `names` holds.
pub fn copy_val_names<'b>(names: &Option<VecMap<&'b str>>) -> (copy: Option<VecMap<&'b str>>)
    ensures
        opt_names_of(copy) == opt_names_of(*names),
{
    match names {
        Some(m) => Some(duplicate(m)),
        None => None,
    }
}

impl<'n, 'e> Default for Valued<'n, 'e> {
    fn default() -> (valued: Self)
        ensures
            valued@ == bare_valued(),
    {
        Valued {
            possible_vals: None,
            num_vals: None,
            min_vals: None,
            max_vals: None,
            val_names: None,
            validator: None,
            val_delim: Some(','),
            default_val: None,
        }
    }
}

/// What is built from a definition owns lists of its own. It equals the
/// definition field by field in its view, which `from` states, and not as a
/// value.
impl<'n, 'e, 'z> FromSpecImpl<&'z Arg<'n, 'e>> for Valued<'n, 'e> {
    open spec fn obeys_from_spec() -> bool {
        false
    }

    open spec fn from_spec(a: &'z Arg<'n, 'e>) -> Self {
        Valued {
            possible_vals: a.possible_vals,
            val_names: a.val_names,
            num_vals: a.num_vals,
            max_vals: a.max_vals,
            min_vals: a.min_vals,
            validator: a.validator,
            val_delim: a.val_delim,
            default_val: a.default_val,
        }
    }
}

impl<'n, 'e, 'z> From<&'z Arg<'n, 'e>> for Valued<'n, 'e> {
    /// The valued facet of `a`: every field of it that `a` declares, the
    /// validator shared with `a`.
    fn from(a: &'z Arg<'n, 'e>) -> (valued: Self)
        ensures
            valued@ == declared_valued(a),
    {
        Valued {
            possible_vals: copy_names(&a.possible_vals),
            num_vals: a.num_vals,
            min_vals: a.min_vals,
            max_vals: a.max_vals,
            val_names: copy_val_names(&a.val_names),
            validator: share_validator(&a.validator),
            val_delim: a.val_delim,
            default_val: a.default_val,
        }
    }
}

impl<'n, 'e> Clone for Valued<'n, 'e> {
    fn clone(&self) -> (copy: Self)
        ensures
            copy@ == self@,
    {
        Valued {
            possible_vals: copy_names(&self.possible_vals),
            num_vals: self.num_vals,
            min_vals: self.min_vals,
            max_vals: self.max_vals,
            val_names: copy_val_names(&self.val_names),
            validator: share_validator(&self.validator),
            val_delim: self.val_delim,
            default_val: self.default_val,
        }
    }
}

/// An argument that has a valued facet.
pub trait GetValued<'a, 'b> {
    /// The valued facet, as contracts speak of it.
    spec fn valued_facet(&self) -> Valued<'a, 'b>;

    fn valued(&self) -> (valued: &Valued<'a, 'b>)
        ensures
            *valued == self.valued_facet(),
    ;
}

/// Read access to the valued facet of any argument that has one.
pub trait ValuedArg<'n, 'e> {
    /// The valued facet as plain values.
    spec fn valued_view(&self) -> ValuedView;

    fn possible_vals<'s>(&'s self) -> (vals: Option<&'s [&'e str]>) where 'n: 's
        ensures
            slice_views(vals) == self.valued_view().possible_vals,
    ;

    fn val_names<'s>(&'s self) -> (names: Option<&'s VecMap<&'e str>>) where 'n: 's
        ensures
            ref_names_of(names) == self.valued_view().val_names,
    ;

    fn num_vals(&self) -> (n: Option<u64>)
        ensures
            n == self.valued_view().num_vals,
    ;

    fn max_vals(&self) -> (n: Option<u64>)
        ensures
            n == self.valued_view().max_vals,
    ;

    fn min_vals(&self) -> (n: Option<u64>)
        ensures
            n == self.valued_view().min_vals,
    ;

    fn validator<'s>(&'s self) -> (validator: Option<&'s Rc<dyn Validator>>) where 'n: 's, 'e: 's
        ensures
            validator is Some <==> self.valued_view().validator is Some,
            validator is Some ==> *validator->0 == self.valued_view().validator->0,
    ;

    fn val_delim(&self) -> (delim: Option<char>)
        ensures
            delim == self.valued_view().val_delim,
    ;

    fn default_val(&self) -> (val: Option<&'n str>)
        ensures
            opt_view(val) == self.valued_view().default_val,
    ;
}

impl<'n, 'e, T> ValuedArg<'n, 'e> for T where T: GetValued<'n, 'e> {
    open spec fn valued_view(&self) -> ValuedView {
        self.valued_facet()@
    }

    fn val_names<'s>(&'s self) -> (names: Option<&'s VecMap<&'e str>>) where 'n: 's {
        self.valued().val_names.as_ref()
    }

    fn max_vals(&self) -> (n: Option<u64>) {
        self.valued().max_vals
    }

    fn num_vals(&self) -> (n: Option<u64>) {
        self.valued().num_vals
    }

    fn possible_vals<'s>(&'s self) -> (vals: Option<&'s [&'e str]>) where 'n: 's {
        match &self.valued().possible_vals {
            Some(v) => Some(v.as_slice()),
            None => None,
        }
    }

    fn validator<'s>(&'s self) -> (validator: Option<&'s Rc<dyn Validator>>) where 'n: 's, 'e: 's {
        self.valued().validator.as_ref()
    }

    fn min_vals(&self) -> (n: Option<u64>) {
        self.valued().min_vals
    }

    fn val_delim(&self) -> (delim: Option<char>) {
        self.valued().val_delim
    }

    fn default_val(&self) -> (val: Option<&'n str>) {
        self.valued().default_val
    }
}

} // verus!
