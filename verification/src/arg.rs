//! The generic definition of an argument, before its kind is known.

use std::rc::Rc;
use vstd::prelude::*;
use vec_map::VecMap;
use crate::settings::ArgFlags;

verus! {

/// A check that the matching engine runs on each candidate value.
pub trait Validator {
    /// Accepts `value`, or says why it is refused.
    fn validate(&self, value: String) -> Result<(), String>;
}

/// An argument as its author declared it: every facet that any kind of
/// argument can have, with nothing derived or checked yet.
pub struct Arg<'a, 'b> where 'a: 'b {
    pub name: &'a str,
    pub short: Option<char>,
    pub long: Option<&'b str>,
    pub aliases: Option<Vec<(&'b str, bool)>>,
    pub help: Option<&'b str>,
    pub index: Option<u64>,
    pub blacklist: Option<Vec<&'a str>>,
    pub possible_vals: Option<Vec<&'b str>>,
    pub requires: Option<Vec<&'a str>>,
    pub groups: Option<Vec<&'a str>>,
    pub val_names: Option<VecMap<&'b str>>,
    pub num_vals: Option<u64>,
    pub max_vals: Option<u64>,
    pub min_vals: Option<u64>,
    pub validator: Option<Rc<dyn Validator>>,
    pub overrides: Option<Vec<&'a str>>,
    pub settings: ArgFlags,
    pub val_delim: Option<char>,
    pub default_val: Option<&'a str>,
    pub disp_ord: usize,
    pub r_unless: Option<Vec<&'a str>>,
}

impl<'a, 'b> Arg<'a, 'b> {
    /// A definition that declares a name and nothing else.
    pub fn with_name(name: &'a str) -> (arg: Self)
        ensures
            arg.name@ == name@,
            arg.short is None,
            arg.long is None,
            arg.aliases is None,
            arg.help is None,
            arg.index is None,
            arg.blacklist is None,
            arg.possible_vals is None,
            arg.requires is None,
            arg.groups is None,
            arg.val_names is None,
            arg.num_vals is None,
            arg.max_vals is None,
            arg.min_vals is None,
            arg.validator is None,
            arg.overrides is None,
            arg.settings@ == Set::<crate::settings::ArgSettings>::empty(),
            arg.val_delim is None,
            arg.default_val is None,
            arg.disp_ord == 999,
            arg.r_unless is None,
    {
        Arg {
            name,
            short: None,
            long: None,
            aliases: None,
            help: None,
            index: None,
            blacklist: None,
            possible_vals: None,
            requires: None,
            groups: None,
            val_names: None,
            num_vals: None,
            max_vals: None,
            min_vals: None,
            validator: None,
            overrides: None,
            settings: ArgFlags::new(),
            val_delim: None,
            default_val: None,
            disp_ord: 999,
            r_unless: None,
        }
    }
}

} // verus!
