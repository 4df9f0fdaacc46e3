use std::rc::Rc;

use argspec::arg::{Arg, Validator};
use argspec::arg_builder::{BaseArg, Opt, SwitchedArg, ValuedArg};
use argspec::settings::ArgSettings;
use vec_map::VecMap;

#[test]
fn optbuilder_display1() {
    let mut o = Opt::new("opt");
    o.s.long = Some("option");
    o.b.settings.set(ArgSettings::Multiple);

    assert_eq!(&*o.to_string(), "--option <opt>...");
}

#[test]
fn optbuilder_display2() {
    let mut v_names = VecMap::new();
    v_names.insert(0, "file");
    v_names.insert(1, "name");

    let mut o2 = Opt::new("opt");
    o2.s.short = Some('o');
    o2.v.val_names = Some(v_names);

    assert_eq!(&*o2.to_string(), "-o <file> <name>");
}

#[test]
fn optbuilder_display3() {
    let mut v_names = VecMap::new();
    v_names.insert(0, "file");
    v_names.insert(1, "name");

    let mut o2 = Opt::new("opt");
    o2.s.short = Some('o');
    o2.v.val_names = Some(v_names);
    o2.b.settings.set(ArgSettings::Multiple);

    assert_eq!(&*o2.to_string(), "-o <file> <name>");
}

#[test]
fn optbuilder_display_single_alias() {
    let mut o = Opt::new("opt");
    o.s.long = Some("option");
    o.s.aliases = Some(vec![("als", true)]);

    assert_eq!(&*o.to_string(), "--option <opt>");
}

#[test]
fn optbuilder_display_multiple_aliases() {
    let mut o = Opt::new("opt");
    o.s.long = Some("option");
    o.s.aliases = Some(vec![
        ("als_not_visible", false),
        ("als2", true),
        ("als3", true),
        ("als4", true),
    ]);
    assert_eq!(&*o.to_string(), "--option <opt>");
}

#[test]
fn opt_display_one_name_repeatable() {
    let mut v_names = VecMap::new();
    v_names.insert(4, "file");

    let mut o = Opt::new("opt");
    o.s.short = Some('o');
    o.v.val_names = Some(v_names);
    o.set(ArgSettings::Multiple);

    assert_eq!(o.to_string(), "-o <file>...");
}

#[test]
fn opt_display_one_name_not_repeatable() {
    let mut v_names = VecMap::new();
    v_names.insert(0, "file");

    let mut o = Opt::new("opt");
    o.s.short = Some('o');
    o.v.val_names = Some(v_names);

    assert_eq!(o.to_string(), "-o <file>");
}

#[test]
fn opt_display_names_come_in_slot_order() {
    let mut v_names = VecMap::new();
    v_names.insert(7, "last");
    v_names.insert(2, "first");
    v_names.insert(5, "middle");

    let mut o = Opt::new("opt");
    o.s.long = Some("option");
    o.v.val_names = Some(v_names);

    assert_eq!(o.to_string(), "--option <first> <middle> <last>");
}

#[test]
fn opt_display_no_names_in_an_empty_map() {
    let mut o = Opt::new("opt");
    o.s.long = Some("option");
    o.v.val_names = Some(VecMap::new());
    o.set(ArgSettings::Multiple);

    assert_eq!(o.to_string(), "--option ");
}

#[test]
fn opt_display_repeats_the_name_for_each_value() {
    let mut o = Opt::new("opt");
    o.s.long = Some("option");
    o.v.num_vals = Some(3);
    o.set(ArgSettings::Multiple);

    assert_eq!(o.to_string(), "--option <opt> <opt> <opt>");
}

#[test]
fn opt_display_of_no_values() {
    let mut o = Opt::new("opt");
    o.s.short = Some('o');
    o.v.num_vals = Some(0);

    assert_eq!(o.to_string(), "-o ");
}

#[test]
fn opt_display_plain() {
    let mut o = Opt::new("opt");
    o.s.short = Some('o');
    o.s.long = Some("option");

    assert_eq!(o.to_string(), "--option <opt>");
}

#[test]
fn new_opt_is_bare() {
    let o = Opt::new("opt");

    assert_eq!(o.name(), "opt");
    assert_eq!(o.short(), None);
    assert_eq!(o.long(), None);
    assert_eq!(o.possible_vals(), None);
    assert!(o.val_names().is_none());
    assert_eq!(o.num_vals(), None);
    assert_eq!(o.max_vals(), None);
    assert_eq!(o.min_vals(), None);
    assert!(o.validator().is_none());
    assert_eq!(o.val_delim(), Some(','));
    assert_eq!(o.default_val(), None);
    assert!(!o.is_set(ArgSettings::Multiple));
}

#[test]
fn opt_from_arg_counts_several_names() {
    let mut names = VecMap::new();
    names.insert(0, "src");
    names.insert(1, "dst");
    names.insert(3, "mode");
    let mut a = Arg::with_name("copy");
    a.long = Some("copy");
    a.val_names = Some(names);
    a.num_vals = Some(9);

    let o = Opt::from_arg(&a);

    assert_eq!(o.num_vals(), Some(3));
    assert_eq!(o.val_names().map(|m| m.len()), Some(3));
    assert_eq!(o.to_string(), "--copy <src> <dst> <mode>");
}

#[test]
fn opt_from_arg_leaves_the_number_with_one_name() {
    let mut names = VecMap::new();
    names.insert(0, "src");
    let mut a = Arg::with_name("copy");
    a.long = Some("copy");
    a.val_names = Some(names);
    a.num_vals = Some(9);

    let o = Opt::from_arg(&a);

    assert_eq!(o.num_vals(), Some(9));

    let mut b = Arg::with_name("copy");
    b.short = Some('c');
    assert_eq!(Opt::from_arg(&b).num_vals(), None);
}

#[test]
fn opt_from_arg_keeps_what_was_declared() {
    let mut a = Arg::with_name("level");
    a.short = Some('l');
    a.help = Some("how much");
    a.possible_vals = Some(vec!["low", "high"]);
    a.min_vals = Some(1);
    a.max_vals = Some(2);
    a.val_delim = Some(';');
    a.default_val = Some("low");
    a.overrides = Some(vec!["quiet"]);
    a.r_unless = Some(vec!["config"]);
    a.groups = Some(vec![]);
    a.settings.set(ArgSettings::Required);
    a.settings.set(ArgSettings::TakesValue);

    let o = Opt::from_arg(&a);

    assert_eq!(o.name(), "level");
    assert_eq!(o.help(), Some("how much"));
    assert_eq!(o.short(), Some('l'));
    assert_eq!(o.possible_vals(), Some(&["low", "high"][..]));
    assert_eq!(o.min_vals(), Some(1));
    assert_eq!(o.max_vals(), Some(2));
    assert_eq!(o.num_vals(), None);
    assert_eq!(o.val_delim(), Some(';'));
    assert_eq!(o.default_val(), Some("low"));
    assert_eq!(o.overrides(), Some(&["quiet"][..]));
    assert_eq!(o.required_unless(), Some(&["config"][..]));
    assert_eq!(o.groups(), None);
    assert!(o.is_set(ArgSettings::Required));
    assert!(o.is_set(ArgSettings::TakesValue));
    assert!(!o.is_set(ArgSettings::Multiple));
    assert_eq!(o.to_string(), "-l <level>");
}

struct Digits;

impl Validator for Digits {
    fn validate(&self, value: String) -> Result<(), String> {
        if value.chars().all(|c| c.is_ascii_digit()) {
            Ok(())
        } else {
            Err(format!("'{}' is no number", value))
        }
    }
}

#[test]
fn opt_from_arg_shares_the_validator() {
    let check: Rc<dyn Validator> = Rc::new(Digits);
    let mut a = Arg::with_name("count");
    a.short = Some('c');
    a.validator = Some(check.clone());

    let o = Opt::from_arg(&a);
    let p = o.clone();

    let held = o.validator().unwrap();
    assert!(Rc::ptr_eq(held, &check));
    assert!(Rc::ptr_eq(p.validator().unwrap(), &check));
    assert_eq!(Rc::strong_count(&check), 4);
    assert_eq!(held.validate("12".to_string()), Ok(()));
    assert_eq!(held.validate("x".to_string()), Err("'x' is no number".to_string()));
}

#[test]
fn opt_clone_holds_the_same_names() {
    let mut v_names = VecMap::new();
    v_names.insert(0, "file");
    v_names.insert(1, "name");
    let mut o = Opt::new("opt");
    o.s.short = Some('o');
    o.v.val_names = Some(v_names);
    o.v.possible_vals = Some(vec!["a", "b"]);

    let mut p = o.clone();
    p.v.val_names.as_mut().unwrap().insert(2, "more");

    assert_eq!(o.to_string(), "-o <file> <name>");
    assert_eq!(p.to_string(), "-o <file> <name> <more>");
    assert_eq!(p.possible_vals(), Some(&["a", "b"][..]));
}
