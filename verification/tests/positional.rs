use argspec::arg::Arg;
use argspec::arg_builder::{BaseArg, Positional, ValuedArg};
use argspec::error::BuildError;
use argspec::settings::ArgSettings;
use vec_map::VecMap;

#[test]
fn display_mult() {
    let mut p = Positional::new("pos", 1);
    p.set(ArgSettings::Multiple);

    assert_eq!(&*p.to_string(), "<pos>...");
}

#[test]
fn display_required() {
    let mut p2 = Positional::new("pos", 1);
    p2.set(ArgSettings::Required);

    assert_eq!(&*p2.to_string(), "<pos>");
}

#[test]
fn display_val_names() {
    let mut p2 = Positional::new("pos", 1);
    let mut vm = VecMap::new();
    vm.insert(0, "file1");
    vm.insert(1, "file2");
    p2.v.val_names = Some(vm);

    assert_eq!(&*p2.to_string(), "<file1> <file2>");
}

#[test]
fn display_val_names_req() {
    let mut p2 = Positional::new("pos", 1);
    p2.set(ArgSettings::Required);
    let mut vm = VecMap::new();
    vm.insert(0, "file1");
    vm.insert(1, "file2");
    p2.v.val_names = Some(vm);

    assert_eq!(&*p2.to_string(), "<file1> <file2>");
}

#[test]
fn display_val_names_never_shows_the_mark() {
    let mut p = Positional::new("pos", 1);
    p.set(ArgSettings::Multiple);
    let mut vm = VecMap::new();
    vm.insert(3, "only");
    p.v.val_names = Some(vm);

    assert_eq!(p.to_string(), "<only>");
    assert_eq!(p.multiple_str(), "");
}

#[test]
fn multiple_str_marks_a_repeatable_argument() {
    let mut p = Positional::new("pos", 1);
    assert_eq!(p.multiple_str(), "");
    p.set(ArgSettings::Multiple);
    assert_eq!(p.multiple_str(), "...");
}

#[test]
fn name_no_brackets_is_the_bare_name() {
    let p = Positional::new("pos", 1);

    assert_eq!(&*p.name_no_brackets(), "pos");
}

#[test]
fn name_no_brackets_shows_the_value_names() {
    let mut p = Positional::new("pos", 1);
    let mut vm = VecMap::new();
    vm.insert(1, "to");
    vm.insert(0, "from");
    p.v.val_names = Some(vm);

    assert_eq!(&*p.name_no_brackets(), "<from> <to>");
}

#[test]
fn new_positional_is_bare() {
    let p = Positional::new("pos", 4);

    assert_eq!(p.name(), "pos");
    assert_eq!(p.index, 4);
    assert_eq!(p.help(), None);
    assert_eq!(p.val_delim(), Some(','));
    assert_eq!(p.num_vals(), None);
    assert!(!p.is_set(ArgSettings::Multiple));
    assert_eq!(Positional::default().index, 0);
}

#[test]
fn positional_with_both_forms_is_refused() {
    let mut a = Arg::with_name("input");
    a.short = Some('i');
    a.long = Some("input");

    let err = Positional::from_arg(&a, 1).err().unwrap();

    assert_eq!(err, BuildError::SwitchedPositional { name: "input" });
    assert_eq!(
        err.message(),
        "Argument \"input\" has conflicting requirements, both index() and short(), or long(), \
         were supplied"
    );
}

#[test]
fn positional_with_one_form_is_built() {
    let mut a = Arg::with_name("input");
    a.short = Some('i');
    assert!(Positional::from_arg(&a, 1).is_ok());

    let mut b = Arg::with_name("input");
    b.long = Some("input");
    assert!(Positional::from_arg(&b, 1).is_ok());
}

#[test]
fn positional_from_arg_takes_the_place_and_the_facets() {
    let mut a = Arg::with_name("input");
    a.help = Some("what to read");
    a.default_val = Some("-");
    a.settings.set(ArgSettings::Required);

    let p = Positional::from_arg(&a, 2).ok().unwrap();

    assert_eq!(p.index, 2);
    assert_eq!(p.name(), "input");
    assert_eq!(p.help(), Some("what to read"));
    assert_eq!(p.default_val(), Some("-"));
    assert!(p.is_set(ArgSettings::Required));
    assert!(!p.is_set(ArgSettings::Multiple));
    assert_eq!(p.to_string(), "<input>");
}

#[test]
fn positional_from_arg_derives_multiple() {
    let mut a = Arg::with_name("files");
    a.max_vals = Some(1);
    assert!(Positional::from_arg(&a, 1).ok().unwrap().is_set(ArgSettings::Multiple));

    let mut b = Arg::with_name("files");
    b.min_vals = Some(0);
    assert!(Positional::from_arg(&b, 1).ok().unwrap().is_set(ArgSettings::Multiple));

    let mut c = Arg::with_name("files");
    c.num_vals = Some(2);
    let p = Positional::from_arg(&c, 1).ok().unwrap();
    assert!(p.is_set(ArgSettings::Multiple));
    assert_eq!(p.to_string(), "<files>...");

    let mut d = Arg::with_name("files");
    d.num_vals = Some(1);
    assert!(!Positional::from_arg(&d, 1).ok().unwrap().is_set(ArgSettings::Multiple));
}
