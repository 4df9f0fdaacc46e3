use argspec::arg::Arg;
use argspec::arg_builder::{BaseArg, Flag, SwitchedArg};
use argspec::error::BuildError;
use argspec::settings::ArgSettings;

#[test]
fn flag_display_long() {
    let mut f = Flag::new("flg");
    f.set(ArgSettings::Multiple);
    f.s.long = Some("flag");

    assert_eq!(&*f.to_string(), "--flag");
}

#[test]
fn flag_display_short() {
    let mut f2 = Flag::new("flg");
    f2.s.short = Some('f');

    assert_eq!(&*f2.to_string(), "-f");
}

#[test]
fn flag_display_single_alias() {
    let mut f = Flag::new("flg");
    f.s.long = Some("flag");
    f.s.aliases = Some(vec![("als", true)]);

    assert_eq!(&*f.to_string(), "--flag");
}

#[test]
fn flag_display_multiple_aliases() {
    let mut f = Flag::new("flg");
    f.s.short = Some('f');
    f.s.aliases = Some(vec![
        ("alias_not_visible", false),
        ("f2", true),
        ("f3", true),
        ("f4", true),
    ]);
    assert_eq!(&*f.to_string(), "-f");
}

#[test]
fn flag_display_prefers_the_long_form() {
    let mut f = Flag::new("flg");
    f.s.short = Some('f');
    f.s.long = Some("flag");

    assert_eq!(f.to_string(), "--flag");
}

#[test]
fn flag_display_short_beyond_ascii() {
    let mut f = Flag::new("flg");
    f.s.short = Some('é');

    assert_eq!(f.to_string(), "-é");
}

#[test]
fn new_flag_is_bare() {
    let f = Flag::new("flg");

    assert_eq!(f.name(), "flg");
    assert_eq!(f.help(), None);
    assert_eq!(f.short(), None);
    assert_eq!(f.long(), None);
    assert_eq!(f.aliases(), None);
    assert_eq!(f.disp_ord(), 999);
    assert_eq!(f.s.unified_ord, 999);
    assert_eq!(f.blacklist(), None);
    assert!(!f.is_set(ArgSettings::Required));
    assert!(!f.is_set(ArgSettings::Multiple));
}

#[test]
fn default_flag_has_no_name() {
    let f = Flag::default();

    assert_eq!(f.name(), "");
    assert_eq!(f.disp_ord(), 999);
}

#[test]
fn flag_from_required_definition_is_refused() {
    let mut a = Arg::with_name("verbose");
    a.short = Some('v');
    a.settings.set(ArgSettings::Required);

    let built = Flag::from_arg(&a);

    let err = built.err().unwrap();
    assert_eq!(err, BuildError::RequiredFlag { name: "verbose" });
    assert_eq!(err.name(), "verbose");
    assert_eq!(
        err.message(),
        "The argument 'verbose' cannot be required because it's a flag, perhaps you forgot \
         takes_value(true)?"
    );
}

#[test]
fn flag_from_definition_keeps_what_was_declared() {
    let mut a = Arg::with_name("verbose");
    a.short = Some('v');
    a.long = Some("verbose");
    a.help = Some("say more");
    a.aliases = Some(vec![("chatty", true), ("loud", false)]);
    a.disp_ord = 3;
    a.blacklist = Some(vec!["quiet"]);
    a.requires = Some(vec!["log"]);
    a.settings.set(ArgSettings::Multiple);
    a.settings.set(ArgSettings::Global);

    let f = Flag::from_arg(&a).ok().unwrap();

    assert_eq!(f.name(), "verbose");
    assert_eq!(f.help(), Some("say more"));
    assert_eq!(f.short(), Some('v'));
    assert_eq!(f.long(), Some("verbose"));
    assert_eq!(f.aliases(), Some(vec!["chatty"]));
    assert_eq!(f.disp_ord(), 3);
    assert_eq!(f.s.unified_ord, 999);
    assert_eq!(f.blacklist(), Some(&["quiet"][..]));
    assert_eq!(f.requirements(), Some(&["log"][..]));
    assert_eq!(f.overrides(), None);
    assert!(f.is_set(ArgSettings::Multiple));
    assert!(f.is_set(ArgSettings::Global));
    assert!(!f.is_set(ArgSettings::Required));
    assert_eq!(f.to_string(), "--verbose");
}

#[test]
fn flag_clone_is_equal_in_every_field() {
    let mut f = Flag::new("flg");
    f.s.long = Some("flag");
    f.s.aliases = Some(vec![("als", true), ("hid", false)]);
    f.b.groups = Some(vec!["g1", "g2"]);
    f.set(ArgSettings::Hidden);

    let g = f.clone();

    assert_eq!(g.name(), "flg");
    assert_eq!(g.long(), Some("flag"));
    assert_eq!(g.s.aliases, Some(vec![("als", true), ("hid", false)]));
    assert_eq!(g.groups(), Some(&["g1", "g2"][..]));
    assert!(g.is_set(ArgSettings::Hidden));
    assert_eq!(g.to_string(), f.to_string());
}
