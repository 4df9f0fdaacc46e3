//! The facet of arguments that are given by a switch: `-s` or `--long`.

use vstd::prelude::*;
use vstd::std_specs::convert::FromSpecImpl;
use crate::arg::Arg;
use vstd::string::StringExecFns;
use crate::text::{opt_view, push_char};

verus! {

/// The short and long forms of an argument, and its other names.
#[derive(Debug)]
pub struct Switched<'b> {
    pub short: Option<char>,
    pub long: Option<&'b str>,
    /// Other long names, each with whether it is shown to the user.
    pub aliases: Option<Vec<(&'b str, bool)>>,
    /// Where the argument stands in help output; 999 stands for "last".
    pub disp_ord: usize,
    /// Where it stands when flags and options are listed together.
    pub unified_ord: usize,
}

/// A [`Switched`] as plain values.
pub struct SwitchedView {
    pub short: Option<char>,
    pub long: Option<Seq<char>>,
    pub aliases: Option<Seq<(Seq<char>, bool)>>,
    pub disp_ord: usize,
    pub unified_ord: usize,
}

/// Each alias as its characters and its visibility.
pub open spec fn alias_views(aliases: Seq<(&str, bool)>) -> Seq<(Seq<char>, bool)> {
    Seq::new(aliases.len(), |i: int| (aliases[i].0@, aliases[i].1))
}

/// The aliases of an optional list as plain values.
pub open spec fn opt_alias_views(aliases: Option<Vec<(&str, bool)>>) -> Option<
    Seq<(Seq<char>, bool)>,
> {
    match aliases {
        Some(v) => Some(alias_views(v@)),
        None => None,
    }
}

/// The names of the visible aliases, in the order in which they were given.
pub open spec fn visible_names(aliases: Seq<(Seq<char>, bool)>) -> Seq<Seq<char>>
    decreases aliases.len(),
{
    if aliases.len() == 0 {
        Seq::empty()
    } else {
        let before = visible_names(aliases.drop_last());
        if aliases.last().1 {
            before.push(aliases.last().0)
        } else {
            before
        }
    }
}

/// The aliases that help and completion show: the visible ones, or nothing
/// where there is none.
pub open spec fn shown_aliases(aliases: Option<Seq<(Seq<char>, bool)>>) -> Option<Seq<Seq<char>>> {
    match aliases {
        Some(a) => if visible_names(a).len() > 0 {
            Some(visible_names(a))
        } else {
            None
        },
        None => None,
    }
}

impl<'b> View for Switched<'b> {
    type V = SwitchedView;

    open spec fn view(&self) -> SwitchedView {
        SwitchedView {
            short: self.short,
            long: opt_view(self.long),
            aliases: opt_alias_views(self.aliases),
            disp_ord: self.disp_ord,
            unified_ord: self.unified_ord,
        }
    }
}

impl SwitchedView {
    /// Whether a short or a long form is there to write the argument with.
    pub open spec fn has_switch(self) -> bool {
        self.short is Some || self.long is Some
    }
}

/// The switch as the user types it: the long form behind two hyphens where
/// there is one, else the short form behind one.
pub open spec fn switch_text(s: SwitchedView) -> Seq<char> {
    match s.long {
        Some(long) => seq!['-', '-'] + long,
        None => seq!['-', s.short->0],
    }
}

/// The facet with no form and no alias, ordered last.
pub open spec fn bare_switched() -> SwitchedView {
    SwitchedView { short: None, long: None, aliases: None, disp_ord: 999, unified_ord: 999 }
}

/// The switched facet that `arg` declares.
pub open spec fn declared_switched(arg: &Arg) -> SwitchedView {
    SwitchedView {
        short: arg.short,
        long: opt_view(arg.long),
        aliases: opt_alias_views(arg.aliases),
        disp_ord: arg.disp_ord,
        unified_ord: 999,
    }
}

/// A list of aliases of its own, equal to `aliases` item by item.
pub fn copy_aliases<'b>(aliases: &Option<Vec<(&'b str, bool)>>) -> (copy: Option<
    Vec<(&'b str, bool)>,
>)
    ensures
        copy is Some <==> aliases is Some,
        copy is Some ==> copy->0@ == aliases->0@,
        opt_alias_views(copy) == opt_alias_views(*aliases),
{
    match aliases {
        Some(v) => {
            let mut out: Vec<(&'b str, bool)> = Vec::new();
            let mut i: usize = 0;
            while i < v.len()
                invariant
                    i <= v.len(),
                    out@ == v@.take(i as int),
                decreases v.len() - i,
            {
                out.push(v[i]);
                proof {
                    assert(v@.take(i + 1) =~= v@.take(i as int).push(v@[i as int]));
                }
                i += 1;
            }
            proof {
                assert(v@.take(i as int) =~= v@);
            }
            Some(out)
        },
        None => None,
    }
}

impl<'e> Default for Switched<'e> {
    fn default() -> (switched: Self)
        ensures
            switched@ == bare_switched(),
    {
        Switched { short: None, long: None, aliases: None, disp_ord: 999, unified_ord: 999 }
    }
}

impl<'e> Switched<'e> {
    /// The switch as the user types it.
    pub fn switch_form(&self) -> (text: String)
        requires
            self@.has_switch(),
        ensures
            text@ == switch_text(self@),
    {
        let mut text = String::new();
        push_char(&mut text, '-');
        match self.long {
            Some(long) => {
                push_char(&mut text, '-');
                text.append(long);
                proof {
                    assert(text@ =~= seq!['-', '-'] + long@);
                }
            },
            None => {
                let short = self.short.unwrap();
                push_char(&mut text, short);
                proof {
                    assert(text@ =~= seq!['-', short]);
                }
            },
        }
        text
    }
}

/// What is built from a definition owns lists of its own. It equals the
/// definition field by field in its view, which `from` states, and not as a
/// value.
impl<'n, 'e, 'z> FromSpecImpl<&'z Arg<'n, 'e>> for Switched<'e> {
    open spec fn obeys_from_spec() -> bool {
        false
    }

    open spec fn from_spec(a: &'z Arg<'n, 'e>) -> Self {
        Switched {
            short: a.short,
            long: a.long,
            aliases: a.aliases,
            disp_ord: a.disp_ord,
            unified_ord: 999,
        }
    }
}

impl<'n, 'e, 'z> From<&'z Arg<'n, 'e>> for Switched<'e> {
    /// The switched facet of `a`: its forms, aliases and display order.
    fn from(a: &'z Arg<'n, 'e>) -> (switched: Self)
        ensures
            switched@ == declared_switched(a),
    {
        Switched {
            short: a.short,
            long: a.long,
            aliases: copy_aliases(&a.aliases),
            disp_ord: a.disp_ord,
            unified_ord: 999,
        }
    }
}

impl<'e> Clone for Switched<'e> {
    fn clone(&self) -> (copy: Self)
        ensures
            copy@ == self@,
    {
        Switched {
            short: self.short,
            long: self.long,
            aliases: copy_aliases(&self.aliases),
            disp_ord: self.disp_ord,
            unified_ord: self.unified_ord,
        }
    }
}

/// An argument that has a switched facet.
pub trait GetSwitched<'e> {
    /// The switched facet, as contracts speak of it.
    spec fn switched_facet(&self) -> Switched<'e>;

    fn switched(&self) -> (switched: &Switched<'e>)
        ensures
            *switched == self.switched_facet(),
    ;
}

/// Read access to the switched facet of any argument that has one.
pub trait SwitchedArg<'e> {
    /// The switched facet as plain values.
    spec fn switched_view(&self) -> SwitchedView;

    fn short(&self) -> (short: Option<char>)
        ensures
            short == self.switched_view().short,
    ;

    fn long(&self) -> (long: Option<&'e str>)
        ensures
            opt_view(long) == self.switched_view().long,
    ;

    /// The names of the visible aliases, if there are any.
    fn aliases(&self) -> (names: Option<Vec<&'e str>>)
        ensures
            crate::text::opt_views(names) == shown_aliases(self.switched_view().aliases),
    ;

    fn disp_ord(&self) -> (ord: usize)
        ensures
            ord == self.switched_view().disp_ord,
    ;
}

impl<'e, T> SwitchedArg<'e> for T where T: GetSwitched<'e> {
    open spec fn switched_view(&self) -> SwitchedView {
        self.switched_facet()@
    }

    fn short(&self) -> (short: Option<char>) {
        self.switched().short
    }

    fn long(&self) -> (long: Option<&'e str>) {
        self.switched().long
    }

    fn aliases(&self) -> (names: Option<Vec<&'e str>>) {
        match &self.switched().aliases {
            Some(aliases) => {
                let ghost all = alias_views(aliases@);
                let mut vis_aliases: Vec<&'e str> = Vec::new();
                let mut i: usize = 0;
                while i < aliases.len()
                    invariant
                        i <= aliases.len(),
                        all == alias_views(aliases@),
                        crate::text::views(vis_aliases@) == visible_names(all.take(i as int)),
                    decreases aliases.len() - i,
                {
                    let (name, visible) = aliases[i];
                    let ghost before = vis_aliases@;
                    if visible {
                        vis_aliases.push(name);
                    }
                    proof {
                        assert(all.take(i + 1).drop_last() =~= all.take(i as int));
                        assert(all.take(i + 1).last() == (name@, visible));
                        if visible {
                            assert(crate::text::views(vis_aliases@) =~= crate::text::views(
                                before,
                            ).push(name@));
                        }
                    }
                    i += 1;
                }
                proof {
                    assert(all.take(i as int) =~= all);
                }
                if vis_aliases.len() == 0 {
                    None
                } else {
                    Some(vis_aliases)
                }
            },
            None => None,
        }
    }

    fn disp_ord(&self) -> (ord: usize) {
        self.switched().disp_ord
    }
}

} // verus!
