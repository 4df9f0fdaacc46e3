//! The tree of commands that a completion script is written for.

use vstd::prelude::*;
use crate::text::views;

verus! {

/// A command and, below it, its subcommands.
pub struct Command<'b> {
    pub name: String,
    /// The name of the binary; the root of a tree has one.
    pub bin_name: Option<String>,
    pub subcommands: Vec<Command<'b>>,
    /// The short forms of the command's own flags and options.
    pub short_list: Vec<char>,
    /// The long forms of the command's own flags and options.
    pub long_list: Vec<&'b str>,
}

/// A [`Command`] as plain values.
pub struct CommandView {
    pub name: Seq<char>,
    pub bin_name: Option<Seq<char>>,
    pub subcommands: Seq<CommandView>,
    pub short_list: Seq<char>,
    pub long_list: Seq<Seq<char>>,
}

/// The command named `name` with no binary name, no subcommands and no flags.
pub open spec fn bare_command(name: Seq<char>) -> CommandView {
    CommandView {
        name,
        bin_name: None,
        subcommands: Seq::empty(),
        short_list: Seq::empty(),
        long_list: Seq::empty(),
    }
}

impl<'b> View for Command<'b> {
    type V = CommandView;

    open spec fn view(&self) -> CommandView {
        self.model()
    }
}

impl<'b> Command<'b> {
    /// The command as plain values, its subcommands included.
    pub open spec fn model(&self) -> CommandView
        decreases self, 1nat, 0nat,
    {
        CommandView {
            name: self.name@,
            bin_name: match self.bin_name {
                Some(n) => Some(n@),
                None => None,
            },
            subcommands: self.sub_views(self.subcommands@.len()),
            short_list: self.short_list@,
            long_list: views(self.long_list@),
        }
    }

    /// The first `n` subcommands as plain values.
    pub open spec fn sub_views(&self, n: nat) -> Seq<CommandView>
        decreases self, 0nat, n,
    {
        if n == 0 || n > self.subcommands@.len() {
            Seq::empty()
        } else {
            self.sub_views((n - 1) as nat).push(self.subcommands@[n - 1].model())
        }
    }

    proof fn lemma_sub_views(&self, n: nat)
        requires
            n <= self.subcommands@.len(),
        ensures
            self.sub_views(n).len() == n,
            forall|i: int| 0 <= i < n ==> #[trigger] self.sub_views(n)[i] == self.subcommands@[i]@,
        decreases n,
    {
        if n > 0 {
            self.lemma_sub_views((n - 1) as nat);
        }
    }

    /// The view of a command holds the views of its parts.
    pub proof fn lemma_view(&self)
        ensures
            self@.name == self.name@,
            self@.bin_name is Some <==> self.bin_name is Some,
            self.bin_name is Some ==> self@.bin_name->0 == self.bin_name->0@,
            self@.subcommands.len() == self.subcommands@.len(),
            forall|i: int|
                0 <= i < self.subcommands@.len() ==> #[trigger] self@.subcommands[i]
                    == self.subcommands@[i]@,
            self@.short_list == self.short_list@,
            self@.long_list == views(self.long_list@),
    {
        self.lemma_sub_views(self.subcommands@.len());
    }

    /// A command named `name` with no subcommands and no flags.
    pub fn new(name: &str) -> (command: Self)
        ensures
            command@ == bare_command(name@),
    {
        let command = Command {
            name: name.to_owned(),
            bin_name: None,
            subcommands: Vec::new(),
            short_list: Vec::new(),
            long_list: Vec::new(),
        };
        proof {
            command.lemma_view();
            assert(command@.subcommands =~= Seq::<CommandView>::empty());
            assert(command@.short_list =~= Seq::<char>::empty());
            assert(command@.long_list =~= Seq::<Seq<char>>::empty());
        }
        command
    }
}

} // verus!
