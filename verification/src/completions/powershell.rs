//! The completion script for PowerShell.

use vstd::prelude::*;
use vstd::string::StringExecFns;
use crate::completions::command::{Command, CommandView};
use crate::text::{join, join_strings, push_char};

verus! {

/// `s` between single quotes.
pub open spec fn quoted(s: Seq<char>) -> Seq<char> {
    seq!['\''] + s + seq!['\'']
}

/// Each of `items` between single quotes, a comma and a space between
/// neighbours.
pub open spec fn quoted_list(items: Seq<Seq<char>>) -> Seq<char> {
    join(Seq::new(items.len(), |i: int| quoted(items[i])), seq![',', ' '])
}

/// The key under which the script knows a command. The root, above which
/// stands the empty key, is known by its bare name; every other command by
/// the key of its parent, an underscore and its own name.
pub open spec fn qualified_id(previous: Seq<char>, name: Seq<char>) -> Seq<char> {
    if previous.len() == 0 {
        name
    } else {
        previous + seq!['_'] + name
    }
}

/// What can follow a command: its subcommands by name, then its short flags
/// behind a hyphen, then its long flags behind two; nothing sorted, nothing
/// left out.
pub open spec fn candidates(c: CommandView) -> Seq<Seq<char>> {
    Seq::new(c.subcommands.len(), |i: int| c.subcommands[i].name) + Seq::new(
        c.short_list.len(),
        |i: int| seq!['-', c.short_list[i]],
    ) + Seq::new(c.long_list.len(), |i: int| seq!['-', '-'] + c.long_list[i])
}

/// The case that recognises the subcommand `name` among the words typed so
/// far: it extends the running key by `_name` and looks no further.
pub open spec fn detection_case(name: Seq<char>) -> Seq<char> {
    "\n                    "@ + quoted(name) + " {\n                        $command += "@
        + quoted(seq!['_'] + name) + "\n                        break\n                    }\n"@
}

/// The case that offers the candidates of `c` under the key `id`.
pub open spec fn completion_case(id: Seq<char>, c: CommandView) -> Seq<char> {
    "\n            "@ + quoted(id) + " {\n                $completions = @("@ + quoted_list(
        candidates(c),
    ) + ")\n            }\n"@
}

/// The detection cases of the tree below `c`, whose parent has the key
/// `previous`: that of `c` itself unless it is the root, above which stands
/// the empty key, then those of its subcommands from first to last, each with
/// all that is below it.
pub open spec fn detection_cases(c: CommandView, previous: Seq<char>) -> Seq<char>
    decreases c, 1nat, 0nat,
{
    (if previous.len() == 0 {
        Seq::empty()
    } else {
        detection_case(c.name)
    }) + detection_below(c, qualified_id(previous, c.name), c.subcommands.len())
}

/// The detection cases of the first `n` subcommands of `c`, whose key is
/// `id`.
pub open spec fn detection_below(c: CommandView, id: Seq<char>, n: nat) -> Seq<char>
    decreases c, 0nat, n,
{
    if n == 0 || n > c.subcommands.len() {
        Seq::empty()
    } else {
        detection_below(c, id, (n - 1) as nat) + detection_cases(c.subcommands[n - 1], id)
    }
}

/// The completion cases of the tree below `c`, whose parent has the key
/// `previous`: that of `c` itself under its own key, then those of its
/// subcommands from first to last, each with all that is below it.
pub open spec fn completion_cases(c: CommandView, previous: Seq<char>) -> Seq<char>
    decreases c, 1nat, 0nat,
{
    completion_case(qualified_id(previous, c.name), c) + completion_below(
        c,
        qualified_id(previous, c.name),
        c.subcommands.len(),
    )
}

/// The completion cases of the first `n` subcommands of `c`, whose key is
/// `id`.
pub open spec fn completion_below(c: CommandView, id: Seq<char>, n: nat) -> Seq<char>
    decreases c, 0nat, n,
{
    if n == 0 || n > c.subcommands.len() {
        Seq::empty()
    } else {
        completion_below(c, id, (n - 1) as nat) + completion_cases(c.subcommands[n - 1], id)
    }
}

/// The names under which the binary `bin` may be called: the bare name and
/// the name in the current directory; for Windows also the name of the
/// executable file and both with either kind of path.
pub open spec fn invocation_names(bin: Seq<char>, windows: bool) -> Seq<Seq<char>> {
    let everywhere = seq![bin, seq!['.', '/'] + bin];
    if windows {
        everywhere + seq![
            bin + seq!['.', 'e', 'x', 'e'],
            seq!['.', '\\'] + bin,
            seq!['.', '\\'] + bin + seq!['.', 'e', 'x', 'e'],
            seq!['.', '/'] + bin + seq!['.', 'e', 'x', 'e'],
        ]
    } else {
        everywhere
    }
}

/// The script for the tree below `root`. It registers a completer for every
/// name of the binary. The completer starts from the key of the root, runs
/// the words typed so far through the detection cases, looks up the
/// candidates for the key it arrives at, and hands back those that begin with
/// the word being typed, sorted.
pub open spec fn script(root: CommandView, windows: bool) -> Seq<char> {
    let bin = root.bin_name->0;
    "\n@("@ + quoted_list(invocation_names(bin, windows))
        + ") | %{\n    Register-ArgumentCompleter -Native -CommandName $_ -ScriptBlock {\n        param($wordToComplete, $commandAst, $cursorPosition)\n\n        $command = "@
        + quoted(qualified_id(Seq::empty(), root.name))
        + "\n        $commandAst.CommandElements |\n            Select-Object -Skip 1 |\n            %{\n                switch ($_.ToString()) {\n"@
        + detection_cases(root, Seq::empty())
        + "\n                }\n            }\n\n        $completions = @()\n\n        switch ($command) {\n"@
        + completion_cases(root, Seq::empty())
        + "\n        }\n\n        $completions |\n            ?{ $_ -like \"$wordToComplete*\" } |\n            Sort-Object |\n            %{ New-Object System.Management.Automation.CompletionResult $_, $_, 'ParameterValue', $_ }\n    }\n}\n"@
}

/// The script as the bytes that are written out.
pub open spec fn script_bytes(root: CommandView, windows: bool) -> Seq<u8> {
    vstd::utf8::encode_utf8(script(root, windows))
}

/// The root is known by its bare name, every other command by the key of its
/// parent, an underscore and its own name. Where the root has a name no key
/// is empty, so that no other command is taken for the root.
pub proof fn lemma_keys(previous: Seq<char>, name: Seq<char>)
    ensures
        qualified_id(Seq::empty(), name) == name,
        previous.len() > 0 ==> qualified_id(previous, name) == previous + seq!['_'] + name,
        previous.len() > 0 || name.len() > 0 ==> qualified_id(previous, name).len() > 0,
{
}

/// A root with one subcommand that has none of its own gives one detection
/// case, that for the subcommand, and two completion cases: one under the
/// root's name with the root's candidates, then one under the root's name, an
/// underscore and the subcommand's name with the subcommand's candidates.
pub proof fn lemma_cases_of_one_subcommand(root: CommandView)
    requires
        root.name.len() > 0,
        root.subcommands.len() == 1,
        root.subcommands[0].subcommands.len() == 0,
    ensures
        ({
            let sub = root.subcommands[0];
            let sub_id = root.name + seq!['_'] + sub.name;
            &&& detection_cases(root, Seq::empty()) == detection_case(sub.name)
            &&& completion_cases(root, Seq::empty()) == completion_case(root.name, root)
                + completion_case(sub_id, sub)
        }),
{
    let sub = root.subcommands[0];
    let sub_id = root.name + seq!['_'] + sub.name;
    reveal_with_fuel(detection_below, 3);
    reveal_with_fuel(detection_cases, 3);
    reveal_with_fuel(completion_below, 3);
    reveal_with_fuel(completion_cases, 3);
    assert(detection_cases(sub, root.name) =~= detection_case(sub.name));
    assert(detection_below(root, root.name, 1) =~= detection_case(sub.name));
    assert(detection_cases(root, Seq::empty()) =~= detection_case(sub.name));
    assert(completion_cases(sub, root.name) =~= completion_case(sub_id, sub));
    assert(completion_below(root, root.name, 1) =~= completion_case(sub_id, sub));
}

/// A chain of three commands, each the only subcommand of the one above,
/// gives the detection cases of the second and the third, and three
/// completion cases whose keys grow by an underscore and a name at each step
/// down.
pub proof fn lemma_cases_of_a_chain(top: CommandView)
    requires
        top.name.len() > 0,
        top.subcommands.len() == 1,
        top.subcommands[0].subcommands.len() == 1,
        top.subcommands[0].subcommands[0].subcommands.len() == 0,
    ensures
        ({
            let mid = top.subcommands[0];
            let low = mid.subcommands[0];
            let mid_id = top.name + seq!['_'] + mid.name;
            let low_id = mid_id + seq!['_'] + low.name;
            &&& detection_cases(top, Seq::empty()) == detection_case(mid.name) + detection_case(
                low.name,
            )
            &&& completion_cases(top, Seq::empty()) == completion_case(top.name, top)
                + completion_case(mid_id, mid) + completion_case(low_id, low)
        }),
{
    let mid = top.subcommands[0];
    let low = mid.subcommands[0];
    let mid_id = top.name + seq!['_'] + mid.name;
    let low_id = mid_id + seq!['_'] + low.name;
    reveal_with_fuel(detection_below, 3);
    reveal_with_fuel(detection_cases, 3);
    reveal_with_fuel(completion_below, 3);
    reveal_with_fuel(completion_cases, 3);
    assert(mid_id.len() > 0);
    assert(detection_cases(low, mid_id) =~= detection_case(low.name));
    assert(detection_below(mid, mid_id, 1) =~= detection_case(low.name));
    assert(detection_cases(mid, top.name) =~= detection_case(mid.name) + detection_case(
        low.name,
    ));
    assert(detection_below(top, top.name, 1) =~= detection_cases(mid, top.name));
    assert(detection_cases(top, Seq::empty()) =~= detection_cases(mid, top.name));
    assert(completion_cases(low, mid_id) =~= completion_case(low_id, low));
    assert(completion_below(mid, mid_id, 1) =~= completion_case(low_id, low));
    assert(completion_cases(mid, top.name) =~= completion_case(mid_id, mid) + completion_case(
        low_id,
        low,
    ));
    assert(completion_below(top, top.name, 1) =~= completion_cases(mid, top.name));
    assert(completion_cases(top, Seq::empty()) =~= completion_case(top.name, top)
        + completion_case(mid_id, mid) + completion_case(low_id, low));
}

/// A root without subcommands gives no detection case and one completion
/// case, under its name, with its own flags in the order in which they were
/// declared.
pub proof fn lemma_cases_of_a_leaf(root: CommandView)
    requires
        root.subcommands.len() == 0,
    ensures
        detection_cases(root, Seq::empty()) == Seq::<char>::empty(),
        completion_cases(root, Seq::empty()) == completion_case(root.name, root),
        candidates(root) == Seq::new(root.short_list.len(), |i: int| seq!['-', root.short_list[i]])
            + Seq::new(root.long_list.len(), |i: int| seq!['-', '-'] + root.long_list[i]),
{
    assert(detection_cases(root, Seq::empty()) =~= Seq::<char>::empty());
    assert(completion_cases(root, Seq::empty()) =~= completion_case(root.name, root));
    assert(candidates(root) =~= Seq::new(
        root.short_list.len(),
        |i: int| seq!['-', root.short_list[i]],
    ) + Seq::new(root.long_list.len(), |i: int| seq!['-', '-'] + root.long_list[i]));
}

/// The cases depend on nothing but the tree and the key above it: for two
/// trees that are equal as plain values, below the same key, they are the
/// same texts.
pub proof fn lemma_cases_are_deterministic(first: &Command, second: &Command, previous: Seq<char>)
    requires
        first@ == second@,
    ensures
        detection_cases(first@, previous) == detection_cases(second@, previous),
        completion_cases(first@, previous) == completion_cases(second@, previous),
{
}

/// The script depends on nothing but the tree and the target: two generators
/// for trees that are equal as plain values, with the same target, write the
/// same script, byte for byte.
pub proof fn lemma_generation_is_deterministic(first: PowerShellGen, second: PowerShellGen)
    requires
        first.root() == second.root(),
        first.for_windows() == second.for_windows(),
    ensures
        script(first.root(), first.for_windows()) == script(second.root(), second.for_windows()),
        script_bytes(first.root(), first.for_windows()) == script_bytes(
            second.root(),
            second.for_windows(),
        ),
{
}

/// Appends `s` between single quotes to `out`.
fn push_quoted(out: &mut String, s: &str)
    ensures
        final(out)@ == old(out)@ + quoted(s@),
{
    push_char(out, '\'');
    out.append(s);
    push_char(out, '\'');
    proof {
        assert(out@ =~= old(out)@ + quoted(s@));
    }
}

/// Writes each of `items` between single quotes, a comma and a space between
/// neighbours.
fn write_quoted_list(items: &Vec<String>) -> (out: String)
    ensures
        out@ == quoted_list(items.deep_view()),
{
    let mut marked: Vec<String> = Vec::new();
    let mut i: usize = 0;
    while i < items.len()
        invariant
            i <= items.len(),
            marked.len() == i,
            forall|j: int| 0 <= j < i ==> (#[trigger] marked[j])@ == quoted(items[j]@),
        decreases items.len() - i,
    {
        let mut item = String::new();
        push_quoted(&mut item, items[i].as_str());
        proof {
            assert(item@ =~= quoted(items[i as int]@));
        }
        marked.push(item);
        i += 1;
    }
    proof {
        reveal_strlit(", ");
        assert(", "@ =~= seq![',', ' ']);
        assert(marked.deep_view() =~= Seq::new(
            items.deep_view().len(),
            |i: int| quoted(items.deep_view()[i]),
        ));
    }
    join_strings(&marked, ", ")
}

/// The candidates of `p`, in the order in which the script offers them.
fn list_candidates(p: &Command) -> (list: Vec<String>)
    ensures
        list.deep_view() == candidates(p@),
{
    let mut list: Vec<String> = Vec::new();
    proof {
        p.lemma_view();
    }
    let ghost subs = Seq::new(p@.subcommands.len(), |i: int| p@.subcommands[i].name);
    let ghost shorts = Seq::new(p@.short_list.len(), |i: int| seq!['-', p@.short_list[i]]);
    let ghost longs = Seq::new(p@.long_list.len(), |i: int| seq!['-', '-'] + p@.long_list[i]);
    let mut i: usize = 0;
    while i < p.subcommands.len()
        invariant
            i <= p.subcommands.len(),
            subs == Seq::new(p@.subcommands.len(), |i: int| p@.subcommands[i].name),
            list.deep_view() == subs.take(i as int),
        decreases p.subcommands.len() - i,
    {
        let ghost before = list.deep_view();
        list.push(p.subcommands[i].name.clone());
        proof {
            p.lemma_view();
            p.subcommands[i as int].lemma_view();
            assert(p@.subcommands[i as int] == p.subcommands@[i as int]@);
            assert(list.deep_view() =~= before.push(p.subcommands@[i as int].name@));
            assert(subs.take(i + 1) =~= subs.take(i as int).push(subs[i as int]));
        }
        i += 1;
    }
    proof {
        p.lemma_view();
        assert(subs.take(i as int) =~= subs);
    }
    let mut j: usize = 0;
    while j < p.short_list.len()
        invariant
            j <= p.short_list.len(),
            shorts == Seq::new(p@.short_list.len(), |i: int| seq!['-', p@.short_list[i]]),
            list.deep_view() == subs + shorts.take(j as int),
        decreases p.short_list.len() - j,
    {
        let ghost before = list.deep_view();
        let mut item = String::new();
        push_char(&mut item, '-');
        push_char(&mut item, p.short_list[j]);
        proof {
            p.lemma_view();
            assert(item@ =~= seq!['-', p@.short_list[j as int]]);
        }
        list.push(item);
        proof {
            assert(list.deep_view() =~= before.push(shorts[j as int]));
            assert(shorts.take(j + 1) =~= shorts.take(j as int).push(shorts[j as int]));
            assert(list.deep_view() =~= subs + shorts.take(j + 1));
        }
        j += 1;
    }
    proof {
        p.lemma_view();
        assert(shorts.take(j as int) =~= shorts);
    }
    let mut k: usize = 0;
    while k < p.long_list.len()
        invariant
            k <= p.long_list.len(),
            longs == Seq::new(p@.long_list.len(), |i: int| seq!['-', '-'] + p@.long_list[i]),
            list.deep_view() == subs + shorts + longs.take(k as int),
        decreases p.long_list.len() - k,
    {
        let ghost before = list.deep_view();
        let mut item = String::new();
        push_char(&mut item, '-');
        push_char(&mut item, '-');
        item.append(p.long_list[k]);
        proof {
            p.lemma_view();
            assert(p@.long_list[k as int] == p.long_list@[k as int]@);
            assert(item@ =~= seq!['-', '-'] + p@.long_list[k as int]);
        }
        list.push(item);
        proof {
            assert(list.deep_view() =~= before.push(longs[k as int]));
            assert(longs.take(k + 1) =~= longs.take(k as int).push(longs[k as int]));
            assert(list.deep_view() =~= subs + shorts + longs.take(k + 1));
        }
        k += 1;
    }
    proof {
        p.lemma_view();
        assert(longs.take(k as int) =~= longs);
    }
    list
}

/// The detection cases and the completion cases of the tree below `p`, whose
/// parent has the key `previous_command_name`; above the root stands the
/// empty key.
pub fn generate_inner(p: &Command, previous_command_name: &str) -> (cases: (String, String))
    requires
        previous_command_name@.len() > 0 || p@.name.len() > 0,
    ensures
        cases.0@ == detection_cases(p@, previous_command_name@),
        cases.1@ == completion_cases(p@, previous_command_name@),
    decreases p,
{
    let is_root = previous_command_name.is_empty();
    let mut command_name = String::from_str(previous_command_name);
    if !is_root {
        push_char(&mut command_name, '_');
    }
    command_name.append(p.name.as_str());
    proof {
        p.lemma_view();
        assert(command_name@ =~= qualified_id(previous_command_name@, p@.name));
        assert(command_name@.len() > 0);
    }

    let mut subcommands_detection_cases = String::new();
    if !is_root {
        let mut step = String::new();
        push_char(&mut step, '_');
        step.append(p.name.as_str());
        subcommands_detection_cases.append("\n                    ");
        push_quoted(&mut subcommands_detection_cases, p.name.as_str());
        subcommands_detection_cases.append(" {\n                        $command += ");
        push_quoted(&mut subcommands_detection_cases, step.as_str());
        subcommands_detection_cases.append(
            "\n                        break\n                    }\n",
        );
        proof {
            assert(step@ =~= seq!['_'] + p@.name);
            assert(subcommands_detection_cases@ =~= detection_case(p@.name));
        }
    }
    let ghost own_detection = subcommands_detection_cases@;

    let completions = write_quoted_list(&list_candidates(p));

    let mut subcommands_cases = String::from_str("\n            ");
    push_quoted(&mut subcommands_cases, command_name.as_str());
    subcommands_cases.append(" {\n                $completions = @(");
    subcommands_cases.append(completions.as_str());
    subcommands_cases.append(")\n            }\n");
    proof {
        assert(subcommands_cases@ =~= completion_case(command_name@, p@));
    }
    let ghost own_case = subcommands_cases@;

    let mut i: usize = 0;
    while i < p.subcommands.len()
        invariant
            i <= p.subcommands.len(),
            p@.subcommands.len() == p.subcommands.len(),
            command_name@.len() > 0,
            subcommands_detection_cases@ == own_detection + detection_below(
                p@,
                command_name@,
                i as nat,
            ),
            subcommands_cases@ == own_case + completion_below(p@, command_name@, i as nat),
        decreases p.subcommands.len() - i,
    {
        let subcommand = &p.subcommands[i];
        let (below_detection, below_cases) = generate_inner(subcommand, command_name.as_str());
        subcommands_detection_cases.append(below_detection.as_str());
        subcommands_cases.append(below_cases.as_str());
        proof {
            p.lemma_view();
            assert(p@.subcommands[i as int] == subcommand@);
            assert(subcommands_detection_cases@ =~= own_detection + detection_below(
                p@,
                command_name@,
                (i + 1) as nat,
            ));
            assert(subcommands_cases@ =~= own_case + completion_below(
                p@,
                command_name@,
                (i + 1) as nat,
            ));
        }
        i += 1;
    }
    (subcommands_detection_cases, subcommands_cases)
}

/// The generator of the completion script for one tree of commands.
pub struct PowerShellGen<'a, 'b> where 'a: 'b {
    p: &'b Command<'a>,
    windows: bool,
}

impl<'a, 'b> PowerShellGen<'a, 'b> {
    /// The root of the tree that the script is written for.
    pub closed spec fn root(&self) -> CommandView {
        self.p@
    }

    /// Whether the script also serves the names that a binary has on Windows.
    pub closed spec fn for_windows(&self) -> bool {
        self.windows
    }

    /// A generator for the tree below `p`, without the Windows names.
    pub fn new(p: &'b Command<'a>) -> (gen: Self)
        ensures
            gen.root() == p@,
            !gen.for_windows(),
    {
        PowerShellGen { p, windows: false }
    }

    /// The same generator, with the Windows names if `yes`.
    pub fn windows(self, yes: bool) -> (gen: Self)
        ensures
            gen.root() == self.root(),
            gen.for_windows() == yes,
    {
        PowerShellGen { p: self.p, windows: yes }
    }

    /// The names under which the binary may be called.
    fn bin_names(&self, bin_name: &str) -> (names: Vec<String>)
        ensures
            names.deep_view() == invocation_names(bin_name@, self.for_windows()),
    {
        let mut names: Vec<String> = Vec::new();
        names.push(String::from_str(bin_name));
        let mut here = String::from_str("./");
        here.append(bin_name);
        names.push(here);
        proof {
            reveal_strlit("./");
            reveal_strlit(".exe");
            reveal_strlit(".\\");
            assert("./"@ =~= seq!['.', '/']);
            assert(".exe"@ =~= seq!['.', 'e', 'x', 'e']);
            assert(".\\"@ =~= seq!['.', '\\']);
        }
        if self.windows {
            let mut exe = String::from_str(bin_name);
            exe.append(".exe");
            names.push(exe);
            let mut back = String::from_str(".\\");
            back.append(bin_name);
            names.push(back);
            let mut back_exe = String::from_str(".\\");
            back_exe.append(bin_name);
            back_exe.append(".exe");
            names.push(back_exe);
            let mut here_exe = String::from_str("./");
            here_exe.append(bin_name);
            here_exe.append(".exe");
            names.push(here_exe);
        }
        proof {
            assert(names.deep_view() =~= invocation_names(bin_name@, self.for_windows()));
        }
        names
    }

    /// The completion script for a tree whose root has a name and a binary
    /// name.
    pub fn generate(&self) -> (text: String)
        requires
            self.root().bin_name is Some,
            self.root().name.len() > 0,
        ensures
            text@ == script(self.root(), self.for_windows()),
    {
        proof {
            self.p.lemma_view();
        }
        let bin_name = match &self.p.bin_name {
            Some(name) => name.as_str(),
            None => "",
        };
        let (subcommands_detection_cases, subcommands_cases) = generate_inner(self.p, "");
        proof {
            reveal_strlit("");
            assert(""@ =~= Seq::<char>::empty());
        }
        let bin_names = write_quoted_list(&self.bin_names(bin_name));

        let mut result = String::from_str("\n@(");
        result.append(bin_names.as_str());
        result.append(
            ") | %{\n    Register-ArgumentCompleter -Native -CommandName $_ -ScriptBlock {\n        param($wordToComplete, $commandAst, $cursorPosition)\n\n        $command = ",
        );
        push_quoted(&mut result, self.p.name.as_str());
        result.append(
            "\n        $commandAst.CommandElements |\n            Select-Object -Skip 1 |\n            %{\n                switch ($_.ToString()) {\n",
        );
        result.append(subcommands_detection_cases.as_str());
        result.append(
            "\n                }\n            }\n\n        $completions = @()\n\n        switch ($command) {\n",
        );
        result.append(subcommands_cases.as_str());
        result.append(
            "\n        }\n\n        $completions |\n            ?{ $_ -like \"$wordToComplete*\" } |\n            Sort-Object |\n            %{ New-Object System.Management.Automation.CompletionResult $_, $_, 'ParameterValue', $_ }\n    }\n}\n",
        );
        result
    }

    /// Appends the completion script to `buf`, for a tree whose root has a
    /// name and a binary name.
    pub fn generate_to(&self, buf: &mut Vec<u8>)
        requires
            self.root().bin_name is Some,
            self.root().name.len() > 0,
        ensures
            final(buf)@ == old(buf)@ + script_bytes(self.root(), self.for_windows()),
    {
        let result = self.generate();
        let bytes = result.as_str().as_bytes();
        buf.extend_from_slice(bytes);
        proof {
            assert(buf@ =~= old(buf)@ + script_bytes(self.root(), self.for_windows()));
        }
    }
}

} // verus!
