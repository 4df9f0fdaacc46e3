use argspec::completions::powershell::generate_inner;
use argspec::completions::{Command, PowerShellGen};

fn framed(bin_names: &str, root_key: &str, detection: &str, cases: &str) -> String {
    format!(
        "\n@({}) | %{{\n    Register-ArgumentCompleter -Native -CommandName $_ -ScriptBlock {{\n        \
         param($wordToComplete, $commandAst, $cursorPosition)\n\n        $command = '{}'\n        \
         $commandAst.CommandElements |\n            Select-Object -Skip 1 |\n            %{{\n                \
         switch ($_.ToString()) {{\n{}\n                }}\n            }}\n\n        $completions = \
         @()\n\n        switch ($command) {{\n{}\n        }}\n\n        $completions |\n            ?{{ $_ \
         -like \"$wordToComplete*\" }} |\n            Sort-Object |\n            %{{ New-Object \
         System.Management.Automation.CompletionResult $_, $_, 'ParameterValue', $_ }}\n    }}\n}}\n",
        bin_names, root_key, detection, cases
    )
}

fn detection(name: &str) -> String {
    format!(
        "\n                    '{0}' {{\n                        $command += '_{0}'\n                        \
         break\n                    }}\n",
        name
    )
}

fn case(id: &str, candidates: &str) -> String {
    format!(
        "\n            '{}' {{\n                $completions = @({})\n            }}\n",
        id, candidates
    )
}

fn count(text: &str, part: &str) -> usize {
    text.matches(part).count()
}

fn root(name: &str) -> Command<'static> {
    let mut c = Command::new(name);
    c.bin_name = Some(name.to_string());
    c
}

#[test]
fn script_for_a_root_with_one_subcommand() {
    let mut app = root("app");
    app.subcommands.push(Command::new("sub"));

    let text = PowerShellGen::new(&app).generate();

    assert_eq!(
        text,
        "\n@('app', './app') | %{\n    Register-ArgumentCompleter -Native -CommandName $_ -ScriptBlock {\n        param($wordToComplete, $commandAst, $cursorPosition)\n\n        $command = 'app'\n        $commandAst.CommandElements |\n            Select-Object -Skip 1 |\n            %{\n                switch ($_.ToString()) {\n\n                    'sub' {\n                        $command += '_sub'\n                        break\n                    }\n\n                }\n            }\n\n        $completions = @()\n\n        switch ($command) {\n\n            'app' {\n                $completions = @('sub')\n            }\n\n            'app_sub' {\n                $completions = @()\n            }\n\n        }\n\n        $completions |\n            ?{ $_ -like \"$wordToComplete*\" } |\n            Sort-Object |\n            %{ New-Object System.Management.Automation.CompletionResult $_, $_, 'ParameterValue', $_ }\n    }\n}\n"
    );
    assert_eq!(count(&text, "$command += '_"), 1);
    assert_eq!(count(&text, "$command += '_sub'"), 1);
    assert_eq!(count(&text, "                $completions = @("), 2);
    assert_eq!(count(&text, "\n            'app' {\n                $completions = @('sub')\n"), 1);
    assert_eq!(count(&text, "\n            'app_sub' {\n                $completions = @()\n"), 1);
    assert_eq!(count(&text, "$command = 'app'\n"), 1);
}

#[test]
fn script_for_git_commit() {
    let mut commit = Command::new("commit");
    commit.long_list.push("message");
    let mut git = root("git");
    git.subcommands.push(commit);

    let text = PowerShellGen::new(&git).generate();

    assert_eq!(
        text,
        framed(
            "'git', './git'",
            "git",
            &detection("commit"),
            &(case("git", "'commit'") + &case("git_commit", "'--message'")),
        )
    );
    assert!(text.contains("\n            'git' {\n                $completions = @('commit')\n"));
    assert!(text
        .contains("\n            'git_commit' {\n                $completions = @('--message')\n"));
    assert!(text.contains("$command = 'git'\n"));
}

#[test]
fn script_for_a_leaf_on_windows() {
    let mut tool = root("tool");
    tool.short_list.push('v');
    tool.short_list.push('h');
    tool.long_list.push("verbose");

    let text = PowerShellGen::new(&tool).windows(true).generate();

    assert_eq!(
        text,
        framed(
            "'tool', './tool', 'tool.exe', '.\\tool', '.\\tool.exe', './tool.exe'",
            "tool",
            "",
            &case("tool", "'-v', '-h', '--verbose'"),
        )
    );
}

#[test]
fn script_goes_down_the_tree_depth_first() {
    let mut c = Command::new("c");
    c.short_list.push('c');
    let mut b = Command::new("b");
    b.long_list.push("bb");
    b.subcommands.push(c);
    let mut a = root("a");
    a.short_list.push('x');
    a.subcommands.push(b);
    a.subcommands.push(Command::new("d"));

    let text = PowerShellGen::new(&a).windows(false).generate();

    assert_eq!(
        text,
        framed(
            "'a', './a'",
            "a",
            &(detection("b") + &detection("c") + &detection("d")),
            &(case("a", "'b', 'd', '-x'")
                + &case("a_b", "'c', '--bb'")
                + &case("a_b_c", "'-c'")
                + &case("a_d", "")),
        )
    );
}

#[test]
fn candidates_are_neither_sorted_nor_deduplicated() {
    let mut app = root("app");
    app.short_list.push('z');
    app.short_list.push('a');
    app.short_list.push('z');
    app.long_list.push("zeta");
    app.long_list.push("alpha");

    let text = PowerShellGen::new(&app).generate();

    assert!(text.contains("$completions = @('-z', '-a', '-z', '--zeta', '--alpha')\n"));
}

#[test]
fn the_key_of_the_root_seeds_the_running_key() {
    let mut app = Command::new("app");
    app.bin_name = Some("my-app".to_string());
    app.short_list.push('q');

    let text = PowerShellGen::new(&app).generate();

    assert_eq!(text, framed("'my-app', './my-app'", "app", "", &case("app", "'-q'")));
    assert!(text.contains("$command = 'app'\n"));
    assert!(text.contains("\n            'app' {\n"));
}

#[test]
fn cases_of_a_root_with_one_subcommand() {
    let mut sub = Command::new("sub");
    sub.short_list.push('f');
    sub.long_list.push("force");
    let mut app = Command::new("app");
    app.short_list.push('v');
    app.long_list.push("verbose");
    app.subcommands.push(sub);

    let (found, offered) = generate_inner(&app, "");

    assert_eq!(found, detection("sub"));
    assert_eq!(
        offered,
        case("app", "'sub', '-v', '--verbose'") + &case("app_sub", "'-f', '--force'")
    );
}

#[test]
fn cases_of_a_chain() {
    let mut b = Command::new("b");
    b.subcommands.push(Command::new("c"));
    let mut a = Command::new("a");
    a.subcommands.push(b);

    let (found, offered) = generate_inner(&a, "");

    assert_eq!(found, detection("b") + &detection("c"));
    assert_eq!(offered, case("a", "'b'") + &case("a_b", "'c'") + &case("a_b_c", ""));
}

#[test]
fn cases_of_a_root_alone() {
    let mut app = Command::new("app");
    app.short_list.push('z');
    app.short_list.push('a');
    app.short_list.push('z');
    app.long_list.push("zeta");
    app.long_list.push("alpha");

    let (found, offered) = generate_inner(&app, "");

    assert_eq!(found, "");
    assert_eq!(offered, case("app", "'-z', '-a', '-z', '--zeta', '--alpha'"));
}

#[test]
fn cases_below_a_key() {
    let mut sub = Command::new("sub");
    sub.long_list.push("all");

    let (found, offered) = generate_inner(&sub, "app_mid");

    assert_eq!(found, detection("sub"));
    assert_eq!(offered, case("app_mid_sub", "'--all'"));
}

#[test]
fn cases_are_the_same_on_every_call() {
    let mut app = Command::new("app");
    app.subcommands.push(Command::new("sub"));

    let first = generate_inner(&app, "");
    let second = generate_inner(&app, "");

    assert_eq!(first, second);
    assert_eq!(app.name, "app");
    assert_eq!(app.subcommands.len(), 1);
}

#[test]
fn generating_twice_gives_the_same_script() {
    let mut commit = Command::new("commit");
    commit.long_list.push("message");
    let mut git = root("git");
    git.subcommands.push(commit);
    let gen = PowerShellGen::new(&git);

    let first = gen.generate();
    let second = gen.generate();
    let mut first_bytes = Vec::new();
    gen.generate_to(&mut first_bytes);
    let mut second_bytes = Vec::new();
    PowerShellGen::new(&git).generate_to(&mut second_bytes);

    assert_eq!(first, second);
    assert_eq!(first_bytes, second_bytes);
}

#[test]
fn generate_to_appends_the_bytes_of_the_script() {
    let mut app = root("käse");
    app.long_list.push("größe");
    let gen = PowerShellGen::new(&app);
    let mut buf = b"# head\n".to_vec();

    gen.generate_to(&mut buf);

    let mut expected = b"# head\n".to_vec();
    expected.extend_from_slice(gen.generate().as_bytes());
    assert_eq!(buf, expected);
    assert_eq!(
        gen.generate(),
        framed("'käse', './käse'", "käse", "", &case("käse", "'--größe'"))
    );
}

#[test]
fn a_new_command_is_empty() {
    let c = Command::new("c");

    assert_eq!(c.name, "c");
    assert_eq!(c.bin_name, None);
    assert!(c.subcommands.is_empty());
    assert!(c.short_list.is_empty());
    assert!(c.long_list.is_empty());
}
