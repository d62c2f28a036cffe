//! Translation of a few common Unix shell commands into PowerShell.

use vstd::prelude::*;
use crate::text::{
    decimal, eq_str, parse_usize, parse_usize_spec, push_str, starts_with_char, string_of,
    usize_to_decimal, chars_of,
};
use crate::justify::{split_whitespace, strings_view, words};

verus! {

/// A shell command cut into its name, its flags (words that start with `-`)
/// and its other arguments, each in the order given.
#[derive(Debug, Clone)]
pub struct ParsedCommand {
    pub command: String,
    pub flags: Vec<String>,
    pub args: Vec<String>,
}

/// Whether a word is a flag: it starts with `-`.
pub open spec fn is_flag(w: Seq<char>) -> bool {
    w.len() > 0 && w[0] == '-'
}

/// The words of `ws` that are flags (`want_flags`) or that are not, in order.
pub open spec fn select_words(ws: Seq<Seq<char>>, want_flags: bool) -> Seq<Seq<char>>
    decreases ws.len(),
{
    if ws.len() == 0 {
        seq![]
    } else if is_flag(ws.last()) == want_flags {
        select_words(ws.drop_last(), want_flags).push(ws.last())
    } else {
        select_words(ws.drop_last(), want_flags)
    }
}

/// Strings joined with a separator between each two.
pub open spec fn join_with(ss: Seq<Seq<char>>, sep: Seq<char>) -> Seq<char>
    decreases ss.len(),
{
    if ss.len() == 0 {
        seq![]
    } else if ss.len() == 1 {
        ss[0]
    } else {
        join_with(ss.drop_last(), sep) + sep + ss.last()
    }
}

impl ParsedCommand {
    /// The name of the command.
    pub open spec fn name(self) -> Seq<char> {
        self.command@
    }

    /// The flags, in order.
    pub open spec fn flag_words(self) -> Seq<Seq<char>> {
        strings_view(self.flags@)
    }

    /// The other arguments, in order.
    pub open spec fn arg_words(self) -> Seq<Seq<char>> {
        strings_view(self.args@)
    }

    /// Cuts `cmd` into words at whitespace; the first word is the command's
    /// name and the others are sorted into flags and arguments. A command
    /// with no word gives `None`.
    pub fn parse(cmd: &str) -> (r: Option<Self>)
        ensures
            r is None <==> words(cmd@).len() == 0,
            r matches Some(p) ==> {
                &&& p.name() == words(cmd@)[0]
                &&& p.flag_words() == select_words(words(cmd@).drop_first(), true)
                &&& p.arg_words() == select_words(words(cmd@).drop_first(), false)
            },
    {
        let parts = split_whitespace(cmd);
        let ghost ws = words(cmd@);
        if parts.len() == 0 {
            return None;
        }
        let command = parts[0].clone();
        let mut flags: Vec<String> = Vec::new();
        let mut args: Vec<String> = Vec::new();
        let mut i: usize = 1;
        while i < parts.len()
            invariant
                1 <= i <= parts@.len(),
                strings_view(parts@) == ws,
                strings_view(flags@) == select_words(ws.drop_first().take(i - 1), true),
                strings_view(args@) == select_words(ws.drop_first().take(i - 1), false),
            decreases parts@.len() - i,
        {
            let part = parts[i].clone();
            let ghost pv = part@;
            assert(ws[i as int] == pv);
            assert(ws.drop_first().take(i as int).drop_last() == ws.drop_first().take(i - 1));
            assert(ws.drop_first().take(i as int).last() == pv);
            if starts_with_char(part.as_str(), '-') {
                let ghost old = strings_view(flags@);
                flags.push(part);
                assert(strings_view(flags@) == old.push(pv));
            } else {
                let ghost old = strings_view(args@);
                args.push(part);
                assert(strings_view(args@) == old.push(pv));
            }
            i = i + 1;
        }
        assert(ws.drop_first().take(i - 1) == ws.drop_first());
        Some(ParsedCommand { command, flags, args })
    }
}

// ---------------------------------------------------------------------------
// Specification of the translations
// ---------------------------------------------------------------------------

/// The text of `ls` in PowerShell.
pub open spec fn ls_spec(flags: Seq<Seq<char>>, args: Seq<Seq<char>>) -> Seq<char> {
    let table = flags.contains("-l"@) || flags.contains("-la"@) || flags.contains("-al"@);
    let hidden = flags.contains("-la"@) || flags.contains("-al"@) || flags.contains("-a"@);
    "Get-ChildItem"@ + (if args.len() > 0 {
        " -Path "@ + join_with(args, ", "@)
    } else {
        seq![]
    }) + (if hidden {
        " -Force"@
    } else {
        seq![]
    }) + (if table {
        " | Format-Table Mode, LastWriteTime, Length, Name"@
    } else {
        " | Select-Object -ExpandProperty Name"@
    })
}

/// The text of `cat` in PowerShell.
pub open spec fn cat_spec(flags: Seq<Seq<char>>, args: Seq<Seq<char>>) -> Seq<char> {
    "Get-Content"@ + (if args.len() > 0 {
        " "@ + join_with(args, " "@)
    } else {
        seq![]
    }) + (if flags.contains("-n"@) {
        " | Select-Object @{Name='LineNumber';Expression={$_.ReadCount}}, @{Name='Line';Expression={$_}}"@
    } else {
        seq![]
    })
}

/// What each `grep` flag adds, in the order of the flags.
pub open spec fn grep_flag_options(flags: Seq<Seq<char>>) -> Seq<char>
    decreases flags.len(),
{
    if flags.len() == 0 {
        seq![]
    } else {
        grep_flag_options(flags.drop_last()) + (if flags.last() == "-i"@ {
            " -CaseSensitive:$false"@
        } else if flags.last() == "-v"@ {
            " -NotMatch"@
        } else {
            seq![]
        })
    }
}

/// The text of `grep` in PowerShell: it needs a pattern and a file.
pub open spec fn grep_spec(flags: Seq<Seq<char>>, args: Seq<Seq<char>>) -> Seq<char> {
    if args.len() < 2 {
        "Select-String"@
    } else {
        "Select-String -Pattern \""@ + args[0] + "\" -Path \""@ + args[1] + "\""@
            + grep_flag_options(flags) + (if flags.contains("-n"@) {
            " | Format-Table LineNumber, Line"@
        } else {
            seq![]
        })
    }
}

/// Whether `head` or `tail` is given its count as a separate argument: a
/// flag `-n` with at least two arguments, the count and then the file.
pub open spec fn count_is_argument(flags: Seq<Seq<char>>, args: Seq<Seq<char>>) -> bool {
    flags.contains("-n"@) && args.len() >= 2
}

/// The line count that the first `k` flags of `head` or `tail` give: ten
/// unless a flag sets it. `-n` takes the first argument as the count when
/// the file follows it as a second argument; `-nN` gives `N`. A count that
/// does not parse leaves the previous one.
pub open spec fn line_count_spec(flags: Seq<Seq<char>>, args: Seq<Seq<char>>, k: int) -> usize
    decreases k,
{
    if k <= 0 {
        10
    } else {
        let prev = line_count_spec(flags, args, k - 1);
        let f = flags[k - 1];
        if f == "-n"@ && args.len() >= 2 {
            match parse_usize_spec(args[0]) {
                Some(n) => n,
                None => prev,
            }
        } else if f.len() > 2 && f[0] == '-' && f[1] == 'n' {
            match parse_usize_spec(f.skip(2)) {
                Some(n) => n,
                None => prev,
            }
        } else {
            prev
        }
    }
}

/// `Get-Content`, the file (the second argument when the count is given
/// as the first, see `count_is_argument`, else the first argument if
/// any), then the option that selects the lines.
pub open spec fn head_tail_spec(
    flags: Seq<Seq<char>>,
    args: Seq<Seq<char>>,
    option: Seq<char>,
) -> Seq<char> {
    "Get-Content"@ + (if count_is_argument(flags, args) {
        " "@ + args[1]
    } else if args.len() > 0 {
        " "@ + args[0]
    } else {
        seq![]
    }) + option + decimal(line_count_spec(flags, args, flags.len() as int) as nat)
}

/// The PowerShell text for a shell command line.
pub open spec fn translate_spec(cmd: Seq<char>) -> Seq<char> {
    let ws = words(cmd);
    if ws.len() == 0 {
        cmd
    } else {
        let name = ws[0];
        let flags = select_words(ws.drop_first(), true);
        let args = select_words(ws.drop_first(), false);
        if name == "ls"@ {
            ls_spec(flags, args)
        } else if name == "cat"@ {
            cat_spec(flags, args)
        } else if name == "grep"@ {
            grep_spec(flags, args)
        } else if name == "pwd"@ {
            "Get-Location"@
        } else if name == "head"@ {
            head_tail_spec(flags, args, " -First "@)
        } else if name == "tail"@ {
            head_tail_spec(flags, args, " -Tail "@)
        } else {
            cmd
        }
    }
}

// ---------------------------------------------------------------------------
// Implementation
// ---------------------------------------------------------------------------

/// Whether some string of `v` equals `w`.
fn contains_word(v: &Vec<String>, w: &str) -> (r: bool)
    ensures
        r == strings_view(v@).contains(w@),
{
    let mut i: usize = 0;
    while i < v.len()
        invariant
            i <= v@.len(),
            forall|k: int| 0 <= k < i ==> v@[k]@ != w@,
        decreases v@.len() - i,
    {
        if eq_str(v[i].as_str(), w) {
            assert(strings_view(v@)[i as int] == w@);
            return true;
        }
        i = i + 1;
    }
    assert forall|k: int| 0 <= k < strings_view(v@).len() implies strings_view(v@)[k] != w@ by {
        assert(strings_view(v@)[k] == v@[k]@);
    }
    false
}

/// Appends the strings of `v` to `s`, with `sep` between each two.
fn push_joined(s: &mut String, v: &Vec<String>, sep: &str)
    ensures
        final(s)@ == old(s)@ + join_with(strings_view(v@), sep@),
{
    let ghost start = s@;
    let ghost sv = strings_view(v@);
    let mut i: usize = 0;
    while i < v.len()
        invariant
            i <= v@.len(),
            sv == strings_view(v@),
            s@ == start + join_with(sv.take(i as int), sep@),
        decreases v@.len() - i,
    {
        if i > 0 {
            push_str(s, sep);
        }
        push_str(s, v[i].as_str());
        i = i + 1;
        assert(sv.take(i as int).drop_last() == sv.take(i - 1));
        assert(sv.take(i as int).last() == v@[i - 1]@);
        if i == 1 {
            assert(sv.take(1) == seq![v@[0]@]);
        }
    }
    assert(sv.take(i as int) == sv);
}

fn translate_ls(parsed: &ParsedCommand) -> (r: String)
    ensures
        r@ == ls_spec(parsed.flag_words(), parsed.arg_words()),
{
    let table = contains_word(&parsed.flags, "-l") || contains_word(&parsed.flags, "-la")
        || contains_word(&parsed.flags, "-al");
    let hidden = contains_word(&parsed.flags, "-la") || contains_word(&parsed.flags, "-al")
        || contains_word(&parsed.flags, "-a");
    let mut ps = string_of("Get-ChildItem");
    if parsed.args.len() > 0 {
        push_str(&mut ps, " -Path ");
        push_joined(&mut ps, &parsed.args, ", ");
    }
    if hidden {
        push_str(&mut ps, " -Force");
    }
    if table {
        push_str(&mut ps, " | Format-Table Mode, LastWriteTime, Length, Name");
    } else {
        push_str(&mut ps, " | Select-Object -ExpandProperty Name");
    }
    ps
}

fn translate_cat(parsed: &ParsedCommand) -> (r: String)
    ensures
        r@ == cat_spec(parsed.flag_words(), parsed.arg_words()),
{
    let mut ps = string_of("Get-Content");
    if parsed.args.len() > 0 {
        push_str(&mut ps, " ");
        push_joined(&mut ps, &parsed.args, " ");
    }
    if contains_word(&parsed.flags, "-n") {
        push_str(
            &mut ps,
            " | Select-Object @{Name='LineNumber';Expression={$_.ReadCount}}, @{Name='Line';Expression={$_}}",
        );
    }
    ps
}

fn translate_grep(parsed: &ParsedCommand) -> (r: String)
    ensures
        r@ == grep_spec(parsed.flag_words(), parsed.arg_words()),
{
    if parsed.args.len() < 2 {
        return string_of("Select-String");
    }
    let ghost fv = parsed.flag_words();
    let mut ps = string_of("Select-String -Pattern \"");
    push_str(&mut ps, parsed.args[0].as_str());
    push_str(&mut ps, "\" -Path \"");
    push_str(&mut ps, parsed.args[1].as_str());
    push_str(&mut ps, "\"");
    let ghost head = ps@;
    let mut show_line_numbers = false;
    let mut i: usize = 0;
    while i < parsed.flags.len()
        invariant
            i <= fv.len(),
            fv == parsed.flag_words(),
            ps@ == head + grep_flag_options(fv.take(i as int)),
            show_line_numbers == fv.take(i as int).contains("-n"@),
        decreases fv.len() - i,
    {
        let flag = parsed.flags[i].as_str();
        let ghost f = fv[i as int];
        let ghost before = ps@;
        let ghost t = fv.take(i + 1);
        assert(flag@ == f);
        assert(t.drop_last() == fv.take(i as int));
        assert(t.last() == f);
        assert(grep_flag_options(t) == grep_flag_options(fv.take(i as int)) + (if f == "-i"@ {
            " -CaseSensitive:$false"@
        } else if f == "-v"@ {
            " -NotMatch"@
        } else {
            Seq::<char>::empty()
        }));
        proof {
            lemma_grep_flags_distinct();
            lemma_contains_push(fv.take(i as int), f, "-n"@);
        }
        if eq_str(flag, "-i") {
            push_str(&mut ps, " -CaseSensitive:$false");
        } else if eq_str(flag, "-n") {
            show_line_numbers = true;
            assert(before + Seq::<char>::empty() == before);

        } else if eq_str(flag, "-v") {
            push_str(&mut ps, " -NotMatch");
        } else {
            assert(before + Seq::<char>::empty() == before);
        }
        assert(ps@ =~= head + grep_flag_options(t));
        assert(show_line_numbers == t.contains("-n"@));
        i = i + 1;
    }
    assert(fv.take(i as int) == fv);
    if show_line_numbers {
        push_str(&mut ps, " | Format-Table LineNumber, Line");
    }
    ps
}

proof fn lemma_grep_flags_distinct()
    ensures
        "-i"@ != "-n"@,
        "-i"@ != "-v"@,
        "-n"@ != "-v"@,
{
    reveal_strlit("-i");
    reveal_strlit("-n");
    reveal_strlit("-v");
    assert("-i"@[1] != "-n"@[1]);
    assert("-i"@[1] != "-v"@[1]);
    assert("-n"@[1] != "-v"@[1]);
}

proof fn lemma_contains_push(s: Seq<Seq<char>>, x: Seq<char>, w: Seq<char>)
    ensures
        s.push(x).contains(w) == (s.contains(w) || x == w),
{
    if s.push(x).contains(w) {
        let k = choose|k: int| 0 <= k < s.push(x).len() && s.push(x)[k] == w;
        if k < s.len() {
            assert(s[k] == w);
        }
    }
    if s.contains(w) {
        let k = choose|k: int| 0 <= k < s.len() && s[k] == w;
        assert(s.push(x)[k] == w);
    }
    if x == w {
        assert(s.push(x)[s.len() as int] == w);
    }
}

/// The count that `head` and `tail` take from their flags.
fn line_count(parsed: &ParsedCommand) -> (n: usize)
    ensures
        n == line_count_spec(
            parsed.flag_words(),
            parsed.arg_words(),
            parsed.flag_words().len() as int,
        ),
{
    let ghost fv = parsed.flag_words();
    let ghost av = parsed.arg_words();
    let mut count: usize = 10;
    let mut i: usize = 0;
    while i < parsed.flags.len()
        invariant
            i <= fv.len(),
            fv == parsed.flag_words(),
            av == parsed.arg_words(),
            count == line_count_spec(fv, av, i as int),
        decreases fv.len() - i,
    {
        let flag = parsed.flags[i].as_str();
        assert(flag@ == fv[i as int]);
        if eq_str(flag, "-n") && parsed.args.len() >= 2 {
            let a0 = chars_of(parsed.args[0].as_str());
            assert(a0@ == av[0]);
            if let Some(n) = parse_usize(a0.as_slice()) {
                count = n;
            }
        } else {
            let fc = chars_of(flag);
            if fc.len() > 2 && fc[0] == '-' && fc[1] == 'n' {
                let mut rest: Vec<char> = Vec::new();
                let mut j: usize = 2;
                while j < fc.len()
                    invariant
                        2 <= j <= fc@.len(),
                        rest@ == fc@.subrange(2, j as int),
                    decreases fc@.len() - j,
                {
                    rest.push(fc[j]);
                    j = j + 1;
                    assert(rest@ == fc@.subrange(2, j as int));
                }
                assert(rest@ == fc@.skip(2));
                if let Some(n) = parse_usize(rest.as_slice()) {
                    count = n;
                }
            }
        }
        i = i + 1;
    }
    count
}

fn translate_head_tail(parsed: &ParsedCommand, option: &str) -> (r: String)
    ensures
        r@ == head_tail_spec(parsed.flag_words(), parsed.arg_words(), option@),
{
    let mut ps = string_of("Get-Content");
    if parsed.args.len() >= 2 && contains_word(&parsed.flags, "-n") {
        push_str(&mut ps, " ");
        push_str(&mut ps, parsed.args[1].as_str());
    } else if parsed.args.len() > 0 {
        push_str(&mut ps, " ");
        push_str(&mut ps, parsed.args[0].as_str());
    }
    let n = line_count(parsed);
    push_str(&mut ps, option);
    let digits = usize_to_decimal(n);
    push_str(&mut ps, digits.as_str());
    ps
}

fn translate_head(parsed: &ParsedCommand) -> (r: String)
    ensures
        r@ == head_tail_spec(parsed.flag_words(), parsed.arg_words(), " -First "@),
{
    translate_head_tail(parsed, " -First ")
}

fn translate_tail(parsed: &ParsedCommand) -> (r: String)
    ensures
        r@ == head_tail_spec(parsed.flag_words(), parsed.arg_words(), " -Tail "@),
{
    translate_head_tail(parsed, " -Tail ")
}

/// Translates a Unix command line into PowerShell (see `translate_spec`).
/// Commands other than `ls`, `cat`, `grep`, `pwd`, `head` and `tail` are
/// returned unchanged.
pub fn translate_command_for_windows(cmd: &str) -> (r: String)
    ensures
        r@ == translate_spec(cmd@),
{
    let parsed = match ParsedCommand::parse(cmd) {
        Some(p) => p,
        None => return string_of(cmd),
    };
    let name = parsed.command.as_str();
    if eq_str(name, "ls") {
        translate_ls(&parsed)
    } else if eq_str(name, "cat") {
        translate_cat(&parsed)
    } else if eq_str(name, "grep") {
        translate_grep(&parsed)
    } else if eq_str(name, "pwd") {
        string_of("Get-Location")
    } else if eq_str(name, "head") {
        translate_head(&parsed)
    } else if eq_str(name, "tail") {
        translate_tail(&parsed)
    } else {
        string_of(cmd)
    }
}

/// A combined `ls` flag `-la` or `-al` translates as `-l` and `-a` given
/// separately: the listing is a table and hidden entries are shown.
pub proof fn lemma_ls_combined_flag(flags: Seq<Seq<char>>, args: Seq<Seq<char>>, i: int)
    requires
        0 <= i < flags.len(),
        flags[i] == "-la"@ || flags[i] == "-al"@,
    ensures
        ls_spec(flags, args) == ls_spec(flags.update(i, "-l"@).push("-a"@), args),
{
    let g = flags.update(i, "-l"@).push("-a"@);
    assert(g[i] == "-l"@);
    assert(g[g.len() - 1] == "-a"@);
    assert(g.contains("-l"@));
    assert(g.contains("-a"@));
    assert(flags.contains(flags[i]));
}

/// The letters of a combined `ls` flag may come in either order: `-al`
/// and `-la` translate alike.
pub proof fn lemma_ls_flag_order(flags: Seq<Seq<char>>, args: Seq<Seq<char>>, i: int)
    requires
        0 <= i < flags.len(),
    ensures
        ls_spec(flags.update(i, "-al"@), args) == ls_spec(flags.update(i, "-la"@), args),
{
    let fa = flags.update(i, "-al"@);
    let fl = flags.update(i, "-la"@);
    lemma_ls_combined_flag(fa, args, i);
    lemma_ls_combined_flag(fl, args, i);
    assert(fa.update(i, "-l"@) =~= fl.update(i, "-l"@));
}

/// Adding `-a` to `ls` flags that already show hidden entries (`-a`,
/// `-la` or `-al`) changes nothing, and adding it to flags that do not
/// changes the translation: `-a`, `-la` and `-al` are exactly the flags
/// that show hidden entries.
pub proof fn lemma_ls_hidden_flags(flags: Seq<Seq<char>>, args: Seq<Seq<char>>)
    ensures
        (flags.contains("-a"@) || flags.contains("-la"@) || flags.contains("-al"@)) <==> ls_spec(
            flags.push("-a"@),
            args,
        ) == ls_spec(flags, args),
{
    let g = flags.push("-a"@);
    assert(g[g.len() - 1] == "-a"@);
    assert(g.contains("-a"@));
    assert forall|w: Seq<char>| flags.contains(w) implies g.contains(w) by {
        let j = choose|j: int| 0 <= j < flags.len() && flags[j] == w;
        assert(g[j] == w);
    }
    assert forall|w: Seq<char>| w != "-a"@ && g.contains(w) implies flags.contains(w) by {
        let j = choose|j: int| 0 <= j < g.len() && g[j] == w;
        assert(j < flags.len());
        assert(flags[j] == w);
    }
    if !(flags.contains("-a"@) || flags.contains("-la"@) || flags.contains("-al"@)) {
        reveal_strlit("-a");
        reveal_strlit("-la");
        reveal_strlit("-al");
        reveal_strlit("-l");
        reveal_strlit(" -Force");
        reveal_strlit(" | Format-Table Mode, LastWriteTime, Length, Name");
        reveal_strlit(" | Select-Object -ExpandProperty Name");
        let base = "Get-ChildItem"@ + (if args.len() > 0 {
            " -Path "@ + join_with(args, ", "@)
        } else {
            seq![]
        });
        let table = flags.contains("-l"@) || flags.contains("-la"@) || flags.contains("-al"@);
        let tail = if table {
            " | Format-Table Mode, LastWriteTime, Length, Name"@
        } else {
            " | Select-Object -ExpandProperty Name"@
        };
        assert("-l"@[1] != "-a"@[1]);
        assert("-la"@.len() != "-a"@.len());
        assert("-al"@.len() != "-a"@.len());
        assert(g.contains("-l"@) == flags.contains("-l"@));
        assert(g.contains("-la"@) == flags.contains("-la"@));
        assert(g.contains("-al"@) == flags.contains("-al"@));
        assert(ls_spec(flags, args) == base + tail);
        assert(ls_spec(g, args) == base + " -Force"@ + tail);
        assert((base + " -Force"@ + tail)[base.len() as int] == ' ');
        assert((base + " -Force"@ + tail)[base.len() as int + 1] == '-');
        assert((base + tail)[base.len() as int + 1] == '|');
    }
}

/// `head` and `tail` take their count alike as `-n N file` and as
/// `-nN file`: for any count `n` that parses and any file.
pub proof fn lemma_count_forms_agree(n: Seq<char>, file: Seq<char>, option: Seq<char>)
    requires
        parse_usize_spec(n) is Some,
    ensures
        head_tail_spec(seq!["-n"@], seq![n, file], option) == head_tail_spec(
            seq!["-n"@ + n],
            seq![file],
            option,
        ),
{
    reveal_strlit("-n");
    let f = "-n"@ + n;
    assert(n.len() > 0);
    assert(f.len() > 2);
    assert(f[0] == '-' && f[1] == 'n');
    assert(f.skip(2) =~= n);
    assert(f != "-n"@);
    let sep = seq!["-n"@];
    let joined = seq![f];
    assert(sep.contains("-n"@)) by {
        assert(sep[0] == "-n"@);
    }
    assert(!joined.contains("-n"@)) by {
        if joined.contains("-n"@) {
            let j = choose|j: int| 0 <= j < joined.len() && joined[j] == "-n"@;
            assert(j == 0);
        }
    }
    assert(line_count_spec(sep, seq![n, file], 1) == line_count_spec(joined, seq![file], 1));
}

/// Whether `w` is one of the `ls` flags: `-l`, `-a`, `-la`, `-al`.
pub open spec fn is_ls_flag(w: Seq<char>) -> bool {
    w == "-l"@ || w == "-a"@ || w == "-la"@ || w == "-al"@
}

/// Flags that `ls` does not know change nothing in its translation.
pub proof fn lemma_ls_ignores_other_flags(flags: Seq<Seq<char>>, args: Seq<Seq<char>>, f: Seq<char>)
    requires
        !is_ls_flag(f),
    ensures
        ls_spec(flags.push(f), args) == ls_spec(flags, args),
{
    lemma_push_contains(flags, f, "-l"@);
    lemma_push_contains(flags, f, "-a"@);
    lemma_push_contains(flags, f, "-la"@);
    lemma_push_contains(flags, f, "-al"@);
}

/// Flags other than `-n` change nothing in the translation of `cat`.
pub proof fn lemma_cat_ignores_other_flags(flags: Seq<Seq<char>>, args: Seq<Seq<char>>, f: Seq<char>)
    requires
        f != "-n"@,
    ensures
        cat_spec(flags.push(f), args) == cat_spec(flags, args),
{
    lemma_push_contains(flags, f, "-n"@);
}

/// Flags other than `-i`, `-v` and `-n` change nothing in the translation
/// of `grep`.
pub proof fn lemma_grep_ignores_other_flags(flags: Seq<Seq<char>>, args: Seq<Seq<char>>, f: Seq<char>)
    requires
        f != "-i"@,
        f != "-v"@,
        f != "-n"@,
    ensures
        grep_spec(flags.push(f), args) == grep_spec(flags, args),
{
    lemma_push_contains(flags, f, "-n"@);
    assert(flags.push(f).drop_last() =~= flags);
    assert(grep_flag_options(flags.push(f)) == grep_flag_options(flags));
}

/// A word other than `w` added to a list of words does not change whether
/// it holds `w`.
proof fn lemma_push_contains(ws: Seq<Seq<char>>, f: Seq<char>, w: Seq<char>)
    requires
        f != w,
    ensures
        ws.push(f).contains(w) == ws.contains(w),
{
    if ws.contains(w) {
        let j = choose|j: int| 0 <= j < ws.len() && ws[j] == w;
        assert(ws.push(f)[j] == w);
    }
    if ws.push(f).contains(w) {
        let j = choose|j: int| 0 <= j < ws.push(f).len() && ws.push(f)[j] == w;
        assert(j < ws.len());
        assert(ws[j] == w);
    }
}

/// Whether flag `f` of `head` or `tail` may set the line count: `-n`, or
/// `-n` with more after it.
pub open spec fn may_set_count(f: Seq<char>) -> bool {
    f == "-n"@ || (f.len() > 2 && f[0] == '-' && f[1] == 'n')
}

/// Without a flag that may set it, `head` and `tail` take ten lines.
pub proof fn lemma_default_line_count(flags: Seq<Seq<char>>, args: Seq<Seq<char>>, k: int)
    requires
        k <= flags.len(),
        forall|i: int| 0 <= i < flags.len() ==> !may_set_count(#[trigger] flags[i]),
    ensures
        line_count_spec(flags, args, k) == 10,
    decreases k,
{
    if k > 0 {
        lemma_default_line_count(flags, args, k - 1);
        assert(!may_set_count(flags[k - 1]));
    }
}

} // verus!
