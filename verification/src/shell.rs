//! Showing what a shell command printed, below the document in a split.

use vstd::prelude::*;
use crate::editor::{Editor, sat_sub};
use crate::justify::{split_whitespace, strings_view, words};
use crate::text::{decimal, eq_str, push_char, push_str, string_of, u64_to_decimal};

verus! {

/// How a shell command went: refused before it ran, failed to run, or
/// finished with what it printed and its exit status.
#[derive(Debug)]
pub enum ShellOutcome {
    Rejected(String),
    Failed(String),
    Finished { stdout: String, stderr: String, success: bool, code: Option<i32> },
}

/// The pieces of `s` between newlines (one more than there are newlines).
pub open spec fn split_nl(s: Seq<char>) -> Seq<Seq<char>>
    decreases s.len(),
{
    if s.len() == 0 {
        seq![seq![]]
    } else {
        let p = split_nl(s.drop_last());
        if s.last() == '\n' {
            p.push(seq![])
        } else {
            p.update(p.len() - 1, p.last().push(s.last()))
        }
    }
}

/// There is always at least one piece.
pub proof fn lemma_split_nl_len(s: Seq<char>)
    ensures
        split_nl(s).len() >= 1,
    decreases s.len(),
{
    if s.len() > 0 {
        lemma_split_nl_len(s.drop_last());
    }
}

/// `l` without a final carriage return.
pub open spec fn strip_cr(l: Seq<char>) -> Seq<char> {
    if l.len() > 0 && l.last() == '\r' {
        l.drop_last()
    } else {
        l
    }
}

/// The lines of `s` as `str::lines` gives them: split at each newline,
/// a carriage return before it dropped, and no empty line after a final
/// newline.
pub open spec fn text_lines(s: Seq<char>) -> Seq<Seq<char>> {
    let p = split_nl(s);
    let body = p.drop_last().map_values(|l: Seq<char>| strip_cr(l));
    if p.last().len() == 0 {
        body
    } else {
        body.push(p.last())
    }
}

/// An `i32` in decimal, as its `Display` writes it.
pub open spec fn int_text(i: int) -> Seq<char> {
    if i < 0 {
        seq!['-'] + decimal((-i) as nat)
    } else {
        decimal(i as nat)
    }
}

/// Whether `name` is one of the commands that may be run: the file
/// viewers `cat`, `less`, `more`, `head`, `tail`, `file`, `stat`, `wc`; the
/// navigation commands `ls`, `pwd`, `find`, `locate`, `which`, `whereis`;
/// the text tools `grep`, `awk`, `sed`, `sort`, `uniq`, `cut`, `tr`; and the
/// system information commands `date`, `uptime`, `whoami`, `id`, `uname`,
/// `hostname`, `df`, `free`, `ps`.
pub open spec fn allowed_command(name: Seq<char>) -> bool {
    name == "cat"@
        || name == "less"@
        || name == "more"@
        || name == "head"@
        || name == "tail"@
        || name == "file"@
        || name == "stat"@
        || name == "wc"@
        || name == "ls"@
        || name == "pwd"@
        || name == "find"@
        || name == "locate"@
        || name == "which"@
        || name == "whereis"@
        || name == "grep"@
        || name == "awk"@
        || name == "sed"@
        || name == "sort"@
        || name == "uniq"@
        || name == "cut"@
        || name == "tr"@
        || name == "date"@
        || name == "uptime"@
        || name == "whoami"@
        || name == "id"@
        || name == "uname"@
        || name == "hostname"@
        || name == "df"@
        || name == "free"@
        || name == "ps"@
}

/// A shell command line checked before it runs: its words, to be run as a
/// program and its arguments, when the first is a command that may be run
/// (see `allowed_command`); otherwise why it is refused.
pub open spec fn checked_command(cmd: Seq<char>) -> Result<Seq<Seq<char>>, Seq<char>> {
    let ws = words(cmd);
    if ws.len() == 0 {
        Err("Empty command"@)
    } else if allowed_command(ws[0]) {
        Ok(ws)
    } else {
        Err("Command not allowed: "@ + ws[0])
    }
}

/// Whether `name` is a command that may be run (see `allowed_command`).
pub fn is_allowed_command(name: &str) -> (r: bool)
    ensures
        r == allowed_command(name@),
{
    eq_str(name, "cat")
        || eq_str(name, "less")
        || eq_str(name, "more")
        || eq_str(name, "head")
        || eq_str(name, "tail")
        || eq_str(name, "file")
        || eq_str(name, "stat")
        || eq_str(name, "wc")
        || eq_str(name, "ls")
        || eq_str(name, "pwd")
        || eq_str(name, "find")
        || eq_str(name, "locate")
        || eq_str(name, "which")
        || eq_str(name, "whereis")
        || eq_str(name, "grep")
        || eq_str(name, "awk")
        || eq_str(name, "sed")
        || eq_str(name, "sort")
        || eq_str(name, "uniq")
        || eq_str(name, "cut")
        || eq_str(name, "tr")
        || eq_str(name, "date")
        || eq_str(name, "uptime")
        || eq_str(name, "whoami")
        || eq_str(name, "id")
        || eq_str(name, "uname")
        || eq_str(name, "hostname")
        || eq_str(name, "df")
        || eq_str(name, "free")
        || eq_str(name, "ps")
}

/// Checks a shell command line before it runs (see `checked_command`):
/// its words, or the reason it is refused, to be shown with
/// `ShellOutcome::Rejected`.
pub fn check_shell_command(cmd: &str) -> (r: Result<Vec<String>, String>)
    ensures
        match r {
            Ok(ws) => checked_command(cmd@) == Ok::<Seq<Seq<char>>, Seq<char>>(strings_view(ws@)),
            Err(e) => checked_command(cmd@) == Err::<Seq<Seq<char>>, Seq<char>>(e@),
        },
{
    let ws = split_whitespace(cmd);
    if ws.len() == 0 {
        return Err(string_of("Empty command"));
    }
    assert(strings_view(ws@)[0] == ws@[0]@);
    if is_allowed_command(ws[0].as_str()) {
        Ok(ws)
    } else {
        let mut e = string_of("Command not allowed: ");
        push_str(&mut e, ws[0].as_str());
        Err(e)
    }
}

/// The lines shown for a shell command that was refused.
pub open spec fn rejected_lines(cmd: Seq<char>, e: Seq<char>) -> Seq<Seq<char>> {
    seq![
        "$ "@ + cmd,
        "Security Error: "@ + e,
        "Only whitelisted commands are allowed."@,
        "File viewing: cat, less, more, head, tail, file, stat, wc"@,
        "Navigation: ls, pwd, find, locate, which, whereis"@,
        "Text processing: grep, awk, sed, sort, uniq, cut, tr"@,
        "System info: date, uptime, whoami, id, uname, hostname, df, free, ps"@,
        "Use :help for more information about available commands."@,
    ]
}

/// The lines shown for a finished shell command: the command, what it
/// printed (its errors after a `--- stderr ---` line when it printed both),
/// `(no output)` when it printed nothing, and its exit status when it
/// failed (-1 without one).
pub open spec fn finished_lines(
    cmd: Seq<char>,
    out: Seq<char>,
    err: Seq<char>,
    success: bool,
    code: Option<i32>,
) -> Seq<Seq<char>> {
    seq!["$ "@ + cmd] + (if out.len() > 0 {
        text_lines(out)
    } else {
        seq![]
    }) + (if err.len() > 0 {
        (if out.len() > 0 {
            seq!["--- stderr ---"@]
        } else {
            seq![]
        }) + text_lines(err)
    } else {
        seq![]
    }) + (if out.len() == 0 && err.len() == 0 {
        seq!["(no output)"@]
    } else {
        seq![]
    }) + (if !success {
        seq![
            "--- exit status: "@ + int_text(
                match code {
                    Some(c) => c as int,
                    None => -1,
                },
            ) + " ---"@,
        ]
    } else {
        seq![]
    })
}

/// The lines shown for the outcome of shell command `cmd`.
pub open spec fn shell_lines(cmd: Seq<char>, outcome: ShellOutcome) -> Seq<Seq<char>> {
    match outcome {
        ShellOutcome::Rejected(e) => rejected_lines(cmd, e@),
        ShellOutcome::Failed(e) => seq!["$ "@ + cmd, "Error: "@ + e@],
        ShellOutcome::Finished { stdout, stderr, success, code } => finished_lines(
            cmd,
            stdout@,
            stderr@,
            success,
            code,
        ),
    }
}

/// Appends the lines of `s` (see `text_lines`) to `out`.
pub(crate) fn push_text_lines(out: &mut Vec<String>, s: &str)
    ensures
        strings_view(final(out)@) == strings_view(old(out)@) + text_lines(s@),
{
    let n = s.unicode_len();
    let ghost start = strings_view(out@);
    let mut cur = String::new();
    let mut i: usize = 0;
    while i < n
        invariant
            n == s@.len(),
            i <= n,
            cur@ == split_nl(s@.take(i as int)).last(),
            strings_view(out@) == start + split_nl(s@.take(i as int)).drop_last().map_values(
                |l: Seq<char>| strip_cr(l),
            ),
        decreases n - i,
    {
        let ghost pre = s@.take(i as int);
        proof {
            lemma_split_nl_len(pre);
        }
        let c = s.get_char(i);
        assert(s@.take(i + 1).drop_last() =~= pre);
        assert(s@.take(i + 1).last() == c);
        if c == '\n' {
            let ghost cv = cur@;
            let ghost before = strings_view(out@);
            let line = if cur.as_str().unicode_len() > 0 && cur.as_str().get_char(
                cur.as_str().unicode_len() - 1,
            ) == '\r' {
                let m = cur.as_str().unicode_len() - 1;
                let mut t = String::new();
                let mut k: usize = 0;
                while k < m
                    invariant
                        m < cur@.len(),
                        k <= m,
                        t@ == cur@.take(k as int),
                    decreases m - k,
                {
                    push_char(&mut t, cur.as_str().get_char(k));
                    k = k + 1;
                    assert(t@ =~= cur@.take(k as int));
                }
                assert(cur@.take(m as int) =~= cur@.drop_last());
                t
            } else {
                cur
            };
            assert(line@ == strip_cr(cv));
            out.push(line);
            assert(strings_view(out@) =~= before.push(strip_cr(cv)));
            cur = String::new();
            proof {
                let p = split_nl(pre);
                assert(split_nl(s@.take(i + 1)) == p.push(seq![]));
                assert(p.push(seq![]).drop_last() =~= p);
                assert(p.map_values(|l: Seq<char>| strip_cr(l)) =~= p.drop_last().map_values(
                    |l: Seq<char>| strip_cr(l),
                ).push(strip_cr(p.last())));
                assert(strings_view(out@) =~= start + p.map_values(|l: Seq<char>| strip_cr(l)));
            }
        } else {
            push_char(&mut cur, c);
            proof {
                let p = split_nl(pre);
                let q = split_nl(s@.take(i + 1));
                assert(q == p.update(p.len() - 1, p.last().push(c)));
                assert(q.drop_last() =~= p.drop_last());
            }
        }
        i = i + 1;
    }
    assert(s@.take(n as int) =~= s@);
    let ghost p = split_nl(s@);
    proof {
        lemma_split_nl_len(s@);
    }
    if cur.as_str().unicode_len() > 0 {
        let ghost before = strings_view(out@);
        let ghost cv = cur@;
        out.push(cur);
        assert(strings_view(out@) =~= before.push(cv));
        assert(strings_view(out@) =~= start + text_lines(s@));
    } else {
        assert(strings_view(out@) =~= start + text_lines(s@));
    }
}

/// An `i32` in decimal (see `int_text`).
fn i32_to_decimal(i: i32) -> (r: String)
    ensures
        r@ == int_text(i as int),
{
    if i < 0 {
        let m: u64 = (-(i as i64)) as u64;
        let mut r = string_of("-");
        let d = u64_to_decimal(m);
        push_str(&mut r, d.as_str());
        proof {
            reveal_strlit("-");
        }
        r
    } else {
        u64_to_decimal(i as u64)
    }
}

/// A string made of `a` and then `b`.
fn concat(a: &str, b: &str) -> (r: String)
    ensures
        r@ == a@ + b@,
{
    let mut r = string_of(a);
    push_str(&mut r, b);
    r
}

/// The lines shown for the outcome of `cmd` (see `shell_lines`).
pub fn shell_output_lines(cmd: &str, outcome: &ShellOutcome) -> (r: Vec<String>)
    ensures
        strings_view(r@) == shell_lines(cmd@, *outcome),
{
    let mut r: Vec<String> = Vec::new();
    r.push(concat("$ ", cmd));
    match outcome {
        ShellOutcome::Rejected(e) => {
            r.push(concat("Security Error: ", e.as_str()));
            r.push(string_of("Only whitelisted commands are allowed."));
            r.push(string_of("File viewing: cat, less, more, head, tail, file, stat, wc"));
            r.push(string_of("Navigation: ls, pwd, find, locate, which, whereis"));
            r.push(string_of("Text processing: grep, awk, sed, sort, uniq, cut, tr"));
            r.push(string_of("System info: date, uptime, whoami, id, uname, hostname, df, free, ps"));
            r.push(string_of("Use :help for more information about available commands."));
            assert(strings_view(r@) =~= shell_lines(cmd@, *outcome));
        },
        ShellOutcome::Failed(e) => {
            r.push(concat("Error: ", e.as_str()));
            assert(strings_view(r@) =~= shell_lines(cmd@, *outcome));
        },
        ShellOutcome::Finished { stdout, stderr, success, code } => {
            let ghost o = stdout@;
            let ghost e = stderr@;
            let ghost p0 = strings_view(r@);
            assert(p0 == seq!["$ "@ + cmd@]);
            let out_len = stdout.as_str().unicode_len();
            let err_len = stderr.as_str().unicode_len();
            if out_len > 0 {
                push_text_lines(&mut r, stdout.as_str());
            }
            let ghost p1 = strings_view(r@);
            assert(p1 == p0 + (if o.len() > 0 {
                text_lines(o)
            } else {
                seq![]
            }));
            if err_len > 0 {
                if out_len > 0 {
                    r.push(string_of("--- stderr ---"));
                }
                push_text_lines(&mut r, stderr.as_str());
            }
            let ghost p2 = strings_view(r@);
            assert(p2 =~= p1 + (if e.len() > 0 {
                (if o.len() > 0 {
                    seq!["--- stderr ---"@]
                } else {
                    seq![]
                }) + text_lines(e)
            } else {
                seq![]
            }));
            if out_len == 0 && err_len == 0 {
                r.push(string_of("(no output)"));
            }
            let ghost p3 = strings_view(r@);
            assert(p3 =~= p2 + (if o.len() == 0 && e.len() == 0 {
                seq!["(no output)"@]
            } else {
                seq![]
            }));
            if !*success {
                let c: i32 = match code {
                    Some(c) => *c,
                    None => -1,
                };
                let mut line = string_of("--- exit status: ");
                let d = i32_to_decimal(c);
                push_str(&mut line, d.as_str());
                push_str(&mut line, " ---");
                r.push(line);
            }
            assert(strings_view(r@) =~= p3 + (if !*success {
                seq![
                    "--- exit status: "@ + int_text(
                        match *code {
                            Some(c) => c as int,
                            None => -1,
                        },
                    ) + " ---"@,
                ]
            } else {
                seq![]
            }));
            assert(strings_view(r@) =~= shell_lines(cmd@, *outcome));
        },
    }
    r
}

impl Editor {
    /// Shows what shell command `cmd` printed in a split below the document
    /// (see `shell_lines` and `shows_split`).
    pub fn show_shell_output(&mut self, cmd: &str, outcome: &ShellOutcome)
        ensures
            old(self).shows_split(cmd@, shell_lines(cmd@, *outcome), *final(self)),
    {
        let lines = shell_output_lines(cmd, outcome);
        self.create_horizontal_split(cmd, lines);
    }

    /// Finishes a shell command once its output is shown: the cursor row
    /// kept inside the text area, and the command finished (see
    /// `finish_command`).
    pub fn finish_shell_command(&mut self)
        ensures
            (Editor {
                cursor_y: if old(self).cursor_y >= old(self).content_height() {
                    sat_sub(old(self).content_height(), 1)
                } else {
                    old(self).cursor_y
                },
                ..*old(self)
            }).finished_command(*final(self)),
    {
        let vh = if self.height >= 1 {
            self.height - 1
        } else {
            0
        };
        if self.cursor_y >= vh {
            self.cursor_y = if vh >= 1 {
                vh - 1
            } else {
                0
            };
        }
        self.finish_command();
    }
}

} // verus!
