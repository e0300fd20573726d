//! Command-line options: `[options] -- <command> [args...]`.

use crate::text::{clone_strings, str_eq, strings_view};
use vstd::prelude::*;

verus! {

/// Options read from the command line.
#[derive(Debug, Clone)]
pub struct CliOptions {
    /// `--ansi` was given: escape sequences in the child's output are kept.
    pub preserve_ansi: bool,
    /// `-w` was given: the child's binary is watched for changes.
    pub watch_binary: bool,
    /// The command to run as the child.
    pub command: String,
    /// The arguments handed to the child.
    pub args: Vec<String>,
}

/// Position of the first occurrence of `target` in `s`, or the length of `s`
/// if there is none.
pub open spec fn first_index(s: Seq<Seq<char>>, target: Seq<char>) -> int
    decreases s.len(),
{
    if s.len() == 0 {
        0
    } else if s[0] == target {
        0
    } else {
        1 + first_index(s.drop_first(), target)
    }
}

/// The options before the separator at `pos`: everything after the program
/// name. Empty when there is no separator or it comes first.
pub open spec fn spec_option_words(args: Seq<Seq<char>>, pos: int) -> Seq<Seq<char>> {
    if 1 <= pos < args.len() {
        args.subrange(1, pos)
    } else {
        Seq::empty()
    }
}

/// Whether a command follows the separator at `pos`.
pub open spec fn spec_has_command(args: Seq<Seq<char>>, pos: int) -> bool {
    0 <= pos && pos + 1 < args.len()
}

impl CliOptions {
    /// `--ansi` among the options before the separator.
    pub open spec fn spec_preserve_ansi(args: Seq<Seq<char>>) -> bool {
        spec_option_words(args, first_index(args, "--"@)).contains("--ansi"@)
    }

    /// `-w` among the options before the separator.
    pub open spec fn spec_watch_binary(args: Seq<Seq<char>>) -> bool {
        spec_option_words(args, first_index(args, "--"@)).contains("-w"@)
    }

    /// The word after the separator, or `echo` if there is none.
    pub open spec fn spec_command(args: Seq<Seq<char>>) -> Seq<char> {
        let pos = first_index(args, "--"@);
        if spec_has_command(args, pos) {
            args[pos + 1]
        } else {
            "echo"@
        }
    }

    /// The words after the command, or one fixed message if there is no command.
    pub open spec fn spec_args(args: Seq<Seq<char>>) -> Seq<Seq<char>> {
        let pos = first_index(args, "--"@);
        if spec_has_command(args, pos) {
            args.subrange(pos + 2, args.len() as int)
        } else {
            seq!["No wrappee command specified"@]
        }
    }

    /// Reads the options from an argument list whose first word is the
    /// program's name.
    ///
    /// The first `--` separates the options from the command. `--ansi` and
    /// `-w` count only between the program's name and the separator. Without
    /// a separator, or with nothing after it, the command is `echo` with one
    /// fixed message as its argument.
    pub fn parse(args: &[String]) -> (r: Self)
        ensures
            r.preserve_ansi == Self::spec_preserve_ansi(strings_view(args@)),
            r.watch_binary == Self::spec_watch_binary(strings_view(args@)),
            r.command@ == Self::spec_command(strings_view(args@)),
            strings_view(r.args@) == Self::spec_args(strings_view(args@)),
    {
        let ghost words = strings_view(args@);
        let n = args.len();
        let mut pos: usize = 0;
        while pos < n && !str_eq(args[pos].as_str(), "--")
            invariant
                0 <= pos <= n,
                n == args.len(),
                words == strings_view(args@),
                forall|j: int| 0 <= j < pos ==> words[j] != "--"@,
            decreases n - pos,
        {
            pos += 1;
        }
        proof {
            lemma_first_index(words, "--"@, pos as int);
        }
        let mut preserve_ansi = false;
        let mut watch_binary = false;
        if 1 <= pos && pos < n {
            let ghost opts = words.subrange(1, pos as int);
            let mut i: usize = 1;
            while i < pos
                invariant
                    1 <= i <= pos < n,
                    n == args.len(),
                    words == strings_view(args@),
                    opts == words.subrange(1, pos as int),
                    preserve_ansi == opts.take(i - 1).contains("--ansi"@),
                    watch_binary == opts.take(i - 1).contains("-w"@),
                decreases pos - i,
            {
                let ghost before = opts.take(i - 1);
                let ghost after = opts.take(i as int);
                assert(after =~= before.push(words[i as int]));
                assert(forall|w: Seq<char>|
                    after.contains(w) <==> before.contains(w) || w == words[i as int]) by {
                    assert forall|w: Seq<char>| after.contains(w) implies before.contains(w) || w
                        == words[i as int] by {
                        let k = choose|k: int| 0 <= k < after.len() && after[k] == w;
                        if k < before.len() {
                            assert(before[k] == w);
                        }
                    }
                    assert forall|w: Seq<char>|
                        before.contains(w) || w == words[i as int] implies after.contains(w) by {
                        if before.contains(w) {
                            let k = choose|k: int| 0 <= k < before.len() && before[k] == w;
                            assert(after[k] == w);
                        } else {
                            assert(after[i - 1] == w);
                        }
                    }
                }
                if str_eq(args[i].as_str(), "--ansi") {
                    preserve_ansi = true;
                }
                if str_eq(args[i].as_str(), "-w") {
                    watch_binary = true;
                }
                i += 1;
            }
            assert(opts.take(pos - 1) =~= opts);
        } else {
            assert(!Seq::<Seq<char>>::empty().contains("--ansi"@));
            assert(!Seq::<Seq<char>>::empty().contains("-w"@));
        }
        if pos < n && pos + 1 < n {
            let command = args[pos + 1].clone();
            let mut rest: Vec<String> = Vec::new();
            let mut k: usize = pos + 2;
            while k < n
                invariant
                    pos + 2 <= k <= n,
                    n == args.len(),
                    words == strings_view(args@),
                    rest.len() == k - (pos + 2),
                    forall|j: int| 0 <= j < rest.len() ==> rest[j]@ == words[pos + 2 + j],
                decreases n - k,
            {
                rest.push(args[k].clone());
                k += 1;
            }
            assert(strings_view(rest@) =~= words.subrange(pos + 2, n as int));
            CliOptions { preserve_ansi, watch_binary, command, args: rest }
        } else {
            let command = "echo".to_owned();
            let mut rest: Vec<String> = Vec::new();
            rest.push("No wrappee command specified".to_owned());
            assert(strings_view(rest@) =~= seq!["No wrappee command specified"@]);
            CliOptions { preserve_ansi, watch_binary, command, args: rest }
        }
    }

    /// Whether the child is asked to switch its colours off: unless `--ansi` was given.
    pub fn disable_colors(&self) -> (r: bool)
        ensures
            r == !self.preserve_ansi,
    {
        !self.preserve_ansi
    }

    /// A copy of the options.
    pub fn duplicate(&self) -> (r: Self)
        ensures
            r.preserve_ansi == self.preserve_ansi,
            r.watch_binary == self.watch_binary,
            r.command@ == self.command@,
            strings_view(r.args@) == strings_view(self.args@),
    {
        CliOptions {
            preserve_ansi: self.preserve_ansi,
            watch_binary: self.watch_binary,
            command: self.command.clone(),
            args: clone_strings(&self.args),
        }
    }
}

/// A position before which `target` does not occur, and at which it occurs
/// unless the position is the length, is the first index.
pub proof fn lemma_first_index(s: Seq<Seq<char>>, target: Seq<char>, p: int)
    requires
        0 <= p <= s.len(),
        p < s.len() ==> s[p] == target,
        forall|j: int| 0 <= j < p ==> s[j] != target,
    ensures
        first_index(s, target) == p,
    decreases s.len(),
{
    if s.len() == 0 {
    } else if p == 0 {
    } else {
        let t = s.drop_first();
        assert forall|j: int| 0 <= j < p - 1 implies t[j] != target by {
            assert(t[j] == s[j + 1]);
        }
        lemma_first_index(t, target, p - 1);
    }
}

} // verus!
