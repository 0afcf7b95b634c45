use vstd::prelude::*;

use crate::launch::{launch_script_spec, sh_quote};
use crate::session::sh_escape;
use crate::text::{join_seq, replace_seq};
use crate::utils::{quoted_line, single_quoted};

verus! {

/// How the shell reads one word written with single quotes and backslashes, from the state
/// `quoted` (inside single quotes or not): inside quotes each character stands for itself up
/// to the closing quote; outside, a quote opens a quoted part and `\c` stands for `c`.
pub open spec fn sh_read_word(w: Seq<char>, quoted: bool) -> Seq<char>
    decreases w.len(),
{
    if w.len() == 0 {
        Seq::empty()
    } else if quoted {
        if w[0] == '\'' {
            sh_read_word(w.drop_first(), false)
        } else {
            seq![w[0]] + sh_read_word(w.drop_first(), true)
        }
    } else if w[0] == '\'' {
        sh_read_word(w.drop_first(), true)
    } else if w[0] == '\\' && w.len() >= 2 {
        seq![w[1]] + sh_read_word(w.subrange(2, w.len() as int), false)
    } else {
        seq![w[0]] + sh_read_word(w.drop_first(), false)
    }
}

/// Replacing a character in two pieces is replacing it in each.
pub proof fn lemma_replace_concat(a: Seq<char>, b: Seq<char>, c: char, rep: Seq<char>)
    ensures
        replace_seq(a + b, c, rep) == replace_seq(a, c, rep) + replace_seq(b, c, rep),
    decreases b.len(),
{
    if b.len() == 0 {
        assert(a + b =~= a);
        assert(replace_seq(b, c, rep) =~= Seq::<char>::empty());
        assert(replace_seq(a, c, rep) + Seq::<char>::empty() =~= replace_seq(a, c, rep));
    } else {
        assert((a + b).drop_last() =~= a + b.drop_last());
        assert((a + b).last() == b.last());
        lemma_replace_concat(a, b.drop_last(), c, rep);
        let tail = if b.last() == c { rep } else { seq![b.last()] };
        assert(replace_seq(a + b, c, rep) == replace_seq(a + b.drop_last(), c, rep) + tail);
        assert(replace_seq(b, c, rep) == replace_seq(b.drop_last(), c, rep) + tail);
        assert(replace_seq(a, c, rep) + replace_seq(b.drop_last(), c, rep) + tail =~= replace_seq(a, c, rep)
            + (replace_seq(b.drop_last(), c, rep) + tail));
    }
}

/// Inside quotes, the text up to a closing quote reads as itself where it holds no quote.
proof fn lemma_quoted_plain(a: Seq<char>, rest: Seq<char>)
    requires
        !a.contains('\''),
    ensures
        sh_read_word(a + seq!['\''] + rest, true) == a + sh_read_word(rest, false),
    decreases a.len(),
{
    if a.len() == 0 {
        assert(a + seq!['\''] + rest =~= seq!['\''] + rest);
        assert((seq!['\''] + rest).drop_first() =~= rest);
        assert(a + sh_read_word(rest, false) =~= sh_read_word(rest, false));
    } else {
        let t = a.drop_first();
        assert(!t.contains('\'')) by {
            if t.contains('\'') {
                let k = choose|k: int| 0 <= k < t.len() && t[k] == '\'';
                assert(a[k + 1] == '\'');
            }
        }
        assert(a[0] != '\'') by {
            assert(a.contains(a[0]) || a[0] != '\'');
        }
        let w = a + seq!['\''] + rest;
        assert(w.drop_first() =~= t + seq!['\''] + rest);
        lemma_quoted_plain(t, rest);
        assert(a =~= seq![a[0]] + t);
        assert(seq![a[0]] + (t + sh_read_word(rest, false)) =~= a + sh_read_word(rest, false));
    }
}

/// Inside quotes, an escaped text followed by the closing quote reads as the text itself.
proof fn lemma_quoted_escaped(a: Seq<char>, rest: Seq<char>)
    ensures
        sh_read_word(sh_escape(a) + seq!['\''] + rest, true) == a + sh_read_word(rest, false),
    decreases a.len(),
{
    if a.len() == 0 {
        assert(sh_escape(a) =~= Seq::<char>::empty());
        assert(sh_escape(a) + seq!['\''] + rest =~= seq!['\''] + rest);
        assert((seq!['\''] + rest).drop_first() =~= rest);
        assert(a + sh_read_word(rest, false) =~= sh_read_word(rest, false));
    } else {
        let x = a[0];
        let t = a.drop_first();
        assert(a =~= seq![x] + t);
        lemma_replace_concat(seq![x], t, '\'', "'\\''"@);
        assert(seq![x].drop_last() =~= Seq::<char>::empty());
        assert(replace_seq(Seq::<char>::empty(), '\'', "'\\''"@) =~= Seq::<char>::empty());
        lemma_quoted_escaped(t, rest);
        let after = sh_escape(t) + seq!['\''] + rest;
        if x == '\'' {
            reveal_strlit("'\\''");
            let q: Seq<char> = "'\\''"@;
            assert(q =~= seq!['\'', '\\', '\'', '\'']);
            assert(sh_escape(seq![x]) =~= q);
            let w = sh_escape(a) + seq!['\''] + rest;
            assert(w =~= seq!['\'', '\\', '\'', '\''] + after);
            assert(w.drop_first() =~= seq!['\\', '\'', '\''] + after);
            let w1 = w.drop_first();
            let w2 = w1.subrange(2, w1.len() as int);
            assert(w2 =~= seq!['\''] + after);
            assert(w2.drop_first() =~= after);
            assert(sh_escape(a) == sh_escape(seq![x]) + sh_escape(t));
            assert(sh_read_word(w2, false) == sh_read_word(after, true));
            assert(w1[0] == '\\' && w1[1] == '\'');
            assert(sh_read_word(w1, false) == seq!['\''] + sh_read_word(w2, false));
            assert(sh_read_word(w, true) == sh_read_word(w1, false));
            assert(seq!['\''] + (t + sh_read_word(rest, false)) =~= a + sh_read_word(rest, false));
        } else {
            assert(sh_escape(seq![x]) =~= seq![x]);
            let w = sh_escape(a) + seq!['\''] + rest;
            assert(w =~= seq![x] + after);
            assert(w.drop_first() =~= after);
            assert(sh_escape(a) == sh_escape(seq![x]) + sh_escape(t));
            assert(sh_read_word(w, true) == seq![x] + sh_read_word(after, true));
            assert(seq![x] + (t + sh_read_word(rest, false)) =~= a + sh_read_word(rest, false));
        }
    }
}

/// The shell reads a word quoted by `sh_quote` (as the launch script writes each argument)
/// as the argument itself, whatever characters it holds.
pub proof fn law_sh_quote_reads_back(a: Seq<char>)
    ensures
        sh_read_word(sh_quote(a), false) == a,
{
    let w = sh_quote(a);
    assert(w =~= seq!['\''] + (sh_escape(a) + seq!['\''] + Seq::<char>::empty())) by {
        reveal_strlit("'");
    }
    assert(w.drop_first() =~= sh_escape(a) + seq!['\''] + Seq::<char>::empty());
    lemma_quoted_escaped(a, Seq::<char>::empty());
    assert(a + Seq::<char>::empty() =~= a);
}

/// The shell reads a word put between single quotes (as `sh -c` command lines are built for
/// macOS) as the word itself, where the word holds no single quote.
pub proof fn law_single_quoted_reads_back(a: Seq<char>)
    requires
        !a.contains('\''),
    ensures
        sh_read_word(single_quoted(a), false) == a,
{
    let w = single_quoted(a);
    assert(w =~= seq!['\''] + (a + seq!['\''] + Seq::<char>::empty()));
    assert(w.drop_first() =~= a + seq!['\''] + Seq::<char>::empty());
    lemma_quoted_plain(a, Seq::<char>::empty());
    assert(a + Seq::<char>::empty() =~= a);
}

/// How the shell splits a command line made of words with single quotes and backslashes, from
/// a state: inside quotes or not, the words read so far, the word being read and whether one
/// is begun. Outside quotes a space ends the word being read; quotes and backslashes work as
/// in `sh_read_word`.
pub open spec fn sh_read_line(
    s: Seq<char>,
    quoted: bool,
    done: Seq<Seq<char>>,
    cur: Seq<char>,
    started: bool,
) -> Seq<Seq<char>>
    decreases s.len(),
{
    if s.len() == 0 {
        if started {
            done.push(cur)
        } else {
            done
        }
    } else if quoted {
        if s[0] == '\'' {
            sh_read_line(s.drop_first(), false, done, cur, started)
        } else {
            sh_read_line(s.drop_first(), true, done, cur.push(s[0]), started)
        }
    } else if s[0] == ' ' {
        if started {
            sh_read_line(s.drop_first(), false, done.push(cur), Seq::empty(), false)
        } else {
            sh_read_line(s.drop_first(), false, done, cur, false)
        }
    } else if s[0] == '\'' {
        sh_read_line(s.drop_first(), true, done, cur, true)
    } else if s[0] == '\\' && s.len() >= 2 {
        sh_read_line(s.subrange(2, s.len() as int), false, done, cur.push(s[1]), true)
    } else {
        sh_read_line(s.drop_first(), false, done, cur.push(s[0]), true)
    }
}

/// The words the shell makes of a command line.
pub open spec fn sh_words(line: Seq<char>) -> Seq<Seq<char>> {
    sh_read_line(line, false, Seq::empty(), Seq::empty(), false)
}

proof fn lemma_line_quoted_plain(a: Seq<char>, rest: Seq<char>, d: Seq<Seq<char>>, c: Seq<char>, st: bool)
    requires
        !a.contains('\''),
    ensures
        sh_read_line(a + seq!['\''] + rest, true, d, c, st) == sh_read_line(rest, false, d, c + a, st),
    decreases a.len(),
{
    if a.len() == 0 {
        assert(a + seq!['\''] + rest =~= seq!['\''] + rest);
        assert((seq!['\''] + rest).drop_first() =~= rest);
        assert(c + a =~= c);
    } else {
        let t = a.drop_first();
        assert(!t.contains('\'')) by {
            if t.contains('\'') {
                let k = choose|k: int| 0 <= k < t.len() && t[k] == '\'';
                assert(a[k + 1] == '\'');
            }
        }
        assert(a[0] != '\'') by {
            assert(a.contains(a[0]) || a[0] != '\'');
        }
        let w = a + seq!['\''] + rest;
        assert(w.drop_first() =~= t + seq!['\''] + rest);
        lemma_line_quoted_plain(t, rest, d, c.push(a[0]), st);
        assert(c.push(a[0]) + t =~= c + a);
    }
}

proof fn lemma_line_single_quoted(w: Seq<char>, rest: Seq<char>, d: Seq<Seq<char>>, c: Seq<char>, st: bool)
    requires
        !w.contains('\''),
    ensures
        sh_read_line(single_quoted(w) + rest, false, d, c, st) == sh_read_line(rest, false, d, c + w, true),
{
    let s = single_quoted(w) + rest;
    assert(s =~= seq!['\''] + (w + seq!['\''] + rest));
    assert(s.drop_first() =~= w + seq!['\''] + rest);
    lemma_line_quoted_plain(w, rest, d, c, true);
}

proof fn lemma_line_words(ws: Seq<Seq<char>>, rest: Seq<char>, d: Seq<Seq<char>>)
    requires
        ws.len() >= 1,
        forall|i: int| 0 <= i < ws.len() ==> !(#[trigger] ws[i]).contains('\''),
    ensures
        sh_read_line(quoted_line(ws) + rest, false, d, Seq::empty(), false) == sh_read_line(
            rest,
            false,
            d + ws.drop_last(),
            ws.last(),
            true,
        ),
    decreases ws.len(),
{
    if ws.len() == 1 {
        assert(quoted_line(ws) == single_quoted(ws[0]));
        lemma_line_single_quoted(ws[0], rest, d, Seq::empty(), false);
        assert(Seq::<char>::empty() + ws[0] =~= ws[0]);
        assert(d + ws.drop_last() =~= d);
    } else {
        let front = ws.drop_last();
        let w = ws.last();
        assert(!w.contains('\'')) by {
            assert(w == ws[ws.len() - 1]);
        }
        assert forall|i: int| 0 <= i < front.len() implies !(#[trigger] front[i]).contains('\'') by {
            assert(front[i] == ws[i]);
        }
        let rest1 = seq![' '] + single_quoted(w) + rest;
        assert(quoted_line(ws) + rest =~= quoted_line(front) + rest1);
        lemma_line_words(front, rest1, d);
        let d1 = d + front.drop_last();
        assert(rest1.drop_first() =~= single_quoted(w) + rest);
        assert(sh_read_line(rest1, false, d1, front.last(), true) == sh_read_line(
            single_quoted(w) + rest,
            false,
            d1.push(front.last()),
            Seq::empty(),
            false,
        ));
        lemma_line_single_quoted(w, rest, d1.push(front.last()), Seq::empty(), false);
        assert(d1.push(front.last()) =~= d + front);
        assert(Seq::<char>::empty() + w =~= w);
    }
}

/// The shell splits a command line of single-quoted words (as `sh -c` receives them on macOS)
/// into exactly those words, where no word holds a single quote.
pub proof fn law_quoted_line_reads_back(words: Seq<Seq<char>>)
    requires
        forall|i: int| 0 <= i < words.len() ==> !(#[trigger] words[i]).contains('\''),
    ensures
        sh_words(quoted_line(words)) == words,
{
    if words.len() == 0 {
        assert(quoted_line(words) =~= Seq::<char>::empty());
    } else {
        lemma_line_words(words, Seq::empty(), Seq::empty());
        assert(quoted_line(words) + Seq::<char>::empty() =~= quoted_line(words));
        assert(Seq::<Seq<char>>::empty() + words.drop_last() =~= words.drop_last());
        assert(words.drop_last().push(words.last()) =~= words);
    }
}

proof fn lemma_line_quoted_escaped(a: Seq<char>, rest: Seq<char>, d: Seq<Seq<char>>, c: Seq<char>)
    ensures
        sh_read_line(sh_escape(a) + seq!['\''] + rest, true, d, c, true) == sh_read_line(rest, false, d, c + a, true),
    decreases a.len(),
{
    if a.len() == 0 {
        assert(sh_escape(a) =~= Seq::<char>::empty());
        assert(sh_escape(a) + seq!['\''] + rest =~= seq!['\''] + rest);
        assert((seq!['\''] + rest).drop_first() =~= rest);
        assert(c + a =~= c);
    } else {
        let x = a[0];
        let t = a.drop_first();
        assert(a =~= seq![x] + t);
        lemma_replace_concat(seq![x], t, '\'', "'\\''"@);
        assert(seq![x].drop_last() =~= Seq::<char>::empty());
        assert(replace_seq(Seq::<char>::empty(), '\'', "'\\''"@) =~= Seq::<char>::empty());
        assert(sh_escape(a) == sh_escape(seq![x]) + sh_escape(t));
        lemma_line_quoted_escaped(t, rest, d, c.push(x));
        assert(c.push(x) + t =~= c + a);
        let after = sh_escape(t) + seq!['\''] + rest;
        let w = sh_escape(a) + seq!['\''] + rest;
        if x == '\'' {
            reveal_strlit("'\\''");
            assert(sh_escape(seq![x]) =~= seq!['\'', '\\', '\'', '\'']);
            assert(w =~= seq!['\'', '\\', '\'', '\''] + after);
            let w1 = w.drop_first();
            assert(w1 =~= seq!['\\', '\'', '\''] + after);
            let w2 = w1.subrange(2, w1.len() as int);
            assert(w2 =~= seq!['\''] + after);
            assert(w2.drop_first() =~= after);
            assert(w1[0] == '\\' && w1[1] == '\'');
            assert(sh_read_line(w, true, d, c, true) == sh_read_line(w1, false, d, c, true));
            assert(sh_read_line(w1, false, d, c, true) == sh_read_line(w2, false, d, c.push(x), true));
            assert(sh_read_line(w2, false, d, c.push(x), true) == sh_read_line(after, true, d, c.push(x), true));
        } else {
            assert(sh_escape(seq![x]) =~= seq![x]);
            assert(w =~= seq![x] + after);
            assert(w.drop_first() =~= after);
        }
    }
}

proof fn lemma_line_sh_quote(w: Seq<char>, rest: Seq<char>, d: Seq<Seq<char>>, c: Seq<char>, st: bool)
    ensures
        sh_read_line(sh_quote(w) + rest, false, d, c, st) == sh_read_line(rest, false, d, c + w, true),
{
    reveal_strlit("'");
    let s = sh_quote(w) + rest;
    assert(s =~= seq!['\''] + (sh_escape(w) + seq!['\''] + rest));
    assert(s.drop_first() =~= sh_escape(w) + seq!['\''] + rest);
    lemma_line_quoted_escaped(w, rest, d, c);
}

/// The words of the launch script's command line: each quoted by `sh_quote`, separated by one
/// space.
pub open spec fn sh_quoted_line(words: Seq<Seq<char>>) -> Seq<char> {
    join_seq(words.map_values(|a: Seq<char>| sh_quote(a)), " "@)
}

proof fn lemma_line_sh_words(ws: Seq<Seq<char>>, rest: Seq<char>, d: Seq<Seq<char>>)
    requires
        ws.len() >= 1,
    ensures
        sh_read_line(sh_quoted_line(ws) + rest, false, d, Seq::empty(), false) == sh_read_line(
            rest,
            false,
            d + ws.drop_last(),
            ws.last(),
            true,
        ),
    decreases ws.len(),
{
    reveal_strlit(" ");
    let m = ws.map_values(|a: Seq<char>| sh_quote(a));
    if ws.len() == 1 {
        assert(sh_quoted_line(ws) == m[0]);
        lemma_line_sh_quote(ws[0], rest, d, Seq::empty(), false);
        assert(Seq::<char>::empty() + ws[0] =~= ws[0]);
        assert(d + ws.drop_last() =~= d);
    } else {
        let front = ws.drop_last();
        let w = ws.last();
        assert(m.drop_last() =~= front.map_values(|a: Seq<char>| sh_quote(a)));
        assert(m.last() == sh_quote(w));
        assert(sh_quoted_line(ws) == sh_quoted_line(front) + " "@ + sh_quote(w));
        let rest1 = seq![' '] + sh_quote(w) + rest;
        assert(sh_quoted_line(ws) + rest =~= sh_quoted_line(front) + rest1);
        lemma_line_sh_words(front, rest1, d);
        let d1 = d + front.drop_last();
        assert(rest1.drop_first() =~= sh_quote(w) + rest);
        assert(sh_read_line(rest1, false, d1, front.last(), true) == sh_read_line(
            sh_quote(w) + rest,
            false,
            d1.push(front.last()),
            Seq::empty(),
            false,
        ));
        lemma_line_sh_quote(w, rest, d1.push(front.last()), Seq::empty(), false);
        assert(d1.push(front.last()) =~= d + front);
        assert(Seq::<char>::empty() + w =~= w);
    }
}

/// The shell splits words quoted by `sh_quote` and joined by spaces (the command line of the
/// launch script) into exactly those words, whatever characters they hold.
pub proof fn law_sh_quoted_line_reads_back(words: Seq<Seq<char>>)
    ensures
        sh_words(sh_quoted_line(words)) == words,
{
    if words.len() == 0 {
        assert(words.map_values(|a: Seq<char>| sh_quote(a)).len() == 0);
        assert(sh_quoted_line(words) =~= Seq::<char>::empty());
    } else {
        lemma_line_sh_words(words, Seq::empty(), Seq::empty());
        assert(sh_quoted_line(words) + Seq::<char>::empty() =~= sh_quoted_line(words));
        assert(Seq::<Seq<char>>::empty() + words.drop_last() =~= words.drop_last());
        assert(words.drop_last().push(words.last()) =~= words);
    }
}

proof fn lemma_join_front(x: Seq<char>, ys: Seq<Seq<char>>, sep: Seq<char>)
    requires
        ys.len() >= 1,
    ensures
        join_seq(seq![x] + ys, sep) == x + sep + join_seq(ys, sep),
    decreases ys.len(),
{
    let all = seq![x] + ys;
    if ys.len() == 1 {
        assert(all.drop_last() =~= seq![x]);
        assert(join_seq(all.drop_last(), sep) == x);
        assert(all.last() == ys[0]);
    } else {
        assert(all.drop_last() =~= seq![x] + ys.drop_last());
        lemma_join_front(x, ys.drop_last(), sep);
        assert(all.last() == ys.last());
        assert(x + sep + join_seq(ys.drop_last(), sep) + sep + ys.last() =~= x + sep + (join_seq(
            ys.drop_last(),
            sep,
        ) + sep + ys.last()));
    }
}

/// The launch script runs `bin` with exactly the arguments `args` (a shell reads its command
/// line as `[bin] + args`, by `law_sh_quoted_line_reads_back`), its output going to `log` and
/// the process id to `pid`.
pub proof fn law_launch_script_runs_argv(bin: Seq<char>, args: Seq<Seq<char>>, log: Seq<char>, pid: Seq<char>)
    requires
        args.len() >= 1,
    ensures
        launch_script_spec(bin, args, log, pid) == "#!/bin/bash\n"@ + sh_quoted_line(seq![bin] + args)
            + " > '"@ + log + "' 2>&1 &\necho $! > '"@ + pid + "'\n"@,
        sh_words(sh_quoted_line(seq![bin] + args)) == seq![bin] + args,
{
    reveal_strlit("'");
    reveal_strlit("' ");
    reveal_strlit("#!/bin/bash\n'");
    reveal_strlit("#!/bin/bash\n");
    reveal_strlit(" ");
    let qa = args.map_values(|a: Seq<char>| sh_quote(a));
    assert((seq![bin] + args).map_values(|a: Seq<char>| sh_quote(a)) =~= seq![sh_quote(bin)] + qa);
    lemma_join_front(sh_quote(bin), qa, " "@);
    assert("#!/bin/bash\n'"@ =~= "#!/bin/bash\n"@ + "'"@);
    assert("' "@ =~= "'"@ + " "@);
    assert(launch_script_spec(bin, args, log, pid) =~= "#!/bin/bash\n"@ + sh_quoted_line(seq![bin] + args)
        + " > '"@ + log + "' 2>&1 &\necho $! > '"@ + pid + "'\n"@);
    law_sh_quoted_line_reads_back(seq![bin] + args);
}

} // verus!
