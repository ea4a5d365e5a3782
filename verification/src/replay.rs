//! The argument-replay file: each argument of a run is written on a line of
//! its own, and a later `--rerun` reads the lines back as its arguments.
use vstd::prelude::*;
use crate::text::{chars_of, push_char};
use vstd::string::StringExecFns;

verus! {

/// Index of the first line feed in `s`, or `s.len()` where there is none.
pub open spec fn first_newline(s: Seq<char>) -> int
    decreases s.len(),
{
    if s.len() == 0 {
        0
    } else if s[0] == '\n' {
        0
    } else {
        1 + first_newline(s.drop_first())
    }
}

/// A line taken from before a line feed loses one trailing carriage return.
pub open spec fn strip_carriage_return(line: Seq<char>) -> Seq<char> {
    if line.len() > 0 && line.last() == '\r' {
        line.drop_last()
    } else {
        line
    }
}

pub proof fn lemma_first_newline_bounds(s: Seq<char>)
    ensures
        0 <= first_newline(s) <= s.len(),
        first_newline(s) < s.len() ==> s[first_newline(s)] == '\n',
        forall|j: int| 0 <= j < first_newline(s) ==> s[j] != '\n',
    decreases s.len(),
{
    if s.len() > 0 && s[0] != '\n' {
        lemma_first_newline_bounds(s.drop_first());
        assert forall|j: int| 0 <= j < first_newline(s) implies s[j] != '\n' by {
            if j > 0 {
                assert(s[j] == s.drop_first()[j - 1]);
            }
        }
    }
}

/// The lines of `s` as std's `str::lines` yields them: the text is split at
/// each line feed, a carriage return just before a line feed is dropped with
/// it, and a final line feed does not start another line.
pub open spec fn text_lines(s: Seq<char>) -> Seq<Seq<char>>
    decreases s.len(),
{
    if s.len() == 0 {
        Seq::empty()
    } else {
        let k = first_newline(s);
        if k >= s.len() {
            seq![s]
        } else {
            proof {
                lemma_first_newline_bounds(s);
            }
            seq![strip_carriage_return(s.take(k))] + text_lines(s.skip(k + 1))
        }
    }
}

/// What the replay file holds for `args`: each argument followed by a line feed.
pub open spec fn replay_text(args: Seq<Seq<char>>) -> Seq<char>
    decreases args.len(),
{
    if args.len() == 0 {
        Seq::empty()
    } else {
        args[0] + seq!['\n'] + replay_text(args.drop_first())
    }
}

/// An argument that survives the trip through the replay file unchanged.
pub open spec fn replayable(arg: Seq<char>) -> bool {
    &&& !arg.contains('\n')
    &&& !(arg.len() > 0 && arg.last() == '\r')
}

pub open spec fn views(v: Seq<String>) -> Seq<Seq<char>> {
    v.map_values(|s: String| s@)
}


proof fn lemma_first_newline_at(t: Seq<char>, k: int)
    requires
        0 <= k <= t.len(),
        forall|j: int| 0 <= j < k ==> t[j] != '\n',
        k < t.len() ==> t[k] == '\n',
    ensures
        first_newline(t) == k,
    decreases k,
{
    if k > 0 {
        let r = t.drop_first();
        assert forall|j: int| 0 <= j < k - 1 implies r[j] != '\n' by {
            assert(r[j] == t[j + 1]);
        }
        if k < t.len() {
            assert(r[k - 1] == t[k]);
        }
        lemma_first_newline_at(r, k - 1);
    }
}

/// A run's arguments come back from the replay file as they were written,
/// provided that no argument holds a line feed or ends in a carriage return.
pub proof fn lemma_replay_round_trip(args: Seq<Seq<char>>)
    requires
        forall|i: int| 0 <= i < args.len() ==> replayable(#[trigger] args[i]),
    ensures
        text_lines(replay_text(args)) == args,
    decreases args.len(),
{
    if args.len() == 0 {
        assert(replay_text(args) =~= Seq::<char>::empty());
    } else {
        let a0 = args[0];
        let rest = args.drop_first();
        assert forall|i: int| 0 <= i < rest.len() implies replayable(#[trigger] rest[i]) by {
            assert(rest[i] == args[i + 1]);
        }
        lemma_replay_round_trip(rest);
        let t = replay_text(args);
        assert(replayable(args[0]));
        assert(t == a0 + seq!['\n'] + replay_text(rest));
        assert forall|j: int| 0 <= j < a0.len() implies t[j] != '\n' by {
            assert(t[j] == a0[j]);
            if a0[j] == '\n' {
                assert(a0.contains('\n'));
            }
        }
        assert(t[a0.len() as int] == '\n');
        lemma_first_newline_at(t, a0.len() as int);
        assert(t.take(a0.len() as int) =~= a0);
        assert(t.skip(a0.len() as int + 1) =~= replay_text(rest));
        assert(strip_carriage_return(a0) == a0);
        assert(seq![a0] + rest =~= args);
    }
}

/// The characters `cs[lo..hi]` as a string.
fn string_from_chars(cs: &Vec<char>, lo: usize, hi: usize) -> (s: String)
    requires
        lo <= hi <= cs@.len(),
    ensures
        s@ == cs@.subrange(lo as int, hi as int),
{
    let mut s = String::new();
    let mut i = lo;
    while i < hi
        invariant
            lo <= i <= hi <= cs@.len(),
            s@ == cs@.subrange(lo as int, i as int),
        decreases hi - i,
    {
        push_char(&mut s, cs[i]);
        i = i + 1;
        assert(s@ =~= cs@.subrange(lo as int, i as int));
    }
    s
}

/// Splits the content of the replay file into its lines, as std's
/// `str::lines` does.
pub fn replay_lines(content: &str) -> (lines: Vec<String>)
    ensures
        views(lines@) == text_lines(content@),
{
    let cs = chars_of(content);
    let ghost s = content@;
    let n = cs.len();
    let mut lines: Vec<String> = Vec::new();
    let mut start: usize = 0;
    let mut i: usize = 0;
    assert(s.skip(0) =~= s);
    assert(views(lines@) + text_lines(s) =~= text_lines(s));
    while i < n
        invariant
            n == cs@.len(),
            cs@ == s,
            start <= i <= n,
            forall|j: int| start <= j < i ==> s[j] != '\n',
            text_lines(s) == views(lines@) + text_lines(s.skip(start as int)),
        decreases n - i,
    {
        if cs[i] == '\n' {
            let ghost t = s.skip(start as int);
            proof {
                lemma_first_newline_at(t, (i - start) as int);
                assert(t.take((i - start) as int) =~= s.subrange(start as int, i as int));
                assert(t.skip((i - start) as int + 1) =~= s.skip(i as int + 1));
            }
            let mut end = i;
            if end > start && cs[end - 1] == '\r' {
                end = end - 1;
            }
            let line = string_from_chars(&cs, start, end);
            let ghost before = lines@;
            lines.push(line);
            proof {
                assert(line@ == strip_carriage_return(s.subrange(start as int, i as int)));
                assert(views(lines@) =~= views(before) + seq![line@]);
            }
            start = i + 1;
        }
        i = i + 1;
    }
    if start < n {
        let ghost t = s.skip(start as int);
        proof {
            lemma_first_newline_at(t, t.len() as int);
        }
        let line = string_from_chars(&cs, start, n);
        let ghost before = lines@;
        lines.push(line);
        proof {
            assert(line@ =~= t);
            assert(views(lines@) =~= views(before) + seq![line@]);
        }
    } else {
        assert(s.skip(start as int) =~= Seq::<char>::empty());
        assert(views(lines@) + text_lines(s.skip(start as int)) =~= views(lines@));
    }
    lines
}

/// The content of the replay file for the arguments `args`.
pub fn replay_content(args: &Vec<String>) -> (content: String)
    ensures
        content@ == replay_text(views(args@)),
{
    let ghost a = views(args@);
    let mut content = String::new();
    let mut i: usize = 0;
    assert(a.skip(0) =~= a);
    assert(content@ + replay_text(a) =~= replay_text(a));
    while i < args.len()
        invariant
            i <= args@.len(),
            a == views(args@),
            content@ + replay_text(a.skip(i as int)) == replay_text(a),
        decreases args@.len() - i,
    {
        proof {
            assert(a.skip(i as int).drop_first() =~= a.skip(i as int + 1));
            assert(a.skip(i as int)[0] == args@[i as int]@);
        }
        content.append(args[i].as_str());
        push_char(&mut content, '\n');
        proof {
            assert(content@ + replay_text(a.skip(i as int + 1)) =~= replay_text(a));
        }
        i = i + 1;
    }
    proof {
        assert(a.skip(i as int) =~= Seq::<Seq<char>>::empty());
        assert(content@ + replay_text(a.skip(i as int)) =~= content@);
    }
    content
}

} // verus!
