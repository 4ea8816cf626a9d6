//! Joining command words and wrapping the joined text for the sidebar.
//!
//! Wrapped lines carry a trailing indicator character; when the wrapped text
//! is cut to a maximum number of lines, the last kept line is shortened and
//! marked with an ellipsis.

use vstd::prelude::*;
use vstd::string::StrSliceExecFns;
use vstd::string::StringExecFns;

verus! {

/// Character appended to a line that continues on the next one.
pub const WRAP_INDICATOR: char = '\u{21a9}';

/// Character marking that wrapped lines were cut off.
pub const ELLIPSIS: char = '\u{2026}';

/// The words joined by single spaces.
pub open spec fn join_spaced(parts: Seq<Seq<char>>) -> Seq<char>
    decreases parts.len(),
{
    if parts.len() == 0 {
        Seq::empty()
    } else if parts.len() == 1 {
        parts[0]
    } else {
        join_spaced(parts.drop_last()) + seq![' '] + parts.last()
    }
}

/// The text cut into lines of at most `width` characters; every line that
/// continues ends with the wrap indicator, which counts against the width.
pub open spec fn wrap_chars(chars: Seq<char>, width: int) -> Seq<Seq<char>>
    decreases chars.len(),
    when width >= 2
{
    if chars.len() == 0 {
        Seq::empty()
    } else if chars.len() <= width {
        seq![chars]
    } else {
        seq![chars.take(width - 1).push(WRAP_INDICATOR)] + wrap_chars(chars.skip(width - 1), width)
    }
}

/// The line with every trailing wrap indicator removed.
pub open spec fn strip_trailing_wrap(line: Seq<char>) -> Seq<char>
    decreases line.len(),
{
    if line.len() > 0 && line.last() == WRAP_INDICATOR {
        strip_trailing_wrap(line.drop_last())
    } else {
        line
    }
}

/// The last kept line when the text was cut: stripped of its wrap
/// indicator, shortened to leave room for the ellipsis, and marked with it.
pub open spec fn truncated_line(line: Seq<char>, width: int) -> Seq<char> {
    let stripped = strip_trailing_wrap(line);
    let keep = if stripped.len() <= width - 1 {
        stripped.len() as int
    } else {
        width - 1
    };
    stripped.take(keep).push(ELLIPSIS)
}

/// The wrapped text cut to at most `max_lines` lines, the last kept line
/// marked with an ellipsis when anything was cut.
pub open spec fn wrap_limited(chars: Seq<char>, width: int, max_lines: int) -> Seq<Seq<char>> {
    let ls = wrap_chars(chars, width);
    if ls.len() <= max_lines {
        ls
    } else if max_lines == 0 {
        Seq::empty()
    } else {
        ls.take(max_lines).update(max_lines - 1, truncated_line(ls[max_lines - 1], width))
    }
}

/// The characters of a string slice, in order.
pub fn str_chars(s: &str) -> (chars: Vec<char>)
    ensures
        chars@ == s@,
{
    let n = s.unicode_len();
    let mut chars: Vec<char> = Vec::new();
    let mut i: usize = 0;
    while i < n
        invariant
            i <= n,
            n == s@.len(),
            chars@ == s@.take(i as int),
        decreases n - i,
    {
        chars.push(s.get_char(i));
        proof {
            assert(chars@ =~= s@.take(i + 1));
        }
        i = i + 1;
    }
    proof {
        assert(s@.take(n as int) =~= s@);
    }
    chars
}

/// A string holding exactly the given characters.
pub fn chars_to_string(chars: &Vec<char>) -> (s: String)
    ensures
        s@ == chars@,
{
    let mut s = String::new();
    let mut i: usize = 0;
    while i < chars.len()
        invariant
            i <= chars@.len(),
            s@ == chars@.take(i as int),
        decreases chars@.len() - i,
    {
        s.push(chars[i]);
        proof {
            assert(s@ =~= chars@.take(i + 1));
        }
        i = i + 1;
    }
    proof {
        assert(chars@.take(chars@.len() as int) =~= chars@);
    }
    s
}

/// The words joined by single spaces.
pub fn join_words(words: &[String]) -> (joined: String)
    ensures
        joined@ == join_spaced(words.deep_view()),
{
    let mut joined = String::new();
    let n = words.len();
    let mut i: usize = 0;
    while i < n
        invariant
            i <= n,
            n == words.deep_view().len(),
            joined@ == join_spaced(words.deep_view().take(i as int)),
        decreases n - i,
    {
        if i > 0 {
            joined.push(' ');
        }
        let w: &String = &words[i];
        joined.append(w.as_str());
        proof {
            let parts = words.deep_view().take(i + 1);
            assert(parts.drop_last() =~= words.deep_view().take(i as int));
            assert(parts.last() == words.deep_view()[i as int]);
            assert(joined@ =~= join_spaced(parts));
        }
        i = i + 1;
    }
    proof {
        assert(words.deep_view().take(n as int) =~= words.deep_view());
    }
    joined
}

/// Join the command words with spaces and wrap the result to `max_width`
/// characters per line and at most `max_lines` lines, marking continuation
/// with the wrap indicator and a cut with an ellipsis.
pub fn wrap_command_text(command: &[String], max_width: usize, max_lines: usize) -> (lines: Vec<String>)
    requires
        max_width >= 2,
    ensures
        lines.deep_view() == wrap_limited(
            join_spaced(command.deep_view()),
            max_width as int,
            max_lines as int,
        ),
{
    let full = join_words(command);
    let chars = str_chars(full.as_str());
    let n = chars.len();
    let width = max_width;
    let ghost all = chars@;
    let ghost w = width as int;

    let mut wrapped: Vec<Vec<char>> = Vec::new();
    let mut start: usize = 0;
    proof {
        assert(all.skip(0) =~= all);
        assert(wrapped.deep_view() + wrap_chars(all, w) =~~= wrap_chars(all, w));
    }
    while start < n
        invariant
            start <= n,
            n == all.len(),
            all == chars@,
            2 <= w == width <= usize::MAX,
            wrapped.deep_view() + wrap_chars(all.skip(start as int), w) == wrap_chars(all, w),
        decreases n - start,
    {
        let ghost pre = wrapped.deep_view();
        let ghost tail = all.skip(start as int);
        let remaining = n - start;
        if remaining <= width {
            let line = copy_range(&chars, start, n);
            wrapped.push(line);
            proof {
                assert(line@ =~= tail);
                assert(wrap_chars(tail, w) == seq![tail]);
                assert(wrapped.deep_view() =~~= pre.push(tail));
                assert(all.skip(n as int) =~= Seq::<char>::empty());
                assert(wrap_chars(all.skip(n as int), w) == Seq::<Seq<char>>::empty());
                assert(pre.push(tail) + Seq::<Seq<char>>::empty() =~~= pre + seq![tail]);
                assert(pre + seq![tail] =~~= pre + wrap_chars(tail, w));
            }
            start = n;
        } else {
            let cut = start + (width - 1);
            let mut line = copy_range(&chars, start, cut);
            line.push(WRAP_INDICATOR);
            wrapped.push(line);
            proof {
                let first = tail.take(w - 1).push(WRAP_INDICATOR);
                assert(line@ =~= first);
                assert(tail.skip(w - 1) =~= all.skip(cut as int));
                assert(wrap_chars(tail, w) == seq![first] + wrap_chars(tail.skip(w - 1), w));
                assert(wrapped.deep_view() =~~= pre.push(first));
                assert(pre.push(first) + wrap_chars(all.skip(cut as int), w)
                    =~~= pre + (seq![first] + wrap_chars(tail.skip(w - 1), w)));
            }
            start = cut;
        }
    }
    proof {
        assert(all.skip(n as int) =~= Seq::<char>::empty());
        assert(wrap_chars(all.skip(n as int), w) == Seq::<Seq<char>>::empty());
        assert(wrapped.deep_view() + Seq::<Seq<char>>::empty() =~~= wrapped.deep_view());
    }

    let ghost all_lines = wrapped.deep_view();
    proof {
        assert(all_lines == wrap_chars(all, w));
    }
    if wrapped.len() > max_lines {
        let ghost ml = max_lines as int;
        wrapped.truncate(max_lines);
        proof {
            assert(wrapped.deep_view() =~~= all_lines.take(ml));
        }
        if let Some(last) = wrapped.pop() {
            proof {
                assert(last.deep_view() =~= last@);
                assert(last@ == all_lines.take(ml).last());
                assert(wrapped.deep_view() =~~= all_lines.take(ml).drop_last());
            }
            let ghost orig_last = last@;
            let mut last = last;
            while last.len() > 0 && last[last.len() - 1] == WRAP_INDICATOR
                invariant
                    strip_trailing_wrap(last@) == strip_trailing_wrap(orig_last),
                decreases last@.len(),
            {
                let ghost before = last@;
                let _ = last.pop();
                proof {
                    assert(last@ =~= before.drop_last());
                }
            }
            proof {
                assert(strip_trailing_wrap(last@) == last@);
            }
            let ghost stripped = last@;
            let keep = if last.len() <= max_width - 1 {
                last.len()
            } else {
                max_width - 1
            };
            last.truncate(keep);
            last.push(ELLIPSIS);
            proof {
                assert(stripped.subrange(0, keep as int) =~= stripped.take(keep as int));
                assert(last@ =~= truncated_line(orig_last, w));
            }
            wrapped.push(last);
            proof {
                assert(all_lines.take(ml).last() == all_lines[ml - 1]);
                assert(wrapped.deep_view()
                    =~~= all_lines.take(ml).update(ml - 1, truncated_line(all_lines[ml - 1], w)));
            }
        }
    }
    proof {
        assert(wrapped.deep_view() == wrap_limited(all, w, max_lines as int));
    }

    let mut lines: Vec<String> = Vec::new();
    let mut i: usize = 0;
    while i < wrapped.len()
        invariant
            i <= wrapped@.len(),
            lines.deep_view() == wrapped.deep_view().take(i as int),
        decreases wrapped@.len() - i,
    {
        let ghost pre_lines = lines.deep_view();
        let s = chars_to_string(&wrapped[i]);
        let ghost sv = s@;
        lines.push(s);
        proof {
            assert(lines.deep_view() =~~= pre_lines.push(sv));
            assert(wrapped.deep_view()[i as int] =~= wrapped@[i as int]@);
            assert(sv == wrapped.deep_view()[i as int]);
            assert(pre_lines.push(sv) =~~= wrapped.deep_view().take(i + 1));
        }
        i = i + 1;
    }
    proof {
        assert(wrapped.deep_view().take(wrapped@.len() as int) =~~= wrapped.deep_view());
        assert(all == join_spaced(command.deep_view()));
    }
    lines
}

/// The characters of `chars` from `from` (inclusive) to `to` (exclusive).
fn copy_range(chars: &Vec<char>, from: usize, to: usize) -> (out: Vec<char>)
    requires
        from <= to <= chars@.len(),
    ensures
        out@ == chars@.subrange(from as int, to as int),
{
    let mut out: Vec<char> = Vec::new();
    let mut i: usize = from;
    while i < to
        invariant
            from <= i <= to <= chars@.len(),
            out@ == chars@.subrange(from as int, i as int),
        decreases to - i,
    {
        out.push(chars[i]);
        proof {
            assert(out@ =~= chars@.subrange(from as int, i + 1));
        }
        i = i + 1;
    }
    out
}

} // verus!
