use vstd::prelude::*;

verus! {

/// The views of a sequence of owned strings.
pub open spec fn views_of(v: Seq<String>) -> Seq<Seq<char>> {
    v.map_values(|s: String| s@)
}

/// A line's text with one trailing carriage return removed, as happens
/// when the line was terminated by a CRLF pair rather than a bare newline.
pub open spec fn strip_trailing_cr(l: Seq<char>) -> Seq<char> {
    if l.len() > 0 && l.last() == '\r' {
        l.drop_last()
    } else {
        l
    }
}

/// The lines of `cur + s`, where `cur` is text already read for the line
/// in progress.  A newline ends the line in progress (dropping a carriage
/// return just before it); text left over at the end forms a final line,
/// kept as written, and a trailing newline adds no empty final line.
pub open spec fn spec_lines_from(s: Seq<char>, cur: Seq<char>) -> Seq<Seq<char>>
    decreases s.len(),
{
    if s.len() == 0 {
        if cur.len() == 0 {
            Seq::empty()
        } else {
            seq![cur]
        }
    } else if s[0] == '\n' {
        seq![strip_trailing_cr(cur)] + spec_lines_from(s.skip(1), Seq::empty())
    } else {
        spec_lines_from(s.skip(1), cur.push(s[0]))
    }
}

/// The lines of `s`: maximal runs between newline characters, each with a
/// carriage return before the newline dropped.
pub open spec fn spec_lines(s: Seq<char>) -> Seq<Seq<char>> {
    spec_lines_from(s, Seq::empty())
}

/// Splits text into its lines.
pub fn split_lines(s: &str) -> (r: Vec<String>)
    ensures
        views_of(r@) == spec_lines(s@),
{
    let n = s.unicode_len();
    let mut out: Vec<String> = Vec::new();
    let mut start: usize = 0;
    let mut i: usize = 0;
    proof {
        assert(s@.skip(0) =~= s@);
        assert(s@.subrange(0, 0) =~= Seq::<char>::empty());
    }
    while i < n
        invariant
            n == s@.len(),
            start <= i <= n,
            spec_lines(s@) == views_of(out@) + spec_lines_from(
                s@.skip(i as int),
                s@.subrange(start as int, i as int),
            ),
        decreases n - i,
    {
        let ghost rest = s@.skip(i as int);
        let ghost cur = s@.subrange(start as int, i as int);
        proof {
            assert(rest[0] == s@[i as int]);
            assert(rest.skip(1) =~= s@.skip(i as int + 1));
        }
        let c = s.get_char(i);
        if c == '\n' {
            let end = if i > start && s.get_char(i - 1) == '\r' {
                i - 1
            } else {
                i
            };
            let piece = s.substring_char(start, end);
            proof {
                if i > start && s@[i as int - 1] == '\r' {
                    assert(cur.len() > 0);
                    assert(cur.last() == s@[i as int - 1]);
                    assert(cur.drop_last() =~= s@.subrange(start as int, i as int - 1));
                    assert(piece@ == strip_trailing_cr(cur));
                } else {
                    if cur.len() > 0 {
                        assert(cur.last() == s@[i as int - 1]);
                    }
                    assert(piece@ == strip_trailing_cr(cur));
                }
            }
            let ghost out0 = out@;
            out.push(String::from_str(piece));
            proof {
                assert(views_of(out@) =~= views_of(out0).push(piece@));
                assert(spec_lines_from(rest, cur) == seq![strip_trailing_cr(cur)]
                    + spec_lines_from(rest.skip(1), Seq::empty()));
                assert(views_of(out@) + spec_lines_from(rest.skip(1), Seq::empty())
                    =~= (views_of(out0) + spec_lines_from(rest, cur)));
                assert(s@.subrange(i as int + 1, i as int + 1) =~= Seq::<char>::empty());
            }
            start = i + 1;
        } else {
            proof {
                assert(spec_lines_from(rest, cur) == spec_lines_from(
                    rest.skip(1),
                    cur.push(s@[i as int]),
                ));
                assert(cur.push(s@[i as int]) =~= s@.subrange(start as int, i as int + 1));
            }
        }
        i = i + 1;
    }
    proof {
        assert(s@.skip(n as int) =~= Seq::<char>::empty());
    }
    if start < n {
        let piece = s.substring_char(start, n);
        let ghost out0 = out@;
        out.push(String::from_str(piece));
        proof {
            assert(views_of(out@) =~= views_of(out0).push(piece@));
            assert(views_of(out@) =~= views_of(out0) + seq![s@.subrange(start as int, n as int)]);
        }
    } else {
        proof {
            assert(s@.subrange(start as int, n as int).len() == 0);
            assert(views_of(out@) + spec_lines_from(
                Seq::<char>::empty(),
                s@.subrange(start as int, n as int),
            ) =~= views_of(out@));
        }
    }
    out
}

} // verus!
