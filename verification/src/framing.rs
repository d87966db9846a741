//! The framer: splitting one socket payload into trimmed, non-empty protocol
//! lines, in their original order.

use vstd::prelude::*;

use crate::text::{trim_spec, trim_str};

verus! {

/// Index of the first `'\n'` in `s`, or `-1` when there is none.
pub open spec fn find_nl(s: Seq<char>) -> int
    decreases s.len(),
{
    if s.len() == 0 {
        -1
    } else if s[0] == '\n' {
        0
    } else {
        let r = find_nl(s.drop_first());
        if r < 0 {
            -1
        } else {
            r + 1
        }
    }
}

proof fn lemma_find_nl(s: Seq<char>)
    ensures
        find_nl(s) < 0 ==> forall|k: int| 0 <= k < s.len() ==> s[k] != '\n',
        find_nl(s) >= 0 ==> 0 <= find_nl(s) < s.len() && s[find_nl(s)] == '\n' && forall|k: int|
            0 <= k < find_nl(s) ==> s[k] != '\n',
    decreases s.len(),
{
    if s.len() > 0 && s[0] != '\n' {
        let t = s.drop_first();
        lemma_find_nl(t);
        let r = find_nl(t);
        if r < 0 {
            assert forall|k: int| 0 <= k < s.len() implies s[k] != '\n' by {
                if k > 0 {
                    assert(t[k - 1] != '\n');
                }
            }
        } else {
            assert(s[r + 1] == t[r]);
            assert forall|k: int| 0 <= k < r + 1 implies s[k] != '\n' by {
                if k > 0 {
                    assert(t[k - 1] != '\n');
                }
            }
        }
    }
}

/// The lines one candidate line contributes: its trimmed form if anything is
/// left after trimming, nothing otherwise.
pub open spec fn line_of(l: Seq<char>) -> Seq<Seq<char>> {
    if trim_spec(l).len() > 0 {
        seq![trim_spec(l)]
    } else {
        Seq::empty()
    }
}

/// The protocol lines of a payload: split at every `'\n'`, trim each piece,
/// and keep the non-empty ones in order.
pub open spec fn frame_lines_spec(s: Seq<char>) -> Seq<Seq<char>>
    decreases s.len(),
{
    let k = find_nl(s);
    if 0 <= k < s.len() {
        line_of(s.subrange(0, k)) + frame_lines_spec(s.subrange(k + 1, s.len() as int))
    } else {
        line_of(s)
    }
}

/// The views of the extracted lines, for contracts over `Vec<String>`.
pub open spec fn lines_view(lines: Seq<String>) -> Seq<Seq<char>> {
    lines.map_values(|t: String| t@)
}

/// Find the first `'\n'` at or after `from` in `s`, if any.
fn find_newline(s: &str, from: usize) -> (r: Option<usize>)
    requires
        from <= s@.len(),
    ensures
        match r {
            Some(k) => from <= k < s@.len() && s@[k as int] == '\n' && forall|t: int|
                from <= t < k ==> s@[t] != '\n',
            None => forall|t: int| from <= t < s@.len() ==> s@[t] != '\n',
        },
{
    let n = s.unicode_len();
    let mut k = from;
    while k < n
        invariant
            from <= k <= n,
            n == s@.len(),
            forall|t: int| from <= t < k ==> s@[t] != '\n',
        decreases n - k,
    {
        if s.get_char(k) == '\n' {
            return Some(k);
        }
        k = k + 1;
    }
    None
}

/// Extract the protocol lines of one payload: split on line boundaries, trim
/// each candidate line, and drop the ones that are empty after trimming.
pub fn protocol_lines(payload: &str) -> (lines: Vec<String>)
    ensures
        lines_view(lines@) == frame_lines_spec(payload@),
{
    let n = payload.unicode_len();
    let mut lines: Vec<String> = Vec::new();
    let mut pos: usize = 0;
    let ghost mut seen: Seq<Seq<char>> = Seq::empty();
    proof {
        assert(payload@.subrange(0, n as int) =~= payload@);
        assert(seen + frame_lines_spec(payload@) =~= frame_lines_spec(payload@));
    }
    loop
        invariant_except_break
            frame_lines_spec(payload@) == seen + frame_lines_spec(
                payload@.subrange(pos as int, n as int),
            ),
        invariant
            pos <= n,
            n == payload@.len(),
            lines_view(lines@) == seen,
        ensures
            lines_view(lines@) == frame_lines_spec(payload@),
        decreases n - pos,
    {
        let ghost rest = payload@.subrange(pos as int, n as int);
        let ghost seen0 = seen;
        let found = find_newline(payload, pos);
        let end = match found {
            Some(k) => k,
            None => n,
        };
        proof {
            lemma_find_nl(rest);
            match found {
                Some(k) => {
                    assert(rest[k - pos] == '\n');
                    assert(find_nl(rest) == k - pos) by {
                        if find_nl(rest) < 0 {
                            assert(rest[k - pos] != '\n');
                        } else if find_nl(rest) < k - pos {
                            assert(payload@[pos + find_nl(rest)] == rest[find_nl(rest)]);
                            assert(payload@[pos + find_nl(rest)] != '\n');
                        } else if find_nl(rest) > k - pos {
                            assert(rest[k - pos] != '\n');
                        }
                    }
                },
                None => {
                    assert(find_nl(rest) < 0) by {
                        if find_nl(rest) >= 0 {
                            assert(payload@[pos + find_nl(rest)] == rest[find_nl(rest)]);
                            assert(payload@[pos + find_nl(rest)] != '\n');
                        }
                    }
                },
            }
        }
        let piece = payload.substring_char(pos, end);
        let trimmed = trim_str(piece);
        proof {
            assert(piece@ =~= rest.subrange(0, end - pos));
        }
        if trimmed.unicode_len() > 0 {
            lines.push(String::from_str(trimmed));
            proof {
                seen = seen + seq![trimmed@];
                assert(lines_view(lines@) =~= seen);
            }
        }
        proof {
            if trimmed@.len() > 0 {
                assert(line_of(piece@) =~= seq![trimmed@]);
            } else {
                assert(line_of(piece@) =~= Seq::<Seq<char>>::empty());
            }
            assert(seen =~= seen0 + line_of(piece@));
        }
        match found {
            Some(k) => {
                proof {
                    let rest2 = payload@.subrange(k + 1, n as int);
                    assert(rest.subrange(k - pos + 1, rest.len() as int) =~= rest2);
                    assert(rest.subrange(0, k - pos) == piece@);
                    assert(frame_lines_spec(rest) == line_of(piece@) + frame_lines_spec(rest2));
                    assert(seen0 + (line_of(piece@) + frame_lines_spec(rest2)) =~= (seen0 + line_of(
                        piece@,
                    )) + frame_lines_spec(rest2));
                }
                pos = k + 1;
            },
            None => {
                proof {
                    assert(piece@ =~= rest);
                    assert(frame_lines_spec(rest) == line_of(rest));
                    assert(seen =~= seen0 + line_of(rest));
                }
                break ;
            },
        }
    }
    lines
}

} // verus!
