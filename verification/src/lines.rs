//! Line-oriented text operations: the pure core of the local file tools
//! (grep, line edit, insert, delete, ranged read). Content is modelled as
//! its lines — segments between newlines, with a trailing carriage return
//! stripped — and every operation is exact over that model.

use vstd::prelude::*;
use vstd::slice::slice_subrange;
use crate::encoding::{find_byte, find_byte_exec, find_byte_props};
use crate::scheduler::{spec_contains_sub, bytes_contains, ascii_upper, ascii_upper_bytes};

verus! {

/// A line with its trailing carriage return removed.
pub open spec fn strip_cr(s: Seq<u8>) -> Seq<u8> {
    if s.len() > 0 && s.last() == 13 {
        s.drop_last()
    } else {
        s
    }
}

/// The lines of a text: segments between newline bytes; a trailing newline
/// produces no extra empty line.
pub open spec fn spec_lines(s: Seq<u8>) -> Seq<Seq<u8>>
    decreases s.len(),
    via spec_lines_decreases
{
    if s.len() == 0 {
        seq![]
    } else {
        let a = find_byte(s, 10);
        if a == s.len() {
            seq![strip_cr(s)]
        } else {
            seq![strip_cr(s.take(a))] + spec_lines(s.skip(a + 1))
        }
    }
}

#[via_fn]
proof fn spec_lines_decreases(s: Seq<u8>) {
    find_byte_props(s, 10);
}

/// Lines joined back with single newlines, no trailing newline.
pub open spec fn spec_join(ls: Seq<Seq<u8>>) -> Seq<u8>
    decreases ls.len(),
{
    if ls.len() == 0 {
        seq![]
    } else if ls.len() == 1 {
        ls[0]
    } else {
        ls[0] + seq![10u8] + spec_join(ls.drop_first())
    }
}

/// Splits a text into its lines.
pub fn split_lines(s: &[u8]) -> (r: Vec<Vec<u8>>)
    ensures
        r@.map_values(|l: Vec<u8>| l@) == spec_lines(s@),
    decreases s@.len(),
{
    let mut out: Vec<Vec<u8>> = Vec::new();
    if s.len() == 0 {
        proof {
            assert(out@.map_values(|l: Vec<u8>| l@) =~= spec_lines(s@));
        }
        return out;
    }
    let a = find_byte_exec(s, 10);
    proof {
        find_byte_props(s@, 10);
    }
    if a == s.len() {
        out.push(strip_cr_exec(crate::encoding::clone_bytes(s)));
        proof {
            assert(out@.map_values(|l: Vec<u8>| l@) =~= spec_lines(s@));
        }
        out
    } else {
        let head = strip_cr_exec(crate::encoding::clone_bytes(slice_subrange(s, 0, a)));
        out.push(head);
        let mut rest = split_lines(slice_subrange(s, a + 1, s.len()));
        out.append(&mut rest);
        proof {
            assert(out@.map_values(|l: Vec<u8>| l@) =~= spec_lines(s@));
        }
        out
    }
}

/// Removes a trailing carriage return.
fn strip_cr_exec(s: Vec<u8>) -> (r: Vec<u8>)
    ensures
        r@ == strip_cr(s@),
{
    let ghost s0 = s@;
    let mut t = s;
    if t.len() > 0 && t[t.len() - 1] == 13 {
        t.pop();
        proof {
            assert(t@ =~= strip_cr(s0));
        }
    }
    t
}

/// Joining one more line appends a newline and the line.
pub proof fn lemma_join_snoc(ls: Seq<Seq<u8>>, l: Seq<u8>)
    ensures
        spec_join(ls.push(l)) == if ls.len() == 0 {
            l
        } else {
            spec_join(ls) + seq![10u8] + l
        },
    decreases ls.len(),
{
    reveal_with_fuel(spec_join, 3);
    if ls.len() == 0 {
        assert(ls.push(l)[0] == l);
        assert(spec_join(ls.push(l)) == l);
    } else {
        assert(ls.push(l)[0] == ls[0]);
        assert(ls.push(l).drop_first() =~= ls.drop_first().push(l));
        lemma_join_snoc(ls.drop_first(), l);
        if ls.len() == 1 {
            assert(ls.drop_first().len() == 0);
            assert(spec_join(ls) == ls[0]);
        } else {
            assert(ls[0] + seq![10u8] + (spec_join(ls.drop_first()) + seq![10u8] + l) =~= (ls[0]
                + seq![10u8] + spec_join(ls.drop_first())) + seq![10u8] + l);
        }
    }
}

/// Joins lines back into a text.
pub fn join_lines(ls: &Vec<Vec<u8>>) -> (r: Vec<u8>)
    ensures
        r@ == spec_join(ls@.map_values(|l: Vec<u8>| l@)),
{
    let ghost lsv = ls@.map_values(|l: Vec<u8>| l@);
    let mut out: Vec<u8> = Vec::new();
    let mut i: usize = 0;
    proof {
        assert(lsv.take(0) =~= Seq::<Seq<u8>>::empty());
    }
    while i < ls.len()
        invariant
            i <= ls@.len(),
            lsv == ls@.map_values(|l: Vec<u8>| l@),
            out@ == spec_join(lsv.take(i as int)),
        decreases ls@.len() - i,
    {
        proof {
            assert(lsv.take(i + 1) =~= lsv.take(i as int).push(lsv[i as int]));
            lemma_join_snoc(lsv.take(i as int), lsv[i as int]);
        }
        if i > 0 {
            out.push(10);
        }
        let mut seg = crate::encoding::clone_bytes(ls[i].as_slice());
        out.append(&mut seg);
        proof {
            if i == 0 {
                assert(out@ =~= lsv[0]);
            }
        }
        i = i + 1;
    }
    proof {
        assert(lsv.take(i as int) =~= lsv);
    }
    out
}

/// Why a line operation is refused.
#[derive(Clone, Copy, PartialEq, Eq, Structural, Debug)]
pub enum LineOpError {
    /// Line numbers are 1-based: zero is never valid.
    LineNumberZero,
    /// The file has fewer lines than the requested number.
    LineOutOfRange(usize),
}

/// Replaces line `line_number` (1-based) and returns the re-joined text.
/// Fails exactly when the number is zero or past the last line, naming the
/// line count.
pub fn edit_line(content: &[u8], line_number: u64, new_content: &[u8]) -> (r: Result<
    Vec<u8>,
    LineOpError,
>)
    ensures
        line_number == 0 ==> r == Err::<Vec<u8>, LineOpError>(LineOpError::LineNumberZero),
        line_number > 0 && line_number > spec_lines(content@).len() ==> (r matches Err(e)
            && e matches LineOpError::LineOutOfRange(n) && n == spec_lines(content@).len()),
        1 <= line_number <= spec_lines(content@).len() ==> (r matches Ok(out) && out@ == spec_join(
            spec_lines(content@).update(line_number - 1, new_content@),
        )),
{
    if line_number == 0 {
        return Err(LineOpError::LineNumberZero);
    }
    let mut lines = split_lines(content);
    if line_number > lines.len() as u64 {
        return Err(LineOpError::LineOutOfRange(lines.len()));
    }
    let idx = (line_number - 1) as usize;
    lines.remove(idx);
    lines.insert(idx, crate::encoding::clone_bytes(new_content));
    proof {
        assert(lines@.map_values(|l: Vec<u8>| l@) =~= spec_lines(content@).update(
            line_number - 1,
            new_content@,
        ));
    }
    Ok(join_lines(&lines))
}

/// Inserts a new line at `line_number` (1-based; past-the-end clamps to
/// appending) and returns the re-joined text. Fails only on zero.
pub fn insert_line(content: &[u8], line_number: u64, new_content: &[u8]) -> (r: Result<
    Vec<u8>,
    LineOpError,
>)
    ensures
        line_number == 0 ==> r == Err::<Vec<u8>, LineOpError>(LineOpError::LineNumberZero),
        line_number > 0 ==> (r matches Ok(out) && out@ == spec_join(
            spec_lines(content@).insert(
                if line_number - 1 <= spec_lines(content@).len() {
                    line_number - 1
                } else {
                    spec_lines(content@).len() as int
                },
                new_content@,
            ),
        )),
{
    if line_number == 0 {
        return Err(LineOpError::LineNumberZero);
    }
    let mut lines = split_lines(content);
    let idx = if line_number - 1 <= lines.len() as u64 {
        (line_number - 1) as usize
    } else {
        lines.len()
    };
    lines.insert(idx, crate::encoding::clone_bytes(new_content));
    proof {
        assert(lines@.map_values(|l: Vec<u8>| l@) =~= spec_lines(content@).insert(
            if line_number - 1 <= spec_lines(content@).len() {
                line_number - 1
            } else {
                spec_lines(content@).len() as int
            },
            new_content@,
        ));
    }
    Ok(join_lines(&lines))
}

/// Deletes line `line_number` (1-based) and returns the re-joined text.
/// Fails exactly when the number is zero or past the last line.
pub fn delete_line(content: &[u8], line_number: u64) -> (r: Result<Vec<u8>, LineOpError>)
    ensures
        line_number == 0 ==> r == Err::<Vec<u8>, LineOpError>(LineOpError::LineNumberZero),
        line_number > 0 && line_number > spec_lines(content@).len() ==> (r matches Err(e)
            && e matches LineOpError::LineOutOfRange(n) && n == spec_lines(content@).len()),
        1 <= line_number <= spec_lines(content@).len() ==> (r matches Ok(out) && out@ == spec_join(
            spec_lines(content@).remove(line_number - 1),
        )),
{
    if line_number == 0 {
        return Err(LineOpError::LineNumberZero);
    }
    let mut lines = split_lines(content);
    if line_number > lines.len() as u64 {
        return Err(LineOpError::LineOutOfRange(lines.len()));
    }
    lines.remove((line_number - 1) as usize);
    proof {
        assert(lines@.map_values(|l: Vec<u8>| l@) =~= spec_lines(content@).remove(
            line_number - 1,
        ));
    }
    Ok(join_lines(&lines))
}

/// The requested 1-based inclusive range of lines, and the total count.
/// An invalid range (zero start, or end before start) is refused.
pub fn read_lines_range(content: &[u8], start_line: u64, end_line: u64) -> (r: Result<
    (Vec<Vec<u8>>, usize),
    LineOpError,
>)
    ensures
        start_line == 0 || end_line < start_line ==> r == Err::<(Vec<Vec<u8>>, usize), LineOpError>(
            LineOpError::LineNumberZero,
        ),
        start_line >= 1 && end_line >= start_line ==> (r matches Ok(out) && {
            let ls = spec_lines(content@);
            let lo = if start_line - 1 <= ls.len() { start_line - 1 } else { ls.len() as int };
            let hi = if end_line <= ls.len() { end_line as int } else { ls.len() as int };
            &&& out.1 == ls.len()
            &&& out.0@.map_values(|l: Vec<u8>| l@) == ls.subrange(lo, hi)
        }),
{
    if start_line == 0 || end_line < start_line {
        return Err(LineOpError::LineNumberZero);
    }
    let lines = split_lines(content);
    let total = lines.len();
    let lo = if start_line - 1 <= lines.len() as u64 {
        (start_line - 1) as usize
    } else {
        lines.len()
    };
    let hi = if end_line <= lines.len() as u64 {
        end_line as usize
    } else {
        lines.len()
    };
    let mut out: Vec<Vec<u8>> = Vec::new();
    let mut i: usize = lo;
    while i < hi
        invariant
            lo <= i <= hi <= lines@.len(),
            out@.map_values(|l: Vec<u8>| l@) == lines@.map_values(|l: Vec<u8>| l@).subrange(
                lo as int,
                i as int,
            ),
        decreases hi - i,
    {
        let ghost before = out@.map_values(|l: Vec<u8>| l@);
        out.push(crate::encoding::clone_bytes(lines[i].as_slice()));
        proof {
            assert(out@.map_values(|l: Vec<u8>| l@) =~= before.push(lines@[i as int]@));
            assert(before.push(lines@[i as int]@) =~= lines@.map_values(
                |l: Vec<u8>| l@,
            ).subrange(lo as int, i + 1));
        }
        i = i + 1;
    }
    proof {
        if lo >= hi {
            assert(out@.map_values(|l: Vec<u8>| l@) =~= lines@.map_values(
                |l: Vec<u8>| l@,
            ).subrange(lo as int, hi as int));
        }
    }
    Ok((out, total))
}

/// A line matches when it contains the pattern, ignoring ASCII case.
pub open spec fn line_matches(line: Seq<u8>, pattern: Seq<u8>) -> bool {
    spec_contains_sub(ascii_upper(line), ascii_upper(pattern))
}

/// The matching lines with their 1-based numbers, starting at `base`.
pub open spec fn spec_grep(ls: Seq<Seq<u8>>, pattern: Seq<u8>, base: int) -> Seq<(int, Seq<u8>)>
    decreases ls.len(),
{
    if ls.len() == 0 {
        seq![]
    } else {
        (if line_matches(ls[0], pattern) {
            seq![(base, ls[0])]
        } else {
            seq![]
        }) + spec_grep(ls.drop_first(), pattern, base + 1)
    }
}

/// Finds the lines containing the pattern (ignoring ASCII case), each with
/// its 1-based line number.
pub fn grep_lines(content: &[u8], pattern: &[u8]) -> (r: Vec<(usize, Vec<u8>)>)
    ensures
        r@.map_values(|m: (usize, Vec<u8>)| (m.0 as int, m.1@)) == spec_grep(
            spec_lines(content@),
            pattern@,
            1,
        ),
{
    let lines = split_lines(content);
    let needle = ascii_upper_bytes(pattern);
    let mut out: Vec<(usize, Vec<u8>)> = Vec::new();
    let mut i: usize = 0;
    let ghost lsv = lines@.map_values(|l: Vec<u8>| l@);
    proof {
        assert(lsv.skip(0) =~= lsv);
        assert(out@.map_values(|m: (usize, Vec<u8>)| (m.0 as int, m.1@)) + spec_grep(
            lsv.skip(0),
            pattern@,
            1,
        ) =~= spec_grep(lsv, pattern@, 1));
    }
    while i < lines.len()
        invariant
            i <= lines@.len(),
            lsv == lines@.map_values(|l: Vec<u8>| l@),
            spec_grep(lsv, pattern@, 1) == out@.map_values(
                |m: (usize, Vec<u8>)| (m.0 as int, m.1@),
            ) + spec_grep(lsv.skip(i as int), pattern@, i + 1),
            needle@ == ascii_upper(pattern@),
        decreases lines@.len() - i,
    {
        proof {
            assert(lsv.skip(i as int)[0] == lsv[i as int]);
            assert(lsv.skip(i as int).drop_first() =~= lsv.skip(i + 1));
        }
        let hay = ascii_upper_bytes(lines[i].as_slice());
        if bytes_contains(hay.as_slice(), needle.as_slice()) {
            out.push((i + 1, crate::encoding::clone_bytes(lines[i].as_slice())));
            proof {
                assert(out@.map_values(|m: (usize, Vec<u8>)| (m.0 as int, m.1@)) =~= out@.map_values(
                    |m: (usize, Vec<u8>)| (m.0 as int, m.1@),
                ).drop_last().push((i + 1, lsv[i as int])));
            }
        }
        i = i + 1;
    }
    proof {
        assert(lsv.skip(i as int) =~= Seq::<Seq<u8>>::empty());
        assert(out@.map_values(|m: (usize, Vec<u8>)| (m.0 as int, m.1@)) =~= spec_grep(
            lsv,
            pattern@,
            1,
        ));
    }
    out
}

} // verus!
