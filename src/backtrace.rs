use vstd::prelude::*;
use vstd::slice::slice_subrange;
use vstd::string::StringSliceAdditionalSpecFns;

verus! {

/// The lines of `t` that begin at `start`, the current one running on from
/// `i`: split at each newline, and the text after the last newline is a line
/// too, empty or not.
pub open spec fn lines_from(t: Seq<u8>, start: int, i: int) -> Seq<Seq<u8>>
    decreases t.len() - i,
{
    if i >= t.len() {
        seq![t.subrange(start, t.len() as int)]
    } else if t[i] == 10u8 {
        seq![t.subrange(start, i)] + lines_from(t, i + 1, i + 1)
    } else {
        lines_from(t, start, i + 1)
    }
}

/// The lines of `t`.
pub open spec fn lines(t: Seq<u8>) -> Seq<Seq<u8>> {
    lines_from(t, 0, 0)
}

/// Whether `s` begins with `p`.
pub open spec fn has_prefix(s: Seq<u8>, p: Seq<u8>) -> bool {
    p.len() <= s.len() && s.subrange(0, p.len() as int) == p
}

/// Whether `p` occurs in `s`.
pub open spec fn has_infix(s: Seq<u8>, p: Seq<u8>) -> bool {
    exists|i: int| 0 <= i <= s.len() - p.len() && #[trigger] s.subrange(i, i + p.len()) == p
}

/// The index of the first colon of `line` at or after `i`, or 0 when there
/// is none.
pub open spec fn colon_from(line: Seq<u8>, i: int) -> int
    decreases line.len() - i,
{
    if i >= line.len() {
        0
    } else if line[i] == 58u8 {
        i
    } else {
        colon_from(line, i + 1)
    }
}

/// The index of the first colon of `line`, or 0 when there is none.
pub open spec fn first_colon(line: Seq<u8>) -> int {
    colon_from(line, 0)
}

/// What follows the first colon of a frame line and the space after it;
/// empty where the line is too short for that.
pub open spec fn after_colon(line: Seq<u8>) -> Seq<u8> {
    let k = first_colon(line) + 2;
    if line.len() == 0 || k > line.len() {
        Seq::empty()
    } else {
        line.subrange(k, line.len() as int)
    }
}

/// `line` without its leading spaces.
pub open spec fn trim_spaces(line: Seq<u8>) -> Seq<u8>
    decreases line.len(),
{
    if line.len() > 0 && line[0] == 32u8 {
        trim_spaces(line.drop_first())
    } else {
        line
    }
}

/// Whether `s` begins with `p` (`p@` as bytes).
pub fn starts_with(s: &[u8], p: &[u8]) -> (r: bool)
    ensures
        r == has_prefix(s@, p@),
{
    if p.len() > s.len() {
        return false;
    }
    let mut i: usize = 0;
    while i < p.len()
        invariant
            p@.len() <= s@.len(),
            i <= p@.len(),
            forall|j: int| 0 <= j < i ==> s@[j] == p@[j],
        decreases p@.len() - i,
    {
        if s[i] != p[i] {
            assert(s@.subrange(0, p@.len() as int)[i as int] != p@[i as int]);
            return false;
        }
        i = i + 1;
    }
    assert(s@.subrange(0, p@.len() as int) =~= p@);
    true
}

/// Whether `p` occurs in `s`.
pub fn contains(s: &[u8], p: &[u8]) -> (r: bool)
    ensures
        r == has_infix(s@, p@),
{
    if p.len() > s.len() {
        return false;
    }
    let last = s.len() - p.len();
    let mut i: usize = 0;
    loop
        invariant
            p@.len() <= s@.len(),
            last == s@.len() - p@.len(),
            i <= last,
            forall|j: int| 0 <= j < i ==> #[trigger] s@.subrange(j, j + p@.len()) != p@,
        decreases last - i,
    {
        let rest = slice_subrange(s, i, s.len());
        if starts_with(rest, p) {
            assert(rest@.subrange(0, p@.len() as int) == s@.subrange(i as int, i + p@.len()));
            return true;
        }
        assert(rest@.subrange(0, p@.len() as int) == s@.subrange(i as int, i + p@.len()));
        if i == last {
            return false;
        }
        i = i + 1;
    }
}

/// What is carried from one line of a backtrace to the next: the text kept,
/// whether the next line is to be dropped, whether the next kept line names a
/// function (else it gives its place), and whether the end was reached.
pub type TrimState = (Seq<u8>, bool, bool, bool);

/// Whether a frame belongs to this library or to the async runtime.
pub open spec fn is_own_frame(a: Seq<u8>) -> bool {
    has_prefix(a, "busylib::".spec_bytes()) || has_prefix(a, "tokio::".spec_bytes())
        || has_infix(a, "busylib::prelude::EnhancedExpect".spec_bytes())
}

/// Whether a frame is where the program's own frames end.
pub open spec fn is_outer_frame(a: Seq<u8>) -> bool {
    has_prefix(a, "std::sys_common::backtrace::__rust_begin_short_backtrace".spec_bytes())
        || has_prefix(a, "<F as axum::handler::Handler".spec_bytes())
}

/// The text a kept line adds: a function name as it is, a place after a
/// space and followed by a newline, both without leading spaces.
pub open spec fn kept_piece(line: Seq<u8>, name_line: bool) -> Seq<u8> {
    if name_line {
        trim_spaces(line)
    } else {
        seq![32u8] + trim_spaces(line) + seq![10u8]
    }
}

/// The state after line number `i`, `line`, from the state `st` before it.
/// The first eight lines are the capture itself and are passed over.
pub open spec fn trim_step(st: TrimState, i: int, line: Seq<u8>) -> TrimState {
    let a = after_colon(line);
    if st.3 || i < 8 {
        st
    } else if st.1 {
        (st.0, false, st.2, st.3)
    } else if is_own_frame(a) {
        (st.0, true, st.2, st.3)
    } else if is_outer_frame(a) {
        (st.0, st.1, st.2, true)
    } else {
        (st.0 + kept_piece(line, st.2), st.1, !st.2, st.3)
    }
}

/// The state after all of `ls`.
pub open spec fn trim_lines(ls: Seq<Seq<u8>>) -> TrimState
    decreases ls.len(),
{
    if ls.len() == 0 {
        (Seq::empty(), false, true, false)
    } else {
        trim_step(trim_lines(ls.drop_last()), ls.len() - 1, ls.last())
    }
}

/// A rendered backtrace reduced to the caller's frames, one per line.
pub open spec fn human_readable(text: Seq<u8>) -> Seq<u8> {
    trim_lines(lines(text)).0
}

/// What follows the first colon of `line` and the space after it.
pub fn after_colon_of(line: &[u8]) -> (r: &[u8])
    ensures
        r@ == after_colon(line@),
{
    let mut i: usize = 0;
    while i < line.len() && line[i] != 58u8
        invariant
            i <= line@.len(),
            colon_from(line@, 0) == colon_from(line@, i as int),
        decreases line@.len() - i,
    {
        i = i + 1;
    }
    let k: usize = if i < line.len() { i } else { 0 };
    if line.len() == 0 || line.len() - k < 2 {
        &[]
    } else {
        slice_subrange(line, k + 2, line.len())
    }
}

/// `line` without its leading spaces.
pub fn trim_start_spaces(line: &[u8]) -> (r: &[u8])
    ensures
        r@ == trim_spaces(line@),
{
    let mut j: usize = 0;
    assert(line@.subrange(0, line@.len() as int) == line@);
    while j < line.len() && line[j] == 32u8
        invariant
            j <= line@.len(),
            trim_spaces(line@) == trim_spaces(line@.subrange(j as int, line@.len() as int)),
        decreases line@.len() - j,
    {
        assert(line@.subrange(j as int, line@.len() as int).drop_first()
            == line@.subrange(j + 1, line@.len() as int));
        j = j + 1;
    }
    slice_subrange(line, j, line.len())
}

/// Applies one line to the state, as `trim_step` says.
fn trim_line(st: (Vec<u8>, bool, bool, bool), i: usize, line: &[u8]) -> (r: (Vec<u8>, bool, bool, bool))
    ensures
        (r.0@, r.1, r.2, r.3) == trim_step((st.0@, st.1, st.2, st.3), i as int, line@),
{
    let (mut out, skip, name_line, stopped) = st;
    if stopped || i < 8 {
        return (out, skip, name_line, stopped);
    }
    if skip {
        return (out, false, name_line, stopped);
    }
    let a = after_colon_of(line);
    if starts_with(a, "busylib::".as_bytes()) || starts_with(a, "tokio::".as_bytes())
        || contains(a, "busylib::prelude::EnhancedExpect".as_bytes())
    {
        return (out, true, name_line, stopped);
    }
    if starts_with(a, "std::sys_common::backtrace::__rust_begin_short_backtrace".as_bytes())
        || starts_with(a, "<F as axum::handler::Handler".as_bytes())
    {
        return (out, skip, name_line, true);
    }
    let ghost before = out@;
    if !name_line {
        out.push(32u8);
    }
    out.extend_from_slice(trim_start_spaces(line));
    if !name_line {
        out.push(10u8);
    }
    proof {
        if name_line {
            assert(out@ == before + kept_piece(line@, name_line));
        } else {
            assert(out@ == before + kept_piece(line@, name_line));
        }
    }
    (out, skip, !name_line, stopped)
}

/// Reduces a rendered backtrace to the caller's frames: the first eight
/// lines go, each frame of this library or of the async runtime goes with
/// the line after it, the frames of the runtime's entry end it, and each
/// remaining function name is joined with its place on one line.
pub fn to_human_readable(full: &[u8]) -> (r: Vec<u8>)
    ensures
        r@ == human_readable(full@),
{
    let ghost t = full@;
    let ghost mut done: Seq<Seq<u8>> = Seq::empty();
    let mut st: (Vec<u8>, bool, bool, bool) = (Vec::new(), false, true, false);
    let mut start: usize = 0;
    let mut i: usize = 0;
    let mut n: usize = 0;
    loop
        invariant
            start <= i <= t.len(),
            t == full@,
            n == done.len(),
            n <= i,
            lines(t) == done + lines_from(t, start as int, i as int),
            (st.0@, st.1, st.2, st.3) == trim_lines(done),
        decreases t.len() - i, t.len() + 1 - done.len(),
    {
        if i == full.len() || full[i] == 10u8 {
            let line = slice_subrange(full, start, i);
            st = trim_line(st, n, line);
            proof {
                assert(done.push(line@).drop_last() == done);
                if i == t.len() {
                    assert(lines(t) == done.push(line@));
                } else {
                    assert(lines(t) == done.push(line@) + lines_from(t, i + 1, i + 1));
                }
                done = done.push(line@);
            }
            if i == full.len() {
                return st.0;
            }
            n = n + 1;
            i = i + 1;
            start = i;
        } else {
            i = i + 1;
        }
    }
}

} // verus!
