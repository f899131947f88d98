//! Server-sent-event framing of a recorded stream, on its UTF-8 bytes: CRLF is normalised to LF,
//! frames are separated by a blank line, and a frame's `data` lines are joined by LF. Every
//! delimiter is ASCII, so working on bytes gives the same pieces as working on characters.

use vstd::prelude::*;

verus! {

pub open spec fn lf() -> u8 {
    10u8
}

pub open spec fn cr() -> u8 {
    13u8
}

/// `replace("\r\n", "\n")`.
pub open spec fn crlf_to_lf(b: Seq<u8>) -> Seq<u8>
    decreases b.len(),
{
    if b.len() == 0 {
        b
    } else if b.len() >= 2 && b[0] == cr() && b[1] == lf() {
        seq![lf()] + crlf_to_lf(b.subrange(2, b.len() as int))
    } else {
        seq![b[0]] + crlf_to_lf(b.drop_first())
    }
}

/// The pieces of `b` between blank-line separators (`split("\n\n")`), scanning from `i` with the
/// current piece starting at `start`.
pub open spec fn frames_from(b: Seq<u8>, start: int, i: int) -> Seq<Seq<u8>>
    decreases b.len() - i,
{
    if i < 0 || i + 1 >= b.len() {
        seq![b.subrange(start, b.len() as int)]
    } else if b[i] == lf() && b[i + 1] == lf() {
        seq![b.subrange(start, i)] + frames_from(b, i + 2, i + 2)
    } else {
        frames_from(b, start, i + 1)
    }
}

pub open spec fn frames_of(b: Seq<u8>) -> Seq<Seq<u8>> {
    frames_from(b, 0, 0)
}

/// A line without its line ending: a `\r` right before the `\n` goes too.
pub open spec fn strip_cr(l: Seq<u8>) -> Seq<u8> {
    if l.len() > 0 && l.last() == cr() {
        l.drop_last()
    } else {
        l
    }
}

/// The lines of `b` (`str::lines`): a final line ending adds no empty line.
pub open spec fn lines_from(b: Seq<u8>, start: int, i: int) -> Seq<Seq<u8>>
    decreases b.len() - i,
{
    if i < 0 || i >= b.len() {
        if 0 <= start < b.len() {
            seq![b.subrange(start, b.len() as int)]
        } else {
            Seq::empty()
        }
    } else if b[i] == lf() {
        seq![strip_cr(b.subrange(start, i))] + lines_from(b, i + 1, i + 1)
    } else {
        lines_from(b, start, i + 1)
    }
}

pub open spec fn lines_of(b: Seq<u8>) -> Seq<Seq<u8>> {
    lines_from(b, 0, 0)
}

/// `data` and `data:` lines give their value, without one leading space.
pub open spec fn data_value(l: Seq<u8>) -> Option<Seq<u8>> {
    if l == seq![100u8, 97u8, 116u8, 97u8] {
        Some(Seq::empty())
    } else if l.len() >= 5 && l.take(5) == seq![100u8, 97u8, 116u8, 97u8, 58u8] {
        let rest = l.skip(5);
        if rest.len() > 0 && rest[0] == 32u8 {
            Some(rest.drop_first())
        } else {
            Some(rest)
        }
    } else {
        None
    }
}

/// The data values of the lines, in order.
pub open spec fn data_values(ls: Seq<Seq<u8>>) -> Seq<Seq<u8>>
    decreases ls.len(),
{
    if ls.len() == 0 {
        Seq::empty()
    } else {
        match data_value(ls.last()) {
            Some(v) => data_values(ls.drop_last()).push(v),
            None => data_values(ls.drop_last()),
        }
    }
}

/// The values joined by LF.
pub open spec fn lf_joined(vs: Seq<Seq<u8>>) -> Seq<u8>
    decreases vs.len(),
{
    if vs.len() == 0 {
        Seq::empty()
    } else if vs.len() == 1 {
        vs[0]
    } else {
        lf_joined(vs.drop_last()) + seq![lf()] + vs.last()
    }
}

/// The data of a frame, or `None` when it has no data line.
pub open spec fn frame_data(frame: Seq<u8>) -> Option<Seq<u8>> {
    let vs = data_values(lines_of(frame));
    if vs.len() == 0 {
        None
    } else {
        Some(lf_joined(vs))
    }
}

pub fn crlf_normalized(b: &[u8]) -> (r: Vec<u8>)
    ensures
        r@ == crlf_to_lf(b@),
{
    let mut out: Vec<u8> = Vec::new();
    let mut i: usize = 0;
    let n = b.len();
    proof {
        assert(b@.subrange(0, n as int) =~= b@);
        assert(out@ + crlf_to_lf(b@) =~= crlf_to_lf(b@));
    }
    while i < n
        invariant
            n == b@.len(),
            i <= n,
            out@ + crlf_to_lf(b@.subrange(i as int, n as int)) == crlf_to_lf(b@),
        decreases n - i,
    {
        let ghost rest = b@.subrange(i as int, n as int);
        if i + 1 < n && b[i] == 13u8 && b[i + 1] == 10u8 {
            out.push(10u8);
            proof {
                assert(rest.subrange(2, rest.len() as int) =~= b@.subrange(i + 2, n as int));
                assert(out@ + crlf_to_lf(b@.subrange(i + 2, n as int)) =~= crlf_to_lf(b@));
            }
            i = i + 2;
        } else {
            out.push(b[i]);
            proof {
                assert(rest.drop_first() =~= b@.subrange(i + 1, n as int));
                assert(out@ + crlf_to_lf(b@.subrange(i + 1, n as int)) =~= crlf_to_lf(b@));
            }
            i = i + 1;
        }
    }
    proof {
        assert(b@.subrange(n as int, n as int) =~= Seq::<u8>::empty());
        assert(out@ + Seq::<u8>::empty() =~= out@);
    }
    out
}

fn slice_range(b: &[u8], from: usize, to: usize) -> (r: Vec<u8>)
    requires
        from <= to <= b@.len(),
    ensures
        r@ == b@.subrange(from as int, to as int),
{
    let mut out: Vec<u8> = Vec::new();
    let mut i = from;
    while i < to
        invariant
            from <= i <= to <= b@.len(),
            out@ == b@.subrange(from as int, i as int),
        decreases to - i,
    {
        out.push(b[i]);
        i = i + 1;
        proof {
            assert(out@ =~= b@.subrange(from as int, i as int));
        }
    }
    out
}

pub open spec fn byte_views(v: Seq<Vec<u8>>) -> Seq<Seq<u8>> {
    v.map_values(|x: Vec<u8>| x@)
}

/// The frames of the bytes (see `frames_of`).
pub fn split_frames(b: &[u8]) -> (r: Vec<Vec<u8>>)
    ensures
        byte_views(r@) == frames_of(b@),
{
    let mut out: Vec<Vec<u8>> = Vec::new();
    let n = b.len();
    let mut start: usize = 0;
    let mut i: usize = 0;
    while i < n && i + 1 < n
        invariant
            n == b@.len(),
            start <= i <= n,
            byte_views(out@) + frames_from(b@, start as int, i as int) == frames_of(b@),
        decreases n - i,
    {
        if b[i] == 10u8 && b[i + 1] == 10u8 {
            let piece = slice_range(b, start, i);
            let ghost before = byte_views(out@);
            out.push(piece);
            proof {
                assert(byte_views(out@) =~= before.push(piece@));
                assert(byte_views(out@) + frames_from(b@, i + 2, i + 2) =~= before + frames_from(
                    b@,
                    start as int,
                    i as int,
                ));
            }
            i = i + 2;
            start = i;
        } else {
            i = i + 1;
        }
    }
    let last = slice_range(b, start, n);
    let ghost before = byte_views(out@);
    out.push(last);
    proof {
        assert(byte_views(out@) =~= before + frames_from(b@, start as int, i as int));
    }
    out
}

/// The lines of the bytes (see `lines_of`).
pub fn split_lines(b: &[u8]) -> (r: Vec<Vec<u8>>)
    ensures
        byte_views(r@) == lines_of(b@),
{
    let mut out: Vec<Vec<u8>> = Vec::new();
    let n = b.len();
    let mut start: usize = 0;
    let mut i: usize = 0;
    while i < n
        invariant
            n == b@.len(),
            start <= i <= n,
            byte_views(out@) + lines_from(b@, start as int, i as int) == lines_of(b@),
        decreases n - i,
    {
        if b[i] == 10u8 {
            let end = if i > start && b[i - 1] == 13u8 {
                i - 1
            } else {
                i
            };
            let piece = slice_range(b, start, end);
            let ghost before = byte_views(out@);
            out.push(piece);
            proof {
                let l = b@.subrange(start as int, i as int);
                if i > start && b@[i - 1] == 13u8 {
                    assert(l.drop_last() =~= b@.subrange(start as int, i - 1));
                }
                assert(piece@ == strip_cr(l));
                assert(byte_views(out@) =~= before.push(piece@));
                assert(byte_views(out@) + lines_from(b@, i + 1, i + 1) =~= before + lines_from(
                    b@,
                    start as int,
                    i as int,
                ));
            }
            i = i + 1;
            start = i;
        } else {
            i = i + 1;
        }
    }
    if start < n {
        let last = slice_range(b, start, n);
        let ghost before = byte_views(out@);
        out.push(last);
        proof {
            assert(byte_views(out@) =~= before + lines_from(b@, start as int, i as int));
        }
    } else {
        proof {
            assert(byte_views(out@) =~= byte_views(out@) + lines_from(b@, start as int, i as int));
        }
    }
    out
}

fn data_value_of(l: &Vec<u8>) -> (r: Option<Vec<u8>>)
    ensures
        match data_value(l@) {
            Some(v) => r matches Some(x) && x@ == v,
            None => r is None,
        },
{
    let n = l.len();
    if n == 4 && l[0] == 100u8 && l[1] == 97u8 && l[2] == 116u8 && l[3] == 97u8 {
        proof {
            assert(l@ =~= seq![100u8, 97u8, 116u8, 97u8]);
        }
        return Some(Vec::new());
    }
    proof {
        if n == 4 {
            if l@ == seq![100u8, 97u8, 116u8, 97u8] {
                assert(l@[0] == 100u8 && l@[1] == 97u8 && l@[2] == 116u8 && l@[3] == 97u8);
            }
        }
        if l@ == seq![100u8, 97u8, 116u8, 97u8] {
            assert(l@.len() == 4);
        }
    }
    if n >= 5 && l[0] == 100u8 && l[1] == 97u8 && l[2] == 116u8 && l[3] == 97u8 && l[4] == 58u8 {
        proof {
            assert(l@.take(5) =~= seq![100u8, 97u8, 116u8, 97u8, 58u8]);
        }
        let from: usize = if n > 5 && l[5] == 32u8 {
            6
        } else {
            5
        };
        let v = slice_range(l.as_slice(), from, n);
        proof {
            let rest = l@.skip(5);
            if n > 5 && l@[5] == 32u8 {
                assert(rest.drop_first() =~= l@.subrange(6, n as int));
            } else {
                assert(rest =~= l@.subrange(5, n as int));
            }
        }
        return Some(v);
    }
    proof {
        if n >= 5 && l@.take(5) == seq![100u8, 97u8, 116u8, 97u8, 58u8] {
            assert(l@.take(5)[0] == l@[0]);
            assert(l@.take(5)[4] == l@[4]);
            assert(false);
        }
    }
    None
}

/// The data of a frame (see `frame_data`).
pub fn frame_data_of(frame: &[u8]) -> (r: Option<Vec<u8>>)
    ensures
        match frame_data(frame@) {
            Some(d) => r matches Some(x) && x@ == d,
            None => r is None,
        },
{
    let lines = split_lines(frame);
    let mut values: Vec<Vec<u8>> = Vec::new();
    let mut i: usize = 0;
    proof {
        assert(byte_views(lines@).take(0) =~= Seq::<Seq<u8>>::empty());
    }
    while i < lines.len()
        invariant
            i <= lines@.len(),
            byte_views(lines@) == lines_of(frame@),
            byte_views(values@) == data_values(byte_views(lines@).take(i as int)),
        decreases lines@.len() - i,
    {
        let ghost cur = byte_views(lines@).take(i + 1);
        proof {
            assert(cur.drop_last() =~= byte_views(lines@).take(i as int));
            assert(cur.last() == lines@[i as int]@);
        }
        match data_value_of(&lines[i]) {
            Some(v) => {
                let ghost before = byte_views(values@);
                values.push(v);
                proof {
                    assert(byte_views(values@) =~= before.push(v@));
                }
            },
            None => {},
        }
        i = i + 1;
    }
    proof {
        assert(byte_views(lines@).take(lines@.len() as int) =~= byte_views(lines@));
    }
    if values.len() == 0 {
        return None;
    }
    let mut data: Vec<u8> = Vec::new();
    let mut k: usize = 0;
    proof {
        assert(byte_views(values@).take(0) =~= Seq::<Seq<u8>>::empty());
    }
    while k < values.len()
        invariant
            k <= values@.len(),
            data@ == lf_joined(byte_views(values@).take(k as int)),
        decreases values@.len() - k,
    {
        let ghost before = data@;
        if k > 0 {
            data.push(10u8);
        }
        let mut j: usize = 0;
        let ghost mid = data@;
        while j < values[k].len()
            invariant
                k < values@.len(),
                j <= values@[k as int]@.len(),
                data@ == mid + values@[k as int]@.take(j as int),
            decreases values@[k as int]@.len() - j,
        {
            data.push(values[k][j]);
            j = j + 1;
            proof {
                assert(data@ =~= mid + values@[k as int]@.take(j as int));
            }
        }
        proof {
            let cur = byte_views(values@).take(k + 1);
            assert(values@[k as int]@.take(j as int) =~= values@[k as int]@);
            assert(cur.drop_last() =~= byte_views(values@).take(k as int));
            assert(cur.last() == values@[k as int]@);
            if k == 0 {
                assert(data@ =~= lf_joined(cur));
            } else {
                assert(data@ =~= before + seq![lf()] + cur.last());
            }
        }
        k = k + 1;
    }
    proof {
        assert(byte_views(values@).take(values@.len() as int) =~= byte_views(values@));
    }
    Some(data)
}

} // verus!
