//! The CBOR subset the protocol uses: data item heads, unsigned integers and
//! definite-length arrays.
use vstd::prelude::*;

verus! {

/// Major type of an unsigned integer item.
pub const MAJOR_UNSIGNED: u8 = 0;

/// Major type of an array item.
pub const MAJOR_ARRAY: u8 = 4;

/// Why a byte string is not the encoding of a protocol value.
#[derive(Debug, Clone, Copy, PartialEq, Eq, Structural)]
pub enum DecodeError {
    /// Truncated input, a reserved head, an item of the wrong kind, an
    /// indefinite-length array, or an integer out of range.
    MalformedEncoding,
    /// A payload tag that no variant carries.
    UnknownTag,
    /// A protocol version that is not known.
    UnknownVersion,
    /// An array whose length does not fit what it holds.
    UnexpectedLength,
}

/// Value of a big-endian byte string.
pub open spec fn be_value(s: Seq<u8>) -> nat
    decreases s.len(),
{
    if s.len() == 0 {
        0
    } else {
        (be_value(s.drop_last()) * 256 + s.last()) as nat
    }
}

pub open spec fn pow256(n: nat) -> nat
    decreases n,
{
    if n == 0 {
        1
    } else {
        256 * pow256((n - 1) as nat)
    }
}

/// The head of a data item: its major type and its argument, `None` for an
/// indefinite length.
#[derive(Debug, Clone, Copy, PartialEq, Eq, Structural)]
pub struct Head {
    pub major: u8,
    pub argument: Option<u64>,
}

/// Number of argument bytes that follow an initial byte whose additional
/// information is 24 to 27.
pub open spec fn argument_width(info: u8) -> nat {
    if info == 24 {
        1
    } else if info == 25 {
        2
    } else if info == 26 {
        4
    } else {
        8
    }
}

/// The head that starts at `pos` in `b` with the position after it, or `None`
/// where `b` ends too early or holds a reserved initial byte there.
pub open spec fn spec_head(b: Seq<u8>, pos: int) -> Option<(Head, int)> {
    if pos < 0 || pos >= b.len() {
        None
    } else {
        let major = b[pos] / 32;
        let info = b[pos] % 32;
        if info < 24 {
            Some((Head { major, argument: Some(info as u64) }, pos + 1))
        } else if info <= 27 {
            let w = argument_width(info);
            if b.len() < pos + 1 + w {
                None
            } else {
                Some(
                    (
                        Head {
                            major,
                            argument: Some(be_value(b.subrange(pos + 1, pos + 1 + w)) as u64),
                        },
                        pos + 1 + w,
                    ),
                )
            }
        } else if info == 31 {
            Some((Head { major, argument: None }, pos + 1))
        } else {
            None
        }
    }
}

/// An item of the given major type with a definite argument at `pos` in `b`:
/// the argument and the position after the head.
pub open spec fn spec_definite(b: Seq<u8>, pos: int, major: u8) -> Result<(u64, int), DecodeError> {
    match spec_head(b, pos) {
        Some((h, n)) => if h.major == major && h.argument is Some {
            Ok((h.argument->0, n))
        } else {
            Err(DecodeError::MalformedEncoding)
        },
        None => Err(DecodeError::MalformedEncoding),
    }
}

/// Shortest head of the given major type and argument.
pub open spec fn head_bytes(major: u8, value: u32) -> Seq<u8> {
    let ib = major as int * 32;
    if value < 24 {
        seq![(ib + value) as u8]
    } else if value < 256 {
        seq![(ib + 24) as u8, value as u8]
    } else if value < 65536 {
        seq![(ib + 25) as u8, (value / 256) as u8, (value % 256) as u8]
    } else {
        seq![
            (ib + 26) as u8,
            (value / 0x100_0000) as u8,
            ((value / 0x1_0000) % 256) as u8,
            ((value / 256) % 256) as u8,
            (value % 256) as u8,
        ]
    }
}

proof fn lemma_be_value_step(s: Seq<u8>, i: int)
    requires
        0 <= i < s.len(),
    ensures
        be_value(s.subrange(0, i + 1)) == be_value(s.subrange(0, i)) * 256 + s[i],
{
    assert(s.subrange(0, i + 1).drop_last() =~= s.subrange(0, i));
}

proof fn lemma_pow256_8()
    ensures
        pow256(8) == 0x1_0000_0000_0000_0000,
{
    reveal_with_fuel(pow256, 9);
}

proof fn lemma_pow256_mono(a: nat, b: nat)
    requires
        a <= b,
    ensures
        pow256(a) <= pow256(b),
    decreases b,
{
    if a < b {
        lemma_pow256_mono(a, (b - 1) as nat);
    }
}

/// The shortest head of an argument, found at `pos`, parses back to that
/// argument.
pub proof fn lemma_head_round_trip(major: u8, value: u32, b: Seq<u8>, pos: int)
    requires
        major < 8,
        0 <= pos,
        pos + head_bytes(major, value).len() <= b.len(),
        b.subrange(pos, pos + head_bytes(major, value).len()) == head_bytes(major, value),
    ensures
        spec_head(b, pos) == Some(
            (Head { major, argument: Some(value as u64) }, pos + head_bytes(major, value).len()),
        ),
{
    let h = head_bytes(major, value);
    let ib = major as int * 32;
    assert(b[pos] == h[0]) by {
        assert(b.subrange(pos, pos + h.len())[0] == h[0]);
    }
    assert(be_value(Seq::<u8>::empty()) == 0);
    if value < 24 {
        assert(b[pos] / 32 == major && b[pos] % 32 == value) by (nonlinear_arith)
            requires b[pos] == ib + value, ib == major as int * 32, value < 24, major < 8;
    } else if value < 256 {
        assert(b[pos] / 32 == major && b[pos] % 32 == 24) by (nonlinear_arith)
            requires b[pos] == ib + 24, ib == major as int * 32, major < 8;
        let s = b.subrange(pos + 1, pos + 2);
        assert(s =~= h.subrange(1, 2));
        assert(s =~= seq![value as u8]);
        assert(s.drop_last() =~= Seq::<u8>::empty());
        assert(be_value(s) == value);
    } else if value < 65536 {
        assert(b[pos] / 32 == major && b[pos] % 32 == 25) by (nonlinear_arith)
            requires b[pos] == ib + 25, ib == major as int * 32, major < 8;
        let s = b.subrange(pos + 1, pos + 3);
        assert(s =~= h.subrange(1, 3));
        assert(s =~= seq![(value / 256) as u8, (value % 256) as u8]);
        assert(s.drop_last() =~= seq![(value / 256) as u8]);
        assert(s.drop_last().drop_last() =~= Seq::<u8>::empty());
        assert(be_value(s.drop_last()) == value / 256);
        assert(be_value(s) == value);
    } else {
        assert(b[pos] / 32 == major && b[pos] % 32 == 26) by (nonlinear_arith)
            requires b[pos] == ib + 26, ib == major as int * 32, major < 8;
        let s = b.subrange(pos + 1, pos + 5);
        assert(s =~= h.subrange(1, 5));
        assert(s =~= seq![
            (value / 0x100_0000) as u8,
            ((value / 0x1_0000) % 256) as u8,
            ((value / 256) % 256) as u8,
            (value % 256) as u8,
        ]);
        let d3 = s.drop_last();
        let d2 = d3.drop_last();
        let d1 = d2.drop_last();
        assert(d1.drop_last() =~= Seq::<u8>::empty());
        assert(d1 =~= seq![(value / 0x100_0000) as u8]);
        assert(d2 =~= seq![(value / 0x100_0000) as u8, ((value / 0x1_0000) % 256) as u8]);
        assert(be_value(d1) == value / 0x100_0000);
        assert(be_value(d2) == value / 0x1_0000);
        assert(be_value(d3) == value / 256);
        assert(be_value(s) == value);
    }
}

/// The shortest head of an argument, found at `pos`, reads back as an item of
/// that major type with that argument.
pub proof fn lemma_definite_at(major: u8, value: u32, b: Seq<u8>, pos: int)
    requires
        major < 8,
        0 <= pos,
        pos + head_bytes(major, value).len() <= b.len(),
        b.subrange(pos, pos + head_bytes(major, value).len()) == head_bytes(major, value),
    ensures
        spec_definite(b, pos, major) == Ok::<(u64, int), DecodeError>(
            (value as u64, pos + head_bytes(major, value).len()),
        ),
{
    lemma_head_round_trip(major, value, b, pos);
}

/// Where `x + y` stands at `pos` in `b`, `x` stands at `pos` and `y` right
/// after it.
pub proof fn lemma_split_at(b: Seq<u8>, pos: int, x: Seq<u8>, y: Seq<u8>)
    requires
        0 <= pos,
        pos + x.len() + y.len() <= b.len(),
        b.subrange(pos, pos + x.len() + y.len()) == x + y,
    ensures
        b.subrange(pos, pos + x.len()) == x,
        b.subrange(pos + x.len(), pos + x.len() + y.len()) == y,
{
    let s = b.subrange(pos, pos + x.len() + y.len());
    assert(b.subrange(pos, pos + x.len()) =~= s.subrange(0, x.len() as int));
    assert(s.subrange(0, x.len() as int) =~= x);
    assert(b.subrange(pos + x.len(), pos + x.len() + y.len()) =~= s.subrange(
        x.len() as int,
        s.len() as int,
    ));
    assert(s.subrange(x.len() as int, s.len() as int) =~= y);
}

/// Appends the shortest head of the given major type and argument.
pub fn write_head(out: &mut Vec<u8>, major: u8, value: u32)
    requires
        major < 8,
    ensures
        final(out)@ == old(out)@ + head_bytes(major, value),
{
    let ib: u8 = major * 32;
    if value < 24 {
        out.push(ib + value as u8);
    } else if value < 256 {
        out.push(ib + 24);
        out.push(value as u8);
    } else if value < 65536 {
        out.push(ib + 25);
        out.push((value / 256) as u8);
        out.push((value % 256) as u8);
    } else {
        out.push(ib + 26);
        out.push((value / 0x100_0000) as u8);
        out.push(((value / 0x1_0000) % 256) as u8);
        out.push(((value / 256) % 256) as u8);
        out.push((value % 256) as u8);
    }
    assert(final(out)@ =~= old(out)@ + head_bytes(major, value));
}

/// Reads the head that starts at `pos`: the head and the position after it.
pub fn read_head(b: &[u8], pos: usize) -> (r: Option<(Head, usize)>)
    ensures
        r is None ==> spec_head(b@, pos as int) is None,
        r matches Some((h, p)) ==> spec_head(b@, pos as int) == Some((h, p as int)),
        r matches Some((_, p)) ==> pos < p <= b@.len(),
{
    if pos >= b.len() {
        return None;
    }
    let ib = b[pos];
    let major = ib / 32;
    let info = ib % 32;
    if info < 24 {
        Some((Head { major, argument: Some(info as u64) }, pos + 1))
    } else if info <= 27 {
        let w: usize = if info == 24 {
            1
        } else if info == 25 {
            2
        } else if info == 26 {
            4
        } else {
            8
        };
        if b.len() - pos - 1 < w {
            return None;
        }
        let start: usize = pos + 1;
        let ghost arg = b@.subrange(start as int, (start + w) as int);
        let end: usize = start + w;
        let mut v: u64 = 0;
        let mut i: usize = start;
        proof {
            assert(arg.subrange(0, 0) =~= Seq::<u8>::empty());
            lemma_pow256_8();
        }
        while i < end
            invariant
                end == start + w,
                start <= i <= end <= b@.len(),
                w <= 8,
                arg == b@.subrange(start as int, (start + w) as int),
                v as nat == be_value(arg.subrange(0, i - start)),
                (v as nat) < pow256((i - start) as nat),
                pow256(8) == 0x1_0000_0000_0000_0000,
            decreases end - i,
        {
            let ghost k: nat = (i - start) as nat;
            proof {
                lemma_be_value_step(arg, k as int);
                lemma_pow256_mono(k + 1, 8);
                assert(pow256(k + 1) == 256 * pow256(k));
                let byte = arg[k as int];
                assert(arg[k as int] == b@[i as int]);
                assert(v as nat * 256 + byte < pow256(k + 1)) by (nonlinear_arith)
                    requires (v as nat) < pow256(k), byte < 256, pow256(k + 1) == 256 * pow256(k);
            }
            v = v * 256 + b[i] as u64;
            i = i + 1;
        }
        assert(arg.subrange(0, w as int) =~= arg);
        Some((Head { major, argument: Some(v) }, i))
    } else if info == 31 {
        Some((Head { major, argument: None }, pos + 1))
    } else {
        None
    }
}

/// Reads an item of the given major type with a definite argument that starts
/// at `pos`: the argument and the position after the head.
pub fn read_definite(b: &[u8], pos: usize, major: u8) -> (r: Result<(u64, usize), DecodeError>)
    ensures
        r matches Err(e) ==> spec_definite(b@, pos as int, major) == Err::<(u64, int), DecodeError>(e),
        r matches Ok((v, p)) ==> spec_definite(b@, pos as int, major) == Ok::<(u64, int), DecodeError>((v, p as int)),
        r matches Ok((_, p)) ==> pos < p <= b@.len(),
{
    match read_head(b, pos) {
        Some((h, next)) => {
            if h.major == major {
                match h.argument {
                    Some(v) => Ok((v, next)),
                    None => Err(DecodeError::MalformedEncoding),
                }
            } else {
                Err(DecodeError::MalformedEncoding)
            }
        },
        None => Err(DecodeError::MalformedEncoding),
    }
}

} // verus!
