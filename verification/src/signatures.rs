//! Signature pruning: keep function signatures, drop function bodies.
//!
//! Lines are read in order. A line that, once trimmed, starts with `fn ` or
//! `pub fn` outside any function body opens a signature; the signature runs
//! until its first `{`, which opens the body, or its first `;`, which ends a
//! declaration without a body. Inside a body, `{` and `}` nest, and the `}`
//! that matches the opening `{` closes it. Every line that starts inside a
//! body is dropped; every other line is kept. Braces are counted as they
//! stand, inside string literals and comments too.
use vstd::prelude::*;
use crate::text::{
    chars_of, join_lines, lines, newline_at, push_char, push_range, range_starts_with,
    starts_with, strip_cr, trim, trim_range,
};

verus! {

/// Where the reading stands relative to function bodies.
pub enum Nesting {
    /// Outside any function and its signature
    Outside,
    /// In a function signature, before its body opens
    Signature,
    /// Inside a function body, under this many unclosed `{`
    Body(nat),
}

/// Whether the (trimmed) line `t` declares a function.
pub open spec fn is_function_declaration(t: Seq<char>) -> bool {
    starts_with(t, "fn "@) || starts_with(t, "pub fn"@)
}

/// The nesting after reading the character `c` in nesting `m`.
pub open spec fn step_nesting(m: Nesting, c: char) -> Nesting {
    match m {
        Nesting::Outside => Nesting::Outside,
        Nesting::Signature => if c == '{' {
            Nesting::Body(1)
        } else if c == ';' {
            Nesting::Outside
        } else {
            Nesting::Signature
        },
        Nesting::Body(d) => if c == '{' {
            Nesting::Body(d + 1)
        } else if c == '}' {
            if d <= 1 {
                Nesting::Outside
            } else {
                Nesting::Body((d - 1) as nat)
            }
        } else {
            Nesting::Body(d)
        },
    }
}

/// The nesting after reading the characters `s` from nesting `m`.
pub open spec fn scan(m: Nesting, s: Seq<char>) -> Nesting
    decreases s.len(),
{
    if s.len() == 0 {
        m
    } else {
        step_nesting(scan(m, s.drop_last()), s.last())
    }
}

/// The nesting in which the characters of `line` are read, when the line
/// starts in nesting `m`: a function declaration outside any body opens a
/// signature.
pub open spec fn line_opening(m: Nesting, line: Seq<char>) -> Nesting {
    if m is Outside && is_function_declaration(trim(line)) {
        Nesting::Signature
    } else {
        m
    }
}

/// The nesting after the lines `ls`, read from outside any function.
pub open spec fn nesting_after(ls: Seq<Seq<char>>) -> Nesting
    decreases ls.len(),
{
    if ls.len() == 0 {
        Nesting::Outside
    } else {
        let m = nesting_after(ls.drop_last());
        scan(line_opening(m, ls.last()), ls.last())
    }
}

/// The lines of `ls`, in order, that do not start inside a function body.
pub open spec fn signature_lines(ls: Seq<Seq<char>>) -> Seq<Seq<char>>
    decreases ls.len(),
{
    if ls.len() == 0 {
        seq![]
    } else if nesting_after(ls.drop_last()) is Body {
        signature_lines(ls.drop_last())
    } else {
        signature_lines(ls.drop_last()).push(ls.last())
    }
}

/// The nesting that the reading state `(in_signature, depth)` stands for.
pub open spec fn nesting_of(in_signature: bool, depth: usize) -> Nesting {
    if depth > 0 {
        Nesting::Body(depth as nat)
    } else if in_signature {
        Nesting::Signature
    } else {
        Nesting::Outside
    }
}

/// Reads the character `c` in the state `(in_signature, depth)`.
fn step(in_signature: bool, depth: usize, c: char) -> (r: (bool, usize))
    requires
        depth < usize::MAX,
    ensures
        nesting_of(r.0, r.1) == step_nesting(nesting_of(in_signature, depth), c),
        r.1 <= depth + 1,
{
    if depth > 0 {
        if c == '{' {
            (false, depth + 1)
        } else if c == '}' {
            (false, depth - 1)
        } else {
            (false, depth)
        }
    } else if in_signature {
        if c == '{' {
            (false, 1)
        } else if c == ';' {
            (false, 0)
        } else {
            (true, 0)
        }
    } else {
        (false, 0)
    }
}

/// Whether the line `v[lo..hi]`, once trimmed, declares a function.
fn line_is_function(v: &Vec<char>, lo: usize, hi: usize) -> (b: bool)
    requires
        lo <= hi <= v@.len(),
    ensures
        b == is_function_declaration(trim(v@.subrange(lo as int, hi as int))),
{
    let (a, e) = trim_range(v, lo, hi);
    range_starts_with(v, a, e, &chars_of("fn ")) || range_starts_with(v, a, e, &chars_of("pub fn"))
}

/// The lines of `content` that do not start inside a function body, joined
/// by `'\n'`.
pub fn keep_signatures(content: &str) -> (r: String)
    ensures
        r@ == join_lines(signature_lines(lines(content@))),
{
    let v = chars_of(content);
    let n = v.len();
    let mut out = String::new();
    let mut pos: usize = 0;
    let mut any = false;
    let mut in_sig = false;
    let mut depth: usize = 0;
    let ghost mut done: Seq<Seq<char>> = seq![];
    assert(v@.skip(0) == v@);
    while pos < n
        invariant
            pos <= n == v@.len(),
            lines(v@) == done + lines(v@.skip(pos as int)),
            out@ == join_lines(signature_lines(done)),
            any == (signature_lines(done).len() > 0),
            nesting_of(in_sig, depth) == nesting_after(done),
            depth <= pos,
        decreases n - pos,
    {
        let mut k = pos;
        while k < n && v[k] != '\n'
            invariant
                pos <= k <= n == v@.len(),
                newline_at(v@.skip(pos as int)) == (k - pos) + newline_at(v@.skip(k as int)),
            decreases n - k,
        {
            assert(v@.skip(k as int).drop_first() == v@.skip(k + 1));
            k = k + 1;
        }
        let ghost rest = v@.skip(pos as int);
        assert(newline_at(rest) == k - pos);
        let mut e = k;
        if k < n && k > pos && v[k - 1] == '\r' {
            e = k - 1;
        }
        let ghost line = v@.subrange(pos as int, e as int);
        proof {
            if k < n {
                assert(rest.take(k - pos) == v@.subrange(pos as int, k as int));
                assert(strip_cr(v@.subrange(pos as int, k as int)) == line);
                assert(rest.skip(k - pos + 1) == v@.skip(k + 1));
                assert(lines(rest) == seq![line] + lines(v@.skip(k + 1)));
            } else {
                assert(rest == line);
                assert(lines(rest) == seq![line]);
                assert(v@.skip(n as int) == Seq::<char>::empty());
            }
        }
        let keep = depth == 0;
        if depth == 0 && !in_sig && line_is_function(&v, pos, e) {
            in_sig = true;
        }
        let ghost opening = nesting_of(in_sig, depth);
        assert(opening == line_opening(nesting_after(done), line));
        let mut j = pos;
        assert(v@.subrange(pos as int, pos as int) == Seq::<char>::empty());
        while j < e
            invariant
                pos <= j <= e <= n == v@.len(),
                nesting_of(in_sig, depth) == scan(opening, v@.subrange(pos as int, j as int)),
                depth <= j,
            decreases e - j,
        {
            let (s, d) = step(in_sig, depth, v[j]);
            assert(v@.subrange(pos as int, j + 1).drop_last() == v@.subrange(pos as int, j as int));
            in_sig = s;
            depth = d;
            j = j + 1;
        }
        let ghost before = done;
        proof {
            done = done.push(line);
            assert(done.drop_last() == before);
        }
        if keep {
            if any {
                push_char(&mut out, '\n');
            }
            push_range(&mut out, &v, pos, e);
            any = true;
            proof {
                let d = signature_lines(before);
                assert(signature_lines(done) == d.push(line));
                assert(d.push(line).drop_last() == d);
                if d.len() == 0 {
                    assert(join_lines(d.push(line)) == line);
                }
            }
        }
        if k < n {
            pos = k + 1;
        } else {
            pos = n;
        }
    }
    assert(v@.skip(n as int) == Seq::<char>::empty());
    assert(done + Seq::<Seq<char>>::empty() == done);
    out
}

} // verus!
