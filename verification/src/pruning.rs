//! Laws of content pruning.
use vstd::prelude::*;
use crate::assembly::{declarations, is_declaration, pruned};
use crate::signatures::{
    is_function_declaration, line_opening, nesting_after, scan, signature_lines, step_nesting,
    Nesting,
};
use crate::config::PruningStrategy;
use crate::text::{join_lines, lines, newline_at, starts_with, strip_cr, trim, trim_end, trim_start};

verus! {

/// The length of `a` joined in front of `rest`.
proof fn lemma_join_front_len(a: Seq<char>, rest: Seq<Seq<char>>)
    ensures
        join_lines(seq![a] + rest).len() == a.len() + (if rest.len() > 0 {
            1 + join_lines(rest).len()
        } else {
            0
        }),
    decreases rest.len(),
{
    let all = seq![a] + rest;
    if rest.len() == 0 {
        assert(all == seq![a]);
    } else {
        assert(all.drop_last() == seq![a] + rest.drop_last());
        assert(all.last() == rest.last());
        lemma_join_front_len(a, rest.drop_last());
    }
}

/// `newline_at(s)` lies within `s`, and no character before it is `'\n'`.
proof fn lemma_newline_at_bound(s: Seq<char>)
    ensures
        newline_at(s) <= s.len(),
    decreases s.len(),
{
    if s.len() > 0 && s[0] != '\n' {
        lemma_newline_at_bound(s.drop_first());
    }
}

/// Joining the lines of `s` gives no more characters than `s` has.
proof fn lemma_join_lines_len(s: Seq<char>)
    ensures
        join_lines(lines(s)).len() <= s.len(),
    decreases s.len(),
{
    if s.len() > 0 {
        let k = newline_at(s);
        lemma_newline_at_bound(s);
        if k < s.len() {
            let rest = s.skip(k + 1 as int);
            lemma_join_lines_len(rest);
            lemma_join_front_len(strip_cr(s.take(k as int)), lines(rest));
        } else {
            assert(lines(s) == seq![s]);
        }
    }
}

/// Keeping only the declaration lines never lengthens the joined text.
proof fn lemma_declarations_len(ls: Seq<Seq<char>>)
    ensures
        join_lines(declarations(ls)).len() <= join_lines(ls).len(),
    decreases ls.len(),
{
    if ls.len() > 0 {
        let rest = ls.drop_last();
        lemma_declarations_len(rest);
        let d = declarations(rest);
        if is_declaration(trim(ls.last())) {
            assert(declarations(ls) == d.push(ls.last()));
            assert(d.push(ls.last()).drop_last() == d);
            if d.len() == 0 {
                assert(join_lines(d.push(ls.last())) == ls.last());
            }
        }
    }
}

/// Keeping only the lines outside function bodies never lengthens the
/// joined text.
proof fn lemma_signature_lines_len(ls: Seq<Seq<char>>)
    ensures
        join_lines(signature_lines(ls)).len() <= join_lines(ls).len(),
    decreases ls.len(),
{
    if ls.len() > 0 {
        let rest = ls.drop_last();
        lemma_signature_lines_len(rest);
        let d = signature_lines(rest);
        if !(nesting_after(rest) is Body) {
            assert(signature_lines(ls) == d.push(ls.last()));
            assert(d.push(ls.last()).drop_last() == d);
            if d.len() == 0 {
                assert(join_lines(d.push(ls.last())) == ls.last());
            }
        }
    }
}

/// Pruning never lengthens content, whatever the strategy.
pub proof fn law_pruning_never_lengthens(strategy: PruningStrategy, content: Seq<char>)
    ensures
        pruned(strategy, content).len() <= content.len(),
{
    lemma_join_lines_len(content);
    if strategy == PruningStrategy::Aggressive {
        lemma_declarations_len(lines(content));
    } else if strategy == PruningStrategy::Bodies {
        lemma_signature_lines_len(lines(content));
    }
}

/// The full strategy keeps content as it is.
pub proof fn law_full_keeps_content(content: Seq<char>)
    ensures
        pruned(PruningStrategy::Full, content) == content,
{
}

/// Whether no character of `s` is `c`.
pub open spec fn free_of(s: Seq<char>, c: char) -> bool {
    forall|j: int| 0 <= j < s.len() ==> s[j] != c
}

/// What `newline_at` finds.
proof fn lemma_newline_at(s: Seq<char>)
    ensures
        newline_at(s) <= s.len(),
        forall|j: int| 0 <= j < newline_at(s) ==> s[j] != '\n',
        newline_at(s) < s.len() ==> s[newline_at(s) as int] == '\n',
    decreases s.len(),
{
    if s.len() > 0 && s[0] != '\n' {
        lemma_newline_at(s.drop_first());
        assert forall|j: int| 0 <= j < newline_at(s) implies s[j] != '\n' by {
            if j > 0 {
                assert(s[j] == s.drop_first()[j - 1]);
            }
        }
    }
}

/// No line of `s` holds `'\n'`, and none holds `'\r'` when `s` holds none.
proof fn lemma_lines_clean(s: Seq<char>)
    ensures
        forall|i: int| 0 <= i < lines(s).len() ==> free_of(#[trigger] lines(s)[i], '\n'),
        free_of(s, '\r') ==> forall|i: int|
            0 <= i < lines(s).len() ==> free_of(#[trigger] lines(s)[i], '\r'),
    decreases s.len(),
{
    if s.len() > 0 {
        let k = newline_at(s);
        lemma_newline_at(s);
        if k < s.len() {
            let rest = s.skip(k + 1 as int);
            lemma_lines_clean(rest);
            let first = strip_cr(s.take(k as int));
            assert(free_of(first, '\n'));
            assert(free_of(s, '\r') ==> free_of(rest, '\r')) by {
                if free_of(s, '\r') {
                    assert forall|j: int| 0 <= j < rest.len() implies rest[j] != '\r' by {
                        assert(rest[j] == s[j + k + 1]);
                    }
                }
            }
            assert(lines(s) == seq![first] + lines(rest));
            assert forall|i: int| 0 <= i < lines(s).len() implies free_of(
                #[trigger] lines(s)[i],
                '\n',
            ) by {
                if i > 0 {
                    assert(lines(s)[i] == lines(rest)[i - 1]);
                }
            }
        } else {
            assert(lines(s) == seq![s]);
        }
    }
}

/// `join_lines` seen from the front.
proof fn lemma_join_front(a: Seq<char>, rest: Seq<Seq<char>>)
    ensures
        join_lines(seq![a] + rest) == if rest.len() > 0 {
            a + seq!['\n'] + join_lines(rest)
        } else {
            a
        },
    decreases rest.len(),
{
    let all = seq![a] + rest;
    if rest.len() == 0 {
        assert(all == seq![a]);
    } else {
        assert(all.drop_last() == seq![a] + rest.drop_last());
        assert(all.last() == rest.last());
        lemma_join_front(a, rest.drop_last());
        if rest.len() == 1 {
            assert(rest.drop_last().len() == 0);
            assert(join_lines(rest) == rest[0]);
        }
    }
}

/// The first `'\n'` of `x + y`, where `x` holds none, is the first of `y`.
proof fn lemma_newline_at_concat(x: Seq<char>, y: Seq<char>)
    requires
        free_of(x, '\n'),
    ensures
        newline_at(x + y) == x.len() + newline_at(y),
    decreases x.len(),
{
    if x.len() == 0 {
        assert(x + y == y);
    } else {
        assert((x + y).drop_first() == x.drop_first() + y);
        assert((x + y)[0] == x[0]);
        lemma_newline_at_concat(x.drop_first(), y);
    }
}

/// Splitting joined lines gives them back, when they hold no line ending
/// and the last is not empty.
proof fn lemma_lines_of_join(ls: Seq<Seq<char>>)
    requires
        forall|i: int|
            0 <= i < ls.len() ==> free_of(#[trigger] ls[i], '\n') && free_of(ls[i], '\r'),
        ls.len() > 0 ==> ls.last().len() > 0,
    ensures
        lines(join_lines(ls)) == ls,
    decreases ls.len(),
{
    if ls.len() == 1 {
        let a = ls[0];
        assert(join_lines(ls) == a);
        lemma_newline_at_concat(a, Seq::<char>::empty());
        assert(a + Seq::<char>::empty() == a);
        assert(lines(a) == seq![a]);
    } else if ls.len() > 1 {
        let a = ls[0];
        let rest = ls.drop_first();
        assert(ls == seq![a] + rest);
        lemma_join_front(a, rest);
        let j = join_lines(rest);
        let s = a + seq!['\n'] + j;
        assert(s == a + (seq!['\n'] + j));
        lemma_newline_at_concat(a, seq!['\n'] + j);
        assert((seq!['\n'] + j)[0] == '\n');
        assert(newline_at(seq!['\n'] + j) == 0);
        assert(s.take(a.len() as int) == a);
        assert(s.skip(a.len() + 1 as int) == j);
        assert(strip_cr(a) == a) by {
            if a.len() > 0 {
                assert(ls[0] == a);
                assert(a.last() == a[a.len() - 1]);
            }
        }
        assert forall|i: int| 0 <= i < rest.len() implies free_of(#[trigger] rest[i], '\n')
            && free_of(rest[i], '\r') by {
            assert(rest[i] == ls[i + 1]);
        }
        lemma_lines_of_join(rest);
        assert(lines(s) == seq![a] + lines(j));
    }
}

/// The trimmed text is no longer than the text.
proof fn lemma_trim_len(s: Seq<char>)
    ensures
        trim(s).len() <= s.len(),
{
    lemma_trim_start_len(s);
    lemma_trim_end_len(trim_start(s));
}

proof fn lemma_trim_start_len(s: Seq<char>)
    ensures
        trim_start(s).len() <= s.len(),
    decreases s.len(),
{
    if s.len() > 0 {
        lemma_trim_start_len(s.drop_first());
    }
}

proof fn lemma_trim_end_len(s: Seq<char>)
    ensures
        trim_end(s).len() <= s.len(),
    decreases s.len(),
{
    if s.len() > 0 {
        lemma_trim_end_len(s.drop_last());
    }
}

/// A declaration line is not empty.
proof fn lemma_declaration_not_empty(l: Seq<char>)
    requires
        is_declaration(trim(l)),
    ensures
        l.len() > 0,
{
    reveal_strlit("fn ");
    reveal_strlit("pub fn");
    reveal_strlit("struct ");
    reveal_strlit("pub struct");
    reveal_strlit("enum ");
    reveal_strlit("pub enum");
    reveal_strlit("impl ");
    lemma_trim_len(l);
}

/// The kept lines are declarations and keep what all lines had.
proof fn lemma_declarations_kept(ls: Seq<Seq<char>>, c: char)
    requires
        forall|i: int| 0 <= i < ls.len() ==> free_of(#[trigger] ls[i], c),
    ensures
        forall|i: int|
            0 <= i < declarations(ls).len() ==> free_of(#[trigger] declarations(ls)[i], c)
                && is_declaration(trim(declarations(ls)[i])),
    decreases ls.len(),
{
    if ls.len() > 0 {
        let rest = ls.drop_last();
        assert forall|i: int| 0 <= i < rest.len() implies free_of(#[trigger] rest[i], c) by {
            assert(rest[i] == ls[i]);
        }
        lemma_declarations_kept(rest, c);
        assert(free_of(ls[ls.len() - 1], c));
        let d = declarations(rest);
        if is_declaration(trim(ls.last())) {
            assert(declarations(ls) == d.push(ls.last()));
            assert forall|i: int| 0 <= i < declarations(ls).len() implies free_of(
                #[trigger] declarations(ls)[i],
                c,
            ) && is_declaration(trim(declarations(ls)[i])) by {
                if i < d.len() {
                    assert(declarations(ls)[i] == d[i]);
                }
            }
        }
    }
}

/// Lines that are all declarations are all kept.
proof fn lemma_declarations_all(ls: Seq<Seq<char>>)
    requires
        forall|i: int| 0 <= i < ls.len() ==> is_declaration(trim(#[trigger] ls[i])),
    ensures
        declarations(ls) == ls,
    decreases ls.len(),
{
    if ls.len() > 0 {
        let rest = ls.drop_last();
        assert forall|i: int| 0 <= i < rest.len() implies is_declaration(trim(#[trigger] rest[i])) by {
            assert(rest[i] == ls[i]);
        }
        lemma_declarations_all(rest);
        assert(is_declaration(trim(ls[ls.len() - 1])));
        assert(rest.push(ls.last()) == ls);
    }
}

/// Aggressive pruning is idempotent on content without carriage returns:
/// pruning what it kept keeps all of it.
pub proof fn law_aggressive_pruning_idempotent(content: Seq<char>)
    requires
        free_of(content, '\r'),
    ensures
        pruned(PruningStrategy::Aggressive, pruned(PruningStrategy::Aggressive, content))
            == pruned(PruningStrategy::Aggressive, content),
{
    let ls = lines(content);
    let kept = declarations(ls);
    lemma_lines_clean(content);
    lemma_declarations_kept(ls, '\n');
    lemma_declarations_kept(ls, '\r');
    if kept.len() > 0 {
        lemma_declaration_not_empty(kept[kept.len() - 1]);
    }
    assert forall|i: int| 0 <= i < kept.len() implies free_of(#[trigger] kept[i], '\n') && free_of(
        kept[i],
        '\r',
    ) by {}
    lemma_lines_of_join(kept);
    assert forall|i: int| 0 <= i < kept.len() implies is_declaration(trim(#[trigger] kept[i])) by {}
    lemma_declarations_all(kept);
}

/// The lines of a line, a line ending and more text.
proof fn lemma_lines_front(l: Seq<char>, rest: Seq<char>)
    requires
        free_of(l, '\n'),
        l.len() == 0 || l.last() != '\r',
    ensures
        lines(l + seq!['\n'] + rest) == seq![l] + lines(rest),
{
    let s = l + seq!['\n'] + rest;
    assert(s == l + (seq!['\n'] + rest));
    lemma_newline_at_concat(l, seq!['\n'] + rest);
    assert((seq!['\n'] + rest)[0] == '\n');
    assert(newline_at(seq!['\n'] + rest) == 0);
    assert(s.take(l.len() as int) == l);
    assert(s.skip(l.len() + 1 as int) == rest);
    assert(strip_cr(l) == l);
}

/// The lines of text without a line ending.
proof fn lemma_lines_single(l: Seq<char>)
    requires
        free_of(l, '\n'),
    ensures
        lines(l) == if l.len() == 0 {
            Seq::<Seq<char>>::empty()
        } else {
            seq![l]
        },
{
    lemma_newline_at_concat(l, Seq::<char>::empty());
    assert(l + Seq::<char>::empty() == l);
}

/// `declarations` seen from the front.
proof fn lemma_declarations_front(x: Seq<char>, ls: Seq<Seq<char>>)
    ensures
        declarations(seq![x] + ls) == if is_declaration(trim(x)) {
            seq![x] + declarations(ls)
        } else {
            declarations(ls)
        },
    decreases ls.len(),
{
    let all = seq![x] + ls;
    if ls.len() == 0 {
        assert(all == seq![x]);
        assert(all.drop_last() == Seq::<Seq<char>>::empty());
        assert(all.last() == x);
        assert(declarations(Seq::<Seq<char>>::empty()) == Seq::<Seq<char>>::empty());
        assert(Seq::<Seq<char>>::empty().push(x) == seq![x]);
        assert(seq![x] + Seq::<Seq<char>>::empty() == seq![x]);
    } else {
        let ls0 = ls.drop_last();
        assert(all.drop_last() == seq![x] + ls0);
        assert(all.last() == ls.last());
        lemma_declarations_front(x, ls0);
        let d0 = declarations(ls0);
        assert((seq![x] + d0).push(ls.last()) == seq![x] + d0.push(ls.last()));
        assert(declarations(all) == if is_declaration(trim(ls.last())) {
            declarations(seq![x] + ls0).push(ls.last())
        } else {
            declarations(seq![x] + ls0)
        });
        assert(declarations(ls) == if is_declaration(trim(ls.last())) {
            d0.push(ls.last())
        } else {
            d0
        });
    }
}

/// `is_declaration` by its seven prefixes.
proof fn lemma_is_declaration_prefixes(t: Seq<char>)
    ensures
        is_declaration(t) <==> ("fn "@.is_prefix_of(t) || "pub fn"@.is_prefix_of(t)
            || "struct "@.is_prefix_of(t) || "pub struct"@.is_prefix_of(t) || "enum "@.is_prefix_of(
            t,
        ) || "pub enum"@.is_prefix_of(t) || "impl "@.is_prefix_of(t)),
{
    assert forall|p: Seq<char>| starts_with(t, p) <==> p.is_prefix_of(t) by {
        if p.len() <= t.len() {
            assert(t.take(p.len() as int) == t.subrange(0, p.len() as int));
        }
    }
}

/// A joined non-empty list whose first line is not empty is not empty.
proof fn lemma_join_not_empty(ls: Seq<Seq<char>>)
    requires
        ls.len() > 0,
        ls[0].len() > 0,
    ensures
        join_lines(ls).len() > 0,
{
    assert(ls == seq![ls[0]] + ls.drop_first());
    lemma_join_front_len(ls[0], ls.drop_first());
}

/// Aggressive pruning of a single line keeps it whole when, once trimmed,
/// it starts with `fn `, `pub fn`, `struct `, `pub struct`, `enum `,
/// `pub enum` or `impl `, and keeps nothing otherwise.
pub proof fn law_aggressive_single_line(l: Seq<char>)
    requires
        free_of(l, '\n'),
    ensures
        pruned(PruningStrategy::Aggressive, l) == if "fn "@.is_prefix_of(trim(l))
            || "pub fn"@.is_prefix_of(trim(l)) || "struct "@.is_prefix_of(trim(l))
            || "pub struct"@.is_prefix_of(trim(l)) || "enum "@.is_prefix_of(trim(l))
            || "pub enum"@.is_prefix_of(trim(l)) || "impl "@.is_prefix_of(trim(l)) {
            l
        } else {
            Seq::<char>::empty()
        },
{
    lemma_lines_single(l);
    lemma_is_declaration_prefixes(trim(l));
    if l.len() == 0 {
        assert(trim_start(l) == l);
        assert(trim_end(l) == l);
        reveal_strlit("fn ");
        reveal_strlit("pub fn");
        reveal_strlit("struct ");
        reveal_strlit("pub struct");
        reveal_strlit("enum ");
        reveal_strlit("pub enum");
        reveal_strlit("impl ");
    } else {
        let one = seq![l];
        assert(one.drop_last() == Seq::<Seq<char>>::empty());
        assert(one.last() == l);
        assert(declarations(Seq::<Seq<char>>::empty()) == Seq::<Seq<char>>::empty());
        assert(Seq::<Seq<char>>::empty().push(l) == one);
        assert(declarations(one) == if is_declaration(trim(l)) {
            one
        } else {
            Seq::<Seq<char>>::empty()
        });
        assert(join_lines(one) == l);
        assert(join_lines(Seq::<Seq<char>>::empty()) == Seq::<char>::empty());
    }
}

/// Aggressive pruning works line by line: pruning a line, a line ending and
/// more text gives what the line keeps and what the rest keeps, joined by
/// one line ending when both keep something.
pub proof fn law_aggressive_line_by_line(l: Seq<char>, rest: Seq<char>)
    requires
        free_of(l, '\n'),
        l.len() == 0 || l.last() != '\r',
    ensures
        pruned(PruningStrategy::Aggressive, l + seq!['\n'] + rest) == if pruned(
            PruningStrategy::Aggressive,
            l,
        ).len() == 0 {
            pruned(PruningStrategy::Aggressive, rest)
        } else if pruned(PruningStrategy::Aggressive, rest).len() == 0 {
            pruned(PruningStrategy::Aggressive, l)
        } else {
            pruned(PruningStrategy::Aggressive, l) + seq!['\n'] + pruned(
                PruningStrategy::Aggressive,
                rest,
            )
        },
{
    lemma_lines_front(l, rest);
    let ls = lines(rest);
    let d = declarations(ls);
    lemma_declarations_front(l, ls);
    lemma_lines_clean(rest);
    lemma_declarations_kept(ls, '\n');
    law_aggressive_single_line(l);
    lemma_is_declaration_prefixes(trim(l));
    assert(pruned(PruningStrategy::Aggressive, rest) == join_lines(d));
    if d.len() > 0 {
        lemma_declaration_not_empty(d[0]);
        lemma_join_not_empty(d);
    } else {
        assert(join_lines(d) == Seq::<char>::empty());
    }
    if is_declaration(trim(l)) {
        lemma_declaration_not_empty(l);
        assert(pruned(PruningStrategy::Aggressive, l) == l);
        lemma_join_front(l, d);
        assert(pruned(PruningStrategy::Aggressive, l + seq!['\n'] + rest) == join_lines(
            seq![l] + d,
        ));
    } else {
        assert(pruned(PruningStrategy::Aggressive, l) == Seq::<char>::empty());
        assert(pruned(PruningStrategy::Aggressive, l + seq!['\n'] + rest) == join_lines(d));
    }
}

/// Reading from a signature never enters a body without a `{`.
proof fn lemma_scan_signature_without_open(s: Seq<char>)
    requires
        free_of(s, '{'),
    ensures
        !(scan(Nesting::Signature, s) is Body),
    decreases s.len(),
{
    if s.len() > 0 {
        assert(free_of(s.drop_last(), '{')) by {
            assert forall|j: int| 0 <= j < s.drop_last().len() implies s.drop_last()[j] != '{' by {
                assert(s.drop_last()[j] == s[j]);
            }
        }
        lemma_scan_signature_without_open(s.drop_last());
        assert(s.last() == s[s.len() - 1]);
    }
}

/// After lines that end outside any function, the rest is read as if from
/// the start.
proof fn lemma_signature_lines_append(a: Seq<Seq<char>>, x: Seq<Seq<char>>)
    requires
        nesting_after(a) is Outside,
    ensures
        nesting_after(a + x) == nesting_after(x),
        signature_lines(a + x) == signature_lines(a) + signature_lines(x),
    decreases x.len(),
{
    if x.len() == 0 {
        assert(a + x == a);
    } else {
        let x0 = x.drop_last();
        assert((a + x).drop_last() == a + x0);
        assert((a + x).last() == x.last());
        lemma_signature_lines_append(a, x0);
        if !(nesting_after(x0) is Body) {
            assert((signature_lines(a) + signature_lines(x0)).push(x.last()) == signature_lines(a)
                + signature_lines(x0).push(x.last()));
        }
    }
}

/// Lines read from the start keep their first line.
proof fn lemma_signature_lines_not_empty(x: Seq<Seq<char>>)
    requires
        x.len() > 0,
    ensures
        signature_lines(x).len() > 0,
        signature_lines(x)[0] == x[0],
    decreases x.len(),
{
    if x.len() == 1 {
        assert(x.drop_last() == Seq::<Seq<char>>::empty());
    } else {
        lemma_signature_lines_not_empty(x.drop_last());
    }
}

/// Under the bodies strategy a function declaration without a body closes
/// its signature: a line that, once trimmed, starts with `fn ` or `pub fn`,
/// holds no `{` and ends in `;` is kept, and the text after it is pruned as
/// if it stood alone.
pub proof fn law_bodies_declaration_without_body(l: Seq<char>, rest: Seq<char>)
    requires
        free_of(l, '\n'),
        free_of(l, '{'),
        l.len() > 0,
        l.last() == ';',
        "fn "@.is_prefix_of(trim(l)) || "pub fn"@.is_prefix_of(trim(l)),
    ensures
        pruned(PruningStrategy::Bodies, l + seq!['\n'] + rest) == if rest.len() == 0 {
            l
        } else {
            l + seq!['\n'] + pruned(PruningStrategy::Bodies, rest)
        },
{
    lemma_lines_front(l, rest);
    let t = trim(l);
    if "fn "@.is_prefix_of(t) {
        assert(t.take(3) == t.subrange(0, 3)) by {
            reveal_strlit("fn ");
        }
        reveal_strlit("fn ");
        assert(starts_with(t, "fn "@));
    } else {
        reveal_strlit("pub fn");
        assert(t.take(6) == t.subrange(0, 6));
        assert(starts_with(t, "pub fn"@));
    }
    assert(is_function_declaration(t));
    let one = seq![l];
    assert(one.drop_last() == Seq::<Seq<char>>::empty());
    assert(one.last() == l);
    assert(line_opening(Nesting::Outside, l) == Nesting::Signature);
    lemma_scan_signature_without_open(l.drop_last());
    assert(l.drop_last().len() < l.len());
    assert(free_of(l.drop_last(), '{')) by {
        assert forall|j: int| 0 <= j < l.drop_last().len() implies l.drop_last()[j] != '{' by {
            assert(l.drop_last()[j] == l[j]);
        }
    }
    assert(scan(Nesting::Signature, l) == step_nesting(
        scan(Nesting::Signature, l.drop_last()),
        ';',
    ));
    assert(nesting_after(Seq::<Seq<char>>::empty()) == Nesting::Outside);
    assert(nesting_after(one) == scan(line_opening(Nesting::Outside, l), l));
    assert(nesting_after(one) == Nesting::Outside);
    assert(signature_lines(one) == seq![l]) by {
        assert(signature_lines(Seq::<Seq<char>>::empty()) == Seq::<Seq<char>>::empty());
        assert(Seq::<Seq<char>>::empty().push(l) == seq![l]);
    }
    let x = lines(rest);
    lemma_signature_lines_append(one, x);
    assert(one + x == seq![l] + x);
    lemma_join_front(l, signature_lines(x));
    if rest.len() > 0 {
        assert(x.len() > 0);
        lemma_signature_lines_not_empty(x);
    } else {
        assert(x.len() == 0);
    }
}

/// `free_of` holds of every prefix.
proof fn lemma_free_of_drop_last(s: Seq<char>, c: char)
    requires
        s.len() > 0,
        free_of(s, c),
    ensures
        free_of(s.drop_last(), c),
{
    assert forall|j: int| 0 <= j < s.drop_last().len() implies s.drop_last()[j] != c by {
        assert(s.drop_last()[j] == s[j]);
    }
}

/// A signature stays open over text without `{` or `;`.
proof fn lemma_scan_signature_plain(s: Seq<char>)
    requires
        free_of(s, '{'),
        free_of(s, ';'),
    ensures
        scan(Nesting::Signature, s) == Nesting::Signature,
    decreases s.len(),
{
    if s.len() > 0 {
        lemma_free_of_drop_last(s, '{');
        lemma_free_of_drop_last(s, ';');
        lemma_scan_signature_plain(s.drop_last());
        assert(s.last() == s[s.len() - 1]);
    }
}

/// A body stays at its depth over text without braces.
proof fn lemma_scan_body_plain(s: Seq<char>, d: nat)
    requires
        d >= 1,
        free_of(s, '{'),
        free_of(s, '}'),
    ensures
        scan(Nesting::Body(d), s) == Nesting::Body(d),
    decreases s.len(),
{
    if s.len() > 0 {
        lemma_free_of_drop_last(s, '{');
        lemma_free_of_drop_last(s, '}');
        lemma_scan_body_plain(s.drop_last(), d);
        assert(s.last() == s[s.len() - 1]);
    }
}

/// Under the bodies strategy a function body is dropped: for a signature
/// line that, once trimmed, starts with `fn ` or `pub fn` and ends with the
/// `{` that opens the body, a body line without braces and the line `}`
/// that closes it, pruning keeps the signature line alone, and the text
/// after the closing line is pruned as if it stood alone.
pub proof fn law_bodies_drops_body(sig: Seq<char>, body: Seq<char>, rest: Seq<char>)
    requires
        sig.len() > 0,
        sig.last() == '{',
        free_of(sig, '\n'),
        free_of(sig.drop_last(), '{'),
        free_of(sig.drop_last(), ';'),
        "fn "@.is_prefix_of(trim(sig)) || "pub fn"@.is_prefix_of(trim(sig)),
        free_of(body, '\n'),
        free_of(body, '{'),
        free_of(body, '}'),
        body.len() == 0 || body.last() != '\r',
    ensures
        pruned(
            PruningStrategy::Bodies,
            sig + seq!['\n'] + body + seq!['\n'] + seq!['}'] + seq!['\n'] + rest,
        ) == if rest.len() == 0 {
            sig
        } else {
            sig + seq!['\n'] + pruned(PruningStrategy::Bodies, rest)
        },
{
    let close = seq!['}'];
    let tail = close + seq!['\n'] + rest;
    let mid = body + seq!['\n'] + tail;
    let content = sig + seq!['\n'] + mid;
    assert(content == sig + seq!['\n'] + body + seq!['\n'] + seq!['}'] + seq!['\n'] + rest);
    assert(free_of(close, '\n'));
    lemma_lines_front(close, rest);
    lemma_lines_front(body, tail);
    lemma_lines_front(sig, mid);
    let x = lines(rest);
    let a = seq![sig, body, close];
    assert(lines(content) == a + x);
    // The signature opens the body, the body line stays in it, the closing
    // line leaves it.
    let t = trim(sig);
    if "fn "@.is_prefix_of(t) {
        reveal_strlit("fn ");
        assert(t.take(3) == t.subrange(0, 3));
        assert(starts_with(t, "fn "@));
    } else {
        reveal_strlit("pub fn");
        assert(t.take(6) == t.subrange(0, 6));
        assert(starts_with(t, "pub fn"@));
    }
    assert(is_function_declaration(t));
    lemma_scan_signature_plain(sig.drop_last());
    assert(scan(Nesting::Signature, sig) == Nesting::Body(1));
    lemma_scan_body_plain(body, 1);
    assert(close.drop_last() == Seq::<char>::empty());
    assert(close.last() == '}');
    assert(scan(Nesting::Body(1), Seq::<char>::empty()) == Nesting::Body(1));
    assert(step_nesting(Nesting::Body(1), '}') == Nesting::Outside);
    assert(scan(Nesting::Body(1), close) == Nesting::Outside);
    let a1 = seq![sig];
    let a2 = seq![sig, body];
    assert(a1.drop_last() == Seq::<Seq<char>>::empty());
    assert(a2.drop_last() == a1);
    assert(a.drop_last() == a2);
    assert(nesting_after(Seq::<Seq<char>>::empty()) == Nesting::Outside);
    assert(nesting_after(a1) == Nesting::Body(1));
    assert(line_opening(Nesting::Body(1), body) == Nesting::Body(1));
    assert(nesting_after(a2) == Nesting::Body(1));
    assert(nesting_after(a) == Nesting::Outside);
    assert(signature_lines(Seq::<Seq<char>>::empty()) == Seq::<Seq<char>>::empty());
    assert(Seq::<Seq<char>>::empty().push(sig) == a1);
    assert(signature_lines(a1) == a1);
    assert(signature_lines(a2) == a1);
    assert(signature_lines(a) == a1);
    lemma_signature_lines_append(a, x);
    lemma_join_front(sig, signature_lines(x));
    if rest.len() > 0 {
        lemma_signature_lines_not_empty(x);
    } else {
        assert(x.len() == 0);
    }
}

} // verus!
