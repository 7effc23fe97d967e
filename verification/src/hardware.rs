//! The modules that the sensor's board has found, read from the discovery
//! string `<version>+<module>+<module>...`.

use vstd::prelude::*;

verus! {

/// The pieces of `s` between its `+` signs, in order. A text without `+` is
/// one piece; the empty text is one empty piece.
pub open spec fn split_on_plus(s: Seq<char>) -> Seq<Seq<char>>
    decreases s.len(),
{
    if s.len() == 0 {
        seq![Seq::<char>::empty()]
    } else {
        let before = split_on_plus(s.drop_last());
        if s.last() == '+' {
            before.push(Seq::<char>::empty())
        } else {
            before.drop_last().push(before.last().push(s.last()))
        }
    }
}

/// Whether `i` is the position of the first `+` in `s`.
pub open spec fn is_first_plus(s: Seq<char>, i: int) -> bool {
    0 <= i < s.len() && s[i] == '+' && forall|j: int| 0 <= j < i ==> s[j] != '+'
}

/// The position of the first `+` in `s`, if it has one.
pub open spec fn first_plus(s: Seq<char>) -> Option<int> {
    if exists|i: int| 0 <= i < s.len() && s[i] == '+' {
        Some(choose|i: int| is_first_plus(s, i))
    } else {
        None
    }
}

/// The modules that a discovery string names: what follows the first `+`,
/// split on every `+`. Nothing when there is no `+` at all.
pub open spec fn modules_of(discovered: Seq<char>) -> Seq<Seq<char>> {
    match first_plus(discovered) {
        Some(i) => split_on_plus(discovered.skip(i + 1)),
        None => Seq::empty(),
    }
}

/// The pieces joined again, with a `+` between neighbours.
pub open spec fn join_with_plus(pieces: Seq<Seq<char>>) -> Seq<char>
    decreases pieces.len(),
{
    if pieces.len() == 0 {
        Seq::empty()
    } else if pieces.len() == 1 {
        pieces[0]
    } else {
        join_with_plus(pieces.drop_last()) + seq!['+'] + pieces.last()
    }
}

/// Splitting never gives nothing, no piece holds a `+`, and the pieces
/// joined with `+` are the text that was split.
pub proof fn lemma_split_on_plus(s: Seq<char>)
    ensures
        split_on_plus(s).len() >= 1,
        forall|k: int, j: int|
            0 <= k < split_on_plus(s).len() && 0 <= j < split_on_plus(s)[k].len()
                ==> split_on_plus(s)[k][j] != '+',
        join_with_plus(split_on_plus(s)) == s,
    decreases s.len(),
{
    if s.len() == 0 {
        assert(join_with_plus(split_on_plus(s)) =~= s);
    } else {
        let before = split_on_plus(s.drop_last());
        lemma_split_on_plus(s.drop_last());
        if s.last() == '+' {
            let now = before.push(Seq::<char>::empty());
            assert(now.drop_last() =~= before);
            assert(join_with_plus(now) =~= s);
        } else {
            let now = before.drop_last().push(before.last().push(s.last()));
            assert(now.drop_last() =~= before.drop_last());
            assert(s.drop_last().push(s.last()) =~= s);
            if before.len() == 1 {
                assert(join_with_plus(before) == before[0]);
                assert(now.len() == 1);
                assert(join_with_plus(now) == now[0]);
                assert(now[0] == before.last().push(s.last()));
            } else {
                assert(join_with_plus(before) == join_with_plus(before.drop_last()) + seq!['+']
                    + before.last());
                assert(join_with_plus(now) =~= s);
            }
        }
    }
}

/// A text with a `+` at `k` has a first `+`, at `k` or before.
proof fn lemma_first_plus_exists(s: Seq<char>, k: int)
    requires
        0 <= k < s.len(),
        s[k] == '+',
    ensures
        exists|i: int| is_first_plus(s, i),
    decreases k,
{
    if exists|j: int| 0 <= j < k && s[j] == '+' {
        let j = choose|j: int| 0 <= j < k && s[j] == '+';
        lemma_first_plus_exists(s, j);
    } else {
        assert(is_first_plus(s, k));
    }
}

/// A discovery string without `+` names no module. Any other is its
/// version tag, which holds no `+`, then a `+`, then its modules joined
/// with `+`.
pub proof fn lemma_modules_of(discovered: Seq<char>)
    ensures
        match first_plus(discovered) {
            None => modules_of(discovered).len() == 0 && forall|j: int|
                0 <= j < discovered.len() ==> discovered[j] != '+',
            Some(i) => is_first_plus(discovered, i) && discovered == discovered.take(i)
                + seq!['+'] + join_with_plus(modules_of(discovered)),
        },
{
    if exists|k: int| 0 <= k < discovered.len() && discovered[k] == '+' {
        let k = choose|k: int| 0 <= k < discovered.len() && discovered[k] == '+';
        lemma_first_plus_exists(discovered, k);
        let i = first_plus(discovered)->Some_0;
        assert(is_first_plus(discovered, i));
        lemma_split_on_plus(discovered.skip(i + 1));
        assert(discovered =~= discovered.take(i) + seq!['+'] + discovered.skip(i + 1));
    }
}

/// The views of the strings in `v`, in order.
pub open spec fn texts(v: Seq<String>) -> Seq<Seq<char>> {
    Seq::new(v.len(), |i: int| v[i]@)
}

/// The installed modules that the discovery string names, in order. A
/// string without any `+` names none.
pub fn hardware_on_the_board(hardware_discovered: String) -> (modules: Vec<String>)
    ensures
        texts(modules@) == modules_of(hardware_discovered@),
{
    let text: &str = hardware_discovered.as_str();
    let len: usize = text.unicode_len();
    let mut first: usize = 0;
    while first < len && text.get_char(first) != '+'
        invariant
            len == text@.len(),
            first <= len,
            forall|j: int| 0 <= j < first ==> text@[j] != '+',
        decreases len - first,
    {
        first += 1;
    }
    let mut modules: Vec<String> = Vec::new();
    if first == len {
        assert(texts(modules@) =~= Seq::<Seq<char>>::empty());
        return modules;
    }
    proof {
        let found = first_plus(text@)->Some_0;
        assert(is_first_plus(text@, first as int));
        assert(is_first_plus(text@, found));
        assert(found == first) by {
            if found < first {
            } else if found > first {
            }
        }
    }
    let rest: &str = text.substring_char(first + 1, len);
    let rest_len: usize = len - first - 1;
    let mut start: usize = 0;
    let mut i: usize = 0;
    proof {
        assert(rest@.take(0) =~= Seq::<char>::empty());
        assert(rest@.subrange(0, 0) =~= Seq::<char>::empty());
        assert(texts(modules@).push(rest@.subrange(0, 0)) =~= split_on_plus(rest@.take(0)));
    }
    while i < rest_len
        invariant
            rest_len == rest@.len(),
            start <= i <= rest_len,
            texts(modules@).push(rest@.subrange(start as int, i as int)) == split_on_plus(
                rest@.take(i as int),
            ),
        decreases rest_len - i,
    {
        let ghost before = split_on_plus(rest@.take(i as int));
        proof {
            assert(rest@.take(i + 1).drop_last() =~= rest@.take(i as int));
            assert(rest@.take(i + 1).last() == rest@[i as int]);
        }
        if rest.get_char(i) == '+' {
            let piece: String = String::from_str(rest.substring_char(start, i));
            let ghost done = texts(modules@);
            modules.push(piece);
            proof {
                assert(texts(modules@) =~= done.push(rest@.subrange(start as int, i as int)));
                assert(rest@.subrange(i + 1, i + 1) =~= Seq::<char>::empty());
            }
            start = i + 1;
        } else {
            proof {
                let done = texts(modules@);
                assert(before.drop_last() =~= done);
                assert(before.last() == rest@.subrange(start as int, i as int));
                assert(rest@.subrange(start as int, i + 1) =~= rest@.subrange(
                    start as int,
                    i as int,
                ).push(rest@[i as int]));
            }
        }
        i += 1;
    }
    let piece: String = String::from_str(rest.substring_char(start, rest_len));
    let ghost done = texts(modules@);
    modules.push(piece);
    proof {
        assert(rest@.take(rest_len as int) =~= rest@);
        assert(texts(modules@) =~= done.push(rest@.subrange(start as int, rest_len as int)));
        assert(rest@ =~= text@.skip(first + 1));
    }
    modules
}

} // verus!
